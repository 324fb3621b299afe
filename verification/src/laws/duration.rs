//! What holds of the text of every duration.

use vstd::prelude::*;

use crate::duration::{decimal, digit_char, duration_text, hours_of, minutes_of, seconds_of};

verus! {

/// The number that a digit stands for.
pub open spec fn digit_value(c: char) -> nat {
    if c == '1' {
        1
    } else if c == '2' {
        2
    } else if c == '3' {
        3
    } else if c == '4' {
        4
    } else if c == '5' {
        5
    } else if c == '6' {
        6
    } else if c == '7' {
        7
    } else if c == '8' {
        8
    } else if c == '9' {
        9
    } else {
        0
    }
}

/// The number that a decimal numeral stands for.
pub open spec fn numeral_value(numeral: Seq<char>) -> nat
    decreases numeral.len(),
{
    if numeral.len() == 0 {
        0
    } else {
        numeral_value(numeral.drop_last()) * 10 + digit_value(numeral.last())
    }
}

/// How many colons `text` holds.
pub open spec fn colons(text: Seq<char>) -> nat
    decreases text.len(),
{
    if text.len() == 0 {
        0
    } else {
        colons(text.drop_last()) + if text.last() == ':' {
            1nat
        } else {
            0nat
        }
    }
}

/// Hours, minutes and seconds take a duration apart without a rest:
/// together they make up the seconds they were taken from, and there are
/// never sixty minutes or sixty seconds.
pub proof fn lemma_duration_parts(secs: nat)
    ensures
        hours_of(secs) * 3600 + minutes_of(secs) * 60 + seconds_of(secs) == secs,
        minutes_of(secs) < 60,
        seconds_of(secs) < 60,
{
    let rest = secs % 3600;
    assert(rest % 60 == secs % 60) by (nonlinear_arith)
        requires
            rest == secs % 3600,
    ;
}

/// The numeral of a number is made of digits, has at least one of them,
/// begins with a zero only when the number is below ten, and stands for
/// the number: two numbers never share a numeral.
pub proof fn lemma_decimal_is_a_numeral(n: nat)
    ensures
        decimal(n).len() >= 1,
        forall|i: int| 0 <= i < decimal(n).len() ==> '0' <= #[trigger] decimal(n)[i] <= '9',
        n >= 10 ==> decimal(n)[0] != '0',
        n < 10 ==> decimal(n).len() == 1,
        numeral_value(decimal(n)) == n,
        colons(decimal(n)) == 0,
    decreases n,
{
    if n < 10 {
        let numeral = decimal(n);
        assert(numeral_value(numeral) == n) by {
            reveal_with_fuel(numeral_value, 2);
        }
        assert(colons(numeral) == 0) by {
            reveal_with_fuel(colons, 2);
        }
    } else {
        lemma_decimal_is_a_numeral(n / 10);
        let front = decimal(n / 10);
        let numeral = decimal(n);
        assert(numeral.drop_last() =~= front);
        assert forall|i: int| 0 <= i < numeral.len() implies '0' <= #[trigger] numeral[i]
            <= '9' by {
            if i < front.len() {
                assert(numeral[i] == front[i]);
            }
        }
    }
}

/// The colons of two texts put together are those of the one and those of
/// the other.
pub proof fn lemma_colons_concat(front: Seq<char>, back: Seq<char>)
    ensures
        colons(front + back) == colons(front) + colons(back),
    decreases back.len(),
{
    if back.len() > 0 {
        lemma_colons_concat(front, back.drop_last());
        assert((front + back).drop_last() =~= front + back.drop_last());
    }
}

/// The hours are shown exactly when there is at least one: the text of a
/// duration under an hour has one colon, between minutes and seconds, and
/// the text of any longer duration has two.
pub proof fn lemma_hours_only_when_needed(secs: nat)
    ensures
        secs < 3600 ==> duration_text(secs) == decimal(secs / 60) + seq![':'] + decimal(secs % 60),
        colons(duration_text(secs)) == (if secs < 3600 {
            1nat
        } else {
            2nat
        }),
{
    let colon = seq![':'];
    assert(colons(colon) == 1) by {
        reveal_with_fuel(colons, 2);
    }
    lemma_decimal_is_a_numeral(hours_of(secs));
    lemma_decimal_is_a_numeral(minutes_of(secs));
    lemma_decimal_is_a_numeral(seconds_of(secs));
    let tail = decimal(minutes_of(secs)) + colon + decimal(seconds_of(secs));
    lemma_colons_concat(decimal(minutes_of(secs)), colon);
    lemma_colons_concat(decimal(minutes_of(secs)) + colon, decimal(seconds_of(secs)));
    lemma_colons_concat(decimal(hours_of(secs)), colon);
    lemma_colons_concat(decimal(hours_of(secs)) + colon, tail);
}

} // verus!
