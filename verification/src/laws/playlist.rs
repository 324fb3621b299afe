//! What holds of the text of every playlist and of every playlist name.

use vstd::prelude::*;

use crate::playlist::{
    file_name_of, is_playlist_name, is_single_line, playlist_lines, playlist_text, scan_lines,
};

verus! {

/// A reader that has read `head` and then reads on through `tail`, which
/// holds no line feed, has closed no further line and has the characters of
/// `tail` behind those of the line that was open.
proof fn lemma_scan_without_line_feed(head: Seq<char>, tail: Seq<char>)
    requires
        is_single_line(tail),
    ensures
        scan_lines(head + tail) == (scan_lines(head).0, scan_lines(head).1 + tail),
    decreases tail.len(),
{
    if tail.len() > 0 {
        let shorter = tail.drop_last();
        assert forall|i: int| 0 <= i < shorter.len() implies #[trigger] shorter[i] != '\n' by {
            assert(shorter[i] == tail[i]);
        }
        lemma_scan_without_line_feed(head, shorter);
        assert((head + tail).drop_last() =~= head + shorter);
    }
}

/// A reader that has read the text of a list of one-line locators has
/// closed exactly those locators as lines, and no line is open.
proof fn lemma_scan_of_playlist_text(locators: Seq<Seq<char>>)
    requires
        forall|i: int| 0 <= i < locators.len() ==> is_single_line(#[trigger] locators[i]),
    ensures
        scan_lines(playlist_text(locators)) == (locators, Seq::<char>::empty()),
    decreases locators.len(),
{
    if locators.len() > 0 {
        let front = locators.drop_last();
        let last = locators.last();
        lemma_scan_of_playlist_text(front);
        lemma_scan_without_line_feed(playlist_text(front), last);
        let body = playlist_text(front) + last;
        let text = playlist_text(locators);
        assert(text.drop_last() =~= body);
    }
}

/// What was written is what is read: the lines of the text of a list of
/// locators are those locators, in their order, whenever no locator holds a
/// line feed. Empty locators are kept too.
pub proof fn lemma_playlist_round_trip(locators: Seq<Seq<char>>)
    requires
        forall|i: int| 0 <= i < locators.len() ==> is_single_line(#[trigger] locators[i]),
    ensures
        playlist_lines(playlist_text(locators)) == locators,
{
    lemma_scan_of_playlist_text(locators);
}

/// No line that a reader has closed, and no line that is open, holds a line
/// feed.
proof fn lemma_scanned_lines_are_single(text: Seq<char>)
    ensures
        is_single_line(scan_lines(text).1),
        forall|i: int|
            0 <= i < scan_lines(text).0.len() ==> is_single_line(#[trigger] scan_lines(text).0[i]),
    decreases text.len(),
{
    if text.len() > 0 {
        lemma_scanned_lines_are_single(text.drop_last());
    }
}

/// Every line read from a text is free of line feeds, whatever the text.
pub proof fn lemma_lines_are_single(text: Seq<char>)
    ensures
        forall|i: int|
            0 <= i < playlist_lines(text).len() ==> is_single_line(
                #[trigger] playlist_lines(text)[i],
            ),
{
    lemma_scanned_lines_are_single(text);
}

/// What a reader has closed and what it holds open, put together again,
/// is the text that it read.
proof fn lemma_scan_loses_nothing(text: Seq<char>)
    ensures
        playlist_text(scan_lines(text).0) + scan_lines(text).1 == text,
    decreases text.len(),
{
    if text.len() > 0 {
        let shorter = text.drop_last();
        lemma_scan_loses_nothing(shorter);
        let (closed, open) = scan_lines(shorter);
        if text.last() == '\n' {
            assert(closed.push(open).drop_last() =~= closed);
        } else {
            assert(playlist_text(closed) + open.push(text.last()) =~= (playlist_text(closed)
                + open).push(text.last()));
        }
    }
}

/// A text that is read and written again comes back as it was when it is
/// empty or ends in a line feed, and with the one missing line feed at its
/// end when it does not: a line feed at the end is neither needed nor in
/// the way.
pub proof fn lemma_text_round_trip(text: Seq<char>)
    ensures
        playlist_text(playlist_lines(text)) == (if text.len() == 0 || text.last() == '\n' {
            text
        } else {
            text.push('\n')
        }),
{
    lemma_scan_loses_nothing(text);
    let (closed, open) = scan_lines(text);
    if open.len() > 0 {
        assert(closed.push(open).drop_last() =~= closed);
    }
}

/// The file of a playlist with a valid name lies where the playlists lie:
/// its name is the playlist's name with `.list` behind it, holds no path
/// separator, and does not begin with a dot.
pub proof fn lemma_file_name_stays_in_place(name: Seq<char>)
    requires
        is_playlist_name(name),
    ensures
        file_name_of(name).len() == name.len() + 5,
        forall|i: int|
            0 <= i < file_name_of(name).len() ==> #[trigger] file_name_of(name)[i] != '/'
                && file_name_of(name)[i] != '\\',
        forall|i: int|
            0 <= i < name.len() ==> 'a' <= #[trigger] file_name_of(name)[i] <= 'z',
        name.len() > 0 ==> file_name_of(name)[0] != '.',
{
    reveal_strlit(".list");
    let file = file_name_of(name);
    assert forall|i: int| 0 <= i < file.len() implies #[trigger] file[i] != '/' && file[i]
        != '\\' by {
        if i < name.len() {
            assert(file[i] == name[i]);
        } else {
            assert(file[i] == ".list"@[i - name.len()]);
        }
    }
    assert forall|i: int| 0 <= i < name.len() implies 'a' <= #[trigger] file[i] <= 'z' by {
        assert(file[i] == name[i]);
    }
}

/// Two playlists share a file only when they share a name.
pub proof fn lemma_file_names_do_not_collide(first: Seq<char>, second: Seq<char>)
    requires
        file_name_of(first) == file_name_of(second),
    ensures
        first == second,
{
    reveal_strlit(".list");
    assert(file_name_of(second).len() == second.len() + 5);
    assert forall|i: int| 0 <= i < first.len() implies first[i] == second[i] by {
        assert(file_name_of(second)[i] == second[i]);
    }
}

} // verus!
