//! Named playlists: what a name may look like and how a list of locators is
//! written down as text.

use regex::Regex;
use vstd::prelude::*;
use vstd::string::*;

use crate::error::PlayerError;
use crate::text::push_char;

verus! {

/// Whether `name` may name a playlist: it holds lower-case letters `a` to
/// `z` and nothing else. The empty name is one of them.
pub open spec fn is_playlist_name(name: Seq<char>) -> bool {
    forall|i: int| 0 <= i < name.len() ==> 'a' <= #[trigger] name[i] <= 'z'
}

/// Whether `line` can be one line of a playlist: it holds no line feed.
pub open spec fn is_single_line(line: Seq<char>) -> bool {
    forall|i: int| 0 <= i < line.len() ==> #[trigger] line[i] != '\n'
}

/// The text of a playlist: every locator followed by a line feed, in order.
pub open spec fn playlist_text(locators: Seq<Seq<char>>) -> Seq<char>
    decreases locators.len(),
{
    if locators.len() == 0 {
        Seq::empty()
    } else {
        playlist_text(locators.drop_last()) + locators.last() + seq!['\n']
    }
}

/// Where a reader stands after `text`: the lines that a line feed has
/// closed, and the characters of the line that is still open.
pub open spec fn scan_lines(text: Seq<char>) -> (Seq<Seq<char>>, Seq<char>)
    decreases text.len(),
{
    if text.len() == 0 {
        (Seq::empty(), Seq::empty())
    } else {
        let (closed, open) = scan_lines(text.drop_last());
        if text.last() == '\n' {
            (closed.push(open), Seq::empty())
        } else {
            (closed, open.push(text.last()))
        }
    }
}

/// The lines of `text`: the pieces between its line feeds. A last line
/// counts without a line feed behind it as long as it is not empty, so a
/// text may end in a line feed or not.
pub open spec fn playlist_lines(text: Seq<char>) -> Seq<Seq<char>> {
    let (closed, open) = scan_lines(text);
    if open.len() > 0 {
        closed.push(open)
    } else {
        closed
    }
}

/// The name of the file that holds the playlist `name`.
pub open spec fn file_name_of(name: Seq<char>) -> Seq<char> {
    name + ".list"@
}

/// The pattern that a playlist name has to match from its first character
/// to its last.
pub const NAME_PATTERN: &'static str = "^[a-z]*$";

/// Compiles `pattern` with `Regex::new` and asks `Regex::is_match` whether
/// `text` matches it; `None` stands for a pattern that does not compile.
/// Only the pattern `^[a-z]*$` is admitted: a character class of the
/// letters `a` to `z`, repeated any number of times, between the anchors
/// for the start and the end of the text. It compiles, and a text matches
/// it exactly when each of its characters is one of those letters.
#[verifier::external_body]
fn matches_pattern(pattern: &str, text: &str) -> (hit: Option<bool>)
    requires
        pattern@ == NAME_PATTERN@,
    ensures
        hit == Some(is_playlist_name(text@)),
{
    match Regex::new(pattern) {
        Ok(compiled) => Some(compiled.is_match(text)),
        Err(_) => None,
    }
}

/// Whether `name` may name a playlist.
pub fn check_queue_name(name: &str) -> (valid: bool)
    ensures
        valid == is_playlist_name(name@),
{
    match matches_pattern(NAME_PATTERN, name) {
        Some(hit) => hit,
        None => false,
    }
}

/// The name of the file that holds the playlist `name`, or `InvalidName`
/// when `name` may not name a playlist. No name that passes can lead out of
/// the directory of the playlists.
pub fn playlist_file_name(name: &str) -> (file: Result<String, PlayerError>)
    ensures
        is_playlist_name(name@) ==> file is Ok && file->Ok_0@ == file_name_of(name@),
        !is_playlist_name(name@) ==> file == Err::<String, PlayerError>(PlayerError::InvalidName),
{
    if check_queue_name(name) {
        let mut file = name.to_owned();
        file.append(".list");
        Ok(file)
    } else {
        Err(PlayerError::InvalidName)
    }
}

/// Writes a list of locators down as the text of a playlist.
pub fn encode_playlist(locators: &Vec<String>) -> (text: String)
    ensures
        text@ == playlist_text(locators.deep_view()),
{
    let mut text = String::new();
    let mut i: usize = 0;
    proof {
        reveal_strlit("\n");
    }
    while i < locators.len()
        invariant
            i <= locators.len(),
            text@ == playlist_text(locators.deep_view().take(i as int)),
            "\n"@ == seq!['\n'],
        decreases locators.len() - i,
    {
        proof {
            let all = locators.deep_view();
            assert(all.take(i + 1).drop_last() =~= all.take(i as int));
        }
        text.append(locators[i].as_str());
        text.append("\n");
        i = i + 1;
    }
    assert(locators.deep_view().take(locators.len() as int) =~= locators.deep_view());
    text
}

/// Reads the text of a playlist back into its list of locators.
pub fn decode_playlist(text: &str) -> (locators: Vec<String>)
    ensures
        locators.deep_view() == playlist_lines(text@),
{
    let mut closed: Vec<String> = Vec::new();
    let mut open = String::new();
    for c in it: text.chars()
        invariant
            it.seq() == text@,
            closed.deep_view() == scan_lines(text@.take(it.index() as int)).0,
            open@ == scan_lines(text@.take(it.index() as int)).1,
    {
        proof {
            let upto = text@.take(it.index() + 1);
            assert(upto.drop_last() =~= text@.take(it.index() as int));
        }
        if c == '\n' {
            closed.push(open);
            open = String::new();
        } else {
            push_char(&mut open, c);
        }
    }
    assert(text@.take(text@.len() as int) =~= text@);
    if !open.as_str().is_empty() {
        closed.push(open);
    }
    closed
}

} // verus!
