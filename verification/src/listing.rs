//! The listing of a queue as it is shown to the members of a guild.

use vstd::prelude::*;
use vstd::string::*;

use crate::duration::{decimal, duration_text, format_duration, push_decimal};
use crate::queue::QueueSnapshot;
use crate::track::{Track, TrackView};

verus! {

/// What the listing begins with.
pub const NOW_PLAYING: &'static str = "Now playing: ";

/// What stands between the track now playing and the tracks that wait.
pub const QUEUE_HEADING: &'static str = "\nQueue: \n";

/// What stands before the total running time.
pub const TOTAL_HEADING: &'static str = "\nTotal time: ";

/// What stands between the title of a track and its running time.
pub const CLOCK: &'static str = " 🕑 ";

/// What ends the line of a track.
pub const LINE_END: &'static str = "s\n";

/// What stands between the number of a waiting track and its title.
pub const GAP: &'static str = " ";

/// The line of one track: its title, the clock, its running time.
pub open spec fn track_line(track: TrackView) -> Seq<char> {
    track.title + CLOCK@ + duration_text(track.duration_secs) + LINE_END@
}

/// The lines of the tracks that wait, up to the one numbered `last`: each
/// bears its place behind the track now playing, counted from one.
pub open spec fn waiting_lines(entries: Seq<TrackView>, last: nat) -> Seq<char>
    decreases last,
{
    if last == 0 {
        Seq::empty()
    } else {
        waiting_lines(entries, (last - 1) as nat) + decimal(last) + GAP@ + track_line(
            entries[last as int],
        )
    }
}

/// The listing of a queue of `entries` whose running times add up to
/// `total_secs`: the track now playing, the tracks that wait with their
/// numbers, and the total running time.
pub open spec fn listing_text(entries: Seq<TrackView>, total_secs: nat) -> Seq<char> {
    let body = if entries.len() > 0 {
        track_line(entries[0]) + QUEUE_HEADING@ + waiting_lines(entries, (entries.len() - 1) as nat)
    } else {
        Seq::empty()
    };
    NOW_PLAYING@ + body + TOTAL_HEADING@ + duration_text(total_secs)
}

/// Appends the line of `track` to `text`.
fn push_track_line(text: &mut String, track: &Track)
    ensures
        final(text)@ == old(text)@ + track_line(track@),
{
    text.append(track.title().as_str());
    text.append(CLOCK);
    let time = format_duration(track.duration_secs() as u128);
    text.append(time.as_str());
    text.append(LINE_END);
}

/// Renders the listing of a queue from a snapshot of it.
pub fn render_listing(snapshot: &QueueSnapshot) -> (text: String)
    ensures
        text@ == listing_text(snapshot@.entries, snapshot.total_secs as nat),
{
    let entries = &snapshot.entries;
    let ghost views = snapshot@.entries;
    let mut text = String::new();
    text.append(NOW_PLAYING);
    if entries.len() > 0 {
        push_track_line(&mut text, &entries[0]);
        text.append(QUEUE_HEADING);
        let ghost head = text@;
        let mut i: usize = 1;
        while i < entries.len()
            invariant
                1 <= i <= entries.len(),
                views == entries.deep_view(),
                text@ == head + waiting_lines(views, (i - 1) as nat),
            decreases entries.len() - i,
        {
            push_decimal(&mut text, i as u128);
            text.append(GAP);
            push_track_line(&mut text, &entries[i]);
            i = i + 1;
        }
    }
    text.append(TOTAL_HEADING);
    let total = format_duration(snapshot.total_secs);
    text.append(total.as_str());
    text
}

} // verus!
