//! A track: where its audio comes from, what it is called, how long it runs.

use vstd::prelude::*;
use vstd::string::*;

use crate::error::PlayerError;
use crate::text::{has_prefix, starts_with};

verus! {

/// What a track is, as plain values.
pub struct TrackView {
    pub source_locator: Seq<char>,
    pub title: Seq<char>,
    pub duration_secs: nat,
}

/// Whether `locator` has the shape of a URL that the player accepts: it
/// begins with `http`.
pub open spec fn is_url_shaped(locator: Seq<char>) -> bool {
    has_prefix(locator, "http"@)
}

/// Whether `locator` has the shape of a URL that the player accepts.
pub fn is_valid_locator(locator: &str) -> (valid: bool)
    ensures
        valid == is_url_shaped(locator@),
{
    starts_with(locator, "http")
}

/// A streamable piece of audio. Once made, a track never changes.
#[derive(Debug, PartialEq, Eq)]
pub struct Track {
    source_locator: String,
    title: String,
    duration_secs: u64,
}

impl View for Track {
    type V = TrackView;

    closed spec fn view(&self) -> TrackView {
        TrackView {
            source_locator: self.source_locator@,
            title: self.title@,
            duration_secs: self.duration_secs as nat,
        }
    }
}

impl DeepView for Track {
    type V = TrackView;

    open spec fn deep_view(&self) -> TrackView {
        self@
    }
}

impl Clone for Track {
    fn clone(&self) -> (copy: Self)
        ensures
            copy@ == self@,
    {
        proof {
            use_type_invariant(self);
        }
        Track {
            source_locator: self.source_locator.clone(),
            title: self.title.clone(),
            duration_secs: self.duration_secs,
        }
    }
}

impl Track {
    #[verifier::type_invariant]
    spec fn well_formed(self) -> bool {
        is_url_shaped(self.source_locator@)
    }

    /// Makes a track, or reports `ResolutionFailed` when the locator is not
    /// shaped like a URL.
    pub fn new(source_locator: String, title: String, duration_secs: u64) -> (made: Result<
        Track,
        PlayerError,
    >)
        ensures
            is_url_shaped(source_locator@) ==> made is Ok && made->Ok_0@ == (TrackView {
                source_locator: source_locator@,
                title: title@,
                duration_secs: duration_secs as nat,
            }),
            !is_url_shaped(source_locator@) ==> made == Err::<Track, PlayerError>(
                PlayerError::ResolutionFailed,
            ),
    {
        if is_valid_locator(source_locator.as_str()) {
            Ok(Track { source_locator, title, duration_secs })
        } else {
            Err(PlayerError::ResolutionFailed)
        }
    }

    /// Where the audio of the track comes from: a locator that is shaped
    /// like a URL, and so is never empty.
    pub fn source_locator(&self) -> (locator: &String)
        ensures
            locator@ == self@.source_locator,
            is_url_shaped(locator@),
            locator@.len() > 0,
    {
        proof {
            use_type_invariant(self);
            reveal_strlit("http");
        }
        &self.source_locator
    }

    /// The name under which the track is shown.
    pub fn title(&self) -> (title: &String)
        ensures
            title@ == self@.title,
    {
        &self.title
    }

    /// How long the track runs, in whole seconds.
    pub fn duration_secs(&self) -> (secs: u64)
        ensures
            secs as nat == self@.duration_secs,
    {
        self.duration_secs
    }
}

} // verus!
