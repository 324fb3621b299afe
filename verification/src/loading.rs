//! Bringing a list of locators into a queue, some of which may have failed
//! to resolve.

use vstd::prelude::*;

use crate::queue::PlaybackQueue;
use crate::track::{is_url_shaped, Track, TrackView};

verus! {

/// What came of resolving one locator: the track, or the locator that no
/// track could be made of.
#[derive(Debug, PartialEq, Eq)]
pub enum Resolution {
    Resolved(Track),
    Failed(String),
}

/// A resolution as plain values.
pub enum ResolutionView {
    Resolved(TrackView),
    Failed(Seq<char>),
}

impl View for Resolution {
    type V = ResolutionView;

    open spec fn view(&self) -> ResolutionView {
        match self {
            Resolution::Resolved(track) => ResolutionView::Resolved(track@),
            Resolution::Failed(locator) => ResolutionView::Failed(locator@),
        }
    }
}

impl DeepView for Resolution {
    type V = ResolutionView;

    open spec fn deep_view(&self) -> ResolutionView {
        self@
    }
}

/// The tracks among `outcomes`, in their order.
pub open spec fn resolved_tracks(outcomes: Seq<ResolutionView>) -> Seq<TrackView>
    decreases outcomes.len(),
{
    if outcomes.len() == 0 {
        Seq::empty()
    } else {
        let front = resolved_tracks(outcomes.drop_last());
        match outcomes.last() {
            ResolutionView::Resolved(track) => front.push(track),
            ResolutionView::Failed(_) => front,
        }
    }
}

/// The locators among `outcomes` that failed to resolve, in their order.
pub open spec fn failed_locators(outcomes: Seq<ResolutionView>) -> Seq<Seq<char>>
    decreases outcomes.len(),
{
    if outcomes.len() == 0 {
        Seq::empty()
    } else {
        let front = failed_locators(outcomes.drop_last());
        match outcomes.last() {
            ResolutionView::Resolved(_) => front,
            ResolutionView::Failed(locator) => front.push(locator),
        }
    }
}

/// What a resolver's answer for `locator` amounts to: a track when the
/// locator is shaped like a URL and both the title and the running time are
/// known, and a failure of that locator otherwise.
pub open spec fn resolution_of(
    locator: Seq<char>,
    title: Option<Seq<char>>,
    duration_secs: Option<nat>,
) -> ResolutionView {
    if is_url_shaped(locator) && title is Some && duration_secs is Some {
        ResolutionView::Resolved(
            TrackView {
                source_locator: locator,
                title: title->Some_0,
                duration_secs: duration_secs->Some_0,
            },
        )
    } else {
        ResolutionView::Failed(locator)
    }
}

/// Turns what a resolver found out about `locator` into a resolution. A
/// track is never made with a part missing: without a title or without a
/// running time the locator counts as failed.
pub fn resolve(locator: String, title: Option<String>, duration_secs: Option<u64>) -> (outcome:
    Resolution)
    ensures
        outcome@ == resolution_of(
            locator@,
            match title {
                Some(text) => Some(text@),
                None => None,
            },
            match duration_secs {
                Some(secs) => Some(secs as nat),
                None => None,
            },
        ),
{
    match (title, duration_secs) {
        (Some(text), Some(secs)) => {
            let kept = locator.clone();
            match Track::new(locator, text, secs) {
                Ok(track) => Resolution::Resolved(track),
                Err(_) => Resolution::Failed(kept),
            }
        },
        _ => Resolution::Failed(locator),
    }
}

impl PlaybackQueue {
    /// Enqueues every track among `outcomes`, in their order, and returns
    /// the locators that failed to resolve, in their order. A failure does
    /// not stop the rest: what resolved is enqueued, before and after it.
    pub fn enqueue_resolved(&mut self, outcomes: Vec<Resolution>) -> (failed: Vec<String>)
        ensures
            final(self)@ == old(self)@.enqueue_all(resolved_tracks(outcomes.deep_view())),
            failed.deep_view() == failed_locators(outcomes.deep_view()),
    {
        let mut failed: Vec<String> = Vec::new();
        let ghost all = outcomes.deep_view();
        let ghost items = outcomes@;
        let ghost start = self@;
        for outcome in it: outcomes
            invariant
                it.seq() == items,
                all.len() == items.len(),
                forall|i: int| 0 <= i < items.len() ==> all[i] == (#[trigger] items[i])@,
                self@ == start.enqueue_all(resolved_tracks(all.take(it.index() as int))),
                failed.deep_view() == failed_locators(all.take(it.index() as int)),
        {
            proof {
                let upto = all.take(it.index() + 1);
                assert(upto.drop_last() =~= all.take(it.index() as int));
            }
            match outcome {
                Resolution::Resolved(track) => {
                    proof {
                        let front = resolved_tracks(all.take(it.index() as int));
                        assert(front.push(track@).drop_last() =~= front);
                    }
                    self.enqueue(track);
                },
                Resolution::Failed(locator) => {
                    failed.push(locator);
                },
            }
        }
        assert(all.take(all.len() as int) =~= all);
        failed
    }
}

} // verus!
