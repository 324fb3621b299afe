//! What holds of every list of resolutions that is brought into a queue.

use vstd::prelude::*;

use crate::laws::queue::lemma_enqueue_keeps_call_order;
use crate::loading::{failed_locators, resolved_tracks, ResolutionView};
use crate::queue::QueueView;

verus! {

/// Every outcome is accounted for once: it gave a track that is enqueued,
/// or its locator is reported as failed.
pub proof fn lemma_every_outcome_is_accounted_for(outcomes: Seq<ResolutionView>)
    ensures
        resolved_tracks(outcomes).len() + failed_locators(outcomes).len() == outcomes.len(),
    decreases outcomes.len(),
{
    if outcomes.len() > 0 {
        lemma_every_outcome_is_accounted_for(outcomes.drop_last());
    }
}

/// An outcome that joins the end of a list adds its track behind the tracks
/// of the list, or its locator behind the failures of the list, and nothing
/// else: a failure leaves the tracks before and after it where they are.
pub proof fn lemma_outcomes_keep_their_order(
    outcomes: Seq<ResolutionView>,
    next: ResolutionView,
)
    ensures
        next matches ResolutionView::Resolved(track) ==> resolved_tracks(outcomes.push(next))
            == resolved_tracks(outcomes).push(track) && failed_locators(outcomes.push(next))
            == failed_locators(outcomes),
        next matches ResolutionView::Failed(locator) ==> resolved_tracks(outcomes.push(next))
            == resolved_tracks(outcomes) && failed_locators(outcomes.push(next))
            == failed_locators(outcomes).push(locator),
{
    assert(outcomes.push(next).drop_last() =~= outcomes);
}

/// A queue that took in a list of outcomes holds what it held before and,
/// behind that, the tracks of the list in their order.
pub proof fn lemma_loaded_tracks_follow_the_queue(queue: QueueView, outcomes: Seq<ResolutionView>)
    ensures
        queue.enqueue_all(resolved_tracks(outcomes)).entries == queue.entries + resolved_tracks(
            outcomes,
        ),
{
    lemma_enqueue_keeps_call_order(queue, resolved_tracks(outcomes));
}

} // verus!
