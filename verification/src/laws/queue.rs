//! What holds of every playback queue, whatever calls led to it.

use vstd::prelude::*;

use crate::error::PlayerError;
use crate::queue::{total_duration, PlaybackState, QueueView};
use crate::track::TrackView;

verus! {

/// Tracks that are enqueued one after the other stand in the queue in the
/// order of the calls, behind what was there before. A queue that started
/// empty therefore holds exactly the enqueued tracks, in call order.
pub proof fn lemma_enqueue_keeps_call_order(queue: QueueView, tracks: Seq<TrackView>)
    ensures
        queue.enqueue_all(tracks).entries == queue.entries + tracks,
        QueueView::empty().enqueue_all(tracks).entries == tracks,
    decreases tracks.len(),
{
    if tracks.len() > 0 {
        lemma_enqueue_keeps_call_order(queue, tracks.drop_last());
        lemma_enqueue_keeps_call_order(QueueView::empty(), tracks.drop_last());
    }
}

/// Enqueueing on an empty queue starts playback; enqueueing on a queue that
/// holds something leaves the state as it is.
pub proof fn lemma_enqueue_state(queue: QueueView, track: TrackView)
    requires
        queue.wf(),
    ensures
        queue.state is Empty ==> queue.enqueue(track).state is Playing,
        queue.entries.len() > 0 ==> queue.enqueue(track).state == queue.state,
{
}

/// After any number of tracks were enqueued on an empty queue the queue
/// plays, unless there was none to enqueue.
pub proof fn lemma_enqueue_all_state(queue: QueueView, tracks: Seq<TrackView>)
    requires
        queue.wf(),
    ensures
        queue.enqueue_all(tracks).wf(),
        tracks.len() == 0 ==> queue.enqueue_all(tracks) == queue,
        tracks.len() > 0 && queue.state is Empty ==> queue.enqueue_all(tracks).state is Playing,
        !(queue.state is Empty) ==> queue.enqueue_all(tracks).state == queue.state,
    decreases tracks.len(),
{
    if tracks.len() > 0 {
        lemma_enqueue_all_state(queue, tracks.drop_last());
    }
}

/// A skip, or the natural end of the track, on a playing queue of one track
/// leaves the queue empty, in entries and in state.
pub proof fn lemma_last_track_leaves_empty(queue: QueueView)
    requires
        queue.state is Playing,
        queue.entries.len() == 1,
    ensures
        queue.skip() == Ok::<QueueView, PlayerError>(QueueView::empty()),
        queue.track_finished() == QueueView::empty(),
{
    assert(queue.entries.drop_first() =~= Seq::<TrackView>::empty());
}

/// A skip on a queue of more than one track leaves it playing its second
/// track, also when it was paused before.
pub proof fn lemma_skip_plays_next(queue: QueueView)
    requires
        queue.has_current(),
        queue.entries.len() > 1,
    ensures
        queue.skip() is Ok,
        queue.skip()->Ok_0.state is Playing,
        queue.skip()->Ok_0.entries == queue.entries.drop_first(),
        queue.skip()->Ok_0.entries[0] == queue.entries[1],
        queue.skip()->Ok_0.entries.len() == queue.entries.len() - 1,
{
}

/// A pause followed by a resume brings a playing queue back to where it
/// was: playing, with the same entries.
pub proof fn lemma_pause_then_resume(queue: QueueView)
    requires
        queue.state is Playing,
    ensures
        queue.pause() is Ok,
        queue.pause()->Ok_0.state is Paused,
        queue.pause()->Ok_0.entries == queue.entries,
        queue.pause()->Ok_0.resume() == Ok::<QueueView, PlayerError>(queue),
{
}

/// A pause of a queue that is already paused is refused, and so is a
/// resume of a queue that is playing.
pub proof fn lemma_repeated_pause_or_resume_is_refused(queue: QueueView)
    ensures
        queue.state is Paused ==> queue.pause() == Err::<QueueView, PlayerError>(
            PlayerError::InvalidState,
        ),
        queue.state is Playing ==> queue.resume() == Err::<QueueView, PlayerError>(
            PlayerError::InvalidState,
        ),
        queue.state is Empty ==> queue.pause() is Err && queue.resume() is Err && queue.skip()
            is Err,
{
}

/// No operation breaks the rule that a queue is empty in state exactly when
/// it is empty in entries.
pub proof fn lemma_operations_keep_well_formed(queue: QueueView, track: TrackView)
    requires
        queue.wf(),
    ensures
        QueueView::empty().wf(),
        queue.enqueue(track).wf(),
        queue.track_finished().wf(),
        queue.clear().wf(),
        queue.skip() matches Ok(next) ==> next.wf(),
        queue.pause() matches Ok(next) ==> next.wf(),
        queue.resume() matches Ok(next) ==> next.wf(),
{
}

/// No operation brings a queue into the `Stopped` state: a queue that is
/// made empty and then only used through its operations is never stopped.
pub proof fn lemma_stopped_is_never_entered(queue: QueueView, track: TrackView)
    requires
        !(queue.state is Stopped),
    ensures
        !(QueueView::empty().state is Stopped),
        !(queue.enqueue(track).state is Stopped),
        !(queue.track_finished().state is Stopped),
        !(queue.clear().state is Stopped),
        queue.skip() matches Ok(next) ==> !(next.state is Stopped),
        queue.pause() matches Ok(next) ==> !(next.state is Stopped),
        queue.resume() matches Ok(next) ==> !(next.state is Stopped),
{
}

/// Clearing is idempotent: a cleared queue is empty, and clearing it again
/// changes nothing.
pub proof fn lemma_clear_is_idempotent(queue: QueueView)
    ensures
        queue.clear() == QueueView::empty(),
        queue.clear().clear() == queue.clear(),
{
}

/// The total running time of a list of tracks that grew by one track grew
/// by the running time of that track.
pub proof fn lemma_total_duration_push(entries: Seq<TrackView>, track: TrackView)
    ensures
        total_duration(entries.push(track)) == total_duration(entries) + track.duration_secs,
{
    assert(entries.push(track).drop_last() =~= entries);
}

/// The total running time of two lists of tracks put together is the sum of
/// their totals.
pub proof fn lemma_total_duration_concat(front: Seq<TrackView>, back: Seq<TrackView>)
    ensures
        total_duration(front + back) == total_duration(front) + total_duration(back),
    decreases back.len(),
{
    if back.len() > 0 {
        lemma_total_duration_concat(front, back.drop_last());
        assert((front + back).drop_last() =~= front + back.drop_last());
    }
}

/// What a queue reports as its total running time grows with each track
/// enqueued by that track's running time, and shrinks by the running time
/// of the head when the head leaves.
pub proof fn lemma_total_follows_the_entries(queue: QueueView, track: TrackView)
    ensures
        QueueView::empty().total_secs() == 0,
        queue.enqueue(track).total_secs() == queue.total_secs() + track.duration_secs,
        queue.entries.len() > 0 ==> queue.advance().total_secs() + queue.entries[0].duration_secs
            == queue.total_secs(),
{
    lemma_total_duration_push(queue.entries, track);
    if queue.entries.len() > 0 {
        let head = seq![queue.entries[0]];
        lemma_total_duration_concat(head, queue.entries.drop_first());
        assert(head + queue.entries.drop_first() =~= queue.entries);
        assert(total_duration(head) == queue.entries[0].duration_secs) by {
            reveal_with_fuel(total_duration, 2);
        }
    }
}

} // verus!
