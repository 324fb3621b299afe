//! The playback queue of one guild.

use std::collections::VecDeque;
use vstd::prelude::*;

use crate::error::PlayerError;
use crate::track::{Track, TrackView};

verus! {

/// What the player of a guild is doing.
#[derive(Clone, Copy, Debug, PartialEq, Eq, Structural)]
pub enum PlaybackState {
    /// Nothing is queued.
    Empty,
    /// The head of the queue is being rendered.
    Playing,
    /// The head of the queue is held.
    Paused,
    /// Tracks remain but none is being rendered or held.
    Stopped,
}

/// The running times of `entries` added up, in seconds.
pub open spec fn total_duration(entries: Seq<TrackView>) -> nat
    decreases entries.len(),
{
    if entries.len() == 0 {
        0
    } else {
        total_duration(entries.drop_last()) + entries.last().duration_secs
    }
}

/// A queue as plain values: the tracks in queue order, the first of them
/// being the one now playing, and the playback state.
pub struct QueueView {
    pub entries: Seq<TrackView>,
    pub state: PlaybackState,
}

impl QueueView {
    /// The queue is `Empty` exactly when it holds no track.
    pub open spec fn wf(self) -> bool {
        self.state is Empty <==> self.entries.len() == 0
    }

    /// The queue with no track.
    pub open spec fn empty() -> QueueView {
        QueueView { entries: Seq::empty(), state: PlaybackState::Empty }
    }

    /// Whether a track is now playing, rendered or held.
    pub open spec fn has_current(self) -> bool {
        self.state is Playing || self.state is Paused
    }

    /// The queue after `track` joined its tail. An empty queue starts to
    /// play; any other keeps its state.
    pub open spec fn enqueue(self, track: TrackView) -> QueueView {
        QueueView {
            entries: self.entries.push(track),
            state: if self.state is Empty {
                PlaybackState::Playing
            } else {
                self.state
            },
        }
    }

    /// The queue after each of `tracks` joined its tail, in their order.
    pub open spec fn enqueue_all(self, tracks: Seq<TrackView>) -> QueueView
        decreases tracks.len(),
    {
        if tracks.len() == 0 {
            self
        } else {
            self.enqueue_all(tracks.drop_last()).enqueue(tracks.last())
        }
    }

    /// The queue after its head left: the next track plays, or the queue is
    /// `Empty` when none remains.
    pub open spec fn advance(self) -> QueueView {
        let rest = self.entries.drop_first();
        QueueView {
            entries: rest,
            state: if rest.len() == 0 {
                PlaybackState::Empty
            } else {
                PlaybackState::Playing
            },
        }
    }

    /// The outcome of a skip: legal while a track is now playing.
    pub open spec fn skip(self) -> Result<QueueView, PlayerError> {
        if self.has_current() {
            Ok(self.advance())
        } else {
            Err(PlayerError::InvalidState)
        }
    }

    /// The queue after its head ran to its end: like a skip where a skip is
    /// legal, and no change where it is not.
    pub open spec fn track_finished(self) -> QueueView {
        if self.has_current() {
            self.advance()
        } else {
            self
        }
    }

    /// The outcome of a pause: legal only while playing.
    pub open spec fn pause(self) -> Result<QueueView, PlayerError> {
        if self.state is Playing {
            Ok(QueueView { state: PlaybackState::Paused, ..self })
        } else {
            Err(PlayerError::InvalidState)
        }
    }

    /// The outcome of a resume: legal only while paused.
    pub open spec fn resume(self) -> Result<QueueView, PlayerError> {
        if self.state is Paused {
            Ok(QueueView { state: PlaybackState::Playing, ..self })
        } else {
            Err(PlayerError::InvalidState)
        }
    }

    /// The queue after it was cleared.
    pub open spec fn clear(self) -> QueueView {
        QueueView::empty()
    }

    /// The running time of everything queued, in seconds.
    pub open spec fn total_secs(self) -> nat {
        total_duration(self.entries)
    }
}

/// A copy of a queue at one moment: its tracks in order, the first being the
/// one now playing, and their running times added up.
#[derive(Debug)]
pub struct QueueSnapshot {
    pub entries: Vec<Track>,
    pub total_secs: u128,
    pub state: PlaybackState,
}

impl View for QueueSnapshot {
    type V = QueueView;

    open spec fn view(&self) -> QueueView {
        QueueView { entries: self.entries.deep_view(), state: self.state }
    }
}

/// The playback queue of one guild.
#[derive(Debug)]
pub struct PlaybackQueue {
    entries: VecDeque<Track>,
    state: PlaybackState,
}

impl View for PlaybackQueue {
    type V = QueueView;

    closed spec fn view(&self) -> QueueView {
        QueueView { entries: self.entries.deep_view(), state: self.state }
    }
}

impl PlaybackQueue {
    #[verifier::type_invariant]
    spec fn well_formed(self) -> bool {
        self@.wf()
    }

    /// A queue that holds nothing.
    pub fn new() -> (queue: PlaybackQueue)
        ensures
            queue@ == QueueView::empty(),
    {
        let queue = PlaybackQueue { entries: VecDeque::new(), state: PlaybackState::Empty };
        assert(queue@.entries =~= Seq::empty());
        queue
    }

    /// Moves the tracks and the state out and leaves an empty queue behind.
    fn take_parts(&mut self) -> (parts: (VecDeque<Track>, PlaybackState))
        ensures
            parts.0.deep_view() == old(self)@.entries,
            parts.1 == old(self)@.state,
            old(self)@.wf(),
            final(self)@ == QueueView::empty(),
    {
        proof {
            use_type_invariant(&*self);
        }
        let mut taken = PlaybackQueue::new();
        core::mem::swap(self, &mut taken);
        (taken.entries, taken.state)
    }

    /// Puts `track` at the tail of the queue and returns its place in the
    /// queue, counted from one. An empty queue starts to play it.
    pub fn enqueue(&mut self, track: Track) -> (position: usize)
        ensures
            final(self)@ == old(self)@.enqueue(track@),
            final(self)@.wf(),
            position == old(self)@.entries.len() + 1,
    {
        let (mut entries, state) = self.take_parts();
        let ghost before = entries.deep_view();
        entries.push_back(track);
        assert(entries.deep_view() =~= before.push(track@));
        let position = entries.len();
        let next = if state == PlaybackState::Empty {
            PlaybackState::Playing
        } else {
            state
        };
        *self = PlaybackQueue { entries, state: next };
        position
    }

    /// Drops the track now playing and goes on with the next one. A paused
    /// queue plays again. `InvalidState` when no track is now playing; the
    /// queue is then left as it was.
    pub fn skip(&mut self) -> (outcome: Result<(), PlayerError>)
        ensures
            outcome is Ok <==> old(self)@.has_current(),
            outcome is Ok ==> old(self)@.skip() == Ok::<QueueView, PlayerError>(final(self)@),
            outcome is Err ==> outcome == Err::<(), PlayerError>(PlayerError::InvalidState)
                && final(self)@ == old(self)@,
            final(self)@.wf(),
    {
        if self.track_finished() {
            Ok(())
        } else {
            Err(PlayerError::InvalidState)
        }
    }

    /// Tells the queue that the track now playing ran to its end. The queue
    /// goes on as after a skip and the answer is `true`; where no track is
    /// now playing nothing changes and the answer is `false`.
    pub fn track_finished(&mut self) -> (advanced: bool)
        ensures
            advanced == old(self)@.has_current(),
            final(self)@ == old(self)@.track_finished(),
            final(self)@.wf(),
    {
        let (mut entries, state) = self.take_parts();
        let ghost before = entries.deep_view();
        let current = match state {
            PlaybackState::Playing => true,
            PlaybackState::Paused => true,
            _ => false,
        };
        if current {
            let _ = entries.pop_front();
            assert(entries.deep_view() =~= before.drop_first());
            let next = if entries.len() == 0 {
                PlaybackState::Empty
            } else {
                PlaybackState::Playing
            };
            *self = PlaybackQueue { entries, state: next };
        } else {
            *self = PlaybackQueue { entries, state };
        }
        current
    }

    /// Holds the track now playing. `InvalidState` unless the queue is
    /// playing; the queue is then left as it was.
    pub fn pause(&mut self) -> (outcome: Result<(), PlayerError>)
        ensures
            outcome is Ok <==> old(self)@.state is Playing,
            outcome is Ok ==> old(self)@.pause() == Ok::<QueueView, PlayerError>(final(self)@),
            outcome is Err ==> outcome == Err::<(), PlayerError>(PlayerError::InvalidState)
                && final(self)@ == old(self)@,
            final(self)@.wf(),
    {
        let (entries, state) = self.take_parts();
        if state == PlaybackState::Playing {
            *self = PlaybackQueue { entries, state: PlaybackState::Paused };
            Ok(())
        } else {
            *self = PlaybackQueue { entries, state };
            Err(PlayerError::InvalidState)
        }
    }

    /// Goes on with the track that is held. `InvalidState` unless the queue
    /// is paused; the queue is then left as it was.
    pub fn resume(&mut self) -> (outcome: Result<(), PlayerError>)
        ensures
            outcome is Ok <==> old(self)@.state is Paused,
            outcome is Ok ==> old(self)@.resume() == Ok::<QueueView, PlayerError>(final(self)@),
            outcome is Err ==> outcome == Err::<(), PlayerError>(PlayerError::InvalidState)
                && final(self)@ == old(self)@,
            final(self)@.wf(),
    {
        let (entries, state) = self.take_parts();
        if state == PlaybackState::Paused {
            *self = PlaybackQueue { entries, state: PlaybackState::Playing };
            Ok(())
        } else {
            *self = PlaybackQueue { entries, state };
            Err(PlayerError::InvalidState)
        }
    }

    /// Empties the queue, whatever it held.
    pub fn clear(&mut self)
        ensures
            final(self)@ == old(self)@.clear(),
            final(self)@.wf(),
    {
        let _ = self.take_parts();
    }

    /// What the player is doing.
    pub fn state(&self) -> (state: PlaybackState)
        ensures
            state == self@.state,
            self@.wf(),
    {
        proof {
            use_type_invariant(self);
        }
        self.state
    }

    /// How many tracks are queued, the one now playing included.
    pub fn len(&self) -> (count: usize)
        ensures
            count == self@.entries.len(),
    {
        self.entries.len()
    }

    /// Whether nothing is queued.
    pub fn is_empty(&self) -> (empty: bool)
        ensures
            empty == (self@.entries.len() == 0),
            empty == (self@.state is Empty),
    {
        proof {
            use_type_invariant(self);
        }
        self.entries.len() == 0
    }

    /// The track now playing, rendered or held, if there is one.
    pub fn now_playing(&self) -> (current: Option<&Track>)
        ensures
            current is Some <==> self@.has_current(),
            current matches Some(track) ==> track@ == self@.entries[0],
    {
        proof {
            use_type_invariant(self);
        }
        match self.state {
            PlaybackState::Playing | PlaybackState::Paused => Some(&self.entries[0]),
            _ => None,
        }
    }

    /// A copy of the queue as it stands: every track in queue order, the
    /// one now playing first, the running times added up, and the state.
    /// The queue itself is left untouched.
    pub fn snapshot(&self) -> (snapshot: QueueSnapshot)
        ensures
            snapshot@ == self@,
            snapshot.total_secs == self@.total_secs(),
    {
        let mut copies: Vec<Track> = Vec::new();
        let mut total: u128 = 0;
        let count = self.entries.len();
        let mut i: usize = 0;
        while i < count
            invariant
                count == self.entries@.len(),
                i <= count,
                copies.deep_view() == self.entries.deep_view().take(i as int),
                total == total_duration(self.entries.deep_view().take(i as int)),
                total <= i * u64::MAX,
            decreases count - i,
        {
            let track = &self.entries[i];
            let secs = track.duration_secs();
            proof {
                let all = self.entries.deep_view();
                assert(all.take(i + 1).drop_last() =~= all.take(i as int));
                assert((i + 1) * u64::MAX == i * u64::MAX + u64::MAX) by (nonlinear_arith);
                assert((i + 1) * u64::MAX <= usize::MAX * u64::MAX) by (nonlinear_arith)
                    requires
                        i + 1 <= usize::MAX,
                ;
            }
            total = total + secs as u128;
            copies.push(track.clone());
            i = i + 1;
        }
        assert(self.entries.deep_view().take(count as int) =~= self.entries.deep_view());
        QueueSnapshot { entries: copies, total_secs: total, state: self.state }
    }

    /// The locators of the queued tracks, in queue order: what a playlist
    /// made of this queue holds.
    pub fn locators(&self) -> (list: Vec<String>)
        ensures
            list.deep_view() == self@.entries.map_values(|t: TrackView| t.source_locator),
    {
        let mut list: Vec<String> = Vec::new();
        let count = self.entries.len();
        let mut i: usize = 0;
        while i < count
            invariant
                count == self.entries@.len(),
                i <= count,
                list.deep_view() == self.entries.deep_view().take(i as int).map_values(
                    |t: TrackView| t.source_locator,
                ),
            decreases count - i,
        {
            let ghost before = list.deep_view();
            let locator = self.entries[i].source_locator().clone();
            list.push(locator);
            assert(list.deep_view() =~= before.push(locator@));
            i = i + 1;
        }
        list
    }
}

} // verus!
