use guild_player::{PlaybackQueue, PlaybackState, PlayerError, Track};

fn track(locator: &str, title: &str, secs: u64) -> Track {
    Track::new(locator.to_string(), title.to_string(), secs).unwrap()
}

fn three() -> PlaybackQueue {
    let mut queue = PlaybackQueue::new();
    queue.enqueue(track("https://a", "a", 10));
    queue.enqueue(track("https://b", "b", 20));
    queue.enqueue(track("https://c", "c", 30));
    queue
}

#[test]
fn new_queue_is_empty() {
    let queue = PlaybackQueue::new();
    assert_eq!(queue.state(), PlaybackState::Empty);
    assert_eq!(queue.len(), 0);
    assert!(queue.is_empty());
    assert!(queue.now_playing().is_none());
    let snapshot = queue.snapshot();
    assert!(snapshot.entries.is_empty());
    assert_eq!(snapshot.total_secs, 0);
    assert_eq!(snapshot.state, PlaybackState::Empty);
}

#[test]
fn enqueue_on_empty_starts_playing() {
    let mut queue = PlaybackQueue::new();
    let position = queue.enqueue(track("https://a", "a", 10));
    assert_eq!(position, 1);
    assert_eq!(queue.state(), PlaybackState::Playing);
    assert_eq!(queue.now_playing(), Some(&track("https://a", "a", 10)));
}

#[test]
fn enqueue_on_playing_keeps_state() {
    let mut queue = PlaybackQueue::new();
    queue.enqueue(track("https://a", "a", 10));
    let position = queue.enqueue(track("https://b", "b", 20));
    assert_eq!(position, 2);
    assert_eq!(queue.state(), PlaybackState::Playing);
    assert_eq!(queue.now_playing(), Some(&track("https://a", "a", 10)));
}

#[test]
fn enqueue_on_paused_keeps_state() {
    let mut queue = PlaybackQueue::new();
    queue.enqueue(track("https://a", "a", 10));
    assert_eq!(queue.pause(), Ok(()));
    let position = queue.enqueue(track("https://b", "b", 20));
    assert_eq!(position, 2);
    assert_eq!(queue.state(), PlaybackState::Paused);
    assert_eq!(queue.len(), 2);
}

#[test]
fn snapshot_holds_tracks_in_call_order() {
    let queue = three();
    let snapshot = queue.snapshot();
    assert_eq!(
        snapshot.entries,
        vec![track("https://a", "a", 10), track("https://b", "b", 20), track("https://c", "c", 30)]
    );
    assert_eq!(snapshot.state, PlaybackState::Playing);
}

#[test]
fn snapshot_total_is_sum_of_durations() {
    let queue = three();
    assert_eq!(queue.snapshot().total_secs, 60);
}

#[test]
fn snapshot_total_does_not_overflow() {
    let mut queue = PlaybackQueue::new();
    queue.enqueue(track("https://a", "a", u64::MAX));
    queue.enqueue(track("https://b", "b", u64::MAX));
    queue.enqueue(track("https://c", "c", 2));
    assert_eq!(queue.snapshot().total_secs, 2 * (u64::MAX as u128) + 2);
}

#[test]
fn snapshot_leaves_queue_untouched() {
    let mut queue = three();
    assert_eq!(queue.pause(), Ok(()));
    let first = queue.snapshot();
    let second = queue.snapshot();
    assert_eq!(first.entries, second.entries);
    assert_eq!(first.total_secs, second.total_secs);
    assert_eq!(second.state, PlaybackState::Paused);
    assert_eq!(queue.len(), 3);
    assert_eq!(queue.state(), PlaybackState::Paused);
}

#[test]
fn skip_on_single_entry_empties_queue() {
    let mut queue = PlaybackQueue::new();
    queue.enqueue(track("https://a", "a", 10));
    assert_eq!(queue.skip(), Ok(()));
    assert_eq!(queue.state(), PlaybackState::Empty);
    assert!(queue.snapshot().entries.is_empty());
}

#[test]
fn track_finished_on_single_entry_empties_queue() {
    let mut queue = PlaybackQueue::new();
    queue.enqueue(track("https://a", "a", 10));
    assert!(queue.track_finished());
    assert_eq!(queue.state(), PlaybackState::Empty);
    assert!(queue.snapshot().entries.is_empty());
}

#[test]
fn skip_moves_to_next_track() {
    let mut queue = three();
    assert_eq!(queue.skip(), Ok(()));
    assert_eq!(queue.state(), PlaybackState::Playing);
    assert_eq!(queue.now_playing(), Some(&track("https://b", "b", 20)));
    assert_eq!(
        queue.snapshot().entries,
        vec![track("https://b", "b", 20), track("https://c", "c", 30)]
    );
    assert_eq!(queue.snapshot().total_secs, 50);
}

#[test]
fn skip_while_paused_plays_next_track() {
    let mut queue = three();
    assert_eq!(queue.pause(), Ok(()));
    assert_eq!(queue.skip(), Ok(()));
    assert_eq!(queue.state(), PlaybackState::Playing);
    assert_eq!(queue.len(), 2);
}

#[test]
fn skip_while_paused_on_last_track_empties_queue() {
    let mut queue = PlaybackQueue::new();
    queue.enqueue(track("https://a", "a", 10));
    assert_eq!(queue.pause(), Ok(()));
    assert_eq!(queue.skip(), Ok(()));
    assert_eq!(queue.state(), PlaybackState::Empty);
}

#[test]
fn skip_on_empty_is_invalid_state() {
    let mut queue = PlaybackQueue::new();
    assert_eq!(queue.skip(), Err(PlayerError::InvalidState));
    assert_eq!(queue.state(), PlaybackState::Empty);
    assert_eq!(queue.len(), 0);
}

#[test]
fn track_finished_on_empty_changes_nothing() {
    let mut queue = PlaybackQueue::new();
    assert!(!queue.track_finished());
    assert_eq!(queue.state(), PlaybackState::Empty);
    assert_eq!(queue.len(), 0);
}

#[test]
fn track_finished_while_paused_plays_next_track() {
    let mut queue = three();
    assert_eq!(queue.pause(), Ok(()));
    assert!(queue.track_finished());
    assert_eq!(queue.state(), PlaybackState::Playing);
    assert_eq!(queue.now_playing(), Some(&track("https://b", "b", 20)));
}

#[test]
fn pause_then_resume_returns_to_playing() {
    let mut queue = three();
    let before = queue.snapshot();
    assert_eq!(queue.pause(), Ok(()));
    assert_eq!(queue.state(), PlaybackState::Paused);
    assert_eq!(queue.resume(), Ok(()));
    assert_eq!(queue.state(), PlaybackState::Playing);
    assert_eq!(queue.snapshot().entries, before.entries);
}

#[test]
fn pause_while_paused_is_invalid_state() {
    let mut queue = three();
    assert_eq!(queue.pause(), Ok(()));
    assert_eq!(queue.pause(), Err(PlayerError::InvalidState));
    assert_eq!(queue.state(), PlaybackState::Paused);
    assert_eq!(queue.len(), 3);
}

#[test]
fn resume_while_playing_is_invalid_state() {
    let mut queue = three();
    assert_eq!(queue.resume(), Err(PlayerError::InvalidState));
    assert_eq!(queue.state(), PlaybackState::Playing);
    assert_eq!(queue.len(), 3);
}

#[test]
fn pause_and_resume_on_empty_are_invalid_state() {
    let mut queue = PlaybackQueue::new();
    assert_eq!(queue.pause(), Err(PlayerError::InvalidState));
    assert_eq!(queue.resume(), Err(PlayerError::InvalidState));
    assert_eq!(queue.state(), PlaybackState::Empty);
}

#[test]
fn paused_queue_shows_its_head_as_now_playing() {
    let mut queue = three();
    assert_eq!(queue.pause(), Ok(()));
    assert_eq!(queue.now_playing(), Some(&track("https://a", "a", 10)));
}

#[test]
fn clear_empties_queue() {
    let mut queue = three();
    queue.clear();
    assert_eq!(queue.state(), PlaybackState::Empty);
    assert_eq!(queue.len(), 0);
    assert!(queue.now_playing().is_none());
}

#[test]
fn clear_is_idempotent() {
    let mut queue = three();
    queue.clear();
    queue.clear();
    assert_eq!(queue.state(), PlaybackState::Empty);
    assert_eq!(queue.len(), 0);
    let mut empty = PlaybackQueue::new();
    empty.clear();
    assert_eq!(empty.state(), PlaybackState::Empty);
}

#[test]
fn cleared_queue_can_be_used_again() {
    let mut queue = three();
    queue.clear();
    assert_eq!(queue.enqueue(track("https://d", "d", 5)), 1);
    assert_eq!(queue.state(), PlaybackState::Playing);
    assert_eq!(queue.snapshot().entries, vec![track("https://d", "d", 5)]);
}

#[test]
fn queue_is_reusable_after_running_out() {
    let mut queue = PlaybackQueue::new();
    queue.enqueue(track("https://a", "a", 10));
    assert!(queue.track_finished());
    assert_eq!(queue.state(), PlaybackState::Empty);
    queue.enqueue(track("https://b", "b", 20));
    assert_eq!(queue.state(), PlaybackState::Playing);
    assert_eq!(queue.now_playing(), Some(&track("https://b", "b", 20)));
}

#[test]
fn locators_follow_queue_order() {
    let queue = three();
    assert_eq!(
        queue.locators(),
        vec!["https://a".to_string(), "https://b".to_string(), "https://c".to_string()]
    );
    assert!(PlaybackQueue::new().locators().is_empty());
}
