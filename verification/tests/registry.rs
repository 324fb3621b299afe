use guild_player::{GuildQueueRegistry, PlaybackState, Track};

fn track(locator: &str, secs: u64) -> Track {
    Track::new(locator.to_string(), "t".to_string(), secs).unwrap()
}

#[test]
fn registry_starts_without_guilds() {
    let registry = GuildQueueRegistry::new();
    assert_eq!(registry.len(), 0);
    assert!(!registry.contains(1));
    assert!(registry.get(1).is_none());
}

#[test]
fn get_or_create_makes_an_empty_queue() {
    let mut registry = GuildQueueRegistry::new();
    let queue = registry.get_or_create(42);
    assert_eq!(queue.state(), PlaybackState::Empty);
    assert_eq!(queue.len(), 0);
    assert!(registry.contains(42));
    assert_eq!(registry.len(), 1);
}

#[test]
fn get_or_create_returns_the_existing_queue() {
    let mut registry = GuildQueueRegistry::new();
    registry.get_or_create(42).enqueue(track("https://a", 1));
    registry.get_or_create(42).enqueue(track("https://b", 2));
    assert_eq!(registry.len(), 1);
    let queue = registry.get_or_create(42);
    assert_eq!(queue.len(), 2);
    assert_eq!(queue.locators(), vec!["https://a".to_string(), "https://b".to_string()]);
}

#[test]
fn get_reads_without_creating() {
    let mut registry = GuildQueueRegistry::new();
    assert!(registry.get(7).is_none());
    assert_eq!(registry.len(), 0);
    registry.get_or_create(7).enqueue(track("https://a", 1));
    let queue = registry.get(7).unwrap();
    assert_eq!(queue.snapshot().total_secs, 1);
}

#[test]
fn remove_drops_the_queue() {
    let mut registry = GuildQueueRegistry::new();
    registry.get_or_create(1).enqueue(track("https://a", 1));
    registry.get_or_create(2).enqueue(track("https://b", 2));
    let removed = registry.remove(1).unwrap();
    assert_eq!(removed.locators(), vec!["https://a".to_string()]);
    assert!(!registry.contains(1));
    assert!(registry.contains(2));
    assert_eq!(registry.len(), 1);
    assert!(registry.remove(1).is_none());
}

#[test]
fn queue_after_removal_is_fresh() {
    let mut registry = GuildQueueRegistry::new();
    registry.get_or_create(1).enqueue(track("https://a", 1));
    registry.remove(1);
    let queue = registry.get_or_create(1);
    assert_eq!(queue.state(), PlaybackState::Empty);
    assert_eq!(queue.len(), 0);
}

#[test]
fn removed_queue_can_finish_its_work() {
    let mut registry = GuildQueueRegistry::new();
    registry.get_or_create(1).enqueue(track("https://a", 1));
    let mut removed = registry.remove(1).unwrap();
    assert!(removed.track_finished());
    assert_eq!(removed.state(), PlaybackState::Empty);
    assert!(!registry.contains(1));
}

#[test]
fn two_guilds_skip_independently() {
    let mut registry = GuildQueueRegistry::new();
    for guild in [10u64, 20u64] {
        let queue = registry.get_or_create(guild);
        queue.enqueue(track("https://a", guild));
        queue.enqueue(track("https://b", guild));
        queue.enqueue(track("https://c", guild));
    }
    assert!(registry.get_or_create(10).skip().is_ok());
    assert_eq!(registry.get(10).unwrap().len(), 2);
    assert_eq!(registry.get(20).unwrap().len(), 3);
    assert!(registry.get_or_create(20).skip().is_ok());
    assert_eq!(registry.get(10).unwrap().len(), 2);
    assert_eq!(registry.get(20).unwrap().len(), 2);
    assert_eq!(
        registry.get(10).unwrap().locators(),
        vec!["https://b".to_string(), "https://c".to_string()]
    );
    assert_eq!(
        registry.get(20).unwrap().locators(),
        vec!["https://b".to_string(), "https://c".to_string()]
    );
    assert_eq!(registry.get(10).unwrap().snapshot().total_secs, 20);
    assert_eq!(registry.get(20).unwrap().snapshot().total_secs, 40);
}

#[test]
fn pause_in_one_guild_leaves_the_other_playing() {
    let mut registry = GuildQueueRegistry::new();
    registry.get_or_create(1).enqueue(track("https://a", 1));
    registry.get_or_create(2).enqueue(track("https://b", 2));
    assert!(registry.get_or_create(1).pause().is_ok());
    assert_eq!(registry.get(1).unwrap().state(), PlaybackState::Paused);
    assert_eq!(registry.get(2).unwrap().state(), PlaybackState::Playing);
}

#[test]
fn order_between_guilds_does_not_matter() {
    let mut first = GuildQueueRegistry::new();
    first.get_or_create(1).enqueue(track("https://a", 1));
    first.get_or_create(2).enqueue(track("https://b", 2));
    assert!(first.get_or_create(1).pause().is_ok());
    assert!(first.get_or_create(2).skip().is_ok());

    let mut second = GuildQueueRegistry::new();
    second.get_or_create(2).enqueue(track("https://b", 2));
    second.get_or_create(1).enqueue(track("https://a", 1));
    assert!(second.get_or_create(2).skip().is_ok());
    assert!(second.get_or_create(1).pause().is_ok());

    for guild in [1u64, 2u64] {
        let one = first.get(guild).unwrap().snapshot();
        let other = second.get(guild).unwrap().snapshot();
        assert_eq!(one.entries, other.entries);
        assert_eq!(one.state, other.state);
        assert_eq!(one.total_secs, other.total_secs);
    }
}
