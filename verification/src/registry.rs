//! The registry that gives every guild its own playback queue.

use std::collections::HashMap;
use vstd::prelude::*;

use crate::queue::{PlaybackQueue, QueueView};

verus! {

broadcast use vstd::std_specs::hash::group_hash_axioms;

/// A registry as plain values: the queue of each guild that has one.
pub type RegistryView = Map<u64, QueueView>;

/// The queue that a guild works on: the one it has in `registry`, or an
/// empty one when it has none yet.
pub open spec fn queue_of(registry: RegistryView, guild_id: u64) -> QueueView {
    if registry.contains_key(guild_id) {
        registry[guild_id]
    } else {
        QueueView::empty()
    }
}

/// The queues of all guilds, each under the identifier of its guild. No
/// guild ever has more than one.
pub struct GuildQueueRegistry {
    queues: HashMap<u64, PlaybackQueue>,
}

impl View for GuildQueueRegistry {
    type V = RegistryView;

    closed spec fn view(&self) -> RegistryView {
        Map::new(|guild: u64| self.queues@.contains_key(guild), |guild: u64| self.queues@[guild]@)
    }
}

impl GuildQueueRegistry {
    /// A registry that knows no guild.
    pub fn new() -> (registry: GuildQueueRegistry)
        ensures
            registry@ == Map::<u64, QueueView>::empty(),
    {
        let registry = GuildQueueRegistry { queues: HashMap::new() };
        registry
    }

    /// The queue of the guild: the one it has, or a new empty one that the
    /// guild has from now on. What the caller then does to the queue is
    /// done to the guild's queue in the registry, and to none of the others.
    pub fn get_or_create(&mut self, guild_id: u64) -> (queue: &mut PlaybackQueue)
        ensures
            queue@ == queue_of(old(self)@, guild_id),
            final(self)@ == old(self)@.insert(guild_id, final(queue)@),
    {
        self.queues.entry(guild_id).or_insert(PlaybackQueue::new())
    }

    /// The queue of the guild for reading, if the guild has one. Nothing is
    /// created.
    pub fn get(&self, guild_id: u64) -> (found: Option<&PlaybackQueue>)
        ensures
            found is Some <==> self@.contains_key(guild_id),
            found matches Some(queue) ==> queue@ == self@[guild_id],
    {
        self.queues.get(&guild_id)
    }

    /// Whether the guild has a queue.
    pub fn contains(&self, guild_id: u64) -> (known: bool)
        ensures
            known == self@.contains_key(guild_id),
    {
        self.queues.contains_key(&guild_id)
    }

    /// How many guilds have a queue.
    pub fn len(&self) -> (count: usize)
        ensures
            count == self@.len(),
            self@.dom().finite(),
    {
        proof {
            assert(self@.dom() =~= self.queues@.dom());
        }
        self.queues.len()
    }

    /// Takes the queue of the guild out of the registry and hands it to the
    /// caller, who may finish what they were doing with it; `None` when the
    /// guild has none. The next `get_or_create` for the guild starts from an
    /// empty queue. The queues of the other guilds are not touched.
    pub fn remove(&mut self, guild_id: u64) -> (removed: Option<PlaybackQueue>)
        ensures
            final(self)@ == old(self)@.remove(guild_id),
            removed is Some <==> old(self)@.contains_key(guild_id),
            removed matches Some(queue) ==> queue@ == old(self)@[guild_id],
    {
        let removed = self.queues.remove(&guild_id);
        removed
    }
}

} // verus!
