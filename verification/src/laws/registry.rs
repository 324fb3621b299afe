//! What holds of every registry of guild queues.

use vstd::prelude::*;

use crate::queue::QueueView;
use crate::registry::{queue_of, RegistryView};

verus! {

/// What is done to the queue of one guild, and the removal of one guild,
/// leave every other guild with the queue it had, or without one as before.
pub proof fn lemma_guilds_are_independent(
    registry: RegistryView,
    guild_id: u64,
    other: u64,
    next: QueueView,
)
    requires
        guild_id != other,
    ensures
        registry.insert(guild_id, next).contains_key(other) == registry.contains_key(other),
        queue_of(registry.insert(guild_id, next), other) == queue_of(registry, other),
        registry.remove(guild_id).contains_key(other) == registry.contains_key(other),
        queue_of(registry.remove(guild_id), other) == queue_of(registry, other),
{
}

/// What is done to the queues of two different guilds comes out the same in
/// whichever order it is done.
pub proof fn lemma_guild_operations_commute(
    registry: RegistryView,
    first: u64,
    first_next: QueueView,
    second: u64,
    second_next: QueueView,
)
    requires
        first != second,
    ensures
        registry.insert(first, first_next).insert(second, second_next) == registry.insert(
            second,
            second_next,
        ).insert(first, first_next),
{
}

/// A guild never has two queues: asking for its queue again, with nothing
/// done in between, gives the same queue and leaves the registry as it is.
pub proof fn lemma_one_queue_per_guild(registry: RegistryView, guild_id: u64)
    ensures
        ({
            let once = registry.insert(guild_id, queue_of(registry, guild_id));
            &&& queue_of(once, guild_id) == queue_of(registry, guild_id)
            &&& once.insert(guild_id, queue_of(once, guild_id)) == once
            &&& once.dom() == registry.dom().insert(guild_id)
        }),
{
}

/// After its removal a guild has no queue, and the next queue it asks for
/// is empty, whatever its old queue held.
pub proof fn lemma_removed_guild_starts_empty(registry: RegistryView, guild_id: u64)
    ensures
        !registry.remove(guild_id).contains_key(guild_id),
        queue_of(registry.remove(guild_id), guild_id) == QueueView::empty(),
{
}

} // verus!
