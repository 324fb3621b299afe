//! What holds of every store of playlists.

use vstd::prelude::*;

use crate::error::PlayerError;
use crate::laws::playlist::lemma_playlist_round_trip;
use crate::playlist::{is_playlist_name, is_single_line};
use crate::store::{after_save, load_outcome, StoreView};

verus! {

/// A list that was saved is the list that a load gives back: for every
/// valid name and every list of locators none of which holds a line feed,
/// whatever the store held before.
pub proof fn lemma_save_then_load(store: StoreView, name: Seq<char>, locators: Seq<Seq<char>>)
    requires
        is_playlist_name(name),
        forall|i: int| 0 <= i < locators.len() ==> is_single_line(#[trigger] locators[i]),
    ensures
        load_outcome(after_save(store, name, locators), name) == Ok::<Seq<Seq<char>>, PlayerError>(
            locators,
        ),
{
    lemma_playlist_round_trip(locators);
}

/// A save under one name changes nothing under any other name, and a save
/// under the same name again leaves only the later list.
pub proof fn lemma_save_replaces_one_name(
    store: StoreView,
    name: Seq<char>,
    other: Seq<char>,
    first: Seq<Seq<char>>,
    second: Seq<Seq<char>>,
)
    requires
        name != other,
    ensures
        load_outcome(after_save(store, name, first), other) == load_outcome(store, other),
        after_save(after_save(store, name, first), name, second) == after_save(
            store,
            name,
            second,
        ),
{
}

/// A name that is not valid is refused by save and by load alike, and a
/// valid name under which nothing was saved is not found.
pub proof fn lemma_refused_names(store: StoreView, name: Seq<char>, locators: Seq<Seq<char>>)
    ensures
        !is_playlist_name(name) ==> after_save(store, name, locators) == store && load_outcome(
            store,
            name,
        ) == Err::<Seq<Seq<char>>, PlayerError>(PlayerError::InvalidName),
        is_playlist_name(name) && !store.contains_key(name) ==> load_outcome(store, name) == Err::<
            Seq<Seq<char>>,
            PlayerError,
        >(PlayerError::NotFound),
{
}

} // verus!
