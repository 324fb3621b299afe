//! The store of named playlists.
//!
//! The store holds, under each name, the text of the playlist as it is kept
//! on durable storage. The program around the library carries that text to
//! the disk and back; what is saved, what is found and what is refused is
//! decided here.

use vstd::prelude::*;

use crate::error::PlayerError;
use crate::playlist::{
    check_queue_name, decode_playlist, encode_playlist, is_playlist_name, playlist_lines,
    playlist_text,
};

verus! {

/// A store as plain values: the text kept under each name.
pub type StoreView = Map<Seq<char>, Seq<char>>;

/// The store after a save of `locators` under `name`: the text of the list
/// stands under the name, in place of what stood there; a name that is not
/// valid changes nothing.
pub open spec fn after_save(
    store: StoreView,
    name: Seq<char>,
    locators: Seq<Seq<char>>,
) -> StoreView {
    if is_playlist_name(name) {
        store.insert(name, playlist_text(locators))
    } else {
        store
    }
}

/// What a load of `name` gives: the lines of the text kept under the name,
/// `InvalidName` for a name that is not valid, `NotFound` where nothing is
/// kept under it.
pub open spec fn load_outcome(store: StoreView, name: Seq<char>) -> Result<
    Seq<Seq<char>>,
    PlayerError,
> {
    if !is_playlist_name(name) {
        Err(PlayerError::InvalidName)
    } else if !store.contains_key(name) {
        Err(PlayerError::NotFound)
    } else {
        Ok(playlist_lines(store[name]))
    }
}

/// One playlist as it is kept: its name and its text.
struct PlaylistFile {
    name: String,
    text: String,
}

/// The names of `files` are all different.
spec fn names_differ(files: Seq<PlaylistFile>) -> bool {
    forall|i: int, j: int|
        0 <= i < files.len() && 0 <= j < files.len() && i != j ==> #[trigger] files[i].name@
            != #[trigger] files[j].name@
}

/// What `files` keep under each name.
spec fn kept(files: Seq<PlaylistFile>) -> StoreView
    decreases files.len(),
{
    if files.len() == 0 {
        Map::empty()
    } else {
        kept(files.drop_last()).insert(files.last().name@, files.last().text@)
    }
}

/// Leaving out the last of files whose names differ leaves names that
/// differ.
proof fn lemma_front_names_differ(files: Seq<PlaylistFile>)
    requires
        names_differ(files),
        files.len() > 0,
    ensures
        names_differ(files.drop_last()),
{
    let front = files.drop_last();
    assert forall|i: int, j: int|
        0 <= i < front.len() && 0 <= j < front.len() && i != j implies #[trigger] front[i].name@
        != #[trigger] front[j].name@ by {
        assert(front[i] == files[i] && front[j] == files[j]);
    }
}

/// The name of every file is kept, and with different names the text of
/// the file stands under it.
proof fn lemma_kept_file(files: Seq<PlaylistFile>, at: int)
    requires
        0 <= at < files.len(),
    ensures
        kept(files).contains_key(files[at].name@),
        names_differ(files) ==> kept(files)[files[at].name@] == files[at].text@,
    decreases files.len(),
{
    if at < files.len() - 1 {
        let front = files.drop_last();
        lemma_kept_file(front, at);
        if names_differ(files) {
            lemma_front_names_differ(files);
        }
    }
}

/// A name that no file bears is not kept.
proof fn lemma_kept_nothing(files: Seq<PlaylistFile>, name: Seq<char>)
    requires
        forall|i: int| 0 <= i < files.len() ==> (#[trigger] files[i]).name@ != name,
    ensures
        !kept(files).contains_key(name),
    decreases files.len(),
{
    if files.len() > 0 {
        let front = files.drop_last();
        assert forall|i: int| 0 <= i < front.len() implies (#[trigger] front[i]).name@ != name by {
            assert(front[i] == files[i]);
        }
        lemma_kept_nothing(front, name);
    }
}

/// Putting a new text in the place of a file's text puts it under the
/// file's name and leaves the names different.
proof fn lemma_kept_update(files: Seq<PlaylistFile>, at: int, file: PlaylistFile)
    requires
        names_differ(files),
        0 <= at < files.len(),
        file.name@ == files[at].name@,
    ensures
        names_differ(files.update(at, file)),
        kept(files.update(at, file)) == kept(files).insert(file.name@, file.text@),
    decreases files.len(),
{
    let updated = files.update(at, file);
    assert forall|i: int, j: int|
        0 <= i < updated.len() && 0 <= j < updated.len() && i != j implies #[trigger] updated[i]
            .name@ != #[trigger] updated[j].name@ by {
        assert(files[i].name@ != files[j].name@);
    }
    let front = files.drop_last();
    if at == files.len() - 1 {
        assert(updated.drop_last() =~= front);
    } else {
        lemma_front_names_differ(files);
        lemma_kept_update(front, at, file);
        assert(updated.drop_last() =~= front.update(at, file));
    }
}

/// The playlists that were saved, each under its name.
pub struct PlaylistStore {
    files: Vec<PlaylistFile>,
}

impl View for PlaylistStore {
    type V = StoreView;

    closed spec fn view(&self) -> StoreView {
        kept(self.files@)
    }
}

impl PlaylistStore {
    #[verifier::type_invariant]
    spec fn well_formed(self) -> bool {
        names_differ(self.files@)
    }

    /// A store that keeps nothing.
    pub fn new() -> (store: PlaylistStore)
        ensures
            store@ == Map::<Seq<char>, Seq<char>>::empty(),
    {
        PlaylistStore { files: Vec::new() }
    }

    /// Where the file named `name` stands, if there is one.
    fn position(&self, name: &String) -> (found: Option<usize>)
        ensures
            names_differ(self.files@),
            found is Some <==> self@.contains_key(name@),
            found matches Some(at) ==> at < self.files@.len() && self.files@[at as int].name@
                == name@ && self.files@[at as int].text@ == self@[name@],
    {
        proof {
            use_type_invariant(self);
        }
        let mut at: usize = 0;
        while at < self.files.len()
            invariant
                names_differ(self.files@),
                at <= self.files@.len(),
                forall|i: int| 0 <= i < at ==> (#[trigger] self.files@[i]).name@ != name@,
            decreases self.files@.len() - at,
        {
            if self.files[at].name == *name {
                proof {
                    lemma_kept_file(self.files@, at as int);
                }
                return Some(at);
            }
            at = at + 1;
        }
        proof {
            lemma_kept_nothing(self.files@, name@);
        }
        None
    }

    /// Puts `text` under `name`, in place of what stood there.
    fn put(&mut self, name: String, text: String)
        ensures
            final(self)@ == old(self)@.insert(name@, text@),
    {
        let found = self.position(&name);
        let mut emptied = PlaylistStore::new();
        core::mem::swap(self, &mut emptied);
        let mut files = emptied.files;
        let file = PlaylistFile { name, text };
        match found {
            Some(at) => {
                proof {
                    lemma_kept_update(files@, at as int, file);
                }
                files.set(at, file);
            },
            None => {
                proof {
                    let grown = files@.push(file);
                    assert(grown.drop_last() =~= files@);
                    assert forall|i: int, j: int|
                        0 <= i < grown.len() && 0 <= j < grown.len() && i
                            != j implies #[trigger] grown[i].name@ != #[trigger] grown[j].name@ by {
                        if i < files@.len() {
                            lemma_kept_file(files@, i);
                        }
                        if j < files@.len() {
                            lemma_kept_file(files@, j);
                        }
                    }
                }
                files.push(file);
            },
        }
        *self = PlaylistStore { files };
    }

    /// Saves `locators` under `name`, in place of what was saved there
    /// before. `InvalidName`, and no change, when `name` holds anything but
    /// lower-case letters.
    pub fn save(&mut self, name: &str, locators: &Vec<String>) -> (outcome: Result<(), PlayerError>)
        ensures
            outcome is Ok <==> is_playlist_name(name@),
            outcome is Err ==> outcome == Err::<(), PlayerError>(PlayerError::InvalidName),
            final(self)@ == after_save(old(self)@, name@, locators.deep_view()),
    {
        if !check_queue_name(name) {
            return Err(PlayerError::InvalidName);
        }
        self.put(name.to_owned(), encode_playlist(locators));
        Ok(())
    }

    /// Takes in the text of a playlist as it was found on durable storage.
    /// `InvalidName`, and no change, when `name` holds anything but
    /// lower-case letters.
    pub fn restore(&mut self, name: &str, text: String) -> (outcome: Result<(), PlayerError>)
        ensures
            outcome is Ok <==> is_playlist_name(name@),
            outcome is Err ==> outcome == Err::<(), PlayerError>(PlayerError::InvalidName),
            final(self)@ == (if is_playlist_name(name@) {
                old(self)@.insert(name@, text@)
            } else {
                old(self)@
            }),
    {
        if !check_queue_name(name) {
            return Err(PlayerError::InvalidName);
        }
        self.put(name.to_owned(), text);
        Ok(())
    }

    /// The text kept under `name`, as it goes to durable storage.
    /// `InvalidName` for a name that is not valid, `NotFound` where nothing
    /// is kept under the name.
    pub fn text(&self, name: &str) -> (outcome: Result<&String, PlayerError>)
        ensures
            !is_playlist_name(name@) ==> outcome == Err::<&String, PlayerError>(
                PlayerError::InvalidName,
            ),
            is_playlist_name(name@) && !self@.contains_key(name@) ==> outcome == Err::<
                &String,
                PlayerError,
            >(PlayerError::NotFound),
            is_playlist_name(name@) && self@.contains_key(name@) ==> outcome is Ok
                && outcome->Ok_0@ == self@[name@],
    {
        if !check_queue_name(name) {
            return Err(PlayerError::InvalidName);
        }
        match self.position(&name.to_owned()) {
            Some(at) => Ok(&self.files[at].text),
            None => Err(PlayerError::NotFound),
        }
    }

    /// The locators saved under `name`, in the order in which they were
    /// saved. `InvalidName` for a name that is not valid, `NotFound` where
    /// nothing is kept under the name.
    pub fn load(&self, name: &str) -> (outcome: Result<Vec<String>, PlayerError>)
        ensures
            match outcome {
                Ok(locators) => load_outcome(self@, name@) == Ok::<Seq<Seq<char>>, PlayerError>(
                    locators.deep_view(),
                ),
                Err(error) => load_outcome(self@, name@) == Err::<Seq<Seq<char>>, PlayerError>(
                    error,
                ),
            },
    {
        match self.text(name) {
            Ok(text) => Ok(decode_playlist(text.as_str())),
            Err(error) => Err(error),
        }
    }

    /// Whether a playlist is kept under `name`.
    pub fn contains(&self, name: &str) -> (kept: bool)
        ensures
            kept == self@.contains_key(name@),
    {
        self.position(&name.to_owned()).is_some()
    }
}

} // verus!
