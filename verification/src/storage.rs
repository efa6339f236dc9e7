//! The project store: one map from identifier to project, changed only
//! through operations whose effect on the map is stated exactly.
//!
//! The store lives in memory. Writing it to disk and reading it back is the
//! caller's part: [`AppStorage::save_to_file`] says what to write and where,
//! [`AppStorage::load_from_file`] takes what was found there.

use crate::clock::{now, Timestamp};
use crate::models::{Project, ProjectView};
use std::collections::HashMap;
use vstd::prelude::*;
use vstd::std_specs::hash::spec_hash_map_iter;
use vstd::std_specs::iter::{IteratorSpec, VerusForLoopWrapper};

verus! {

broadcast use vstd::std_specs::hash::group_hash_axioms;

/// The model of a store: which identifiers it holds, and the project under
/// each.
pub type Ledger = Map<u128, ProjectView>;

/// The ledger after `project` was put under its own identifier.
pub open spec fn created(ledger: Ledger, project: ProjectView) -> Ledger {
    ledger.insert(project.id, project)
}

/// What a lookup of `id` finds.
pub open spec fn lookup(ledger: Ledger, id: u128) -> Option<ProjectView> {
    if ledger.contains_key(id) {
        Some(ledger[id])
    } else {
        None
    }
}

/// The ledger after the project under `id` was replaced by `project`; the
/// same ledger where `id` is unknown.
pub open spec fn updated(ledger: Ledger, id: u128, project: ProjectView) -> Ledger {
    if ledger.contains_key(id) {
        ledger.insert(id, project)
    } else {
        ledger
    }
}

/// The ledger without the project under `id`.
pub open spec fn deleted(ledger: Ledger, id: u128) -> Ledger {
    ledger.remove(id)
}

/// The ledger after `path` was attached to the project under `id` at the
/// instant `at`; the same ledger where `id` is unknown.
pub open spec fn attached(ledger: Ledger, id: u128, path: Seq<char>, at: Timestamp) -> Ledger {
    if ledger.contains_key(id) {
        ledger.insert(id, ledger[id].with_file(path, at))
    } else {
        ledger
    }
}

/// `listing` shows the projects of `ledger`, each once, in the order of the
/// identifiers `order`.
pub open spec fn lists(ledger: Ledger, order: Seq<u128>, listing: Seq<ProjectView>) -> bool {
    &&& order.no_duplicates()
    &&& order.to_set() == ledger.dom()
    &&& listing.len() == order.len()
    &&& forall|i: int| 0 <= i < order.len() ==> listing[i] == ledger[#[trigger] order[i]]
}

/// `listing` shows every project of `ledger` exactly once, in some order.
pub open spec fn is_listing_of(ledger: Ledger, listing: Seq<ProjectView>) -> bool {
    exists|order: Seq<u128>| lists(ledger, order, listing)
}

/// An operation named a project that the store does not hold.
#[derive(Debug, PartialEq, Eq, Structural)]
pub struct NotFoundError {
    pub id: u128,
}

/// Everything the store holds: what is written to disk, and read back.
#[derive(Debug)]
pub struct StorageData {
    pub projects: HashMap<u128, Project>,
}

impl View for StorageData {
    type V = Ledger;

    open spec fn view(&self) -> Ledger {
        self.projects@.map_values(|p: Project| p@)
    }
}

impl Default for StorageData {
    fn default() -> (data: Self)
        ensures
            data@ == Ledger::empty(),
    {
        let data = StorageData { projects: HashMap::new() };
        assert(data@ =~= Ledger::empty());
        data
    }
}

impl Clone for StorageData {
    fn clone(&self) -> (copy: Self)
        ensures
            copy@ == self@,
    {
        StorageData { projects: self.projects.clone() }
    }
}

/// The store, and the path of the file that mirrors it.
#[derive(Debug)]
pub struct AppStorage {
    data: StorageData,
    file_path: String,
}

/// What was found at the store's path when the service started.
#[derive(Debug)]
pub enum StoredFile {
    /// No file is there.
    Missing,
    /// A file is there and could not be read.
    Unreadable,
    /// A file was read and does not hold a store.
    Malformed,
    /// A file was read and holds this store.
    Holds(StorageData),
}

/// What is left to do once the stored file has been taken in.
#[derive(Debug, PartialEq, Eq, Structural)]
pub enum AfterLoad {
    /// Nothing: the store holds what the file held.
    Ready,
    /// Write the store out now, so that the path holds a valid document.
    WriteEmpty,
}

/// Why the store and its file could not be brought together.
#[derive(Debug, PartialEq, Eq, Structural)]
pub enum PersistenceError {
    /// The file could not be read.
    Read,
    /// The file does not hold a store.
    Parse,
    /// The store could not be turned into a document.
    Serialize,
    /// The directory of the file could not be made.
    CreateDirectory,
    /// The file could not be written.
    Write,
}

/// The document to write, and the path to write it to.
#[derive(Debug)]
pub struct SavePlan {
    pub file_path: String,
    pub data: StorageData,
}

impl View for AppStorage {
    type V = Ledger;

    closed spec fn view(&self) -> Ledger {
        self.data@
    }
}

impl AppStorage {
    /// The path of the file that mirrors this store.
    pub closed spec fn path(&self) -> Seq<char> {
        self.file_path@
    }

    /// An empty store mirrored at `file_path`.
    pub fn new(file_path: String) -> (store: Self)
        ensures
            store@ == Ledger::empty(),
            store.path() == file_path@,
    {
        AppStorage { data: StorageData::default(), file_path }
    }

    /// Takes in what was found at the store's path. A missing file leaves the
    /// store as it is and asks for it to be written out; a file that holds a
    /// store replaces the store's contents; anything else is an error, and the
    /// store is left untouched.
    pub fn load_from_file(&mut self, found: StoredFile) -> (outcome: Result<
        AfterLoad,
        PersistenceError,
    >)
        ensures
            final(self).path() == old(self).path(),
            match found {
                StoredFile::Missing => outcome == Ok::<AfterLoad, PersistenceError>(
                    AfterLoad::WriteEmpty,
                ) && final(self)@ == old(self)@,
                StoredFile::Unreadable => outcome == Err::<AfterLoad, PersistenceError>(
                    PersistenceError::Read,
                ) && final(self)@ == old(self)@,
                StoredFile::Malformed => outcome == Err::<AfterLoad, PersistenceError>(
                    PersistenceError::Parse,
                ) && final(self)@ == old(self)@,
                StoredFile::Holds(data) => outcome == Ok::<AfterLoad, PersistenceError>(
                    AfterLoad::Ready,
                ) && final(self)@ == data@,
            },
    {
        match found {
            StoredFile::Missing => Ok(AfterLoad::WriteEmpty),
            StoredFile::Unreadable => Err(PersistenceError::Read),
            StoredFile::Malformed => Err(PersistenceError::Parse),
            StoredFile::Holds(data) => {
                self.data = data;
                Ok(AfterLoad::Ready)
            },
        }
    }

    /// What has to be written to mirror the store: all of it, at its path.
    pub fn save_to_file(&self) -> (plan: SavePlan)
        ensures
            plan.data@ == self@,
            plan.file_path@ == self.path(),
    {
        SavePlan { file_path: self.file_path.clone(), data: self.data.clone() }
    }

    /// Puts `project` into the store under its own identifier and returns
    /// that identifier. A project already held under it is replaced.
    pub fn create_project(&mut self, project: Project) -> (id: u128)
        ensures
            id == project.id,
            final(self)@ == created(old(self)@, project@),
            final(self).path() == old(self).path(),
    {
        let id = project.id;
        self.data.projects.insert(id, project);
        assert(self.data@ =~= created(old(self).data@, project@));
        id
    }

    /// A copy of the project under `id`, if the store holds one.
    pub fn get_project(&self, id: u128) -> (found: Option<Project>)
        ensures
            match found {
                Some(project) => lookup(self@, id) == Some(project@),
                None => lookup(self@, id) is None,
            },
    {
        match self.data.projects.get(&id) {
            Some(project) => Some(project.clone()),
            None => None,
        }
    }

    /// Copies of all projects of the store, each once, in no particular order.
    pub fn get_all_projects(&self) -> (all: Vec<Project>)
        ensures
            is_listing_of(self@, crate::models::project_views(all@)),
    {
        let mut out: Vec<Project> = Vec::new();
        let mut walk = VerusForLoopWrapper::new(self.data.projects.iter(), Ghost(None));
        loop
            invariant
                walk.wf(),
                walk.snapshot@ == spec_hash_map_iter(&self.data.projects),
                walk.seq().no_duplicates(),
                walk.seq().len() == self.data.projects@.dom().len(),
                out.len() == walk.index(),
                forall|i: int|
                    0 <= i < out.len() ==> (#[trigger] out[i])@ == (*walk.seq()[i].1)@,
            ensures
                walk.index() == walk.seq().len(),
            decreases self.data.projects@.dom().len() - out.len(),
        {
            match walk.next() {
                Some(entry) => {
                    out.push(entry.1.clone());
                },
                None => {
                    break ;
                },
            }
        }
        proof {
            lemma_pairs_list(self.data.projects@, walk.seq(), out@);
        }
        out
    }

    /// Replaces the project under `id` by `project`, whole. Fails, and changes
    /// nothing, where the store holds no project under `id`.
    pub fn update_project(&mut self, id: u128, project: Project) -> (outcome: Result<
        (),
        NotFoundError,
    >)
        ensures
            final(self)@ == updated(old(self)@, id, project@),
            final(self).path() == old(self).path(),
            outcome == if old(self)@.contains_key(id) {
                Ok::<(), NotFoundError>(())
            } else {
                Err::<(), NotFoundError>(NotFoundError { id })
            },
    {
        if self.data.projects.contains_key(&id) {
            self.data.projects.insert(id, project);
            assert(self.data@ =~= updated(old(self).data@, id, project@));
            Ok(())
        } else {
            Err(NotFoundError { id })
        }
    }

    /// Removes the project under `id`. Fails, and changes nothing, where the
    /// store holds no project under `id`.
    pub fn delete_project(&mut self, id: u128) -> (outcome: Result<(), NotFoundError>)
        ensures
            final(self)@ == deleted(old(self)@, id),
            final(self).path() == old(self).path(),
            outcome == if old(self)@.contains_key(id) {
                Ok::<(), NotFoundError>(())
            } else {
                Err::<(), NotFoundError>(NotFoundError { id })
            },
    {
        match self.data.projects.remove(&id) {
            Some(_) => {
                assert(self.data@ =~= deleted(old(self).data@, id));
                Ok(())
            },
            None => {
                assert(self.data@ =~= deleted(old(self).data@, id));
                Err(NotFoundError { id })
            },
        }
    }

    /// Attaches `file_path` to the project under `project_id` at the current
    /// time: see [`AppStorage::add_audio_file_at`].
    pub fn add_audio_file_to_project(&mut self, project_id: u128, file_path: String) -> (outcome:
        Result<(), NotFoundError>)
        ensures
            exists|at: Timestamp| final(self)@ == #[trigger] attached(
                old(self)@,
                project_id,
                file_path@,
                at,
            ),
            final(self).path() == old(self).path(),
            outcome == if old(self)@.contains_key(project_id) {
                Ok::<(), NotFoundError>(())
            } else {
                Err::<(), NotFoundError>(NotFoundError { id: project_id })
            },
    {
        let at = now();
        self.add_audio_file_at(project_id, file_path, at)
    }

    /// Attaches `file_path` to the project under `project_id` at the instant
    /// `at`. Fails, and changes nothing, where the store holds no project
    /// under `project_id`.
    pub fn add_audio_file_at(&mut self, project_id: u128, file_path: String, at: Timestamp) -> (outcome:
        Result<(), NotFoundError>)
        ensures
            final(self)@ == attached(old(self)@, project_id, file_path@, at),
            final(self).path() == old(self).path(),
            outcome == if old(self)@.contains_key(project_id) {
                Ok::<(), NotFoundError>(())
            } else {
                Err::<(), NotFoundError>(NotFoundError { id: project_id })
            },
    {
        match self.data.projects.remove(&project_id) {
            Some(project) => {
                let mut project = project;
                project.add_audio_file_at(file_path, at);
                self.data.projects.insert(project_id, project);
                assert(self.data@ =~= attached(old(self).data@, project_id, file_path@, at));
                Ok(())
            },
            None => {
                assert(self.data@ =~= old(self).data@);
                Err(NotFoundError { id: project_id })
            },
        }
    }
}

/// A walk over all entries of a map, each once, lists the map's values.
proof fn lemma_pairs_list(
    held: Map<u128, Project>,
    pairs: Seq<(&u128, &Project)>,
    copies: Seq<Project>,
)
    requires
        pairs.no_duplicates(),
        pairs.len() == copies.len(),
        forall|i: int|
            0 <= i < pairs.len() ==> held.contains_key(*(#[trigger] pairs[i]).0) && held[*pairs[i].0]
                == *pairs[i].1,
        forall|k: u128| #[trigger] held.contains_key(k) ==> pairs.contains((&k, &held[k])),
        forall|i: int| 0 <= i < copies.len() ==> (#[trigger] copies[i])@ == (*pairs[i].1)@,
    ensures
        is_listing_of(held.map_values(|p: Project| p@), crate::models::project_views(copies)),
{
    let ledger = held.map_values(|p: Project| p@);
    let listing = crate::models::project_views(copies);
    let order = Seq::new(pairs.len(), |i: int| *pairs[i].0);
    assert forall|i: int, j: int| 0 <= i < order.len() && 0 <= j < order.len() && i != j implies order[i]
        != order[j] by {
        if order[i] == order[j] {
            assert(held[*pairs[i].0] == *pairs[i].1);
            assert(held[*pairs[j].0] == *pairs[j].1);
            assert(pairs[i] == pairs[j]);
        }
    }
    assert forall|k: u128| order.to_set().contains(k) <==> ledger.dom().contains(k) by {
        if order.to_set().contains(k) {
            let i = choose|i: int| 0 <= i < order.len() && order[i] == k;
            assert(held.contains_key(*pairs[i].0));
        }
        if ledger.dom().contains(k) {
            let pair = (&k, &held[k]);
            assert(pairs.contains(pair));
            let i = choose|i: int| 0 <= i < pairs.len() && pairs[i] == pair;
            assert(order[i] == k);
        }
    }
    assert(order.to_set() =~= ledger.dom());
    assert forall|i: int| 0 <= i < order.len() implies listing[i] == ledger[#[trigger] order[i]] by {
        assert(held[*pairs[i].0] == *pairs[i].1);
    }
    assert(lists(ledger, order, listing));
}

} // verus!
