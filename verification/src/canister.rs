//! The on-chain registry: projects that belong to the principal who created
//! them, numbered in the order of their creation.
//!
//! The registry is a plain value. Who the caller is comes from the host that
//! runs the canister, and is handed in as the principal's bytes.

use crate::text::{nat_text, push_nat};
use std::collections::HashMap;
use vstd::prelude::*;
use vstd::std_specs::hash::spec_hash_map_iter;
use vstd::std_specs::iter::{IteratorSpec, VerusForLoopWrapper};
use vstd::string::StringExecFns;

verus! {

broadcast use vstd::std_specs::hash::group_hash_axioms;

/// A registered project and the principal that owns it.
#[derive(Debug)]
pub struct Project {
    pub id: String,
    pub name: String,
    pub owner_principal: Vec<u8>,
}

/// What a registered [`Project`] is, as plain values.
pub struct ProjectView {
    pub id: Seq<char>,
    pub name: Seq<char>,
    pub owner_principal: Seq<u8>,
}

impl View for Project {
    type V = ProjectView;

    open spec fn view(&self) -> ProjectView {
        ProjectView { id: self.id@, name: self.name@, owner_principal: self.owner_principal@ }
    }
}

impl Clone for Project {
    fn clone(&self) -> (copy: Self)
        ensures
            copy@ == self@,
    {
        let owner_principal = self.owner_principal.clone();
        assert(owner_principal@ =~= self.owner_principal@);
        Project { id: self.id.clone(), name: self.name.clone(), owner_principal }
    }
}

/// What a caller sends to have a project registered.
#[derive(Debug)]
pub struct CreateProjectRequest {
    pub name: String,
}

/// The answer to a registration.
#[derive(Debug)]
pub struct CreateProjectResponse {
    pub success: bool,
    pub project_id: Option<String>,
    pub error: Option<String>,
}

/// The answer to a listing.
#[derive(Debug)]
pub struct ListProjectsResponse {
    pub success: bool,
    pub projects: Vec<Project>,
    pub error: Option<String>,
}

/// The identifier of the project with the number `number`.
pub open spec fn project_id(number: u64) -> Seq<char> {
    "project_"@ + nat_text(number as nat)
}

/// The number after `number`; after the largest comes zero.
pub open spec fn number_after(number: u64) -> u64 {
    if number == u64::MAX {
        0
    } else {
        (number + 1) as u64
    }
}

/// The model of a registry: the projects by their numbers.
pub type Book = Map<u64, ProjectView>;

/// The model of the projects held under their numbers.
pub open spec fn book_of(held: Map<u64, Project>) -> Book {
    held.map_values(|p: Project| p@)
}

/// The numbers of the projects in `book` that `owner` owns.
pub open spec fn owned_by(book: Book, owner: Seq<u8>) -> Set<u64> {
    Set::new(|number: u64| book.contains_key(number) && book[number].owner_principal == owner)
}

/// `listing` shows the projects of `book` that `owner` owns, each once, in
/// the order of the numbers `order`.
pub open spec fn lists_owned(
    book: Book,
    owner: Seq<u8>,
    order: Seq<u64>,
    listing: Seq<ProjectView>,
) -> bool {
    &&& order.no_duplicates()
    &&& order.to_set() == owned_by(book, owner)
    &&& listing.len() == order.len()
    &&& forall|i: int| 0 <= i < order.len() ==> listing[i] == book[#[trigger] order[i]]
}

/// `listing` shows every project of `book` that `owner` owns exactly once,
/// in some order.
pub open spec fn is_listing_owned(book: Book, owner: Seq<u8>, listing: Seq<ProjectView>) -> bool {
    exists|order: Seq<u64>| lists_owned(book, owner, order, listing)
}

/// The projects of a list, as plain values.
pub open spec fn project_views(list: Seq<Project>) -> Seq<ProjectView> {
    list.map_values(|p: Project| p@)
}

/// The text of an optional string.
pub open spec fn optional_text(text: Option<String>) -> Option<Seq<char>> {
    match text {
        Some(text) => Some(text@),
        None => None,
    }
}

/// Decides whether two byte strings are the same.
fn same_bytes(a: &Vec<u8>, b: &Vec<u8>) -> (r: bool)
    ensures
        r == (a@ == b@),
{
    if a.len() != b.len() {
        return false;
    }
    let mut i: usize = 0;
    while i < a.len()
        invariant
            a.len() == b.len(),
            0 <= i <= a.len(),
            forall|j: int| 0 <= j < i ==> a[j] == b[j],
        decreases a.len() - i,
    {
        if a[i] != b[i] {
            return false;
        }
        i = i + 1;
    }
    assert(a@ =~= b@);
    true
}

/// All registered projects, and the number that the next one gets.
#[derive(Debug)]
pub struct Registry {
    projects: HashMap<u64, Project>,
    next_id: u64,
}

impl View for Registry {
    type V = Book;

    closed spec fn view(&self) -> Book {
        book_of(self.projects@)
    }
}

impl Registry {
    /// The number that the next project gets.
    pub closed spec fn next_number(&self) -> u64 {
        self.next_id
    }

    /// An empty registry, whose first project gets the number one.
    pub fn new() -> (registry: Self)
        ensures
            registry@ == Book::empty(),
            registry.next_number() == 1,
    {
        let registry = Registry { projects: HashMap::new(), next_id: 1 };
        assert(registry@ =~= Book::empty());
        registry
    }
}

/// Registers a project for `caller` under the next number, and answers
/// with its identifier. The count wraps after the largest number, and a
/// project registered under a number already taken replaces the old one.
pub fn create_project(
    registry: &mut Registry,
    caller: Vec<u8>,
    request: CreateProjectRequest,
) -> (response: CreateProjectResponse)
    ensures
        response.success,
        optional_text(response.project_id) == Some(project_id(old(registry).next_number())),
        response.error is None,
        final(registry).next_number() == number_after(old(registry).next_number()),
        final(registry)@ == old(registry)@.insert(
            old(registry).next_number(),
            ProjectView {
                id: project_id(old(registry).next_number()),
                name: request.name@,
                owner_principal: caller@,
            },
        ),
{
    let number = registry.next_id;
    registry.next_id = if number == u64::MAX {
        0
    } else {
        number + 1
    };
    let mut id = String::from_str("project_");
    push_nat(&mut id, number as u128);
    let project = Project { id: id.clone(), name: request.name, owner_principal: caller };
    registry.projects.insert(number, project);
    assert(registry@ =~= old(registry)@.insert(number, project@));
    CreateProjectResponse { success: true, project_id: Some(id), error: None }
}

/// Lists the projects that `caller` owns, each once, in no particular
/// order.
pub fn list_projects(registry: &Registry, caller: &Vec<u8>) -> (response: ListProjectsResponse)
    ensures
        response.success,
        response.error is None,
        is_listing_owned(registry@, caller@, project_views(response.projects@)),
{
    let mut out: Vec<Project> = Vec::new();
    let ghost mut picked: Seq<int> = Seq::empty();
    let mut walk = VerusForLoopWrapper::new(registry.projects.iter(), Ghost(None));
    let ghost held = registry.projects@;
    loop
        invariant
            held == registry.projects@,
            walk.wf(),
            walk.snapshot@ == spec_hash_map_iter(&registry.projects),
            walk.seq().no_duplicates(),
            walk.seq().len() == held.dom().len(),
            picked.len() == out.len(),
            forall|j: int| 0 <= j < picked.len() ==> 0 <= #[trigger] picked[j] < walk.index(),
            forall|j: int, k: int|
                0 <= j < k < picked.len() ==> #[trigger] picked[j] < #[trigger] picked[k],
            forall|j: int|
                0 <= j < picked.len() ==> (*walk.seq()[#[trigger] picked[j]].1).owner_principal@
                    == caller@ && out[j]@ == (*walk.seq()[picked[j]].1)@,
            forall|i: int|
                0 <= i < walk.index() && (*(#[trigger] walk.seq()[i]).1).owner_principal@
                    == caller@ ==> picked.contains(i),
        ensures
            walk.index() == walk.seq().len(),
        decreases held.dom().len() - walk.index(),
    {
        let ghost before = walk.index();
        let ghost earlier = picked;
        match walk.next() {
            Some(entry) => {
                assert(walk.seq()[before] == entry);
                if same_bytes(&entry.1.owner_principal, caller) {
                    out.push(entry.1.clone());
                    proof {
                        picked = earlier.push(before);
                        assert forall|i: int|
                            0 <= i < before + 1 && (*(
                            #[trigger] walk.seq()[i]).1).owner_principal@
                                == caller@ implies picked.contains(i) by {
                            if i < before {
                                assert(earlier.contains(i));
                                let j = choose|j: int| 0 <= j < earlier.len() && earlier[j] == i;
                                assert(picked[j] == i);
                            } else {
                                assert(picked[earlier.len() as int] == i);
                            }
                        }
                    }
                }
            },
            None => {
                break ;
            },
        }
    }
    proof {
        lemma_owned_listing(held, walk.seq(), picked, caller@, out@);
        assert(is_listing_owned(registry@, caller@, project_views(out@)));
    }
    ListProjectsResponse { success: true, projects: out, error: None }
}

/// Picking, from a walk over all entries of a map, those that `owner` owns
/// lists the owner's projects.
proof fn lemma_owned_listing(
    held: Map<u64, Project>,
    pairs: Seq<(&u64, &Project)>,
    picked: Seq<int>,
    owner: Seq<u8>,
    copies: Seq<Project>,
)
    requires
        pairs.no_duplicates(),
        forall|i: int|
            0 <= i < pairs.len() ==> held.contains_key(*(#[trigger] pairs[i]).0) && held[*pairs[i].0]
                == *pairs[i].1,
        forall|k: u64| #[trigger] held.contains_key(k) ==> pairs.contains((&k, &held[k])),
        picked.len() == copies.len(),
        forall|j: int| 0 <= j < picked.len() ==> 0 <= #[trigger] picked[j] < pairs.len(),
        forall|j: int, k: int|
            0 <= j < k < picked.len() ==> #[trigger] picked[j] < #[trigger] picked[k],
        forall|j: int|
            0 <= j < picked.len() ==> (*pairs[#[trigger] picked[j]].1).owner_principal@ == owner
                && copies[j]@ == (*pairs[picked[j]].1)@,
        forall|i: int|
            0 <= i < pairs.len() && (*(#[trigger] pairs[i]).1).owner_principal@ == owner
                ==> picked.contains(i),
    ensures
        is_listing_owned(book_of(held), owner, project_views(copies)),
{
    let book = book_of(held);
    let listing = project_views(copies);
    let order = Seq::new(picked.len(), |j: int| *pairs[picked[j]].0);
    assert forall|j: int, k: int| 0 <= j < order.len() && 0 <= k < order.len() && j != k implies order[j]
        != order[k] by {
        let a = picked[j];
        let b = picked[k];
        assert(a != b) by {
            if j < k {
                assert(picked[j] < picked[k]);
            } else {
                assert(picked[k] < picked[j]);
            }
        }
        if order[j] == order[k] {
            assert(held[*pairs[a].0] == *pairs[a].1);
            assert(held[*pairs[b].0] == *pairs[b].1);
            assert(pairs[a] == pairs[b]);
        }
    }
    assert forall|k: u64| order.to_set().contains(k) <==> owned_by(book, owner).contains(k) by {
        if order.to_set().contains(k) {
            let j = choose|j: int| 0 <= j < order.len() && order[j] == k;
            let a = picked[j];
            assert(held.contains_key(*pairs[a].0) && held[*pairs[a].0] == *pairs[a].1);
        }
        if owned_by(book, owner).contains(k) {
            let pair = (&k, &held[k]);
            assert(pairs.contains(pair));
            let i = choose|i: int| 0 <= i < pairs.len() && pairs[i] == pair;
            assert((*pairs[i].1).owner_principal@ == owner);
            assert(picked.contains(i));
            let j = choose|j: int| 0 <= j < picked.len() && picked[j] == i;
            assert(order[j] == k);
        }
    }
    assert(order.to_set() =~= owned_by(book, owner));
    assert forall|j: int| 0 <= j < order.len() implies listing[j] == book[#[trigger] order[j]] by {
        let a = picked[j];
        assert(held.contains_key(*pairs[a].0) && held[*pairs[a].0] == *pairs[a].1);
    }
    assert(lists_owned(book, owner, order, listing));
}

/// The answer to a registration that could not get hold of the registry.
pub fn create_project_unavailable() -> (response: CreateProjectResponse)
    ensures
        !response.success,
        response.project_id is None,
        optional_text(response.error) == Some("Failed to acquire lock"@),
{
    CreateProjectResponse {
        success: false,
        project_id: None,
        error: Some(String::from_str("Failed to acquire lock")),
    }
}

/// The answer to a listing that could not get hold of the registry.
pub fn list_projects_unavailable() -> (response: ListProjectsResponse)
    ensures
        !response.success,
        response.projects@.len() == 0,
        optional_text(response.error) == Some("Failed to acquire lock"@),
{
    ListProjectsResponse {
        success: false,
        projects: Vec::new(),
        error: Some(String::from_str("Failed to acquire lock")),
    }
}

} // verus!
