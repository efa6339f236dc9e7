//! What holds of the ledger whatever its state: the rule on splits at its
//! edges, and how the store's operations follow one another.

use crate::clock::Timestamp;
use crate::handlers::request_verdict;
use crate::models::{
    all_in_range, lemma_first_out_of_range, share_in_range, shares_of, shares_verdict,
    total_share, CreateProjectRequestView, ProjectView, ValidationError, FULL_SHARE,
};
use crate::storage::{attached, created, deleted, lookup, updated, Ledger};
use vstd::prelude::*;

verus! {

/// Shares that each lie in range pass when they total one hundred percent
/// exactly, and when they miss it by no more than five thousandths of a
/// percent; they fail, for their total, when it reaches one hundred percent
/// and two hundredths.
pub proof fn law_total_decides(shares: Seq<int>)
    requires
        all_in_range(shares),
    ensures
        total_share(shares) == FULL_SHARE ==> shares_verdict(shares) is Ok,
        FULL_SHARE - 5_000 <= total_share(shares) <= FULL_SHARE + 5_000 ==> shares_verdict(shares)
            is Ok,
        total_share(shares) >= FULL_SHARE + 20_000 ==> shares_verdict(shares) == Err::<
            (),
            ValidationError,
        >(ValidationError::SplitsDoNotSum100 { total: total_share(shares) as i128 }),
{
}

/// A list with a share out of range, such as a hundredth of a percent below
/// zero or above one hundred, fails for a share out of range, whatever its
/// total: the first such share of the list is the one reported.
pub proof fn law_out_of_range_wins(shares: Seq<int>, at: int)
    requires
        0 <= at < shares.len(),
        !share_in_range(shares[at]),
    ensures
        !share_in_range(-10_000),
        !share_in_range(FULL_SHARE + 10_000),
        shares_verdict(shares) is Err,
        shares_verdict(shares)->Err_0 is SplitOutOfRange,
        exists|first: int|
            0 <= first <= at && !share_in_range(shares[first]) && #[trigger] shares[first] as i64
                == shares_verdict(shares)->Err_0->percentage,
{
    lemma_first_out_of_range(shares);
    let first = crate::models::first_out_of_range(shares);
    if first > at {
        assert(share_in_range(shares[at]));
    }
    assert(shares[first] as i64 == shares_verdict(shares)->Err_0->percentage);
}

/// A project that was created is found under its identifier with every field
/// as the request gave it, no file attached, and created and updated at the
/// same instant.
pub proof fn law_created_is_found(
    ledger: Ledger,
    request: CreateProjectRequestView,
    id: u128,
    at: Timestamp,
)
    ensures
        lookup(created(ledger, request.project(id, at)), id) == Some(request.project(id, at)),
        request.project(id, at).project_name == request.project_name,
        request.project(id, at).contributors == request.contributors,
        request.project(id, at).splits == request.splits,
        request.project(id, at).audio_files.len() == 0,
        request.project(id, at).created_at == request.project(id, at).updated_at,
        request.project(id, at).well_formed(),
        forall|other: u128|
            other != id ==> lookup(created(ledger, request.project(id, at)), other) == lookup(
                ledger,
                other,
            ),
{
}

/// A request whose shares lie in range and total too far from one hundred
/// percent is turned down, whatever its shape.
pub proof fn law_wrong_total_is_rejected(request: CreateProjectRequestView)
    requires
        all_in_range(shares_of(request.splits)),
        !crate::models::sums_to_full(total_share(shares_of(request.splits))),
    ensures
        request_verdict(request) is Err,
{
}

/// Attaching files to two different projects of the store comes to the same
/// in either order, and each project ends with its own path last.
pub proof fn law_attach_to_two(
    ledger: Ledger,
    a: u128,
    b: u128,
    p: Seq<char>,
    q: Seq<char>,
    t: Timestamp,
    u: Timestamp,
)
    requires
        ledger.contains_key(a),
        ledger.contains_key(b),
        a != b,
    ensures
        attached(attached(ledger, a, p, t), b, q, u) == attached(attached(ledger, b, q, u), a, p, t),
        attached(attached(ledger, a, p, t), b, q, u)[a].audio_files == ledger[a].audio_files.push(p),
        attached(attached(ledger, a, p, t), b, q, u)[b].audio_files == ledger[b].audio_files.push(q),
        attached(attached(ledger, a, p, t), b, q, u).dom() == ledger.dom(),
{
    assert(attached(attached(ledger, a, p, t), b, q, u) =~= attached(
        attached(ledger, b, q, u),
        a,
        p,
        t,
    ));
    assert(attached(attached(ledger, a, p, t), b, q, u).dom() =~= ledger.dom());
}

/// Of two attachments to the same project the second builds on the first:
/// both paths stay, in the order in which they were attached.
pub proof fn law_attach_twice(
    ledger: Ledger,
    a: u128,
    p: Seq<char>,
    q: Seq<char>,
    t: Timestamp,
    u: Timestamp,
)
    requires
        ledger.contains_key(a),
    ensures
        attached(attached(ledger, a, p, t), a, q, u)[a].audio_files == ledger[a].audio_files.push(
            p,
        ).push(q),
        attached(attached(ledger, a, p, t), a, q, u)[a].audio_files.len()
            == ledger[a].audio_files.len() + 2,
{
}

/// An attachment changes nothing of a project but its files and its update
/// time, and leaves it well-formed.
pub proof fn law_attach_keeps_identity(project: ProjectView, path: Seq<char>, at: Timestamp)
    ensures
        project.with_file(path, at).id == project.id,
        project.with_file(path, at).project_name == project.project_name,
        project.with_file(path, at).contributors == project.contributors,
        project.with_file(path, at).splits == project.splits,
        project.with_file(path, at).created_at == project.created_at,
        project.with_file(path, at).well_formed(),
        project.with_file(path, at).audio_files.last() == path,
{
}

/// Attaching to, replacing or deleting a project that the store does not
/// hold leaves the store as it is.
pub proof fn law_unknown_changes_nothing(
    ledger: Ledger,
    id: u128,
    path: Seq<char>,
    at: Timestamp,
    project: ProjectView,
)
    requires
        !ledger.contains_key(id),
    ensures
        attached(ledger, id, path, at) == ledger,
        updated(ledger, id, project) == ledger,
        deleted(ledger, id) == ledger,
        lookup(ledger, id) is None,
{
    assert(deleted(ledger, id) =~= ledger);
}

/// A deleted project is not found any more and has no entry in the store,
/// and thus in nothing written from it; every other project stays.
pub proof fn law_deleted_is_gone(ledger: Ledger, id: u128)
    ensures
        lookup(deleted(ledger, id), id) is None,
        !deleted(ledger, id).contains_key(id),
        forall|other: u128| other != id ==> lookup(deleted(ledger, id), other) == lookup(ledger, other),
{
}

} // verus!
