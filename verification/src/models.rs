//! The ledger's records: contributors, revenue splits and projects, with the
//! rule that decides whether a list of splits is acceptable.

use crate::clock::{now, Timestamp};
use crate::ids::fresh_id;
use vstd::prelude::*;

verus! {

/// Shares are held in fixed point: this many units make one percent.
pub const UNITS_PER_PERCENT: i64 = 1_000_000;

/// One hundred percent, in units.
pub const FULL_SHARE: i64 = 100_000_000;

/// How far a total may lie from one hundred percent and still be accepted:
/// a hundredth of a percent, in units.
pub const SUM_TOLERANCE: i64 = 10_000;

/// Someone who takes part in a project.
#[derive(Debug)]
pub struct Contributor {
    pub name: String,
    pub wallet_address: Option<String>,
    pub email: Option<String>,
}

/// What a [`Contributor`] is, as plain text.
pub struct ContributorView {
    pub name: Seq<char>,
    pub wallet_address: Option<Seq<char>>,
    pub email: Option<Seq<char>>,
}

/// The text held by an optional string.
pub open spec fn text_of(s: Option<String>) -> Option<Seq<char>> {
    match s {
        Some(t) => Some(t@),
        None => None,
    }
}

impl View for Contributor {
    type V = ContributorView;

    open spec fn view(&self) -> ContributorView {
        ContributorView {
            name: self.name@,
            wallet_address: text_of(self.wallet_address),
            email: text_of(self.email),
        }
    }
}

/// Copies an optional string.
fn copy_text(s: &Option<String>) -> (r: Option<String>)
    ensures
        r == *s,
{
    match s {
        Some(t) => Some(t.clone()),
        None => None,
    }
}

impl Clone for Contributor {
    fn clone(&self) -> (r: Self)
        ensures
            r == *self,
    {
        Contributor {
            name: self.name.clone(),
            wallet_address: copy_text(&self.wallet_address),
            email: copy_text(&self.email),
        }
    }
}

/// One contributor's share of a project's revenue. The contributor is named,
/// not referenced: nothing ties the name to the project's contributor list.
#[derive(Debug)]
pub struct Split {
    pub contributor_name: String,
    /// The share, in units of a millionth of a percent.
    pub percentage: i64,
}

/// What a [`Split`] is: a name and a share in units.
pub struct SplitView {
    pub contributor_name: Seq<char>,
    pub percentage: int,
}

impl View for Split {
    type V = SplitView;

    open spec fn view(&self) -> SplitView {
        SplitView { contributor_name: self.contributor_name@, percentage: self.percentage as int }
    }
}

impl Clone for Split {
    fn clone(&self) -> (r: Self)
        ensures
            r == *self,
    {
        Split { contributor_name: self.contributor_name.clone(), percentage: self.percentage }
    }
}

/// Why a project was not accepted.
#[derive(Debug, PartialEq, Eq, Structural)]
pub enum ValidationError {
    /// The project name is empty or only white space.
    EmptyName,
    /// The project names no contributor.
    NoContributors,
    /// There are not as many splits as contributors.
    SplitCountMismatch,
    /// The shares add up to `total` units, too far from one hundred percent.
    SplitsDoNotSum100 { total: i128 },
    /// A share of `percentage` units lies outside zero to one hundred percent.
    SplitOutOfRange { percentage: i64 },
}

impl Clone for ValidationError {
    fn clone(&self) -> (r: Self)
        ensures
            r == *self,
    {
        match self {
            ValidationError::EmptyName => ValidationError::EmptyName,
            ValidationError::NoContributors => ValidationError::NoContributors,
            ValidationError::SplitCountMismatch => ValidationError::SplitCountMismatch,
            ValidationError::SplitsDoNotSum100 { total } => ValidationError::SplitsDoNotSum100 {
                total: *total,
            },
            ValidationError::SplitOutOfRange { percentage } => ValidationError::SplitOutOfRange {
                percentage: *percentage,
            },
        }
    }
}

impl Copy for ValidationError {}

/// A single share lies between nothing and everything.
pub open spec fn share_in_range(units: int) -> bool {
    0 <= units <= FULL_SHARE as int
}

/// The shares of a list of splits, in order.
pub open spec fn shares_of(splits: Seq<SplitView>) -> Seq<int> {
    splits.map_values(|s: SplitView| s.percentage)
}

/// The sum of a list of shares.
pub open spec fn total_share(shares: Seq<int>) -> int
    decreases shares.len(),
{
    if shares.len() == 0 {
        0
    } else {
        total_share(shares.drop_last()) + shares.last()
    }
}

/// Every share of the list lies in range.
pub open spec fn all_in_range(shares: Seq<int>) -> bool {
    forall|i: int| 0 <= i < shares.len() ==> share_in_range(#[trigger] shares[i])
}

/// The position of the first share that lies out of range; the length of the
/// list when there is none.
pub open spec fn first_out_of_range(shares: Seq<int>) -> int
    decreases shares.len(),
{
    if shares.len() == 0 {
        0
    } else if !share_in_range(shares[0]) {
        0
    } else {
        1 + first_out_of_range(shares.drop_first())
    }
}

/// A total counts as one hundred percent when it is no further from it than
/// the tolerance.
pub open spec fn sums_to_full(total: int) -> bool {
    FULL_SHARE as int - SUM_TOLERANCE as int <= total <= FULL_SHARE as int + SUM_TOLERANCE as int
}

/// The verdict on a list of shares. A share out of range is reported first,
/// whatever the total; then a total too far from one hundred percent.
pub open spec fn shares_verdict(shares: Seq<int>) -> Result<(), ValidationError> {
    if !all_in_range(shares) {
        Err(
            ValidationError::SplitOutOfRange {
                percentage: shares[first_out_of_range(shares)] as i64,
            },
        )
    } else if !sums_to_full(total_share(shares)) {
        Err(ValidationError::SplitsDoNotSum100 { total: total_share(shares) as i128 })
    } else {
        Ok(())
    }
}

/// The first out-of-range position is a position of the list exactly when
/// some share is out of range; every share before it is in range.
pub proof fn lemma_first_out_of_range(shares: Seq<int>)
    ensures
        0 <= first_out_of_range(shares) <= shares.len(),
        first_out_of_range(shares) < shares.len() <==> !all_in_range(shares),
        first_out_of_range(shares) < shares.len() ==> !share_in_range(
            shares[first_out_of_range(shares)],
        ),
        forall|i: int|
            0 <= i < first_out_of_range(shares) ==> share_in_range(#[trigger] shares[i]),
    decreases shares.len(),
{
    if shares.len() == 0 {
    } else if !share_in_range(shares[0]) {
    } else {
        let rest = shares.drop_first();
        lemma_first_out_of_range(rest);
        assert forall|i: int| 0 <= i < first_out_of_range(shares) implies share_in_range(
            #[trigger] shares[i],
        ) by {
            if i > 0 {
                assert(shares[i] == rest[i - 1]);
            }
        }
        if first_out_of_range(rest) < rest.len() {
            assert(shares[first_out_of_range(shares)] == rest[first_out_of_range(rest)]);
        } else {
            assert forall|i: int| 0 <= i < shares.len() implies share_in_range(
                #[trigger] shares[i],
            ) by {
                if i > 0 {
                    assert(shares[i] == rest[i - 1]);
                }
            }
        }
    }
}

/// While every share is in range, a total grows with each share and stays
/// below the length times one hundred percent.
pub proof fn lemma_total_bounds(shares: Seq<int>)
    requires
        all_in_range(shares),
    ensures
        0 <= total_share(shares) <= shares.len() * FULL_SHARE as int,
    decreases shares.len(),
{
    if shares.len() > 0 {
        let front = shares.drop_last();
        assert forall|i: int| 0 <= i < front.len() implies share_in_range(#[trigger] front[i]) by {
            assert(front[i] == shares[i]);
        }
        lemma_total_bounds(front);
        assert(share_in_range(shares[shares.len() - 1]));
        assert(shares.len() * FULL_SHARE as int == front.len() * FULL_SHARE as int
            + FULL_SHARE as int) by (nonlinear_arith)
            requires
                shares.len() == front.len() + 1,
        ;
    }
}

/// A creative work, the people behind it and how its revenue is divided.
#[derive(Debug)]
pub struct Project {
    pub id: u128,
    pub project_name: String,
    pub contributors: Vec<Contributor>,
    pub splits: Vec<Split>,
    pub created_at: Timestamp,
    pub updated_at: Timestamp,
    pub audio_files: Vec<String>,
}

/// What a [`Project`] is, as plain values.
pub struct ProjectView {
    pub id: u128,
    pub project_name: Seq<char>,
    pub contributors: Seq<ContributorView>,
    pub splits: Seq<SplitView>,
    pub created_at: Timestamp,
    pub updated_at: Timestamp,
    pub audio_files: Seq<Seq<char>>,
}

/// The contributors of a list, as plain values.
pub open spec fn contributor_views(list: Seq<Contributor>) -> Seq<ContributorView> {
    list.map_values(|c: Contributor| c@)
}

/// The splits of a list, as plain values.
pub open spec fn split_views(list: Seq<Split>) -> Seq<SplitView> {
    list.map_values(|s: Split| s@)
}

/// The projects of a list, as plain values.
pub open spec fn project_views(list: Seq<Project>) -> Seq<ProjectView> {
    list.map_values(|p: Project| p@)
}

/// The summaries of a list, as plain values.
pub open spec fn summary_views(list: Seq<ProjectSummary>) -> Seq<ProjectSummaryView> {
    list.map_values(|s: ProjectSummary| s@)
}

/// The texts of a list of strings.
pub open spec fn texts(list: Seq<String>) -> Seq<Seq<char>> {
    list.map_values(|s: String| s@)
}

impl View for Project {
    type V = ProjectView;

    open spec fn view(&self) -> ProjectView {
        ProjectView {
            id: self.id,
            project_name: self.project_name@,
            contributors: contributor_views(self.contributors@),
            splits: split_views(self.splits@),
            created_at: self.created_at,
            updated_at: self.updated_at,
            audio_files: texts(self.audio_files@),
        }
    }
}

impl ProjectView {
    /// A project is never updated before it was created.
    pub open spec fn well_formed(self) -> bool {
        self.created_at.not_after(self.updated_at)
    }

    /// The project after `path` was attached at the instant `at`: the path
    /// comes last, and the update time moves to `at` unless that would put it
    /// before the creation time.
    pub open spec fn with_file(self, path: Seq<char>, at: Timestamp) -> ProjectView {
        ProjectView {
            updated_at: if self.created_at.not_after(at) {
                at
            } else {
                self.created_at
            },
            audio_files: self.audio_files.push(path),
            ..self
        }
    }

    /// The short form of the project shown in listings.
    pub open spec fn summary(self) -> ProjectSummaryView {
        ProjectSummaryView {
            id: self.id,
            project_name: self.project_name,
            contributors_count: self.contributors.len(),
            created_at: self.created_at,
        }
    }
}

impl Clone for Project {
    fn clone(&self) -> (r: Self)
        ensures
            r@ == self@,
            r.id == self.id,
            r.project_name == self.project_name,
            r.contributors@ == self.contributors@,
            r.splits@ == self.splits@,
            r.created_at == self.created_at,
            r.updated_at == self.updated_at,
            r.audio_files@ == self.audio_files@,
    {
        let contributors = self.contributors.clone();
        let splits = self.splits.clone();
        let audio_files = self.audio_files.clone();
        assert(contributors@ =~= self.contributors@);
        assert(splits@ =~= self.splits@);
        assert(audio_files@ =~= self.audio_files@);
        Project {
            id: self.id,
            project_name: self.project_name.clone(),
            contributors,
            splits,
            created_at: self.created_at,
            updated_at: self.updated_at,
            audio_files,
        }
    }
}

/// What a caller sends to have a project created.
#[derive(Debug)]
pub struct CreateProjectRequest {
    pub project_name: String,
    pub contributors: Vec<Contributor>,
    pub splits: Vec<Split>,
}

/// What a [`CreateProjectRequest`] is, as plain values.
pub struct CreateProjectRequestView {
    pub project_name: Seq<char>,
    pub contributors: Seq<ContributorView>,
    pub splits: Seq<SplitView>,
}

impl View for CreateProjectRequest {
    type V = CreateProjectRequestView;

    open spec fn view(&self) -> CreateProjectRequestView {
        CreateProjectRequestView {
            project_name: self.project_name@,
            contributors: contributor_views(self.contributors@),
            splits: split_views(self.splits@),
        }
    }
}

impl CreateProjectRequestView {
    /// The project that this request describes, once it has been given an
    /// identifier and a time of birth.
    pub open spec fn project(self, id: u128, at: Timestamp) -> ProjectView {
        ProjectView {
            id,
            project_name: self.project_name,
            contributors: self.contributors,
            splits: self.splits,
            created_at: at,
            updated_at: at,
            audio_files: Seq::empty(),
        }
    }
}

/// The answer to a successful creation.
#[derive(Debug)]
pub struct CreateProjectResponse {
    pub id: u128,
    pub message: String,
}

/// The short form of a project, for listings: it carries neither splits nor
/// contributor details nor files.
#[derive(Debug)]
pub struct ProjectSummary {
    pub id: u128,
    pub project_name: String,
    pub contributors_count: usize,
    pub created_at: Timestamp,
}

/// What a [`ProjectSummary`] is, as plain values.
pub struct ProjectSummaryView {
    pub id: u128,
    pub project_name: Seq<char>,
    pub contributors_count: nat,
    pub created_at: Timestamp,
}

impl View for ProjectSummary {
    type V = ProjectSummaryView;

    open spec fn view(&self) -> ProjectSummaryView {
        ProjectSummaryView {
            id: self.id,
            project_name: self.project_name@,
            contributors_count: self.contributors_count as nat,
            created_at: self.created_at,
        }
    }
}

impl Clone for ProjectSummary {
    fn clone(&self) -> (r: Self)
        ensures
            r == *self,
    {
        ProjectSummary {
            id: self.id,
            project_name: self.project_name.clone(),
            contributors_count: self.contributors_count,
            created_at: self.created_at,
        }
    }
}

/// A listing of projects.
#[derive(Debug)]
pub struct ProjectListResponse {
    pub projects: Vec<ProjectSummary>,
    pub total: usize,
}

/// The answer to a successful upload.
#[derive(Debug)]
pub struct UploadResponse {
    pub file_path: String,
    pub message: String,
}

/// The answer to a failed request: a short machine-readable kind and a
/// sentence for people.
#[derive(Debug)]
pub struct ErrorResponse {
    pub error: String,
    pub message: String,
}

/// What a bearer token claims: who the caller is, and from when until when the
/// claim holds, in seconds since the epoch.
#[derive(Debug)]
pub struct ICPAuthClaim {
    pub principal: String,
    pub exp: i64,
    pub iat: i64,
}

impl Project {
    /// Builds the project that `request` describes, with a fresh identifier
    /// and the current time as both creation and update time. The request is
    /// taken over verbatim and not judged: see [`Project::validate_splits`].
    pub fn new(request: CreateProjectRequest) -> (project: Project)
        ensures
            project@ == request@.project(project.id, project.created_at),
            crate::ids::is_random_uuid(project.id),
            project.created_at.secs >= 0,
            project.created_at.nanos < 1_000_000_000,
            project@.well_formed(),
    {
        let at = now();
        let id = fresh_id();
        Project::assemble(request, id, at)
    }

    /// Builds the project that `request` describes under the identifier `id`,
    /// born at the instant `at`.
    pub fn assemble(request: CreateProjectRequest, id: u128, at: Timestamp) -> (project: Project)
        ensures
            project@ == request@.project(id, at),
            project@.well_formed(),
    {
        let project = Project {
            id,
            project_name: request.project_name,
            contributors: request.contributors,
            splits: request.splits,
            created_at: at,
            updated_at: at,
            audio_files: Vec::new(),
        };
        assert(project@.audio_files =~= Seq::<Seq<char>>::empty());
        project
    }

    /// The short form of the project, for listings.
    pub fn to_summary(&self) -> (summary: ProjectSummary)
        ensures
            summary@ == self@.summary(),
    {
        ProjectSummary {
            id: self.id,
            project_name: self.project_name.clone(),
            contributors_count: self.contributors.len(),
            created_at: self.created_at,
        }
    }

    /// Judges the project's splits: every share must lie between zero and one
    /// hundred percent, and together they must make one hundred percent, give
    /// or take the tolerance.
    pub fn validate_splits(&self) -> (verdict: Result<(), ValidationError>)
        ensures
            verdict == shares_verdict(shares_of(self@.splits)),
    {
        let ghost shares = shares_of(self@.splits);
        let n = self.splits.len();
        let mut total: i128 = 0;
        let mut i: usize = 0;
        while i < n
            invariant
                n == self.splits.len(),
                shares == shares_of(self@.splits),
                shares.len() == n,
                0 <= i <= n,
                all_in_range(shares.take(i as int)),
                total == total_share(shares.take(i as int)),
            decreases n - i,
        {
            let share = self.splits[i].percentage;
            assert(shares[i as int] == share as int);
            if share < 0 || share > FULL_SHARE {
                proof {
                    lemma_first_out_of_range(shares);
                    let k = first_out_of_range(shares);
                    assert(!share_in_range(shares[i as int]));
                    if k < i {
                        assert(shares.take(i as int)[k] == shares[k]);
                    }
                    if k > i {
                        assert(share_in_range(shares[i as int]));
                    }
                    assert(k == i);
                }
                return Err(ValidationError::SplitOutOfRange { percentage: share });
            }
            proof {
                let next = shares.take(i as int + 1);
                assert(next.drop_last() =~= shares.take(i as int));
                assert(next.last() == share as int);
                assert forall|j: int| 0 <= j < next.len() implies share_in_range(
                    #[trigger] next[j],
                ) by {
                    if j < i {
                        assert(shares.take(i as int)[j] == next[j]);
                    }
                }
                lemma_total_bounds(shares.take(i as int));
                assert(i * FULL_SHARE as int <= usize::MAX * FULL_SHARE as int)
                    by (nonlinear_arith)
                    requires
                        i <= usize::MAX,
                ;
            }
            total = total + share as i128;
            i = i + 1;
        }
        proof {
            assert(shares.take(n as int) =~= shares);
        }
        if total < (FULL_SHARE - SUM_TOLERANCE) as i128 || total > (FULL_SHARE + SUM_TOLERANCE) as i128 {
            Err(ValidationError::SplitsDoNotSum100 { total })
        } else {
            Ok(())
        }
    }

    /// Attaches a file at the current time: see [`Project::add_audio_file_at`].
    pub fn add_audio_file(&mut self, file_path: String)
        ensures
            exists|at: Timestamp| final(self)@ == #[trigger] old(self)@.with_file(file_path@, at),
            old(self)@.well_formed() ==> final(self)@.well_formed(),
    {
        let at = now();
        self.add_audio_file_at(file_path, at);
    }

    /// Attaches `file_path` to the project at the instant `at`. The path goes
    /// to the end of the list as it is, seen before or not; nothing else of
    /// the project changes but the update time, which never falls behind the
    /// creation time.
    pub fn add_audio_file_at(&mut self, file_path: String, at: Timestamp)
        ensures
            final(self)@ == old(self)@.with_file(file_path@, at),
            old(self)@.well_formed() ==> final(self)@.well_formed(),
    {
        self.audio_files.push(file_path);
        self.updated_at = at.later_of(self.created_at);
        assert(self@.audio_files =~= old(self)@.audio_files.push(file_path@));
    }
}

} // verus!
