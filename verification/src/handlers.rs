//! What the service answers to each request: the sequence "check, build,
//! validate, store" for a new project, lookups and listings, the decisions of
//! an upload, and the wording of every failure.

use crate::clock::{now, Timestamp};
use crate::ids::{fresh_id, id_text, id_to_string};
use crate::models::{
    shares_of, shares_verdict, summary_views, CreateProjectRequest, CreateProjectRequestView,
    CreateProjectResponse, ErrorResponse, Project, ProjectListResponse, ProjectSummary,
    ProjectView, UploadResponse, ValidationError,
};
use crate::storage::{
    attached, created, is_listing_of, lookup, AppStorage, NotFoundError, PersistenceError,
};
use crate::text::{
    ends_with, is_blank, is_blank_text, lowercased, percent_text, push_percent, same_text,
    to_lowercase,
};
use vstd::prelude::*;
use vstd::string::StringExecFns;

verus! {

/// The status of a request that the caller got wrong.
pub const BAD_REQUEST: u16 = 400;

/// The status of a request without a valid credential.
pub const UNAUTHORIZED: u16 = 401;

/// The status of a request for something that is not there.
pub const NOT_FOUND: u16 = 404;

/// The status of a request that the service failed to carry out.
pub const INTERNAL_SERVER_ERROR: u16 = 500;

/// The verdict on a request's shape: it needs a name that is not blank, at
/// least one contributor, and as many splits as contributors.
pub open spec fn shape_verdict(request: CreateProjectRequestView) -> Result<(), ValidationError> {
    if is_blank_text(request.project_name) {
        Err(ValidationError::EmptyName)
    } else if request.contributors.len() == 0 {
        Err(ValidationError::NoContributors)
    } else if request.splits.len() != request.contributors.len() {
        Err(ValidationError::SplitCountMismatch)
    } else {
        Ok(())
    }
}

/// The verdict on a request: its shape first, then its splits.
pub open spec fn request_verdict(request: CreateProjectRequestView) -> Result<
    (),
    ValidationError,
> {
    if shape_verdict(request) is Err {
        shape_verdict(request)
    } else {
        shares_verdict(shares_of(request.splits))
    }
}

/// Judges the shape of a request.
pub fn check_shape(request: &CreateProjectRequest) -> (verdict: Result<(), ValidationError>)
    ensures
        verdict == shape_verdict(request@),
{
    if is_blank(request.project_name.as_str()) {
        Err(ValidationError::EmptyName)
    } else if request.contributors.len() == 0 {
        Err(ValidationError::NoContributors)
    } else if request.splits.len() != request.contributors.len() {
        Err(ValidationError::SplitCountMismatch)
    } else {
        Ok(())
    }
}

/// Creates the project that `request` describes, under a fresh identifier
/// and with the current time: see [`create_project_at`]. On any failure the
/// store is left exactly as it was.
pub fn create_project(storage: &mut AppStorage, request: CreateProjectRequest) -> (outcome: Result<
    CreateProjectResponse,
    ValidationError,
>)
    ensures
        final(storage).path() == old(storage).path(),
        match outcome {
            Ok(response) => request_verdict(request@) is Ok && response.message@
                == "Project created successfully"@ && exists|at: Timestamp|
                final(storage)@ == created(
                    old(storage)@,
                    #[trigger] request@.project(response.id, at),
                ),
            Err(error) => request_verdict(request@) == Err::<(), ValidationError>(error)
                && final(storage)@ == old(storage)@,
        },
{
    let at = now();
    let id = fresh_id();
    let outcome = create_project_at(storage, request, id, at);
    proof {
        if outcome is Ok {
            assert(final(storage)@ == created(old(storage)@, request@.project(id, at)));
        }
    }
    outcome
}

/// Creates the project that `request` describes under the identifier `id`,
/// born at the instant `at`. The request's shape is judged first, then the
/// project is built and its splits are judged, and only a project that passed
/// both goes into the store.
pub fn create_project_at(
    storage: &mut AppStorage,
    request: CreateProjectRequest,
    id: u128,
    at: Timestamp,
) -> (outcome: Result<CreateProjectResponse, ValidationError>)
    ensures
        final(storage).path() == old(storage).path(),
        match outcome {
            Ok(response) => request_verdict(request@) is Ok && response.id == id
                && response.message@ == "Project created successfully"@ && final(storage)@
                == created(old(storage)@, request@.project(id, at)),
            Err(error) => request_verdict(request@) == Err::<(), ValidationError>(error)
                && final(storage)@ == old(storage)@,
        },
{
    match check_shape(&request) {
        Err(error) => {
            return Err(error);
        },
        Ok(_) => {},
    }
    let project = Project::assemble(request, id, at);
    match project.validate_splits() {
        Err(error) => {
            return Err(error);
        },
        Ok(_) => {},
    }
    let id = storage.create_project(project);
    Ok(CreateProjectResponse { id, message: String::from_str("Project created successfully") })
}

/// The short forms of a listing's projects, in the listing's order.
pub open spec fn summaries(listing: Seq<ProjectView>) -> Seq<crate::models::ProjectSummaryView> {
    listing.map_values(|p: ProjectView| p.summary())
}

/// Lists the store's projects in their short form, each once, with their
/// number.
pub fn get_all_projects(storage: &AppStorage) -> (response: ProjectListResponse)
    ensures
        response.total == response.projects@.len(),
        exists|listing: Seq<ProjectView>| #[trigger]
            is_listing_of(storage@, listing) && summary_views(response.projects@) == summaries(
                listing,
            ),
{
    let all = storage.get_all_projects();
    let ghost listing = crate::models::project_views(all@);
    let mut projects: Vec<ProjectSummary> = Vec::new();
    let mut i: usize = 0;
    while i < all.len()
        invariant
            0 <= i <= all.len(),
            projects.len() == i,
            forall|j: int| 0 <= j < i ==> (#[trigger] projects[j])@ == all[j]@.summary(),
        decreases all.len() - i,
    {
        projects.push(all[i].to_summary());
        i = i + 1;
    }
    assert(summary_views(projects@) =~= summaries(listing));
    assert(is_listing_of(storage@, listing));
    ProjectListResponse { total: projects.len(), projects }
}

/// Looks a project up by its identifier.
pub fn get_project_by_id(storage: &AppStorage, id: u128) -> (outcome: Result<
    Project,
    NotFoundError,
>)
    ensures
        match outcome {
            Ok(project) => lookup(storage@, id) == Some(project@),
            Err(error) => lookup(storage@, id) is None && error == (NotFoundError { id }),
        },
{
    match storage.get_project(id) {
        Some(project) => Ok(project),
        None => Err(NotFoundError { id }),
    }
}

/// Attaches an uploaded file's path to a project, at the current time. What
/// the file holds is not looked at.
pub fn attach_file(storage: &mut AppStorage, id: u128, file_path: String) -> (outcome: Result<
    (),
    NotFoundError,
>)
    ensures
        final(storage).path() == old(storage).path(),
        exists|at: Timestamp| final(storage)@ == #[trigger] attached(
            old(storage)@,
            id,
            file_path@,
            at,
        ),
        outcome == if old(storage)@.contains_key(id) {
            Ok::<(), NotFoundError>(())
        } else {
            Err::<(), NotFoundError>(NotFoundError { id })
        },
{
    storage.add_audio_file_to_project(id, file_path)
}

/// The sentence that tells a caller why a project was not accepted.
pub open spec fn validation_message(error: ValidationError) -> Seq<char> {
    match error {
        ValidationError::EmptyName => "Project name cannot be empty"@,
        ValidationError::NoContributors => "At least one contributor is required"@,
        ValidationError::SplitCountMismatch => "Number of splits must match number of contributors"@,
        ValidationError::SplitsDoNotSum100 { total } => "Split percentages must sum to 100%, got "@
            + percent_text(total as int) + "%"@,
        ValidationError::SplitOutOfRange { percentage } =>
            "Split percentage must be between 0-100%, got "@ + percent_text(percentage as int)
                + "%"@,
    }
}

/// An answer of the kind `error` with the sentence `message`.
fn failure(error: &str, message: String) -> (response: ErrorResponse)
    ensures
        response.error@ == error@,
        response.message@ == message@,
{
    ErrorResponse { error: String::from_str(error), message }
}

/// The answer to a request for a project that was not accepted: a bad
/// request, of the kind `validation_error`, with the reason as its sentence.
pub fn validation_failure(error: &ValidationError) -> (answer: (u16, ErrorResponse))
    ensures
        answer.0 == BAD_REQUEST,
        answer.1.error@ == "validation_error"@,
        answer.1.message@ == validation_message(*error),
{
    let message = match error {
        ValidationError::EmptyName => String::from_str("Project name cannot be empty"),
        ValidationError::NoContributors => String::from_str(
            "At least one contributor is required",
        ),
        ValidationError::SplitCountMismatch => String::from_str(
            "Number of splits must match number of contributors",
        ),
        ValidationError::SplitsDoNotSum100 { total } => {
            let mut message = String::from_str("Split percentages must sum to 100%, got ");
            push_percent(&mut message, *total);
            message.append("%");
            message
        },
        ValidationError::SplitOutOfRange { percentage } => {
            let mut message = String::from_str("Split percentage must be between 0-100%, got ");
            push_percent(&mut message, *percentage as i128);
            message.append("%");
            message
        },
    };
    (BAD_REQUEST, failure("validation_error", message))
}

/// The answer to a request for a project that the store does not hold.
pub fn not_found_failure(error: &NotFoundError) -> (answer: (u16, ErrorResponse))
    ensures
        answer.0 == NOT_FOUND,
        answer.1.error@ == "not_found"@,
        answer.1.message@ == "Project with id "@ + id_text(error.id) + " not found"@,
{
    let mut message = String::from_str("Project with id ");
    let id = id_to_string(error.id);
    message.append(id.as_str());
    message.append(" not found");
    (NOT_FOUND, failure("not_found", message))
}

/// The answer to a creation that was accepted and then could not be written
/// to disk. The store in memory is then ahead of the file until the next
/// write succeeds.
pub fn storage_failure(error: &PersistenceError) -> (answer: (u16, ErrorResponse))
    ensures
        answer.0 == INTERNAL_SERVER_ERROR,
        answer.1.error@ == "storage_error"@,
        answer.1.message@ == "Failed to create project"@,
{
    (INTERNAL_SERVER_ERROR, failure("storage_error", String::from_str("Failed to create project")))
}

/// How the service says it is.
#[derive(Debug)]
pub struct HealthReport {
    pub status: String,
    pub service: String,
    pub version: String,
    pub timestamp: Timestamp,
}

/// Reports that the service is up, with its name, its version and the
/// current time.
pub fn health_check() -> (report: HealthReport)
    ensures
        report.status@ == "healthy"@,
        report.service@ == "Orpheus Backend"@,
        report.version@ == "0.1.0"@,
{
    HealthReport {
        status: String::from_str("healthy"),
        service: String::from_str("Orpheus Backend"),
        version: String::from_str("0.1.0"),
        timestamp: now(),
    }
}

/// A token for development, with what a caller needs to use it.
#[derive(Debug)]
pub struct TestToken {
    pub token: Option<String>,
    pub kind: String,
    pub expires_in: i64,
    pub principal: String,
}

/// Issues a token for development to the test principal: a bearer token that
/// lasts as long as every mock token.
pub fn get_test_token() -> (issued: TestToken)
    ensures
        exists|now: int|
            0 <= now && crate::auth::text_option(issued.token) == #[trigger] crate::auth::mock_token(
                crate::auth::test_principal(),
                now,
            ),
        issued.kind@ == "Bearer"@,
        issued.expires_in == crate::auth::MOCK_TOKEN_LIFETIME,
        issued.principal@ == crate::auth::test_principal(),
{
    TestToken {
        token: crate::auth::create_test_token(),
        kind: String::from_str("Bearer"),
        expires_in: crate::auth::MOCK_TOKEN_LIFETIME,
        principal: String::from_str("rdmx6-jaaaa-aaaah-qcaiq-cai"),
    }
}

/// Where uploaded files are kept.
pub open spec fn uploads_directory() -> Seq<char> {
    "uploads"@
}

/// Why an upload was turned down.
#[derive(Debug, PartialEq, Eq, Structural)]
pub enum UploadError {
    /// The uploads directory could not be made.
    CreateDirectory,
    /// The request is not well-formed multipart data.
    InvalidMultipart,
    /// The part named `file` carries no file name.
    MissingFilename,
    /// The file's name does not end in `.mp3`.
    NotMp3,
    /// The file's bytes could not be read from the request.
    ReadFailed,
    /// The file could not be created on disk.
    SaveFailed,
    /// The file's bytes could not be written to disk.
    WriteFailed,
    /// The request has no part named `file`.
    NoFile,
}

/// What to do with one part of an upload request.
#[derive(Debug)]
pub enum UploadStep {
    /// Pass over it and look at the next part.
    Skip,
    /// Store its bytes at this path, and answer with the path.
    Store { file_path: String },
}

/// A lower-case file name ends in `.mp3`.
pub open spec fn has_mp3_suffix(lower: Seq<char>) -> bool {
    ".mp3"@.is_suffix_of(lower)
}

/// Decides whether a file name, already in lower case, ends in `.mp3`.
pub fn names_mp3(lower: &str) -> (r: bool)
    ensures
        r == has_mp3_suffix(lower@),
{
    ends_with(lower, ".mp3")
}

/// Decides whether a file may be uploaded under its name: in lower case the
/// name has to end in `.mp3`.
pub fn is_mp3_name(file_name: &str) -> (r: bool)
    ensures
        r == has_mp3_suffix(lowercased(file_name@)),
{
    let lower = to_lowercase(file_name);
    names_mp3(lower.as_str())
}

/// The path under which an upload is stored: the uploads directory, then the
/// identifier drawn for it, an underscore and the name it came with.
pub open spec fn upload_path(id: u128, file_name: Seq<char>) -> Seq<char> {
    uploads_directory() + "/"@ + id_text(id) + "_"@ + file_name
}

/// The verdict on one part of an upload request, were `id` the identifier
/// drawn for it. A part whose name is not `file` (a part without a name
/// counts as one named `unknown`) is passed over. The part named `file`
/// needs a file name, and one that ends in `.mp3` whatever its case.
pub open spec fn upload_verdict(
    field_name: Option<Seq<char>>,
    file_name: Option<Seq<char>>,
    id: u128,
) -> Result<Option<Seq<char>>, UploadError> {
    let name = match field_name {
        Some(name) => name,
        None => "unknown"@,
    };
    if name != "file"@ {
        Ok(None)
    } else {
        match file_name {
            None => Err(UploadError::MissingFilename),
            Some(file_name) => if has_mp3_suffix(lowercased(file_name)) {
                Ok(Some(upload_path(id, file_name)))
            } else {
                Err(UploadError::NotMp3)
            },
        }
    }
}

/// What the decision on a part says, as plain values: the path to store it
/// at, nothing where it is passed over, or the reason to turn it down.
pub open spec fn step_outcome(outcome: Result<UploadStep, UploadError>) -> Result<
    Option<Seq<char>>,
    UploadError,
> {
    match outcome {
        Ok(UploadStep::Skip) => Ok(None),
        Ok(UploadStep::Store { file_path }) => Ok(Some(file_path@)),
        Err(error) => Err(error),
    }
}

/// The text held by an optional borrowed text.
pub open spec fn str_text(s: Option<&str>) -> Option<Seq<char>> {
    match s {
        Some(t) => Some(t@),
        None => None,
    }
}

/// Decides what to do with one part of an upload request, drawing a fresh
/// identifier for the stored file: see [`upload_file_as`].
pub fn upload_file(field_name: Option<&str>, file_name: Option<&str>) -> (outcome: Result<
    UploadStep,
    UploadError,
>)
    ensures
        exists|id: u128|
            step_outcome(outcome) == #[trigger] upload_verdict(
                str_text(field_name),
                str_text(file_name),
                id,
            ),
{
    let id = fresh_id();
    let outcome = upload_file_as(field_name, file_name, id);
    assert(step_outcome(outcome) == upload_verdict(
        str_text(field_name),
        str_text(file_name),
        id,
    ));
    outcome
}

/// Decides what to do with one part of an upload request, the stored file
/// being named after `id`.
pub fn upload_file_as(field_name: Option<&str>, file_name: Option<&str>, id: u128) -> (outcome:
    Result<UploadStep, UploadError>)
    ensures
        step_outcome(outcome) == upload_verdict(
            str_text(field_name),
            str_text(file_name),
            id,
        ),
{
    let name = match field_name {
        Some(name) => name,
        None => "unknown",
    };
    if !same_text(name, "file") {
        return Ok(UploadStep::Skip);
    }
    match file_name {
        None => Err(UploadError::MissingFilename),
        Some(file_name) => {
            if !is_mp3_name(file_name) {
                return Err(UploadError::NotMp3);
            }
            let mut file_path = String::from_str("uploads");
            file_path.append("/");
            let id = id_to_string(id);
            file_path.append(id.as_str());
            file_path.append("_");
            file_path.append(file_name);
            Ok(UploadStep::Store { file_path })
        },
    }
}

/// The answer to an upload whose bytes were stored at `file_path`.
pub fn upload_stored(file_path: String) -> (response: UploadResponse)
    ensures
        response.file_path@ == file_path@,
        response.message@ == "File uploaded successfully"@,
{
    UploadResponse { file_path, message: String::from_str("File uploaded successfully") }
}

/// The status that goes with a failed upload: the caller's fault, unless the
/// disk let the service down.
pub open spec fn upload_status(error: UploadError) -> u16 {
    match error {
        UploadError::CreateDirectory | UploadError::SaveFailed | UploadError::WriteFailed =>
            INTERNAL_SERVER_ERROR,
        _ => BAD_REQUEST,
    }
}

/// The kind under which a failed upload is reported.
pub open spec fn upload_kind(error: UploadError) -> Seq<char> {
    match error {
        UploadError::CreateDirectory | UploadError::SaveFailed | UploadError::WriteFailed =>
            "storage_error"@,
        UploadError::NotMp3 => "validation_error"@,
        _ => "upload_error"@,
    }
}

/// The sentence that tells a caller why an upload was turned down.
pub open spec fn upload_message(error: UploadError) -> Seq<char> {
    match error {
        UploadError::CreateDirectory => "Failed to create uploads directory"@,
        UploadError::InvalidMultipart => "Invalid multipart data"@,
        UploadError::MissingFilename => "Missing filename"@,
        UploadError::NotMp3 => "Only MP3 files are allowed"@,
        UploadError::ReadFailed => "Failed to read file data"@,
        UploadError::SaveFailed => "Failed to save file"@,
        UploadError::WriteFailed => "Failed to write file"@,
        UploadError::NoFile => "No file found in request"@,
    }
}

/// The answer to an upload that was turned down.
pub fn upload_failure(error: &UploadError) -> (answer: (u16, ErrorResponse))
    ensures
        answer.0 == upload_status(*error),
        answer.1.error@ == upload_kind(*error),
        answer.1.message@ == upload_message(*error),
{
    match error {
        UploadError::CreateDirectory => (
            INTERNAL_SERVER_ERROR,
            failure("storage_error", String::from_str("Failed to create uploads directory")),
        ),
        UploadError::InvalidMultipart => (
            BAD_REQUEST,
            failure("upload_error", String::from_str("Invalid multipart data")),
        ),
        UploadError::MissingFilename => (
            BAD_REQUEST,
            failure("upload_error", String::from_str("Missing filename")),
        ),
        UploadError::NotMp3 => (
            BAD_REQUEST,
            failure("validation_error", String::from_str("Only MP3 files are allowed")),
        ),
        UploadError::ReadFailed => (
            BAD_REQUEST,
            failure("upload_error", String::from_str("Failed to read file data")),
        ),
        UploadError::SaveFailed => (
            INTERNAL_SERVER_ERROR,
            failure("storage_error", String::from_str("Failed to save file")),
        ),
        UploadError::WriteFailed => (
            INTERNAL_SERVER_ERROR,
            failure("storage_error", String::from_str("Failed to write file")),
        ),
        UploadError::NoFile => (
            BAD_REQUEST,
            failure("upload_error", String::from_str("No file found in request")),
        ),
    }
}

} // verus!
