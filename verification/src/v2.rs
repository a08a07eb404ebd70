//! The second version of the API: a request records a job, starts it in
//! the background and answers at once with the job's id; the result is
//! fetched later by that id.

use vstd::prelude::*;
use crate::command::{rec_youtube_command, rec_youtube_command_text, result_file_path, result_path_of};
use crate::error::HttpError;
use crate::ids::{is_uuid_v4_text, new_job_id};
use crate::job::{job_transition, lemma_output_kept_under_job_id, JobAction, JobEvent, JobState};
use crate::records::{ResultRecord, ResultStatus};
use crate::upload::{upload_path_of, MultipartContent};
use crate::v1::{saved_file_name, saved_upload_path, upload_command, upload_command_text, UploadKind};

verus! {

/// The answer to a job request: the id under which the result is fetched.
#[derive(Debug, Clone, PartialEq, Eq)]
pub struct IdResponse {
    pub id: String,
}

/// A recognition request on a YouTube video.
#[derive(Debug)]
pub struct RecYoutubeRequest {
    pub asr_kind: Option<String>,
    pub output_type: Option<String>,
    pub vid: String,
    pub lmwt: Option<String>,
    pub n_jobs: Option<String>,
}

/// What a job request asks for.
#[derive(Debug)]
pub enum Submission {
    /// A job on an uploaded file.
    Upload { kind: UploadKind, content: MultipartContent },
    /// A recognition job on a YouTube video.
    Youtube { request: RecYoutubeRequest },
    /// A translation of the request body.
    Translation,
}

/// Where a job request stands.
#[derive(Debug)]
pub enum SubmitState {
    /// Waiting for the upload form, for a job owned by `owner_id`.
    AwaitForm { kind: UploadKind, owner_id: i32 },
    /// Waiting for the job's record to be stored.
    AwaitRecord { id: String, submission: Submission },
    /// Waiting for the upload to be saved.
    AwaitSave { id: String, command: String, upload_path: String, record: ResultRecord },
    /// The request has been answered.
    Finished,
}

/// What the outside world reports back.
#[derive(Debug)]
pub enum SubmitEvent {
    /// The upload form, or why it could not be read.
    Form { content: Result<MultipartContent, String> },
    /// The stored record, or why it could not be stored.
    RecordCreated { record: Result<ResultRecord, String> },
    /// Whether the upload was saved.
    Saved { result: Result<(), String> },
}

/// What is to be done next.
#[derive(Debug)]
pub enum SubmitAction {
    /// Read the upload form.
    ParseForm,
    /// Store a running job with this id, owned by this user.
    CreateRecord { id: String, owner_id: i32 },
    /// Write `data` to a new file at `path`.
    SaveFile { path: String, data: Vec<u8> },
    /// Start the background job from `job`, for `record`, and answer with
    /// `response`.
    Launch { record: ResultRecord, job: (JobState, JobAction), response: IdResponse },
    /// Answer with an error.
    Respond { error: HttpError },
}

/// Starting the command job `command` for `id`, removing `delete_file`
/// afterwards, and answering with `id`.
pub open spec fn launches_command(
    r: (SubmitState, SubmitAction),
    record: ResultRecord,
    id: String,
    command: Seq<char>,
    delete_file: Option<Seq<char>>,
) -> bool {
    r.0 == SubmitState::Finished && (r.1 matches SubmitAction::Launch { record: rec, job, response }
        && rec == record && response.id@ == id@ && (job.0 matches JobState::AwaitOutput {
        id: job_id,
        delete_file: d,
    } && job_id@ == id@ && match (d, delete_file) {
        (Some(a), Some(b)) => a@ == b,
        (None, None) => true,
        _ => false,
    }) && (job.1 matches JobAction::RunCommand { command: c } && c@ == command))
}

/// Storing a running job with a fresh id, owned by `owner_id`, for
/// `submission`.
pub open spec fn creates_record(
    r: (SubmitState, SubmitAction),
    owner_id: i32,
    submission: Submission,
) -> bool {
    r.0 matches SubmitState::AwaitRecord { id, submission: s } && s == submission
        && is_uuid_v4_text(id@) && (r.1 matches SubmitAction::CreateRecord { id: rid, owner_id: o }
        && rid == id && o == owner_id)
}

/// The events that each state waits for.
pub open spec fn submit_event_expected(state: SubmitState, event: SubmitEvent) -> bool {
    match (state, event) {
        (SubmitState::AwaitForm { .. }, SubmitEvent::Form { .. }) => true,
        (SubmitState::AwaitRecord { .. }, SubmitEvent::RecordCreated { .. }) => true,
        (SubmitState::AwaitSave { .. }, SubmitEvent::Saved { .. }) => true,
        _ => false,
    }
}

/// One step of a job request.
pub open spec fn submit_transition(
    state: SubmitState,
    event: SubmitEvent,
    r: (SubmitState, SubmitAction),
) -> bool {
    match (state, event) {
        (SubmitState::AwaitForm { kind, owner_id }, SubmitEvent::Form { content }) => match content {
            Err(e) => r == (SubmitState::Finished, SubmitAction::Respond {
                error: HttpError::MultipartError(e),
            }),
            Ok(c) => creates_record(r, owner_id, Submission::Upload { kind, content: c }),
        },
        (SubmitState::AwaitRecord { id, submission }, SubmitEvent::RecordCreated { record }) => match record {
            Err(e) => r == (SubmitState::Finished, SubmitAction::Respond { error: HttpError::Other(e) }),
            Ok(rec) => match submission {
                Submission::Upload { kind, content } => r.0 matches SubmitState::AwaitSave {
                    id: i,
                    command,
                    upload_path,
                    record,
                } && i == id && record == rec && upload_path@ == upload_path_of(
                    saved_file_name(id@, content.extension@),
                ) && command@ == upload_command_text(kind, id@, content, upload_path@) && (
                r.1 matches SubmitAction::SaveFile { path, data } && path@ == upload_path@ && data
                    == content.file),
                Submission::Youtube { request } => launches_command(
                    r,
                    rec,
                    id,
                    rec_youtube_command_text(
                        id@,
                        request.asr_kind,
                        request.output_type,
                        request.vid@,
                        request.lmwt,
                    ),
                    None,
                ),
                Submission::Translation => r.0 == SubmitState::Finished && (
                r.1 matches SubmitAction::Launch { record, job, response } && record == rec
                    && response.id@ == id@ && (job.0 matches JobState::AwaitResponse { id: j }
                    && j@ == id@) && job.1 == JobAction::PostTranslation),
            },
        },
        (SubmitState::AwaitSave { id, command, upload_path, record }, SubmitEvent::Saved { result }) => match result {
            Err(e) => r == (SubmitState::Finished, SubmitAction::Respond { error: HttpError::Other(e) }),
            Ok(_) => launches_command(r, record, id, command@, Some(upload_path@)),
        },
        _ => false,
    }
}

/// Starts the command job `command` for `id` and answers with `id`.
fn launch_command(record: ResultRecord, id: String, command: String, delete_file: Option<String>) -> (r: (SubmitState, SubmitAction))
    ensures
        launches_command(r, record, id, command@, match delete_file {
            Some(p) => Some(p@),
            None => None,
        }),
{
    let response = IdResponse { id: id.clone() };
    let job = JobState::start_command(id, command, delete_file);
    (SubmitState::Finished, SubmitAction::Launch { record, job, response })
}

impl SubmitState {
    /// A job on an uploaded file, owned by `owner_id`, begins by reading the
    /// form.
    pub fn start_upload(kind: UploadKind, owner_id: i32) -> (r: (SubmitState, SubmitAction))
        ensures
            r == (SubmitState::AwaitForm { kind, owner_id }, SubmitAction::ParseForm),
    {
        (SubmitState::AwaitForm { kind, owner_id }, SubmitAction::ParseForm)
    }

    /// A recognition job on a YouTube video begins by storing its record
    /// under a fresh id.
    pub fn start_youtube(request: RecYoutubeRequest, owner_id: i32) -> (r: (SubmitState, SubmitAction))
        ensures
            creates_record(r, owner_id, Submission::Youtube { request }),
    {
        let id = new_job_id();
        let rid = id.clone();
        (
            SubmitState::AwaitRecord { id, submission: Submission::Youtube { request } },
            SubmitAction::CreateRecord { id: rid, owner_id },
        )
    }

    /// A translation job begins by storing its record under a fresh id.
    pub fn start_translation(owner_id: i32) -> (r: (SubmitState, SubmitAction))
        ensures
            creates_record(r, owner_id, Submission::Translation),
    {
        let id = new_job_id();
        let rid = id.clone();
        (
            SubmitState::AwaitRecord { id, submission: Submission::Translation },
            SubmitAction::CreateRecord { id: rid, owner_id },
        )
    }

    /// Advances a job request by one step.
    pub fn step(self, event: SubmitEvent) -> (r: (SubmitState, SubmitAction))
        requires
            submit_event_expected(self, event),
        ensures
            submit_transition(self, event, r),
    {
        match self {
            SubmitState::AwaitForm { kind, owner_id } => match event {
                SubmitEvent::Form { content } => match content {
                    Err(e) => (SubmitState::Finished, SubmitAction::Respond {
                        error: HttpError::MultipartError(e),
                    }),
                    Ok(c) => {
                        let id = new_job_id();
                        let rid = id.clone();
                        (
                            SubmitState::AwaitRecord {
                                id,
                                submission: Submission::Upload { kind, content: c },
                            },
                            SubmitAction::CreateRecord { id: rid, owner_id },
                        )
                    },
                },
                _ => (SubmitState::Finished, SubmitAction::Respond {
                    error: HttpError::Other(String::new()),
                }),
            },
            SubmitState::AwaitRecord { id, submission } => match event {
                SubmitEvent::RecordCreated { record } => match record {
                    Err(e) => (SubmitState::Finished, SubmitAction::Respond {
                        error: HttpError::Other(e),
                    }),
                    Ok(rec) => match submission {
                        Submission::Upload { kind, content } => {
                            let upload_path = saved_upload_path(
                                id.as_str(),
                                content.extension.as_str(),
                            );
                            let command = upload_command(
                                kind,
                                id.as_str(),
                                &content,
                                upload_path.as_str(),
                            );
                            let path = upload_path.clone();
                            (
                                SubmitState::AwaitSave { id, command, upload_path, record: rec },
                                SubmitAction::SaveFile { path, data: content.file },
                            )
                        },
                        Submission::Youtube { request } => {
                            let command = rec_youtube_command(
                                id.as_str(),
                                request.asr_kind,
                                request.output_type,
                                request.vid.as_str(),
                                request.lmwt,
                            );
                            launch_command(rec, id, command, None)
                        },
                        Submission::Translation => {
                            let response = IdResponse { id: id.clone() };
                            let job = JobState::start_translation(id);
                            (SubmitState::Finished, SubmitAction::Launch {
                                record: rec,
                                job,
                                response,
                            })
                        },
                    },
                },
                _ => (SubmitState::Finished, SubmitAction::Respond {
                    error: HttpError::Other(String::new()),
                }),
            },
            SubmitState::AwaitSave { id, command, upload_path, record } => match event {
                SubmitEvent::Saved { result } => match result {
                    Err(e) => (SubmitState::Finished, SubmitAction::Respond {
                        error: HttpError::Other(e),
                    }),
                    Ok(_) => launch_command(record, id, command, Some(upload_path)),
                },
                _ => (SubmitState::Finished, SubmitAction::Respond {
                    error: HttpError::Other(String::new()),
                }),
            },
            SubmitState::Finished => (SubmitState::Finished, SubmitAction::Respond {
                error: HttpError::Other(String::new()),
            }),
        }
    }
}

/// A job request on an uploaded file that meets no failure records a
/// running job under a fresh id for the requesting user, saves the upload
/// under that id, starts the job under that id with the upload to remove,
/// and answers with that same id.
pub proof fn lemma_upload_submission(
    kind: UploadKind,
    owner_id: i32,
    content: MultipartContent,
    record: ResultRecord,
    r1: (SubmitState, SubmitAction),
    r2: (SubmitState, SubmitAction),
    r3: (SubmitState, SubmitAction),
)
    requires
        submit_transition(
            SubmitState::AwaitForm { kind, owner_id },
            SubmitEvent::Form { content: Ok(content) },
            r1,
        ),
        submit_transition(r1.0, SubmitEvent::RecordCreated { record: Ok(record) }, r2),
        submit_transition(r2.0, SubmitEvent::Saved { result: Ok(()) }, r3),
    ensures
        r1.1 matches SubmitAction::CreateRecord { id, owner_id: o } && o == owner_id
            && is_uuid_v4_text(id@) && (r2.1 matches SubmitAction::SaveFile { path, data }
            && path@ == upload_path_of(saved_file_name(id@, content.extension@)) && data
            == content.file && (r3.1 matches SubmitAction::Launch { record: rec, job, response }
            && rec == record && response.id@ == id@ && (job.0 matches JobState::AwaitOutput {
            id: job_id,
            delete_file: Some(d),
        } && job_id@ == id@ && d@ == path@) && (job.1 matches JobAction::RunCommand { command }
            && command@ == upload_command_text(kind, id@, content, path@)))),
{
    if let SubmitState::AwaitRecord { id, .. } = r1.0 {
        if let SubmitState::AwaitSave { id: i, upload_path, .. } = r2.0 {
            assert(i == id);
        }
    }
}

/// Where fetching a result stands.
#[derive(Debug)]
pub enum FetchState {
    /// Waiting for the job's record.
    AwaitRecord,
    /// Waiting for the result file.
    AwaitFile,
    /// The request has been answered.
    Finished,
}

/// What the outside world reports back.
#[derive(Debug)]
pub enum FetchEvent {
    /// The job's record, none for an unknown id, or why it could not be read.
    Found { record: Result<Option<ResultRecord>, String> },
    /// The result file, or why it could not be read.
    FileRead { data: Result<Vec<u8>, String> },
}

/// What is to be done next.
#[derive(Debug)]
pub enum FetchAction {
    /// Look up the job with this id.
    FindRecord { id: String },
    /// Read the file at `path`.
    ReadFile { path: String },
    /// Answer the request.
    Respond { result: Result<Vec<u8>, HttpError> },
}

/// The events that each state waits for.
pub open spec fn fetch_event_expected(state: FetchState, event: FetchEvent) -> bool {
    match (state, event) {
        (FetchState::AwaitRecord, FetchEvent::Found { .. }) => true,
        (FetchState::AwaitFile, FetchEvent::FileRead { .. }) => true,
        _ => false,
    }
}

/// One step of fetching a result.
pub open spec fn fetch_transition(state: FetchState, event: FetchEvent, r: (FetchState, FetchAction)) -> bool {
    let respond = |e: HttpError| (FetchState::Finished, FetchAction::Respond { result: Err(e) });
    match event {
        FetchEvent::Found { record } => match record {
            Err(e) => r == respond(HttpError::Other(e)),
            Ok(None) => r.0 == FetchState::Finished && (r.1 matches FetchAction::Respond {
                result: Err(HttpError::NotFound(m)),
            } && m@ == "Result not found"@),
            Ok(Some(rec)) => match rec.status {
                ResultStatus::Running => r == respond(HttpError::Conflict),
                ResultStatus::Fail => r == respond(HttpError::ExpectationFailed),
                ResultStatus::Complete => r.0 == FetchState::AwaitFile && (
                r.1 matches FetchAction::ReadFile { path } && path@ == result_path_of(rec.id@)),
            },
        },
        FetchEvent::FileRead { data } => match data {
            Err(e) => r == respond(HttpError::Other(e)),
            Ok(d) => r == (FetchState::Finished, FetchAction::Respond { result: Ok(d) }),
        },
    }
}

impl FetchState {
    /// Fetching the result of job `id` begins by looking up its record.
    pub fn start(id: String) -> (r: (FetchState, FetchAction))
        ensures
            r == (FetchState::AwaitRecord, FetchAction::FindRecord { id }),
    {
        (FetchState::AwaitRecord, FetchAction::FindRecord { id })
    }

    /// Advances the fetching of a result by one step.
    pub fn step(self, event: FetchEvent) -> (r: (FetchState, FetchAction))
        requires
            fetch_event_expected(self, event),
        ensures
            fetch_transition(self, event, r),
    {
        match event {
            FetchEvent::Found { record } => match record {
                Err(e) => (FetchState::Finished, FetchAction::Respond {
                    result: Err(HttpError::Other(e)),
                }),
                Ok(None) => (FetchState::Finished, FetchAction::Respond {
                    result: Err(HttpError::NotFound("Result not found".to_owned())),
                }),
                Ok(Some(rec)) => match rec.status {
                    ResultStatus::Running => (FetchState::Finished, FetchAction::Respond {
                        result: Err(HttpError::Conflict),
                    }),
                    ResultStatus::Fail => (FetchState::Finished, FetchAction::Respond {
                        result: Err(HttpError::ExpectationFailed),
                    }),
                    ResultStatus::Complete => (
                        FetchState::AwaitFile,
                        FetchAction::ReadFile { path: result_file_path(rec.id.as_str()) },
                    ),
                },
            },
            FetchEvent::FileRead { data } => match data {
                Err(e) => (FetchState::Finished, FetchAction::Respond {
                    result: Err(HttpError::Other(e)),
                }),
                Ok(d) => (FetchState::Finished, FetchAction::Respond { result: Ok(d) }),
            },
        }
    }
}

/// A result is handed out only for a complete job, read from the file
/// named after it under the results directory; a running job is answered
/// with 409, a failed one with 417 and an unknown id with 404.
pub proof fn lemma_result_only_when_complete(record: Option<ResultRecord>, r: (FetchState, FetchAction))
    requires
        fetch_transition(FetchState::AwaitRecord, FetchEvent::Found { record: Ok(record) }, r),
    ensures
        r.1 is ReadFile <==> (record matches Some(rec) && rec.status == ResultStatus::Complete),
        record matches Some(rec) && rec.status == ResultStatus::Running ==> (r.1 matches FetchAction::Respond { result: Err(e) } && crate::error::error_status(e) == 409),
        record matches Some(rec) && rec.status == ResultStatus::Fail ==> (r.1 matches FetchAction::Respond { result: Err(e) } && crate::error::error_status(e) == 417),
        record is None ==> (r.1 matches FetchAction::Respond { result: Err(e) } && crate::error::error_status(e) == 404),
{
}


/// What a job keeps as its output is what fetching its result reads: the
/// file a command job copies its output to, or a translation job writes
/// the service's answer to, is the file read when the result of a
/// complete job with the same id is fetched, and the bytes read are
/// handed out unchanged.
pub proof fn lemma_fetch_reads_job_output(
    state: JobState,
    event: JobEvent,
    job_r: (JobState, JobAction),
    rec: ResultRecord,
    data: Vec<u8>,
    f1: (FetchState, FetchAction),
    f2: (FetchState, FetchAction),
)
    requires
        job_transition(state, event, job_r),
        (state matches JobState::AwaitOutput { id, .. } && id@ == rec.id@) || (
        state matches JobState::AwaitBody { id } && id@ == rec.id@),
        job_r.1 is CopyFile || job_r.1 is WriteFile,
        rec.status == ResultStatus::Complete,
        fetch_transition(FetchState::AwaitRecord, FetchEvent::Found { record: Ok(Some(rec)) }, f1),
        fetch_transition(f1.0, FetchEvent::FileRead { data: Ok(data) }, f2),
    ensures
        job_r.1 matches JobAction::CopyFile { to, .. } ==> (f1.1 matches FetchAction::ReadFile {
            path,
        } && path@ == to@),
        job_r.1 matches JobAction::WriteFile { path: written, .. } ==> (
        f1.1 matches FetchAction::ReadFile { path } && path@ == written@),
        f2 == (FetchState::Finished, FetchAction::Respond { result: Ok(data) }),
{
    lemma_output_kept_under_job_id(state, event, job_r);
}

} // verus!
