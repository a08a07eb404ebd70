//! The background part of a recognition or translation job: it runs the
//! work, keeps the output under the results directory and records how the
//! job ended.

use vstd::prelude::*;
use crate::command::{command_output_text, read_command_output, result_file_path, result_path_of};
use crate::records::ResultStatus;
use crate::text::{first_word, first_word_of};

verus! {

/// Where translation jobs send their text.
pub const TRANSLATION_URL: &'static str = "http://0.0.0.0:8000/api/v1/translation";

/// What a finished command left: whether it exited successfully, and what
/// it wrote to its standard output and error.
#[derive(Debug)]
pub struct CommandOutput {
    pub success: bool,
    pub stdout: Vec<u8>,
    pub stderr: Vec<u8>,
}

/// Where a background job stands.
#[derive(Debug)]
pub enum JobState {
    /// Waiting for the job's command to finish.
    AwaitOutput { id: String, delete_file: Option<String> },
    /// Waiting for the command's output file to be copied to `save_path`.
    AwaitCopy { save_path: String, delete_file: Option<String> },
    /// Waiting for the translation service to answer.
    AwaitResponse { id: String },
    /// Waiting for the body of its answer.
    AwaitBody { id: String },
    /// Waiting for the answer to be written to `save_path`.
    AwaitWrite { save_path: String },
    /// Waiting for the upload to be removed.
    AwaitRemoval { save_path: String },
    /// Waiting for the result to be marked complete.
    AwaitComplete { save_path: String },
    /// Waiting for the path of the output to be recorded.
    AwaitFilePath,
    /// Waiting for the result to be marked failed.
    AwaitFailMark,
    /// The job is over.
    Finished,
}

/// What the outside world reports back.
#[derive(Debug)]
pub enum JobEvent {
    /// The command's output, or why it could not run.
    CommandRan { output: Result<CommandOutput, String> },
    /// Whether the output file was copied.
    Copied { result: Result<(), String> },
    /// The status code of the translation service's answer, or why the
    /// request failed.
    Responded { status: Result<u16, String> },
    /// The body of the answer, or why it could not be read.
    BodyRead { body: Result<Vec<u8>, String> },
    /// Whether the answer was written.
    Written { result: Result<(), String> },
    /// Whether the upload was removed.
    Removed { result: Result<(), String> },
    /// Whether the result's status was stored.
    StatusSet { result: Result<(), String> },
    /// Whether the result's file path was stored.
    FilePathSet { result: Result<(), String> },
}

/// What is to be done next.
#[derive(Debug)]
pub enum JobAction {
    /// Run `command` with `bash -c` and collect its status and output.
    RunCommand { command: String },
    /// Send the request body to the translation service.
    PostTranslation,
    /// Read the body of the translation service's answer.
    ReadBody,
    /// Copy the file at `from` to `to`.
    CopyFile { from: String, to: String },
    /// Write `data` to the file at `path`.
    WriteFile { path: String, data: Vec<u8> },
    /// Remove the file at `path`.
    RemoveFile { path: String },
    /// Store `status` as the job's status.
    MarkStatus { status: ResultStatus },
    /// Store `path` as the job's output file.
    RecordFilePath { path: String },
    /// The job is over.
    Finish,
    /// Marking the job failed failed too: the job stops with a panic.
    Abort,
}

/// The job failed: it is to be marked so.
pub open spec fn marks_failed(r: (JobState, JobAction)) -> bool {
    r == (JobState::AwaitFailMark, JobAction::MarkStatus { status: ResultStatus::Fail })
}

/// The output is in place at `save_path`: the job is to be marked complete.
pub open spec fn marks_complete(r: (JobState, JobAction), save_path: String) -> bool {
    r == (JobState::AwaitComplete { save_path }, JobAction::MarkStatus {
        status: ResultStatus::Complete,
    })
}

/// A success status code.
pub open spec fn is_success_status(code: u16) -> bool {
    200 <= code && code <= 299
}

/// The events that each state waits for.
pub open spec fn job_event_expected(state: JobState, event: JobEvent) -> bool {
    match (state, event) {
        (JobState::AwaitOutput { .. }, JobEvent::CommandRan { .. }) => true,
        (JobState::AwaitCopy { .. }, JobEvent::Copied { .. }) => true,
        (JobState::AwaitResponse { .. }, JobEvent::Responded { .. }) => true,
        (JobState::AwaitBody { .. }, JobEvent::BodyRead { .. }) => true,
        (JobState::AwaitWrite { .. }, JobEvent::Written { .. }) => true,
        (JobState::AwaitRemoval { .. }, JobEvent::Removed { .. }) => true,
        (JobState::AwaitComplete { .. }, JobEvent::StatusSet { .. }) => true,
        (JobState::AwaitFilePath, JobEvent::FilePathSet { .. }) => true,
        (JobState::AwaitFailMark, JobEvent::StatusSet { .. }) => true,
        _ => false,
    }
}

/// One step of a background job.
pub open spec fn job_transition(state: JobState, event: JobEvent, r: (JobState, JobAction)) -> bool {
    match (state, event) {
        (JobState::AwaitOutput { id, delete_file }, JobEvent::CommandRan { output }) => match output {
            Err(_) => marks_failed(r),
            Ok(o) => match command_output_text(o.stdout@, o.stderr@) {
                Err(_) => marks_failed(r),
                Ok(out) => if !o.success {
                    marks_failed(r)
                } else {
                    r.0 matches JobState::AwaitCopy { save_path, delete_file: d } && d
                        == delete_file && save_path@ == result_path_of(id@) && (
                    r.1 matches JobAction::CopyFile { from, to } && from@ == first_word(out)
                        && to == save_path)
                },
            },
        },
        (JobState::AwaitCopy { save_path, delete_file }, JobEvent::Copied { result }) => match result {
            Err(_) => marks_failed(r),
            Ok(_) => match delete_file {
                Some(p) => r == (JobState::AwaitRemoval { save_path }, JobAction::RemoveFile {
                    path: p,
                }),
                None => marks_complete(r, save_path),
            },
        },
        (JobState::AwaitRemoval { save_path }, JobEvent::Removed { result }) => match result {
            Err(_) => marks_failed(r),
            Ok(_) => marks_complete(r, save_path),
        },
        (JobState::AwaitResponse { id }, JobEvent::Responded { status }) => match status {
            Err(_) => marks_failed(r),
            Ok(code) => if is_success_status(code) {
                r == (JobState::AwaitBody { id }, JobAction::ReadBody)
            } else {
                marks_failed(r)
            },
        },
        (JobState::AwaitBody { id }, JobEvent::BodyRead { body }) => match body {
            Err(_) => marks_failed(r),
            Ok(b) => r.0 matches JobState::AwaitWrite { save_path } && save_path@ == result_path_of(
                id@,
            ) && r.1 == (JobAction::WriteFile { path: save_path, data: b }),
        },
        (JobState::AwaitWrite { save_path }, JobEvent::Written { result }) => match result {
            Err(_) => marks_failed(r),
            Ok(_) => marks_complete(r, save_path),
        },
        (JobState::AwaitComplete { save_path }, JobEvent::StatusSet { result }) => match result {
            Err(_) => marks_failed(r),
            Ok(_) => r == (JobState::AwaitFilePath, JobAction::RecordFilePath { path: save_path }),
        },
        (JobState::AwaitFilePath, JobEvent::FilePathSet { result }) => match result {
            Err(_) => marks_failed(r),
            Ok(_) => r == (JobState::Finished, JobAction::Finish),
        },
        (JobState::AwaitFailMark, JobEvent::StatusSet { result }) => match result {
            Err(_) => r == (JobState::Finished, JobAction::Abort),
            Ok(_) => r == (JobState::Finished, JobAction::Finish),
        },
        _ => false,
    }
}

/// Marks the job failed.
fn fail() -> (r: (JobState, JobAction))
    ensures
        marks_failed(r),
{
    (JobState::AwaitFailMark, JobAction::MarkStatus { status: ResultStatus::Fail })
}

/// Marks the job complete.
fn complete(save_path: String) -> (r: (JobState, JobAction))
    ensures
        marks_complete(r, save_path),
{
    (JobState::AwaitComplete { save_path }, JobAction::MarkStatus { status: ResultStatus::Complete })
}

impl JobState {
    /// A command job begins by running its command; `delete_file` is the
    /// upload to remove once the output is kept.
    pub fn start_command(id: String, command: String, delete_file: Option<String>) -> (r: (JobState, JobAction))
        ensures
            r == (JobState::AwaitOutput { id, delete_file }, JobAction::RunCommand { command }),
    {
        (JobState::AwaitOutput { id, delete_file }, JobAction::RunCommand { command })
    }

    /// A translation job begins by sending its text to the translation
    /// service.
    pub fn start_translation(id: String) -> (r: (JobState, JobAction))
        ensures
            r == (JobState::AwaitResponse { id }, JobAction::PostTranslation),
    {
        (JobState::AwaitResponse { id }, JobAction::PostTranslation)
    }

    /// Advances a background job by one step.
    pub fn step(self, event: JobEvent) -> (r: (JobState, JobAction))
        requires
            job_event_expected(self, event),
        ensures
            job_transition(self, event, r),
    {
        match self {
            JobState::AwaitOutput { id, delete_file } => match event {
                JobEvent::CommandRan { output } => match output {
                    Err(_) => fail(),
                    Ok(o) => match read_command_output(o.stdout.as_slice(), o.stderr.as_slice()) {
                        Err(_) => fail(),
                        Ok(out) => if !o.success {
                            fail()
                        } else {
                            let from = first_word_of(out.as_str());
                            let save_path = result_file_path(id.as_str());
                            let to = save_path.clone();
                            (JobState::AwaitCopy { save_path, delete_file }, JobAction::CopyFile {
                                from,
                                to,
                            })
                        },
                    },
                },
                _ => (JobState::Finished, JobAction::Abort),
            },
            JobState::AwaitCopy { save_path, delete_file } => match event {
                JobEvent::Copied { result } => match result {
                    Err(_) => fail(),
                    Ok(_) => match delete_file {
                        Some(p) => (JobState::AwaitRemoval { save_path }, JobAction::RemoveFile {
                            path: p,
                        }),
                        None => complete(save_path),
                    },
                },
                _ => (JobState::Finished, JobAction::Abort),
            },
            JobState::AwaitRemoval { save_path } => match event {
                JobEvent::Removed { result } => match result {
                    Err(_) => fail(),
                    Ok(_) => complete(save_path),
                },
                _ => (JobState::Finished, JobAction::Abort),
            },
            JobState::AwaitResponse { id } => match event {
                JobEvent::Responded { status } => match status {
                    Err(_) => fail(),
                    Ok(code) => if 200 <= code && code <= 299 {
                        (JobState::AwaitBody { id }, JobAction::ReadBody)
                    } else {
                        fail()
                    },
                },
                _ => (JobState::Finished, JobAction::Abort),
            },
            JobState::AwaitBody { id } => match event {
                JobEvent::BodyRead { body } => match body {
                    Err(_) => fail(),
                    Ok(b) => {
                        let save_path = result_file_path(id.as_str());
                        let path = save_path.clone();
                        (JobState::AwaitWrite { save_path }, JobAction::WriteFile { path, data: b })
                    },
                },
                _ => (JobState::Finished, JobAction::Abort),
            },
            JobState::AwaitWrite { save_path } => match event {
                JobEvent::Written { result } => match result {
                    Err(_) => fail(),
                    Ok(_) => complete(save_path),
                },
                _ => (JobState::Finished, JobAction::Abort),
            },
            JobState::AwaitComplete { save_path } => match event {
                JobEvent::StatusSet { result } => match result {
                    Err(_) => fail(),
                    Ok(_) => (JobState::AwaitFilePath, JobAction::RecordFilePath { path: save_path }),
                },
                _ => (JobState::Finished, JobAction::Abort),
            },
            JobState::AwaitFilePath => match event {
                JobEvent::FilePathSet { result } => match result {
                    Err(_) => fail(),
                    Ok(_) => (JobState::Finished, JobAction::Finish),
                },
                _ => (JobState::Finished, JobAction::Abort),
            },
            JobState::AwaitFailMark => match event {
                JobEvent::StatusSet { result } => match result {
                    Err(_) => (JobState::Finished, JobAction::Abort),
                    Ok(_) => (JobState::Finished, JobAction::Finish),
                },
                _ => (JobState::Finished, JobAction::Abort),
            },
            JobState::Finished => (JobState::Finished, JobAction::Abort),
        }
    }
}

/// An event that reports a failure.
pub open spec fn reports_failure(event: JobEvent) -> bool {
    match event {
        JobEvent::CommandRan { output } => output is Err,
        JobEvent::Copied { result } => result is Err,
        JobEvent::Responded { status } => status is Err,
        JobEvent::BodyRead { body } => body is Err,
        JobEvent::Written { result } => result is Err,
        JobEvent::Removed { result } => result is Err,
        JobEvent::StatusSet { result } => result is Err,
        JobEvent::FilePathSet { result } => result is Err,
    }
}

/// Any failure along the way, until the job is being marked failed, marks
/// the job failed; a failure to mark it failed stops the job.
pub proof fn lemma_failure_marks_failed(state: JobState, event: JobEvent, r: (JobState, JobAction))
    requires
        job_transition(state, event, r),
        reports_failure(event),
    ensures
        state != JobState::AwaitFailMark ==> marks_failed(r),
        state == JobState::AwaitFailMark ==> r == (JobState::Finished, JobAction::Abort),
{
}

/// A job is marked complete only right after its output has been copied or
/// written under the results directory (and the upload, if any, removed).
pub proof fn lemma_complete_only_after_output_kept(
    state: JobState,
    event: JobEvent,
    r: (JobState, JobAction),
)
    requires
        job_transition(state, event, r),
        r.1 == (JobAction::MarkStatus { status: ResultStatus::Complete }),
    ensures
        ({
            ||| (event matches JobEvent::Copied { result } && result is Ok && (state matches JobState::AwaitCopy { delete_file, .. } && delete_file is None))
            ||| (event matches JobEvent::Removed { result } && result is Ok)
            ||| (event matches JobEvent::Written { result } && result is Ok)
        }),
{
}

/// The output of a job is always kept under the results directory, in the
/// file named after the job.
pub proof fn lemma_output_kept_under_job_id(state: JobState, event: JobEvent, r: (JobState, JobAction))
    requires
        job_transition(state, event, r),
        state matches JobState::AwaitOutput { .. } || state matches JobState::AwaitBody { .. },
        r.1 matches JobAction::CopyFile { .. } || r.1 matches JobAction::WriteFile { .. },
    ensures
        state matches JobState::AwaitOutput { id, .. } ==> (r.1 matches JobAction::CopyFile { to, .. } && to@ == result_path_of(id@)),
        state matches JobState::AwaitBody { id } ==> (r.1 matches JobAction::WriteFile { path, .. } && path@ == result_path_of(id@)),
{
}

/// A command job whose steps all succeed copies the command's output file
/// (the first word of what it printed) under the results directory,
/// removes the upload, marks the job complete, records where its output
/// is, and ends.
pub proof fn lemma_command_job_success(
    id: String,
    upload: String,
    out: CommandOutput,
    r1: (JobState, JobAction),
    r2: (JobState, JobAction),
    r3: (JobState, JobAction),
    r4: (JobState, JobAction),
    r5: (JobState, JobAction),
)
    requires
        out.success,
        command_output_text(out.stdout@, out.stderr@) is Ok,
        job_transition(
            JobState::AwaitOutput { id, delete_file: Some(upload) },
            JobEvent::CommandRan { output: Ok(out) },
            r1,
        ),
        job_transition(r1.0, JobEvent::Copied { result: Ok(()) }, r2),
        job_transition(r2.0, JobEvent::Removed { result: Ok(()) }, r3),
        job_transition(r3.0, JobEvent::StatusSet { result: Ok(()) }, r4),
        job_transition(r4.0, JobEvent::FilePathSet { result: Ok(()) }, r5),
    ensures
        r1.1 matches JobAction::CopyFile { from, to } && from@ == first_word(
            command_output_text(out.stdout@, out.stderr@)->Ok_0,
        ) && to@ == result_path_of(id@),
        r2.1 == (JobAction::RemoveFile { path: upload }),
        r3.1 == (JobAction::MarkStatus { status: ResultStatus::Complete }),
        r4.1 matches JobAction::RecordFilePath { path } && path@ == result_path_of(id@),
        r5 == (JobState::Finished, JobAction::Finish),
{
}

/// A translation job whose steps all succeed writes the service's answer
/// under the results directory, marks the job complete, records where its
/// output is, and ends; an answer with a status outside 200..=299 marks it
/// failed.
pub proof fn lemma_translation_job(
    id: String,
    code: u16,
    body: Vec<u8>,
    r1: (JobState, JobAction),
    r2: (JobState, JobAction),
    r3: (JobState, JobAction),
    r4: (JobState, JobAction),
    r5: (JobState, JobAction),
)
    requires
        job_transition(JobState::AwaitResponse { id }, JobEvent::Responded { status: Ok(code) }, r1),
        is_success_status(code) ==> job_transition(r1.0, JobEvent::BodyRead { body: Ok(body) }, r2),
        is_success_status(code) ==> job_transition(r2.0, JobEvent::Written { result: Ok(()) }, r3),
        is_success_status(code) ==> job_transition(r3.0, JobEvent::StatusSet { result: Ok(()) }, r4),
        is_success_status(code) ==> job_transition(r4.0, JobEvent::FilePathSet { result: Ok(()) }, r5),
    ensures
        !is_success_status(code) ==> marks_failed(r1),
        is_success_status(code) ==> {
            &&& r1.1 == JobAction::ReadBody
            &&& r2.1 matches JobAction::WriteFile { path, data } && path@ == result_path_of(id@) && data == body
            &&& r3.1 == (JobAction::MarkStatus { status: ResultStatus::Complete })
            &&& r4.1 matches JobAction::RecordFilePath { path } && path@ == result_path_of(id@)
            &&& r5 == (JobState::Finished, JobAction::Finish)
        },
{
}

} // verus!
