//! The first version of the API: each request runs its job to the end and
//! answers with the result file.

use vstd::prelude::*;
use crate::command::{
    align_upload_command, align_upload_command_text, app_upload_command, app_upload_command_text,
    command_output_text, read_command_output, rec_upload_command, rec_upload_command_text,
    rec_youtube_command, rec_youtube_command_text,
};
use crate::error::HttpError;
use crate::ids::{is_uuid_v4_text, new_job_id};
use crate::paths::{grandparent, grandparent_of, path_ends_with, path_ends_with_of, path_parent, path_parent_of};
use crate::text::{first_word, first_word_of};
use crate::upload::{upload_file_path, upload_path_of, MultipartContent};

verus! {

/// A recognition request on a YouTube video.
#[derive(Debug)]
pub struct RecYoutubeRequest {
    pub asr_kind: Option<String>,
    pub output_type: Option<String>,
    pub vid: String,
}

/// The jobs that start from an uploaded file.
#[derive(Debug, Clone, Copy, PartialEq, Eq, Structural)]
pub enum UploadKind {
    /// Speech recognition with the form's model, format and options.
    Recognition,
    /// Alignment with the form's model.
    Alignment,
    /// Recognition for the mobile app, with a fixed model.
    App,
}

/// The name an upload is saved under: the job id and the file's extension.
pub open spec fn saved_file_name(id: Seq<char>, extension: Seq<char>) -> Seq<char> {
    id + "."@ + extension
}

/// The path an upload for job `id` with this extension is saved under.
pub fn saved_upload_path(id: &str, extension: &str) -> (p: String)
    ensures
        p@ == upload_path_of(saved_file_name(id@, extension@)),
{
    let mut name = String::new();
    name.append(id);
    name.append(".");
    name.append(extension);
    assert(Seq::<char>::empty() + id@ =~= id@);
    upload_file_path(name.as_str())
}

/// The command of an upload job of the given kind, on the file saved at
/// `path`.
pub open spec fn upload_command_text(
    kind: UploadKind,
    id: Seq<char>,
    content: MultipartContent,
    path: Seq<char>,
) -> Seq<char> {
    match kind {
        UploadKind::Recognition => rec_upload_command_text(
            id,
            content.asr_kind@,
            content.output_type,
            path,
            content.lmwt,
            content.min_word_gap@,
        ),
        UploadKind::Alignment => align_upload_command_text(id, content.asr_kind@, path),
        UploadKind::App => app_upload_command_text(path),
    }
}

/// The command of an upload job of the given kind.
pub fn upload_command(kind: UploadKind, id: &str, content: &MultipartContent, path: &str) -> (r: String)
    ensures
        r@ == upload_command_text(kind, id@, *content, path@),
{
    match kind {
        UploadKind::Recognition => rec_upload_command(
            id,
            content.asr_kind.as_str(),
            &content.output_type,
            path,
            content.lmwt,
            content.min_word_gap.as_str(),
        ),
        UploadKind::Alignment => align_upload_command(id, content.asr_kind.as_str(), path),
        UploadKind::App => app_upload_command(path),
    }
}

/// The directory removed once the result of a YouTube job has been read:
/// the parent of the result's parent, or one level higher when that
/// directory is named `decode`.
pub open spec fn youtube_cleanup_dir(result_path: Seq<char>) -> Option<Seq<char>> {
    match grandparent_of(result_path) {
        None => None,
        Some(g) => if path_ends_with_of(g, "decode"@) {
            path_parent_of(g)
        } else {
            Some(g)
        },
    }
}

/// The directory removed once the result of a YouTube job has been read.
pub fn youtube_cleanup(result_path: &str) -> (r: Option<String>)
    ensures
        r matches Some(d) ==> youtube_cleanup_dir(result_path@) == Some(d@),
        r is None ==> youtube_cleanup_dir(result_path@) is None,
{
    match grandparent(result_path) {
        None => None,
        Some(g) => if path_ends_with(g.as_str(), "decode") {
            path_parent(g.as_str())
        } else {
            Some(g)
        },
    }
}

/// Where a request stands.
#[derive(Debug)]
pub enum V1State {
    /// Waiting for the upload form to be read.
    AwaitForm { kind: UploadKind },
    /// Waiting for the upload to be saved at `upload_path`.
    AwaitSave { id: String, command: String, upload_path: String },
    /// Waiting for the job's command to finish; a YouTube job has no upload.
    AwaitCommand { id: String, upload_path: Option<String> },
    /// Waiting for the result file to be read.
    AwaitResult { upload_path: Option<String>, result_path: String },
    /// Waiting for the upload to be removed.
    AwaitUploadRemoval { data: Vec<u8>, result_path: String },
    /// Waiting for the job's working directory to be removed.
    AwaitDirRemoval { data: Vec<u8> },
    /// The request has been answered.
    Finished,
}

/// What the outside world reports back.
#[derive(Debug)]
pub enum V1Event {
    /// The upload form, or why it could not be read.
    Form { content: Result<MultipartContent, String> },
    /// Whether the upload was saved.
    Saved { result: Result<(), String> },
    /// What the command wrote to its standard output and error, or why it
    /// could not run.
    CommandRan { output: Result<(Vec<u8>, Vec<u8>), String> },
    /// The result file, or why it could not be read.
    ResultRead { data: Result<Vec<u8>, String> },
    /// Whether a file or directory was removed.
    Removed { result: Result<(), String> },
}

/// What is to be done next.
#[derive(Debug)]
pub enum V1Action {
    /// Read the upload form.
    ParseForm,
    /// Write `data` to a new file at `path`.
    SaveFile { path: String, data: Vec<u8> },
    /// Run `command` with `bash -c` and collect its output.
    RunCommand { command: String },
    /// Read the file at `path`.
    ReadFile { path: String },
    /// Remove the file at `path`.
    RemoveFile { path: String },
    /// Remove the directory at `path` with all it holds.
    RemoveDir { path: String },
    /// Answer the request.
    Respond { result: Result<Vec<u8>, HttpError> },
    /// The result path has too few parents: the request stops here with a
    /// panic.
    Abort,
}

/// The answer with error `e`.
pub open spec fn responds_error(r: (V1State, V1Action), e: HttpError) -> bool {
    r == (V1State::Finished, V1Action::Respond { result: Err(e) })
}

/// The events that each state waits for.
pub open spec fn v1_event_expected(state: V1State, event: V1Event) -> bool {
    match (state, event) {
        (V1State::AwaitForm { .. }, V1Event::Form { .. }) => true,
        (V1State::AwaitSave { .. }, V1Event::Saved { .. }) => true,
        (V1State::AwaitCommand { .. }, V1Event::CommandRan { .. }) => true,
        (V1State::AwaitResult { .. }, V1Event::ResultRead { .. }) => true,
        (V1State::AwaitUploadRemoval { .. }, V1Event::Removed { .. }) => true,
        (V1State::AwaitDirRemoval { .. }, V1Event::Removed { .. }) => true,
        _ => false,
    }
}

/// Removing the job's directory `dir`, or stopping when there is none,
/// with the result `data` to answer with afterwards.
pub open spec fn removes_dir(r: (V1State, V1Action), dir: Option<Seq<char>>, data: Vec<u8>) -> bool {
    match dir {
        None => r == (V1State::Finished, V1Action::Abort),
        Some(d) => r.0 == (V1State::AwaitDirRemoval { data }) && (r.1 matches V1Action::RemoveDir {
            path,
        } && path@ == d),
    }
}

/// One step of a request.
pub open spec fn v1_transition(state: V1State, event: V1Event, r: (V1State, V1Action)) -> bool {
    match (state, event) {
        (V1State::AwaitForm { kind }, V1Event::Form { content }) => match content {
            Err(e) => responds_error(r, HttpError::MultipartError(e)),
            Ok(c) => r.0 matches V1State::AwaitSave { id, command, upload_path } && is_uuid_v4_text(
                id@,
            ) && upload_path@ == upload_path_of(saved_file_name(id@, c.extension@)) && command@
                == upload_command_text(kind, id@, c, upload_path@) && (r.1 matches V1Action::SaveFile {
                path,
                data,
            } && path@ == upload_path@ && data == c.file),
        },
        (V1State::AwaitSave { id, command, upload_path }, V1Event::Saved { result }) => match result {
            Err(e) => responds_error(r, HttpError::Other(e)),
            Ok(_) => r == (V1State::AwaitCommand { id, upload_path: Some(upload_path) }, V1Action::RunCommand {
                command,
            }),
        },
        (V1State::AwaitCommand { id, upload_path }, V1Event::CommandRan { output }) => match output {
            Err(e) => responds_error(r, HttpError::Other(e)),
            Ok((stdout, stderr)) => match command_output_text(stdout@, stderr@) {
                Err(m) => r.0 == V1State::Finished && (r.1 matches V1Action::Respond {
                    result: Err(HttpError::Other(e)),
                } && e@ == m),
                Ok(out) => {
                    let p = if upload_path is Some {
                        out
                    } else {
                        first_word(out)
                    };
                    r.0 matches V1State::AwaitResult { upload_path: u, result_path } && u
                        == upload_path && result_path@ == p && (r.1 matches V1Action::ReadFile {
                        path,
                    } && path@ == p)
                },
            },
        },
        (V1State::AwaitResult { upload_path, result_path }, V1Event::ResultRead { data }) => match data {
            Err(e) => responds_error(r, HttpError::NotFound(e)),
            Ok(d) => match upload_path {
                Some(u) => r == (V1State::AwaitUploadRemoval { data: d, result_path }, V1Action::RemoveFile {
                    path: u,
                }),
                None => removes_dir(r, youtube_cleanup_dir(result_path@), d),
            },
        },
        (V1State::AwaitUploadRemoval { data, result_path }, V1Event::Removed { result }) => match result {
            Err(e) => responds_error(r, HttpError::IOError(e)),
            Ok(_) => removes_dir(r, grandparent_of(result_path@), data),
        },
        (V1State::AwaitDirRemoval { data }, V1Event::Removed { result }) => match result {
            Err(e) => responds_error(r, HttpError::IOError(e)),
            Ok(_) => r == (V1State::Finished, V1Action::Respond { result: Ok(data) }),
        },
        _ => false,
    }
}

/// The answer with error `e`.
fn respond_error(e: HttpError) -> (r: (V1State, V1Action))
    ensures
        responds_error(r, e),
{
    (V1State::Finished, V1Action::Respond { result: Err(e) })
}

/// Removes the job's directory, or stops when there is none.
fn remove_dir(dir: Option<String>, data: Vec<u8>) -> (r: (V1State, V1Action))
    ensures
        removes_dir(r, match dir { Some(d) => Some(d@), None => None }, data),
{
    match dir {
        None => (V1State::Finished, V1Action::Abort),
        Some(d) => (V1State::AwaitDirRemoval { data }, V1Action::RemoveDir { path: d }),
    }
}

impl V1State {
    /// A request with an uploaded file begins by reading the form.
    pub fn start_upload(kind: UploadKind) -> (r: (V1State, V1Action))
        ensures
            r == (V1State::AwaitForm { kind }, V1Action::ParseForm),
    {
        (V1State::AwaitForm { kind }, V1Action::ParseForm)
    }

    /// A request on a YouTube video begins by running its job under a
    /// fresh id, with the language model weight `10`.
    pub fn start_youtube(request: RecYoutubeRequest) -> (r: (V1State, V1Action))
        ensures
            r.0 matches V1State::AwaitCommand { id, upload_path } && upload_path is None
                && is_uuid_v4_text(id@) && (r.1 matches V1Action::RunCommand { command }
                && command@ == rec_youtube_command_text(
                id@,
                request.asr_kind,
                request.output_type,
                request.vid@,
                None,
            )),
    {
        let id = new_job_id();
        let command = rec_youtube_command(
            id.as_str(),
            request.asr_kind,
            request.output_type,
            request.vid.as_str(),
            None,
        );
        (V1State::AwaitCommand { id, upload_path: None }, V1Action::RunCommand { command })
    }

    /// Advances a request by one step.
    pub fn step(self, event: V1Event) -> (r: (V1State, V1Action))
        requires
            v1_event_expected(self, event),
        ensures
            v1_transition(self, event, r),
    {
        match self {
            V1State::AwaitForm { kind } => match event {
                V1Event::Form { content } => match content {
                    Err(e) => respond_error(HttpError::MultipartError(e)),
                    Ok(c) => {
                        let id = new_job_id();
                        let upload_path = saved_upload_path(id.as_str(), c.extension.as_str());
                        let command = upload_command(kind, id.as_str(), &c, upload_path.as_str());
                        let path = upload_path.clone();
                        (V1State::AwaitSave { id, command, upload_path }, V1Action::SaveFile {
                            path,
                            data: c.file,
                        })
                    },
                },
                _ => (V1State::Finished, V1Action::Abort),
            },
            V1State::AwaitSave { id, command, upload_path } => match event {
                V1Event::Saved { result } => match result {
                    Err(e) => respond_error(HttpError::Other(e)),
                    Ok(_) => (
                        V1State::AwaitCommand { id, upload_path: Some(upload_path) },
                        V1Action::RunCommand { command },
                    ),
                },
                _ => (V1State::Finished, V1Action::Abort),
            },
            V1State::AwaitCommand { id, upload_path } => match event {
                V1Event::CommandRan { output } => match output {
                    Err(e) => respond_error(HttpError::Other(e)),
                    Ok((stdout, stderr)) => match read_command_output(
                        stdout.as_slice(),
                        stderr.as_slice(),
                    ) {
                        Err(m) => respond_error(HttpError::Other(m)),
                        Ok(out) => {
                            let p = match &upload_path {
                                Some(_) => out,
                                None => first_word_of(out.as_str()),
                            };
                            let path = p.clone();
                            (
                                V1State::AwaitResult { upload_path, result_path: p },
                                V1Action::ReadFile { path },
                            )
                        },
                    },
                },
                _ => (V1State::Finished, V1Action::Abort),
            },
            V1State::AwaitResult { upload_path, result_path } => match event {
                V1Event::ResultRead { data } => match data {
                    Err(e) => respond_error(HttpError::NotFound(e)),
                    Ok(d) => match upload_path {
                        Some(u) => (
                            V1State::AwaitUploadRemoval { data: d, result_path },
                            V1Action::RemoveFile { path: u },
                        ),
                        None => remove_dir(youtube_cleanup(result_path.as_str()), d),
                    },
                },
                _ => (V1State::Finished, V1Action::Abort),
            },
            V1State::AwaitUploadRemoval { data, result_path } => match event {
                V1Event::Removed { result } => match result {
                    Err(e) => respond_error(HttpError::IOError(e)),
                    Ok(_) => remove_dir(grandparent(result_path.as_str()), data),
                },
                _ => (V1State::Finished, V1Action::Abort),
            },
            V1State::AwaitDirRemoval { data } => match event {
                V1Event::Removed { result } => match result {
                    Err(e) => respond_error(HttpError::IOError(e)),
                    Ok(_) => (V1State::Finished, V1Action::Respond { result: Ok(data) }),
                },
                _ => (V1State::Finished, V1Action::Abort),
            },
            V1State::Finished => (V1State::Finished, V1Action::Abort),
        }
    }
}

} // verus!
