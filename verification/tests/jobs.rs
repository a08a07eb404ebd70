use api_server::command::{
    align_upload_command, app_upload_command, read_command_output, rec_upload_command,
    rec_youtube_command, result_file_path, RESULT_PATH, SCRIPT_PREFIX,
};
use api_server::error::HttpError;
use api_server::job::{CommandOutput, JobAction, JobEvent, JobState};
use api_server::output_type::OutputType;
use api_server::records::{ResultRecord, ResultStatus};
use api_server::upload::{
    upload_file_path, FieldHeader, MultipartAction, MultipartContent, MultipartEvent,
    MultipartState, UPLOAD_PATH,
};
use api_server::v1::{saved_upload_path, youtube_cleanup, RecYoutubeRequest, UploadKind, V1Action, V1Event, V1State};
use api_server::v2::{
    FetchAction, FetchEvent, FetchState, RecYoutubeRequest as RecYoutubeRequestV2, SubmitAction,
    SubmitEvent, SubmitState,
};

fn is_uuid_v4(s: &str) -> bool {
    let b = s.as_bytes();
    b.len() == 36
        && b.iter().enumerate().all(|(i, c)| match i {
            8 | 13 | 18 | 23 => *c == b'-',
            _ => c.is_ascii_digit() || (b'a'..=b'f').contains(c),
        })
        && b[14] == b'4'
        && matches!(b[19], b'8' | b'9' | b'a' | b'b')
}

fn field(name: Option<&str>, file_name: Option<&str>) -> MultipartEvent {
    MultipartEvent::Field {
        next: Ok(Some(FieldHeader {
            name: name.map(|s| s.to_string()),
            file_name: file_name.map(|s| s.to_string()),
        })),
    }
}

fn text(t: &str) -> MultipartEvent {
    MultipartEvent::Text { text: Ok(t.to_string()) }
}

fn done_error(a: MultipartAction) -> String {
    match a {
        MultipartAction::Done { result: Err(e) } => e,
        other => panic!("unexpected {:?}", other),
    }
}

#[test]
fn form_defaults() {
    let c = MultipartContent::default();
    assert_eq!(c.asr_kind, "sa_me_2.0");
    assert!(c.file.is_empty());
    assert_eq!(c.extension, "");
    assert_eq!(c.output_type, OutputType::Srt);
    assert_eq!(c.lmwt, 10);
    assert_eq!(c.min_word_gap, "0.3");
}

#[test]
fn form_reads_all_fields() {
    let (s, a) = MultipartState::start();
    assert!(matches!(a, MultipartAction::NextField));
    let (s, a) = s.step(field(Some("source"), Some("talk.final.wav")));
    assert!(matches!(a, MultipartAction::ReadBytes));
    let (s, _) = s.step(MultipartEvent::Bytes { data: Ok(vec![1, 2, 3]) });
    let (s, a) = s.step(field(Some("asr_kind"), None));
    assert!(matches!(a, MultipartAction::ReadText));
    let (s, _) = s.step(text("tw_1.0"));
    let (s, _) = s.step(field(Some("output_type"), None));
    let (s, _) = s.step(text("json"));
    let (s, _) = s.step(field(Some("lmwt"), None));
    let (s, _) = s.step(text("+12"));
    let (s, _) = s.step(field(Some("min_word_gap"), None));
    let (s, a) = s.step(text("0.50"));
    match &a {
        MultipartAction::ParseMinWordGap { text } => assert_eq!(text, "0.50"),
        other => panic!("unexpected {:?}", other),
    }
    let (s, _) = s.step(MultipartEvent::MinWordGap { value: Some("0.5".to_string()) });
    let (s, a) = s.step(MultipartEvent::Field { next: Ok(None) });
    assert!(matches!(s, MultipartState::Finished));
    match a {
        MultipartAction::Done { result: Ok(c) } => {
            assert_eq!(c.file, vec![1, 2, 3]);
            assert_eq!(c.extension, "wav");
            assert_eq!(c.asr_kind, "tw_1.0");
            assert_eq!(c.output_type, OutputType::Json);
            assert_eq!(c.lmwt, 12);
            assert_eq!(c.min_word_gap, "0.5");
        }
        other => panic!("unexpected {:?}", other),
    }
}

#[test]
fn form_errors() {
    let (s, _) = MultipartState::start();
    let (_, a) = s.step(field(Some("colour"), None));
    assert_eq!(done_error(a), "invalid parameter colour");
    let (s, _) = MultipartState::start();
    let (_, a) = s.step(field(None, None));
    assert_eq!(done_error(a), "invalid parameter not str");
    let (s, _) = MultipartState::start();
    let (s, _) = s.step(field(Some("lmwt"), None));
    let (_, a) = s.step(text("ten"));
    assert_eq!(done_error(a), "Invalid lmwt");
    let (s, _) = MultipartState::start();
    let (s, _) = s.step(field(Some("lmwt"), None));
    let (_, a) = s.step(text("99999999999999999999"));
    assert_eq!(done_error(a), "Invalid lmwt");
    let (s, _) = MultipartState::start();
    let (s, _) = s.step(field(Some("output_type"), None));
    let (_, a) = s.step(text("xml"));
    assert_eq!(done_error(a), "Invalid output type");
    let (s, _) = MultipartState::start();
    let (s, _) = s.step(field(Some("min_word_gap"), None));
    let (s, _) = s.step(text("wide"));
    let (_, a) = s.step(MultipartEvent::MinWordGap { value: None });
    assert_eq!(done_error(a), "Invalid min_word_gap");
    let (s, _) = MultipartState::start();
    let (_, a) = s.step(MultipartEvent::Field { next: Err("stream ended".to_string()) });
    assert_eq!(done_error(a), "stream ended");
    let (s, _) = MultipartState::start();
    let (s, _) = s.step(field(Some("asr_kind"), None));
    let (_, a) = s.step(MultipartEvent::Text { text: Err("bad text".to_string()) });
    assert_eq!(done_error(a), "bad text");
}

#[test]
fn form_source_without_extension_aborts() {
    for name in [None, Some("audio"), Some(".bashrc"), Some("dir/")] {
        let (s, _) = MultipartState::start();
        let (s, a) = s.step(field(Some("source"), name));
        assert!(matches!(s, MultipartState::Finished));
        assert!(matches!(a, MultipartAction::Abort), "{:?}", name);
    }
}

#[test]
fn upload_paths() {
    assert_eq!(UPLOAD_PATH, "/mnt/md0/api-server/.temp");
    assert_eq!(upload_file_path("a.wav"), "/mnt/md0/api-server/.temp/a.wav");
    assert_eq!(saved_upload_path("abc", "mp3"), "/mnt/md0/api-server/.temp/abc.mp3");
    assert_eq!(RESULT_PATH, "/mnt/md0/api-server/.result");
    assert_eq!(result_file_path("abc"), "/mnt/md0/api-server/.result/abc");
}

#[test]
fn command_lines() {
    let p = SCRIPT_PREFIX;
    assert_eq!(
        rec_upload_command("id1", "sa_me_2.0", &OutputType::Trs, "/f.wav", -3, "0.3"),
        format!("{}/run_rec_upload.sh id1 sa_me_2.0 trs /f.wav -3 0.3", p)
    );
    assert_eq!(
        align_upload_command("id1", "k", "/f.wav"),
        format!("{}/run_align_upload.sh id1 k /f.wav", p)
    );
    assert_eq!(
        app_upload_command("/f.wav"),
        format!("{}/run_app_upload.sh sa_me_2.0+vgh /f.wav", p)
    );
    assert_eq!(
        rec_youtube_command("id1", None, None, "vid9", None),
        format!("{}/run_rec_youtube.sh id1 sa_me_2.0 srt vid9 10", p)
    );
    assert_eq!(
        rec_youtube_command("id1", Some("k".to_string()), Some("json".to_string()), "v", Some("7".to_string())),
        format!("{}/run_rec_youtube.sh id1 k json v 7", p)
    );
}

#[test]
fn command_output_reading() {
    assert_eq!(read_command_output(b" \t/tmp/out.srt extra\n", b"warn"), Ok("/tmp/out.srt extra".to_string()));
    assert_eq!(read_command_output("\u{3000}x\u{a0}".as_bytes(), b""), Ok("x".to_string()));
    let bad = [0xffu8, b'a'];
    let expected = std::str::from_utf8(&bad).unwrap_err().to_string();
    assert_eq!(read_command_output(&bad, b""), Err(expected.clone()));
    assert_eq!(read_command_output(b"ok", &bad), Err(expected));
}

#[test]
fn youtube_cleanup_dirs() {
    assert_eq!(youtube_cleanup("/w/job/decode/x/out.srt"), Some("/w/job".to_string()));
    assert_eq!(youtube_cleanup("/w/job/run/x/out.srt"), Some("/w/job/run".to_string()));
    assert_eq!(youtube_cleanup("out.srt"), None);
}

#[test]
fn v1_upload_flow() {
    let (s, a) = V1State::start_upload(UploadKind::Recognition);
    assert!(matches!(a, V1Action::ParseForm));
    let mut c = MultipartContent::default();
    c.extension = "wav".to_string();
    c.file = vec![9];
    let (s, a) = s.step(V1Event::Form { content: Ok(c) });
    let (id, upload) = match (&s, a) {
        (V1State::AwaitSave { id, command, upload_path }, V1Action::SaveFile { path, data }) => {
            assert!(is_uuid_v4(id));
            assert_eq!(path, format!("/mnt/md0/api-server/.temp/{}.wav", id));
            assert_eq!(&path, upload_path);
            assert_eq!(data, vec![9]);
            assert_eq!(
                command,
                &format!("{}/run_rec_upload.sh {} sa_me_2.0 srt {} 10 0.3", SCRIPT_PREFIX, id, path)
            );
            (id.clone(), path)
        }
        other => panic!("unexpected {:?}", other),
    };
    let (s, a) = s.step(V1Event::Saved { result: Ok(()) });
    assert!(matches!(a, V1Action::RunCommand { .. }));
    let (s, a) = s.step(V1Event::CommandRan { output: Ok((b"/w/j/r/out.srt \n".to_vec(), vec![])) });
    assert!(matches!(&a, V1Action::ReadFile { path } if path == "/w/j/r/out.srt"));
    let (s, a) = s.step(V1Event::ResultRead { data: Ok(b"subs".to_vec()) });
    assert!(matches!(&a, V1Action::RemoveFile { path } if *path == upload));
    let (s, a) = s.step(V1Event::Removed { result: Ok(()) });
    assert!(matches!(&a, V1Action::RemoveDir { path } if path == "/w/j"));
    let (s, a) = s.step(V1Event::Removed { result: Ok(()) });
    assert!(matches!(s, V1State::Finished));
    assert!(matches!(a, V1Action::Respond { result: Ok(d) } if d == b"subs".to_vec()));
    assert!(!id.is_empty());
}

#[test]
fn v1_errors() {
    let (s, _) = V1State::start_upload(UploadKind::App);
    let (_, a) = s.step(V1Event::Form { content: Err("bad".to_string()) });
    match a {
        V1Action::Respond { result: Err(e) } => assert_eq!(e.status_code(), 422),
        other => panic!("unexpected {:?}", other),
    }
    let (s, _) = V1State::start_upload(UploadKind::Alignment);
    let (s, _) = s.step(V1Event::Form { content: Ok(MultipartContent::default()) });
    let (_, a) = s.step(V1Event::Saved { result: Err("disk full".to_string()) });
    assert!(matches!(a, V1Action::Respond { result: Err(HttpError::Other(m)) } if m == "disk full"));
    let s = V1State::AwaitResult { upload_path: None, result_path: "/a/b/c".to_string() };
    let (_, a) = s.step(V1Event::ResultRead { data: Err("missing".to_string()) });
    assert!(matches!(a, V1Action::Respond { result: Err(HttpError::NotFound(m)) } if m == "missing"));
    let s = V1State::AwaitDirRemoval { data: vec![] };
    let (_, a) = s.step(V1Event::Removed { result: Err("busy".to_string()) });
    assert!(matches!(a, V1Action::Respond { result: Err(HttpError::IOError(m)) } if m == "busy"));
    let s = V1State::AwaitCommand { id: "i".to_string(), upload_path: None };
    let (_, a) = s.step(V1Event::CommandRan { output: Ok((vec![0xff], vec![])) });
    assert!(matches!(a, V1Action::Respond { result: Err(HttpError::Other(_)) }));
    let s = V1State::AwaitUploadRemoval { data: vec![], result_path: "out.srt".to_string() };
    let (_, a) = s.step(V1Event::Removed { result: Ok(()) });
    assert!(matches!(a, V1Action::Abort));
}

#[test]
fn v1_youtube_flow() {
    let req = RecYoutubeRequest { asr_kind: None, output_type: Some("trs".to_string()), vid: "abc".to_string() };
    let (s, a) = V1State::start_youtube(req);
    let id = match (&s, &a) {
        (V1State::AwaitCommand { id, upload_path: None }, V1Action::RunCommand { command }) => {
            assert!(is_uuid_v4(id));
            assert_eq!(command, &format!("{}/run_rec_youtube.sh {} sa_me_2.0 trs abc 10", SCRIPT_PREFIX, id));
            id.clone()
        }
        other => panic!("unexpected {:?}", other),
    };
    let (s, a) = s.step(V1Event::CommandRan { output: Ok((b"/w/j/decode/x/o.trs 12 ok".to_vec(), vec![])) });
    assert!(matches!(&a, V1Action::ReadFile { path } if path == "/w/j/decode/x/o.trs"));
    let (_, a) = s.step(V1Event::ResultRead { data: Ok(vec![1]) });
    assert!(matches!(&a, V1Action::RemoveDir { path } if path == "/w/j"));
    assert_eq!(id.len(), 36);
}

#[test]
fn job_command_success() {
    let (s, a) = JobState::start_command("j1".to_string(), "run".to_string(), Some("/up/j1.wav".to_string()));
    assert!(matches!(&a, JobAction::RunCommand { command } if command == "run"));
    let out = CommandOutput { success: true, stdout: b" /w/x/out.srt 3\n".to_vec(), stderr: vec![] };
    let (s, a) = s.step(JobEvent::CommandRan { output: Ok(out) });
    assert!(matches!(&a, JobAction::CopyFile { from, to } if from == "/w/x/out.srt" && to == "/mnt/md0/api-server/.result/j1"));
    let (s, a) = s.step(JobEvent::Copied { result: Ok(()) });
    assert!(matches!(&a, JobAction::RemoveFile { path } if path == "/up/j1.wav"));
    let (s, a) = s.step(JobEvent::Removed { result: Ok(()) });
    assert!(matches!(a, JobAction::MarkStatus { status: ResultStatus::Complete }));
    let (s, a) = s.step(JobEvent::StatusSet { result: Ok(()) });
    assert!(matches!(&a, JobAction::RecordFilePath { path } if path == "/mnt/md0/api-server/.result/j1"));
    let (s, a) = s.step(JobEvent::FilePathSet { result: Ok(()) });
    assert!(matches!(s, JobState::Finished));
    assert!(matches!(a, JobAction::Finish));
}

#[test]
fn job_command_failures() {
    let (s, _) = JobState::start_command("j1".to_string(), "run".to_string(), None);
    let out = CommandOutput { success: false, stdout: b"/w/out".to_vec(), stderr: vec![] };
    let (s, a) = s.step(JobEvent::CommandRan { output: Ok(out) });
    assert!(matches!(a, JobAction::MarkStatus { status: ResultStatus::Fail }));
    let (s, a) = s.step(JobEvent::StatusSet { result: Ok(()) });
    assert!(matches!(s, JobState::Finished));
    assert!(matches!(a, JobAction::Finish));
    let (_, a) = JobState::AwaitFailMark.step(JobEvent::StatusSet { result: Err("db".to_string()) });
    assert!(matches!(a, JobAction::Abort));
    let (s, _) = JobState::start_command("j1".to_string(), "run".to_string(), None);
    let out = CommandOutput { success: true, stdout: b"/w/out".to_vec(), stderr: vec![0xc0] };
    let (_, a) = s.step(JobEvent::CommandRan { output: Ok(out) });
    assert!(matches!(a, JobAction::MarkStatus { status: ResultStatus::Fail }));
    let s = JobState::AwaitCopy { save_path: "p".to_string(), delete_file: None };
    let (_, a) = s.step(JobEvent::Copied { result: Ok(()) });
    assert!(matches!(a, JobAction::MarkStatus { status: ResultStatus::Complete }));
    let s = JobState::AwaitFilePath;
    let (_, a) = s.step(JobEvent::FilePathSet { result: Err("db".to_string()) });
    assert!(matches!(a, JobAction::MarkStatus { status: ResultStatus::Fail }));
}

#[test]
fn job_translation() {
    let (s, a) = JobState::start_translation("t1".to_string());
    assert!(matches!(a, JobAction::PostTranslation));
    let (s, a) = s.step(JobEvent::Responded { status: Ok(200) });
    assert!(matches!(a, JobAction::ReadBody));
    let (s, a) = s.step(JobEvent::BodyRead { body: Ok(b"hola".to_vec()) });
    assert!(matches!(&a, JobAction::WriteFile { path, data } if path == "/mnt/md0/api-server/.result/t1" && data == b"hola"));
    let (_, a) = s.step(JobEvent::Written { result: Ok(()) });
    assert!(matches!(a, JobAction::MarkStatus { status: ResultStatus::Complete }));
    for code in [199u16, 300, 404, 500] {
        let (s, _) = JobState::start_translation("t1".to_string());
        let (_, a) = s.step(JobEvent::Responded { status: Ok(code) });
        assert!(matches!(a, JobAction::MarkStatus { status: ResultStatus::Fail }));
    }
    let (s, _) = JobState::start_translation("t1".to_string());
    let (_, a) = s.step(JobEvent::Responded { status: Ok(299) });
    assert!(matches!(a, JobAction::ReadBody));
}

fn record(id: &str, status: ResultStatus) -> ResultRecord {
    ResultRecord { id: id.to_string(), owner_id: 1, file_path: None, status }
}

#[test]
fn v2_upload_submission() {
    let (s, a) = SubmitState::start_upload(UploadKind::Alignment, 42);
    assert!(matches!(a, SubmitAction::ParseForm));
    let mut c = MultipartContent::default();
    c.extension = "mp4".to_string();
    c.asr_kind = "k".to_string();
    let (s, a) = s.step(SubmitEvent::Form { content: Ok(c) });
    let id = match &a {
        SubmitAction::CreateRecord { id, owner_id } => {
            assert_eq!(*owner_id, 42);
            assert!(is_uuid_v4(id));
            id.clone()
        }
        other => panic!("unexpected {:?}", other),
    };
    let (s, a) = s.step(SubmitEvent::RecordCreated { record: Ok(record(&id, ResultStatus::Running)) });
    let path = format!("/mnt/md0/api-server/.temp/{}.mp4", id);
    assert!(matches!(&a, SubmitAction::SaveFile { path: p, .. } if *p == path));
    let (s, a) = s.step(SubmitEvent::Saved { result: Ok(()) });
    assert!(matches!(s, SubmitState::Finished));
    match a {
        SubmitAction::Launch { record, job: (JobState::AwaitOutput { id: jid, delete_file }, JobAction::RunCommand { command }), response } => {
            assert_eq!(record.id, id);
            assert_eq!(jid, id);
            assert_eq!(response.id, id);
            assert_eq!(delete_file, Some(path.clone()));
            assert_eq!(command, format!("{}/run_align_upload.sh {} k {}", SCRIPT_PREFIX, id, path));
        }
        other => panic!("unexpected {:?}", other),
    }
}

#[test]
fn v2_youtube_and_translation() {
    let req = RecYoutubeRequestV2 { asr_kind: None, output_type: None, vid: "v".to_string(), lmwt: Some("3".to_string()), n_jobs: None };
    let (s, a) = SubmitState::start_youtube(req, 5);
    let id = match a {
        SubmitAction::CreateRecord { id, owner_id: 5 } => id,
        other => panic!("unexpected {:?}", other),
    };
    let (_, a) = s.step(SubmitEvent::RecordCreated { record: Ok(record(&id, ResultStatus::Running)) });
    match a {
        SubmitAction::Launch { job: (JobState::AwaitOutput { delete_file: None, .. }, JobAction::RunCommand { command }), response, .. } => {
            assert_eq!(response.id, id);
            assert_eq!(command, format!("{}/run_rec_youtube.sh {} sa_me_2.0 srt v 3", SCRIPT_PREFIX, id));
        }
        other => panic!("unexpected {:?}", other),
    }
    let (s, _) = SubmitState::start_translation(5);
    let (_, a) = s.step(SubmitEvent::RecordCreated { record: Err("db down".to_string()) });
    assert!(matches!(a, SubmitAction::Respond { error: HttpError::Other(m) } if m == "db down"));
    let (s, _) = SubmitState::start_translation(5);
    let (_, a) = s.step(SubmitEvent::RecordCreated { record: Ok(record("x", ResultStatus::Running)) });
    assert!(matches!(a, SubmitAction::Launch { job: (JobState::AwaitResponse { .. }, JobAction::PostTranslation), .. }));
    let (s, _) = SubmitState::start_upload(UploadKind::Recognition, 1);
    let (_, a) = s.step(SubmitEvent::Form { content: Err("eof".to_string()) });
    assert!(matches!(a, SubmitAction::Respond { error: HttpError::MultipartError(m) } if m == "eof"));
}

#[test]
fn fetch_results() {
    let (s, a) = FetchState::start("r1".to_string());
    assert!(matches!(&a, FetchAction::FindRecord { id } if id == "r1"));
    let (_, a) = s.step(FetchEvent::Found { record: Ok(None) });
    match a {
        FetchAction::Respond { result: Err(e) } => {
            assert_eq!(e.status_code(), 404);
            assert_eq!(e.to_string(), "Not Found: Result not found");
        }
        other => panic!("unexpected {:?}", other),
    }
    let (_, a) = FetchState::AwaitRecord.step(FetchEvent::Found { record: Ok(Some(record("r1", ResultStatus::Running))) });
    assert!(matches!(a, FetchAction::Respond { result: Err(HttpError::Conflict) }));
    let (_, a) = FetchState::AwaitRecord.step(FetchEvent::Found { record: Ok(Some(record("r1", ResultStatus::Fail))) });
    assert!(matches!(a, FetchAction::Respond { result: Err(HttpError::ExpectationFailed) }));
    let (s, a) = FetchState::AwaitRecord.step(FetchEvent::Found { record: Ok(Some(record("r1", ResultStatus::Complete))) });
    assert!(matches!(&a, FetchAction::ReadFile { path } if path == "/mnt/md0/api-server/.result/r1"));
    let (_, a) = s.step(FetchEvent::FileRead { data: Ok(vec![5]) });
    assert!(matches!(a, FetchAction::Respond { result: Ok(d) } if d == vec![5]));
    let (_, a) = FetchState::AwaitFile.step(FetchEvent::FileRead { data: Err("gone".to_string()) });
    assert!(matches!(a, FetchAction::Respond { result: Err(HttpError::Other(m)) } if m == "gone"));
    let (_, a) = FetchState::AwaitRecord.step(FetchEvent::Found { record: Err("db".to_string()) });
    assert!(matches!(a, FetchAction::Respond { result: Err(e) } if e.status_code() == 500));
}

#[test]
fn form_with_only_a_file() {
    let (s, _) = MultipartState::start();
    let (s, _) = s.step(field(Some("source"), Some("clip.mp3")));
    let (s, _) = s.step(MultipartEvent::Bytes { data: Ok(vec![7, 7]) });
    let (_, a) = s.step(MultipartEvent::Field { next: Ok(None) });
    match a {
        MultipartAction::Done { result: Ok(c) } => {
            assert_eq!(c.file, vec![7, 7]);
            assert_eq!(c.extension, "mp3");
            assert_eq!(c.asr_kind, "sa_me_2.0");
            assert_eq!(c.output_type, OutputType::Srt);
            assert_eq!(c.lmwt, 10);
            assert_eq!(c.min_word_gap, "0.3");
        }
        other => panic!("unexpected {:?}", other),
    }
}

#[test]
fn fetch_reads_where_the_job_kept_its_output() {
    let (s, _) = JobState::start_command("k9".to_string(), "run".to_string(), None);
    let out = CommandOutput { success: true, stdout: b"/w/k9.srt\n".to_vec(), stderr: vec![] };
    let (_, a) = s.step(JobEvent::CommandRan { output: Ok(out) });
    let kept = match a {
        JobAction::CopyFile { to, .. } => to,
        other => panic!("unexpected {:?}", other),
    };
    let (s, _) = JobState::start_translation("k9".to_string());
    let (s, _) = s.step(JobEvent::Responded { status: Ok(200) });
    let (_, a) = s.step(JobEvent::BodyRead { body: Ok(b"hi".to_vec()) });
    let written = match a {
        JobAction::WriteFile { path, .. } => path,
        other => panic!("unexpected {:?}", other),
    };
    let (s, _) = FetchState::start("k9".to_string());
    let (s, a) = s.step(FetchEvent::Found { record: Ok(Some(record("k9", ResultStatus::Complete))) });
    match &a {
        FetchAction::ReadFile { path } => {
            assert_eq!(path, &kept);
            assert_eq!(path, &written);
        }
        other => panic!("unexpected {:?}", other),
    }
    let (_, a) = s.step(FetchEvent::FileRead { data: Ok(b"1\n00:00 --> 00:01\nhi\n".to_vec()) });
    assert!(matches!(a, FetchAction::Respond { result: Ok(d) } if d == b"1\n00:00 --> 00:01\nhi\n".to_vec()));
}

fn lmwt_of(t: &str) -> Result<i64, String> {
    let (s, _) = MultipartState::start();
    let (s, _) = s.step(field(Some("lmwt"), None));
    match s.step(text(t)) {
        (MultipartState::Ready { content }, _) => Ok(content.lmwt),
        (_, a) => Err(done_error(a)),
    }
}

#[test]
fn lmwt_reading_edges() {
    assert_eq!(lmwt_of("0"), Ok(0));
    assert_eq!(lmwt_of("-0"), Ok(0));
    assert_eq!(lmwt_of("007"), Ok(7));
    assert_eq!(lmwt_of("9223372036854775807"), Ok(i64::MAX));
    assert_eq!(lmwt_of("-9223372036854775808"), Ok(i64::MIN));
    assert_eq!(lmwt_of("+9223372036854775807"), Ok(i64::MAX));
    for bad in ["9223372036854775808", "-9223372036854775809", "", "+", "-", "1 ", " 1", "1_0", "--1", "+-1", "١"] {
        assert_eq!(lmwt_of(bad), Err("Invalid lmwt".to_string()), "{:?}", bad);
    }
    for t in ["0", "-42", "+42", "9223372036854775807", "-9223372036854775808", "12a"] {
        assert_eq!(lmwt_of(t).ok(), t.parse::<i64>().ok(), "{:?}", t);
    }
}

#[test]
fn command_line_numbers() {
    let p = SCRIPT_PREFIX;
    for n in [0i64, 9, 10, -1, -10, 1234567890, i64::MAX, i64::MIN] {
        assert_eq!(
            rec_upload_command("i", "k", &OutputType::Srt, "/f", n, "0.3"),
            format!("{}/run_rec_upload.sh i k srt /f {} 0.3", p, n)
        );
    }
}

#[test]
fn command_output_trimming() {
    assert_eq!(read_command_output(b"\t\n /a/b.srt \r\n", b""), Ok("/a/b.srt".to_string()));
    assert_eq!(read_command_output(b"   ", b""), Ok(String::new()));
    assert_eq!(read_command_output(b"", b""), Ok(String::new()));
    assert_eq!(read_command_output("\u{3000}x y\u{a0}".as_bytes(), b""), Ok("x y".to_string()));
    assert_eq!(read_command_output("\u{200b}x".as_bytes(), b""), Ok("\u{200b}x".to_string()));
    for s in [" a ", "\u{85}b\u{2029}", "\u{1680}\u{205f}c d\u{202f}"] {
        assert_eq!(read_command_output(s.as_bytes(), b""), Ok(s.trim().to_string()));
    }
}
