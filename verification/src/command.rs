//! The shell commands that run recognition jobs, and how their output is
//! read.

use vstd::prelude::*;
use crate::output_type::{output_type_name, OutputType};
use crate::text::{
    decimal_text, i64_text, trim, trimmed, utf8_error_message, utf8_error_text,
    utf8_text,
};

verus! {

/// Prepares the recognition environment; the job scripts live in the
/// directory it ends with.
pub const SCRIPT_PREFIX: &'static str = "source ~/miniconda3/etc/profile.d/conda.sh;conda activate pkasr;bash /mnt/md0/nfs_share/PKASR/sinica_asr/api";

/// The directory finished results are kept in.
pub const RESULT_PATH: &'static str = "/mnt/md0/api-server/.result";

/// The command that runs the script `name`.
pub open spec fn script(name: Seq<char>) -> Seq<char> {
    SCRIPT_PREFIX@ + "/"@ + name
}

/// `base` followed by each of `args`, each after a space.
pub open spec fn with_args(base: Seq<char>, args: Seq<Seq<char>>) -> Seq<char>
    decreases args.len(),
{
    if args.len() == 0 {
        base
    } else {
        with_args(base, args.drop_last()) + " "@ + args.last()
    }
}

/// The texts of a list of strings.
pub open spec fn texts(v: Seq<String>) -> Seq<Seq<char>> {
    v.map_values(|s: String| s@)
}

/// The command that runs the script `name` with `args`.
fn command_line(name: &str, args: &Vec<String>) -> (r: String)
    ensures
        r@ == with_args(script(name@), texts(args@)),
{
    let mut r = String::new();
    r.append(SCRIPT_PREFIX);
    r.append("/");
    r.append(name);
    assert(Seq::<char>::empty() + SCRIPT_PREFIX@ =~= SCRIPT_PREFIX@);
    let mut i: usize = 0;
    while i < args.len()
        invariant
            i <= args@.len(),
            r@ == with_args(script(name@), texts(args@.take(i as int))),
        decreases args@.len() - i,
    {
        proof {
            assert(texts(args@.take(i + 1)).drop_last() =~= texts(args@.take(i as int)));
            assert(texts(args@.take(i + 1)).last() == args@[i as int]@);
        }
        r.append(" ");
        r.append(args[i].as_str());
        i = i + 1;
    }
    assert(args@.take(args@.len() as int) =~= args@);
    r
}

/// The command of a recognition job on an uploaded file.
pub open spec fn rec_upload_command_text(
    id: Seq<char>,
    asr_kind: Seq<char>,
    output_type: OutputType,
    file_path: Seq<char>,
    lmwt: i64,
    min_word_gap: Seq<char>,
) -> Seq<char> {
    with_args(
        script("run_rec_upload.sh"@),
        seq![id, asr_kind, output_type_name(output_type), file_path, decimal_text(lmwt as int), min_word_gap],
    )
}

/// The command of a recognition job on an uploaded file.
pub fn rec_upload_command(
    id: &str,
    asr_kind: &str,
    output_type: &OutputType,
    file_path: &str,
    lmwt: i64,
    min_word_gap: &str,
) -> (r: String)
    ensures
        r@ == rec_upload_command_text(id@, asr_kind@, *output_type, file_path@, lmwt, min_word_gap@),
{
    let mut args: Vec<String> = Vec::new();
    args.push(id.to_owned());
    args.push(asr_kind.to_owned());
    args.push(output_type.to_string());
    args.push(file_path.to_owned());
    args.push(i64_text(lmwt));
    args.push(min_word_gap.to_owned());
    let r = command_line("run_rec_upload.sh", &args);
    assert(texts(args@) =~= seq![id@, asr_kind@, output_type_name(*output_type), file_path@, decimal_text(lmwt as int), min_word_gap@]);
    r
}

/// The command of an alignment job on an uploaded file.
pub open spec fn align_upload_command_text(
    id: Seq<char>,
    asr_kind: Seq<char>,
    file_path: Seq<char>,
) -> Seq<char> {
    with_args(script("run_align_upload.sh"@), seq![id, asr_kind, file_path])
}

/// The command of an alignment job on an uploaded file.
pub fn align_upload_command(id: &str, asr_kind: &str, file_path: &str) -> (r: String)
    ensures
        r@ == align_upload_command_text(id@, asr_kind@, file_path@),
{
    let mut args: Vec<String> = Vec::new();
    args.push(id.to_owned());
    args.push(asr_kind.to_owned());
    args.push(file_path.to_owned());
    let r = command_line("run_align_upload.sh", &args);
    assert(texts(args@) =~= seq![id@, asr_kind@, file_path@]);
    r
}

/// The command of an app upload job, always with the model
/// `sa_me_2.0+vgh`.
pub open spec fn app_upload_command_text(file_path: Seq<char>) -> Seq<char> {
    with_args(script("run_app_upload.sh"@), seq!["sa_me_2.0+vgh"@, file_path])
}

/// The command of an app upload job.
pub fn app_upload_command(file_path: &str) -> (r: String)
    ensures
        r@ == app_upload_command_text(file_path@),
{
    let mut args: Vec<String> = Vec::new();
    args.push("sa_me_2.0+vgh".to_owned());
    args.push(file_path.to_owned());
    let r = command_line("run_app_upload.sh", &args);
    assert(texts(args@) =~= seq!["sa_me_2.0+vgh"@, file_path@]);
    r
}

/// An optional text, or `default` when it is absent.
pub open spec fn text_or(t: Option<String>, default: Seq<char>) -> Seq<char> {
    match t {
        Some(s) => s@,
        None => default,
    }
}

/// The text of an optional string, or `default` when it is absent.
fn string_or(t: Option<String>, default: &str) -> (r: String)
    ensures
        r@ == text_or(t, default@),
{
    match t {
        Some(s) => s,
        None => default.to_owned(),
    }
}

/// The command of a recognition job on a YouTube video. The model defaults
/// to `sa_me_2.0`, the format to `srt` and the language model weight to
/// `10`.
pub open spec fn rec_youtube_command_text(
    id: Seq<char>,
    asr_kind: Option<String>,
    output_type: Option<String>,
    vid: Seq<char>,
    lmwt: Option<String>,
) -> Seq<char> {
    with_args(
        script("run_rec_youtube.sh"@),
        seq![id, text_or(asr_kind, "sa_me_2.0"@), text_or(output_type, "srt"@), vid, text_or(lmwt, "10"@)],
    )
}

/// The command of a recognition job on a YouTube video.
pub fn rec_youtube_command(
    id: &str,
    asr_kind: Option<String>,
    output_type: Option<String>,
    vid: &str,
    lmwt: Option<String>,
) -> (r: String)
    ensures
        r@ == rec_youtube_command_text(id@, asr_kind, output_type, vid@, lmwt),
{
    let ghost (a, o, l) = (asr_kind, output_type, lmwt);
    let mut args: Vec<String> = Vec::new();
    args.push(id.to_owned());
    args.push(string_or(asr_kind, "sa_me_2.0"));
    args.push(string_or(output_type, "srt"));
    args.push(vid.to_owned());
    args.push(string_or(lmwt, "10"));
    let r = command_line("run_rec_youtube.sh", &args);
    assert(texts(args@) =~= seq![id@, text_or(a, "sa_me_2.0"@), text_or(o, "srt"@), vid@, text_or(l, "10"@)]);
    r
}

/// The path a job's result is kept under.
pub open spec fn result_path_of(id: Seq<char>) -> Seq<char> {
    RESULT_PATH@ + "/"@ + id
}

/// The path the result of job `id` is kept under.
pub fn result_file_path(id: &str) -> (p: String)
    ensures
        p@ == result_path_of(id@),
{
    let mut p = String::new();
    p.append(RESULT_PATH);
    p.append("/");
    p.append(id);
    assert(Seq::<char>::empty() + RESULT_PATH@ =~= RESULT_PATH@);
    p
}

/// What a finished command printed: its standard output without
/// surrounding white space, provided both outputs are valid UTF-8;
/// otherwise the message of the first invalid one.
pub open spec fn command_output_text(stdout: Seq<u8>, stderr: Seq<u8>) -> Result<Seq<char>, Seq<char>> {
    if !vstd::utf8::valid_utf8(stdout) {
        Err(utf8_error_text(stdout))
    } else if !vstd::utf8::valid_utf8(stderr) {
        Err(utf8_error_text(stderr))
    } else {
        Ok(trimmed(vstd::utf8::decode_utf8(stdout)))
    }
}

/// Reads what a finished command printed.
pub fn read_command_output(stdout: &[u8], stderr: &[u8]) -> (r: Result<String, String>)
    ensures
        r matches Ok(s) ==> command_output_text(stdout@, stderr@) == Ok::<Seq<char>, Seq<char>>(s@),
        r matches Err(e) ==> command_output_text(stdout@, stderr@) == Err::<Seq<char>, Seq<char>>(e@),
{
    let out = match utf8_text(stdout) {
        Some(s) => s,
        None => {
            return Err(utf8_error_message(stdout));
        },
    };
    let result = trim(out);
    match utf8_text(stderr) {
        Some(_) => Ok(result),
        None => Err(utf8_error_message(stderr)),
    }
}

} // verus!
