//! Reading an upload form: the audio file and the options of the job, and
//! where the uploaded file is kept.

use vstd::prelude::*;
use crate::output_type::{output_type_named, OutputType};
use crate::paths::{path_extension, path_extension_of};
use crate::text::{parse_i64, parsed_i64, str_eq};

verus! {

/// The directory uploaded files are saved in.
pub const UPLOAD_PATH: &'static str = "/mnt/md0/api-server/.temp";

/// The contents of an upload form. `min_word_gap` holds the number as it
/// is displayed.
#[derive(Debug)]
pub struct MultipartContent {
    pub asr_kind: String,
    pub file: Vec<u8>,
    pub extension: String,
    pub output_type: OutputType,
    pub lmwt: i64,
    pub min_word_gap: String,
}

impl MultipartContent {
    /// The values a form starts from.
    pub open spec fn is_default(self) -> bool {
        &&& self.asr_kind@ == "sa_me_2.0"@
        &&& self.file@ == Seq::<u8>::empty()
        &&& self.extension@ == Seq::<char>::empty()
        &&& self.output_type == OutputType::Srt
        &&& self.lmwt == 10
        &&& self.min_word_gap@ == "0.3"@
    }
}

impl Default for MultipartContent {
    fn default() -> (c: Self)
        ensures
            c.is_default(),
    {
        MultipartContent {
            asr_kind: "sa_me_2.0".to_owned(),
            file: Vec::new(),
            extension: String::new(),
            output_type: OutputType::Srt,
            lmwt: 10,
            min_word_gap: "0.3".to_owned(),
        }
    }
}

/// The path an uploaded file named `filename` is saved under.
pub open spec fn upload_path_of(filename: Seq<char>) -> Seq<char> {
    UPLOAD_PATH@ + "/"@ + filename
}

/// The path an uploaded file named `filename` is saved under.
pub fn upload_file_path(filename: &str) -> (p: String)
    ensures
        p@ == upload_path_of(filename@),
{
    let mut p = String::new();
    p.append(UPLOAD_PATH);
    p.append("/");
    p.append(filename);
    assert(Seq::<char>::empty() + UPLOAD_PATH@ =~= UPLOAD_PATH@);
    p
}

/// The name and file name a form field arrives with.
#[derive(Debug)]
pub struct FieldHeader {
    pub name: Option<String>,
    pub file_name: Option<String>,
}

/// The text options of a form.
#[derive(Debug, Clone, Copy, PartialEq, Eq, Structural)]
pub enum TextField {
    AsrKind,
    OutputType,
    Lmwt,
    MinWordGap,
}

/// Where the reading of a form stands.
#[derive(Debug)]
pub enum MultipartState {
    /// Between fields.
    Ready { content: MultipartContent },
    /// Waiting for the bytes of the uploaded file, whose extension is known.
    AwaitFile { content: MultipartContent, extension: String },
    /// Waiting for the text of an option.
    AwaitText { content: MultipartContent, field: TextField },
    /// Waiting for the minimum word gap to be read as a number.
    AwaitMinWordGap { content: MultipartContent },
    /// The form has been read, or reading it failed.
    Finished,
}

/// What the outside world reports back while a form is read.
#[derive(Debug)]
pub enum MultipartEvent {
    /// The next field, none when the form is over, or a read error.
    Field { next: Result<Option<FieldHeader>, String> },
    /// The bytes of the current field.
    Bytes { data: Result<Vec<u8>, String> },
    /// The text of the current field.
    Text { text: Result<String, String> },
    /// The minimum word gap read as a number and displayed again, or none
    /// when the text is not a number.
    MinWordGap { value: Option<String> },
}

/// What is to be done next.
#[derive(Debug)]
pub enum MultipartAction {
    /// Read the header of the next field.
    NextField,
    /// Read the current field as bytes.
    ReadBytes,
    /// Read the current field as text.
    ReadText,
    /// Read this text as a floating-point number and display it again.
    ParseMinWordGap { text: String },
    /// The form has been read, or why it could not be.
    Done { result: Result<MultipartContent, String> },
    /// The uploaded file came without a file name or without an extension:
    /// reading stops here with a panic.
    Abort,
}

/// The option that a field name selects.
pub open spec fn text_field_named(name: Seq<char>) -> Option<TextField> {
    if name == "asr_kind"@ {
        Some(TextField::AsrKind)
    } else if name == "output_type"@ {
        Some(TextField::OutputType)
    } else if name == "lmwt"@ {
        Some(TextField::Lmwt)
    } else if name == "min_word_gap"@ {
        Some(TextField::MinWordGap)
    } else {
        None
    }
}

/// The message for a field that is not part of the form.
pub open spec fn invalid_parameter_message(name: Option<String>) -> Seq<char> {
    "invalid parameter "@ + match name {
        Some(n) => n@,
        None => "not str"@,
    }
}

/// A finished form reading with an error whose message is `m`.
pub open spec fn fails_with(r: (MultipartState, MultipartAction), m: Seq<char>) -> bool {
    r.0 == MultipartState::Finished && (r.1 matches MultipartAction::Done { result: Err(e) }
        && e@ == m)
}

/// A finished form reading with the error `e`.
pub open spec fn fails_with_error(r: (MultipartState, MultipartAction), e: String) -> bool {
    r == (MultipartState::Finished, MultipartAction::Done { result: Err(e) })
}

/// Back between fields with `content`.
pub open spec fn continues_with(r: (MultipartState, MultipartAction), content: MultipartContent) -> bool {
    r == (MultipartState::Ready { content }, MultipartAction::NextField)
}

/// The events that each state waits for.
pub open spec fn multipart_event_expected(state: MultipartState, event: MultipartEvent) -> bool {
    match (state, event) {
        (MultipartState::Ready { .. }, MultipartEvent::Field { .. }) => true,
        (MultipartState::AwaitFile { .. }, MultipartEvent::Bytes { .. }) => true,
        (MultipartState::AwaitText { field, .. }, MultipartEvent::Text { .. }) => true,
        (MultipartState::AwaitMinWordGap { .. }, MultipartEvent::MinWordGap { .. }) => true,
        _ => false,
    }
}

/// One step of reading a form.
pub open spec fn multipart_transition(
    state: MultipartState,
    event: MultipartEvent,
    r: (MultipartState, MultipartAction),
) -> bool {
    match state {
        MultipartState::Ready { content } => match event {
            MultipartEvent::Field { next } => match next {
                Err(e) => fails_with_error(r, e),
                Ok(None) => r == (MultipartState::Finished, MultipartAction::Done {
                    result: Ok(content),
                }),
                Ok(Some(h)) => if h.name matches Some(n) && n@ == "source"@ {
                    match h.file_name {
                        None => r == (MultipartState::Finished, MultipartAction::Abort),
                        Some(f) => match path_extension_of(f@) {
                            None => r == (MultipartState::Finished, MultipartAction::Abort),
                            Some(ext) => r.1 == MultipartAction::ReadBytes && (
                            r.0 matches MultipartState::AwaitFile { content: c, extension }
                                && c == content && extension@ == ext),
                        },
                    }
                } else if h.name matches Some(n) && text_field_named(n@) is Some {
                    r == (MultipartState::AwaitText {
                        content,
                        field: text_field_named(h.name->0@)->0,
                    }, MultipartAction::ReadText)
                } else {
                    fails_with(r, invalid_parameter_message(h.name))
                },
            },
            _ => false,
        },
        MultipartState::AwaitFile { content, extension } => match event {
            MultipartEvent::Bytes { data } => match data {
                Err(e) => fails_with_error(r, e),
                Ok(bytes) => continues_with(
                    r,
                    MultipartContent { file: bytes, extension, ..content },
                ),
            },
            _ => false,
        },
        MultipartState::AwaitText { content, field } => match event {
            MultipartEvent::Text { text } => match text {
                Err(e) => fails_with_error(r, e),
                Ok(t) => match field {
                    TextField::AsrKind => continues_with(
                        r,
                        MultipartContent { asr_kind: t, ..content },
                    ),
                    TextField::OutputType => match output_type_named(t@) {
                        Some(o) => continues_with(
                            r,
                            MultipartContent { output_type: o, ..content },
                        ),
                        None => fails_with(r, "Invalid output type"@),
                    },
                    TextField::Lmwt => match parsed_i64(t@) {
                        Some(v) => continues_with(r, MultipartContent { lmwt: v, ..content }),
                        None => fails_with(r, "Invalid lmwt"@),
                    },
                    TextField::MinWordGap => r == (
                        MultipartState::AwaitMinWordGap { content },
                        MultipartAction::ParseMinWordGap { text: t },
                    ),
                },
            },
            _ => false,
        },
        MultipartState::AwaitMinWordGap { content } => match event {
            MultipartEvent::MinWordGap { value } => match value {
                Some(v) => continues_with(r, MultipartContent { min_word_gap: v, ..content }),
                None => fails_with(r, "Invalid min_word_gap"@),
            },
            _ => false,
        },
        MultipartState::Finished => false,
    }
}

/// A form holding only a file whose name has an extension gives the file,
/// its extension, and the default options.
pub proof fn lemma_file_only_form(
    content: MultipartContent,
    name: String,
    file_name: String,
    data: Vec<u8>,
    r1: (MultipartState, MultipartAction),
    r2: (MultipartState, MultipartAction),
    r3: (MultipartState, MultipartAction),
)
    requires
        content.is_default(),
        name@ == "source"@,
        path_extension_of(file_name@) is Some,
        multipart_transition(
            MultipartState::Ready { content },
            MultipartEvent::Field {
                next: Ok(Some(FieldHeader { name: Some(name), file_name: Some(file_name) })),
            },
            r1,
        ),
        multipart_transition(r1.0, MultipartEvent::Bytes { data: Ok(data) }, r2),
        multipart_transition(r2.0, MultipartEvent::Field { next: Ok(None) }, r3),
    ensures
        r1.1 == MultipartAction::ReadBytes,
        r2.1 == MultipartAction::NextField,
        r3.0 == MultipartState::Finished,
        r3.1 matches MultipartAction::Done { result: Ok(c) } && c.file == data && Some(
            c.extension@,
        ) == path_extension_of(file_name@) && c.asr_kind == content.asr_kind && c.output_type
            == content.output_type && c.lmwt == content.lmwt && c.min_word_gap == content.min_word_gap,
{
}

/// A finished reading that failed with `message`.
fn fail(message: &str) -> (r: (MultipartState, MultipartAction))
    ensures
        fails_with(r, message@),
{
    (MultipartState::Finished, MultipartAction::Done { result: Err(message.to_owned()) })
}

/// Which text option a field name selects.
fn text_field(name: &str) -> (f: Option<TextField>)
    ensures
        f == text_field_named(name@),
{
    if str_eq(name, "asr_kind") {
        Some(TextField::AsrKind)
    } else if str_eq(name, "output_type") {
        Some(TextField::OutputType)
    } else if str_eq(name, "lmwt") {
        Some(TextField::Lmwt)
    } else if str_eq(name, "min_word_gap") {
        Some(TextField::MinWordGap)
    } else {
        None
    }
}

impl MultipartState {
    /// The reading of a form begins between fields, from the default
    /// values.
    pub fn start() -> (r: (MultipartState, MultipartAction))
        ensures
            r.1 == MultipartAction::NextField,
            r.0 matches MultipartState::Ready { content } && content.is_default(),
    {
        (MultipartState::Ready { content: MultipartContent::default() }, MultipartAction::NextField)
    }

    /// Advances the reading of a form by one step.
    pub fn step(self, event: MultipartEvent) -> (r: (MultipartState, MultipartAction))
        requires
            multipart_event_expected(self, event),
        ensures
            multipart_transition(self, event, r),
    {
        match self {
            MultipartState::Ready { content } => match event {
                MultipartEvent::Field { next } => match next {
                    Err(e) => (MultipartState::Finished, MultipartAction::Done { result: Err(e) }),
                    Ok(None) => (MultipartState::Finished, MultipartAction::Done {
                        result: Ok(content),
                    }),
                    Ok(Some(h)) => {
                        let is_source = match &h.name {
                            Some(n) => str_eq(n.as_str(), "source"),
                            None => false,
                        };
                        if is_source {
                            match &h.file_name {
                                None => (MultipartState::Finished, MultipartAction::Abort),
                                Some(f) => match path_extension(f.as_str()) {
                                    None => (MultipartState::Finished, MultipartAction::Abort),
                                    Some(extension) => (
                                        MultipartState::AwaitFile { content, extension },
                                        MultipartAction::ReadBytes,
                                    ),
                                },
                            }
                        } else {
                            let field = match &h.name {
                                Some(n) => text_field(n.as_str()),
                                None => None,
                            };
                            match field {
                                Some(field) => (
                                    MultipartState::AwaitText { content, field },
                                    MultipartAction::ReadText,
                                ),
                                None => {
                                    let mut m = String::new();
                                    m.append("invalid parameter ");
                                    match &h.name {
                                        Some(n) => m.append(n.as_str()),
                                        None => m.append("not str"),
                                    }
                                    (MultipartState::Finished, MultipartAction::Done {
                                        result: Err(m),
                                    })
                                },
                            }
                        }
                    },
                },
                _ => (MultipartState::Finished, MultipartAction::Abort),
            },
            MultipartState::AwaitFile { content, extension } => match event {
                MultipartEvent::Bytes { data } => match data {
                    Err(e) => (MultipartState::Finished, MultipartAction::Done { result: Err(e) }),
                    Ok(bytes) => (
                        MultipartState::Ready {
                            content: MultipartContent { file: bytes, extension, ..content },
                        },
                        MultipartAction::NextField,
                    ),
                },
                _ => (MultipartState::Finished, MultipartAction::Abort),
            },
            MultipartState::AwaitText { content, field } => match event {
                MultipartEvent::Text { text } => match text {
                    Err(e) => (MultipartState::Finished, MultipartAction::Done { result: Err(e) }),
                    Ok(t) => match field {
                        TextField::AsrKind => (
                            MultipartState::Ready {
                                content: MultipartContent { asr_kind: t, ..content },
                            },
                            MultipartAction::NextField,
                        ),
                        TextField::OutputType => match OutputType::from_str(t.as_str()) {
                            Ok(o) => (
                                MultipartState::Ready {
                                    content: MultipartContent { output_type: o, ..content },
                                },
                                MultipartAction::NextField,
                            ),
                            Err(_) => fail("Invalid output type"),
                        },
                        TextField::Lmwt => match parse_i64(t.as_str()) {
                            Some(v) => (
                                MultipartState::Ready {
                                    content: MultipartContent { lmwt: v, ..content },
                                },
                                MultipartAction::NextField,
                            ),
                            None => fail("Invalid lmwt"),
                        },
                        TextField::MinWordGap => (
                            MultipartState::AwaitMinWordGap { content },
                            MultipartAction::ParseMinWordGap { text: t },
                        ),
                    },
                },
                _ => (MultipartState::Finished, MultipartAction::Abort),
            },
            MultipartState::AwaitMinWordGap { content } => match event {
                MultipartEvent::MinWordGap { value } => match value {
                    Some(v) => (
                        MultipartState::Ready {
                            content: MultipartContent { min_word_gap: v, ..content },
                        },
                        MultipartAction::NextField,
                    ),
                    None => fail("Invalid min_word_gap"),
                },
                _ => (MultipartState::Finished, MultipartAction::Abort),
            },
            MultipartState::Finished => (MultipartState::Finished, MultipartAction::Abort),
        }
    }
}

} // verus!
