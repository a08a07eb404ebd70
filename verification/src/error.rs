//! The errors a request handler can end with, and how each is answered.

use vstd::prelude::*;

verus! {

/// The error body sent back to the client.
#[derive(Debug, Clone, PartialEq, Eq)]
pub struct ErrorInfo {
    message: String,
}

impl ErrorInfo {
    /// The message the body carries.
    pub closed spec fn spec_message(&self) -> Seq<char> {
        self.message@
    }

    /// An error body carrying `message`.
    pub fn new(message: String) -> (e: ErrorInfo)
        ensures
            e.spec_message() == message@,
    {
        ErrorInfo { message }
    }

    /// The message the body carries.
    pub fn message(&self) -> (m: &String)
        ensures
            m@ == self.spec_message(),
    {
        &self.message
    }
}

/// Why a request failed. The last two carry the text of an I/O error and
/// of any other error.
#[derive(Debug)]
pub enum HttpError {
    NotFound(String),
    Conflict,
    ExpectationFailed,
    InvalidParams(Vec<&'static str>),
    InvalidFileFormat,
    MultipartError(String),
    IOError(String),
    Other(String),
}

/// The text of `format!("{:?}", s)` for a string slice `s`: `s` quoted,
/// with its special characters escaped.
pub uninterp spec fn str_debug_text(s: Seq<char>) -> Seq<char>;

/// Formats a string slice as `{:?}` does.
///
/// Trusted: `<str as Debug>::fmt`. What it produces depends on `s` alone
/// and is named `str_debug_text`; nothing more is stated.
#[verifier::external_body]
fn str_debug(s: &str) -> (r: String)
    ensures
        r@ == str_debug_text(s@),
{
    format!("{:?}", s)
}

/// The entries of a list, each formatted by `str_debug_text` and joined by
/// `", "`.
pub open spec fn debug_entries(v: Seq<&'static str>) -> Seq<char>
    decreases v.len(),
{
    if v.len() == 0 {
        Seq::empty()
    } else if v.len() == 1 {
        str_debug_text(v[0]@)
    } else {
        debug_entries(v.drop_last()) + ", "@ + str_debug_text(v.last()@)
    }
}

/// A list of string slices formatted as `{:?}` does: its entries between
/// square brackets.
pub open spec fn debug_list(v: Seq<&'static str>) -> Seq<char> {
    "["@ + debug_entries(v) + "]"@
}

/// The message of each error.
pub open spec fn error_message(e: HttpError) -> Seq<char> {
    match e {
        HttpError::NotFound(s) => "Not Found: "@ + s@,
        HttpError::Conflict => "Job Running"@,
        HttpError::ExpectationFailed => "Job Failed"@,
        HttpError::InvalidParams(v) => "Invalid params: "@ + debug_list(v@),
        HttpError::InvalidFileFormat => "Invalid file format"@,
        HttpError::MultipartError(s) => "Error parsing `multipart/form-data` request.\n"@ + s@,
        HttpError::IOError(s) => s@,
        HttpError::Other(s) => s@,
    }
}

/// The HTTP status with which each error is answered.
pub open spec fn error_status(e: HttpError) -> u16 {
    match e {
        HttpError::NotFound(_) => 404,
        HttpError::Conflict => 409,
        HttpError::InvalidParams(_) => 422,
        HttpError::MultipartError(_) => 422,
        HttpError::InvalidFileFormat => 422,
        HttpError::IOError(_) => 404,
        HttpError::Other(_) => 500,
        HttpError::ExpectationFailed => 417,
    }
}

/// Formats a list of string slices as `{:?}` does.
fn format_debug_list(v: &Vec<&'static str>) -> (r: String)
    ensures
        r@ == debug_list(v@),
{
    let mut r = String::new();
    r.append("[");
    let mut i: usize = 0;
    while i < v.len()
        invariant
            i <= v@.len(),
            r@ == "["@ + debug_entries(v@.take(i as int)),
        decreases v@.len() - i,
    {
        if i > 0 {
            r.append(", ");
        }
        let d = str_debug(v[i]);
        r.append(d.as_str());
        proof {
            let t = v@.take(i + 1);
            assert(t.drop_last() =~= v@.take(i as int));
            assert(t.last() == v@[i as int]);
            if i == 0 {
                assert(v@.take(0) =~= Seq::<&'static str>::empty());
                assert("["@ + Seq::<char>::empty() =~= "["@);
            } else {
                assert(("["@ + debug_entries(v@.take(i as int))) + ", "@ + d@ =~= "["@ + (
                debug_entries(v@.take(i as int)) + ", "@ + d@));
            }
        }
        i = i + 1;
    }
    assert(v@.take(v@.len() as int) =~= v@);
    r.append("]");
    r
}

impl HttpError {
    /// The HTTP status code that answers this error.
    pub fn status_code(&self) -> (s: u16)
        ensures
            s == error_status(*self),
    {
        match self {
            HttpError::NotFound(_) => 404,
            HttpError::Conflict => 409,
            HttpError::InvalidParams(_) => 422,
            HttpError::MultipartError(_) => 422,
            HttpError::InvalidFileFormat => 422,
            HttpError::IOError(_) => 404,
            HttpError::Other(_) => 500,
            HttpError::ExpectationFailed => 417,
        }
    }

    /// The message of this error, as it is displayed.
    pub fn to_string(&self) -> (m: String)
        ensures
            m@ == error_message(*self),
    {
        let mut m = String::new();
        match self {
            HttpError::NotFound(s) => {
                m.append("Not Found: ");
                m.append(s.as_str());
            },
            HttpError::Conflict => m.append("Job Running"),
            HttpError::ExpectationFailed => m.append("Job Failed"),
            HttpError::InvalidParams(v) => {
                m.append("Invalid params: ");
                let l = format_debug_list(v);
                m.append(l.as_str());
            },
            HttpError::InvalidFileFormat => m.append("Invalid file format"),
            HttpError::MultipartError(s) => {
                m.append("Error parsing `multipart/form-data` request.\n");
                m.append(s.as_str());
            },
            HttpError::IOError(s) => m.append(s.as_str()),
            HttpError::Other(s) => m.append(s.as_str()),
        }
        assert(Seq::<char>::empty() + "Job Running"@ =~= "Job Running"@);
        assert(Seq::<char>::empty() + "Job Failed"@ =~= "Job Failed"@);
        assert(Seq::<char>::empty() + "Invalid file format"@ =~= "Invalid file format"@);
        m
    }

    /// The response to this error: its status code and a body carrying its
    /// message.
    pub fn into_response(self) -> (r: (u16, ErrorInfo))
        ensures
            r.0 == error_status(self),
            r.1.spec_message() == error_message(self),
    {
        let status = self.status_code();
        let message = self.to_string();
        (status, ErrorInfo::new(message))
    }
}

} // verus!
