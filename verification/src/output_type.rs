//! The subtitle formats a recognition job can produce.

use vstd::prelude::*;
use crate::text::str_eq;

verus! {

/// Output format of a recognition result.
#[derive(Debug, PartialEq, Eq, Structural)]
pub enum OutputType {
    Srt,
    Json,
    Trs,
}

/// The name by which a format is written and read.
pub open spec fn output_type_name(t: OutputType) -> Seq<char> {
    match t {
        OutputType::Srt => seq!['s', 'r', 't'],
        OutputType::Json => seq!['j', 's', 'o', 'n'],
        OutputType::Trs => seq!['t', 'r', 's'],
    }
}

/// The format whose name is `s`, if there is one.
pub open spec fn output_type_named(s: Seq<char>) -> Option<OutputType> {
    if s == output_type_name(OutputType::Srt) {
        Some(OutputType::Srt)
    } else if s == output_type_name(OutputType::Json) {
        Some(OutputType::Json)
    } else if s == output_type_name(OutputType::Trs) {
        Some(OutputType::Trs)
    } else {
        None
    }
}

impl OutputType {
    /// Reads a format from its name; any other text is refused.
    pub fn from_str(input: &str) -> (r: Result<OutputType, ()>)
        ensures
            r matches Ok(t) ==> output_type_named(input@) == Some(t),
            r is Err <==> output_type_named(input@) is None,
    {
        let srt = "srt";
        let json = "json";
        let trs = "trs";
        proof {
            reveal_strlit("srt");
            reveal_strlit("json");
            reveal_strlit("trs");
        }
        assert(srt@ =~= output_type_name(OutputType::Srt));
        assert(json@ =~= output_type_name(OutputType::Json));
        assert(trs@ =~= output_type_name(OutputType::Trs));
        if str_eq(input, srt) {
            Ok(OutputType::Srt)
        } else if str_eq(input, json) {
            Ok(OutputType::Json)
        } else if str_eq(input, trs) {
            Ok(OutputType::Trs)
        } else {
            Err(())
        }
    }

    /// The name of the format, as it is displayed.
    pub fn to_string(&self) -> (s: String)
        ensures
            s@ == output_type_name(*self),
    {
        proof {
            reveal_strlit("srt");
            reveal_strlit("json");
            reveal_strlit("trs");
        }
        match self {
            OutputType::Srt => "srt".to_owned(),
            OutputType::Json => "json".to_owned(),
            OutputType::Trs => "trs".to_owned(),
        }
    }
}

impl std::str::FromStr for OutputType {
    type Err = ();

    /// Reads a format from its name, as `OutputType::from_str` does.
    fn from_str(input: &str) -> (r: Result<OutputType, ()>)
        ensures
            r matches Ok(t) ==> output_type_named(input@) == Some(t),
            r is Err <==> output_type_named(input@) is None,
    {
        OutputType::from_str(input)
    }
}

/// Every format is read back from its name, and no two formats share a
/// name.
pub proof fn lemma_output_type_round_trip(t: OutputType, u: OutputType)
    ensures
        output_type_named(output_type_name(t)) == Some(t),
        output_type_name(t) == output_type_name(u) ==> t == u,
{
    assert(output_type_name(OutputType::Srt) != output_type_name(OutputType::Json)) by {
        assert(output_type_name(OutputType::Srt).len() != output_type_name(OutputType::Json).len());
    }
    assert(output_type_name(OutputType::Trs) != output_type_name(OutputType::Json)) by {
        assert(output_type_name(OutputType::Trs).len() != output_type_name(OutputType::Json).len());
    }
    assert(output_type_name(OutputType::Srt) != output_type_name(OutputType::Trs)) by {
        assert(output_type_name(OutputType::Srt)[0] != output_type_name(OutputType::Trs)[0]);
    }
}

/// A name that is read as a format is that format's name.
pub proof fn lemma_output_type_named_inverse(s: Seq<char>)
    ensures
        output_type_named(s) matches Some(t) ==> output_type_name(t) == s,
{
}

} // verus!
