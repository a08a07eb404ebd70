//! Identifiers of recognition jobs.

use vstd::prelude::*;

verus! {

/// A lowercase hexadecimal digit.
pub open spec fn is_lower_hex(c: char) -> bool {
    ('0' <= c && c <= '9') || ('a' <= c && c <= 'f')
}

/// The text of a random (version 4) UUID in hyphenated lowercase form,
/// such as `67e55044-10b1-426f-9247-bb680e5fe0c8`.
pub open spec fn is_uuid_v4_text(s: Seq<char>) -> bool {
    &&& s.len() == 36
    &&& forall|i: int|
        0 <= i < 36 ==> if i == 8 || i == 13 || i == 18 || i == 23 {
            #[trigger] s[i] == '-'
        } else {
            is_lower_hex(s[i])
        }
    &&& s[14] == '4'
    &&& (s[19] == '8' || s[19] == '9' || s[19] == 'a' || s[19] == 'b')
}

/// A fresh job id.
///
/// Trusted: `uuid::Uuid::new_v4` written with `to_string`. The value is
/// random; what holds of every outcome is that the crate sets the version
/// digit to 4 and the variant bits to `10`, and writes the 16 bytes as
/// lowercase hexadecimal in groups of 8, 4, 4, 4 and 12 digits joined by
/// hyphens.
#[verifier::external_body]
pub(crate) fn new_job_id() -> (id: String)
    ensures
        is_uuid_v4_text(id@),
{
    uuid::Uuid::new_v4().to_string()
}

/// A job id holds neither a path separator nor a space, so a file named
/// after it stays in its directory and it stays one word of a command.
pub proof fn lemma_job_id_is_one_plain_word(id: Seq<char>)
    requires
        is_uuid_v4_text(id),
    ensures
        !id.contains('/'),
        !id.contains(' '),
        !id.contains('.'),
{
    assert forall|i: int| 0 <= i < id.len() implies id[i] != '/' && id[i] != ' ' && id[i] != '.' by {
        assert(id[i] == '-' || is_lower_hex(id[i]));
    }
}

} // verus!
