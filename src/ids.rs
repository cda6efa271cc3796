use vstd::prelude::*;

verus! {

/// A lower-case hexadecimal digit.
pub open spec fn is_lower_hex(c: char) -> bool {
    ('0' <= c && c <= '9') || ('a' <= c && c <= 'f')
}

/// The hyphenated lower-case text of a random (version 4, RFC 4122 variant)
/// UUID: 32 hex digits in groups of 8-4-4-4-12 joined by hyphens, the version
/// digit `4` first in the third group and `8`, `9`, `a` or `b` first in the
/// fourth.
pub open spec fn is_uuid_v4_text(s: Seq<char>) -> bool {
    &&& s.len() == 36
    &&& forall|i: int|
        0 <= i < 36 ==> if i == 8 || i == 13 || i == 18 || i == 23 {
            s[i] == '-'
        } else {
            is_lower_hex(#[trigger] s[i])
        }
    &&& s[14] == '4'
    &&& (s[19] == '8' || s[19] == '9' || s[19] == 'a' || s[19] == 'b')
}


/// Relies on uuid::Uuid::new_v4 and its `Display` impl: a random version-4
/// UUID (version and variant bits set, the rest random) written in the
/// hyphenated lower-case form. Nothing is promised of which value is drawn.
#[verifier::external_body]
pub(crate) fn new_random_id() -> (r: String)
    ensures
        is_uuid_v4_text(r@),
{
    uuid::Uuid::new_v4().to_string()
}

} // verus!
