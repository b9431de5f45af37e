use vstd::prelude::*;
use crate::model::opt_view;

verus! {

pub open spec fn is_lower_hex_digit(c: char) -> bool {
    ('0' <= c && c <= '9') || ('a' <= c && c <= 'f')
}

pub open spec fn is_hyphen_position(i: int) -> bool {
    i == 8 || i == 13 || i == 18 || i == 23
}

/// The canonical text of an identifier: 32 lowercase hex digits in groups of
/// 8, 4, 4, 4 and 12, joined by hyphens.
pub open spec fn is_canonical_uuid(s: Seq<char>) -> bool {
    &&& s.len() == 36
    &&& forall|i: int|
        0 <= i < 36 ==> if is_hyphen_position(i) {
            s[i] == '-'
        } else {
            is_lower_hex_digit(#[trigger] s[i])
        }
}

/// The canonical text of the identifier that a text parses to, if it parses.
pub uninterp spec fn uuid_text_of(s: Seq<char>) -> Option<Seq<char>>;

/// Relies on `uuid::Uuid::new_v4` for a fresh random identifier, and on the
/// `Display` of `uuid::Uuid`, which writes the lowercase hyphenated form.
#[verifier::external_body]
pub(crate) fn new_v4_text() -> (r: String)
    ensures
        is_canonical_uuid(r@),
{
    uuid::Uuid::new_v4().to_string()
}

/// Relies on `uuid::Uuid::parse_str`, which takes the simple, hyphenated,
/// braced and URN forms in either case, and on the `Display` of `uuid::Uuid`,
/// which writes the lowercase hyphenated form back.
#[verifier::external_body]
pub(crate) fn parse_uuid_text(s: &str) -> (r: Option<String>)
    ensures
        opt_view(r) == uuid_text_of(s@),
        r.is_some() ==> is_canonical_uuid(r.unwrap()@),
        is_canonical_uuid(s@) ==> opt_view(r) == Some(s@),
{
    uuid::Uuid::parse_str(s).ok().map(|u| u.to_string())
}

} // verus!
