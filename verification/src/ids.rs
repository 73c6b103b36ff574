use vstd::prelude::*;

verus! {

/// The 128-bit value a textual UUID denotes, or `None` where the text is no
/// UUID. Names what `uuid::Uuid::parse_str` computes; the result depends on
/// the characters alone.
pub uninterp spec fn uuid_parse(s: Seq<char>) -> Option<u128>;

/// The canonical hyphenated text of a 128-bit UUID value. Names what
/// formatting a `uuid::Uuid` produces; the result depends on the value alone.
pub uninterp spec fn uuid_format(v: u128) -> Seq<char>;

/// Relies on `uuid::Uuid::parse_str`: it accepts the textual UUID forms and
/// yields the big-endian 128-bit value, or an error for any other text.
#[verifier::external_body]
pub(crate) fn parse_uuid(s: &str) -> (r: Option<u128>)
    ensures
        r == uuid_parse(s@),
{
    match uuid::Uuid::parse_str(s) {
        Ok(u) => Some(u.as_u128()),
        Err(_) => None,
    }
}

/// Relies on `uuid::Uuid`'s `Display`: it prints the hyphenated form of the
/// value, which `uuid::Uuid::parse_str` maps back to the same value.
#[verifier::external_body]
pub(crate) fn format_uuid(v: u128) -> (r: String)
    ensures
        r@ == uuid_format(v),
        uuid_parse(r@) == Some(v),
{
    uuid::Uuid::from_u128(v).to_string()
}

} // verus!
