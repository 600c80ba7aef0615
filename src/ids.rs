use vstd::prelude::*;

verus! {

/// The id that `uuid::Uuid::parse_str` reads from a text, as a 128-bit value,
/// or `None` where the text is no UUID.
pub uninterp spec fn uuid_parse(s: Seq<char>) -> Option<u128>;

/// Relies on uuid::Uuid::parse_str (with Uuid::as_u128 to read the value):
/// the result depends on the text alone.
#[verifier::external_body]
pub(crate) fn parse_user_id(s: &str) -> (r: Option<u128>)
    ensures
        r == uuid_parse(s@),
{
    uuid::Uuid::parse_str(s).ok().map(|u| u.as_u128())
}

/// Relies on uuid::Uuid::new_v4 (with Uuid::as_u128): a random id; only its
/// version (4) and variant (RFC 4122) bits are fixed.
#[verifier::external_body]
pub(crate) fn fresh_user_id() -> (r: u128)
    ensures
        (r >> 76u128) & 0xfu128 == 4u128,
        (r >> 62u128) & 0x3u128 == 2u128,
{
    uuid::Uuid::new_v4().as_u128()
}

} // verus!
