use vstd::prelude::*;
use vstd::utf8::{decode_utf8, valid_utf8};

verus! {

/// Why a call at the host boundary failed.
#[derive(Clone, Copy, Debug, PartialEq, Eq, Structural)]
pub enum NetplayError {
    /// A text parameter is not valid UTF-8.
    InvalidUtf8,
    /// The session address is empty.
    EmptyAddress,
    /// A peer identifier is not a well-formed UUID.
    MalformedPeerId,
}

/// What `uuid::Uuid::parse_str` makes of a text: the identifier's 128 bits, or
/// nothing where the text is not a well-formed identifier.
pub uninterp spec fn uuid_parse(s: Seq<char>) -> Option<u128>;

/// What `String::from_utf8_lossy` makes of a byte sequence.
pub uninterp spec fn lossy_text(b: Seq<u8>) -> Seq<char>;

/// Relies on `uuid::Uuid::parse_str`: the identifier written in `s`, as its
/// 128-bit value, or `None` where `s` is not well-formed.
#[verifier::external_body]
pub(crate) fn parse_uuid(s: &str) -> (r: Option<u128>)
    ensures
        r == uuid_parse(s@),
{
    match uuid::Uuid::parse_str(s) {
        Ok(u) => Some(u.as_u128()),
        Err(_) => None,
    }
}

/// Relies on `String::from_utf8_lossy`: decodes `b`, replacing each invalid
/// sequence by U+FFFD; valid UTF-8 comes back as it is.
#[verifier::external_body]
pub(crate) fn decode_lossy(b: &[u8]) -> (r: String)
    ensures
        r@ == lossy_text(b@),
        valid_utf8(b@) ==> r@ == decode_utf8(b@),
{
    String::from_utf8_lossy(b).into_owned()
}

/// Relies on `String::from_utf8`: the text encoded by `b`, or `None` where
/// `b` is not valid UTF-8.
#[verifier::external_body]
pub(crate) fn decode_strict(b: Vec<u8>) -> (r: Option<String>)
    ensures
        r is Some <==> valid_utf8(b@),
        r matches Some(s) ==> s@ == decode_utf8(b@),
{
    match String::from_utf8(b) {
        Ok(s) => Some(s),
        Err(_) => None,
    }
}

/// A text parameter from the host: its bytes must be valid UTF-8.
pub fn text_from_bytes(b: Vec<u8>) -> (r: Result<String, NetplayError>)
    ensures
        r is Ok <==> valid_utf8(b@),
        r matches Ok(s) ==> s@ == decode_utf8(b@),
        r matches Err(e) ==> e == NetplayError::InvalidUtf8,
{
    match decode_strict(b) {
        Some(s) => Ok(s),
        None => Err(NetplayError::InvalidUtf8),
    }
}

/// The address of a session to start: valid UTF-8 and not empty.
pub fn session_address(b: Vec<u8>) -> (r: Result<String, NetplayError>)
    ensures
        !valid_utf8(b@) ==> r matches Err(NetplayError::InvalidUtf8),
        valid_utf8(b@) && b@.len() == 0 ==> r matches Err(NetplayError::EmptyAddress),
        valid_utf8(b@) && b@.len() > 0 ==> (r matches Ok(s) && s@ == decode_utf8(b@)),
{
    if b.len() == 0 {
        return if decode_strict(b).is_some() {
            Err(NetplayError::EmptyAddress)
        } else {
            Err(NetplayError::InvalidUtf8)
        };
    }
    text_from_bytes(b)
}

} // verus!
