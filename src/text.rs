//! Bounded text fields, and the outside calls that produce them.
use vstd::prelude::*;
use vstd::string::StringSliceAdditionalSpecFns;
use vstd::utf8::{decode_utf8, valid_utf8};

verus! {

/// Most bytes that a text field holds: its length prefix is one byte.
pub const TEXT_CAPACITY: usize = 255;

#[verifier::external_type_specification]
#[verifier::external_body]
pub struct ExBoundedString<const N: usize>(heapless::String<N>);

/// The characters that a bounded text field holds.
pub uninterp spec fn text_of(s: heapless::String<255>) -> Seq<char>;

/// Relies on core::str::from_utf8: it accepts exactly the byte sequences that
/// are valid UTF-8, and then views those same bytes as text.
#[verifier::external_body]
fn utf8_str(b: &[u8]) -> (r: Option<&str>)
    ensures
        r is Some <==> valid_utf8(b@),
        r matches Some(s) ==> s@ == decode_utf8(b@) && s.spec_bytes() == b@,
{
    core::str::from_utf8(b).ok()
}

/// Relies on heapless::String::try_from(&str): it copies the text when its
/// UTF-8 form fits in the capacity, and fails otherwise.
#[verifier::external_body]
fn bounded_copy(s: &str) -> (r: Option<heapless::String<255>>)
    ensures
        r is Some <==> s.spec_bytes().len() <= 255,
        r matches Some(t) ==> text_of(t) == s@,
{
    heapless::String::<255>::try_from(s).ok()
}

/// Decodes a field of at most [`TEXT_CAPACITY`] bytes as UTF-8 text; bytes
/// that are not valid UTF-8 are an [`crate::Error::Unknown`].
pub fn text_field(b: &[u8]) -> (r: Result<heapless::String<255>, crate::Error>)
    requires
        b@.len() <= TEXT_CAPACITY,
    ensures
        r is Ok <==> valid_utf8(b@),
        r matches Ok(t) ==> text_of(t) == decode_utf8(b@),
        r matches Err(e) ==> e == crate::Error::Unknown,
{
    match utf8_str(b) {
        Some(s) => match bounded_copy(s) {
            Some(t) => Ok(t),
            None => Err(crate::Error::Unknown),
        },
        None => Err(crate::Error::Unknown),
    }
}

} // verus!
