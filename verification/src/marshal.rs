//! Text marshaling across the engine boundary.
//!
//! The engine speaks in nul-terminated UTF-16 buffers.  Outbound text is
//! encoded once and handed over; inbound buffers are decoded immediately
//! into owned strings, because the engine's own copy only lives until the
//! next query or reset.  The two conversions are the crate's only calls
//! into an outside crate; what they compute is named by [`utf16_of`] and
//! everything built on top of them is verified against that name.

use vstd::prelude::*;

verus! {

/// Whether a text is free of interior nul characters, as a C-style string
/// must be.
pub open spec fn no_nul(s: Seq<char>) -> bool {
    forall|i: int| 0 <= i < s.len() ==> s[i] != '\0'
}

/// The UTF-16 encoding of a text, without a terminator.
pub uninterp spec fn utf16_of(s: Seq<char>) -> Seq<u16>;

/// Relies on `widestring::U16CString::from_str`: encodes the text as UTF-16
/// and fails only on interior nul characters, which the caller excludes.
/// UTF-16 yields one or two units per character, an empty text encodes to an
/// empty buffer, and only the character nul encodes a zero unit, so a
/// nul-free text yields a nul-free buffer.
#[verifier::external_body]
pub(crate) fn encode_wide(s: &str) -> (r: Vec<u16>)
    requires
        no_nul(s@),
    ensures
        r@ == utf16_of(s@),
        s@.len() <= r@.len() <= 2 * s@.len(),
        forall|i: int| 0 <= i < r@.len() ==> r@[i] != 0u16,
{
    widestring::U16CString::from_str(s).expect("the nul value only in the end").into_vec()
}

/// Relies on `widestring::U16CStr::from_slice` and `to_string_lossy`: reads
/// a nul-terminated UTF-16 buffer back into owned text.  A buffer that is
/// exactly the encoding of a nul-free text followed by the terminator
/// decodes to that text; a truncated buffer decodes to a replacement, and a
/// buffer without a terminator to an empty text.
#[verifier::external_body]
pub(crate) fn decode_wide(buf: &[u16]) -> (r: String)
    ensures
        forall|s: Seq<char>| no_nul(s) && buf@ == utf16_of(s).push(0u16) ==> r@ == s,
{
    match widestring::U16CStr::from_slice(buf) {
        Ok(c) => c.to_string_lossy(),
        Err(_) => String::new(),
    }
}

} // verus!
