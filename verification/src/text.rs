//! Turning captured bytes into text, and small helpers for building messages.

use vstd::prelude::*;
use vstd::utf8::{decode_utf8, valid_utf8};

verus! {

/// The text that lossy UTF-8 decoding makes of `bytes`: every well-formed
/// sequence becomes its character, every ill-formed one the replacement
/// character U+FFFD. How ill-formed input is cut into such sequences is the
/// standard library's business and is not spelled out here.
pub uninterp spec fn lossy_text(bytes: Seq<u8>) -> Seq<char>;

/// Decodes captured output with `String::from_utf8_lossy`, which never fails.
///
/// Trusted, not proved: the result is the lossy decoding of the bytes, a
/// function of the bytes alone, and where the bytes are well-formed UTF-8 it is
/// their exact decoding.
#[verifier::external_body]
pub(crate) fn decode_lossy(bytes: &[u8]) -> (text: String)
    ensures
        text@ == lossy_text(bytes@),
        valid_utf8(bytes@) ==> text@ == decode_utf8(bytes@),
{
    String::from_utf8_lossy(bytes).into_owned()
}

/// `head` followed by `tail`.
pub fn joined(head: &str, tail: &str) -> (text: String)
    ensures
        text@ == head@ + tail@,
{
    String::from_str(head).concat(tail)
}

} // verus!
