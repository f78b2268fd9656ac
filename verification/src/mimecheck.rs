//! Syntactic validation of an explicit content-type literal: it must parse
//! as a MIME type and carry no parameters, since the emitted dispatch code
//! matches on the type/subtype essence only.

use vstd::prelude::*;

verus! {

/// Whether a string parses as a MIME type that carries no parameters.
/// The parse is a function of the characters alone; this name stands for
/// its outcome.
pub uninterp spec fn mime_essence_ok(s: Seq<char>) -> bool;

/// Relies on `mime::Mime::from_str` and `mime::Mime::params`: whether the
/// string parses as a MIME type, and whether the parsed value carries any
/// parameters, depend on the string's characters alone.
#[verifier::external_body]
pub(crate) fn is_mime_essence(s: &str) -> (r: bool)
    ensures
        r == mime_essence_ok(s@),
{
    match <mime::Mime as std::str::FromStr>::from_str(s) {
        Ok(m) => m.params().next().is_none(),
        Err(_) => false,
    }
}

} // verus!
