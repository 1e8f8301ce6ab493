//! Compression of diagram source text ahead of URL encoding.

use vstd::prelude::*;

verus! {

/// The compressed form that the deflate algorithm assigns to a text at the
/// default compression level: a fixed function of the characters alone.
pub uninterp spec fn deflate_of(t: Seq<char>) -> Seq<u8>;

/// Relies on deflate's `deflate_bytes`: a raw deflate stream computed from
/// the input bytes alone, at the crate's default compression level.
#[verifier::external_body]
pub(crate) fn deflate_text(t: &str) -> (r: Vec<u8>)
    ensures
        r@ == deflate_of(t@),
{
    deflate::deflate_bytes(t.as_bytes())
}

} // verus!
