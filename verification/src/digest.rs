//! Content hashing of diagram source text.

use vstd::prelude::*;

verus! {

/// The hexadecimal digest that the hasher assigns to a text: a fixed
/// function of the characters alone, the same in every run.
pub uninterp spec fn sha1_hex_of(t: Seq<char>) -> Seq<char>;

/// Relies on crypto's Sha1 through its Digest trait: `input_str` feeds the
/// text and `result_str` returns the 160-bit digest as 40 hexadecimal
/// characters, determined by the input text alone.
#[verifier::external_body]
pub(crate) fn sha1_hex(t: &str) -> (r: String)
    ensures
        r@ == sha1_hex_of(t@),
        r@.len() == 40,
{
    let mut hasher = crypto::sha1::Sha1::new();
    crypto::digest::Digest::input_str(&mut hasher, t);
    crypto::digest::Digest::result_str(&mut hasher)
}

/// Hashing is deterministic: two texts that are equal character for
/// character receive the identical digest.
pub proof fn lemma_hash_deterministic(t1: Seq<char>, t2: Seq<char>)
    requires
        t1 == t2,
    ensures
        sha1_hex_of(t1) == sha1_hex_of(t2),
{
}

} // verus!
