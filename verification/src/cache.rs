//! Content-addressed cache lookup: key derivation and artifact paths.
//!
//! The content key of a diagram is the digest of its source text; the cache
//! artifact lives at a path derived from that key alone. Existence of the
//! artifact is the sole invalidation signal: identical source always leads
//! back to the identical path, and a present artifact is reused as it
//! stands.

use crate::digest::sha1_hex;
use crate::digest::sha1_hex_of;
use vstd::prelude::*;
use vstd::string::StringExecFns;

verus! {

/// The artifact path for a content key: the documentation output root, the
/// fixed image subdirectory, the key, and the fixed image extension.
pub open spec fn cache_path_of(root: Seq<char>, key: Seq<char>) -> Seq<char> {
    root + "images/puml_files/"@ + key + ".png"@
}

/// Derives the content key of a diagram source: its hexadecimal digest,
/// always 40 characters, for empty text as well.
pub fn content_key(uml: &str) -> (r: String)
    ensures
        r@ == sha1_hex_of(uml@),
        r@.len() == 40,
{
    sha1_hex(uml)
}

/// Builds the cache artifact path for a content key under the given
/// documentation output root. A pure derivation, no I/O.
pub fn cache_path(root: &str, key: &str) -> (r: String)
    ensures
        r@ == cache_path_of(root@, key@),
{
    let mut r = String::from_str(root);
    r.append("images/puml_files/");
    r.append(key);
    r.append(".png");
    proof {
        assert(r@ =~= cache_path_of(root@, key@));
    }
    r
}

/// Cache idempotence: a second pass over the same diagram source derives
/// the same content key and targets the same artifact path.
pub proof fn lemma_cache_idempotent(t1: Seq<char>, t2: Seq<char>, root: Seq<char>)
    requires
        t1 == t2,
    ensures
        sha1_hex_of(t1) == sha1_hex_of(t2),
        cache_path_of(root, sha1_hex_of(t1)) == cache_path_of(root, sha1_hex_of(t2)),
{
}

} // verus!
