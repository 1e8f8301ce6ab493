//! The decisions of the fetch path: request URL construction, the
//! cache-or-fetch choice, and the overwrite guard of the download client.
//!
//! The network activity itself is I/O and stays with the caller; everything
//! decided here is a pure function of the diagram source and of what the
//! caller observed on disk.

use crate::compress::deflate_of;
use crate::compress::deflate_text;
use crate::encode::encode64_;
use crate::encode::encode64_spec;
use vstd::prelude::*;
use vstd::string::StringExecFns;

verus! {

/// The request URL for a diagram source: the fixed rendering endpoint
/// followed by the compressed, sextet-encoded source.
pub open spec fn url_of(t: Seq<char>) -> Seq<char> {
    "http://www.plantuml.com/plantuml/png/"@ + encode64_spec(deflate_of(t))
}

/// Compresses a diagram source and encodes the compressed bytes into the
/// URL payload.
pub fn encoded_source(uml: &str) -> (r: String)
    ensures
        r@ == encode64_spec(deflate_of(uml@)),
{
    let compressed = deflate_text(uml);
    encode64_(compressed.as_slice())
}

/// Builds the full rendering-service request URL for a diagram source.
pub fn render_url(uml: &str) -> (r: String)
    ensures
        r@ == url_of(uml@),
{
    let mut r = String::from_str("http://www.plantuml.com/plantuml/png/");
    let payload = encoded_source(uml);
    r.append(payload.as_str());
    r
}

/// What the pipeline does once the cache has been consulted.
pub enum FetchAction {
    /// The artifact is already cached; nothing is fetched.
    UseCache,
    /// The artifact is missing; fetch it over the carried request URL.
    Fetch { url: String },
}

/// Decides the next step from the cache lookup. A pre-existing artifact is
/// reused exactly as it stands — a hit never leads to network activity —
/// and only a miss yields a fetch, over the URL derived from the source.
pub fn plan_fetch(uml: &str, cached: bool) -> (a: FetchAction)
    ensures
        cached <==> a is UseCache,
        !cached ==> a is Fetch && a->url@ == url_of(uml@),
{
    if cached {
        FetchAction::UseCache
    } else {
        FetchAction::Fetch { url: render_url(uml) }
    }
}

/// The overwrite guard of the download client: a download may only begin
/// where no file stands at the destination. A pre-existing destination
/// aborts with a descriptive message, and the caller leaves it untouched.
pub fn output_guard(dest: &str, dest_exists: bool) -> (r: Result<(), String>)
    ensures
        dest_exists <==> r is Err,
        (r matches Err(m) ==> m@ == "output file "@ + dest@ + " already exists, aborting..."@),
{
    if dest_exists {
        let mut m = String::from_str("output file ");
        m.append(dest);
        m.append(" already exists, aborting...");
        proof {
            assert(m@ =~= "output file "@ + dest@ + " already exists, aborting..."@);
        }
        Err(m)
    } else {
        Ok(())
    }
}

} // verus!
