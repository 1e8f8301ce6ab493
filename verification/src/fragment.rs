//! The markup fragments the pipeline hands back to the documentation build.
//!
//! A present artifact becomes an image reference to the cached file. A
//! failed fetch becomes a self-contained script fragment that compresses
//! and encodes the diagram source in the browser and loads the image from
//! the public rendering endpoint — a degraded path that keeps the build
//! going, never an error.

use vstd::prelude::*;
use vstd::string::StringExecFns;

verus! {

/// The image-reference fragment for a cached artifact with this content key.
pub open spec fn success_fragment_of(key: Seq<char>) -> Seq<char> {
    "</p><img src = \"../images/puml_files/"@ + key + ".png\" />\n"@
}

/// Everything of the browser-side fallback that precedes the embedded
/// diagram source.
pub open spec fn fallback_prefix() -> Seq<char> {
    "<base href=\"https://www.plantuml.com\" />\n<img id = \"theimg\" />\n<script src=\"https://plantuml.com/synchro2.min.js\"></script>\n<script>\nfunction compress(s) {\n//UTF8\ns = unescape(encodeURIComponent(s));\nvar arr = [];\nfor (var i = 0; i < s.length; i++)\narr.push(s.charCodeAt(i));\nvar compressed = new Zopfli.RawDeflate(arr).compress();\ndocument.getElementById('theimg').src = \"//www.plantuml.com/plantuml/png/\" + encode64_(compressed);\n}\nlet result = (function() {/*\n"@
}

/// Everything of the browser-side fallback that follows the embedded
/// diagram source.
pub open spec fn fallback_suffix() -> Seq<char> {
    "*/}).toString().split('\\n').slice(1,-1).join('\\n');\nwindow.onload = compress(result);\n</script>\n"@
}

/// The whole browser-side fallback: the source text stands verbatim between
/// the fixed prefix and suffix.
pub open spec fn fallback_fragment_of(uml: Seq<char>) -> Seq<char> {
    fallback_prefix() + uml + fallback_suffix()
}

/// Builds the image-reference fragment for a content key.
pub fn success_fragment(key: &str) -> (r: String)
    ensures
        r@ == success_fragment_of(key@),
{
    let mut r = String::from_str("</p><img src = \"../images/puml_files/");
    r.append(key);
    r.append(".png\" />\n");
    proof {
        assert(r@ =~= success_fragment_of(key@));
    }
    r
}

/// Builds the browser-side fallback fragment, embedding the diagram source
/// verbatim as the script's literal payload.
pub fn fallback_fragment(uml: &str) -> (r: String)
    ensures
        r@ == fallback_fragment_of(uml@),
{
    let mut r = String::from_str(
        "<base href=\"https://www.plantuml.com\" />\n<img id = \"theimg\" />\n<script src=\"https://plantuml.com/synchro2.min.js\"></script>\n<script>\nfunction compress(s) {\n//UTF8\ns = unescape(encodeURIComponent(s));\nvar arr = [];\nfor (var i = 0; i < s.length; i++)\narr.push(s.charCodeAt(i));\nvar compressed = new Zopfli.RawDeflate(arr).compress();\ndocument.getElementById('theimg').src = \"//www.plantuml.com/plantuml/png/\" + encode64_(compressed);\n}\nlet result = (function() {/*\n",
    );
    r.append(uml);
    r.append(
        "*/}).toString().split('\\n').slice(1,-1).join('\\n');\nwindow.onload = compress(result);\n</script>\n",
    );
    proof {
        assert(r@ =~= fallback_fragment_of(uml@));
    }
    r
}

/// The fragment the pipeline returns for a diagram with the given content
/// key: the image reference when the artifact is on disk, else the
/// fallback. A failed fetch only ever selects the fallback branch; it never
/// escapes as an error.
pub fn render_fragment(uml: &str, key: &str, have_artifact: bool) -> (r: String)
    ensures
        have_artifact ==> r@ == success_fragment_of(key@),
        !have_artifact ==> r@ == fallback_fragment_of(uml@),
{
    if have_artifact {
        success_fragment(key)
    } else {
        fallback_fragment(uml)
    }
}

/// The fragment for a diagram source itself, given whether its cache
/// artifact stands on disk once the optional fetch is over. The artifact
/// reference is a function of the source alone: it names the source's own
/// content key.
pub fn pipeline_fragment(uml: &str, have_artifact: bool) -> (r: String)
    ensures
        have_artifact ==> r@ == success_fragment_of(crate::digest::sha1_hex_of(uml@)),
        !have_artifact ==> r@ == fallback_fragment_of(uml@),
{
    if have_artifact {
        let key = crate::cache::content_key(uml);
        success_fragment(key.as_str())
    } else {
        fallback_fragment(uml)
    }
}

/// A fallback fragment is never empty and embeds the diagram source
/// verbatim: the characters after the fixed prefix are exactly the source.
pub proof fn lemma_fallback_embeds_source(uml: Seq<char>)
    ensures
        fallback_fragment_of(uml).len() > uml.len(),
        fallback_fragment_of(uml).subrange(
            fallback_prefix().len() as int,
            fallback_prefix().len() + uml.len() as int,
        ) == uml,
{
    reveal_strlit(
        "<base href=\"https://www.plantuml.com\" />\n<img id = \"theimg\" />\n<script src=\"https://plantuml.com/synchro2.min.js\"></script>\n<script>\nfunction compress(s) {\n//UTF8\ns = unescape(encodeURIComponent(s));\nvar arr = [];\nfor (var i = 0; i < s.length; i++)\narr.push(s.charCodeAt(i));\nvar compressed = new Zopfli.RawDeflate(arr).compress();\ndocument.getElementById('theimg').src = \"//www.plantuml.com/plantuml/png/\" + encode64_(compressed);\n}\nlet result = (function() {/*\n",
    );
    assert(fallback_prefix().len() > 0);
    assert(fallback_fragment_of(uml).subrange(
        fallback_prefix().len() as int,
        fallback_prefix().len() + uml.len() as int,
    ) =~= uml);
}

/// Builds the image-reference fragment for an already-rendered image file.
pub fn image_fragment(img: &str) -> (r: String)
    ensures
        r@ == "</p><img src=\"../images/"@ + img@ + "\"/>"@,
{
    let mut r = String::from_str("</p><img src=\"../images/");
    r.append(img);
    r.append("\"/>");
    proof {
        assert(r@ =~= "</p><img src=\"../images/"@ + img@ + "\"/>"@);
    }
    r
}

} // verus!
