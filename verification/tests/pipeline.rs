use plantuml_doc::cache::cache_path;
use plantuml_doc::cache::content_key;
use plantuml_doc::fetch::encoded_source;
use plantuml_doc::fetch::output_guard;
use plantuml_doc::fetch::plan_fetch;
use plantuml_doc::fetch::render_url;
use plantuml_doc::fetch::FetchAction;
use plantuml_doc::fragment::fallback_fragment;
use plantuml_doc::fragment::image_fragment;
use plantuml_doc::fragment::pipeline_fragment;
use plantuml_doc::fragment::render_fragment;
use plantuml_doc::fragment::success_fragment;

const EXAMPLE: &str = "@startuml\nA->B\n@enduml";

#[test]
fn hash_is_deterministic() {
    assert_eq!(content_key(EXAMPLE), content_key(EXAMPLE));
}

#[test]
fn hash_known_values() {
    assert_eq!(content_key(""), "da39a3ee5e6b4b0d3255bfef95601890afd80709");
    assert_eq!(content_key("abc"), "a9993e364706816aba3e25717850c26c9cd0d89d");
}

#[test]
fn hash_changes_with_content() {
    assert_ne!(content_key(EXAMPLE), content_key("@startuml\nA->C\n@enduml"));
}

#[test]
fn hash_is_forty_hex_chars() {
    let key = content_key("x");
    assert_eq!(key.len(), 40);
    assert!(key.chars().all(|c| c.is_ascii_hexdigit()));
}

#[test]
fn cache_path_layout() {
    assert_eq!(cache_path("", "H"), "images/puml_files/H.png");
    assert_eq!(
        cache_path("./target/doc/", "H"),
        "./target/doc/images/puml_files/H.png"
    );
}

#[test]
fn cache_hit_fetches_nothing() {
    assert!(matches!(plan_fetch(EXAMPLE, true), FetchAction::UseCache));
}

#[test]
fn cache_miss_fetches_the_request_url() {
    match plan_fetch(EXAMPLE, false) {
        FetchAction::Fetch { url } => assert_eq!(url, render_url(EXAMPLE)),
        FetchAction::UseCache => panic!("a cache miss must lead to a fetch"),
    }
}

#[test]
fn pipeline_is_idempotent() {
    let key_first = content_key(EXAMPLE);
    let path_first = cache_path("./target/doc/", &key_first);
    let reference_first = render_fragment(EXAMPLE, &key_first, true);

    let key_second = content_key(EXAMPLE);
    let path_second = cache_path("./target/doc/", &key_second);
    let reference_second = render_fragment(EXAMPLE, &key_second, true);

    assert_eq!(key_first, key_second);
    assert_eq!(path_first, path_second);
    assert_eq!(reference_first, reference_second);
    assert!(matches!(plan_fetch(EXAMPLE, true), FetchAction::UseCache));
}

#[test]
fn failed_fetch_yields_fallback_with_source_verbatim() {
    let key = content_key(EXAMPLE);
    let fragment = render_fragment(EXAMPLE, &key, false);
    assert!(!fragment.is_empty());
    assert!(fragment.contains(EXAMPLE));
    assert_eq!(fragment, fallback_fragment(EXAMPLE));
    assert!(fragment.starts_with("<base href=\"https://www.plantuml.com\" />\n"));
    assert!(fragment.contains("function compress(s) {"));
    assert!(fragment.ends_with("</script>\n"));
}

#[test]
fn output_guard_blocks_existing_destination() {
    assert!(matches!(output_guard("out.png", false), Ok(())));
    match output_guard("out.png", true) {
        Err(message) => assert_eq!(message, "output file out.png already exists, aborting..."),
        Ok(()) => panic!("the guard must refuse an existing destination"),
    }
}

#[test]
fn end_to_end_example() {
    let key = content_key(EXAMPLE);
    assert_eq!(
        cache_path("", &key),
        format!("images/puml_files/{}.png", key)
    );

    let url = render_url(EXAMPLE);
    let base = "http://www.plantuml.com/plantuml/png/";
    assert!(url.starts_with(base));
    let payload = &url[base.len()..];
    assert_eq!(payload, encoded_source(EXAMPLE));
    assert!(!payload.is_empty());
    assert_eq!(payload.len() % 4, 0);
    assert!(payload
        .bytes()
        .all(|b| b.is_ascii_alphanumeric() || b == b'-' || b == b'_'));

    let fragment = render_fragment(EXAMPLE, &key, true);
    assert_eq!(
        fragment,
        format!("</p><img src = \"../images/puml_files/{}.png\" />\n", key)
    );
    assert_eq!(pipeline_fragment(EXAMPLE, true), fragment);
    assert_eq!(pipeline_fragment(EXAMPLE, false), fallback_fragment(EXAMPLE));
}

#[test]
fn compression_shrinks_repetitive_source() {
    let source = "a".repeat(300);
    let payload = encoded_source(&source);
    assert!(!payload.is_empty());
    assert!(payload.len() < 400);
}

#[test]
fn reference_fragments_are_exact() {
    assert_eq!(
        success_fragment("H"),
        "</p><img src = \"../images/puml_files/H.png\" />\n"
    );
    assert_eq!(
        image_fragment("pic.svg"),
        "</p><img src=\"../images/pic.svg\"/>"
    );
}
