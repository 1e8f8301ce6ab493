//! Content-addressed caching and URL construction for a remote diagram
//! rendering service.
//!
//! Diagram markup is hashed to a stable content key; the key names a cache
//! artifact on disk. On a cache miss the markup is compressed and encoded
//! with a URL-safe sextet alphabet to form a request URL, and the rendered
//! image is fetched over that URL. When the fetch fails, a self-contained
//! fallback fragment defers rendering to a browser-side script.

pub mod cache;
pub mod compress;
pub mod digest;
pub mod encode;
pub mod fetch;
pub mod fragment;
