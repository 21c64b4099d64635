//! Client-side logic for a remote web-crawling service: typed request
//! parameters flattened into JSON-like payloads, request plans with the
//! required headers, a retry policy for transient failures, content-type
//! driven response decoding, and an incremental line splitter for streamed
//! crawl results.

pub mod client;
pub mod decode;
pub mod encode;
pub mod json;
pub mod lines;
pub mod request;
pub mod response;
pub mod retry;
pub mod stream;
pub mod text;
