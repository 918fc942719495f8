//! A small client library for a remote lyrics service.
//!
//! The service is queried over HTTP with a free-text identifier and answers
//! with a JSON document holding timed lyric lines; this crate decodes that
//! document and folds the lines into one newline-separated text.

pub mod client;
pub mod decode;
pub mod error;
pub mod http;
pub mod json;
pub mod lyrics;
pub mod url;

pub use client::LyricClient;
pub use client::transport_failure;
pub use decode::decode_document;
pub use decode::decode_lyric;
pub use decode::decode_node;
pub use decode::document_shape;
pub use decode::node_lyric;
pub use json::JsonNode;
pub use json::body_node;
pub use error::LyricError;
pub use lyrics::Line;
pub use lyrics::LyricResult;
pub use lyrics::Lyrics;
pub use lyrics::LyricsEntity;
pub use lyrics::joined;
pub use lyrics::join_lines;
pub use lyrics::lyric_of;
pub use url::lyric_url;
pub use url::path_segment;
