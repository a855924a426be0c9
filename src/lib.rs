//! A fluent builder for outbound HTTP requests over a shared, TLS-capable
//! client, with JSON bodies and JSON responses.
//!
//! The builder's state (method, target, headers, body) is plain data whose
//! every change is stated over a mathematical view; parsing a target, encoding
//! and decoding JSON and the network transport are done by outside crates.

mod builder;
mod error;
mod header_list;
mod json;
mod target;

pub use builder::{content_type_name, json_content_type_entry, json_media_type, unset_target, HttpClient, HttpClientExt, RequestBuilder, RequestView};
pub use error::RequestError;
pub use header_list::{canonical_name, is_canonical_name, entries_of, lemma_distinct_names_kept, lemma_last_write_wins, has_name, header_insert, holds, insert_values, names_unique, HeaderEntry, HeaderField};
pub use json::{body_outcome, decode_json_body, decode_json_text, json_accepts, outcome_of, text_outcome};
pub use target::{absolute_of, absolute_parts, absolute_uri, parts_view, parse_absolute_uri, uri_parse, UriParts, UriView};
