//! Extraction of typed values from an HTTP request's URL query string.
//!
//! The raw query component of a request URI is percent-decoded (an absent
//! component, or one whose decoding fails, counts as an empty query) and
//! then deserialized into a caller-chosen type under the extended
//! query-string convention (repeated keys, bracket notation for nested
//! objects and arrays). The result is wrapped in the transparent container
//! [`Query`]; a deserialization failure becomes a [`QueryRejection`], which
//! is reported with HTTP status 400.

mod decode;
mod query;
mod rejection;

pub use decode::decoded_query;
pub use decode::decoded_query_spec;
pub use decode::lemma_absent_query_is_empty;
pub use decode::lemma_decode_failure_is_empty;
pub use decode::url_decoded;
pub use query::Query;
pub use query::lemma_wrapper_transparent;
pub use query::query_from_parse_result;
pub use rejection::QueryRejection;
