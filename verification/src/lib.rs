//! A verified parser for the Hurl file format, with the completion
//! keywords of its language server.
pub mod types;
pub mod model;
pub mod base;
pub mod strings;
pub mod template;
pub mod primitives;
pub mod key_value;
pub mod oneline;
pub mod method;
pub mod http_status;
pub mod multiline;
pub mod json;
pub mod query;
pub mod predicate;
pub mod options;
pub mod body;
pub mod request_section;
pub mod response_section;
pub mod document;
pub mod completion;
pub mod diagnostics;
pub mod position;
