//! A minimal language-server backend: it tracks the text of the single
//! currently open document and answers code-action requests by proposing a
//! no-op edit that replaces the requested range with its own extracted text.
//!
//! The verified core is the position mapper, which turns a (line, character)
//! range into a slice of the document counted in Unicode scalar values.

pub mod handler;
pub mod mapper;
pub mod store;
