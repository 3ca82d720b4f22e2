//! Renders a structured changelog into GitHub-flavoured Markdown or AsciiDoc.
//!
//! A [`model::Document`] is walked release by release. Every free text in it
//! (notices and entries) goes through the inline substitutions of
//! [`substitution`], which ask the active formatter for the markup of each
//! admonition, pull-request reference, commit hash and mention they find. The
//! result is the sequence of output lines, in order.
//!
//! What a document renders to is stated in [`outline`]: first the lines of
//! the document before any markup, then the text that a formatter makes of
//! each. [`render`] computes it, and [`laws`] holds what follows for every
//! document and every formatter.

pub mod category;
pub mod emoji;
pub mod error;
pub mod formatter;
pub mod formatters;
pub mod laws;
pub mod model;
pub mod outline;
pub mod pattern;
pub mod render;
pub mod substitution;
pub mod text;

pub use category::CategoryType;
