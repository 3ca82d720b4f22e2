//! The two target markups.

pub mod ascii_doc;
pub mod markdown_github;
