//! The ways in which rendering can fail.

use vstd::prelude::*;

verus! {

/// Why a text or a document could not be rendered. Rendering stops at the
/// first failure: there is no partial output.
#[derive(Debug, Copy, Clone, PartialEq, Eq, Structural)]
pub enum RenderError {
    /// The pattern engine did not accept the pattern of a substitution pass.
    PatternRejected,
    /// The digits after a `#` do not write a number that fits the machine word.
    PullRequestId,
    /// A matched admonition does not start with a known keyword and a colon.
    UnknownAdmonition,
    /// A release refers to a dependency repository that the registry of the
    /// document does not hold.
    UnknownRepository,
}

/// The text of a rendering result, or its error.
pub open spec fn text_of(result: Result<String, RenderError>) -> Result<Seq<char>, RenderError> {
    match result {
        Ok(text) => Ok(text@),
        Err(e) => Err(e),
    }
}

/// The texts of a sequence of lines.
pub open spec fn texts(lines: Seq<String>) -> Seq<Seq<char>> {
    lines.map_values(|line: String| line@)
}

/// The lines of a rendering result, or its error.
pub open spec fn lines_of(result: Result<Vec<String>, RenderError>) -> Result<
    Seq<Seq<char>>,
    RenderError,
> {
    match result {
        Ok(lines) => Ok(texts(lines@)),
        Err(e) => Err(e),
    }
}

} // verus!
