//! The inline substitutions: shorthand in a free text is rewritten into the
//! markup of the target, and everything else is copied as it stands.
//!
//! A pass finds the matches of one pattern, from left to right and without
//! overlap, and puts the markup of each in its place. A line of a change goes
//! through three passes (mentions, commit hashes, pull-request references), a
//! notice through two (admonitions, mentions); each pass reads what the pass
//! before it wrote.

use vstd::prelude::*;
use vstd::string::*;
use vstd::utf8::*;
use crate::error::{text_of, RenderError};
use crate::formatter::{AdmonitionFormatter, AdmonitionType, LinkFormatter};
use crate::pattern::{find_spans, pattern_spans, spans_fit};
use crate::text::{
    decimal_digits,
    decimal_text,
    drop_first_char,
    on_boundary,
    parse_decimal,
    parsed_decimal,
    position_of,
    same_text,
    slice_between,
    split_at_first,
    text_between,
    without_first,
};

verus! {

/// Where every link into GitHub starts.
pub const GITHUB_URL_PREFIX: &'static str = "https://github.com/";

/// An admonition: one of five keywords, a colon, one white space, and the
/// rest of the line.
pub const ADMONITION_PATTERN: &'static str = r"(WARNING|TIP|NOTE|IMPORTANT|CAUTION):\s.*";

/// A pull-request reference: `#` and one digit or more.
pub const PULL_REQUEST_PATTERN: &'static str = r"#[0-9]+";

/// A commit hash reference: `$` and one lower-case hexadecimal digit or more.
pub const COMMIT_HASH_PATTERN: &'static str = r"\$[a-f0-9]+";

/// A mention: `@` and one word character or hyphen or more.
pub const MENTION_PATTERN: &'static str = r"@[\w-]+";

/// What one pass puts in the place of a match.
pub trait Replacement {
    /// The markup that replaces `matched`, or why there is none.
    spec fn replaced(&self, matched: Seq<char>) -> Result<Seq<char>, RenderError>;

    /// Writes the markup that replaces `matched`.
    fn replace(&self, matched: &str) -> (markup: Result<String, RenderError>)
        ensures
            text_of(markup) == self.replaced(matched@),
    ;
}

/// `before`, followed by what `rest` holds.
pub open spec fn prepended(before: Seq<char>, rest: Result<Seq<char>, RenderError>) -> Result<
    Seq<char>,
    RenderError,
> {
    match rest {
        Ok(text) => Ok(before + text),
        Err(e) => Err(e),
    }
}

/// What a replacement makes of a match, as a function of the match.
pub open spec fn markup_of<R: Replacement>(replacement: &R) -> spec_fn(Seq<char>) -> Result<
    Seq<char>,
    RenderError,
> {
    |matched: Seq<char>| replacement.replaced(matched)
}

/// `line` from byte offset `cursor` on, with each of `spans` replaced: what
/// stands before the first span is copied, the span gives way to its markup,
/// and the same is done with the remaining spans from the end of the first.
/// The first replacement that fails decides the outcome.
pub open spec fn rewritten(
    line: Seq<char>,
    spans: Seq<(usize, usize)>,
    cursor: int,
    markup: spec_fn(Seq<char>) -> Result<Seq<char>, RenderError>,
) -> Result<Seq<char>, RenderError>
    decreases spans.len(),
{
    if spans.len() == 0 {
        Ok(text_between(line, cursor, encode_utf8(line).len() as int))
    } else {
        let (start, end) = spans.first();
        match markup(text_between(line, start as int, end as int)) {
            Err(e) => Err(e),
            Ok(put) => prepended(
                text_between(line, cursor, start as int) + put,
                rewritten(line, spans.drop_first(), end as int, markup),
            ),
        }
    }
}

/// Replaces each of `spans` in `line` by its markup and copies the rest.
pub fn rewrite<R: Replacement>(line: &str, spans: &Vec<(usize, usize)>, replacement: &R) -> (result:
    Result<String, RenderError>)
    requires
        spans_fit(line@, spans@),
    ensures
        text_of(result) == rewritten(line@, spans@, 0, markup_of(replacement)),
{
    let mut out = String::new();
    let mut cursor: usize = 0;
    let mut i: usize = 0;
    let ghost markup = markup_of(replacement);
    proof {
        encode_utf8_valid_utf8(line@);
        is_char_boundary_start_end_of_seq(encode_utf8(line@));
        assert(spans@.skip(0) =~= spans@);
        match rewritten(line@, spans@, 0, markup) {
            Ok(text) => {
                assert(out@ + text =~= text);
            },
            Err(_) => {},
        }
    }
    while i < spans.len()
        invariant
            i <= spans.len(),
            spans_fit(line@, spans@),
            markup == markup_of(replacement),
            cursor <= encode_utf8(line@).len(),
            on_boundary(line@, cursor as int),
            i == 0 ==> cursor == 0,
            i > 0 ==> cursor == spans@[i - 1].1,
            rewritten(line@, spans@, 0, markup) == prepended(
                out@,
                rewritten(line@, spans@.skip(i as int), cursor as int, markup),
            ),
        decreases spans.len() - i,
    {
        let (start, end) = spans[i];
        proof {
            assert(spans@.skip(i as int).first() == spans@[i as int]);
            assert(spans@.skip(i as int).drop_first() =~= spans@.skip(i + 1));
            if i > 0 {
                assert(spans@[i - 1].1 <= spans@[i as int].0);
            }
        }
        let gap = slice_between(line, cursor, start);
        let matched = slice_between(line, start, end);
        match replacement.replace(matched) {
            Err(e) => {
                return Err(e);
            },
            Ok(put) => {
                let ghost before = out@;
                out.append(gap);
                out.append(put.as_str());
                proof {
                    match rewritten(line@, spans@.skip(i + 1), end as int, markup) {
                        Ok(text) => {
                            assert(before + ((gap@ + put@) + text) =~= (before + gap@ + put@)
                                + text);
                        },
                        Err(_) => {},
                    }
                }
            },
        }
        cursor = end;
        i += 1;
    }
    proof {
        encode_utf8_valid_utf8(line@);
        is_char_boundary_start_end_of_seq(encode_utf8(line@));
        assert(spans@.skip(i as int).len() == 0);
    }
    let tail = slice_between(line, cursor, line.as_bytes().len());
    out.append(tail);
    Ok(out)
}

/// The kind of callout that a keyword asks for. `TIP` is shown as a note and
/// `CAUTION` as a warning.
pub open spec fn admonition_kind(name: Seq<char>) -> Option<AdmonitionType> {
    if name == "WARNING"@ {
        Some(AdmonitionType::Warning)
    } else if name == "NOTE"@ {
        Some(AdmonitionType::Note)
    } else if name == "IMPORTANT"@ {
        Some(AdmonitionType::Important)
    } else if name == "TIP"@ {
        Some(AdmonitionType::Note)
    } else if name == "CAUTION"@ {
        Some(AdmonitionType::Warning)
    } else {
        None
    }
}

/// Returns the kind of callout that a keyword asks for, or nothing where the
/// keyword is none of the five.
pub fn string_to_admonition_type(name: &str) -> (kind: Option<AdmonitionType>)
    ensures
        kind == admonition_kind(name@),
{
    if same_text(name, "WARNING") {
        Some(AdmonitionType::Warning)
    } else if same_text(name, "NOTE") {
        Some(AdmonitionType::Note)
    } else if same_text(name, "IMPORTANT") {
        Some(AdmonitionType::Important)
    } else if same_text(name, "TIP") {
        Some(AdmonitionType::Note)
    } else if same_text(name, "CAUTION") {
        Some(AdmonitionType::Warning)
    } else {
        None
    }
}

/// The markup of a matched admonition: the keyword is what stands before the
/// first colon, the body what follows the character after that colon.
pub open spec fn admonition_replaced<F: AdmonitionFormatter>(
    formatter: &F,
    matched: Seq<char>,
) -> Result<Seq<char>, RenderError> {
    match position_of(matched, ':') {
        None => Err(RenderError::UnknownAdmonition),
        Some(colon) => match admonition_kind(matched.subrange(0, colon)) {
            None => Err(RenderError::UnknownAdmonition),
            Some(kind) => Ok(
                formatter.admonition_markup(
                    kind,
                    without_first(matched.subrange(colon + 1, matched.len() as int)),
                ),
            ),
        },
    }
}

/// The markup of a matched mention: a link that shows the whole match and
/// leads to the profile of the name after the `@`.
pub open spec fn mention_replaced<F: LinkFormatter>(formatter: &F, matched: Seq<char>) -> Seq<
    char,
> {
    formatter.link_markup(matched, GITHUB_URL_PREFIX@ + without_first(matched))
}

/// The markup of a matched commit hash reference: a link that shows the hash
/// after the `$` and leads to that commit of the repository.
pub open spec fn commit_hash_replaced<F: LinkFormatter>(
    formatter: &F,
    repo_short_url: Seq<char>,
    matched: Seq<char>,
) -> Seq<char> {
    formatter.link_markup(
        without_first(matched),
        GITHUB_URL_PREFIX@ + repo_short_url + "/commit/"@ + without_first(matched),
    )
}

/// The markup of a matched pull-request reference: a link that shows `#` and
/// the number, and leads to that pull request of the repository. There is
/// none where what follows the `#` is no number that fits the machine word.
pub open spec fn pull_request_replaced<F: LinkFormatter>(
    formatter: &F,
    repo_short_url: Seq<char>,
    matched: Seq<char>,
) -> Result<Seq<char>, RenderError> {
    match parsed_decimal(without_first(matched)) {
        None => Err(RenderError::PullRequestId),
        Some(id) => Ok(
            formatter.link_markup(
                "#"@ + decimal_digits(id as nat),
                GITHUB_URL_PREFIX@ + repo_short_url + "/pull/"@ + decimal_digits(id as nat),
            ),
        ),
    }
}

/// Replaces a matched admonition.
pub struct AdmonitionBlock<'a, F: AdmonitionFormatter> {
    pub formatter: &'a F,
}

/// Replaces a matched mention.
pub struct MentionLink<'a, F: LinkFormatter> {
    pub formatter: &'a F,
}

/// Replaces a matched commit hash reference.
pub struct CommitHashLink<'a, F: LinkFormatter> {
    pub repo_short_url: &'a str,
    pub formatter: &'a F,
}

/// Replaces a matched pull-request reference.
pub struct PullRequestLink<'a, F: LinkFormatter> {
    pub repo_short_url: &'a str,
    pub formatter: &'a F,
}

impl<'a, F: AdmonitionFormatter> Replacement for AdmonitionBlock<'a, F> {
    open spec fn replaced(&self, matched: Seq<char>) -> Result<Seq<char>, RenderError> {
        admonition_replaced(self.formatter, matched)
    }

    fn replace(&self, matched: &str) -> (markup: Result<String, RenderError>) {
        match split_at_first(matched, ':') {
            None => Err(RenderError::UnknownAdmonition),
            Some((keyword, rest)) => match string_to_admonition_type(keyword) {
                None => Err(RenderError::UnknownAdmonition),
                Some(kind) => Ok(self.formatter.admonition(kind, drop_first_char(rest))),
            },
        }
    }
}

impl<'a, F: LinkFormatter> Replacement for MentionLink<'a, F> {
    open spec fn replaced(&self, matched: Seq<char>) -> Result<Seq<char>, RenderError> {
        Ok(mention_replaced(self.formatter, matched))
    }

    fn replace(&self, matched: &str) -> (markup: Result<String, RenderError>) {
        let mut target = GITHUB_URL_PREFIX.to_owned();
        target.append(drop_first_char(matched));
        Ok(self.formatter.link(matched, target.as_str()))
    }
}

impl<'a, F: LinkFormatter> Replacement for CommitHashLink<'a, F> {
    open spec fn replaced(&self, matched: Seq<char>) -> Result<Seq<char>, RenderError> {
        Ok(commit_hash_replaced(self.formatter, self.repo_short_url@, matched))
    }

    fn replace(&self, matched: &str) -> (markup: Result<String, RenderError>) {
        let hash = drop_first_char(matched);
        let mut target = GITHUB_URL_PREFIX.to_owned();
        target.append(self.repo_short_url);
        target.append("/commit/");
        target.append(hash);
        Ok(self.formatter.link(hash, target.as_str()))
    }
}

impl<'a, F: LinkFormatter> Replacement for PullRequestLink<'a, F> {
    open spec fn replaced(&self, matched: Seq<char>) -> Result<Seq<char>, RenderError> {
        pull_request_replaced(self.formatter, self.repo_short_url@, matched)
    }

    fn replace(&self, matched: &str) -> (markup: Result<String, RenderError>) {
        match parse_decimal(drop_first_char(matched)) {
            None => Err(RenderError::PullRequestId),
            Some(id) => {
                let number = decimal_text(id);
                let mut name = "#".to_owned();
                name.append(number.as_str());
                let mut target = GITHUB_URL_PREFIX.to_owned();
                target.append(self.repo_short_url);
                target.append("/pull/");
                target.append(number.as_str());
                Ok(self.formatter.link(name.as_str(), target.as_str()))
            },
        }
    }
}

/// What one pass makes of `line`: the matches of `pattern` replaced, or the
/// failure of the pattern engine where it does not accept `pattern`.
pub open spec fn pass_result(
    pattern: Seq<char>,
    line: Seq<char>,
    markup: spec_fn(Seq<char>) -> Result<Seq<char>, RenderError>,
) -> Result<Seq<char>, RenderError> {
    match pattern_spans(pattern, line) {
        None => Err(RenderError::PatternRejected),
        Some(spans) => rewritten(line, spans, 0, markup),
    }
}

/// Runs one pass over `line`.
pub fn run_pass<R: Replacement>(line: &str, pattern: &str, replacement: &R) -> (result: Result<
    String,
    RenderError,
>)
    ensures
        text_of(result) == pass_result(pattern@, line@, markup_of(replacement)),
{
    match find_spans(pattern, line) {
        Err(_) => Err(RenderError::PatternRejected),
        Ok(spans) => rewrite(line, &spans, replacement),
    }
}

/// `line` with its admonitions replaced.
pub open spec fn admonitions_replaced<F: AdmonitionFormatter>(
    formatter: &F,
    line: Seq<char>,
) -> Result<Seq<char>, RenderError> {
    pass_result(
        ADMONITION_PATTERN@,
        line,
        |matched: Seq<char>| admonition_replaced(formatter, matched),
    )
}

/// `line` with its mentions replaced.
pub open spec fn mentions_replaced<F: LinkFormatter>(formatter: &F, line: Seq<char>) -> Result<
    Seq<char>,
    RenderError,
> {
    pass_result(
        MENTION_PATTERN@,
        line,
        |matched: Seq<char>| Ok(mention_replaced(formatter, matched)),
    )
}

/// `line` with its commit hash references replaced.
pub open spec fn commit_hashes_replaced<F: LinkFormatter>(
    formatter: &F,
    repo_short_url: Seq<char>,
    line: Seq<char>,
) -> Result<Seq<char>, RenderError> {
    pass_result(
        COMMIT_HASH_PATTERN@,
        line,
        |matched: Seq<char>| Ok(commit_hash_replaced(formatter, repo_short_url, matched)),
    )
}

/// `line` with its pull-request references replaced.
pub open spec fn pull_requests_replaced<F: LinkFormatter>(
    formatter: &F,
    repo_short_url: Seq<char>,
    line: Seq<char>,
) -> Result<Seq<char>, RenderError> {
    pass_result(
        PULL_REQUEST_PATTERN@,
        line,
        |matched: Seq<char>| pull_request_replaced(formatter, repo_short_url, matched),
    )
}

/// What the three passes over the line of a change make of it: mentions
/// first, then commit hashes, then pull-request references.
pub open spec fn line_replaced<F: LinkFormatter>(
    formatter: &F,
    repo_short_url: Seq<char>,
    line: Seq<char>,
) -> Result<Seq<char>, RenderError> {
    match mentions_replaced(formatter, line) {
        Err(e) => Err(e),
        Ok(first) => match commit_hashes_replaced(formatter, repo_short_url, first) {
            Err(e) => Err(e),
            Ok(second) => pull_requests_replaced(formatter, repo_short_url, second),
        },
    }
}

/// What the two passes over a notice make of it: admonitions first, then
/// mentions.
pub open spec fn notice_replaced<F: AdmonitionFormatter + LinkFormatter>(
    formatter: &F,
    line: Seq<char>,
) -> Result<Seq<char>, RenderError> {
    match admonitions_replaced(formatter, line) {
        Err(e) => Err(e),
        Ok(first) => mentions_replaced(formatter, first),
    }
}

/// Rewrites each admonition of `line` into the callout of the formatter.
pub fn replace_admonition<F: AdmonitionFormatter>(line: &str, formatter: &F) -> (result: Result<
    String,
    RenderError,
>)
    ensures
        text_of(result) == admonitions_replaced(formatter, line@),
{
    let replacement = AdmonitionBlock { formatter };
    assert(markup_of(&replacement) =~= (|matched: Seq<char>|
        admonition_replaced(formatter, matched)));
    run_pass(line, ADMONITION_PATTERN, &replacement)
}

/// Rewrites each pull-request reference of `line` into a link to that pull
/// request of the repository.
pub fn replace_pull_request_link<F: LinkFormatter>(
    line: &str,
    repo_short_url: &str,
    formatter: &F,
) -> (result: Result<String, RenderError>)
    ensures
        text_of(result) == pull_requests_replaced(formatter, repo_short_url@, line@),
{
    let replacement = PullRequestLink { repo_short_url, formatter };
    assert(markup_of(&replacement) =~= (|matched: Seq<char>|
        pull_request_replaced(formatter, repo_short_url@, matched)));
    run_pass(line, PULL_REQUEST_PATTERN, &replacement)
}

/// Rewrites each commit hash reference of `line` into a link to that commit
/// of the repository.
pub fn replace_commit_hash_link<F: LinkFormatter>(
    line: &str,
    repo_short_url: &str,
    formatter: &F,
) -> (result: Result<String, RenderError>)
    ensures
        text_of(result) == commit_hashes_replaced(formatter, repo_short_url@, line@),
{
    let replacement = CommitHashLink { repo_short_url, formatter };
    assert(markup_of(&replacement) =~= (|matched: Seq<char>|
        Ok(commit_hash_replaced(formatter, repo_short_url@, matched))));
    run_pass(line, COMMIT_HASH_PATTERN, &replacement)
}

/// Rewrites each mention of `line` into a link to the profile of the one
/// mentioned.
pub fn replace_at_profile_link<F: LinkFormatter>(line: &str, formatter: &F) -> (result: Result<
    String,
    RenderError,
>)
    ensures
        text_of(result) == mentions_replaced(formatter, line@),
{
    let replacement = MentionLink { formatter };
    assert(markup_of(&replacement) =~= (|matched: Seq<char>|
        Ok(mention_replaced(formatter, matched))));
    run_pass(line, MENTION_PATTERN, &replacement)
}

/// Runs the three passes over the line of a change.
pub fn replace_line<F: LinkFormatter>(line: &str, repo_short_url: &str, formatter: &F) -> (result:
    Result<String, RenderError>)
    ensures
        text_of(result) == line_replaced(formatter, repo_short_url@, line@),
{
    let first = replace_at_profile_link(line, formatter)?;
    let second = replace_commit_hash_link(first.as_str(), repo_short_url, formatter)?;
    replace_pull_request_link(second.as_str(), repo_short_url, formatter)
}

/// Runs the two passes over a notice.
pub fn replace_notice<F: AdmonitionFormatter + LinkFormatter>(line: &str, formatter: &F) -> (result:
    Result<String, RenderError>)
    ensures
        text_of(result) == notice_replaced(formatter, line@),
{
    let first = replace_admonition(line, formatter)?;
    replace_at_profile_link(first.as_str(), formatter)
}

} // verus!
