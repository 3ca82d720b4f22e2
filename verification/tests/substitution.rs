use changelog_yaml::error::RenderError;
use changelog_yaml::formatters::ascii_doc::AsciiDocFormatter;
use changelog_yaml::formatters::markdown_github::MarkdownGitHubFormatter;
use changelog_yaml::formatter::AdmonitionType;
use changelog_yaml::pattern::check_spans;
use changelog_yaml::substitution::{
    replace_admonition, replace_at_profile_link, replace_commit_hash_link, replace_line,
    replace_notice, replace_pull_request_link, rewrite, run_pass, string_to_admonition_type,
    AdmonitionBlock, MentionLink, PullRequestLink,
};

#[test]
fn pull_request_reference_becomes_a_link() {
    let f = MarkdownGitHubFormatter {};
    assert_eq!(
        replace_pull_request_link("see #123 please", "acme/widget", &f),
        Ok("see [#123](https://github.com/acme/widget/pull/123) please".to_string())
    );
}

#[test]
fn commit_hash_reference_becomes_a_link() {
    let f = MarkdownGitHubFormatter {};
    assert_eq!(
        replace_commit_hash_link("fixed in $abc123.", "acme/widget", &f),
        Ok("fixed in [abc123](https://github.com/acme/widget/commit/abc123).".to_string())
    );
}

#[test]
fn mention_becomes_a_link() {
    let f = MarkdownGitHubFormatter {};
    assert_eq!(
        replace_at_profile_link("thanks @octocat!", &f),
        Ok("thanks [@octocat](https://github.com/octocat)!".to_string())
    );
}

#[test]
fn line_without_shorthand_is_unchanged() {
    let f = MarkdownGitHubFormatter {};
    let line = "nothing to see here: 100% plain, even with \u{e9}\u{1F600} in it";
    assert_eq!(replace_line(line, "acme/widget", &f), Ok(line.to_string()));
    assert_eq!(replace_notice(line, &f), Ok(line.to_string()));
    let g = AsciiDocFormatter {};
    assert_eq!(replace_line(line, "acme/widget", &g), Ok(line.to_string()));
}

#[test]
fn line_with_all_three_references() {
    let f = MarkdownGitHubFormatter {};
    assert_eq!(
        replace_line("Support for #42 by @alice", "acme/widget", &f),
        Ok("Support for [#42](https://github.com/acme/widget/pull/42) by [@alice](https://github.com/alice)".to_string())
    );
    let g = AsciiDocFormatter {};
    assert_eq!(
        replace_line("$00ff by @bob-2 (#7)", "o/r", &g),
        Ok("link:https://github.com/o/r/commit/00ff[00ff] by link:https://github.com/bob-2[@bob-2] (link:https://github.com/o/r/pull/7[#7])".to_string())
    );
}

#[test]
fn admonition_is_rendered_by_the_formatter() {
    let f = MarkdownGitHubFormatter {};
    assert_eq!(
        replace_admonition("NOTE: read this", &f),
        Ok("> [!NOTE]\\\n> read this".to_string())
    );
    let g = AsciiDocFormatter {};
    assert_eq!(replace_admonition("WARNING: hot", &g), Ok("WARNING: hot".to_string()));
    assert_eq!(replace_admonition("TIP: cold", &g), Ok("NOTE: cold".to_string()));
    assert_eq!(replace_admonition("CAUTION: wet", &g), Ok("WARNING: wet".to_string()));
    assert_eq!(replace_admonition("IMPORTANT: dry", &g), Ok("IMPORTANT: dry".to_string()));
    assert_eq!(replace_admonition("HINT: none", &g), Ok("HINT: none".to_string()));
}

#[test]
fn pull_request_number_too_large_is_an_error() {
    let f = MarkdownGitHubFormatter {};
    assert_eq!(
        replace_pull_request_link("#99999999999999999999999999", "o/r", &f),
        Err(RenderError::PullRequestId)
    );
}

#[test]
fn pattern_that_does_not_compile_is_an_error() {
    let f = MarkdownGitHubFormatter {};
    let replacement = MentionLink { formatter: &f };
    assert_eq!(
        run_pass("text", "(", &replacement),
        Err(RenderError::PatternRejected)
    );
}

#[test]
fn match_without_known_keyword_is_an_error() {
    let f = MarkdownGitHubFormatter {};
    let replacement = AdmonitionBlock { formatter: &f };
    assert_eq!(
        run_pass("HINT: x", "HINT: .*", &replacement),
        Err(RenderError::UnknownAdmonition)
    );
    assert_eq!(
        run_pass("so NOTE it", "NOTE", &replacement),
        Err(RenderError::UnknownAdmonition)
    );
    assert_eq!(
        run_pass("so NOTE: it", "NOTE:.*", &replacement),
        Ok("so > [!NOTE]\\\n> it".to_string())
    );
}

#[test]
fn admonition_keywords_map_to_three_kinds() {
    assert_eq!(string_to_admonition_type("WARNING"), Some(AdmonitionType::Warning));
    assert_eq!(string_to_admonition_type("NOTE"), Some(AdmonitionType::Note));
    assert_eq!(string_to_admonition_type("IMPORTANT"), Some(AdmonitionType::Important));
    assert_eq!(string_to_admonition_type("TIP"), Some(AdmonitionType::Note));
    assert_eq!(string_to_admonition_type("CAUTION"), Some(AdmonitionType::Warning));
    assert_eq!(string_to_admonition_type("note"), None);
    assert_eq!(string_to_admonition_type("HINT"), None);
    assert_eq!(string_to_admonition_type(""), None);
}

#[test]
fn bare_sigils_are_left_alone() {
    let f = MarkdownGitHubFormatter {};
    let line = "a # b $ c @ d #x $g @";
    assert_eq!(replace_pull_request_link(line, "o/r", &f), Ok(line.to_string()));
    assert_eq!(replace_commit_hash_link(line, "o/r", &f), Ok(line.to_string()));
    assert_eq!(replace_at_profile_link(line, &f), Ok(line.to_string()));
    assert_eq!(replace_line(line, "o/r", &f), Ok(line.to_string()));
}

#[test]
fn reference_ends_where_its_characters_end() {
    let f = MarkdownGitHubFormatter {};
    assert_eq!(
        replace_pull_request_link("#12abc", "o/r", &f),
        Ok("[#12](https://github.com/o/r/pull/12)abc".to_string())
    );
    assert_eq!(
        replace_commit_hash_link("$abcxyz", "o/r", &f),
        Ok("[abc](https://github.com/o/r/commit/abc)xyz".to_string())
    );
    assert_eq!(
        replace_commit_hash_link("$ABC $0aF", "o/r", &f),
        Ok("$ABC [0a](https://github.com/o/r/commit/0a)F".to_string())
    );
    assert_eq!(
        replace_at_profile_link("@a-b_c.d", &f),
        Ok("[@a-b_c](https://github.com/a-b_c).d".to_string())
    );
}

#[test]
fn pull_request_number_is_shown_without_leading_zeros() {
    let f = MarkdownGitHubFormatter {};
    assert_eq!(
        replace_pull_request_link("#007", "o/r", &f),
        Ok("[#7](https://github.com/o/r/pull/7)".to_string())
    );
    assert_eq!(
        replace_pull_request_link("#0", "o/r", &f),
        Ok("[#0](https://github.com/o/r/pull/0)".to_string())
    );
}

#[test]
fn several_matches_keep_their_order_and_what_lies_between() {
    let f = AsciiDocFormatter {};
    assert_eq!(
        replace_pull_request_link("#1, #22 and #333.", "o/r", &f),
        Ok("link:https://github.com/o/r/pull/1[#1], link:https://github.com/o/r/pull/22[#22] and link:https://github.com/o/r/pull/333[#333].".to_string())
    );
    assert_eq!(
        replace_at_profile_link("@a@b", &f),
        Ok("link:https://github.com/a[@a]link:https://github.com/b[@b]".to_string())
    );
}

#[test]
fn text_of_several_bytes_a_character_is_cut_between_characters() {
    let f = MarkdownGitHubFormatter {};
    assert_eq!(
        replace_line("h\u{e9} @b\u{f6}b \u{2713} #5 \u{1F600}$ab\u{e9}", "o/r", &f),
        Ok("h\u{e9} [@b\u{f6}b](https://github.com/b\u{f6}b) \u{2713} [#5](https://github.com/o/r/pull/5) \u{1F600}[ab](https://github.com/o/r/commit/ab)\u{e9}".to_string())
    );
}

#[test]
fn digits_of_other_scripts_are_no_pull_request_number() {
    let f = MarkdownGitHubFormatter {};
    assert_eq!(replace_pull_request_link("#\u{663}", "o/r", &f), Ok("#\u{663}".to_string()));
}

#[test]
fn notice_of_several_lines_has_each_admonition_replaced() {
    let g = AsciiDocFormatter {};
    assert_eq!(
        replace_notice("first\nTIP: ask @ann\nlast CAUTION: hot", &g),
        Ok("first\nNOTE: ask link:https://github.com/ann[@ann]\nlast WARNING: hot".to_string())
    );
    let f = MarkdownGitHubFormatter {};
    assert_eq!(
        replace_notice("see NOTE:\tbody", &f),
        Ok("see > [!NOTE]\\\n> body".to_string())
    );
    assert_eq!(replace_notice("NOTE:body", &f), Ok("NOTE:body".to_string()));
}

#[test]
fn later_pass_reads_what_the_earlier_pass_wrote() {
    let f = MarkdownGitHubFormatter {};
    assert_eq!(
        replace_line("$ab", "o/r#1", &f),
        Ok("[ab](https://github.com/o/r[#1](https://github.com/o/r#1/pull/1)/commit/ab)".to_string())
    );
}

#[test]
fn rewrite_replaces_the_given_spans() {
    let f = MarkdownGitHubFormatter {};
    let line = "a @b c";
    let spans = vec![(2, 4)];
    assert!(check_spans(line, &spans));
    assert_eq!(
        rewrite(line, &spans, &MentionLink { formatter: &f }),
        Ok("a [@b](https://github.com/b) c".to_string())
    );
    let none: Vec<(usize, usize)> = vec![];
    assert_eq!(rewrite(line, &none, &MentionLink { formatter: &f }), Ok(line.to_string()));
    let all = vec![(0, 6)];
    assert!(check_spans(line, &all));
    assert_eq!(
        rewrite(line, &all, &PullRequestLink { repo_short_url: "o/r", formatter: &f }),
        Err(RenderError::PullRequestId)
    );
    let two = vec![(0, 2), (2, 3)];
    assert!(check_spans("#1#2", &two));
    assert_eq!(
        rewrite("#1#2", &two, &PullRequestLink { repo_short_url: "o/r", formatter: &f }),
        Err(RenderError::PullRequestId)
    );
}
