//! GitHub-flavoured Markdown.

use vstd::prelude::*;
use vstd::string::*;
use crate::category::{category_icon, CategoryType};
use crate::emoji::github_icon;
use crate::formatter::{
    AdmonitionFormatter,
    AdmonitionType,
    EmojiFormatter,
    HeadingFormatter,
    LinkFormatter,
    SuperFormatter,
};
use crate::text::repeated;

verus! {

/// Writes GitHub-flavoured Markdown.
pub struct MarkdownGitHubFormatter {}

impl SuperFormatter for MarkdownGitHubFormatter {

}

/// The name by which a GitHub alert calls a kind of callout.
pub open spec fn github_alert_name(admonition_type: AdmonitionType) -> Seq<char> {
    match admonition_type {
        AdmonitionType::Note => "NOTE"@,
        AdmonitionType::Important => "IMPORTANT"@,
        AdmonitionType::Warning => "WARNING"@,
    }
}

/// Returns the name by which a GitHub alert calls a kind of callout.
pub fn admonition_type_to_github_name(admonition_type: AdmonitionType) -> (name: &'static str)
    ensures
        name@ == github_alert_name(admonition_type),
{
    match admonition_type {
        AdmonitionType::Note => "NOTE",
        AdmonitionType::Important => "IMPORTANT",
        AdmonitionType::Warning => "WARNING",
    }
}

impl AdmonitionFormatter for MarkdownGitHubFormatter {
    /// A quoted block of two lines: the alert marker, closed by a backslash,
    /// and the body.
    open spec fn admonition_markup(&self, ad_type: AdmonitionType, content: Seq<char>) -> Seq<
        char,
    > {
        "> [!"@ + github_alert_name(ad_type) + "]\\\n> "@ + content
    }

    fn admonition(&self, ad_type: AdmonitionType, content: &str) -> (markup: String) {
        let mut markup = "> [!".to_owned();
        markup.append(admonition_type_to_github_name(ad_type));
        markup.append("]\\\n> ");
        markup.append(content);
        markup
    }
}

impl HeadingFormatter for MarkdownGitHubFormatter {
    /// As many `#` as the level says, a space, and the name.
    open spec fn heading_markup(&self, level: nat, name: Seq<char>) -> Seq<char> {
        repeated("#"@, level) + " "@ + name
    }

    fn heading(&self, level: usize, name: &str) -> (markup: String) {
        let mut markup = String::new();
        let mut i: usize = 0;
        while i < level
            invariant
                i <= level,
                markup@ == repeated("#"@, i as nat),
            decreases level - i,
        {
            markup.append("#");
            i += 1;
        }
        markup.append(" ");
        markup.append(name);
        markup
    }
}

impl LinkFormatter for MarkdownGitHubFormatter {
    /// The name in square brackets, then the target in round ones.
    open spec fn link_markup(&self, name: Seq<char>, link: Seq<char>) -> Seq<char> {
        "["@ + name + "]("@ + link + ")"@
    }

    fn link(&self, name: &str, link: &str) -> (markup: String) {
        let mut markup = "[".to_owned();
        markup.append(name);
        markup.append("](");
        markup.append(link);
        markup.append(")");
        markup
    }
}

impl EmojiFormatter for MarkdownGitHubFormatter {
    /// The identifier of the icon between two colons.
    open spec fn emoji_markup(&self, category_type: CategoryType) -> Seq<char> {
        ":"@ + category_icon(category_type) + ":"@
    }

    open spec fn emoji_tag_markup(&self) -> Seq<char> {
        ":"@ + "bookmark"@ + ":"@
    }

    /// Every identifier can be written between two colons.
    open spec fn named_emoji_markup(&self, name: Seq<char>) -> Option<Seq<char>> {
        Some(":"@ + name + ":"@)
    }

    fn emoji(&self, category_type: &CategoryType) -> (markup: String) {
        github_icon(category_type).to_owned()
    }

    fn emoji_tag(&self) -> (markup: String) {
        let mut markup = ":".to_owned();
        markup.append("bookmark");
        markup.append(":");
        markup
    }

    fn emoji_by_name(&self, name: &str) -> (markup: Option<String>) {
        let mut markup = ":".to_owned();
        markup.append(name);
        markup.append(":");
        Some(markup)
    }
}

} // verus!
