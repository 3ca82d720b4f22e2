//! AsciiDoc.

use vstd::prelude::*;
use vstd::string::*;
use crate::category::{category_icon, icon_from_category, CategoryType};
use crate::formatter::{
    AdmonitionFormatter,
    AdmonitionType,
    EmojiFormatter,
    HeadingFormatter,
    LinkFormatter,
    SuperFormatter,
};
use crate::text::{repeated, same_text, upper_hex_digits, upper_hex_text};

verus! {

/// Writes AsciiDoc.
pub struct AsciiDocFormatter {}

impl SuperFormatter for AsciiDocFormatter {

}

/// The keyword with which AsciiDoc opens a kind of callout.
pub open spec fn asciidoc_keyword(admonition_type: AdmonitionType) -> Seq<char> {
    match admonition_type {
        AdmonitionType::Note => "NOTE"@,
        AdmonitionType::Important => "IMPORTANT"@,
        AdmonitionType::Warning => "WARNING"@,
    }
}

/// Returns the keyword with which AsciiDoc opens a kind of callout.
pub fn admonition_type_to_asciidoc_keyword(admonition_type: AdmonitionType) -> (keyword:
    &'static str)
    ensures
        keyword@ == asciidoc_keyword(admonition_type),
{
    match admonition_type {
        AdmonitionType::Note => "NOTE",
        AdmonitionType::Important => "IMPORTANT",
        AdmonitionType::Warning => "WARNING",
    }
}

/// The code point of the icon called `name`, for the icons that have one:
/// the icon of each category, and the bookmark that marks a release.
pub open spec fn icon_code_point(name: Seq<char>) -> Option<u32> {
    if name == "bookmark"@ {
        Some(0x1F516u32)
    } else if name == "triangular_flag_on_post"@ {
        Some(0x1F6A9u32)
    } else if name == "star2"@ {
        Some(0x1F31Fu32)
    } else if name == "hammer_and_wrench"@ {
        Some(0x1F6E0u32)
    } else if name == "lady_beetle"@ {
        Some(0x1F41Eu32)
    } else if name == "see_no_evil"@ {
        Some(0x1F648u32)
    } else if name == "zap"@ {
        Some(0x26A1u32)
    } else if name == "vertical_traffic_light"@ {
        Some(0x1F6A6u32)
    } else if name == "fire"@ {
        Some(0x1F525u32)
    } else if name == "art"@ {
        Some(0x1F3A8u32)
    } else if name == "spider_web"@ {
        Some(0x1F578u32)
    } else if name == "recycle"@ {
        Some(0x267Bu32)
    } else if name == "alembic"@ {
        Some(0x2697u32)
    } else if name == "book"@ {
        Some(0x1F4D6u32)
    } else if name == "warning"@ {
        Some(0x26A0u32)
    } else if name == "gem"@ {
        Some(0x1F48Eu32)
    } else if name == "soon"@ {
        Some(0x1F51Cu32)
    } else if name == "lock"@ {
        Some(0x1F512u32)
    } else {
        None
    }
}

/// Looks an icon up by its name. Returns nothing for a name that the table
/// does not hold.
pub fn emoji_name_to_unicode(name: &str) -> (code_point: Option<u32>)
    ensures
        code_point == icon_code_point(name@),
{
    if same_text(name, "bookmark") {
        Some(0x1F516)
    } else if same_text(name, "triangular_flag_on_post") {
        Some(0x1F6A9)
    } else if same_text(name, "star2") {
        Some(0x1F31F)
    } else if same_text(name, "hammer_and_wrench") {
        Some(0x1F6E0)
    } else if same_text(name, "lady_beetle") {
        Some(0x1F41E)
    } else if same_text(name, "see_no_evil") {
        Some(0x1F648)
    } else if same_text(name, "zap") {
        Some(0x26A1)
    } else if same_text(name, "vertical_traffic_light") {
        Some(0x1F6A6)
    } else if same_text(name, "fire") {
        Some(0x1F525)
    } else if same_text(name, "art") {
        Some(0x1F3A8)
    } else if same_text(name, "spider_web") {
        Some(0x1F578)
    } else if same_text(name, "recycle") {
        Some(0x267B)
    } else if same_text(name, "alembic") {
        Some(0x2697)
    } else if same_text(name, "book") {
        Some(0x1F4D6)
    } else if same_text(name, "warning") {
        Some(0x26A0)
    } else if same_text(name, "gem") {
        Some(0x1F48E)
    } else if same_text(name, "soon") {
        Some(0x1F51C)
    } else if same_text(name, "lock") {
        Some(0x1F512)
    } else {
        None
    }
}

/// The table holds the icon of every category.
pub proof fn lemma_every_category_has_a_code_point(category_type: CategoryType)
    ensures
        icon_code_point(category_icon(category_type)) is Some,
{
}

/// The table holds nothing else: a name with a code point is the bookmark
/// or the icon of a category.
pub proof fn lemma_icon_table_is_closed(name: Seq<char>)
    requires
        icon_code_point(name) is Some,
    ensures
        name == "bookmark"@ || exists|category_type: CategoryType|
            #[trigger] category_icon(category_type) == name,
{
    if name != "bookmark"@ {
        let category_type = if name == "triangular_flag_on_post"@ {
            CategoryType::Breaking
        } else if name == "star2"@ {
            CategoryType::Added
        } else if name == "hammer_and_wrench"@ {
            CategoryType::Changed
        } else if name == "lady_beetle"@ {
            CategoryType::Fixed
        } else if name == "see_no_evil"@ {
            CategoryType::Workaround
        } else if name == "zap"@ {
            CategoryType::Performance
        } else if name == "vertical_traffic_light"@ {
            CategoryType::Tests
        } else if name == "fire"@ {
            CategoryType::Removed
        } else if name == "art"@ {
            CategoryType::Improved
        } else if name == "spider_web"@ {
            CategoryType::Deprecated
        } else if name == "recycle"@ {
            CategoryType::Refactored
        } else if name == "alembic"@ {
            CategoryType::Experimental
        } else if name == "book"@ {
            CategoryType::Docs
        } else if name == "warning"@ {
            CategoryType::Noted
        } else if name == "gem"@ {
            CategoryType::Style
        } else if name == "soon"@ {
            CategoryType::Unreleased
        } else {
            CategoryType::Security
        };
        assert(category_icon(category_type) == name);
    }
}

/// A numeric character reference: the code point in upper-case hexadecimal
/// between `&#x` and `;`.
pub open spec fn character_reference(code_point: u32) -> Seq<char> {
    "&#x"@ + upper_hex_digits(code_point as nat) + ";"@
}

/// Writes the numeric character reference of a code point.
pub fn character_reference_text(code_point: u32) -> (markup: String)
    ensures
        markup@ == character_reference(code_point),
{
    let mut markup = "&#x".to_owned();
    let digits = upper_hex_text(code_point);
    markup.append(digits.as_str());
    markup.append(";");
    markup
}

impl AdmonitionFormatter for AsciiDocFormatter {
    /// The keyword, a colon and a space, and the body.
    open spec fn admonition_markup(&self, ad_type: AdmonitionType, content: Seq<char>) -> Seq<
        char,
    > {
        asciidoc_keyword(ad_type) + ": "@ + content
    }

    fn admonition(&self, ad_type: AdmonitionType, content: &str) -> (markup: String) {
        let mut markup = admonition_type_to_asciidoc_keyword(ad_type).to_owned();
        markup.append(": ");
        markup.append(content);
        markup
    }
}

impl HeadingFormatter for AsciiDocFormatter {
    /// As many `=` as the level says, a space, and the name.
    open spec fn heading_markup(&self, level: nat, name: Seq<char>) -> Seq<char> {
        repeated("="@, level) + " "@ + name
    }

    fn heading(&self, level: usize, name: &str) -> (markup: String) {
        let mut markup = String::new();
        let mut i: usize = 0;
        while i < level
            invariant
                i <= level,
                markup@ == repeated("="@, i as nat),
            decreases level - i,
        {
            markup.append("=");
            i += 1;
        }
        markup.append(" ");
        markup.append(name);
        markup
    }
}

impl LinkFormatter for AsciiDocFormatter {
    /// The word `link:`, the target, and the name in square brackets.
    open spec fn link_markup(&self, name: Seq<char>, link: Seq<char>) -> Seq<char> {
        "link:"@ + link + "["@ + name + "]"@
    }

    fn link(&self, name: &str, link: &str) -> (markup: String) {
        let mut markup = "link:".to_owned();
        markup.append(link);
        markup.append("[");
        markup.append(name);
        markup.append("]");
        markup
    }
}

impl EmojiFormatter for AsciiDocFormatter {
    /// The character reference of the code point that the table gives for
    /// the icon of the category.
    open spec fn emoji_markup(&self, category_type: CategoryType) -> Seq<char> {
        character_reference(icon_code_point(category_icon(category_type)).unwrap())
    }

    open spec fn emoji_tag_markup(&self) -> Seq<char> {
        character_reference(icon_code_point("bookmark"@).unwrap())
    }

    /// The character reference of the code point that the table gives for
    /// the identifier; none for an identifier that the table does not hold.
    open spec fn named_emoji_markup(&self, name: Seq<char>) -> Option<Seq<char>> {
        match icon_code_point(name) {
            Some(code_point) => Some(character_reference(code_point)),
            None => None,
        }
    }

    fn emoji(&self, category_type: &CategoryType) -> (markup: String) {
        let code_point = emoji_name_to_unicode(icon_from_category(category_type));
        proof {
            lemma_every_category_has_a_code_point(*category_type);
        }
        character_reference_text(code_point.unwrap())
    }

    fn emoji_tag(&self) -> (markup: String) {
        let code_point = emoji_name_to_unicode("bookmark");
        character_reference_text(code_point.unwrap())
    }

    fn emoji_by_name(&self, name: &str) -> (markup: Option<String>) {
        match emoji_name_to_unicode(name) {
            Some(code_point) => Some(character_reference_text(code_point)),
            None => None,
        }
    }
}

} // verus!
