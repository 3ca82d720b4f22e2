//! What a target markup has to provide. The renderer asks for nothing else,
//! so a further target is a further type with these four capabilities.

use vstd::prelude::*;
use crate::category::CategoryType;

verus! {

/// The kinds of callout that a formatter renders.
#[derive(Debug, Copy, Clone, PartialEq, Eq, Structural)]
pub enum AdmonitionType {
    Warning,
    Note,
    Important,
}

/// Renders a callout.
pub trait AdmonitionFormatter {
    /// The markup of a callout of kind `ad_type` with the body `content`.
    spec fn admonition_markup(&self, ad_type: AdmonitionType, content: Seq<char>) -> Seq<char>;

    /// Writes a callout.
    fn admonition(&self, ad_type: AdmonitionType, content: &str) -> (markup: String)
        ensures
            markup@ == self.admonition_markup(ad_type, content@),
    ;
}

/// Renders a link.
pub trait LinkFormatter {
    /// The markup of a link that shows `name` and leads to `link`.
    spec fn link_markup(&self, name: Seq<char>, link: Seq<char>) -> Seq<char>;

    /// Writes a link.
    fn link(&self, name: &str, link: &str) -> (markup: String)
        ensures
            markup@ == self.link_markup(name@, link@),
    ;
}

/// Renders an icon: that of a category, the one that marks a release, or
/// one that is asked for by its identifier.
pub trait EmojiFormatter {
    /// The markup of the icon of `category_type`.
    spec fn emoji_markup(&self, category_type: CategoryType) -> Seq<char>;

    /// The markup of the icon that marks a release.
    spec fn emoji_tag_markup(&self) -> Seq<char>;

    /// The markup of the icon with the identifier `name`, where the
    /// formatter can render that icon.
    spec fn named_emoji_markup(&self, name: Seq<char>) -> Option<Seq<char>>;

    /// Writes the icon of a category.
    fn emoji(&self, category_type: &CategoryType) -> (markup: String)
        ensures
            markup@ == self.emoji_markup(*category_type),
    ;

    /// Writes the icon that marks a release.
    fn emoji_tag(&self) -> (markup: String)
        ensures
            markup@ == self.emoji_tag_markup(),
    ;

    /// Writes the icon with the identifier `name`, or nothing where the
    /// formatter cannot render it.
    fn emoji_by_name(&self, name: &str) -> (markup: Option<String>)
        ensures
            match markup {
                Some(text) => self.named_emoji_markup(name@) == Some(text@),
                None => self.named_emoji_markup(name@) is None,
            },
    ;
}

/// Renders a heading.
pub trait HeadingFormatter {
    /// The markup of a heading of the given level that reads `name`.
    spec fn heading_markup(&self, level: nat, name: Seq<char>) -> Seq<char>;

    /// Writes a heading. The level is one of the six that markups know.
    fn heading(&self, level: usize, name: &str) -> (markup: String)
        requires
            1 <= level <= 6,
        ensures
            markup@ == self.heading_markup(level as nat, name@),
    ;
}

/// All four capabilities together: what rendering a whole document takes.
pub trait SuperFormatter: AdmonitionFormatter + LinkFormatter + HeadingFormatter + EmojiFormatter {

}

} // verus!
