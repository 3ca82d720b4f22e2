//! The icon of each category, as a GitHub shortcode and as the glyph itself.

use vstd::prelude::*;
use crate::category::{category_icon, CategoryType};

verus! {

/// The glyph that shows a category where plain Unicode text is wanted.
pub open spec fn category_glyph(category: CategoryType) -> Seq<char> {
    match category {
        CategoryType::Changed => "\u{1F6E0}\u{FE0F}"@,
        CategoryType::Added => "\u{2728}"@,
        CategoryType::Breaking => "\u{1F6A9}"@,
        CategoryType::Deprecated => "\u{1F578}\u{FE0F}"@,
        CategoryType::Docs => "\u{1F4D6}"@,
        CategoryType::Experimental => "\u{2697}\u{FE0F}"@,
        CategoryType::Fixed => "\u{1F41E}"@,
        CategoryType::Improved => "\u{1F3A8}"@,
        CategoryType::Noted => "\u{26A0}\u{FE0F}"@,
        CategoryType::Performance => "\u{26A1}"@,
        CategoryType::Refactored => "\u{267B}\u{FE0F}"@,
        CategoryType::Removed => "\u{1F525}"@,
        CategoryType::Security => "\u{1F512}"@,
        CategoryType::Style => "\u{1F48E}"@,
        CategoryType::Tests => "\u{1F6A6}"@,
        CategoryType::Unreleased => "\u{1F51C}"@,
        CategoryType::Workaround => "\u{1F648}"@,
    }
}

/// Returns the GitHub shortcode of the icon of a category: the identifier of
/// the icon between two colons.
pub fn github_icon(category_type: &CategoryType) -> (icon: &'static str)
    ensures
        icon@ == ":"@ + category_icon(*category_type) + ":"@,
{
    proof {
        reveal_strlit(":");
    }
    match category_type {
        CategoryType::Changed => {
            proof {
                reveal_strlit("hammer_and_wrench");
                reveal_strlit(":hammer_and_wrench:");
            }
            ":hammer_and_wrench:"
        },
        CategoryType::Added => {
            proof {
                reveal_strlit("star2");
                reveal_strlit(":star2:");
            }
            ":star2:"
        },
        CategoryType::Breaking => {
            proof {
                reveal_strlit("triangular_flag_on_post");
                reveal_strlit(":triangular_flag_on_post:");
            }
            ":triangular_flag_on_post:"
        },
        CategoryType::Deprecated => {
            proof {
                reveal_strlit("spider_web");
                reveal_strlit(":spider_web:");
            }
            ":spider_web:"
        },
        CategoryType::Docs => {
            proof {
                reveal_strlit("book");
                reveal_strlit(":book:");
            }
            ":book:"
        },
        CategoryType::Experimental => {
            proof {
                reveal_strlit("alembic");
                reveal_strlit(":alembic:");
            }
            ":alembic:"
        },
        CategoryType::Fixed => {
            proof {
                reveal_strlit("lady_beetle");
                reveal_strlit(":lady_beetle:");
            }
            ":lady_beetle:"
        },
        CategoryType::Improved => {
            proof {
                reveal_strlit("art");
                reveal_strlit(":art:");
            }
            ":art:"
        },
        CategoryType::Noted => {
            proof {
                reveal_strlit("warning");
                reveal_strlit(":warning:");
            }
            ":warning:"
        },
        CategoryType::Performance => {
            proof {
                reveal_strlit("zap");
                reveal_strlit(":zap:");
            }
            ":zap:"
        },
        CategoryType::Refactored => {
            proof {
                reveal_strlit("recycle");
                reveal_strlit(":recycle:");
            }
            ":recycle:"
        },
        CategoryType::Removed => {
            proof {
                reveal_strlit("fire");
                reveal_strlit(":fire:");
            }
            ":fire:"
        },
        CategoryType::Security => {
            proof {
                reveal_strlit("lock");
                reveal_strlit(":lock:");
            }
            ":lock:"
        },
        CategoryType::Style => {
            proof {
                reveal_strlit("gem");
                reveal_strlit(":gem:");
            }
            ":gem:"
        },
        CategoryType::Tests => {
            proof {
                reveal_strlit("vertical_traffic_light");
                reveal_strlit(":vertical_traffic_light:");
            }
            ":vertical_traffic_light:"
        },
        CategoryType::Unreleased => {
            proof {
                reveal_strlit("soon");
                reveal_strlit(":soon:");
            }
            ":soon:"
        },
        CategoryType::Workaround => {
            proof {
                reveal_strlit("see_no_evil");
                reveal_strlit(":see_no_evil:");
            }
            ":see_no_evil:"
        },
    }
}

/// Returns the glyph of a category.
pub fn utf8_icon(category_type: &CategoryType) -> (glyph: &'static str)
    ensures
        glyph@ == category_glyph(*category_type),
{
    match category_type {
        CategoryType::Changed => "\u{1F6E0}\u{FE0F}",
        CategoryType::Added => "\u{2728}",
        CategoryType::Breaking => "\u{1F6A9}",
        CategoryType::Deprecated => "\u{1F578}\u{FE0F}",
        CategoryType::Docs => "\u{1F4D6}",
        CategoryType::Experimental => "\u{2697}\u{FE0F}",
        CategoryType::Fixed => "\u{1F41E}",
        CategoryType::Improved => "\u{1F3A8}",
        CategoryType::Noted => "\u{26A0}\u{FE0F}",
        CategoryType::Performance => "\u{26A1}",
        CategoryType::Refactored => "\u{267B}\u{FE0F}",
        CategoryType::Removed => "\u{1F525}",
        CategoryType::Security => "\u{1F512}",
        CategoryType::Style => "\u{1F48E}",
        CategoryType::Tests => "\u{1F6A6}",
        CategoryType::Unreleased => "\u{1F51C}",
        CategoryType::Workaround => "\u{1F648}",
    }
}

} // verus!
