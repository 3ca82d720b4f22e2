//! The closed set of change kinds, with the label and the icon of each.

use vstd::prelude::*;

verus! {

/// A kind of change. Every entry of a changelog is filed under exactly one.
#[derive(Debug, Copy, Clone, PartialEq, Eq, Hash, Structural)]
pub enum CategoryType {
    Changed,
    Added,
    Breaking,
    Deprecated,
    Docs,
    Experimental,
    Fixed,
    Improved,
    Noted,
    Performance,
    Refactored,
    Removed,
    Security,
    Style,
    Tests,
    Unreleased,
    Workaround,
}

/// The human-readable label of a category.
pub open spec fn category_label(category: CategoryType) -> Seq<char> {
    match category {
        CategoryType::Added => "added"@,
        CategoryType::Changed => "changed"@,
        CategoryType::Fixed => "fixed"@,
        CategoryType::Workaround => "workaround"@,
        CategoryType::Performance => "performance"@,
        CategoryType::Tests => "test"@,
        CategoryType::Removed => "removed"@,
        CategoryType::Improved => "improved"@,
        CategoryType::Breaking => "breaking"@,
        CategoryType::Deprecated => "deprecated"@,
        CategoryType::Refactored => "refactor"@,
        CategoryType::Experimental => "experimental"@,
        CategoryType::Docs => "docs"@,
        CategoryType::Noted => "known issue"@,
        CategoryType::Style => "style"@,
        CategoryType::Unreleased => "unreleased"@,
        CategoryType::Security => "security"@,
    }
}

/// The stable identifier of the icon that stands for a category.
pub open spec fn category_icon(category: CategoryType) -> Seq<char> {
    match category {
        CategoryType::Changed => "hammer_and_wrench"@,
        CategoryType::Added => "star2"@,
        CategoryType::Breaking => "triangular_flag_on_post"@,
        CategoryType::Deprecated => "spider_web"@,
        CategoryType::Docs => "book"@,
        CategoryType::Experimental => "alembic"@,
        CategoryType::Fixed => "lady_beetle"@,
        CategoryType::Improved => "art"@,
        CategoryType::Noted => "warning"@,
        CategoryType::Performance => "zap"@,
        CategoryType::Refactored => "recycle"@,
        CategoryType::Removed => "fire"@,
        CategoryType::Security => "lock"@,
        CategoryType::Style => "gem"@,
        CategoryType::Tests => "vertical_traffic_light"@,
        CategoryType::Unreleased => "soon"@,
        CategoryType::Workaround => "see_no_evil"@,
    }
}

/// The order in which the categories of one block of changes are shown,
/// whatever the order in which they were written down.
pub open spec fn presentation_order() -> Seq<CategoryType> {
    seq![
        CategoryType::Unreleased,
        CategoryType::Breaking,
        CategoryType::Added,
        CategoryType::Fixed,
        CategoryType::Workaround,
        CategoryType::Changed,
        CategoryType::Removed,
        CategoryType::Improved,
        CategoryType::Docs,
        CategoryType::Tests,
        CategoryType::Refactored,
        CategoryType::Deprecated,
        CategoryType::Experimental,
        CategoryType::Noted,
        CategoryType::Performance,
        CategoryType::Style,
        CategoryType::Security,
    ]
}

/// Returns the label of a category.
pub fn description_from_category(category_type: &CategoryType) -> (label: &'static str)
    ensures
        label@ == category_label(*category_type),
{
    match category_type {
        CategoryType::Added => "added",
        CategoryType::Changed => "changed",
        CategoryType::Fixed => "fixed",
        CategoryType::Workaround => "workaround",
        CategoryType::Performance => "performance",
        CategoryType::Tests => "test",
        CategoryType::Removed => "removed",
        CategoryType::Improved => "improved",
        CategoryType::Breaking => "breaking",
        CategoryType::Deprecated => "deprecated",
        CategoryType::Refactored => "refactor",
        CategoryType::Experimental => "experimental",
        CategoryType::Docs => "docs",
        CategoryType::Noted => "known issue",
        CategoryType::Style => "style",
        CategoryType::Unreleased => "unreleased",
        CategoryType::Security => "security",
    }
}

/// Returns the identifier of the icon of a category.
pub fn icon_from_category(category_type: &CategoryType) -> (icon: &'static str)
    ensures
        icon@ == category_icon(*category_type),
{
    match category_type {
        CategoryType::Changed => "hammer_and_wrench",
        CategoryType::Added => "star2",
        CategoryType::Breaking => "triangular_flag_on_post",
        CategoryType::Deprecated => "spider_web",
        CategoryType::Docs => "book",
        CategoryType::Experimental => "alembic",
        CategoryType::Fixed => "lady_beetle",
        CategoryType::Improved => "art",
        CategoryType::Noted => "warning",
        CategoryType::Performance => "zap",
        CategoryType::Refactored => "recycle",
        CategoryType::Removed => "fire",
        CategoryType::Security => "lock",
        CategoryType::Style => "gem",
        CategoryType::Tests => "vertical_traffic_light",
        CategoryType::Unreleased => "soon",
        CategoryType::Workaround => "see_no_evil",
    }
}

/// Returns the categories in the order in which they are shown.
pub fn categories_in_order() -> (order: Vec<CategoryType>)
    ensures
        order@ == presentation_order(),
{
    vec![
        CategoryType::Unreleased,
        CategoryType::Breaking,
        CategoryType::Added,
        CategoryType::Fixed,
        CategoryType::Workaround,
        CategoryType::Changed,
        CategoryType::Removed,
        CategoryType::Improved,
        CategoryType::Docs,
        CategoryType::Tests,
        CategoryType::Refactored,
        CategoryType::Deprecated,
        CategoryType::Experimental,
        CategoryType::Noted,
        CategoryType::Performance,
        CategoryType::Style,
        CategoryType::Security,
    ]
}

/// Every category has its place in the presentation order, and only one.
pub proof fn lemma_presentation_order_is_complete(category: CategoryType)
    ensures
        exists|k: int|
            0 <= k < presentation_order().len() && #[trigger] presentation_order()[k] == category,
        forall|j: int, k: int|
            0 <= j < k < presentation_order().len() ==> presentation_order()[j]
                != presentation_order()[k],
        presentation_order().len() == 17,
{
    let k: int = match category {
        CategoryType::Unreleased => 0,
        CategoryType::Breaking => 1,
        CategoryType::Added => 2,
        CategoryType::Fixed => 3,
        CategoryType::Workaround => 4,
        CategoryType::Changed => 5,
        CategoryType::Removed => 6,
        CategoryType::Improved => 7,
        CategoryType::Docs => 8,
        CategoryType::Tests => 9,
        CategoryType::Refactored => 10,
        CategoryType::Deprecated => 11,
        CategoryType::Experimental => 12,
        CategoryType::Noted => 13,
        CategoryType::Performance => 14,
        CategoryType::Style => 15,
        CategoryType::Security => 16,
    };
    assert(presentation_order()[k] == category);
}

} // verus!
