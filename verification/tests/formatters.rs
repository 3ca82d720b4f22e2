use changelog_yaml::category::{categories_in_order, description_from_category, icon_from_category};
use changelog_yaml::emoji::{github_icon, utf8_icon};
use changelog_yaml::formatter::{
    AdmonitionFormatter, AdmonitionType, EmojiFormatter, HeadingFormatter, LinkFormatter,
};
use changelog_yaml::formatters::ascii_doc::{
    admonition_type_to_asciidoc_keyword, character_reference_text, emoji_name_to_unicode,
    AsciiDocFormatter,
};
use changelog_yaml::formatters::markdown_github::{
    admonition_type_to_github_name, MarkdownGitHubFormatter,
};
use changelog_yaml::CategoryType;

const ALL: [CategoryType; 17] = [
    CategoryType::Changed,
    CategoryType::Added,
    CategoryType::Breaking,
    CategoryType::Deprecated,
    CategoryType::Docs,
    CategoryType::Experimental,
    CategoryType::Fixed,
    CategoryType::Improved,
    CategoryType::Noted,
    CategoryType::Performance,
    CategoryType::Refactored,
    CategoryType::Removed,
    CategoryType::Security,
    CategoryType::Style,
    CategoryType::Tests,
    CategoryType::Unreleased,
    CategoryType::Workaround,
];

#[test]
fn markdown_heading_repeats_the_hash() {
    let f = MarkdownGitHubFormatter {};
    assert_eq!(f.heading(1, "Changelog"), "# Changelog");
    assert_eq!(f.heading(2, "two"), "## two");
    assert_eq!(f.heading(3, "three"), "### three");
    assert_eq!(f.heading(6, ""), "###### ");
}

#[test]
fn asciidoc_heading_repeats_the_equals_sign() {
    let f = AsciiDocFormatter {};
    assert_eq!(f.heading(1, "Changelog"), "= Changelog");
    assert_eq!(f.heading(4, "four"), "==== four");
    assert_eq!(f.heading(6, "six"), "====== six");
}

#[test]
fn links_in_both_markups() {
    assert_eq!(
        MarkdownGitHubFormatter {}.link("text", "https://example.org/x"),
        "[text](https://example.org/x)"
    );
    assert_eq!(
        AsciiDocFormatter {}.link("text", "https://example.org/x"),
        "link:https://example.org/x[text]"
    );
    assert_eq!(MarkdownGitHubFormatter {}.link("", ""), "[]()");
    assert_eq!(AsciiDocFormatter {}.link("", ""), "link:[]");
}

#[test]
fn admonitions_in_both_markups() {
    let f = MarkdownGitHubFormatter {};
    assert_eq!(f.admonition(AdmonitionType::Note, "body"), "> [!NOTE]\\\n> body");
    assert_eq!(f.admonition(AdmonitionType::Important, "body"), "> [!IMPORTANT]\\\n> body");
    assert_eq!(f.admonition(AdmonitionType::Warning, ""), "> [!WARNING]\\\n> ");
    let g = AsciiDocFormatter {};
    assert_eq!(g.admonition(AdmonitionType::Note, "body"), "NOTE: body");
    assert_eq!(g.admonition(AdmonitionType::Important, "body"), "IMPORTANT: body");
    assert_eq!(g.admonition(AdmonitionType::Warning, "body"), "WARNING: body");
}

#[test]
fn admonition_names() {
    assert_eq!(admonition_type_to_github_name(AdmonitionType::Note), "NOTE");
    assert_eq!(admonition_type_to_github_name(AdmonitionType::Important), "IMPORTANT");
    assert_eq!(admonition_type_to_github_name(AdmonitionType::Warning), "WARNING");
    assert_eq!(admonition_type_to_asciidoc_keyword(AdmonitionType::Note), "NOTE");
    assert_eq!(admonition_type_to_asciidoc_keyword(AdmonitionType::Important), "IMPORTANT");
    assert_eq!(admonition_type_to_asciidoc_keyword(AdmonitionType::Warning), "WARNING");
}

#[test]
fn release_icon_in_both_markups() {
    assert_eq!(MarkdownGitHubFormatter {}.emoji_tag(), ":bookmark:");
    assert_eq!(AsciiDocFormatter {}.emoji_tag(), "&#x1F516;");
}

#[test]
fn icon_table_has_its_eighteen_entries() {
    let entries = [
        ("bookmark", 0x1F516),
        ("triangular_flag_on_post", 0x1F6A9),
        ("star2", 0x1F31F),
        ("hammer_and_wrench", 0x1F6E0),
        ("lady_beetle", 0x1F41E),
        ("see_no_evil", 0x1F648),
        ("zap", 0x26A1),
        ("vertical_traffic_light", 0x1F6A6),
        ("fire", 0x1F525),
        ("art", 0x1F3A8),
        ("spider_web", 0x1F578),
        ("recycle", 0x267B),
        ("alembic", 0x2697),
        ("book", 0x1F4D6),
        ("warning", 0x26A0),
        ("gem", 0x1F48E),
        ("soon", 0x1F51C),
        ("lock", 0x1F512),
    ];
    for (name, code_point) in entries {
        assert_eq!(emoji_name_to_unicode(name), Some(code_point), "{}", name);
    }
    assert_eq!(emoji_name_to_unicode("rocket"), None);
    assert_eq!(emoji_name_to_unicode(""), None);
    assert_eq!(emoji_name_to_unicode("Bookmark"), None);
    assert_eq!(emoji_name_to_unicode(":fire:"), None);
}

#[test]
fn every_category_has_an_icon_in_both_markups() {
    let f = MarkdownGitHubFormatter {};
    let g = AsciiDocFormatter {};
    for category in ALL {
        let name = icon_from_category(&category);
        assert_eq!(f.emoji(&category), format!(":{}:", name));
        assert_eq!(f.emoji(&category), github_icon(&category));
        let code_point = emoji_name_to_unicode(name).unwrap();
        assert_eq!(g.emoji(&category), format!("&#x{:X};", code_point));
        assert_eq!(character_reference_text(code_point), format!("&#x{:X};", code_point));
    }
    assert_eq!(g.emoji(&CategoryType::Added), "&#x1F31F;");
    assert_eq!(g.emoji(&CategoryType::Noted), "&#x26A0;");
    assert_eq!(g.emoji(&CategoryType::Security), "&#x1F512;");
}

#[test]
fn github_icons() {
    let expected = [
        ":hammer_and_wrench:",
        ":star2:",
        ":triangular_flag_on_post:",
        ":spider_web:",
        ":book:",
        ":alembic:",
        ":lady_beetle:",
        ":art:",
        ":warning:",
        ":zap:",
        ":recycle:",
        ":fire:",
        ":lock:",
        ":gem:",
        ":vertical_traffic_light:",
        ":soon:",
        ":see_no_evil:",
    ];
    for i in 0..17 {
        assert_eq!(github_icon(&ALL[i]), expected[i]);
    }
}

#[test]
fn utf8_icons() {
    let expected = [
        "\u{1F6E0}\u{FE0F}",
        "\u{2728}",
        "\u{1F6A9}",
        "\u{1F578}\u{FE0F}",
        "\u{1F4D6}",
        "\u{2697}\u{FE0F}",
        "\u{1F41E}",
        "\u{1F3A8}",
        "\u{26A0}\u{FE0F}",
        "\u{26A1}",
        "\u{267B}\u{FE0F}",
        "\u{1F525}",
        "\u{1F512}",
        "\u{1F48E}",
        "\u{1F6A6}",
        "\u{1F51C}",
        "\u{1F648}",
    ];
    for i in 0..17 {
        assert_eq!(utf8_icon(&ALL[i]), expected[i]);
    }
}

#[test]
fn category_labels() {
    let expected = [
        "changed",
        "added",
        "breaking",
        "deprecated",
        "docs",
        "experimental",
        "fixed",
        "improved",
        "known issue",
        "performance",
        "refactor",
        "removed",
        "security",
        "style",
        "test",
        "unreleased",
        "workaround",
    ];
    for i in 0..17 {
        assert_eq!(description_from_category(&ALL[i]), expected[i]);
    }
}

#[test]
fn presentation_order_is_the_fixed_one() {
    assert_eq!(
        categories_in_order(),
        vec![
            CategoryType::Unreleased,
            CategoryType::Breaking,
            CategoryType::Added,
            CategoryType::Fixed,
            CategoryType::Workaround,
            CategoryType::Changed,
            CategoryType::Removed,
            CategoryType::Improved,
            CategoryType::Docs,
            CategoryType::Tests,
            CategoryType::Refactored,
            CategoryType::Deprecated,
            CategoryType::Experimental,
            CategoryType::Noted,
            CategoryType::Performance,
            CategoryType::Style,
            CategoryType::Security,
        ]
    );
}

#[test]
fn icons_by_identifier() {
    let f = MarkdownGitHubFormatter {};
    assert_eq!(f.emoji_by_name("fire"), Some(":fire:".to_string()));
    assert_eq!(f.emoji_by_name("rocket"), Some(":rocket:".to_string()));
    assert_eq!(f.emoji_by_name("bookmark"), Some(f.emoji_tag()));
    let g = AsciiDocFormatter {};
    assert_eq!(g.emoji_by_name("fire"), Some("&#x1F525;".to_string()));
    assert_eq!(g.emoji_by_name("bookmark"), Some(g.emoji_tag()));
    assert_eq!(g.emoji_by_name("rocket"), None);
    assert_eq!(g.emoji_by_name("noted"), None);
    for category in ALL {
        assert_eq!(f.emoji_by_name(icon_from_category(&category)), Some(f.emoji(&category)));
        assert_eq!(g.emoji_by_name(icon_from_category(&category)), Some(g.emoji(&category)));
    }
}
