use changelog_yaml::error::RenderError;
use changelog_yaml::formatters::ascii_doc::AsciiDocFormatter;
use changelog_yaml::formatters::markdown_github::MarkdownGitHubFormatter;
use changelog_yaml::model::{Changes, DependencyRepoInfo, Document, Release, RepoRegistry, Section};
use changelog_yaml::render::{
    format_from_mode, render_as, render_changes, render_document, render_line,
    render_optional_list, OutputFormat,
};
use changelog_yaml::CategoryType;
use indexmap::IndexMap;

fn texts(items: &[&str]) -> Option<Vec<String>> {
    Some(items.iter().map(|s| s.to_string()).collect())
}

fn lines(items: &[&str]) -> Result<Vec<String>, RenderError> {
    Ok(items.iter().map(|s| s.to_string()).collect())
}

fn one_section_document(changes: Changes) -> Document {
    let mut sections = IndexMap::new();
    sections.insert("General".to_string(), Section { notice: None, changes });
    let mut releases = IndexMap::new();
    releases.insert(
        "1.0.0".to_string(),
        Release {
            date: "2024-01-01".to_string(),
            notice: None,
            repos: None,
            sections: Some(sections),
            packages: None,
        },
    );
    Document { repo: "acme/widget".to_string(), releases, repos: None }
}

fn full_document(with_registry: bool) -> Document {
    let mut sections = IndexMap::new();
    sections.insert(
        " Engine ".to_string(),
        Section {
            notice: Some("WARNING: slow".to_string()),
            changes: Changes {
                added: texts(&["Support for #42 by @alice"]),
                breaking: texts(&["Drop $abc123"]),
                ..Changes::default()
            },
        },
    );
    let mut packages = IndexMap::new();
    packages.insert(
        "widget-core".to_string(),
        Changes { fixed: texts(&["  Fix crash  "]), ..Changes::default() },
    );
    let mut repos = IndexMap::new();
    repos.insert("gadget".to_string(), Changes { changed: texts(&["Use #7"]), ..Changes::default() });
    repos.insert("plain".to_string(), Changes::default());
    let mut releases = IndexMap::new();
    releases.insert(
        "1.1.0".to_string(),
        Release {
            date: "2024-02-01".to_string(),
            notice: Some("  NOTE: upgrade soon, says @bob  ".to_string()),
            repos: Some(repos),
            sections: Some(sections),
            packages: Some(packages),
        },
    );
    releases.insert(
        "1.0.0".to_string(),
        Release {
            date: "2024-01-01".to_string(),
            notice: None,
            repos: None,
            sections: None,
            packages: None,
        },
    );
    let registry = if with_registry {
        let mut known = RepoRegistry::new();
        known.insert(
            "gadget".to_string(),
            DependencyRepoInfo {
                repo: "acme/gadget".to_string(),
                name: "gadget".to_string(),
                description: "A gadget".to_string(),
            },
        );
        known.insert(
            "plain".to_string(),
            DependencyRepoInfo {
                repo: "acme/plain".to_string(),
                name: "plain".to_string(),
                description: "".to_string(),
            },
        );
        Some(known)
    } else {
        None
    };
    Document { repo: "acme/widget".to_string(), releases, repos: registry }
}

#[test]
fn added_entry_renders_as_in_the_example() {
    let document =
        one_section_document(Changes { added: texts(&["Support for #42 by @alice"]), ..Changes::default() });
    let out = render_document(&document, &MarkdownGitHubFormatter {}).unwrap();
    assert!(out.contains(
        &"* :star2: Support for [#42](https://github.com/acme/widget/pull/42) by [@alice](https://github.com/alice)"
            .to_string()
    ));
    assert_eq!(
        Ok(out),
        lines(&[
            "# Changelog",
            "",
            "## :bookmark: [1.0.0](https://github.com/acme/widget/releases/tag/1.0.0) (2024-01-01)",
            "",
            "",
            "### General",
            "",
            "* :star2: Support for [#42](https://github.com/acme/widget/pull/42) by [@alice](https://github.com/alice)",
        ])
    );
}

#[test]
fn full_document_in_markdown() {
    let out = render_document(&full_document(true), &MarkdownGitHubFormatter {});
    assert_eq!(
        out,
        lines(&[
            "# Changelog",
            "",
            "## :bookmark: [1.1.0](https://github.com/acme/widget/releases/tag/1.1.0) (2024-02-01)",
            "",
            "> [!NOTE]\\\n> upgrade soon, says [@bob](https://github.com/bob)",
            "",
            "### Engine",
            "",
            "> [!WARNING]\\\n> slow",
            "",
            "* :triangular_flag_on_post:[breaking] Drop [abc123](https://github.com/acme/widget/commit/abc123)",
            "* :star2: Support for [#42](https://github.com/acme/widget/pull/42) by [@alice](https://github.com/alice)",
            "",
            "### [widget-core](https://crates.io/crates/widget-core)",
            "",
            "* :lady_beetle: Fix crash",
            "",
            "### [gadget](https://github.com/acme/gadget) - A gadget",
            "",
            "* :hammer_and_wrench: Use [#7](https://github.com/acme/gadget/pull/7)",
            "",
            "### [plain](https://github.com/acme/plain)",
            "",
            "",
            "## :bookmark: [1.0.0](https://github.com/acme/widget/releases/tag/1.0.0) (2024-01-01)",
            "",
        ])
    );
}

#[test]
fn full_document_in_asciidoc() {
    let out = render_document(&full_document(true), &AsciiDocFormatter {});
    assert_eq!(
        out,
        lines(&[
            "= Changelog",
            "",
            "== &#x1F516; link:https://github.com/acme/widget/releases/tag/1.1.0[1.1.0] (2024-02-01)",
            "",
            "NOTE: upgrade soon, says link:https://github.com/bob[@bob]",
            "",
            "=== Engine",
            "",
            "WARNING: slow",
            "",
            "* &#x1F6A9;[breaking] Drop link:https://github.com/acme/widget/commit/abc123[abc123]",
            "* &#x1F31F; Support for link:https://github.com/acme/widget/pull/42[#42] by link:https://github.com/alice[@alice]",
            "",
            "=== link:https://crates.io/crates/widget-core[widget-core]",
            "",
            "* &#x1F41E; Fix crash",
            "",
            "=== link:https://github.com/acme/gadget[gadget] - A gadget",
            "",
            "* &#x1F6E0; Use link:https://github.com/acme/gadget/pull/7[#7]",
            "",
            "=== link:https://github.com/acme/plain[plain]",
            "",
            "",
            "== &#x1F516; link:https://github.com/acme/widget/releases/tag/1.0.0[1.0.0] (2024-01-01)",
            "",
        ])
    );
}

#[test]
fn rendering_twice_gives_the_same_lines() {
    let document = full_document(true);
    let f = MarkdownGitHubFormatter {};
    assert_eq!(render_document(&document, &f), render_document(&document, &f));
    let g = AsciiDocFormatter {};
    assert_eq!(render_document(&document, &g), render_document(&document, &g));
}

#[test]
fn both_formatters_give_the_same_number_of_lines() {
    let document = full_document(true);
    let a = render_document(&document, &MarkdownGitHubFormatter {}).unwrap();
    let b = render_document(&document, &AsciiDocFormatter {}).unwrap();
    assert_eq!(a.len(), b.len());
    for i in 0..a.len() {
        assert_eq!(a[i].is_empty(), b[i].is_empty());
        assert_eq!(a[i].starts_with("* "), b[i].starts_with("* "));
    }
}

#[test]
fn without_registry_no_dependency_repository_is_shown() {
    let out = render_document(&full_document(false), &MarkdownGitHubFormatter {}).unwrap();
    assert_eq!(
        Ok(out),
        lines(&[
            "# Changelog",
            "",
            "## :bookmark: [1.1.0](https://github.com/acme/widget/releases/tag/1.1.0) (2024-02-01)",
            "",
            "> [!NOTE]\\\n> upgrade soon, says [@bob](https://github.com/bob)",
            "",
            "### Engine",
            "",
            "> [!WARNING]\\\n> slow",
            "",
            "* :triangular_flag_on_post:[breaking] Drop [abc123](https://github.com/acme/widget/commit/abc123)",
            "* :star2: Support for [#42](https://github.com/acme/widget/pull/42) by [@alice](https://github.com/alice)",
            "",
            "### [widget-core](https://crates.io/crates/widget-core)",
            "",
            "* :lady_beetle: Fix crash",
            "",
            "## :bookmark: [1.0.0](https://github.com/acme/widget/releases/tag/1.0.0) (2024-01-01)",
            "",
        ])
    );
}

#[test]
fn dependency_repository_missing_from_registry_is_an_error() {
    let mut document = full_document(true);
    let mut known = RepoRegistry::new();
    known.insert(
        "gadget".to_string(),
        DependencyRepoInfo {
            repo: "acme/gadget".to_string(),
            name: "gadget".to_string(),
            description: "A gadget".to_string(),
        },
    );
    document.repos = Some(known);
    assert_eq!(
        render_document(&document, &MarkdownGitHubFormatter {}),
        Err(RenderError::UnknownRepository)
    );
}

#[test]
fn empty_changes_keep_the_heading() {
    let document = one_section_document(Changes::default());
    assert_eq!(
        render_document(&document, &MarkdownGitHubFormatter {}),
        lines(&[
            "# Changelog",
            "",
            "## :bookmark: [1.0.0](https://github.com/acme/widget/releases/tag/1.0.0) (2024-01-01)",
            "",
            "",
            "### General",
            "",
        ])
    );
    assert_eq!(render_changes("acme/widget", &Changes::default(), &AsciiDocFormatter {}), lines(&[]));
}

#[test]
fn empty_list_and_absent_list_render_nothing() {
    let f = MarkdownGitHubFormatter {};
    assert_eq!(render_optional_list("o/r", CategoryType::Added, &None, &f), lines(&[]));
    assert_eq!(render_optional_list("o/r", CategoryType::Added, &Some(vec![]), &f), lines(&[]));
}

#[test]
fn categories_come_in_the_presentation_order() {
    let changes = Changes {
        added: texts(&["added 1", "added 2"]),
        changed: texts(&["changed"]),
        deprecated: texts(&["deprecated"]),
        removed: texts(&["removed"]),
        fixed: texts(&["fixed"]),
        security: texts(&["security"]),
        improved: texts(&["improved"]),
        workaround: texts(&["workaround"]),
        tests: texts(&["tests"]),
        docs: texts(&["docs"]),
        refactored: texts(&["refactored"]),
        performance: texts(&["performance"]),
        breaking: texts(&["breaking"]),
        experimental: texts(&["experimental"]),
        noted: texts(&["noted"]),
        style: texts(&["style"]),
        unreleased: texts(&["unreleased"]),
    };
    assert_eq!(
        render_changes("o/r", &changes, &MarkdownGitHubFormatter {}),
        lines(&[
            "* :soon: unreleased",
            "* :triangular_flag_on_post:[breaking] breaking",
            "* :star2: added 1",
            "* :star2: added 2",
            "* :lady_beetle: fixed",
            "* :see_no_evil: workaround",
            "* :hammer_and_wrench: changed",
            "* :fire: removed",
            "* :art: improved",
            "* :book: docs",
            "* :vertical_traffic_light: tests",
            "* :recycle: refactored",
            "* :spider_web: deprecated",
            "* :alembic: experimental",
            "* :warning: noted",
            "* :zap: performance",
            "* :gem: style",
            "* :lock: security",
        ])
    );
    assert_eq!(
        render_changes("o/r", &changes, &AsciiDocFormatter {}),
        lines(&[
            "* &#x1F51C; unreleased",
            "* &#x1F6A9;[breaking] breaking",
            "* &#x1F31F; added 1",
            "* &#x1F31F; added 2",
            "* &#x1F41E; fixed",
            "* &#x1F648; workaround",
            "* &#x1F6E0; changed",
            "* &#x1F525; removed",
            "* &#x1F3A8; improved",
            "* &#x1F4D6; docs",
            "* &#x1F6A6; tests",
            "* &#x267B; refactored",
            "* &#x1F578; deprecated",
            "* &#x2697; experimental",
            "* &#x26A0; noted",
            "* &#x26A1; performance",
            "* &#x1F48E; style",
            "* &#x1F512; security",
        ])
    );
}

#[test]
fn entry_is_trimmed_before_it_is_rendered() {
    let f = MarkdownGitHubFormatter {};
    assert_eq!(
        render_line("o/r", &CategoryType::Fixed, &" \t a fix\u{3000}\n".to_string(), &f),
        Ok("* :lady_beetle: a fix".to_string())
    );
}

#[test]
fn entry_error_stops_the_document() {
    let document = one_section_document(Changes {
        added: texts(&["fine", "#123456789012345678901234567890", "never reached"]),
        ..Changes::default()
    });
    assert_eq!(
        render_document(&document, &MarkdownGitHubFormatter {}),
        Err(RenderError::PullRequestId)
    );
}

#[test]
fn mode_selects_the_markup() {
    assert_eq!(format_from_mode(Some("asciidoc")), OutputFormat::AsciiDoc);
    assert_eq!(format_from_mode(Some("markdown")), OutputFormat::MarkdownGitHub);
    assert_eq!(format_from_mode(Some("AsciiDoc")), OutputFormat::MarkdownGitHub);
    assert_eq!(format_from_mode(Some("")), OutputFormat::MarkdownGitHub);
    assert_eq!(format_from_mode(None), OutputFormat::MarkdownGitHub);
}

#[test]
fn render_as_uses_the_formatter_of_the_markup() {
    let document = full_document(true);
    assert_eq!(
        render_as(&document, OutputFormat::AsciiDoc),
        render_document(&document, &AsciiDocFormatter {})
    );
    assert_eq!(
        render_as(&document, OutputFormat::MarkdownGitHub),
        render_document(&document, &MarkdownGitHubFormatter {})
    );
}

fn info(repo: &str, description: &str) -> DependencyRepoInfo {
    DependencyRepoInfo {
        repo: repo.to_string(),
        name: repo.to_string(),
        description: description.to_string(),
    }
}

#[test]
fn everything_keeps_the_order_of_the_source() {
    let mut releases = IndexMap::new();
    for version in ["0.1.0", "2.0.0", "1.0.0"] {
        let mut sections = IndexMap::new();
        for name in ["zeta", "alpha", "mid"] {
            sections.insert(
                name.to_string(),
                Section {
                    notice: None,
                    changes: Changes { fixed: texts(&["z", "a", "m"]), ..Changes::default() },
                },
            );
        }
        let mut packages = IndexMap::new();
        for name in ["tools", "core"] {
            packages.insert(name.to_string(), Changes::default());
        }
        let mut repos = IndexMap::new();
        for name in ["r2", "r3", "r1"] {
            repos.insert(name.to_string(), Changes::default());
        }
        releases.insert(
            version.to_string(),
            Release {
                date: "d".to_string(),
                notice: None,
                repos: Some(repos),
                sections: Some(sections),
                packages: Some(packages),
            },
        );
    }
    let mut known = RepoRegistry::new();
    known.insert("r1".to_string(), info("o/r1", ""));
    known.insert("r2".to_string(), info("o/r2", ""));
    known.insert("r3".to_string(), info("o/r3", ""));
    let document = Document { repo: "o/r".to_string(), releases, repos: Some(known) };
    let out = render_document(&document, &AsciiDocFormatter {}).unwrap();
    let headings: Vec<&str> =
        out.iter().map(|line| line.as_str()).filter(|line| line.starts_with("==")).collect();
    let mut expected: Vec<String> = Vec::new();
    for version in ["0.1.0", "2.0.0", "1.0.0"] {
        expected.push(format!(
            "== &#x1F516; link:https://github.com/o/r/releases/tag/{}[{}] (d)",
            version, version
        ));
        for name in ["zeta", "alpha", "mid"] {
            expected.push(format!("=== {}", name));
        }
        for name in ["tools", "core"] {
            expected.push(format!("=== link:https://crates.io/crates/{}[{}]", name, name));
        }
        for name in ["r2", "r3", "r1"] {
            expected.push(format!("=== link:https://github.com/o/{}[{}]", name, name));
        }
    }
    assert_eq!(headings, expected);
    let entries: Vec<&str> =
        out.iter().map(|line| line.as_str()).filter(|line| line.starts_with("* ")).collect();
    assert_eq!(entries.len(), 27);
    for (i, line) in entries.iter().enumerate() {
        assert_eq!(*line, format!("* &#x1F41E; {}", ["z", "a", "m"][i % 3]));
    }
}

#[test]
fn dependency_entries_point_into_the_dependency_repository() {
    let mut repos = IndexMap::new();
    repos.insert(
        "gadget".to_string(),
        Changes { breaking: texts(&["#1 $ab @c"]), ..Changes::default() },
    );
    let mut releases = IndexMap::new();
    releases.insert(
        "1.0.0".to_string(),
        Release {
            date: "2024-01-01".to_string(),
            notice: None,
            repos: Some(repos),
            sections: None,
            packages: None,
        },
    );
    let mut known = RepoRegistry::new();
    known.insert("gadget".to_string(), info("acme/gadget", "  "));
    let document = Document { repo: "acme/widget".to_string(), releases, repos: Some(known) };
    assert_eq!(
        render_document(&document, &MarkdownGitHubFormatter {}),
        lines(&[
            "# Changelog",
            "",
            "## :bookmark: [1.0.0](https://github.com/acme/widget/releases/tag/1.0.0) (2024-01-01)",
            "",
            "",
            "### [gadget](https://github.com/acme/gadget) -",
            "",
            "* :triangular_flag_on_post:[breaking] [#1](https://github.com/acme/gadget/pull/1) [ab](https://github.com/acme/gadget/commit/ab) [@c](https://github.com/c)",
        ])
    );
}

#[test]
fn notice_with_unknown_shape_is_rendered_as_it_stands() {
    let mut releases = IndexMap::new();
    releases.insert(
        "1.0.0".to_string(),
        Release {
            date: "2024-01-01".to_string(),
            notice: Some("\n plain words \n".to_string()),
            repos: None,
            sections: None,
            packages: None,
        },
    );
    let document = Document { repo: "acme/widget".to_string(), releases, repos: None };
    assert_eq!(
        render_document(&document, &AsciiDocFormatter {}),
        lines(&[
            "= Changelog",
            "",
            "== &#x1F516; link:https://github.com/acme/widget/releases/tag/1.0.0[1.0.0] (2024-01-01)",
            "",
            "plain words",
        ])
    );
}

#[test]
fn document_without_releases_is_its_title() {
    let document =
        Document { repo: "acme/widget".to_string(), releases: IndexMap::new(), repos: None };
    assert_eq!(render_document(&document, &MarkdownGitHubFormatter {}), lines(&["# Changelog"]));
    assert_eq!(render_document(&document, &AsciiDocFormatter {}), lines(&["= Changelog"]));
}
