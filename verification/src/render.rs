//! Rendering: a document goes in, the lines of the output come out.
//!
//! The functions walk the document in the order of its outline and ask the
//! formatter for each line. Each returns the lines of its part of the
//! document, or the first failure it meets.

use vstd::prelude::*;
use vstd::string::*;
use indexmap::IndexMap;
use crate::category::{categories_in_order, description_from_category, CategoryType};
use crate::error::{lines_of, text_of, texts, RenderError};
use crate::formatter::{AdmonitionFormatter, EmojiFormatter, HeadingFormatter, LinkFormatter};
use crate::formatters::ascii_doc::AsciiDocFormatter;
use crate::formatters::markdown_github::MarkdownGitHubFormatter;
use crate::model::{
    changes_in_order,
    known_repositories,
    optional_registry,
    named_changes,
    named_sections,
    optional_texts,
    releases_in_order,
    sections_in_order,
    Changes,
    Document,
    Release,
    RepoRegistry,
    Section,
};
use crate::outline::{
    category_entries,
    changes_outline,
    dependencies_outline,
    dependency_outline,
    dependency_part,
    document_outline,
    entries_by_category,
    entry_markup,
    entry_writer,
    heading_block,
    lemma_written_changes_outline,
    lemma_written_concat,
    lemma_flat_map_step,
    lemma_written_heading_block,
    lemma_written_one,
    lemma_written_prefix,
    lemma_written_step,
    line_writer,
    ordered_entries,
    package_outline,
    package_part,
    packages_outline,
    release_outline,
    release_part,
    repository_title,
    section_outline,
    section_part,
    sections_outline,
    written,
    LineItem,
    CRATES_URL_PREFIX,
};
use crate::substitution::{replace_line, replace_notice, GITHUB_URL_PREFIX};
use crate::text::{same_text, trim};

verus! {

/// The texts of two runs of lines, one after the other.
proof fn lemma_texts_concat(first: Seq<String>, second: Seq<String>)
    ensures
        texts(first + second) == texts(first) + texts(second),
{
    assert(texts(first + second) =~= texts(first) + texts(second));
}

/// Renders one change: a bullet, the icon of its category, the label too if
/// it is a breaking change, and the trimmed text with its references turned
/// into links.
pub fn render_line<F: LinkFormatter + EmojiFormatter>(
    repo_url: &str,
    change_type: &CategoryType,
    s: &String,
    formatter: &F,
) -> (result: Result<String, RenderError>)
    ensures
        text_of(result) == entry_markup(formatter, repo_url@, *change_type, s@),
{
    let replaced = replace_line(trim(s.as_str()), repo_url, formatter)?;
    let mut line = "* ".to_owned();
    let icon = formatter.emoji(change_type);
    line.append(icon.as_str());
    match change_type {
        CategoryType::Breaking => {
            line.append("[");
            line.append(description_from_category(change_type));
            line.append("] ");
        },
        _ => {
            line.append(" ");
        },
    }
    line.append(replaced.as_str());
    Ok(line)
}

/// Renders the entries of one category, in their order. A category that was
/// not written down gives no line.
pub fn render_optional_list<F: LinkFormatter + EmojiFormatter>(
    repo_url: &str,
    change_type: CategoryType,
    list: &Option<Vec<String>>,
    formatter: &F,
) -> (result: Result<Vec<String>, RenderError>)
    ensures
        lines_of(result) == written(
            category_entries(change_type, optional_texts(*list)),
            entry_writer(formatter, repo_url@),
        ),
{
    let mut lines: Vec<String> = Vec::new();
    if let Some(items) = list {
        let ghost entries = category_entries(change_type, optional_texts(*list));
        let ghost write = entry_writer(formatter, repo_url@);
        let mut i: usize = 0;
        proof {
            assert(texts(lines@) =~= Seq::<Seq<char>>::empty());
        }
        while i < items.len()
            invariant
                i <= items.len(),
                *list == Some(*items),
                entries == category_entries(change_type, optional_texts(*list)),
                write == entry_writer(formatter, repo_url@),
                written(entries.take(i as int), write) == Ok::<Seq<Seq<char>>, RenderError>(
                    texts(lines@),
                ),
            decreases items.len() - i,
        {
            proof {
                assert(entries.take(i + 1).drop_last() =~= entries.take(i as int));
                assert(entries.take(i + 1).last() == (change_type, items@[i as int]@));
                lemma_written_prefix(entries, write, i + 1);
            }
            match render_line(repo_url, &change_type, &items[i], formatter) {
                Err(e) => {
                    return Err(e);
                },
                Ok(line) => {
                    proof {
                        assert(texts(lines@.push(line)) =~= texts(lines@).push(line@));
                    }
                    lines.push(line);
                },
            }
            i += 1;
        }
        proof {
            assert(entries.take(i as int) =~= entries);
        }
    } else {
        proof {
            assert(texts(lines@) =~= Seq::<Seq<char>>::empty());
        }
    }
    Ok(lines)
}

/// Renders a block of changes: its categories in the presentation order,
/// and the entries of each in the order of the source.
pub fn render_changes<F: LinkFormatter + EmojiFormatter>(
    repo_url: &str,
    changes: &Changes,
    formatter: &F,
) -> (result: Result<Vec<String>, RenderError>)
    ensures
        lines_of(result) == written(
            ordered_entries(changes@),
            entry_writer(formatter, repo_url@),
        ),
{
    let order = categories_in_order();
    let mut lines: Vec<String> = Vec::new();
    let ghost part = entries_by_category(changes@);
    let ghost write = entry_writer(formatter, repo_url@);
    let mut k: usize = 0;
    proof {
        assert(order@.take(0).flat_map(part) =~= Seq::<(CategoryType, Seq<char>)>::empty());
        assert(texts(lines@) =~= Seq::<Seq<char>>::empty());
    }
    while k < order.len()
        invariant
            k <= order.len(),
            order@ == crate::category::presentation_order(),
            part == entries_by_category(changes@),
            write == entry_writer(formatter, repo_url@),
            written(order@.take(k as int).flat_map(part), write) == Ok::<
                Seq<Seq<char>>,
                RenderError,
            >(texts(lines@)),
        decreases order.len() - k,
    {
        let category = order[k];
        let list = changes.list(category);
        proof {
            lemma_written_step(order@, part, write, k as int);
            assert(optional_texts(*list) == changes@.get(category));
        }
        match render_optional_list(repo_url, category, list, formatter) {
            Err(e) => {
                return Err(e);
            },
            Ok(mut more) => {
                proof {
                    lemma_texts_concat(lines@, more@);
                }
                lines.append(&mut more);
            },
        }
        k += 1;
    }
    proof {
        assert(order@.take(k as int) =~= order@);
    }
    Ok(lines)
}

/// A heading with an empty line before it and one after it.
fn heading_lines(heading: String) -> (lines: Vec<String>)
    ensures
        texts(lines@) == seq![Seq::<char>::empty(), heading@, Seq::<char>::empty()],
{
    let mut lines: Vec<String> = Vec::new();
    lines.push(String::new());
    lines.push(heading);
    lines.push(String::new());
    assert(texts(lines@) =~= seq![Seq::<char>::empty(), heading@, Seq::<char>::empty()]);
    lines
}

/// Renders a section: its heading, its notice if it has one, and its
/// changes, whose references point into the repository `repo_url`.
pub fn render_section<F: AdmonitionFormatter + LinkFormatter + HeadingFormatter + EmojiFormatter>(
    repo_url: &str,
    section_name: &str,
    section: &Section,
    formatter: &F,
) -> (result: Result<Vec<String>, RenderError>)
    ensures
        lines_of(result) == written(
            section_outline(repo_url@, section_name@, section@),
            line_writer(formatter),
        ),
{
    let ghost write = line_writer(formatter);
    let ghost head = heading_block(LineItem::SectionHeading { name: section_name@ });
    let ghost note = match section@.notice {
        Some(text) => seq![LineItem::Notice { text }, LineItem::Blank],
        None => Seq::empty(),
    };
    let ghost body = changes_outline(repo_url@, section@.changes);
    proof {
        lemma_written_heading_block(LineItem::SectionHeading { name: section_name@ }, write);
        lemma_written_concat(head, note, write);
        lemma_written_concat(head + note, body, write);
        lemma_written_changes_outline(formatter, repo_url@, section@.changes);
    }
    let mut lines = heading_lines(formatter.heading(3, trim(section_name)));
    match &section.notice {
        Some(notice) => {
            proof {
                let item = LineItem::Notice { text: notice@ };
                lemma_written_one(item, write);
                lemma_written_one(LineItem::Blank, write);
                lemma_written_concat(seq![item], seq![LineItem::Blank], write);
                assert(note =~= seq![item] + seq![LineItem::Blank]);
            }
            let text = replace_notice(trim(notice.as_str()), formatter)?;
            let blank = String::new();
            proof {
                assert(texts(lines@.push(text).push(blank)) =~= texts(lines@) + (seq![text@]
                    + seq![Seq::<char>::empty()]));
            }
            lines.push(text);
            lines.push(blank);
        },
        None => {
            proof {
                assert(texts(lines@) + Seq::<Seq<char>>::empty() =~= texts(lines@));
            }
        },
    }
    let mut more = render_changes(repo_url, &section.changes, formatter)?;
    proof {
        lemma_texts_concat(lines@, more@);
    }
    lines.append(&mut more);
    Ok(lines)
}

/// Renders a package: a heading that links to the page of the package, and
/// its changes, whose references point into the repository `repo_url`.
pub fn render_package<F: AdmonitionFormatter + LinkFormatter + HeadingFormatter + EmojiFormatter>(
    repo_url: &str,
    package_name: &str,
    changes: &Changes,
    formatter: &F,
) -> (result: Result<Vec<String>, RenderError>)
    ensures
        lines_of(result) == written(
            package_outline(repo_url@, package_name@, changes@),
            line_writer(formatter),
        ),
{
    let ghost write = line_writer(formatter);
    let ghost head = heading_block(LineItem::PackageHeading { name: package_name@ });
    proof {
        lemma_written_heading_block(LineItem::PackageHeading { name: package_name@ }, write);
        lemma_written_concat(head, changes_outline(repo_url@, changes@), write);
        lemma_written_changes_outline(formatter, repo_url@, changes@);
    }
    let mut target = CRATES_URL_PREFIX.to_owned();
    target.append(package_name);
    let link = formatter.link(package_name, target.as_str());
    let mut lines = heading_lines(formatter.heading(3, link.as_str()));
    let mut more = render_changes(repo_url, changes, formatter)?;
    proof {
        lemma_texts_concat(lines@, more@);
    }
    lines.append(&mut more);
    Ok(lines)
}

/// Renders a dependency repository: a heading that links to the repository
/// and shows its description, and its changes, whose references point into
/// that repository. Fails where the registry does not know the name.
pub fn render_dependency<
    F: AdmonitionFormatter + LinkFormatter + HeadingFormatter + EmojiFormatter,
>(registry: &RepoRegistry, repo_name: &str, changes: &Changes, formatter: &F) -> (result: Result<
    Vec<String>,
    RenderError,
>)
    ensures
        lines_of(result) == written(
            dependency_outline(known_repositories(*registry), repo_name@, changes@),
            line_writer(formatter),
        ),
{
    let ghost write = line_writer(formatter);
    let ghost known = known_repositories(*registry);
    match registry.get(repo_name) {
        None => {
            proof {
                lemma_written_one(LineItem::UnknownRepository { name: repo_name@ }, write);
            }
            Err(RenderError::UnknownRepository)
        },
        Some(info) => {
            let ghost item = LineItem::RepositoryHeading { name: repo_name@, info: info@ };
            proof {
                assert(known[repo_name@] == info@);
                lemma_written_heading_block(item, write);
                lemma_written_concat(
                    heading_block(item),
                    changes_outline(info@.repo, changes@),
                    write,
                );
                lemma_written_changes_outline(formatter, info@.repo, changes@);
            }
            let mut target = GITHUB_URL_PREFIX.to_owned();
            target.append(info.repo.as_str());
            let mut title = formatter.link(repo_name, target.as_str());
            let ghost link = title@;
            if !info.description.as_str().is_empty() {
                title.append(" - ");
                title.append(info.description.as_str());
                proof {
                    assert(title@ =~= link + (" - "@ + info@.description));
                }
            } else {
                proof {
                    assert(title@ =~= link + Seq::<char>::empty());
                }
            }
            assert(title@ == repository_title(formatter, repo_name@, info@));
            let mut lines = heading_lines(formatter.heading(3, trim(title.as_str())));
            let mut more = render_changes(info.repo.as_str(), changes, formatter)?;
            proof {
                lemma_texts_concat(lines@, more@);
            }
            lines.append(&mut more);
            Ok(lines)
        },
    }
}

/// Renders the sections of a release, in the order of the source.
pub fn render_sections<F: AdmonitionFormatter + LinkFormatter + HeadingFormatter + EmojiFormatter>(
    repo_url: &str,
    sections: &IndexMap<String, Section>,
    formatter: &F,
) -> (result: Result<Vec<String>, RenderError>)
    ensures
        lines_of(result) == written(
            sections_outline(repo_url@, named_sections(*sections)),
            line_writer(formatter),
        ),
{
    let entries = sections_in_order(sections);
    let mut lines: Vec<String> = Vec::new();
    let ghost named = named_sections(*sections);
    let ghost part = section_part(repo_url@);
    let ghost write = line_writer(formatter);
    let mut k: usize = 0;
    proof {
        assert(named.take(0).flat_map(part) =~= Seq::<LineItem>::empty());
        assert(texts(lines@) =~= Seq::<Seq<char>>::empty());
    }
    while k < entries.len()
        invariant
            k <= entries.len(),
            entries@.len() == named.len(),
            forall|i: int|
                0 <= i < entries@.len() ==> named[i] == ((#[trigger] entries@[i]).0@,
                    entries@[i].1@),
            named == named_sections(*sections),
            part == section_part(repo_url@),
            write == line_writer(formatter),
            written(named.take(k as int).flat_map(part), write) == Ok::<
                Seq<Seq<char>>,
                RenderError,
            >(texts(lines@)),
        decreases entries.len() - k,
    {
        let (name, section) = entries[k];
        proof {
            lemma_written_step(named, part, write, k as int);
        }
        match render_section(repo_url, name.as_str(), section, formatter) {
            Err(e) => {
                return Err(e);
            },
            Ok(mut more) => {
                proof {
                    lemma_texts_concat(lines@, more@);
                }
                lines.append(&mut more);
            },
        }
        k += 1;
    }
    proof {
        assert(named.take(k as int) =~= named);
    }
    Ok(lines)
}

/// Renders the packages of a release, in the order of the source.
pub fn render_packages<F: AdmonitionFormatter + LinkFormatter + HeadingFormatter + EmojiFormatter>(
    repo_url: &str,
    packages: &IndexMap<String, Changes>,
    formatter: &F,
) -> (result: Result<Vec<String>, RenderError>)
    ensures
        lines_of(result) == written(
            packages_outline(repo_url@, named_changes(*packages)),
            line_writer(formatter),
        ),
{
    let entries = changes_in_order(packages);
    let mut lines: Vec<String> = Vec::new();
    let ghost named = named_changes(*packages);
    let ghost part = package_part(repo_url@);
    let ghost write = line_writer(formatter);
    let mut k: usize = 0;
    proof {
        assert(named.take(0).flat_map(part) =~= Seq::<LineItem>::empty());
        assert(texts(lines@) =~= Seq::<Seq<char>>::empty());
    }
    while k < entries.len()
        invariant
            k <= entries.len(),
            entries@.len() == named.len(),
            forall|i: int|
                0 <= i < entries@.len() ==> named[i] == ((#[trigger] entries@[i]).0@,
                    entries@[i].1@),
            named == named_changes(*packages),
            part == package_part(repo_url@),
            write == line_writer(formatter),
            written(named.take(k as int).flat_map(part), write) == Ok::<
                Seq<Seq<char>>,
                RenderError,
            >(texts(lines@)),
        decreases entries.len() - k,
    {
        let (name, changes) = entries[k];
        proof {
            lemma_written_step(named, part, write, k as int);
        }
        match render_package(repo_url, name.as_str(), changes, formatter) {
            Err(e) => {
                return Err(e);
            },
            Ok(mut more) => {
                proof {
                    lemma_texts_concat(lines@, more@);
                }
                lines.append(&mut more);
            },
        }
        k += 1;
    }
    proof {
        assert(named.take(k as int) =~= named);
    }
    Ok(lines)
}

/// Renders the dependency repositories of a release, in the order of the
/// source.
pub fn render_dependencies<
    F: AdmonitionFormatter + LinkFormatter + HeadingFormatter + EmojiFormatter,
>(registry: &RepoRegistry, repos: &IndexMap<String, Changes>, formatter: &F) -> (result: Result<
    Vec<String>,
    RenderError,
>)
    ensures
        lines_of(result) == written(
            dependencies_outline(
                known_repositories(*registry),
                named_changes(*repos),
            ),
            line_writer(formatter),
        ),
{
    let entries = changes_in_order(repos);
    let mut lines: Vec<String> = Vec::new();
    let ghost named = named_changes(*repos);
    let ghost part = dependency_part(known_repositories(*registry));
    let ghost write = line_writer(formatter);
    let mut k: usize = 0;
    proof {
        assert(named.take(0).flat_map(part) =~= Seq::<LineItem>::empty());
        assert(texts(lines@) =~= Seq::<Seq<char>>::empty());
    }
    while k < entries.len()
        invariant
            k <= entries.len(),
            entries@.len() == named.len(),
            forall|i: int|
                0 <= i < entries@.len() ==> named[i] == ((#[trigger] entries@[i]).0@,
                    entries@[i].1@),
            named == named_changes(*repos),
            part == dependency_part(known_repositories(*registry)),
            write == line_writer(formatter),
            written(named.take(k as int).flat_map(part), write) == Ok::<
                Seq<Seq<char>>,
                RenderError,
            >(texts(lines@)),
        decreases entries.len() - k,
    {
        let (name, changes) = entries[k];
        proof {
            lemma_written_step(named, part, write, k as int);
        }
        match render_dependency(registry, name.as_str(), changes, formatter) {
            Err(e) => {
                return Err(e);
            },
            Ok(mut more) => {
                proof {
                    lemma_texts_concat(lines@, more@);
                }
                lines.append(&mut more);
            },
        }
        k += 1;
    }
    proof {
        assert(named.take(k as int) =~= named);
    }
    Ok(lines)
}

/// Renders a release of the repository `repo_url`: its heading, its notice,
/// its sections, its packages and, where there is a registry, its dependency
/// repositories.
pub fn render_release<F: AdmonitionFormatter + LinkFormatter + HeadingFormatter + EmojiFormatter>(
    repo_url: &str,
    registry: &Option<RepoRegistry>,
    release_version: &str,
    release: &Release,
    formatter: &F,
) -> (result: Result<Vec<String>, RenderError>)
    ensures
        lines_of(result) == written(
            release_outline(
                repo_url@,
                optional_registry(*registry),
                release_version@,
                release@,
            ),
            line_writer(formatter),
        ),
{
    let ghost write = line_writer(formatter);
    let ghost item = LineItem::ReleaseHeading {
        repo: repo_url@,
        version: release_version@,
        date: release@.date,
    };
    let ghost head = heading_block(item);
    let ghost note = match release@.notice {
        Some(text) => seq![LineItem::Notice { text }],
        None => Seq::empty(),
    };
    let ghost sections = match release@.sections {
        Some(named) => sections_outline(repo_url@, named),
        None => Seq::empty(),
    };
    let ghost packages = match release@.packages {
        Some(named) => packages_outline(repo_url@, named),
        None => Seq::empty(),
    };
    let ghost repos = match (optional_registry(*registry), release@.repos) {
        (Some(known), Some(named)) => dependencies_outline(known, named),
        _ => Seq::empty(),
    };
    proof {
        lemma_written_heading_block(item, write);
        lemma_written_concat(head, note, write);
        lemma_written_concat(head + note, sections, write);
        lemma_written_concat(head + note + sections, packages, write);
        lemma_written_concat(head + note + sections + packages, repos, write);
    }
    let mut target = GITHUB_URL_PREFIX.to_owned();
    target.append(repo_url);
    target.append("/releases/tag/");
    target.append(release_version);
    let mut title = formatter.emoji_tag();
    let link = formatter.link(release_version, target.as_str());
    title.append(" ");
    title.append(link.as_str());
    title.append(" (");
    title.append(release.date.as_str());
    title.append(")");
    let mut lines = heading_lines(formatter.heading(2, title.as_str()));
    match &release.notice {
        Some(notice) => {
            proof {
                lemma_written_one(LineItem::Notice { text: notice@ }, write);
            }
            let text = replace_notice(trim(notice.as_str()), formatter)?;
            proof {
                assert(texts(lines@.push(text)) =~= texts(lines@) + seq![text@]);
            }
            lines.push(text);
        },
        None => {
            proof {
                assert(texts(lines@) + Seq::<Seq<char>>::empty() =~= texts(lines@));
            }
        },
    }
    match &release.sections {
        Some(named) => {
            let mut more = render_sections(repo_url, named, formatter)?;
            proof {
                lemma_texts_concat(lines@, more@);
            }
            lines.append(&mut more);
        },
        None => {
            proof {
                assert(texts(lines@) + Seq::<Seq<char>>::empty() =~= texts(lines@));
            }
        },
    }
    match &release.packages {
        Some(named) => {
            let mut more = render_packages(repo_url, named, formatter)?;
            proof {
                lemma_texts_concat(lines@, more@);
            }
            lines.append(&mut more);
        },
        None => {
            proof {
                assert(texts(lines@) + Seq::<Seq<char>>::empty() =~= texts(lines@));
            }
        },
    }
    match (registry, &release.repos) {
        (Some(known), Some(named)) => {
            let mut more = render_dependencies(known, named, formatter)?;
            proof {
                lemma_texts_concat(lines@, more@);
            }
            lines.append(&mut more);
        },
        _ => {
            proof {
                assert(texts(lines@) + Seq::<Seq<char>>::empty() =~= texts(lines@));
            }
        },
    }
    Ok(lines)
}

/// Renders a whole document: the title, then every release in the order of
/// the source. Returns the lines of the output, or the first failure.
pub fn render_document<F: AdmonitionFormatter + LinkFormatter + HeadingFormatter + EmojiFormatter>(
    document: &Document,
    formatter: &F,
) -> (result: Result<Vec<String>, RenderError>)
    ensures
        lines_of(result) == written(document_outline(document@), line_writer(formatter)),
{
    let entries = releases_in_order(&document.releases);
    let ghost named = document@.releases;
    let ghost part = release_part(document@.repo, document@.repos);
    let ghost write = line_writer(formatter);
    let mut lines: Vec<String> = Vec::new();
    lines.push(formatter.heading(1, "Changelog"));
    let mut k: usize = 0;
    proof {
        lemma_written_one(LineItem::Title, write);
        assert(named.take(0).flat_map(part) =~= Seq::<LineItem>::empty());
        assert(seq![LineItem::Title] + named.take(0).flat_map(part) =~= seq![LineItem::Title]);
        assert(texts(lines@) =~= seq![lines@[0]@]);
    }
    while k < entries.len()
        invariant
            k <= entries.len(),
            entries@.len() == named.len(),
            forall|i: int|
                0 <= i < entries@.len() ==> named[i] == ((#[trigger] entries@[i]).0@,
                    entries@[i].1@),
            named == document@.releases,
            part == release_part(document@.repo, document@.repos),
            write == line_writer(formatter),
            written(seq![LineItem::Title], write) is Ok,
            written(seq![LineItem::Title] + named.take(k as int).flat_map(part), write) == Ok::<
                Seq<Seq<char>>,
                RenderError,
            >(texts(lines@)),
        decreases entries.len() - k,
    {
        let (version, release) = entries[k];
        proof {
            let title = seq![LineItem::Title];
            let before = named.take(k as int).flat_map(part);
            lemma_flat_map_step(named, part, k as int);
            lemma_written_concat(title + before, part(named[k as int]), write);
            assert(title + (before + part(named[k as int])) =~= (title + before) + part(
                named[k as int],
            ));
            lemma_written_concat(
                title + named.take(k + 1).flat_map(part),
                named.skip(k + 1).flat_map(part),
                write,
            );
            assert(title + named.flat_map(part) =~= (title + named.take(k + 1).flat_map(part))
                + named.skip(k + 1).flat_map(part));
        }
        match render_release(
            document.repo.as_str(),
            &document.repos,
            version.as_str(),
            release,
            formatter,
        ) {
            Err(e) => {
                return Err(e);
            },
            Ok(mut more) => {
                proof {
                    lemma_texts_concat(lines@, more@);
                }
                lines.append(&mut more);
            },
        }
        k += 1;
    }
    proof {
        assert(named.take(k as int) =~= named);
    }
    Ok(lines)
}

/// The markups that a document can be rendered in.
#[derive(Debug, Copy, Clone, PartialEq, Eq, Structural)]
pub enum OutputFormat {
    MarkdownGitHub,
    AsciiDoc,
}

/// The markup that a mode selects: AsciiDoc where the mode is `asciidoc`,
/// GitHub-flavoured Markdown for every other mode and where there is none.
pub open spec fn selected_format(mode: Option<Seq<char>>) -> OutputFormat {
    if mode == Some("asciidoc"@) {
        OutputFormat::AsciiDoc
    } else {
        OutputFormat::MarkdownGitHub
    }
}

/// Returns the markup that a mode selects.
pub fn format_from_mode(mode: Option<&str>) -> (format: OutputFormat)
    ensures
        format == selected_format(
            match mode {
                Some(name) => Some(name@),
                None => None,
            },
        ),
{
    match mode {
        Some(name) => {
            if same_text(name, "asciidoc") {
                OutputFormat::AsciiDoc
            } else {
                OutputFormat::MarkdownGitHub
            }
        },
        None => OutputFormat::MarkdownGitHub,
    }
}

/// What a document renders to in a markup.
pub open spec fn rendered(document: crate::model::DocumentView, format: OutputFormat) -> Result<
    Seq<Seq<char>>,
    RenderError,
> {
    match format {
        OutputFormat::MarkdownGitHub => written(
            document_outline(document),
            line_writer(&MarkdownGitHubFormatter {  }),
        ),
        OutputFormat::AsciiDoc => written(
            document_outline(document),
            line_writer(&AsciiDocFormatter {  }),
        ),
    }
}

/// Renders a whole document in the given markup.
pub fn render_as(document: &Document, format: OutputFormat) -> (result: Result<
    Vec<String>,
    RenderError,
>)
    ensures
        lines_of(result) == rendered(document@, format),
{
    match format {
        OutputFormat::MarkdownGitHub => render_document(document, &MarkdownGitHubFormatter {  }),
        OutputFormat::AsciiDoc => render_document(document, &AsciiDocFormatter {  }),
    }
}

} // verus!
