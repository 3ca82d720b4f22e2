//! What holds of every rendering, stated over the outline of a document
//! and over the text that a formatter makes of it.

use vstd::prelude::*;
use vstd::utf8::*;
use crate::category::{category_icon, presentation_order, CategoryType};
use crate::error::RenderError;
use crate::formatter::{AdmonitionFormatter, EmojiFormatter, HeadingFormatter, LinkFormatter};
use crate::model::{ChangesView, DocumentView, ReleaseView, RepoInfoView, SectionView};
use crate::outline::{
    changes_outline,
    dependencies_outline,
    dependency_outline,
    dependency_part,
    document_outline,
    entries_by_category,
    heading_block,
    lemma_flat_map_step,
    lemma_written_heading_block,
    line_writer,
    ordered_entries,
    package_outline,
    package_part,
    packages_outline,
    realize,
    release_outline,
    release_part,
    releases_outline,
    section_outline,
    section_part,
    sections_outline,
    written,
    LineItem,
};
use crate::formatters::ascii_doc::{lemma_every_category_has_a_code_point, AsciiDocFormatter};
use crate::formatters::markdown_github::MarkdownGitHubFormatter;
use crate::pattern::{pattern_spans, spans_fit};
use crate::render::{rendered, OutputFormat};
use crate::substitution::{
    line_replaced,
    notice_replaced,
    pass_result,
    rewritten,
    ADMONITION_PATTERN,
    COMMIT_HASH_PATTERN,
    MENTION_PATTERN,
    PULL_REQUEST_PATTERN,
};
use crate::text::{
    decimal_digits,
    decimal_value,
    is_decimal,
    is_decimal_digit,
    lemma_text_between_ends,
    lemma_text_between_joins,
    on_boundary,
    parsed_decimal,
    text_between,
    trimmed,
};

verus! {

/// Rendering is a function of the document and the formatter: two
/// renderings of one document by one formatter are the same, line by line
/// or failure by failure.
pub proof fn lemma_rendering_is_deterministic<
    F: AdmonitionFormatter + LinkFormatter + HeadingFormatter + EmojiFormatter,
>(
    formatter: &F,
    document: DocumentView,
    first: Result<Seq<Seq<char>>, RenderError>,
    second: Result<Seq<Seq<char>>, RenderError>,
)
    requires
        first == written(document_outline(document), line_writer(formatter)),
        second == written(document_outline(document), line_writer(formatter)),
    ensures
        first == second,
{
}

/// What is written keeps the order of the items: there is one line for each
/// item, and the line at each place is the text of the item at that place.
pub proof fn lemma_written_line_by_line<A>(
    items: Seq<A>,
    write: spec_fn(A) -> Result<Seq<char>, RenderError>,
)
    requires
        written(items, write) is Ok,
    ensures
        written(items, write)->Ok_0.len() == items.len(),
        forall|i: int|
            0 <= i < items.len() ==> write(#[trigger] items[i]) == Ok::<Seq<char>, RenderError>(
                written(items, write)->Ok_0[i],
            ),
    decreases items.len(),
{
    if items.len() > 0 {
        lemma_written_line_by_line(items.drop_last(), write);
        assert forall|i: int| 0 <= i < items.len() implies write(#[trigger] items[i]) == Ok::<
            Seq<char>,
            RenderError,
        >(written(items, write)->Ok_0[i]) by {
            if i < items.len() - 1 {
                assert(items.drop_last()[i] == items[i]);
            }
        }
    }
}

/// Whether `write` fails on item `at` of `items` and on none before it.
pub open spec fn first_failure<A>(
    items: Seq<A>,
    write: spec_fn(A) -> Result<Seq<char>, RenderError>,
    at: int,
) -> bool {
    &&& 0 <= at < items.len()
    &&& write(items[at]) is Err
    &&& forall|j: int| 0 <= j < at ==> write(#[trigger] items[j]) is Ok
}

/// Writing fails exactly where some item cannot be written, and then with
/// the error of the first such item.
pub proof fn lemma_written_fails_with_the_first_failure<A>(
    items: Seq<A>,
    write: spec_fn(A) -> Result<Seq<char>, RenderError>,
)
    ensures
        match written(items, write) {
            Ok(_) => forall|i: int| 0 <= i < items.len() ==> write(#[trigger] items[i]) is Ok,
            Err(e) => exists|at: int| #[trigger]
                first_failure(items, write, at) && write(items[at]) == Err::<
                    Seq<char>,
                    RenderError,
                >(e),
        },
    decreases items.len(),
{
    if items.len() > 0 {
        let before = items.drop_last();
        lemma_written_fails_with_the_first_failure(before, write);
        match written(before, write) {
            Err(e) => {
                let at = choose|at: int| #[trigger]
                    first_failure(before, write, at) && write(before[at]) == Err::<
                        Seq<char>,
                        RenderError,
                    >(e);
                assert(items[at] == before[at]);
                assert forall|j: int| 0 <= j < at implies write(#[trigger] items[j]) is Ok by {
                    assert(items[j] == before[j]);
                }
                assert(first_failure(items, write, at));
            },
            Ok(_) => {
                assert forall|i: int| 0 <= i < items.len() - 1 implies write(#[trigger] items[i])
                    is Ok by {
                    assert(items[i] == before[i]);
                }
                if write(items.last()) is Err {
                    assert(first_failure(items, write, items.len() - 1));
                }
            },
        }
    }
}

/// The parts of a sequence of sources stand in the order of the sources:
/// the part of source `k` begins where the parts of the sources before it
/// end.
pub proof fn lemma_parts_in_source_order<A, B>(sources: Seq<A>, part: spec_fn(A) -> Seq<B>, k: int)
    requires
        0 <= k < sources.len(),
    ensures
        ({
            let start = sources.take(k).flat_map(part).len() as int;
            let own = part(sources[k]);
            &&& start + own.len() <= sources.flat_map(part).len()
            &&& sources.flat_map(part).subrange(start, start + own.len()) == own
        }),
{
    lemma_flat_map_step(sources, part, k);
    let start = sources.take(k).flat_map(part).len() as int;
    let own = part(sources[k]);
    assert(sources.flat_map(part).subrange(start, start + own.len()) =~= own);
}

/// Within a block of changes the categories come in the presentation order
/// and the entries of a category in the order of the source: entry `i` of
/// the category at place `k` stands `i` places after all entries of the
/// categories at the places before `k`.
pub proof fn lemma_entries_in_presentation_order(changes: ChangesView, k: int, i: int)
    requires
        0 <= k < presentation_order().len(),
        changes.dom().contains(presentation_order()[k]),
        0 <= i < changes[presentation_order()[k]].len(),
    ensures
        ({
            let category = presentation_order()[k];
            let start = presentation_order().take(k).flat_map(
                entries_by_category(changes),
            ).len() as int;
            &&& start + i < ordered_entries(changes).len()
            &&& ordered_entries(changes)[start + i] == (category, changes[category][i])
        }),
{
    let part = entries_by_category(changes);
    lemma_parts_in_source_order(presentation_order(), part, k);
    let start = presentation_order().take(k).flat_map(part).len() as int;
    let own = part(presentation_order()[k]);
    assert(ordered_entries(changes).subrange(start, start + own.len())[i] == own[i]);
}

/// In the outline of a document the releases stand in the order of the
/// source, after the title: the lines of release `k` begin where those of
/// the releases before it end.
pub proof fn lemma_releases_in_source_order(document: DocumentView, k: int)
    requires
        0 <= k < document.releases.len(),
    ensures
        ({
            let start = 1 + releases_outline(
                document.repo,
                document.repos,
                document.releases.take(k),
            ).len() as int;
            let own = release_outline(
                document.repo,
                document.repos,
                document.releases[k].0,
                document.releases[k].1,
            );
            &&& start + own.len() <= document_outline(document).len()
            &&& document_outline(document).subrange(start, start + own.len()) == own
        }),
{
    let part = release_part(document.repo, document.repos);
    lemma_parts_in_source_order(document.releases, part, k);
    let before = releases_outline(document.repo, document.repos, document.releases.take(k));
    let own = part(document.releases[k]);
    let all = releases_outline(document.repo, document.repos, document.releases);
    let start = before.len() as int;
    let end = start + own.len();
    assert(document_outline(document).subrange(1 + start, 1 + end) =~= all.subrange(start, end));
}

/// Within a release the sections, the packages and the dependency
/// repositories each stand in the order of the source: the lines of the
/// one at place `k` begin where the lines of those before it end.
pub proof fn lemma_release_parts_in_source_order(
    repo: Seq<char>,
    registry: Map<Seq<char>, RepoInfoView>,
    sections: Seq<(Seq<char>, SectionView)>,
    packages: Seq<(Seq<char>, ChangesView)>,
    repos: Seq<(Seq<char>, ChangesView)>,
    k: int,
)
    requires
        0 <= k,
    ensures
        k < sections.len() ==> ({
            let start = sections_outline(repo, sections.take(k)).len() as int;
            let own = section_outline(repo, sections[k].0, sections[k].1);
            &&& start + own.len() <= sections_outline(repo, sections).len()
            &&& sections_outline(repo, sections).subrange(start, start + own.len()) == own
        }),
        k < packages.len() ==> ({
            let start = packages_outline(repo, packages.take(k)).len() as int;
            let own = package_outline(repo, packages[k].0, packages[k].1);
            &&& start + own.len() <= packages_outline(repo, packages).len()
            &&& packages_outline(repo, packages).subrange(start, start + own.len()) == own
        }),
        k < repos.len() ==> ({
            let start = dependencies_outline(registry, repos.take(k)).len() as int;
            let own = dependency_outline(registry, repos[k].0, repos[k].1);
            &&& start + own.len() <= dependencies_outline(registry, repos).len()
            &&& dependencies_outline(registry, repos).subrange(start, start + own.len()) == own
        }),
{
    if k < sections.len() {
        lemma_parts_in_source_order(sections, section_part(repo), k);
    }
    if k < packages.len() {
        lemma_parts_in_source_order(packages, package_part(repo), k);
    }
    if k < repos.len() {
        lemma_parts_in_source_order(repos, dependency_part(registry), k);
    }
}

/// A block of changes with no category written down has no entry.
pub proof fn lemma_no_category_no_entry(changes: ChangesView)
    requires
        forall|category: CategoryType| !changes.dom().contains(category),
    ensures
        ordered_entries(changes) == Seq::<(CategoryType, Seq<char>)>::empty(),
    decreases 0int,
{
    lemma_no_category_no_entry_upto(changes, presentation_order().len() as int);
    assert(presentation_order().take(presentation_order().len() as int) =~= presentation_order());
}

/// The first `k` categories of the presentation order have no entry where
/// no category was written down.
proof fn lemma_no_category_no_entry_upto(changes: ChangesView, k: int)
    requires
        0 <= k <= presentation_order().len(),
        forall|category: CategoryType| !changes.dom().contains(category),
    ensures
        presentation_order().take(k).flat_map(entries_by_category(changes)) == Seq::<
            (CategoryType, Seq<char>),
        >::empty(),
    decreases k,
{
    let part = entries_by_category(changes);
    if k == 0 {
        assert(presentation_order().take(0).flat_map(part) =~= Seq::<
            (CategoryType, Seq<char>),
        >::empty());
    } else {
        lemma_no_category_no_entry_upto(changes, k - 1);
        lemma_flat_map_step(presentation_order(), part, k - 1);
        assert(part(presentation_order()[k - 1]) =~= Seq::<(CategoryType, Seq<char>)>::empty());
    }
}

/// A section, a package or a dependency repository whose changes have no
/// category written down keeps its heading and has no line of an entry.
pub proof fn lemma_empty_changes_keep_their_heading(
    repo: Seq<char>,
    name: Seq<char>,
    notice: Option<Seq<char>>,
    registry: Map<Seq<char>, RepoInfoView>,
    changes: ChangesView,
)
    requires
        forall|category: CategoryType| !changes.dom().contains(category),
    ensures
        changes_outline(repo, changes) == Seq::<LineItem>::empty(),
        section_outline(repo, name, SectionView { notice: None, changes }) == heading_block(
            LineItem::SectionHeading { name },
        ),
        notice matches Some(text) ==> section_outline(repo, name, SectionView { notice, changes })
            == heading_block(LineItem::SectionHeading { name }) + seq![
            LineItem::Notice { text },
            LineItem::Blank,
        ],
        package_outline(repo, name, changes) == heading_block(LineItem::PackageHeading { name }),
        registry.dom().contains(name) ==> dependency_outline(registry, name, changes)
            == heading_block(LineItem::RepositoryHeading { name, info: registry[name] }),
{
    lemma_no_category_no_entry(changes);
    assert(changes_outline(repo, changes) =~= Seq::<LineItem>::empty());
    assert(section_outline(repo, name, SectionView { notice: None, changes }) =~= heading_block(
        LineItem::SectionHeading { name },
    ));
    assert(package_outline(repo, name, changes) =~= heading_block(
        LineItem::PackageHeading { name },
    ));
    if registry.dom().contains(name) {
        assert(dependency_outline(registry, name, changes) =~= heading_block(
            LineItem::RepositoryHeading { name, info: registry[name] },
        ));
    }
    match notice {
        Some(text) => {
            assert(section_outline(repo, name, SectionView { notice, changes }) =~= heading_block(
                LineItem::SectionHeading { name },
            ) + seq![LineItem::Notice { text }, LineItem::Blank]);
        },
        None => {},
    }
}

/// A section without a notice whose changes have no category written down
/// renders as its heading between two empty lines, and as nothing else.
pub proof fn lemma_empty_section_renders_its_heading<
    F: AdmonitionFormatter + LinkFormatter + HeadingFormatter + EmojiFormatter,
>(formatter: &F, repo: Seq<char>, name: Seq<char>, changes: ChangesView)
    requires
        forall|category: CategoryType| !changes.dom().contains(category),
    ensures
        written(
            section_outline(repo, name, SectionView { notice: None, changes }),
            line_writer(formatter),
        ) == Ok::<Seq<Seq<char>>, RenderError>(
            seq![Seq::empty(), formatter.heading_markup(3, trimmed(name)), Seq::empty()],
        ),
{
    lemma_empty_changes_keep_their_heading(repo, name, None, Map::empty(), changes);
    lemma_written_heading_block(LineItem::SectionHeading { name }, line_writer(formatter));
}

/// Two formatters render the same outline: where both render a document,
/// they write the same number of lines, and the line at each place is what
/// each of them makes of the same item.
pub proof fn lemma_formatters_share_the_outline<
    F: AdmonitionFormatter + LinkFormatter + HeadingFormatter + EmojiFormatter,
    G: AdmonitionFormatter + LinkFormatter + HeadingFormatter + EmojiFormatter,
>(first: &F, second: &G, document: DocumentView)
    requires
        written(document_outline(document), line_writer(first)) is Ok,
        written(document_outline(document), line_writer(second)) is Ok,
    ensures
        ({
            let outline = document_outline(document);
            let one = written(outline, line_writer(first))->Ok_0;
            let other = written(outline, line_writer(second))->Ok_0;
            &&& one.len() == outline.len()
            &&& other.len() == outline.len()
            &&& forall|i: int|
                0 <= i < outline.len() ==> realize(first, #[trigger] outline[i]) == Ok::<
                    Seq<char>,
                    RenderError,
                >(one[i]) && realize(second, outline[i]) == Ok::<Seq<char>, RenderError>(other[i])
        }),
{
    let outline = document_outline(document);
    lemma_written_line_by_line(outline, line_writer(first));
    lemma_written_line_by_line(outline, line_writer(second));
}

/// Markdown and AsciiDoc render the same outline: where a document renders
/// in both, the two outputs have the same number of lines, and the lines at
/// each place are the two markups of the same item.
pub proof fn lemma_markdown_and_asciidoc_share_the_outline(document: DocumentView)
    requires
        rendered(document, OutputFormat::MarkdownGitHub) is Ok,
        rendered(document, OutputFormat::AsciiDoc) is Ok,
    ensures
        ({
            let outline = document_outline(document);
            let markdown = rendered(document, OutputFormat::MarkdownGitHub)->Ok_0;
            let asciidoc = rendered(document, OutputFormat::AsciiDoc)->Ok_0;
            &&& markdown.len() == outline.len()
            &&& asciidoc.len() == outline.len()
            &&& forall|i: int|
                0 <= i < outline.len() ==> realize(
                    &MarkdownGitHubFormatter {  },
                    #[trigger] outline[i],
                ) == Ok::<Seq<char>, RenderError>(markdown[i]) && realize(
                    &AsciiDocFormatter {  },
                    outline[i],
                ) == Ok::<Seq<char>, RenderError>(asciidoc[i])
        }),
{
    lemma_formatters_share_the_outline(
        &MarkdownGitHubFormatter {  },
        &AsciiDocFormatter {  },
        document,
    );
}

/// Without a registry the dependency repositories of a release are left
/// out: the release has the lines that it would have without them.
pub proof fn lemma_no_registry_no_dependency(
    repo: Seq<char>,
    version: Seq<char>,
    release: ReleaseView,
)
    ensures
        release_outline(repo, None, version, release) == release_outline(
            repo,
            None,
            version,
            ReleaseView { repos: None, ..release },
        ),
{
}

/// Without a registry no line of a document is the heading of a dependency
/// repository, or stands for one that the registry does not know.
pub proof fn lemma_no_registry_no_dependency_heading(document: DocumentView, i: int)
    requires
        document.repos is None,
        0 <= i < document_outline(document).len(),
    ensures
        !(document_outline(document)[i] is RepositoryHeading),
        !(document_outline(document)[i] is UnknownRepository),
{
    let part = release_part(document.repo, document.repos);
    if i > 0 {
        lemma_flat_map_has_source(document.releases, part, i - 1);
        let (k, j) = choose|k: int, j: int|
            0 <= k < document.releases.len() && 0 <= j < part(document.releases[k]).len()
                && document.releases.flat_map(part)[i - 1] == #[trigger] part(
                document.releases[k],
            )[j];
        let release = document.releases[k].1;
        let lines = release_outline(document.repo, None, document.releases[k].0, release);
        assert(lines[j] == document_outline(document)[i]);
        match release.sections {
            Some(sections) => {
                lemma_sections_have_no_dependency_heading(document.repo, sections);
            },
            None => {},
        }
        match release.packages {
            Some(packages) => {
                lemma_packages_have_no_dependency_heading(document.repo, packages);
            },
            None => {},
        }
    }
}

/// Every item of the parts of a sequence of sources belongs to the part of
/// one of the sources.
pub proof fn lemma_flat_map_has_source<A, B>(sources: Seq<A>, part: spec_fn(A) -> Seq<B>, i: int)
    requires
        0 <= i < sources.flat_map(part).len(),
    ensures
        exists|k: int, j: int|
            0 <= k < sources.len() && 0 <= j < part(sources[k]).len() && sources.flat_map(part)[i]
                == #[trigger] part(sources[k])[j],
    decreases sources.len(),
{
    if sources.len() == 0 {
        assert(sources.flat_map(part) =~= Seq::<B>::empty());
    } else {
        let n = sources.len() as int;
        lemma_flat_map_step(sources, part, n - 1);
        assert(sources.take(n) =~= sources);
        let before = sources.take(n - 1).flat_map(part);
        if i < before.len() {
            lemma_flat_map_has_source(sources.take(n - 1), part, i);
            let (k, j) = choose|k: int, j: int|
                0 <= k < sources.take(n - 1).len() && 0 <= j < part(sources.take(n - 1)[k]).len()
                    && before[i] == #[trigger] part(sources.take(n - 1)[k])[j];
            assert(sources.take(n - 1)[k] == sources[k]);
            assert(sources.flat_map(part)[i] == part(sources[k])[j]);
        } else {
            let j = i - before.len();
            assert(sources.flat_map(part)[i] == part(sources[n - 1])[j]);
        }
    }
}

/// No line of a block of changes is a heading.
proof fn lemma_changes_have_no_dependency_heading(repo: Seq<char>, changes: ChangesView)
    ensures
        forall|i: int|
            0 <= i < changes_outline(repo, changes).len() ==> (#[trigger] changes_outline(
                repo,
                changes,
            )[i]) is Entry,
{
}

/// No line of the sections of a release is the heading of a dependency
/// repository.
proof fn lemma_sections_have_no_dependency_heading(
    repo: Seq<char>,
    sections: Seq<(Seq<char>, SectionView)>,
)
    ensures
        forall|i: int|
            0 <= i < sections_outline(repo, sections).len() ==> {
                let item = #[trigger] sections_outline(repo, sections)[i];
                !(item is RepositoryHeading) && !(item is UnknownRepository)
            },
{
    let part = section_part(repo);
    assert forall|i: int| 0 <= i < sections.flat_map(part).len() implies {
        let item = #[trigger] sections.flat_map(part)[i];
        !(item is RepositoryHeading) && !(item is UnknownRepository)
    } by {
        lemma_flat_map_has_source(sections, part, i);
        let (k, j) = choose|k: int, j: int|
            0 <= k < sections.len() && 0 <= j < part(sections[k]).len() && sections.flat_map(
                part,
            )[i] == #[trigger] part(sections[k])[j];
        lemma_changes_have_no_dependency_heading(repo, sections[k].1.changes);
    }
}

/// No line of the packages of a release is the heading of a dependency
/// repository.
proof fn lemma_packages_have_no_dependency_heading(
    repo: Seq<char>,
    packages: Seq<(Seq<char>, ChangesView)>,
)
    ensures
        forall|i: int|
            0 <= i < packages_outline(repo, packages).len() ==> {
                let item = #[trigger] packages_outline(repo, packages)[i];
                !(item is RepositoryHeading) && !(item is UnknownRepository)
            },
{
    let part = package_part(repo);
    assert forall|i: int| 0 <= i < packages.flat_map(part).len() implies {
        let item = #[trigger] packages.flat_map(part)[i];
        !(item is RepositoryHeading) && !(item is UnknownRepository)
    } by {
        lemma_flat_map_has_source(packages, part, i);
        let (k, j) = choose|k: int, j: int|
            0 <= k < packages.len() && 0 <= j < part(packages[k]).len() && packages.flat_map(
                part,
            )[i] == #[trigger] part(packages[k])[j];
        lemma_changes_have_no_dependency_heading(repo, packages[k].1);
    }
}

/// Where a pattern matches nowhere in a line, its pass returns the line as
/// it stands.
pub proof fn lemma_no_match_no_change(
    pattern: Seq<char>,
    line: Seq<char>,
    markup: spec_fn(Seq<char>) -> Result<Seq<char>, RenderError>,
)
    requires
        pattern_spans(pattern, line) == Some(Seq::<(usize, usize)>::empty()),
    ensures
        pass_result(pattern, line, markup) == Ok::<Seq<char>, RenderError>(line),
{
    lemma_text_between_ends(line);
}

/// A line of a change in which none of the three patterns matches is
/// returned unchanged.
pub proof fn lemma_plain_line_is_unchanged<F: LinkFormatter>(
    formatter: &F,
    repo_short_url: Seq<char>,
    line: Seq<char>,
)
    requires
        pattern_spans(MENTION_PATTERN@, line) == Some(Seq::<(usize, usize)>::empty()),
        pattern_spans(COMMIT_HASH_PATTERN@, line) == Some(Seq::<(usize, usize)>::empty()),
        pattern_spans(PULL_REQUEST_PATTERN@, line) == Some(Seq::<(usize, usize)>::empty()),
    ensures
        line_replaced(formatter, repo_short_url, line) == Ok::<Seq<char>, RenderError>(line),
{
    lemma_text_between_ends(line);
}

/// A notice in which neither of its two patterns matches is returned
/// unchanged.
pub proof fn lemma_plain_notice_is_unchanged<F: AdmonitionFormatter + LinkFormatter>(
    formatter: &F,
    line: Seq<char>,
)
    requires
        pattern_spans(ADMONITION_PATTERN@, line) == Some(Seq::<(usize, usize)>::empty()),
        pattern_spans(MENTION_PATTERN@, line) == Some(Seq::<(usize, usize)>::empty()),
    ensures
        notice_replaced(formatter, line) == Ok::<Seq<char>, RenderError>(line),
{
    lemma_text_between_ends(line);
}

/// A pass copies what stands outside the matches as it is and in its
/// order: were every match replaced by itself, the line would come out
/// unchanged.
pub proof fn lemma_rewriting_keeps_the_rest(line: Seq<char>, spans: Seq<(usize, usize)>)
    requires
        spans_fit(line, spans),
    ensures
        rewritten(line, spans, 0, |matched: Seq<char>| Ok::<Seq<char>, RenderError>(matched))
            == Ok::<Seq<char>, RenderError>(line),
{
    encode_utf8_valid_utf8(line);
    lemma_rewriting_keeps_the_rest_from(line, spans, 0);
    lemma_text_between_ends(line);
}

/// From a cursor between characters on, replacing every match by itself
/// gives what stands from the cursor to the end of the line.
proof fn lemma_rewriting_keeps_the_rest_from(
    line: Seq<char>,
    spans: Seq<(usize, usize)>,
    cursor: int,
)
    requires
        spans_fit(line, spans),
        0 <= cursor <= encode_utf8(line).len(),
        on_boundary(line, cursor),
        spans.len() > 0 ==> cursor <= spans[0].0,
    ensures
        rewritten(line, spans, cursor, |matched: Seq<char>| Ok::<Seq<char>, RenderError>(matched))
            == Ok::<Seq<char>, RenderError>(
            text_between(line, cursor, encode_utf8(line).len() as int),
        ),
    decreases spans.len(),
{
    let keep = |matched: Seq<char>| Ok::<Seq<char>, RenderError>(matched);
    encode_utf8_valid_utf8(line);
    is_char_boundary_start_end_of_seq(encode_utf8(line));
    if spans.len() > 0 {
        let (start, end) = spans.first();
        let rest = spans.drop_first();
        let len = encode_utf8(line).len() as int;
        assert(spans_fit(line, rest)) by {
            assert forall|i: int| 0 <= i < rest.len() implies {
                &&& (#[trigger] rest[i]).0 <= rest[i].1 <= encode_utf8(line).len()
                &&& on_boundary(line, rest[i].0 as int)
                &&& on_boundary(line, rest[i].1 as int)
            } by {
                assert(rest[i] == spans[i + 1]);
            }
            assert forall|i: int, j: int| 0 <= i < j < rest.len() implies (#[trigger] rest[i]).1
                <= (#[trigger] rest[j]).0 by {
                assert(rest[i] == spans[i + 1]);
                assert(rest[j] == spans[j + 1]);
            }
        }
        if rest.len() > 0 {
            assert(rest[0] == spans[1]);
            assert(spans[0].1 <= spans[1].0);
        }
        lemma_rewriting_keeps_the_rest_from(line, rest, end as int);
        lemma_text_between_joins(line, cursor, start as int, end as int);
        lemma_text_between_joins(line, cursor, end as int, len);
        assert(rewritten(line, rest, end as int, keep) == Ok::<Seq<char>, RenderError>(
            text_between(line, end as int, len),
        ));
    }
}

/// What has no free text always renders: an outline without notices,
/// without entries and without unknown repositories is written without
/// failure, whatever the pattern engine does.
pub proof fn lemma_headings_always_render<
    F: AdmonitionFormatter + LinkFormatter + HeadingFormatter + EmojiFormatter,
>(formatter: &F, outline: Seq<LineItem>)
    requires
        forall|i: int|
            0 <= i < outline.len() ==> !((#[trigger] outline[i]) is Notice) && !(outline[i]
                is Entry) && !(outline[i] is UnknownRepository),
    ensures
        written(outline, line_writer(formatter)) is Ok,
{
    lemma_written_fails_with_the_first_failure(outline, line_writer(formatter));
    if written(outline, line_writer(formatter)) is Err {
        let at = choose|at: int| #[trigger] first_failure(outline, line_writer(formatter), at);
        assert(realize(formatter, outline[at]) is Err);
    }
}

/// A number that is written as a decimal numeral and read again is the
/// same number.
pub proof fn lemma_decimal_round_trip(n: nat)
    ensures
        is_decimal(decimal_digits(n)),
        decimal_value(decimal_digits(n)) == n,
        n <= usize::MAX ==> parsed_decimal(decimal_digits(n)) == Some(n as usize),
    decreases n,
{
    if n >= 10 {
        lemma_decimal_round_trip(n / 10);
        let digits = decimal_digits(n);
        assert(digits.drop_last() =~= decimal_digits(n / 10));
        assert(digits.last() as u32 == 0x30 + n % 10);
        assert(decimal_value(digits) == decimal_value(digits.drop_last()) * 10 + n % 10);
        assert forall|i: int| 0 <= i < digits.len() implies is_decimal_digit(
            #[trigger] digits[i],
        ) by {
            if i < digits.len() - 1 {
                assert(digits[i] == decimal_digits(n / 10)[i]);
            }
        }
    } else {
        let digits = decimal_digits(n);
        assert(digits.drop_last() =~= Seq::<char>::empty());
        assert(digits.last() as u32 == 0x30 + n);
        assert(decimal_value(digits.drop_last()) == 0);
        assert(decimal_value(digits) == decimal_value(digits.drop_last()) * 10 + n);
    }
}

/// In both markups the icon of a category and the icon of a release are
/// the icons that their identifiers name.
pub proof fn lemma_icons_go_by_their_identifiers(category_type: CategoryType)
    ensures
        (MarkdownGitHubFormatter {  }).named_emoji_markup(category_icon(category_type)) == Some(
            (MarkdownGitHubFormatter {  }).emoji_markup(category_type),
        ),
        (MarkdownGitHubFormatter {  }).named_emoji_markup("bookmark"@) == Some(
            (MarkdownGitHubFormatter {  }).emoji_tag_markup(),
        ),
        (AsciiDocFormatter {  }).named_emoji_markup(category_icon(category_type)) == Some(
            (AsciiDocFormatter {  }).emoji_markup(category_type),
        ),
        (AsciiDocFormatter {  }).named_emoji_markup("bookmark"@) == Some(
            (AsciiDocFormatter {  }).emoji_tag_markup(),
        ),
{
    lemma_every_category_has_a_code_point(category_type);
}

} // verus!
