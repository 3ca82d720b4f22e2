//! What a document renders to, stated in two steps.
//!
//! The outline of a document is the sequence of its lines before any markup:
//! which heading, notice or entry stands on each line. It depends on the
//! document alone. A formatter then turns every item of the outline into the
//! text of its line. Rendering fails with the first item that cannot be
//! turned into text.

use vstd::prelude::*;
use crate::category::{category_label, presentation_order, CategoryType};
use crate::error::RenderError;
use crate::formatter::{AdmonitionFormatter, EmojiFormatter, HeadingFormatter, LinkFormatter};
use crate::model::{ChangesView, DocumentView, ReleaseView, RepoInfoView, SectionView};
use crate::substitution::{line_replaced, notice_replaced, GITHUB_URL_PREFIX};
use crate::text::trimmed;

verus! {

/// Where the page of a package starts.
pub const CRATES_URL_PREFIX: &'static str = "https://crates.io/crates/";

/// One line of the output, before any markup.
pub enum LineItem {
    /// The heading of the whole changelog.
    Title,
    /// An empty line.
    Blank,
    /// The heading of a release of the repository `repo`.
    ReleaseHeading { repo: Seq<char>, version: Seq<char>, date: Seq<char> },
    /// The notice of a release or of a section.
    Notice { text: Seq<char> },
    /// The heading of a section.
    SectionHeading { name: Seq<char> },
    /// The heading of a package.
    PackageHeading { name: Seq<char> },
    /// The heading of a dependency repository that the registry knows.
    RepositoryHeading { name: Seq<char>, info: RepoInfoView },
    /// The place of a dependency repository that the registry does not know.
    UnknownRepository { name: Seq<char> },
    /// One change, filed under `category`, whose references point into the
    /// repository `repo`.
    Entry { repo: Seq<char>, category: CategoryType, text: Seq<char> },
}

/// The entries of one category: each text with its category, in the order
/// of the source; none where the category was not written down.
pub open spec fn category_entries(category: CategoryType, list: Option<Seq<Seq<char>>>) -> Seq<
    (CategoryType, Seq<char>),
> {
    match list {
        Some(entries) => entries.map_values(|text: Seq<char>| (category, text)),
        None => Seq::empty(),
    }
}

/// The entries of a block of changes in the order in which they are shown:
/// category by category in the presentation order, and within a category in
/// the order of the source.
pub open spec fn ordered_entries(changes: ChangesView) -> Seq<(CategoryType, Seq<char>)> {
    presentation_order().flat_map(entries_by_category(changes))
}

/// The entries that a block of changes holds under each category.
pub open spec fn entries_by_category(changes: ChangesView) -> spec_fn(CategoryType) -> Seq<
    (CategoryType, Seq<char>),
> {
    |category: CategoryType| category_entries(category, changes.get(category))
}

/// A heading with an empty line before it and one after it.
pub open spec fn heading_block(heading: LineItem) -> Seq<LineItem> {
    seq![LineItem::Blank, heading, LineItem::Blank]
}

/// The lines of a block of changes whose references point into `repo`.
pub open spec fn changes_outline(repo: Seq<char>, changes: ChangesView) -> Seq<LineItem> {
    ordered_entries(changes).map_values(entry_item(repo))
}

/// The line of an entry whose references point into `repo`.
pub open spec fn entry_item(repo: Seq<char>) -> spec_fn((CategoryType, Seq<char>)) -> LineItem {
    |entry: (CategoryType, Seq<char>)| LineItem::Entry { repo, category: entry.0, text: entry.1 }
}

/// The lines of a section: its heading, its notice with an empty line after
/// it, and its changes.
pub open spec fn section_outline(repo: Seq<char>, name: Seq<char>, section: SectionView) -> Seq<
    LineItem,
> {
    heading_block(LineItem::SectionHeading { name }) + match section.notice {
        Some(text) => seq![LineItem::Notice { text }, LineItem::Blank],
        None => Seq::empty(),
    } + changes_outline(repo, section.changes)
}

/// The lines of a package: its heading and its changes.
pub open spec fn package_outline(repo: Seq<char>, name: Seq<char>, changes: ChangesView) -> Seq<
    LineItem,
> {
    heading_block(LineItem::PackageHeading { name }) + changes_outline(repo, changes)
}

/// The lines of a dependency repository: its heading and its changes, whose
/// references point into that repository. A repository that the registry
/// does not know has one line, which cannot be rendered.
pub open spec fn dependency_outline(
    registry: Map<Seq<char>, RepoInfoView>,
    name: Seq<char>,
    changes: ChangesView,
) -> Seq<LineItem> {
    if registry.dom().contains(name) {
        heading_block(LineItem::RepositoryHeading { name, info: registry[name] })
            + changes_outline(registry[name].repo, changes)
    } else {
        seq![LineItem::UnknownRepository { name }]
    }
}

/// The lines of the sections of a release, in the order of the source.
pub open spec fn sections_outline(repo: Seq<char>, sections: Seq<(Seq<char>, SectionView)>) -> Seq<
    LineItem,
> {
    sections.flat_map(section_part(repo))
}

/// The lines of each named section.
pub open spec fn section_part(repo: Seq<char>) -> spec_fn((Seq<char>, SectionView)) -> Seq<
    LineItem,
> {
    |named: (Seq<char>, SectionView)| section_outline(repo, named.0, named.1)
}

/// The lines of the packages of a release, in the order of the source.
pub open spec fn packages_outline(repo: Seq<char>, packages: Seq<(Seq<char>, ChangesView)>) -> Seq<
    LineItem,
> {
    packages.flat_map(package_part(repo))
}

/// The lines of each named package.
pub open spec fn package_part(repo: Seq<char>) -> spec_fn((Seq<char>, ChangesView)) -> Seq<
    LineItem,
> {
    |named: (Seq<char>, ChangesView)| package_outline(repo, named.0, named.1)
}

/// The lines of the dependency repositories of a release, in the order of
/// the source.
pub open spec fn dependencies_outline(
    registry: Map<Seq<char>, RepoInfoView>,
    repos: Seq<(Seq<char>, ChangesView)>,
) -> Seq<LineItem> {
    repos.flat_map(dependency_part(registry))
}

/// The lines of each named dependency repository.
pub open spec fn dependency_part(registry: Map<Seq<char>, RepoInfoView>) -> spec_fn(
    (Seq<char>, ChangesView),
) -> Seq<LineItem> {
    |named: (Seq<char>, ChangesView)| dependency_outline(registry, named.0, named.1)
}

/// The lines of a release: its heading, its notice, its sections, its
/// packages, and its dependency repositories. The last are left out where
/// the document has no registry.
pub open spec fn release_outline(
    repo: Seq<char>,
    registry: Option<Map<Seq<char>, RepoInfoView>>,
    version: Seq<char>,
    release: ReleaseView,
) -> Seq<LineItem> {
    heading_block(LineItem::ReleaseHeading { repo, version, date: release.date })
        + match release.notice {
        Some(text) => seq![LineItem::Notice { text }],
        None => Seq::empty(),
    } + match release.sections {
        Some(sections) => sections_outline(repo, sections),
        None => Seq::empty(),
    } + match release.packages {
        Some(packages) => packages_outline(repo, packages),
        None => Seq::empty(),
    } + match (registry, release.repos) {
        (Some(known), Some(repos)) => dependencies_outline(known, repos),
        _ => Seq::empty(),
    }
}

/// The lines of the releases of a document, in the order of the source.
pub open spec fn releases_outline(
    repo: Seq<char>,
    registry: Option<Map<Seq<char>, RepoInfoView>>,
    releases: Seq<(Seq<char>, ReleaseView)>,
) -> Seq<LineItem> {
    releases.flat_map(release_part(repo, registry))
}

/// The lines of each release, by its version.
pub open spec fn release_part(
    repo: Seq<char>,
    registry: Option<Map<Seq<char>, RepoInfoView>>,
) -> spec_fn((Seq<char>, ReleaseView)) -> Seq<LineItem> {
    |named: (Seq<char>, ReleaseView)| release_outline(repo, registry, named.0, named.1)
}

/// The lines of a document: its title, then its releases.
pub open spec fn document_outline(document: DocumentView) -> Seq<LineItem> {
    seq![LineItem::Title] + releases_outline(document.repo, document.repos, document.releases)
}

/// The line of one change: a bullet, the icon of the category, and the text
/// after its substitutions. A breaking change carries the label of its
/// category in square brackets right after the icon.
pub open spec fn entry_markup<F: LinkFormatter + EmojiFormatter>(
    formatter: &F,
    repo: Seq<char>,
    category: CategoryType,
    text: Seq<char>,
) -> Result<Seq<char>, RenderError> {
    match line_replaced(formatter, repo, trimmed(text)) {
        Err(e) => Err(e),
        Ok(replaced) => Ok(
            if category == CategoryType::Breaking {
                "* "@ + formatter.emoji_markup(category) + "["@ + category_label(category) + "] "@
                    + replaced
            } else {
                "* "@ + formatter.emoji_markup(category) + " "@ + replaced
            },
        ),
    }
}

/// What the heading of a release reads: the icon of a release, a link that
/// shows the version and leads to its tag, and the date in brackets.
pub open spec fn release_title<F: LinkFormatter + EmojiFormatter>(
    formatter: &F,
    repo: Seq<char>,
    version: Seq<char>,
    date: Seq<char>,
) -> Seq<char> {
    formatter.emoji_tag_markup() + " "@ + formatter.link_markup(
        version,
        GITHUB_URL_PREFIX@ + repo + "/releases/tag/"@ + version,
    ) + " ("@ + date + ")"@
}

/// What the heading of a dependency repository reads: a link that shows the
/// name and leads to the repository, and the description after a dash where
/// there is one.
pub open spec fn repository_title<F: LinkFormatter>(
    formatter: &F,
    name: Seq<char>,
    info: RepoInfoView,
) -> Seq<char> {
    formatter.link_markup(name, GITHUB_URL_PREFIX@ + info.repo) + if info.description.len() > 0 {
        " - "@ + info.description
    } else {
        Seq::empty()
    }
}

/// The text of one line of the outline, as `formatter` writes it.
pub open spec fn realize<
    F: AdmonitionFormatter + LinkFormatter + HeadingFormatter + EmojiFormatter,
>(formatter: &F, item: LineItem) -> Result<Seq<char>, RenderError> {
    match item {
        LineItem::Title => Ok(formatter.heading_markup(1, "Changelog"@)),
        LineItem::Blank => Ok(Seq::empty()),
        LineItem::ReleaseHeading { repo, version, date } => Ok(
            formatter.heading_markup(2, release_title(formatter, repo, version, date)),
        ),
        LineItem::Notice { text } => notice_replaced(formatter, trimmed(text)),
        LineItem::SectionHeading { name } => Ok(formatter.heading_markup(3, trimmed(name))),
        LineItem::PackageHeading { name } => Ok(
            formatter.heading_markup(3, formatter.link_markup(name, CRATES_URL_PREFIX@ + name)),
        ),
        LineItem::RepositoryHeading { name, info } => Ok(
            formatter.heading_markup(3, trimmed(repository_title(formatter, name, info))),
        ),
        LineItem::UnknownRepository { .. } => Err(RenderError::UnknownRepository),
        LineItem::Entry { repo, category, text } => entry_markup(formatter, repo, category, text),
    }
}

/// How `formatter` writes the entries of a block of changes whose references
/// point into `repo`.
pub open spec fn entry_writer<F: LinkFormatter + EmojiFormatter>(
    formatter: &F,
    repo: Seq<char>,
) -> spec_fn((CategoryType, Seq<char>)) -> Result<Seq<char>, RenderError> {
    |entry: (CategoryType, Seq<char>)| entry_markup(formatter, repo, entry.0, entry.1)
}

/// How `formatter` writes the lines of an outline.
pub open spec fn line_writer<
    F: AdmonitionFormatter + LinkFormatter + HeadingFormatter + EmojiFormatter,
>(formatter: &F) -> spec_fn(LineItem) -> Result<Seq<char>, RenderError> {
    |item: LineItem| realize(formatter, item)
}

/// `first`, then `second`; the error of `first` where it has one, else that
/// of `second`.
pub open spec fn joined(
    first: Result<Seq<Seq<char>>, RenderError>,
    second: Result<Seq<Seq<char>>, RenderError>,
) -> Result<Seq<Seq<char>>, RenderError> {
    match first {
        Err(e) => Err(e),
        Ok(lines) => match second {
            Err(e) => Err(e),
            Ok(more) => Ok(lines + more),
        },
    }
}

/// The lines that `write` makes of `items`, one of each, in order; or the
/// error of the first item of which it makes none.
pub open spec fn written<A>(
    items: Seq<A>,
    write: spec_fn(A) -> Result<Seq<char>, RenderError>,
) -> Result<Seq<Seq<char>>, RenderError>
    decreases items.len(),
{
    if items.len() == 0 {
        Ok(Seq::empty())
    } else {
        match written(items.drop_last(), write) {
            Err(e) => Err(e),
            Ok(lines) => match write(items.last()) {
                Err(e) => Err(e),
                Ok(line) => Ok(lines.push(line)),
            },
        }
    }
}

/// Writing two runs of items one after the other gives the lines of the
/// first, then those of the second.
pub proof fn lemma_written_concat<A>(
    first: Seq<A>,
    second: Seq<A>,
    write: spec_fn(A) -> Result<Seq<char>, RenderError>,
)
    ensures
        written(first + second, write) == joined(written(first, write), written(second, write)),
    decreases second.len(),
{
    if second.len() == 0 {
        assert(first + second =~= first);
        match written(first, write) {
            Ok(lines) => {
                assert(lines + Seq::<Seq<char>>::empty() =~= lines);
            },
            Err(_) => {},
        }
    } else {
        lemma_written_concat(first, second.drop_last(), write);
        assert((first + second).drop_last() =~= first + second.drop_last());
        assert((first + second).last() == second.last());
        match (written(first, write), written(second.drop_last(), write), write(second.last())) {
            (Ok(a), Ok(b), Ok(c)) => {
                assert((a + b).push(c) =~= a + b.push(c));
            },
            _ => {},
        }
    }
}

/// Writing stops at the first error: an error among the first `k` items is
/// the error of the whole.
pub proof fn lemma_written_prefix<A>(
    items: Seq<A>,
    write: spec_fn(A) -> Result<Seq<char>, RenderError>,
    k: int,
)
    requires
        0 <= k <= items.len(),
    ensures
        written(items, write) == joined(
            written(items.take(k), write),
            written(items.skip(k), write),
        ),
{
    assert(items =~= items.take(k) + items.skip(k));
    lemma_written_concat(items.take(k), items.skip(k), write);
}

/// A heading with its two empty lines is written as three lines, where the
/// empty line is written as the empty text.
pub proof fn lemma_written_heading_block(
    heading: LineItem,
    write: spec_fn(LineItem) -> Result<Seq<char>, RenderError>,
)
    requires
        write(LineItem::Blank) == Ok::<Seq<char>, RenderError>(Seq::empty()),
    ensures
        written(heading_block(heading), write) == match write(heading) {
            Ok(line) => Ok(seq![Seq::empty(), line, Seq::empty()]),
            Err(e) => Err(e),
        },
{
    reveal_with_fuel(written, 4);
    let block = heading_block(heading);
    assert(block.drop_last() =~= seq![LineItem::Blank, heading]);
    assert(block.drop_last().drop_last() =~= seq![LineItem::Blank]);
    match write(heading) {
        Ok(line) => {
            assert(Seq::<Seq<char>>::empty().push(Seq::empty()).push(line).push(Seq::empty())
                =~= seq![Seq::empty(), line, Seq::empty()]);
        },
        Err(_) => {},
    }
}

/// One item is written as one line.
pub proof fn lemma_written_one<A>(item: A, write: spec_fn(A) -> Result<Seq<char>, RenderError>)
    ensures
        written(seq![item], write) == match write(item) {
            Ok(line) => Ok(seq![line]),
            Err(e) => Err(e),
        },
{
    reveal_with_fuel(written, 2);
    assert(seq![item].drop_last() =~= Seq::<A>::empty());
    match write(item) {
        Ok(line) => {
            assert(Seq::<Seq<char>>::empty().push(line) =~= seq![line]);
        },
        Err(_) => {},
    }
}

/// The lines of a block of changes, written as lines of an outline, are its
/// entries written as entries.
pub proof fn lemma_written_changes_outline<
    F: AdmonitionFormatter + LinkFormatter + HeadingFormatter + EmojiFormatter,
>(formatter: &F, repo: Seq<char>, changes: ChangesView)
    ensures
        written(changes_outline(repo, changes), line_writer(formatter)) == written(
            ordered_entries(changes),
            entry_writer(formatter, repo),
        ),
{
    let write = line_writer(formatter);
    let make = entry_item(repo);
    lemma_written_mapped(ordered_entries(changes), make, write);
    assert((|entry: (CategoryType, Seq<char>)| write(make(entry))) =~= entry_writer(
        formatter,
        repo,
    ));
}

/// Writing items that were made from others is writing the others with the
/// two steps in one.
pub proof fn lemma_written_mapped<A, B>(
    items: Seq<A>,
    make: spec_fn(A) -> B,
    write: spec_fn(B) -> Result<Seq<char>, RenderError>,
)
    ensures
        written(items.map_values(make), write) == written(items, |item: A| write(make(item))),
    decreases items.len(),
{
    if items.len() > 0 {
        lemma_written_mapped(items.drop_last(), make, write);
        assert(items.map_values(make).drop_last() =~= items.drop_last().map_values(make));
    }
}

/// The parts of the first `k + 1` sources are the parts of the first `k`,
/// then the part of the next; and the parts of all sources start with them.
pub proof fn lemma_flat_map_step<A, B>(sources: Seq<A>, part: spec_fn(A) -> Seq<B>, k: int)
    requires
        0 <= k < sources.len(),
    ensures
        sources.take(k + 1).flat_map(part) == sources.take(k).flat_map(part) + part(sources[k]),
        sources.flat_map(part) == sources.take(k + 1).flat_map(part) + sources.skip(
            k + 1,
        ).flat_map(part),
{
    assert(sources.take(k + 1) =~= sources.take(k).push(sources[k]));
    assert(sources.take(k).push(sources[k]).map_values(part) =~= sources.take(k).map_values(
        part,
    ).push(part(sources[k])));
    sources.take(k).map_values(part).lemma_flatten_push(part(sources[k]));
    assert(sources =~= sources.take(k + 1) + sources.skip(k + 1));
    assert(sources.map_values(part) =~= sources.take(k + 1).map_values(part) + sources.skip(
        k + 1,
    ).map_values(part));
    vstd::seq_lib::lemma_flatten_concat(
        sources.take(k + 1).map_values(part),
        sources.skip(k + 1).map_values(part),
    );
}

/// One step of writing part by part: where the parts of the first `k`
/// sources are written, writing the next part as well gives the lines of
/// both; and an error at that point is the error of the whole.
pub proof fn lemma_written_step<A, B>(
    sources: Seq<A>,
    part: spec_fn(A) -> Seq<B>,
    write: spec_fn(B) -> Result<Seq<char>, RenderError>,
    k: int,
)
    requires
        0 <= k < sources.len(),
        written(sources.take(k).flat_map(part), write) is Ok,
    ensures
        written(sources.take(k + 1).flat_map(part), write) == joined(
            written(sources.take(k).flat_map(part), write),
            written(part(sources[k]), write),
        ),
        written(part(sources[k]), write) is Err ==> written(sources.flat_map(part), write)
            == written(part(sources[k]), write),
{
    lemma_flat_map_step(sources, part, k);
    lemma_written_concat(sources.take(k).flat_map(part), part(sources[k]), write);
    lemma_written_concat(
        sources.take(k + 1).flat_map(part),
        sources.skip(k + 1).flat_map(part),
        write,
    );
}

} // verus!
