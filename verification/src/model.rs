//! The changelog as it is held in memory: a document of releases, each with
//! its sections, packages and dependency repositories, and under each of
//! those the changes, filed by category.
//!
//! The order in which releases, sections, packages and repositories were
//! written down is the order in which they are rendered. They are kept in
//! `indexmap::IndexMap`; what the library relies on of that type is stated
//! here.

use vstd::prelude::*;
use vstd::hash_map::StringHashMap;
use indexmap::IndexMap;
use crate::category::CategoryType;
use crate::error::texts;

verus! {

/// `indexmap::IndexMap`, a map that keeps its entries in the order in which
/// they were put in. The library sees nothing inside it; what it holds is
/// named by `changes_entries`, `section_entries` and `release_entries`.
#[verifier::external_type_specification]
#[verifier::external_body]
#[verifier::reject_recursive_types(K)]
#[verifier::reject_recursive_types(V)]
#[verifier::reject_recursive_types(S)]
pub struct ExIndexMap<K, V, S>(IndexMap<K, V, S>);

/// The changes of one section, package or dependency repository: for each
/// category either nothing, or the entries in the order in which they were
/// written.
#[derive(Debug, PartialEq)]
pub struct Changes {
    /// New features.
    pub added: Option<Vec<String>>,
    /// Changes to what was there before.
    pub changed: Option<Vec<String>>,
    /// What is no longer recommended and will be removed.
    pub deprecated: Option<Vec<String>>,
    /// What was removed.
    pub removed: Option<Vec<String>>,
    /// Fixes.
    pub fixed: Option<Vec<String>>,
    /// What concerns security.
    pub security: Option<Vec<String>>,
    /// What was made better without a new feature.
    pub improved: Option<Vec<String>>,
    /// Temporary ways round a known problem.
    pub workaround: Option<Vec<String>>,
    /// Changes to the tests.
    pub tests: Option<Vec<String>>,
    /// Changes to the documentation.
    pub docs: Option<Vec<String>>,
    /// Changes to the structure of the code that do not show from outside.
    pub refactored: Option<Vec<String>>,
    /// What was made faster.
    pub performance: Option<Vec<String>>,
    /// Changes that break compatibility.
    pub breaking: Option<Vec<String>>,
    /// Features that are not stable yet.
    pub experimental: Option<Vec<String>>,
    /// Known issues and other things worth noting.
    pub noted: Option<Vec<String>>,
    /// Changes of style and formatting.
    pub style: Option<Vec<String>>,
    /// What is planned but not released yet.
    pub unreleased: Option<Vec<String>>,
}

/// A named part of a release.
#[derive(Debug, PartialEq)]
pub struct Section {
    pub notice: Option<String>,
    pub changes: Changes,
}

/// One release. Its date is kept as written.
#[derive(Debug, PartialEq)]
pub struct Release {
    pub date: String,
    pub notice: Option<String>,
    /// The changes of the dependency repositories, by the name under which
    /// the registry of the document knows each.
    pub repos: Option<IndexMap<String, Changes>>,
    pub sections: Option<IndexMap<String, Section>>,
    pub packages: Option<IndexMap<String, Changes>>,
}

/// What the document knows of a dependency repository.
#[derive(Debug, PartialEq)]
pub struct DependencyRepoInfo {
    /// The short path of the repository: owner, slash, name.
    pub repo: String,
    pub name: String,
    pub description: String,
}

/// The registry of the dependency repositories of a document, by name.
pub type RepoRegistry = StringHashMap<DependencyRepoInfo>;

/// A whole changelog.
pub struct Document {
    /// The short path of the repository that the changelog is about.
    pub repo: String,
    /// The releases by version, in the order in which they are shown.
    pub releases: IndexMap<String, Release>,
    pub repos: Option<RepoRegistry>,
}

/// The entries of a map from names to changes, in its order.
pub uninterp spec fn changes_entries(map: IndexMap<String, Changes>) -> Seq<(String, Changes)>;

/// The entries of a map from names to sections, in its order.
pub uninterp spec fn section_entries(map: IndexMap<String, Section>) -> Seq<(String, Section)>;

/// The entries of a map from versions to releases, in its order.
pub uninterp spec fn release_entries(map: IndexMap<String, Release>) -> Seq<(String, Release)>;

/// Walks the map with `IndexMap::iter` and hands out its entries.
///
/// The crate documents that every iterator traverses the map in its order;
/// the contract says that the entries come out as `changes_entries` has them.
#[verifier::external_body]
pub(crate) fn changes_in_order<'a>(map: &'a IndexMap<String, Changes>) -> (entries: Vec<
    (&'a String, &'a Changes),
>)
    ensures
        entries@.len() == changes_entries(*map).len(),
        forall|i: int|
            0 <= i < entries@.len() ==> *(#[trigger] entries@[i]).0 == changes_entries(*map)[i].0
                && *entries@[i].1 == changes_entries(*map)[i].1,
{
    map.iter().collect()
}

/// Walks the map with `IndexMap::iter` and hands out its entries.
///
/// The crate documents that every iterator traverses the map in its order;
/// the contract says that the entries come out as `section_entries` has them.
#[verifier::external_body]
pub(crate) fn sections_in_order<'a>(map: &'a IndexMap<String, Section>) -> (entries: Vec<
    (&'a String, &'a Section),
>)
    ensures
        entries@.len() == section_entries(*map).len(),
        forall|i: int|
            0 <= i < entries@.len() ==> *(#[trigger] entries@[i]).0 == section_entries(*map)[i].0
                && *entries@[i].1 == section_entries(*map)[i].1,
{
    map.iter().collect()
}

/// Walks the map with `IndexMap::iter` and hands out its entries.
///
/// The crate documents that every iterator traverses the map in its order;
/// the contract says that the entries come out as `release_entries` has them.
#[verifier::external_body]
pub(crate) fn releases_in_order<'a>(map: &'a IndexMap<String, Release>) -> (entries: Vec<
    (&'a String, &'a Release),
>)
    ensures
        entries@.len() == release_entries(*map).len(),
        forall|i: int|
            0 <= i < entries@.len() ==> *(#[trigger] entries@[i]).0 == release_entries(*map)[i].0
                && *entries@[i].1 == release_entries(*map)[i].1,
{
    map.iter().collect()
}

/// A block of changes as a partial map: a category that was written down
/// has its entries, in order; one that was not is not in the map.
pub type ChangesView = Map<CategoryType, Seq<Seq<char>>>;

/// A section: its notice, if it has one, and its changes.
pub struct SectionView {
    pub notice: Option<Seq<char>>,
    pub changes: ChangesView,
}

/// What is known of a dependency repository.
pub struct RepoInfoView {
    pub repo: Seq<char>,
    pub name: Seq<char>,
    pub description: Seq<char>,
}

/// A release: each of its three collections is a sequence of named items,
/// in the order of the source.
pub struct ReleaseView {
    pub date: Seq<char>,
    pub notice: Option<Seq<char>>,
    pub repos: Option<Seq<(Seq<char>, ChangesView)>>,
    pub sections: Option<Seq<(Seq<char>, SectionView)>>,
    pub packages: Option<Seq<(Seq<char>, ChangesView)>>,
}

/// A document: its releases by version, in the order of the source, and
/// the registry of its dependency repositories, if it has one.
pub struct DocumentView {
    pub repo: Seq<char>,
    pub releases: Seq<(Seq<char>, ReleaseView)>,
    pub repos: Option<Map<Seq<char>, RepoInfoView>>,
}

/// The text that an optional text holds.
pub open spec fn optional_text(text: Option<String>) -> Option<Seq<char>> {
    match text {
        Some(t) => Some(t@),
        None => None,
    }
}

/// The texts of an optional list of entries.
pub open spec fn optional_texts(list: Option<Vec<String>>) -> Option<Seq<Seq<char>>> {
    match list {
        Some(entries) => Some(texts(entries@)),
        None => None,
    }
}

/// What a registry knows of each repository, by name.
pub open spec fn known_repositories(registry: RepoRegistry) -> Map<Seq<char>, RepoInfoView> {
    registry@.map_values(|info: DependencyRepoInfo| info@)
}

/// What the registry of a document knows, where the document has one.
pub open spec fn optional_registry(registry: Option<RepoRegistry>) -> Option<
    Map<Seq<char>, RepoInfoView>,
> {
    match registry {
        Some(known) => Some(known_repositories(known)),
        None => None,
    }
}

/// The named releases that a map holds, in its order.
pub open spec fn named_releases(map: IndexMap<String, Release>) -> Seq<(Seq<char>, ReleaseView)> {
    release_entries(map).map_values(|e: (String, Release)| (e.0@, e.1@))
}

/// The named blocks of changes that a map holds, in its order.
pub open spec fn named_changes(map: IndexMap<String, Changes>) -> Seq<(Seq<char>, ChangesView)> {
    changes_entries(map).map_values(|e: (String, Changes)| (e.0@, e.1@))
}

/// The named sections that a map holds, in its order.
pub open spec fn named_sections(map: IndexMap<String, Section>) -> Seq<(Seq<char>, SectionView)> {
    section_entries(map).map_values(|e: (String, Section)| (e.0@, e.1@))
}

impl Changes {
    /// The entries that were written down under a category, if any were.
    pub open spec fn listed(&self, category_type: CategoryType) -> Option<Vec<String>> {
        match category_type {
            CategoryType::Added => self.added,
            CategoryType::Changed => self.changed,
            CategoryType::Deprecated => self.deprecated,
            CategoryType::Removed => self.removed,
            CategoryType::Fixed => self.fixed,
            CategoryType::Security => self.security,
            CategoryType::Improved => self.improved,
            CategoryType::Workaround => self.workaround,
            CategoryType::Tests => self.tests,
            CategoryType::Docs => self.docs,
            CategoryType::Refactored => self.refactored,
            CategoryType::Performance => self.performance,
            CategoryType::Breaking => self.breaking,
            CategoryType::Experimental => self.experimental,
            CategoryType::Noted => self.noted,
            CategoryType::Style => self.style,
            CategoryType::Unreleased => self.unreleased,
        }
    }

    /// Returns the entries of a category, or nothing where the category was
    /// not written down.
    pub fn list(&self, category_type: CategoryType) -> (list: &Option<Vec<String>>)
        ensures
            *list == self.listed(category_type),
    {
        match category_type {
            CategoryType::Added => &self.added,
            CategoryType::Changed => &self.changed,
            CategoryType::Deprecated => &self.deprecated,
            CategoryType::Removed => &self.removed,
            CategoryType::Fixed => &self.fixed,
            CategoryType::Security => &self.security,
            CategoryType::Improved => &self.improved,
            CategoryType::Workaround => &self.workaround,
            CategoryType::Tests => &self.tests,
            CategoryType::Docs => &self.docs,
            CategoryType::Refactored => &self.refactored,
            CategoryType::Performance => &self.performance,
            CategoryType::Breaking => &self.breaking,
            CategoryType::Experimental => &self.experimental,
            CategoryType::Noted => &self.noted,
            CategoryType::Style => &self.style,
            CategoryType::Unreleased => &self.unreleased,
        }
    }
}

impl View for Changes {
    type V = ChangesView;

    open spec fn view(&self) -> ChangesView {
        Map::new(
            |category_type: CategoryType| self.listed(category_type) is Some,
            |category_type: CategoryType| texts(self.listed(category_type).unwrap()@),
        )
    }
}

impl Default for Changes {
    /// A block of changes with no category written down.
    fn default() -> (changes: Changes)
        ensures
            changes@ == Map::<CategoryType, Seq<Seq<char>>>::empty(),
    {
        let changes = Changes {
            added: None,
            changed: None,
            deprecated: None,
            removed: None,
            fixed: None,
            security: None,
            improved: None,
            workaround: None,
            tests: None,
            docs: None,
            refactored: None,
            performance: None,
            breaking: None,
            experimental: None,
            noted: None,
            style: None,
            unreleased: None,
        };
        assert(changes@ =~= Map::<CategoryType, Seq<Seq<char>>>::empty());
        changes
    }
}

impl View for Section {
    type V = SectionView;

    open spec fn view(&self) -> SectionView {
        SectionView { notice: optional_text(self.notice), changes: self.changes@ }
    }
}

impl View for DependencyRepoInfo {
    type V = RepoInfoView;

    open spec fn view(&self) -> RepoInfoView {
        RepoInfoView { repo: self.repo@, name: self.name@, description: self.description@ }
    }
}

impl View for Release {
    type V = ReleaseView;

    open spec fn view(&self) -> ReleaseView {
        ReleaseView {
            date: self.date@,
            notice: optional_text(self.notice),
            repos: match self.repos {
                Some(map) => Some(named_changes(map)),
                None => None,
            },
            sections: match self.sections {
                Some(map) => Some(named_sections(map)),
                None => None,
            },
            packages: match self.packages {
                Some(map) => Some(named_changes(map)),
                None => None,
            },
        }
    }
}

impl View for Document {
    type V = DocumentView;

    open spec fn view(&self) -> DocumentView {
        DocumentView {
            repo: self.repo@,
            releases: named_releases(self.releases),
            repos: optional_registry(self.repos),
        }
    }
}

} // verus!
