//! The records of a package document, each with its mathematical value.

use vstd::prelude::*;
use crate::dict::Dict;

verus! {

/// The value of an optional text.
pub open spec fn text_view(text: Option<String>) -> Option<Seq<char>> {
    match text {
        Some(t) => Some(t@),
        None => None,
    }
}

/// The value of a map from names to texts.
pub open spec fn texts_view(texts: Dict<String>) -> Map<Seq<char>, Seq<char>> {
    texts@.map_values(|t: String| t@)
}

/// The value of an optional map from names to texts.
pub open spec fn optional_texts_view(texts: Option<Dict<String>>) -> Option<
    Map<Seq<char>, Seq<char>>,
> {
    match texts {
        Some(t) => Some(texts_view(t)),
        None => None,
    }
}

/// A person or organisation. The registry fills these in unevenly, so each
/// part may be absent.
#[derive(Debug)]
pub struct NpmPackageAuthor {
    pub name: Option<String>,
    pub email: Option<String>,
    pub url: Option<String>,
}

/// The value of an [`NpmPackageAuthor`].
pub ghost struct NpmPackageAuthorView {
    pub name: Option<Seq<char>>,
    pub email: Option<Seq<char>>,
    pub url: Option<Seq<char>>,
}

impl View for NpmPackageAuthor {
    type V = NpmPackageAuthorView;

    open spec fn view(&self) -> NpmPackageAuthorView {
        NpmPackageAuthorView {
            name: text_view(self.name),
            email: text_view(self.email),
            url: text_view(self.url),
        }
    }
}

/// Where a package's source is kept.
#[derive(Debug)]
pub struct NpmPackageRepository {
    /// The kind of repository, such as `git`; the member `type` of the
    /// document.
    pub kind: String,
    pub url: String,
}

/// The value of an [`NpmPackageRepository`].
pub ghost struct NpmPackageRepositoryView {
    pub kind: Seq<char>,
    pub url: Seq<char>,
}

impl View for NpmPackageRepository {
    type V = NpmPackageRepositoryView;

    open spec fn view(&self) -> NpmPackageRepositoryView {
        NpmPackageRepositoryView { kind: self.kind@, url: self.url@ }
    }
}

/// The value of an optional repository.
pub open spec fn repository_view(repository: Option<NpmPackageRepository>) -> Option<
    NpmPackageRepositoryView,
> {
    match repository {
        Some(r) => Some(r@),
        None => None,
    }
}

/// How one version is distributed.
#[derive(Debug)]
pub struct NpmPackageVersionDist {
    /// The checksum of the tarball.
    pub shasum: String,
    /// Where the tarball is downloaded from.
    pub tarball: String,
}

/// The value of an [`NpmPackageVersionDist`].
pub ghost struct NpmPackageVersionDistView {
    pub shasum: Seq<char>,
    pub tarball: Seq<char>,
}

impl View for NpmPackageVersionDist {
    type V = NpmPackageVersionDistView;

    open spec fn view(&self) -> NpmPackageVersionDistView {
        NpmPackageVersionDistView { shasum: self.shasum@, tarball: self.tarball@ }
    }
}

/// The value of an optional author.
pub open spec fn author_view(author: Option<NpmPackageAuthor>) -> Option<NpmPackageAuthorView> {
    match author {
        Some(a) => Some(a@),
        None => None,
    }
}

/// The values of a list of authors, in order.
pub open spec fn authors_view(authors: Seq<NpmPackageAuthor>) -> Seq<NpmPackageAuthorView> {
    Seq::new(authors.len(), |i: int| authors[i]@)
}

/// One published version of a package.
#[derive(Debug)]
pub struct NpmPackageVersion {
    pub name: String,
    pub version: String,
    pub homepage: String,
    pub repository: Option<NpmPackageRepository>,
    /// Dependency name to version range.
    pub dependencies: Option<Dict<String>>,
    /// Development dependency name to version range.
    pub dev_dependencies: Option<Dict<String>>,
    /// Script name to command.
    pub scripts: Dict<String>,
    pub author: NpmPackageAuthor,
    pub license: Option<String>,
    pub readme: Option<String>,
    pub readme_filename: Option<String>,
    pub _id: String,
    pub description: String,
    pub dist: NpmPackageVersionDist,
    /// The version of the tool that published this version.
    pub _npm_version: Option<String>,
    /// The user who published this version.
    pub _npm_user: Option<NpmPackageAuthor>,
    pub maintainers: Vec<NpmPackageAuthor>,
}

/// The value of an [`NpmPackageVersion`].
pub ghost struct NpmPackageVersionView {
    pub name: Seq<char>,
    pub version: Seq<char>,
    pub homepage: Seq<char>,
    pub repository: Option<NpmPackageRepositoryView>,
    pub dependencies: Option<Map<Seq<char>, Seq<char>>>,
    pub dev_dependencies: Option<Map<Seq<char>, Seq<char>>>,
    pub scripts: Map<Seq<char>, Seq<char>>,
    pub author: NpmPackageAuthorView,
    pub license: Option<Seq<char>>,
    pub readme: Option<Seq<char>>,
    pub readme_filename: Option<Seq<char>>,
    pub _id: Seq<char>,
    pub description: Seq<char>,
    pub dist: NpmPackageVersionDistView,
    pub _npm_version: Option<Seq<char>>,
    pub _npm_user: Option<NpmPackageAuthorView>,
    pub maintainers: Seq<NpmPackageAuthorView>,
}

impl View for NpmPackageVersion {
    type V = NpmPackageVersionView;

    open spec fn view(&self) -> NpmPackageVersionView {
        NpmPackageVersionView {
            name: self.name@,
            version: self.version@,
            homepage: self.homepage@,
            repository: repository_view(self.repository),
            dependencies: optional_texts_view(self.dependencies),
            dev_dependencies: optional_texts_view(self.dev_dependencies),
            scripts: texts_view(self.scripts),
            author: self.author@,
            license: text_view(self.license),
            readme: text_view(self.readme),
            readme_filename: text_view(self.readme_filename),
            _id: self._id@,
            description: self.description@,
            dist: self.dist@,
            _npm_version: text_view(self._npm_version),
            _npm_user: author_view(self._npm_user),
            maintainers: authors_view(self.maintainers@),
        }
    }
}

/// The value of a map from version strings to version records.
pub open spec fn versions_view(versions: Dict<NpmPackageVersion>) -> Map<
    Seq<char>,
    NpmPackageVersionView,
> {
    versions@.map_values(|v: NpmPackageVersion| v@)
}

/// The registry's document of one package.
#[derive(Debug)]
pub struct NpmPackage {
    pub _id: String,
    pub _rev: String,
    pub name: String,
    pub description: String,
    /// Distribution tag to version string; the member `dist-tags` of the
    /// document.
    pub dist_tags: Dict<String>,
    /// Version string to version record.
    pub versions: Dict<NpmPackageVersion>,
    /// Event name (`created`, `modified`, a version string) to timestamp.
    pub time: Dict<String>,
    pub author: NpmPackageAuthor,
    pub repository: Option<NpmPackageRepository>,
    pub readme: Option<String>,
}

/// The value of an [`NpmPackage`].
pub ghost struct NpmPackageView {
    pub _id: Seq<char>,
    pub _rev: Seq<char>,
    pub name: Seq<char>,
    pub description: Seq<char>,
    pub dist_tags: Map<Seq<char>, Seq<char>>,
    pub versions: Map<Seq<char>, NpmPackageVersionView>,
    pub time: Map<Seq<char>, Seq<char>>,
    pub author: NpmPackageAuthorView,
    pub repository: Option<NpmPackageRepositoryView>,
    pub readme: Option<Seq<char>>,
}

impl View for NpmPackage {
    type V = NpmPackageView;

    open spec fn view(&self) -> NpmPackageView {
        NpmPackageView {
            _id: self._id@,
            _rev: self._rev@,
            name: self.name@,
            description: self.description@,
            dist_tags: texts_view(self.dist_tags),
            versions: versions_view(self.versions),
            time: texts_view(self.time),
            author: self.author@,
            repository: repository_view(self.repository),
            readme: text_view(self.readme),
        }
    }
}

} // verus!
