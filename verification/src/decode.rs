//! Decoding JSON documents into records.
//!
//! Each function here computes what the spec function of the same shape in
//! [`crate::shape`] says.

use vstd::prelude::*;
use vstd::string::*;
use vstd::utf8::encode_utf8_decode_utf8;
use crate::dict::Dict;
use crate::error::DecodeError;
use crate::json::{items_view, lemma_array_view, lemma_object_view, members_view, Json, JsonView};
use crate::model::{
    author_view, authors_view, optional_texts_view, repository_view, text_view, texts_view,
    versions_view, NpmPackage, NpmPackageAuthor, NpmPackageAuthorView, NpmPackageRepository,
    NpmPackageVersion, NpmPackageVersionDist, NpmPackageVersionDistView, NpmPackageVersionView,
    NpmPackageView,
};
use crate::parse::text_document;
use crate::shape::{
    author_of, authors_of, dist_of, each_in, hits, lemma_each_in_rejects, lemma_table_in_rejects,
    lookup, optional, package_of, repository_of, required, spelled, table_in, text_of, texts_of,
    version_of, versions_of, Found,
};

verus! {

/// Whether two texts are the same, character for character.
fn same_text(a: &str, b: &str) -> (same: bool)
    ensures
        same == (a@ == b@),
{
    let x = a.as_bytes();
    let y = b.as_bytes();
    proof {
        encode_utf8_decode_utf8(a@);
        encode_utf8_decode_utf8(b@);
    }
    if x.len() != y.len() {
        return false;
    }
    let mut i: usize = 0;
    while i < x.len()
        invariant
            i <= x@.len(),
            x@.len() == y@.len(),
            x@ == a.spec_bytes(),
            y@ == b.spec_bytes(),
            forall|k: int| 0 <= k < i ==> x@[k] == y@[k],
        decreases x@.len() - i,
    {
        if x[i] != y[i] {
            assert(x@[i as int] != y@[i as int]);
            return false;
        }
        i = i + 1;
    }
    assert(x@ =~= y@);
    true
}

/// What an object holds for one field, with the value by reference.
enum Lookup<'a> {
    Absent,
    Once(&'a Json),
    Repeated,
}

/// What a lookup found, with the value taken by its view.
spec fn found_view(found: Lookup<'_>) -> Found {
    match found {
        Lookup::Absent => Found::Absent,
        Lookup::Once(value) => Found::Once(value@),
        Lookup::Repeated => Found::Repeated,
    }
}

/// The value of an optional name.
spec fn alias_view(alias: Option<&str>) -> Option<Seq<char>> {
    match alias {
        Some(a) => Some(a@),
        None => None,
    }
}

/// Looks a field up in an object by its name and, where it has one, its
/// second spelling.
fn find<'a>(members: &'a Vec<(String, Json)>, name: &str, alias: Option<&str>) -> (found:
    Lookup<'a>)
    ensures
        found_view(found) == lookup(members_view(members@), spelled(name@, alias_view(alias))),
{
    let ghost all = members_view(members@);
    let ghost accepted = spelled(name@, alias_view(alias));
    let mut first: Option<&'a Json> = None;
    let mut repeated = false;
    let mut i: usize = 0;
    while i < members.len()
        invariant
            i <= members@.len(),
            all == members_view(members@),
            accepted == spelled(name@, alias_view(alias)),
            first is None ==> hits(all.take(i as int), accepted).len() == 0 && !repeated,
            first is Some && !repeated ==> hits(all.take(i as int), accepted) == seq![first->0@],
            repeated ==> hits(all.take(i as int), accepted).len() >= 2,
        decreases members@.len() - i,
    {
        let by_name = same_text(members[i].0.as_str(), name);
        let by_alias = match alias {
            Some(other) => same_text(members[i].0.as_str(), other),
            None => false,
        };
        proof {
            let key = members@[i as int].0@;
            assert(all.take(i + 1).drop_last() =~= all.take(i as int));
            assert(all.take(i + 1).last() == (key, members@[i as int].1@));
            assert(accepted.contains(key) == (by_name || by_alias)) by {
                if by_name {
                    assert(accepted[0] == key);
                }
                if by_alias {
                    assert(accepted[1] == key);
                }
            }
        }
        if by_name || by_alias {
            if first.is_some() {
                repeated = true;
            } else {
                first = Some(&members[i].1);
            }
        }
        i = i + 1;
    }
    assert(all.take(members@.len() as int) =~= all);
    if repeated {
        Lookup::Repeated
    } else {
        match first {
            Some(value) => Lookup::Once(value),
            None => Lookup::Absent,
        }
    }
}

/// Reads a text.
fn read_text(doc: &Json) -> (text: Option<String>)
    ensures
        text_view(text) == text_of(doc@),
{
    match doc {
        Json::Str(text) => Some(text.clone()),
        _ => None,
    }
}

/// The one value of a field that must be there.
fn required_value<'a>(members: &'a Vec<(String, Json)>, name: &str) -> (value: Option<&'a Json>)
    ensures
        match value {
            Some(v) => lookup(members_view(members@), seq![name@]) == Found::Once(v@),
            None => !(lookup(members_view(members@), seq![name@]) is Once),
        },
{
    match find(members, name, None) {
        Lookup::Once(value) => Some(value),
        _ => None,
    }
}

/// What an object gives for a field that may be missing.
enum Given<'a> {
    /// No member, or one member that is `null`.
    Nothing,
    /// One member with a value other than `null`.
    Value(&'a Json),
    /// The field's names occur more than once.
    Twice,
}

/// The value of a field that may be missing.
fn optional_value<'a>(members: &'a Vec<(String, Json)>, name: &str, alias: Option<&str>) -> (given:
    Given<'a>)
    ensures
        match given {
            Given::Nothing => {
                let found = lookup(members_view(members@), spelled(name@, alias_view(alias)));
                found is Absent || found == Found::Once(JsonView::Null)
            },
            Given::Value(v) => lookup(members_view(members@), spelled(name@, alias_view(alias)))
                == Found::Once(v@) && v@ != JsonView::Null,
            Given::Twice => lookup(
                members_view(members@),
                spelled(name@, alias_view(alias)),
            ) is Repeated,
        },
{
    match find(members, name, alias) {
        Lookup::Absent => Given::Nothing,
        Lookup::Once(Json::Null) => Given::Nothing,
        Lookup::Once(value) => Given::Value(value),
        Lookup::Repeated => Given::Twice,
    }
}

/// Reads the text of a field that must be there.
fn required_text(members: &Vec<(String, Json)>, name: &str) -> (text: Option<String>)
    ensures
        text_view(text) == required(
            lookup(members_view(members@), seq![name@]),
            |v: JsonView| text_of(v),
        ),
{
    match required_value(members, name) {
        Some(value) => read_text(value),
        None => None,
    }
}

/// Reads the text of a field that may be missing.
fn optional_text(members: &Vec<(String, Json)>, name: &str, alias: Option<&str>) -> (text: Option<
    Option<String>,
>)
    ensures
        match text {
            Some(t) => optional(
                lookup(members_view(members@), spelled(name@, alias_view(alias))),
                |v: JsonView| text_of(v),
            ) == Some(text_view(t)),
            None => optional(
                lookup(members_view(members@), spelled(name@, alias_view(alias))),
                |v: JsonView| text_of(v),
            ) is None,
        },
{
    match optional_value(members, name, alias) {
        Given::Nothing => Some(None),
        Given::Value(value) => match read_text(value) {
            Some(t) => Some(Some(t)),
            None => None,
        },
        Given::Twice => None,
    }
}

/// Reads a map from names to texts.
fn read_texts(doc: &Json) -> (texts: Option<Dict<String>>)
    ensures
        optional_texts_view(texts) == texts_of(doc@),
{
    match doc {
        Json::Object(members) => {
            let ghost all = members_view(members@);
            proof {
                lemma_object_view(*members);
            }
            let mut texts: Dict<String> = Dict::new();
            let mut i: usize = 0;
            assert(texts_view(texts) =~= Map::empty());
            while i < members.len()
                invariant
                    i <= members@.len(),
                    all == members_view(members@),
                    doc@ == JsonView::Object(all),
                    table_in(all.take(i as int), |v: JsonView| text_of(v)) == Some(
                        texts_view(texts),
                    ),
                decreases members@.len() - i,
            {
                proof {
                    assert(all.take(i + 1).drop_last() =~= all.take(i as int));
                    assert(all.take(i + 1).last() == (members@[i as int].0@, members@[i as int].1@));
                }
                match read_text(&members[i].1) {
                    Some(text) => {
                        let ghost before = texts_view(texts);
                        texts.insert(members[i].0.clone(), text);
                        assert(texts_view(texts) =~= before.insert(members@[i as int].0@, text@));
                    },
                    None => {
                        proof {
                            lemma_table_in_rejects(all, i as int, |v: JsonView| text_of(v));
                        }
                        return None;
                    },
                }
                i = i + 1;
            }
            assert(all.take(members@.len() as int) =~= all);
            Some(texts)
        },
        _ => None,
    }
}

/// Reads an author.
fn read_author(doc: &Json) -> (author: Option<NpmPackageAuthor>)
    ensures
        author_view(author) == author_of(doc@),
{
    match doc {
        Json::Object(members) => {
            proof {
                lemma_object_view(*members);
            }
            let name = match optional_text(members, "name", None) {
                Some(t) => t,
                None => {
                    return None;
                },
            };
            let email = match optional_text(members, "email", None) {
                Some(t) => t,
                None => {
                    return None;
                },
            };
            let url = match optional_text(members, "url", None) {
                Some(t) => t,
                None => {
                    return None;
                },
            };
            Some(NpmPackageAuthor { name, email, url })
        },
        _ => None,
    }
}

/// Reads a repository reference.
fn read_repository(doc: &Json) -> (repository: Option<NpmPackageRepository>)
    ensures
        repository_view(repository) == repository_of(doc@),
{
    match doc {
        Json::Object(members) => {
            proof {
                lemma_object_view(*members);
            }
            let kind = match required_text(members, "type") {
                Some(t) => t,
                None => {
                    return None;
                },
            };
            let url = match required_text(members, "url") {
                Some(t) => t,
                None => {
                    return None;
                },
            };
            Some(NpmPackageRepository { kind, url })
        },
        _ => None,
    }
}

/// The value of optional distribution metadata.
spec fn dist_view(dist: Option<NpmPackageVersionDist>) -> Option<
    NpmPackageVersionDistView,
> {
    match dist {
        Some(d) => Some(d@),
        None => None,
    }
}

/// Reads distribution metadata.
fn read_dist(doc: &Json) -> (dist: Option<NpmPackageVersionDist>)
    ensures
        dist_view(dist) == dist_of(doc@),
{
    match doc {
        Json::Object(members) => {
            proof {
                lemma_object_view(*members);
            }
            let shasum = match required_text(members, "shasum") {
                Some(t) => t,
                None => {
                    return None;
                },
            };
            let tarball = match required_text(members, "tarball") {
                Some(t) => t,
                None => {
                    return None;
                },
            };
            Some(NpmPackageVersionDist { shasum, tarball })
        },
        _ => None,
    }
}

/// The value of an optional list of authors.
spec fn optional_authors_view(authors: Option<Vec<NpmPackageAuthor>>) -> Option<
    Seq<NpmPackageAuthorView>,
> {
    match authors {
        Some(a) => Some(authors_view(a@)),
        None => None,
    }
}

/// Reads a list of authors.
fn read_authors(doc: &Json) -> (authors: Option<Vec<NpmPackageAuthor>>)
    ensures
        optional_authors_view(authors) == authors_of(doc@),
{
    match doc {
        Json::Array(items) => {
            let ghost all = items_view(items@);
            proof {
                lemma_array_view(*items);
            }
            let mut authors: Vec<NpmPackageAuthor> = Vec::new();
            let mut i: usize = 0;
            assert(authors_view(authors@) =~= Seq::empty());
            while i < items.len()
                invariant
                    i <= items@.len(),
                    all == items_view(items@),
                    doc@ == JsonView::Array(all),
                    each_in(all.take(i as int), |item: JsonView| author_of(item)) == Some(
                        authors_view(authors@),
                    ),
                decreases items@.len() - i,
            {
                proof {
                    assert(all.take(i + 1).drop_last() =~= all.take(i as int));
                    assert(all.take(i + 1).last() == items@[i as int]@);
                }
                match read_author(&items[i]) {
                    Some(author) => {
                        let ghost before = authors_view(authors@);
                        authors.push(author);
                        assert(authors_view(authors@) =~= before.push(author@));
                    },
                    None => {
                        proof {
                            lemma_each_in_rejects(all, i as int, |item: JsonView| author_of(item));
                        }
                        return None;
                    },
                }
                i = i + 1;
            }
            assert(all.take(items@.len() as int) =~= all);
            Some(authors)
        },
        _ => None,
    }
}

/// Reads the map of texts of a field that must be there.
fn required_texts(members: &Vec<(String, Json)>, name: &str) -> (texts: Option<Dict<String>>)
    ensures
        optional_texts_view(texts) == required(
            lookup(members_view(members@), seq![name@]),
            |v: JsonView| texts_of(v),
        ),
{
    match required_value(members, name) {
        Some(value) => read_texts(value),
        None => None,
    }
}

/// Reads the map of texts of a field that may be missing.
fn optional_texts(members: &Vec<(String, Json)>, name: &str, alias: Option<&str>) -> (texts:
    Option<Option<Dict<String>>>)
    ensures
        match texts {
            Some(t) => optional(
                lookup(members_view(members@), spelled(name@, alias_view(alias))),
                |v: JsonView| texts_of(v),
            ) == Some(optional_texts_view(t)),
            None => optional(
                lookup(members_view(members@), spelled(name@, alias_view(alias))),
                |v: JsonView| texts_of(v),
            ) is None,
        },
{
    match optional_value(members, name, alias) {
        Given::Nothing => Some(None),
        Given::Value(value) => match read_texts(value) {
            Some(t) => Some(Some(t)),
            None => None,
        },
        Given::Twice => None,
    }
}

/// Reads the author of a field that must be there.
fn required_author(members: &Vec<(String, Json)>, name: &str) -> (author: Option<NpmPackageAuthor>)
    ensures
        author_view(author) == required(
            lookup(members_view(members@), seq![name@]),
            |v: JsonView| author_of(v),
        ),
{
    match required_value(members, name) {
        Some(value) => read_author(value),
        None => None,
    }
}

/// Reads the author of a field that may be missing.
fn optional_author(members: &Vec<(String, Json)>, name: &str, alias: Option<&str>) -> (author:
    Option<Option<NpmPackageAuthor>>)
    ensures
        match author {
            Some(a) => optional(
                lookup(members_view(members@), spelled(name@, alias_view(alias))),
                |v: JsonView| author_of(v),
            ) == Some(author_view(a)),
            None => optional(
                lookup(members_view(members@), spelled(name@, alias_view(alias))),
                |v: JsonView| author_of(v),
            ) is None,
        },
{
    match optional_value(members, name, alias) {
        Given::Nothing => Some(None),
        Given::Value(value) => match read_author(value) {
            Some(a) => Some(Some(a)),
            None => None,
        },
        Given::Twice => None,
    }
}

/// Reads the repository reference of a field that may be missing.
fn optional_repository(members: &Vec<(String, Json)>, name: &str) -> (repository: Option<
    Option<NpmPackageRepository>,
>)
    ensures
        match repository {
            Some(r) => optional(
                lookup(members_view(members@), seq![name@]),
                |v: JsonView| repository_of(v),
            ) == Some(repository_view(r)),
            None => optional(
                lookup(members_view(members@), seq![name@]),
                |v: JsonView| repository_of(v),
            ) is None,
        },
{
    match optional_value(members, name, None) {
        Given::Nothing => Some(None),
        Given::Value(value) => match read_repository(value) {
            Some(r) => Some(Some(r)),
            None => None,
        },
        Given::Twice => None,
    }
}

/// The value of an optional version record.
spec fn version_view(version: Option<NpmPackageVersion>) -> Option<NpmPackageVersionView> {
    match version {
        Some(v) => Some(v@),
        None => None,
    }
}

/// Reads a version record.
fn read_version(doc: &Json) -> (version: Option<NpmPackageVersion>)
    ensures
        version_view(version) == version_of(doc@),
{
    match doc {
        Json::Object(members) => {
            proof {
                lemma_object_view(*members);
            }
            let name = match required_text(members, "name") {
                Some(t) => t,
                None => {
                    return None;
                },
            };
            let version = match required_text(members, "version") {
                Some(t) => t,
                None => {
                    return None;
                },
            };
            let homepage = match required_text(members, "homepage") {
                Some(t) => t,
                None => {
                    return None;
                },
            };
            let repository = match optional_repository(members, "repository") {
                Some(r) => r,
                None => {
                    return None;
                },
            };
            let dependencies = match optional_texts(members, "dependencies", None) {
                Some(t) => t,
                None => {
                    return None;
                },
            };
            let dev_dependencies = match optional_texts(
                members,
                "dev_dependencies",
                Some("devDependencies"),
            ) {
                Some(t) => t,
                None => {
                    return None;
                },
            };
            let scripts = match required_texts(members, "scripts") {
                Some(t) => t,
                None => {
                    return None;
                },
            };
            let author = match required_author(members, "author") {
                Some(a) => a,
                None => {
                    return None;
                },
            };
            let license = match optional_text(members, "license", None) {
                Some(t) => t,
                None => {
                    return None;
                },
            };
            let readme = match optional_text(members, "readme", None) {
                Some(t) => t,
                None => {
                    return None;
                },
            };
            let readme_filename = match optional_text(
                members,
                "readme_filename",
                Some("readmeFilename"),
            ) {
                Some(t) => t,
                None => {
                    return None;
                },
            };
            let id = match required_text(members, "_id") {
                Some(t) => t,
                None => {
                    return None;
                },
            };
            let description = match required_text(members, "description") {
                Some(t) => t,
                None => {
                    return None;
                },
            };
            let dist = match required_value(members, "dist") {
                Some(value) => match read_dist(value) {
                    Some(d) => d,
                    None => {
                        return None;
                    },
                },
                None => {
                    return None;
                },
            };
            let npm_version = match optional_text(members, "_npm_version", Some("_npmVersion")) {
                Some(t) => t,
                None => {
                    return None;
                },
            };
            let npm_user = match optional_author(members, "_npm_user", Some("_npmUser")) {
                Some(a) => a,
                None => {
                    return None;
                },
            };
            let maintainers = match required_value(members, "maintainers") {
                Some(value) => match read_authors(value) {
                    Some(a) => a,
                    None => {
                        return None;
                    },
                },
                None => {
                    return None;
                },
            };
            Some(
                NpmPackageVersion {
                    name,
                    version,
                    homepage,
                    repository,
                    dependencies,
                    dev_dependencies,
                    scripts,
                    author,
                    license,
                    readme,
                    readme_filename,
                    _id: id,
                    description,
                    dist,
                    _npm_version: npm_version,
                    _npm_user: npm_user,
                    maintainers,
                },
            )
        },
        _ => None,
    }
}

/// The value of an optional map of version records.
spec fn optional_versions_view(versions: Option<Dict<NpmPackageVersion>>) -> Option<
    Map<Seq<char>, NpmPackageVersionView>,
> {
    match versions {
        Some(v) => Some(versions_view(v)),
        None => None,
    }
}

/// Reads a map from version strings to version records.
fn read_versions(doc: &Json) -> (versions: Option<Dict<NpmPackageVersion>>)
    ensures
        optional_versions_view(versions) == versions_of(doc@),
{
    match doc {
        Json::Object(members) => {
            let ghost all = members_view(members@);
            proof {
                lemma_object_view(*members);
            }
            let mut versions: Dict<NpmPackageVersion> = Dict::new();
            let mut i: usize = 0;
            assert(versions_view(versions) =~= Map::empty());
            while i < members.len()
                invariant
                    i <= members@.len(),
                    all == members_view(members@),
                    doc@ == JsonView::Object(all),
                    table_in(all.take(i as int), |v: JsonView| version_of(v)) == Some(
                        versions_view(versions),
                    ),
                decreases members@.len() - i,
            {
                proof {
                    assert(all.take(i + 1).drop_last() =~= all.take(i as int));
                    assert(all.take(i + 1).last() == (members@[i as int].0@, members@[i as int].1@));
                }
                match read_version(&members[i].1) {
                    Some(version) => {
                        let ghost before = versions_view(versions);
                        versions.insert(members[i].0.clone(), version);
                        assert(versions_view(versions) =~= before.insert(
                            members@[i as int].0@,
                            version@,
                        ));
                    },
                    None => {
                        proof {
                            lemma_table_in_rejects(all, i as int, |v: JsonView| version_of(v));
                        }
                        return None;
                    },
                }
                i = i + 1;
            }
            assert(all.take(members@.len() as int) =~= all);
            Some(versions)
        },
        _ => None,
    }
}

/// The value of an optional package document.
spec fn package_view(package: Option<NpmPackage>) -> Option<NpmPackageView> {
    match package {
        Some(p) => Some(p@),
        None => None,
    }
}

/// Reads a package document.
fn read_package(doc: &Json) -> (package: Option<NpmPackage>)
    ensures
        package_view(package) == package_of(doc@),
{
    match doc {
        Json::Object(members) => {
            proof {
                lemma_object_view(*members);
            }
            let id = match required_text(members, "_id") {
                Some(t) => t,
                None => {
                    return None;
                },
            };
            let rev = match required_text(members, "_rev") {
                Some(t) => t,
                None => {
                    return None;
                },
            };
            let name = match required_text(members, "name") {
                Some(t) => t,
                None => {
                    return None;
                },
            };
            let description = match required_text(members, "description") {
                Some(t) => t,
                None => {
                    return None;
                },
            };
            let dist_tags = match required_texts(members, "dist-tags") {
                Some(t) => t,
                None => {
                    return None;
                },
            };
            let versions = match required_value(members, "versions") {
                Some(value) => match read_versions(value) {
                    Some(v) => v,
                    None => {
                        return None;
                    },
                },
                None => {
                    return None;
                },
            };
            let time = match required_texts(members, "time") {
                Some(t) => t,
                None => {
                    return None;
                },
            };
            let author = match required_author(members, "author") {
                Some(a) => a,
                None => {
                    return None;
                },
            };
            let repository = match optional_repository(members, "repository") {
                Some(r) => r,
                None => {
                    return None;
                },
            };
            let readme = match optional_text(members, "readme", None) {
                Some(t) => t,
                None => {
                    return None;
                },
            };
            Some(
                NpmPackage {
                    _id: id,
                    _rev: rev,
                    name,
                    description,
                    dist_tags,
                    versions,
                    time,
                    author,
                    repository,
                    readme,
                },
            )
        },
        _ => None,
    }
}

/// What decoding the bytes of a reply gives: the package that the text
/// spells out, or the reason why there is none.
pub open spec fn package_in(body: Seq<u8>) -> Result<NpmPackageView, DecodeError> {
    match text_document(body) {
        None => Err(DecodeError::InvalidJson),
        Some(doc) => match package_of(doc) {
            Some(package) => Ok(package),
            None => Err(DecodeError::UnexpectedShape),
        },
    }
}

impl NpmPackageAuthor {
    /// Decodes an author. Fails exactly on the documents that are not one.
    pub fn from_json(doc: &Json) -> (outcome: Result<NpmPackageAuthor, DecodeError>)
        ensures
            match outcome {
                Ok(author) => author_of(doc@) == Some(author@),
                Err(e) => author_of(doc@) is None && e == DecodeError::UnexpectedShape,
            },
    {
        match read_author(doc) {
            Some(author) => Ok(author),
            None => Err(DecodeError::UnexpectedShape),
        }
    }
}

impl NpmPackageRepository {
    /// Decodes a repository reference. Fails exactly on the documents that
    /// are not one.
    pub fn from_json(doc: &Json) -> (outcome: Result<NpmPackageRepository, DecodeError>)
        ensures
            match outcome {
                Ok(repository) => repository_of(doc@) == Some(repository@),
                Err(e) => repository_of(doc@) is None && e == DecodeError::UnexpectedShape,
            },
    {
        match read_repository(doc) {
            Some(repository) => Ok(repository),
            None => Err(DecodeError::UnexpectedShape),
        }
    }
}

impl NpmPackageVersionDist {
    /// Decodes distribution metadata. Fails exactly on the documents that
    /// are not such metadata.
    pub fn from_json(doc: &Json) -> (outcome: Result<NpmPackageVersionDist, DecodeError>)
        ensures
            match outcome {
                Ok(dist) => dist_of(doc@) == Some(dist@),
                Err(e) => dist_of(doc@) is None && e == DecodeError::UnexpectedShape,
            },
    {
        match read_dist(doc) {
            Some(dist) => Ok(dist),
            None => Err(DecodeError::UnexpectedShape),
        }
    }
}

impl NpmPackageVersion {
    /// Decodes a version record. Fails exactly on the documents that are
    /// not one.
    pub fn from_json(doc: &Json) -> (outcome: Result<NpmPackageVersion, DecodeError>)
        ensures
            match outcome {
                Ok(version) => version_of(doc@) == Some(version@),
                Err(e) => version_of(doc@) is None && e == DecodeError::UnexpectedShape,
            },
    {
        match read_version(doc) {
            Some(version) => Ok(version),
            None => Err(DecodeError::UnexpectedShape),
        }
    }
}

impl NpmPackage {
    /// Decodes a package document. Fails exactly on the documents that are
    /// not one.
    pub fn from_json(doc: &Json) -> (outcome: Result<NpmPackage, DecodeError>)
        ensures
            match outcome {
                Ok(package) => package_of(doc@) == Some(package@),
                Err(e) => package_of(doc@) is None && e == DecodeError::UnexpectedShape,
            },
    {
        match read_package(doc) {
            Some(package) => Ok(package),
            None => Err(DecodeError::UnexpectedShape),
        }
    }

    /// Decodes the body of a registry reply.
    ///
    /// A body that is not a JSON text is [`DecodeError::InvalidJson`]; a JSON
    /// text that is not a package document, such as the registry's reply for
    /// a package it does not have, is [`DecodeError::UnexpectedShape`].
    pub fn from_slice(body: &[u8]) -> (outcome: Result<NpmPackage, DecodeError>)
        ensures
            match outcome {
                Ok(package) => package_in(body@) == Ok::<NpmPackageView, DecodeError>(package@),
                Err(e) => package_in(body@) == Err::<NpmPackageView, DecodeError>(e),
            },
    {
        match Json::parse(body) {
            Ok(doc) => NpmPackage::from_json(&doc),
            Err(e) => Err(e),
        }
    }
}

} // verus!
