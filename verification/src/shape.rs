//! Which documents are records, and which record each one is.
//!
//! Every function here is a spec function: it says what a JSON document
//! decodes to, with `None` for a document that is not of the wanted shape.
//! A record is read from an object. Each field has a short list of accepted
//! member names; members under any other name are passed over. A field whose
//! names occur more than once in the object makes the whole object invalid.

use vstd::prelude::*;
use crate::json::{JsonView, Members};
use crate::model::{
    NpmPackageAuthorView, NpmPackageRepositoryView, NpmPackageVersionDistView,
    NpmPackageVersionView, NpmPackageView,
};

verus! {

/// The values of the members whose name is one of `accepted`, in document
/// order.
pub open spec fn hits(members: Members, accepted: Seq<Seq<char>>) -> Seq<JsonView>
    decreases members.len(),
{
    if members.len() == 0 {
        Seq::empty()
    } else if accepted.contains(members.last().0) {
        hits(members.drop_last(), accepted).push(members.last().1)
    } else {
        hits(members.drop_last(), accepted)
    }
}

/// What an object holds for one field.
pub ghost enum Found {
    /// No member carries one of the field's names.
    Absent,
    /// Exactly one member does, with this value.
    Once(JsonView),
    /// Two or more members do.
    Repeated,
}

/// Looks a field up by its accepted names.
pub open spec fn lookup(members: Members, accepted: Seq<Seq<char>>) -> Found {
    let values = hits(members, accepted);
    if values.len() == 0 {
        Found::Absent
    } else if values.len() == 1 {
        Found::Once(values[0])
    } else {
        Found::Repeated
    }
}

/// A field that must be there: one member, whose value `read` accepts.
pub open spec fn required<T>(found: Found, read: spec_fn(JsonView) -> Option<T>) -> Option<T> {
    match found {
        Found::Once(value) => read(value),
        _ => None,
    }
}

/// A field that may be missing. No member, or one member that is `null`,
/// gives an absent field; one member with another value gives what `read`
/// makes of it, and is invalid where `read` rejects it.
pub open spec fn optional<T>(found: Found, read: spec_fn(JsonView) -> Option<T>) -> Option<
    Option<T>,
> {
    match found {
        Found::Absent => Some(None),
        Found::Once(JsonView::Null) => Some(None),
        Found::Once(value) => match read(value) {
            Some(v) => Some(Some(v)),
            None => None,
        },
        Found::Repeated => None,
    }
}

/// A text: a JSON string and nothing else.
pub open spec fn text_of(doc: JsonView) -> Option<Seq<char>> {
    match doc {
        JsonView::Str(text) => Some(text),
        _ => None,
    }
}

/// The map that a list of members spells out, each value read by `read`.
/// Members are entered in document order, so a name given twice keeps its
/// last value. One value that `read` rejects makes the whole list invalid.
pub open spec fn table_in<T>(members: Members, read: spec_fn(JsonView) -> Option<T>) -> Option<
    Map<Seq<char>, T>,
>
    decreases members.len(),
{
    if members.len() == 0 {
        Some(Map::empty())
    } else {
        match (table_in(members.drop_last(), read), read(members.last().1)) {
            (Some(table), Some(value)) => Some(table.insert(members.last().0, value)),
            _ => None,
        }
    }
}

/// A map from names to values: an object whose every value `read` accepts.
pub open spec fn table_of<T>(doc: JsonView, read: spec_fn(JsonView) -> Option<T>) -> Option<
    Map<Seq<char>, T>,
> {
    match doc {
        JsonView::Object(members) => table_in(members, read),
        _ => None,
    }
}

/// The items of a list, each read by `read`; one rejected item makes the
/// whole list invalid.
pub open spec fn each_in<T>(items: Seq<JsonView>, read: spec_fn(JsonView) -> Option<T>) -> Option<
    Seq<T>,
>
    decreases items.len(),
{
    if items.len() == 0 {
        Some(Seq::empty())
    } else {
        match (each_in(items.drop_last(), read), read(items.last())) {
            (Some(front), Some(value)) => Some(front.push(value)),
            _ => None,
        }
    }
}

/// A list: an array whose every item `read` accepts.
pub open spec fn list_of<T>(doc: JsonView, read: spec_fn(JsonView) -> Option<T>) -> Option<Seq<T>> {
    match doc {
        JsonView::Array(items) => each_in(items, read),
        _ => None,
    }
}

/// Where the value of some member is rejected, the whole list is.
pub proof fn lemma_table_in_rejects<T>(
    members: Members,
    at: int,
    read: spec_fn(JsonView) -> Option<T>,
)
    requires
        0 <= at < members.len(),
        read(members[at].1) is None,
    ensures
        table_in(members, read) is None,
    decreases members.len(),
{
    if at < members.len() - 1 {
        lemma_table_in_rejects(members.drop_last(), at, read);
    }
}

/// Where some item is rejected, the whole list is.
pub proof fn lemma_each_in_rejects<T>(
    items: Seq<JsonView>,
    at: int,
    read: spec_fn(JsonView) -> Option<T>,
)
    requires
        0 <= at < items.len(),
        read(items[at]) is None,
    ensures
        each_in(items, read) is None,
    decreases items.len(),
{
    if at < items.len() - 1 {
        lemma_each_in_rejects(items.drop_last(), at, read);
    }
}

/// A map from names to texts.
pub open spec fn texts_of(doc: JsonView) -> Option<Map<Seq<char>, Seq<char>>> {
    table_of(doc, |value: JsonView| text_of(value))
}

/// The names under which an object may give a field: its own name and, for
/// some fields, a second spelling.
pub open spec fn spelled(name: Seq<char>, alias: Option<Seq<char>>) -> Seq<Seq<char>> {
    match alias {
        Some(other) => seq![name, other],
        None => seq![name],
    }
}

/// An author: an object with the optional texts `name`, `email` and `url`.
pub open spec fn author_of(doc: JsonView) -> Option<NpmPackageAuthorView> {
    match doc {
        JsonView::Object(members) => {
            let name = optional(lookup(members, seq!["name"@]), |v: JsonView| text_of(v));
            let email = optional(lookup(members, seq!["email"@]), |v: JsonView| text_of(v));
            let url = optional(lookup(members, seq!["url"@]), |v: JsonView| text_of(v));
            if name is Some && email is Some && url is Some {
                Some(NpmPackageAuthorView { name: name->0, email: email->0, url: url->0 })
            } else {
                None
            }
        },
        _ => None,
    }
}

/// A repository reference: an object with the texts `type` and `url`.
pub open spec fn repository_of(doc: JsonView) -> Option<NpmPackageRepositoryView> {
    match doc {
        JsonView::Object(members) => {
            let kind = required(lookup(members, seq!["type"@]), |v: JsonView| text_of(v));
            let url = required(lookup(members, seq!["url"@]), |v: JsonView| text_of(v));
            if kind is Some && url is Some {
                Some(NpmPackageRepositoryView { kind: kind->0, url: url->0 })
            } else {
                None
            }
        },
        _ => None,
    }
}

/// Distribution metadata: an object with the texts `shasum` and `tarball`.
pub open spec fn dist_of(doc: JsonView) -> Option<NpmPackageVersionDistView> {
    match doc {
        JsonView::Object(members) => {
            let shasum = required(lookup(members, seq!["shasum"@]), |v: JsonView| text_of(v));
            let tarball = required(lookup(members, seq!["tarball"@]), |v: JsonView| text_of(v));
            if shasum is Some && tarball is Some {
                Some(NpmPackageVersionDistView { shasum: shasum->0, tarball: tarball->0 })
            } else {
                None
            }
        },
        _ => None,
    }
}

/// A list of authors.
pub open spec fn authors_of(doc: JsonView) -> Option<Seq<NpmPackageAuthorView>> {
    list_of(doc, |item: JsonView| author_of(item))
}

/// A version record.
///
/// Required: `name`, `version`, `homepage`, `scripts`, `author`, `_id`,
/// `description`, `dist`, `maintainers`. Optional: `repository`,
/// `dependencies`, `license`, `readme`, and four fields with two spellings
/// each: `dev_dependencies` or `devDependencies`, `readme_filename` or
/// `readmeFilename`, `_npm_version` or `_npmVersion`, `_npm_user` or
/// `_npmUser`.
pub open spec fn version_of(doc: JsonView) -> Option<NpmPackageVersionView> {
    match doc {
        JsonView::Object(members) => {
            let name = required(lookup(members, seq!["name"@]), |v: JsonView| text_of(v));
            let version = required(lookup(members, seq!["version"@]), |v: JsonView| text_of(v));
            let homepage = required(lookup(members, seq!["homepage"@]), |v: JsonView| text_of(v));
            let repository = optional(
                lookup(members, seq!["repository"@]),
                |v: JsonView| repository_of(v),
            );
            let dependencies = optional(
                lookup(members, seq!["dependencies"@]),
                |v: JsonView| texts_of(v),
            );
            let dev_dependencies = optional(
                lookup(members, seq!["dev_dependencies"@, "devDependencies"@]),
                |v: JsonView| texts_of(v),
            );
            let scripts = required(lookup(members, seq!["scripts"@]), |v: JsonView| texts_of(v));
            let author = required(lookup(members, seq!["author"@]), |v: JsonView| author_of(v));
            let license = optional(lookup(members, seq!["license"@]), |v: JsonView| text_of(v));
            let readme = optional(lookup(members, seq!["readme"@]), |v: JsonView| text_of(v));
            let readme_filename = optional(
                lookup(members, seq!["readme_filename"@, "readmeFilename"@]),
                |v: JsonView| text_of(v),
            );
            let id = required(lookup(members, seq!["_id"@]), |v: JsonView| text_of(v));
            let description = required(
                lookup(members, seq!["description"@]),
                |v: JsonView| text_of(v),
            );
            let dist = required(lookup(members, seq!["dist"@]), |v: JsonView| dist_of(v));
            let npm_version = optional(
                lookup(members, seq!["_npm_version"@, "_npmVersion"@]),
                |v: JsonView| text_of(v),
            );
            let npm_user = optional(
                lookup(members, seq!["_npm_user"@, "_npmUser"@]),
                |v: JsonView| author_of(v),
            );
            let maintainers = required(
                lookup(members, seq!["maintainers"@]),
                |v: JsonView| authors_of(v),
            );
            if name is Some && version is Some && homepage is Some && repository is Some
                && dependencies is Some && dev_dependencies is Some && scripts is Some
                && author is Some && license is Some && readme is Some && readme_filename is Some
                && id is Some && description is Some && dist is Some && npm_version is Some
                && npm_user is Some && maintainers is Some {
                Some(
                    NpmPackageVersionView {
                        name: name->0,
                        version: version->0,
                        homepage: homepage->0,
                        repository: repository->0,
                        dependencies: dependencies->0,
                        dev_dependencies: dev_dependencies->0,
                        scripts: scripts->0,
                        author: author->0,
                        license: license->0,
                        readme: readme->0,
                        readme_filename: readme_filename->0,
                        _id: id->0,
                        description: description->0,
                        dist: dist->0,
                        _npm_version: npm_version->0,
                        _npm_user: npm_user->0,
                        maintainers: maintainers->0,
                    },
                )
            } else {
                None
            }
        },
        _ => None,
    }
}

/// A map from version strings to version records.
pub open spec fn versions_of(doc: JsonView) -> Option<Map<Seq<char>, NpmPackageVersionView>> {
    table_of(doc, |value: JsonView| version_of(value))
}

/// A package document.
///
/// Required: `_id`, `_rev`, `name`, `description`, `dist-tags`, `versions`,
/// `time`, `author`. Optional: `repository`, `readme`.
pub open spec fn package_of(doc: JsonView) -> Option<NpmPackageView> {
    match doc {
        JsonView::Object(members) => {
            let id = required(lookup(members, seq!["_id"@]), |v: JsonView| text_of(v));
            let rev = required(lookup(members, seq!["_rev"@]), |v: JsonView| text_of(v));
            let name = required(lookup(members, seq!["name"@]), |v: JsonView| text_of(v));
            let description = required(
                lookup(members, seq!["description"@]),
                |v: JsonView| text_of(v),
            );
            let dist_tags = required(
                lookup(members, seq!["dist-tags"@]),
                |v: JsonView| texts_of(v),
            );
            let versions = required(
                lookup(members, seq!["versions"@]),
                |v: JsonView| versions_of(v),
            );
            let time = required(lookup(members, seq!["time"@]), |v: JsonView| texts_of(v));
            let author = required(lookup(members, seq!["author"@]), |v: JsonView| author_of(v));
            let repository = optional(
                lookup(members, seq!["repository"@]),
                |v: JsonView| repository_of(v),
            );
            let readme = optional(lookup(members, seq!["readme"@]), |v: JsonView| text_of(v));
            if id is Some && rev is Some && name is Some && description is Some && dist_tags is Some
                && versions is Some && time is Some && author is Some && repository is Some
                && readme is Some {
                Some(
                    NpmPackageView {
                        _id: id->0,
                        _rev: rev->0,
                        name: name->0,
                        description: description->0,
                        dist_tags: dist_tags->0,
                        versions: versions->0,
                        time: time->0,
                        author: author->0,
                        repository: repository->0,
                        readme: readme->0,
                    },
                )
            } else {
                None
            }
        },
        _ => None,
    }
}

} // verus!
