//! What holds of decoding, for every document.

use vstd::prelude::*;
use crate::decode::package_in;
use crate::error::DecodeError;
use crate::json::{JsonView, Members};
use crate::model::{NpmPackageVersionDistView, NpmPackageView};
use crate::parse::text_document;
use crate::shape::{dist_of, hits, lookup, package_of, version_of, Found};

verus! {

/// No member of the object carries one of the names.
pub open spec fn none_named(members: Members, accepted: Seq<Seq<char>>) -> bool {
    forall|i: int| 0 <= i < members.len() ==> !accepted.contains(#[trigger] members[i].0)
}

/// An object without a member under a field's names has nothing for that
/// field.
pub proof fn lemma_none_named_is_absent(members: Members, accepted: Seq<Seq<char>>)
    requires
        none_named(members, accepted),
    ensures
        lookup(members, accepted) is Absent,
    decreases members.len(),
{
    if members.len() > 0 {
        let front = members.drop_last();
        assert forall|i: int| 0 <= i < front.len() implies !accepted.contains(
            #[trigger] front[i].0,
        ) by {
            assert(front[i] == members[i]);
        }
        lemma_none_named_is_absent(front, accepted);
        assert(!accepted.contains(members[members.len() - 1].0));
    }
}

/// Giving a member another name changes nothing for a field that accepts
/// both names or neither.
pub proof fn lemma_rename_keeps_hits(
    members: Members,
    at: int,
    name: Seq<char>,
    accepted: Seq<Seq<char>>,
)
    requires
        0 <= at < members.len(),
        accepted.contains(members[at].0) == accepted.contains(name),
    ensures
        hits(members.update(at, (name, members[at].1)), accepted) == hits(members, accepted),
    decreases members.len(),
{
    let renamed = members.update(at, (name, members[at].1));
    if at == members.len() - 1 {
        assert(renamed.drop_last() =~= members.drop_last());
    } else {
        lemma_rename_keeps_hits(members.drop_last(), at, name, accepted);
        assert(renamed.drop_last() =~= members.drop_last().update(at, (name, members[at].1)));
        assert(renamed.last() == members.last());
    }
}

/// A decoded package carries the name that its document gives: where the
/// one member `name` of a package document is the text `requested`, the
/// record's `name` is `requested`.
pub proof fn lemma_package_keeps_name(members: Members, requested: Seq<char>)
    requires
        lookup(members, seq!["name"@]) == Found::Once(JsonView::Str(requested)),
    ensures
        package_of(JsonView::Object(members)) matches Some(package) ==> package.name == requested,
{
}

/// The names of the members that a package document must have.
pub open spec fn package_required() -> Seq<Seq<char>> {
    seq![
        "_id"@,
        "_rev"@,
        "name"@,
        "description"@,
        "dist-tags"@,
        "versions"@,
        "time"@,
        "author"@,
    ]
}

/// The names of the members that a version document must have.
pub open spec fn version_required() -> Seq<Seq<char>> {
    seq![
        "name"@,
        "version"@,
        "homepage"@,
        "scripts"@,
        "author"@,
        "_id"@,
        "description"@,
        "dist"@,
        "maintainers"@,
    ]
}

/// A document that lacks a required member is no package: decoding never
/// fills the gap with a blank.
pub proof fn lemma_package_needs_each_member(members: Members, field: Seq<char>)
    requires
        package_required().contains(field),
        !(lookup(members, seq![field]) is Once),
    ensures
        package_of(JsonView::Object(members)) is None,
{
}

/// A document that lacks a required member is no version record.
pub proof fn lemma_version_needs_each_member(members: Members, field: Seq<char>)
    requires
        version_required().contains(field),
        !(lookup(members, seq![field]) is Once),
    ensures
        version_of(JsonView::Object(members)) is None,
{
}

/// What the registry answers for a package that it does not have, an object
/// whose one member is `error`, is no package.
pub proof fn lemma_error_reply_is_no_package(message: JsonView)
    ensures
        package_of(JsonView::Object(seq![("error"@, message)])) is None,
{
    let members: Members = seq![("error"@, message)];
    reveal_strlit("error");
    reveal_strlit("name");
    assert(none_named(members, seq!["name"@])) by {
        assert forall|i: int| 0 <= i < members.len() implies !seq!["name"@].contains(
            #[trigger] members[i].0,
        ) by {
            assert("error"@.len() != "name"@.len());
        }
    }
    lemma_none_named_is_absent(members, seq!["name"@]);
}

/// A reply for the package that was asked for decodes to a record of that
/// name: where the body spells an object whose one member `name` is the
/// text `requested`, a successful decoding carries `requested` as its name.
pub proof fn lemma_reply_keeps_name(body: Seq<u8>, members: Members, requested: Seq<char>)
    ensures
        text_document(body) == Some(JsonView::Object(members)) && lookup(members, seq!["name"@])
            == Found::Once(JsonView::Str(requested)) ==> (package_in(body) matches Ok(package)
            ==> package.name == requested),
{
}

/// The registry's reply for a package that it does not have is an error, not
/// a record with blank fields: a body that spells an object whose one member
/// is `error` fails to decode.
pub proof fn lemma_error_reply_fails(body: Seq<u8>, message: JsonView)
    ensures
        text_document(body) == Some(JsonView::Object(seq![("error"@, message)])) ==> package_in(
            body,
        ) == Err::<NpmPackageView, DecodeError>(DecodeError::UnexpectedShape),
{
    lemma_error_reply_is_no_package(message);
}

/// Only an object is a package.
pub proof fn lemma_only_objects_are_packages(doc: JsonView)
    requires
        !(doc is Object),
    ensures
        package_of(doc) is None,
{
}

/// The two texts of distribution metadata come out as they went in: where
/// the object gives `shasum` and `tarball` once each, as texts, the record
/// holds exactly these two texts.
pub proof fn lemma_dist_keeps_its_texts(members: Members, shasum: Seq<char>, tarball: Seq<char>)
    requires
        lookup(members, seq!["shasum"@]) == Found::Once(JsonView::Str(shasum)),
        lookup(members, seq!["tarball"@]) == Found::Once(JsonView::Str(tarball)),
    ensures
        dist_of(JsonView::Object(members)) == Some(
            NpmPackageVersionDistView { shasum: shasum, tarball: tarball },
        ),
{
}

/// Decoded distribution metadata holds nothing but what the document gave:
/// its two texts are the values of the members `shasum` and `tarball`.
pub proof fn lemma_dist_comes_from_its_members(members: Members)
    requires
        dist_of(JsonView::Object(members)) is Some,
    ensures
        lookup(members, seq!["shasum"@]) == Found::Once(
            JsonView::Str(dist_of(JsonView::Object(members))->0.shasum),
        ),
        lookup(members, seq!["tarball"@]) == Found::Once(
            JsonView::Str(dist_of(JsonView::Object(members))->0.tarball),
        ),
{
}

/// An optional field of a version record that the document leaves out is
/// absent in the record; it is never an empty text or an empty map.
pub proof fn lemma_version_left_out_is_absent(members: Members)
    requires
        version_of(JsonView::Object(members)) is Some,
    ensures
        ({
            let version = version_of(JsonView::Object(members))->0;
            &&& none_named(members, seq!["repository"@]) ==> version.repository is None
            &&& none_named(members, seq!["dependencies"@]) ==> version.dependencies is None
            &&& none_named(members, seq!["dev_dependencies"@, "devDependencies"@])
                ==> version.dev_dependencies is None
            &&& none_named(members, seq!["license"@]) ==> version.license is None
            &&& none_named(members, seq!["readme"@]) ==> version.readme is None
            &&& none_named(members, seq!["readme_filename"@, "readmeFilename"@])
                ==> version.readme_filename is None
            &&& none_named(members, seq!["_npm_version"@, "_npmVersion"@])
                ==> version._npm_version is None
            &&& none_named(members, seq!["_npm_user"@, "_npmUser"@]) ==> version._npm_user is None
        }),
{
    if none_named(members, seq!["repository"@]) {
        lemma_none_named_is_absent(members, seq!["repository"@]);
    }
    if none_named(members, seq!["dependencies"@]) {
        lemma_none_named_is_absent(members, seq!["dependencies"@]);
    }
    if none_named(members, seq!["dev_dependencies"@, "devDependencies"@]) {
        lemma_none_named_is_absent(members, seq!["dev_dependencies"@, "devDependencies"@]);
    }
    if none_named(members, seq!["license"@]) {
        lemma_none_named_is_absent(members, seq!["license"@]);
    }
    if none_named(members, seq!["readme"@]) {
        lemma_none_named_is_absent(members, seq!["readme"@]);
    }
    if none_named(members, seq!["readme_filename"@, "readmeFilename"@]) {
        lemma_none_named_is_absent(members, seq!["readme_filename"@, "readmeFilename"@]);
    }
    if none_named(members, seq!["_npm_version"@, "_npmVersion"@]) {
        lemma_none_named_is_absent(members, seq!["_npm_version"@, "_npmVersion"@]);
    }
    if none_named(members, seq!["_npm_user"@, "_npmUser"@]) {
        lemma_none_named_is_absent(members, seq!["_npm_user"@, "_npmUser"@]);
    }
}

/// An optional field of a package that the document leaves out is absent in
/// the record.
pub proof fn lemma_package_left_out_is_absent(members: Members)
    requires
        package_of(JsonView::Object(members)) is Some,
    ensures
        ({
            let package = package_of(JsonView::Object(members))->0;
            &&& none_named(members, seq!["repository"@]) ==> package.repository is None
            &&& none_named(members, seq!["readme"@]) ==> package.readme is None
        }),
{
    if none_named(members, seq!["repository"@]) {
        lemma_none_named_is_absent(members, seq!["repository"@]);
    }
    if none_named(members, seq!["readme"@]) {
        lemma_none_named_is_absent(members, seq!["readme"@]);
    }
}

/// Two names under which a version document may give one and the same
/// field.
pub open spec fn spell_one_field(a: Seq<char>, b: Seq<char>) -> bool {
    ||| seq!["dev_dependencies"@, "devDependencies"@].contains(a) && seq![
        "dev_dependencies"@,
        "devDependencies"@,
    ].contains(b)
    ||| seq!["readme_filename"@, "readmeFilename"@].contains(a) && seq![
        "readme_filename"@,
        "readmeFilename"@,
    ].contains(b)
    ||| seq!["_npm_version"@, "_npmVersion"@].contains(a) && seq![
        "_npm_version"@,
        "_npmVersion"@,
    ].contains(b)
    ||| seq!["_npm_user"@, "_npmUser"@].contains(a) && seq!["_npm_user"@, "_npmUser"@].contains(b)
}

/// The name is one of the eight spellings of the four fields that have two.
spec fn has_second_spelling(name: Seq<char>) -> bool {
    ||| name == "dev_dependencies"@
    ||| name == "devDependencies"@
    ||| name == "readme_filename"@
    ||| name == "readmeFilename"@
    ||| name == "_npm_version"@
    ||| name == "_npmVersion"@
    ||| name == "_npm_user"@
    ||| name == "_npmUser"@
}

/// None of the eight spellings is the name of a field that has one name
/// only.
proof fn lemma_spellings_are_no_other_field(name: Seq<char>)
    requires
        has_second_spelling(name),
    ensures
        name != "name"@,
        name != "version"@,
        name != "homepage"@,
        name != "repository"@,
        name != "dependencies"@,
        name != "scripts"@,
        name != "author"@,
        name != "license"@,
        name != "readme"@,
        name != "_id"@,
        name != "description"@,
        name != "dist"@,
        name != "maintainers"@,
{
    reveal_strlit("dev_dependencies");
    reveal_strlit("devDependencies");
    reveal_strlit("readme_filename");
    reveal_strlit("readmeFilename");
    reveal_strlit("_npm_version");
    reveal_strlit("_npmVersion");
    reveal_strlit("_npm_user");
    reveal_strlit("_npmUser");
    reveal_strlit("name");
    reveal_strlit("version");
    reveal_strlit("homepage");
    reveal_strlit("repository");
    reveal_strlit("dependencies");
    reveal_strlit("scripts");
    reveal_strlit("author");
    reveal_strlit("license");
    reveal_strlit("readme");
    reveal_strlit("_id");
    reveal_strlit("description");
    reveal_strlit("dist");
    reveal_strlit("maintainers");
    assert("dev_dependencies"@.len() == 16);
    assert("devDependencies"@.len() == 15);
    assert("readme_filename"@.len() == 15);
    assert("readmeFilename"@.len() == 14);
    assert("_npm_version"@.len() == 12 && "_npm_version"@[0] == '_');
    assert("_npmVersion"@.len() == 11 && "_npmVersion"@[0] == '_');
    assert("_npm_user"@.len() == 9);
    assert("_npmUser"@.len() == 8 && "_npmUser"@[0] == '_');
    assert("name"@.len() == 4);
    assert("version"@.len() == 7);
    assert("homepage"@.len() == 8 && "homepage"@[0] == 'h');
    assert("repository"@.len() == 10);
    assert("dependencies"@.len() == 12 && "dependencies"@[0] == 'd');
    assert("scripts"@.len() == 7);
    assert("author"@.len() == 6);
    assert("license"@.len() == 7);
    assert("readme"@.len() == 6);
    assert("_id"@.len() == 3);
    assert("description"@.len() == 11 && "description"@[0] == 'd');
    assert("dist"@.len() == 4);
    assert("maintainers"@.len() == 11 && "maintainers"@[0] == 'm');
}

/// The spellings of different fields differ.
proof fn lemma_spellings_of_two_fields_differ()
    ensures
        "dev_dependencies"@ != "readme_filename"@,
        "dev_dependencies"@ != "readmeFilename"@,
        "dev_dependencies"@ != "_npm_version"@,
        "dev_dependencies"@ != "_npmVersion"@,
        "dev_dependencies"@ != "_npm_user"@,
        "dev_dependencies"@ != "_npmUser"@,
        "devDependencies"@ != "readme_filename"@,
        "devDependencies"@ != "readmeFilename"@,
        "devDependencies"@ != "_npm_version"@,
        "devDependencies"@ != "_npmVersion"@,
        "devDependencies"@ != "_npm_user"@,
        "devDependencies"@ != "_npmUser"@,
        "readme_filename"@ != "_npm_version"@,
        "readme_filename"@ != "_npmVersion"@,
        "readme_filename"@ != "_npm_user"@,
        "readme_filename"@ != "_npmUser"@,
        "readmeFilename"@ != "_npm_version"@,
        "readmeFilename"@ != "_npmVersion"@,
        "readmeFilename"@ != "_npm_user"@,
        "readmeFilename"@ != "_npmUser"@,
        "_npm_version"@ != "_npm_user"@,
        "_npm_version"@ != "_npmUser"@,
        "_npmVersion"@ != "_npm_user"@,
        "_npmVersion"@ != "_npmUser"@,
{
    reveal_strlit("dev_dependencies");
    reveal_strlit("devDependencies");
    reveal_strlit("readme_filename");
    reveal_strlit("readmeFilename");
    reveal_strlit("_npm_version");
    reveal_strlit("_npmVersion");
    reveal_strlit("_npm_user");
    reveal_strlit("_npmUser");
    assert("dev_dependencies"@.len() == 16);
    assert("devDependencies"@.len() == 15 && "devDependencies"@[0] == 'd');
    assert("readme_filename"@.len() == 15 && "readme_filename"@[0] == 'r');
    assert("readmeFilename"@.len() == 14);
    assert("_npm_version"@.len() == 12);
    assert("_npmVersion"@.len() == 11);
    assert("_npm_user"@.len() == 9);
    assert("_npmUser"@.len() == 8);
}

/// A field with one name accepts none of the eight spellings.
proof fn lemma_single_name_rejects(field: Seq<char>, name: Seq<char>)
    requires
        field != name,
    ensures
        !seq![field].contains(name),
{
}

/// A field with two names accepts exactly these two.
proof fn lemma_pair_accepts(first: Seq<char>, second: Seq<char>, name: Seq<char>)
    ensures
        seq![first, second].contains(name) <==> (name == first || name == second),
{
    let pair = seq![first, second];
    if name == first {
        assert(pair[0] == name);
    }
    if name == second {
        assert(pair[1] == name);
    }
}

/// Either spelling of a field decodes to the same field: writing a member
/// of a version document under the other name of its field changes nothing
/// in what the document decodes to.
pub proof fn lemma_either_spelling_decodes_alike(members: Members, at: int, other: Seq<char>)
    requires
        0 <= at < members.len(),
        spell_one_field(members[at].0, other),
    ensures
        version_of(JsonView::Object(members.update(at, (other, members[at].1)))) == version_of(
            JsonView::Object(members),
        ),
{
    let old = members[at].0;
    let renamed = members.update(at, (other, members[at].1));
    lemma_spellings_are_no_other_field(old);
    lemma_spellings_are_no_other_field(other);
    lemma_spellings_of_two_fields_differ();
    lemma_pair_accepts("dev_dependencies"@, "devDependencies"@, old);
    lemma_pair_accepts("dev_dependencies"@, "devDependencies"@, other);
    lemma_pair_accepts("readme_filename"@, "readmeFilename"@, old);
    lemma_pair_accepts("readme_filename"@, "readmeFilename"@, other);
    lemma_pair_accepts("_npm_version"@, "_npmVersion"@, old);
    lemma_pair_accepts("_npm_version"@, "_npmVersion"@, other);
    lemma_pair_accepts("_npm_user"@, "_npmUser"@, old);
    lemma_pair_accepts("_npm_user"@, "_npmUser"@, other);
    assert(has_second_spelling(old) && has_second_spelling(other));
    lemma_single_rename(members, at, other, "name"@);
    lemma_single_rename(members, at, other, "version"@);
    lemma_single_rename(members, at, other, "homepage"@);
    lemma_single_rename(members, at, other, "repository"@);
    lemma_single_rename(members, at, other, "dependencies"@);
    lemma_single_rename(members, at, other, "scripts"@);
    lemma_single_rename(members, at, other, "author"@);
    lemma_single_rename(members, at, other, "license"@);
    lemma_single_rename(members, at, other, "readme"@);
    lemma_single_rename(members, at, other, "_id"@);
    lemma_single_rename(members, at, other, "description"@);
    lemma_single_rename(members, at, other, "dist"@);
    lemma_single_rename(members, at, other, "maintainers"@);
    lemma_rename_keeps_hits(members, at, other, seq!["dev_dependencies"@, "devDependencies"@]);
    lemma_rename_keeps_hits(members, at, other, seq!["readme_filename"@, "readmeFilename"@]);
    lemma_rename_keeps_hits(members, at, other, seq!["_npm_version"@, "_npmVersion"@]);
    lemma_rename_keeps_hits(members, at, other, seq!["_npm_user"@, "_npmUser"@]);
}

/// Renaming a member from one name to another changes nothing for a field
/// whose one name is neither of the two.
proof fn lemma_single_rename(members: Members, at: int, other: Seq<char>, field: Seq<char>)
    requires
        0 <= at < members.len(),
        members[at].0 != field,
        other != field,
    ensures
        hits(members.update(at, (other, members[at].1)), seq![field]) == hits(
            members,
            seq![field],
        ),
{
    lemma_single_name_rejects(field, members[at].0);
    lemma_single_name_rejects(field, other);
    lemma_rename_keeps_hits(members, at, other, seq![field]);
}

} // verus!
