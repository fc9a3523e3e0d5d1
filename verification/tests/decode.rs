use npm_package::{
    DecodeError, Dict, Json, NpmPackage, NpmPackageAuthor, NpmPackageRepository,
    NpmPackageVersion, NpmPackageVersionDist,
};

/// A cut-down copy of the registry's document for `webpack`, with two of its
/// versions and the members that no record reads left in.
const WEBPACK: &str = r#"{
  "_id": "webpack",
  "_rev": "2723-6a0ab7ad6a9dd9f3d5d3d8b0d8e0a5a1",
  "name": "webpack",
  "description": "Packs CommonJs/AMD modules for the browser.",
  "dist-tags": { "latest": "5.0.0", "legacy": "1.15.0", "webpack-4": "4.44.2" },
  "versions": {
    "4.44.2": {
      "name": "webpack",
      "version": "4.44.2",
      "license": "MIT",
      "author": { "name": "Tobias Koppers @sokra" },
      "description": "Packs CommonJs/AMD modules for the browser.",
      "dependencies": { "acorn": "^6.4.1", "ajv": "^6.10.2" },
      "devDependencies": { "jest": "^24.9.0" },
      "engines": { "node": ">=6.11.5" },
      "repository": { "type": "git", "url": "git+https://github.com/webpack/webpack.git" },
      "homepage": "https://github.com/webpack/webpack",
      "main": "lib/webpack.js",
      "bin": { "webpack": "bin/webpack.js" },
      "scripts": { "test": "jest", "lint": "yarn run-s lint:*" },
      "readme": "<h1>webpack</h1>",
      "readmeFilename": "README.md",
      "_id": "webpack@4.44.2",
      "_nodeVersion": "12.18.3",
      "_npmVersion": "6.14.6",
      "dist": {
        "integrity": "sha512-6KJVGlCxYdISyurpQ0IPTklv+DULv05rs2hseIXer6D7KrUicRDLFb4IUM1S6LUAKypPM/nSiVSuv8jHu1m3/Q==",
        "shasum": "6bfe2b0af055c8b2d1e90ed2cd9363f841266b72",
        "tarball": "https://registry.npmjs.org/webpack/-/webpack-4.44.2.tgz",
        "fileCount": 566,
        "unpackedSize": 3463049
      },
      "maintainers": [
        { "name": "sokra", "email": "tobias.koppers@googlemail.com" }
      ],
      "_npmUser": { "name": "sokra", "email": "tobias.koppers@googlemail.com" },
      "directories": {},
      "_hasShrinkwrap": false
    },
    "5.0.0": {
      "name": "webpack",
      "version": "5.0.0",
      "author": { "name": "Tobias Koppers @sokra" },
      "description": "Packs CommonJs/AMD modules for the browser.",
      "license": "MIT",
      "dependencies": { "@types/eslint-scope": "^3.7.0", "acorn": "^8.0.3" },
      "peerDependenciesMeta": { "webpack-cli": { "optional": true } },
      "devDependencies": { "@babel/core": "^7.11.1", "jest": "^26.5.2" },
      "engines": { "node": ">=10.13.0" },
      "repository": { "type": "git", "url": "git+https://github.com/webpack/webpack.git" },
      "funding": { "type": "opencollective", "url": "https://opencollective.com/webpack" },
      "homepage": "https://github.com/webpack/webpack",
      "main": "lib/index.js",
      "bin": { "webpack": "bin/webpack.js" },
      "types": "types.d.ts",
      "scripts": { "setup": "node ./setup/setup.js", "test": "node --max-old-space-size=4096 --trace-deprecation node_modules/jest-cli/bin/jest" },
      "gitHead": "8ba6e8d1e2a1f1e1b9b0c1c0a1d6f1c0b3b4e5f6",
      "bugs": { "url": "https://github.com/webpack/webpack/issues" },
      "_id": "webpack@5.0.0",
      "_nodeVersion": "12.19.0",
      "_npmVersion": "6.14.8",
      "dist": {
        "integrity": "sha512-OK+Q9xGgda3idw/DgCf75XsVFxRLPu48qPwygqI3W9ls5sDdKif5Ay4SM/1UVob0w4juJy14Zi60A5g1DujYJA==",
        "shasum": "c028b2f0c1db2322de1f4a30cc36f6e373d5a26a",
        "tarball": "https://registry.npmjs.org/webpack/-/webpack-5.0.0.tgz",
        "fileCount": 634,
        "unpackedSize": 4822746,
        "npm-signature": "-----BEGIN PGP SIGNATURE-----\r\n-----END PGP SIGNATURE-----\r\n"
      },
      "maintainers": [
        { "name": "jhnns", "email": "mail@johannesewald.de" },
        { "name": "sokra", "email": "tobias.koppers@googlemail.com" },
        { "name": "thelarkinn", "email": "sean.larkin@cuw.edu" }
      ],
      "_npmUser": { "name": "sokra", "email": "tobias.koppers@googlemail.com" },
      "directories": {},
      "_npmOperationalInternal": { "host": "s3://npm-registry-packages", "tmp": "tmp/webpack_5.0.0_1602331600909_0.7439890847555883" },
      "_hasShrinkwrap": false
    }
  },
  "readme": "<div align=\"center\">\n  <h1>webpack</h1>\n</div>\n",
  "maintainers": [
    { "name": "sokra", "email": "tobias.koppers@googlemail.com" }
  ],
  "time": {
    "modified": "2020-10-10T12:06:43.333Z",
    "created": "2012-03-11T14:59:33.989Z",
    "4.44.2": "2020-09-17T12:01:16.775Z",
    "5.0.0": "2020-10-10T12:06:41.054Z"
  },
  "author": { "name": "Tobias Koppers @sokra" },
  "repository": { "type": "git", "url": "git+https://github.com/webpack/webpack.git" },
  "users": { "pid": true, "vbv": true },
  "homepage": "https://github.com/webpack/webpack",
  "bugs": { "url": "https://github.com/webpack/webpack/issues" },
  "license": "MIT",
  "readmeFilename": "README.md"
}"#;

/// What the registry answers for a package that it does not have.
const NOT_FOUND: &str = r#"{"error":"Not found"}"#;

fn text(s: &str) -> Json {
    Json::Str(s.to_string())
}

fn object(members: Vec<(&str, Json)>) -> Json {
    Json::Object(
        members
            .into_iter()
            .map(|(name, value)| (name.to_string(), value))
            .collect(),
    )
}

fn some(s: &str) -> Option<String> {
    Some(s.to_string())
}

fn get<'a>(dict: &'a Dict<String>, name: &str) -> Option<&'a str> {
    dict.get(name).map(|s| s.as_str())
}

/// The members of a version document that has every required member and no
/// optional one.
fn bare_version() -> Vec<(&'static str, Json)> {
    vec![
        ("name", text("is-wsl")),
        ("version", text("2.2.0")),
        ("homepage", text("https://github.com/sindresorhus/is-wsl#readme")),
        ("scripts", object(vec![("test", text("xo && ava"))])),
        ("author", object(vec![("name", text("Sindre Sorhus"))])),
        ("_id", text("is-wsl@2.2.0")),
        ("description", text("Check if the process is running inside WSL")),
        (
            "dist",
            object(vec![
                ("shasum", text("74a4c76e77ca9fd3f932f290c17ea326cd157271")),
                ("tarball", text("https://registry.npmjs.org/is-wsl/-/is-wsl-2.2.0.tgz")),
            ]),
        ),
        ("maintainers", Json::Array(vec![])),
    ]
}

fn without(members: Vec<(&'static str, Json)>, name: &str) -> Vec<(&'static str, Json)> {
    members.into_iter().filter(|m| m.0 != name).collect()
}

fn with(
    mut members: Vec<(&'static str, Json)>,
    name: &'static str,
    value: Json,
) -> Vec<(&'static str, Json)> {
    members.push((name, value));
    members
}

#[test]
fn test_sync_get_name() {
    let package = NpmPackage::from_slice(WEBPACK.as_bytes()).unwrap();

    assert_eq!(package.name, "webpack");
}

#[test]
fn test_sync_getting_a_bad_package_name() {
    let package = NpmPackage::from_slice(NOT_FOUND.as_bytes());

    assert!(package.is_err());
}

#[test]
fn test_npm_version_field_serde() {
    let package = NpmPackage::from_slice(WEBPACK.as_bytes()).unwrap();

    assert_eq!(
        package.versions.get("5.0.0").unwrap()._npm_version,
        Some("6.14.8".to_string())
    );
}

#[test]
fn test_readme_version_filename_return_none_serde() {
    let package = NpmPackage::from_slice(WEBPACK.as_bytes()).unwrap();

    assert_eq!(package.versions.get("5.0.0").unwrap().readme_filename, None);
}

#[test]
fn a_missing_package_is_a_shape_error() {
    assert_eq!(
        NpmPackage::from_slice(NOT_FOUND.as_bytes()).err(),
        Some(DecodeError::UnexpectedShape)
    );
}

#[test]
fn a_body_that_is_not_json_is_a_json_error() {
    assert_eq!(
        NpmPackage::from_slice(b"<html>502 Bad Gateway</html>").err(),
        Some(DecodeError::InvalidJson)
    );
    assert_eq!(NpmPackage::from_slice(b"").err(), Some(DecodeError::InvalidJson));
    let cut = &WEBPACK.as_bytes()[..WEBPACK.len() - 1];
    assert_eq!(NpmPackage::from_slice(cut).err(), Some(DecodeError::InvalidJson));
}

#[test]
fn json_of_another_kind_is_a_shape_error() {
    for body in ["null", "true", "17", "\"webpack\"", "[]", "{}"] {
        assert_eq!(
            NpmPackage::from_slice(body.as_bytes()).err(),
            Some(DecodeError::UnexpectedShape),
            "{}",
            body
        );
    }
}

#[test]
fn package_fields_are_read_as_written() {
    let package = NpmPackage::from_slice(WEBPACK.as_bytes()).unwrap();

    assert_eq!(package._id, "webpack");
    assert_eq!(package._rev, "2723-6a0ab7ad6a9dd9f3d5d3d8b0d8e0a5a1");
    assert_eq!(package.description, "Packs CommonJs/AMD modules for the browser.");
    assert_eq!(package.dist_tags.len(), 3);
    assert_eq!(get(&package.dist_tags, "latest"), Some("5.0.0"));
    assert_eq!(get(&package.dist_tags, "legacy"), Some("1.15.0"));
    assert_eq!(get(&package.dist_tags, "webpack-4"), Some("4.44.2"));
    assert_eq!(package.time.len(), 4);
    assert_eq!(get(&package.time, "created"), Some("2012-03-11T14:59:33.989Z"));
    assert_eq!(get(&package.time, "5.0.0"), Some("2020-10-10T12:06:41.054Z"));
    assert_eq!(package.author.name, some("Tobias Koppers @sokra"));
    assert_eq!(package.author.email, None);
    assert_eq!(package.author.url, None);
    let repository = package.repository.unwrap();
    assert_eq!(repository.kind, "git");
    assert_eq!(repository.url, "git+https://github.com/webpack/webpack.git");
    assert_eq!(
        package.readme,
        some("<div align=\"center\">\n  <h1>webpack</h1>\n</div>\n")
    );
    let mut versions = package.versions.keys();
    versions.sort();
    assert_eq!(versions, vec!["4.44.2", "5.0.0"]);
}

#[test]
fn version_fields_are_read_as_written() {
    let package = NpmPackage::from_slice(WEBPACK.as_bytes()).unwrap();
    let version = package.versions.get("5.0.0").unwrap();

    assert_eq!(version.name, "webpack");
    assert_eq!(version.version, "5.0.0");
    assert_eq!(version.homepage, "https://github.com/webpack/webpack");
    assert_eq!(version.repository.as_ref().unwrap().kind, "git");
    let dependencies = version.dependencies.as_ref().unwrap();
    assert_eq!(dependencies.len(), 2);
    assert_eq!(get(dependencies, "acorn"), Some("^8.0.3"));
    assert_eq!(get(dependencies, "@types/eslint-scope"), Some("^3.7.0"));
    let dev_dependencies = version.dev_dependencies.as_ref().unwrap();
    assert_eq!(dev_dependencies.len(), 2);
    assert_eq!(get(dev_dependencies, "jest"), Some("^26.5.2"));
    assert_eq!(version.scripts.len(), 2);
    assert_eq!(get(&version.scripts, "setup"), Some("node ./setup/setup.js"));
    assert_eq!(version.author.name, some("Tobias Koppers @sokra"));
    assert_eq!(version.license, some("MIT"));
    assert_eq!(version.readme, None);
    assert_eq!(version._id, "webpack@5.0.0");
    assert_eq!(version.description, "Packs CommonJs/AMD modules for the browser.");
    let user = version._npm_user.as_ref().unwrap();
    assert_eq!(user.name, some("sokra"));
    assert_eq!(user.email, some("tobias.koppers@googlemail.com"));
    assert_eq!(user.url, None);
    assert_eq!(version.maintainers.len(), 3);
    assert_eq!(version.maintainers[0].name, some("jhnns"));
    assert_eq!(version.maintainers[1].name, some("sokra"));
    assert_eq!(version.maintainers[2].email, some("sean.larkin@cuw.edu"));

    let older = package.versions.get("4.44.2").unwrap();
    assert_eq!(older.readme_filename, some("README.md"));
    assert_eq!(older.readme, some("<h1>webpack</h1>"));
    assert_eq!(older._npm_version, some("6.14.6"));
}

#[test]
fn dist_texts_survive_a_round_trip() {
    let package = NpmPackage::from_slice(WEBPACK.as_bytes()).unwrap();
    let dist = &package.versions.get("5.0.0").unwrap().dist;

    assert_eq!(dist.shasum, "c028b2f0c1db2322de1f4a30cc36f6e373d5a26a");
    assert_eq!(
        dist.tarball,
        "https://registry.npmjs.org/webpack/-/webpack-5.0.0.tgz"
    );

    let mut written = serde_json::Map::new();
    written.insert(
        "shasum".to_string(),
        serde_json::Value::String(dist.shasum.clone()),
    );
    written.insert(
        "tarball".to_string(),
        serde_json::Value::String(dist.tarball.clone()),
    );
    let written = serde_json::to_string(&serde_json::Value::Object(written)).unwrap();
    assert_eq!(
        written,
        "{\"shasum\":\"c028b2f0c1db2322de1f4a30cc36f6e373d5a26a\",\"tarball\":\"https://registry.npmjs.org/webpack/-/webpack-5.0.0.tgz\"}"
    );
    let again = NpmPackageVersionDist::from_json(&Json::parse(written.as_bytes()).unwrap()).unwrap();
    assert_eq!(again.shasum, dist.shasum);
    assert_eq!(again.tarball, dist.tarball);
}

#[test]
fn dist_needs_both_of_its_texts() {
    let dist = NpmPackageVersionDist::from_json(&object(vec![
        ("tarball", text("t")),
        ("fileCount", Json::Number("3".to_string())),
        ("shasum", text("s")),
    ]))
    .unwrap();
    assert_eq!(dist.shasum, "s");
    assert_eq!(dist.tarball, "t");

    let no_tarball = object(vec![("shasum", text("s"))]);
    assert_eq!(
        NpmPackageVersionDist::from_json(&no_tarball).err(),
        Some(DecodeError::UnexpectedShape)
    );
    let numeric = object(vec![
        ("shasum", Json::Number("5".to_string())),
        ("tarball", text("t")),
    ]);
    assert!(NpmPackageVersionDist::from_json(&numeric).is_err());
    let null = object(vec![("shasum", Json::Null), ("tarball", text("t"))]);
    assert!(NpmPackageVersionDist::from_json(&null).is_err());
    let twice = object(vec![
        ("shasum", text("s")),
        ("tarball", text("t")),
        ("shasum", text("s")),
    ]);
    assert!(NpmPackageVersionDist::from_json(&twice).is_err());
    assert!(NpmPackageVersionDist::from_json(&Json::Array(vec![text("s"), text("t")])).is_err());
}

#[test]
fn repository_reads_type_and_url() {
    let repository = NpmPackageRepository::from_json(&object(vec![
        ("type", text("git")),
        ("url", text("https://example.org/r.git")),
        ("directory", text("packages/r")),
    ]))
    .unwrap();
    assert_eq!(repository.kind, "git");
    assert_eq!(repository.url, "https://example.org/r.git");

    let only_kind = object(vec![("kind", text("git")), ("url", text("u"))]);
    assert!(NpmPackageRepository::from_json(&only_kind).is_err());
    assert!(NpmPackageRepository::from_json(&text("github:webpack/webpack")).is_err());
}

#[test]
fn author_parts_are_each_optional() {
    let nobody = NpmPackageAuthor::from_json(&object(vec![])).unwrap();
    assert_eq!(nobody.name, None);
    assert_eq!(nobody.email, None);
    assert_eq!(nobody.url, None);

    let full = NpmPackageAuthor::from_json(&object(vec![
        ("url", text("https://sindresorhus.com")),
        ("name", text("Sindre Sorhus")),
        ("email", text("sindresorhus@gmail.com")),
    ]))
    .unwrap();
    assert_eq!(full.name, some("Sindre Sorhus"));
    assert_eq!(full.email, some("sindresorhus@gmail.com"));
    assert_eq!(full.url, some("https://sindresorhus.com"));

    let with_null = NpmPackageAuthor::from_json(&object(vec![
        ("name", text("")),
        ("email", Json::Null),
    ]))
    .unwrap();
    assert_eq!(with_null.name, some(""));
    assert_eq!(with_null.email, None);

    assert!(NpmPackageAuthor::from_json(&object(vec![("name", Json::Bool(true))])).is_err());
    assert!(NpmPackageAuthor::from_json(&text("Sindre Sorhus")).is_err());
    assert!(NpmPackageAuthor::from_json(&Json::Null).is_err());
}

#[test]
fn version_without_optional_members_has_them_absent() {
    let version = NpmPackageVersion::from_json(&object(bare_version())).unwrap();

    assert!(version.repository.is_none());
    assert!(version.dependencies.is_none());
    assert!(version.dev_dependencies.is_none());
    assert_eq!(version.license, None);
    assert_eq!(version.readme, None);
    assert_eq!(version.readme_filename, None);
    assert_eq!(version._npm_version, None);
    assert!(version._npm_user.is_none());
    assert!(version.maintainers.is_empty());
    assert_eq!(version.name, "is-wsl");
    assert_eq!(version.dist.shasum, "74a4c76e77ca9fd3f932f290c17ea326cd157271");
}

#[test]
fn version_needs_each_required_member() {
    for name in [
        "name",
        "version",
        "homepage",
        "scripts",
        "author",
        "_id",
        "description",
        "dist",
        "maintainers",
    ] {
        let doc = object(without(bare_version(), name));
        assert_eq!(
            NpmPackageVersion::from_json(&doc).err(),
            Some(DecodeError::UnexpectedShape),
            "{}",
            name
        );
        let doc = object(with(without(bare_version(), name), name, Json::Null));
        assert!(NpmPackageVersion::from_json(&doc).is_err(), "{}", name);
    }
}

#[test]
fn null_stands_for_an_absent_optional_member() {
    let mut members = bare_version();
    for name in [
        "repository",
        "dependencies",
        "devDependencies",
        "license",
        "readme",
        "readmeFilename",
        "_npmVersion",
        "_npmUser",
    ] {
        members.push((name, Json::Null));
    }
    let version = NpmPackageVersion::from_json(&object(members)).unwrap();

    assert!(version.repository.is_none());
    assert!(version.dependencies.is_none());
    assert!(version.dev_dependencies.is_none());
    assert_eq!(version.license, None);
    assert_eq!(version.readme, None);
    assert_eq!(version.readme_filename, None);
    assert_eq!(version._npm_version, None);
    assert!(version._npm_user.is_none());
}

#[test]
fn both_spellings_fill_the_same_field() {
    let camel = with(
        with(
            with(
                with(bare_version(), "readmeFilename", text("README.md")),
                "_npmVersion",
                text("6.14.8"),
            ),
            "_npmUser",
            object(vec![("name", text("sokra"))]),
        ),
        "devDependencies",
        object(vec![("ava", text("^1.4.1"))]),
    );
    let snake = with(
        with(
            with(
                with(bare_version(), "readme_filename", text("README.md")),
                "_npm_version",
                text("6.14.8"),
            ),
            "_npm_user",
            object(vec![("name", text("sokra"))]),
        ),
        "dev_dependencies",
        object(vec![("ava", text("^1.4.1"))]),
    );
    let camel = NpmPackageVersion::from_json(&object(camel)).unwrap();
    let snake = NpmPackageVersion::from_json(&object(snake)).unwrap();

    for version in [&camel, &snake] {
        assert_eq!(version.readme_filename, some("README.md"));
        assert_eq!(version._npm_version, some("6.14.8"));
        assert_eq!(version._npm_user.as_ref().unwrap().name, some("sokra"));
        let dev = version.dev_dependencies.as_ref().unwrap();
        assert_eq!(dev.len(), 1);
        assert_eq!(get(dev, "ava"), Some("^1.4.1"));
    }
}

#[test]
fn both_spellings_at_once_are_rejected() {
    let doc = object(with(
        with(bare_version(), "readmeFilename", text("README.md")),
        "readme_filename",
        text("README.md"),
    ));
    assert_eq!(
        NpmPackageVersion::from_json(&doc).err(),
        Some(DecodeError::UnexpectedShape)
    );

    let body = WEBPACK.replace(
        "\"_npmVersion\": \"6.14.8\",",
        "\"_npmVersion\": \"6.14.8\", \"_npm_version\": \"6.14.8\",",
    );
    assert_ne!(body, WEBPACK);
    assert_eq!(
        NpmPackage::from_slice(body.as_bytes()).err(),
        Some(DecodeError::UnexpectedShape)
    );
}

#[test]
fn other_spellings_are_not_accepted() {
    let doc = object(with(bare_version(), "ReadmeFilename", text("README.md")));
    let version = NpmPackageVersion::from_json(&doc).unwrap();
    assert_eq!(version.readme_filename, None);

    let body = WEBPACK.replace("\"dist-tags\"", "\"dist_tags\"");
    assert_ne!(body, WEBPACK);
    assert_eq!(
        NpmPackage::from_slice(body.as_bytes()).err(),
        Some(DecodeError::UnexpectedShape)
    );
}

#[test]
fn a_repeated_member_is_rejected() {
    let doc = object(with(bare_version(), "name", text("is-wsl")));
    assert_eq!(
        NpmPackageVersion::from_json(&doc).err(),
        Some(DecodeError::UnexpectedShape)
    );
    let doc = object(with(
        with(bare_version(), "license", text("MIT")),
        "license",
        text("MIT"),
    ));
    assert!(NpmPackageVersion::from_json(&doc).is_err());
    let doc = object(with(
        with(bare_version(), "unknown", text("a")),
        "unknown",
        text("b"),
    ));
    assert!(NpmPackageVersion::from_json(&doc).is_ok());
}

#[test]
fn a_map_keeps_the_last_value_of_a_repeated_name() {
    let scripts = object(vec![
        ("test", text("ava")),
        ("lint", text("xo")),
        ("test", text("xo && ava")),
    ]);
    let doc = object(with(without(bare_version(), "scripts"), "scripts", scripts));
    let version = NpmPackageVersion::from_json(&doc).unwrap();

    assert_eq!(version.scripts.len(), 2);
    assert_eq!(get(&version.scripts, "test"), Some("xo && ava"));
    assert_eq!(get(&version.scripts, "lint"), Some("xo"));
}

#[test]
fn a_map_takes_texts_only() {
    let scripts = object(vec![("test", text("ava")), ("retries", Json::Number("3".to_string()))]);
    let doc = object(with(without(bare_version(), "scripts"), "scripts", scripts));
    assert!(NpmPackageVersion::from_json(&doc).is_err());

    let doc = object(with(
        without(bare_version(), "scripts"),
        "scripts",
        Json::Array(vec![]),
    ));
    assert!(NpmPackageVersion::from_json(&doc).is_err());

    let doc = object(with(
        bare_version(),
        "dependencies",
        object(vec![("left-pad", Json::Null)]),
    ));
    assert!(NpmPackageVersion::from_json(&doc).is_err());
}

#[test]
fn one_bad_maintainer_spoils_the_version() {
    let maintainers = Json::Array(vec![
        object(vec![("name", text("a"))]),
        text("b <b@example.org>"),
    ]);
    let doc = object(with(
        without(bare_version(), "maintainers"),
        "maintainers",
        maintainers,
    ));
    assert!(NpmPackageVersion::from_json(&doc).is_err());
}

#[test]
fn one_bad_version_spoils_the_package() {
    let body = WEBPACK.replace(
        "\"_id\": \"webpack@4.44.2\",",
        "\"_id\": 4442,",
    );
    assert_ne!(body, WEBPACK);
    assert_eq!(
        NpmPackage::from_slice(body.as_bytes()).err(),
        Some(DecodeError::UnexpectedShape)
    );
}

#[test]
fn a_repository_given_as_text_is_rejected() {
    let body = WEBPACK.replace(
        "\"author\": { \"name\": \"Tobias Koppers @sokra\" },\n  \"repository\": { \"type\": \"git\", \"url\": \"git+https://github.com/webpack/webpack.git\" },",
        "\"author\": { \"name\": \"Tobias Koppers @sokra\" },\n  \"repository\": \"github:webpack/webpack\",",
    );
    assert_ne!(body, WEBPACK);
    assert!(NpmPackage::from_slice(body.as_bytes()).is_err());
}

#[test]
fn from_json_agrees_with_from_slice() {
    let doc = Json::parse(WEBPACK.as_bytes()).unwrap();
    let package = NpmPackage::from_json(&doc).unwrap();
    assert_eq!(package.name, "webpack");
    assert_eq!(package.versions.len(), 2);
    assert_eq!(
        NpmPackage::from_json(&Json::parse(NOT_FOUND.as_bytes()).unwrap()).err(),
        Some(DecodeError::UnexpectedShape)
    );
}
