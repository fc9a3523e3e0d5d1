//! Typed records for the npm registry's package documents, the rule that
//! names a package's endpoint, and the decoding of a registry reply.

pub mod decode;
pub mod dict;
pub mod error;
pub mod json;
pub mod laws;
pub mod model;
pub mod parse;
pub mod shape;
pub mod url;

pub use dict::Dict;
pub use error::DecodeError;
pub use json::Json;
pub use model::{
    NpmPackage, NpmPackageAuthor, NpmPackageRepository, NpmPackageVersion, NpmPackageVersionDist,
};
pub use url::{package_url, NPM_REGISTRY_URL};
