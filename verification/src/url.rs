//! Where a package's document lives in the registry.

use vstd::prelude::*;
use vstd::string::*;

verus! {

/// The registry that every request goes to.
pub const NPM_REGISTRY_URL: &'static str = "https://registry.npmjs.org";

/// The endpoint of `name`: the registry, one `/`, then the name as it stands.
/// Nothing in the name is escaped.
pub open spec fn package_url_of(name: Seq<char>) -> Seq<char> {
    NPM_REGISTRY_URL@ + seq!['/'] + name
}

/// Builds the address of the document that describes `package_name`.
pub fn package_url(package_name: &str) -> (url: String)
    ensures
        url@ == package_url_of(package_name@),
{
    let base = String::from_str(NPM_REGISTRY_URL);
    let with_slash = base.concat("/");
    proof {
        reveal_strlit("/");
        assert("/"@ =~= seq!['/']);
    }
    with_slash.concat(package_name)
}

} // verus!
