//! The router's configuration: read when the router is built, never changed
//! afterwards.

use vstd::prelude::*;
use vstd::string::StringExecFns;

verus! {

/// The header key under which a caller names its organization, unless the
/// deployment sets another.
pub open spec fn default_org_header_key() -> Seq<char> {
    "organization"@
}

/// Settings of the gRPC router.
#[derive(Clone, Debug)]
pub struct Config {
    org_header_key: String,
}

impl Config {
    /// The metadata key that must carry the caller's organization.
    pub closed spec fn spec_org_header_key(&self) -> Seq<char> {
        self.org_header_key@
    }

    /// A configuration that asks for the organization under `org_header_key`.
    pub fn new(org_header_key: String) -> (config: Config)
        ensures
            config.spec_org_header_key() == org_header_key@,
    {
        Config { org_header_key }
    }

    /// The metadata key that must carry the caller's organization.
    pub fn org_header_key(&self) -> (key: &str)
        ensures
            key@ == self.spec_org_header_key(),
    {
        self.org_header_key.as_str()
    }
}

impl Default for Config {
    fn default() -> (config: Config)
        ensures
            config.spec_org_header_key() == default_org_header_key(),
    {
        Config { org_header_key: String::from_str("organization") }
    }
}

} // verus!
