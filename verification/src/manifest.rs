//! Package descriptors: what a locally installed package says about
//! itself. Discovery and JSON decoding of the manifest files happen
//! outside this crate; the descriptor arrives here already validated.

use vstd::prelude::*;

verus! {

/// The kind of an installed package.
#[derive(Clone, Copy, Debug, PartialEq, Eq, PartialOrd, Ord, Hash, Structural)]
pub enum PackageType {
    Platform,
    Package,
    Tool,
    Library,
}

impl PackageType {
    /// The registry's path segment for this package kind.
    pub open spec fn spec_as_str(self) -> Seq<char> {
        match self {
            PackageType::Platform => "platform"@,
            PackageType::Package => "library"@,
            PackageType::Tool => "tool"@,
            PackageType::Library => "library"@,
        }
    }

    /// Names the package kind as the registry's package endpoint
    /// spells it.
    pub fn as_str(&self) -> (r: &str)
        ensures
            r@ == self.spec_as_str(),
    {
        match self {
            PackageType::Platform => "platform",
            PackageType::Package | PackageType::Library => "library",
            PackageType::Tool => "tool",
        }
    }
}

/// Where a package's artifact comes from: the package registry, or an
/// arbitrary URI outside it.
#[derive(Clone, Debug)]
pub enum PackageSpec {
    PlatformIO(PlatformIOSpec),
    External(ExternalSpec),
}

/// A reference to a registry-hosted package.
#[derive(Clone, Debug)]
pub struct PlatformIOSpec {
    pub owner: String,
    pub name: String,
}

/// A reference to an externally hosted artifact.
#[derive(Clone, Debug)]
pub struct ExternalSpec {
    pub name: String,
    pub uri: String,
}

/// One discovered package manifest: kind, exact version, and origin.
#[derive(Clone, Debug)]
pub struct PackageManifest {
    pub ty: PackageType,
    pub version: String,
    pub spec: PackageSpec,
}

/// A source repository a manifest may point at.
#[derive(Clone, Debug)]
pub enum Repository {
    Git { url: String },
}

} // verus!
