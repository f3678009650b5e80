//! Platform catalog: the closed set of supported target platforms and
//! their mapping to registry-side platform identifiers.

use vstd::prelude::*;

verus! {

/// A supported target platform (architecture and operating system).
#[derive(Clone, Copy, Debug, PartialEq, Eq, Structural)]
pub enum NixSystem {
    Aarch64Linux,
    Aarch64Darwin,
    X86_64Linux,
    X86_64Darwin,
}

/// A platform identifier as the package registry spells it.
///
/// The registry is free to introduce identifiers this crate does not
/// know; those are carried verbatim in `Other` rather than rejected.
#[derive(Clone, Debug, PartialEq, Eq, Hash)]
pub enum System {
    DarwinX86_64,
    DarwinArm64,
    LinuxX86_64,
    LinuxAarch64,
    LinuxI686,
    Other(String),
}

/// Spec-level equality on registry platform identifiers: known
/// identifiers compare by variant, unknown ones by their tag text.
pub open spec fn system_eq(a: System, b: System) -> bool {
    match (a, b) {
        (System::DarwinX86_64, System::DarwinX86_64) => true,
        (System::DarwinArm64, System::DarwinArm64) => true,
        (System::LinuxX86_64, System::LinuxX86_64) => true,
        (System::LinuxAarch64, System::LinuxAarch64) => true,
        (System::LinuxI686, System::LinuxI686) => true,
        (System::Other(s), System::Other(t)) => s@ == t@,
        _ => false,
    }
}

impl System {
    /// Decides `system_eq` executably.
    pub fn same_as(&self, other: &System) -> (r: bool)
        ensures
            r == system_eq(*self, *other),
    {
        match (self, other) {
            (System::DarwinX86_64, System::DarwinX86_64) => true,
            (System::DarwinArm64, System::DarwinArm64) => true,
            (System::LinuxX86_64, System::LinuxX86_64) => true,
            (System::LinuxAarch64, System::LinuxAarch64) => true,
            (System::LinuxI686, System::LinuxI686) => true,
            (System::Other(s), System::Other(t)) => *s == *t,
            _ => false,
        }
    }
}

impl NixSystem {
    /// The registry-side identifier of this platform.
    pub open spec fn spec_to_registry(self) -> System {
        match self {
            NixSystem::Aarch64Linux => System::LinuxAarch64,
            NixSystem::Aarch64Darwin => System::DarwinArm64,
            NixSystem::X86_64Linux => System::LinuxX86_64,
            NixSystem::X86_64Darwin => System::DarwinX86_64,
        }
    }

    /// Maps this platform to the identifier the registry uses for it.
    /// Total: every platform has a registry identifier.
    pub fn to_registry(self) -> (r: System)
        ensures
            r == self.spec_to_registry(),
    {
        match self {
            NixSystem::Aarch64Linux => System::LinuxAarch64,
            NixSystem::Aarch64Darwin => System::DarwinArm64,
            NixSystem::X86_64Linux => System::LinuxX86_64,
            NixSystem::X86_64Darwin => System::DarwinX86_64,
        }
    }

    /// All supported platforms, in the catalog's fixed order.
    pub open spec fn spec_all() -> Seq<NixSystem> {
        seq![
            NixSystem::Aarch64Linux,
            NixSystem::Aarch64Darwin,
            NixSystem::X86_64Linux,
            NixSystem::X86_64Darwin,
        ]
    }

    /// The kebab-case tag under which the lockfile records this
    /// platform.
    pub open spec fn spec_tag(self) -> Seq<char> {
        match self {
            NixSystem::Aarch64Linux => "aarch64-linux"@,
            NixSystem::Aarch64Darwin => "aarch64-darwin"@,
            NixSystem::X86_64Linux => "x86_64-linux"@,
            NixSystem::X86_64Darwin => "x86_64-darwin"@,
        }
    }

    /// Names this platform as the lockfile spells it.
    pub fn tag(self) -> (r: &'static str)
        ensures
            r@ == self.spec_tag(),
    {
        match self {
            NixSystem::Aarch64Linux => "aarch64-linux",
            NixSystem::Aarch64Darwin => "aarch64-darwin",
            NixSystem::X86_64Linux => "x86_64-linux",
            NixSystem::X86_64Darwin => "x86_64-darwin",
        }
    }

    /// The fixed, ordered list of the supported platforms.
    pub fn all() -> (r: Vec<NixSystem>)
        ensures
            r@ == NixSystem::spec_all(),
    {
        let r = vec![
            NixSystem::Aarch64Linux,
            NixSystem::Aarch64Darwin,
            NixSystem::X86_64Linux,
            NixSystem::X86_64Darwin,
        ];
        assert(r@ =~= NixSystem::spec_all());
        r
    }
}

/// The platform-to-registry mapping is injective: no two platforms
/// share a registry identifier.
pub proof fn lemma_to_registry_injective(a: NixSystem, b: NixSystem)
    requires
        system_eq(a.spec_to_registry(), b.spec_to_registry()),
    ensures
        a == b,
{
}

} // verus!
