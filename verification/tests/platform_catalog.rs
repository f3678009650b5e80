use platformio2nix::platform::{NixSystem, System};
use platformio2nix::registry::parse_system;

#[test]
fn deserialize_system() {
    fn assert(input: &str, expected: System) {
        assert_eq!(parse_system(input), expected);
    }

    assert("darwin_x86_64", System::DarwinX86_64);
    assert("darwin_arm64", System::DarwinArm64);
    assert("linux_x86_64", System::LinuxX86_64);
    assert("linux_aarch64", System::LinuxAarch64);
}

#[test]
fn mod_deserialize_system() {
    fn assert(input: &str, expected: System) {
        assert_eq!(parse_system(input), expected);
    }

    assert("darwin_x86_64", System::DarwinX86_64);
    assert("darwin_arm64", System::DarwinArm64);
    assert("linux_x86_64", System::LinuxX86_64);
    assert("linux_aarch64", System::LinuxAarch64);
}

#[test]
fn registry_mapping_exhaustive() {
    assert_eq!(NixSystem::Aarch64Linux.to_registry(), System::LinuxAarch64);
    assert_eq!(NixSystem::Aarch64Darwin.to_registry(), System::DarwinArm64);
    assert_eq!(NixSystem::X86_64Linux.to_registry(), System::LinuxX86_64);
    assert_eq!(NixSystem::X86_64Darwin.to_registry(), System::DarwinX86_64);
}

#[test]
fn registry_mapping_injective() {
    let all = NixSystem::all();
    for a in &all {
        for b in &all {
            if a != b {
                assert_ne!(a.to_registry(), b.to_registry());
            }
        }
    }
}

#[test]
fn platform_catalog_order() {
    assert_eq!(
        NixSystem::all(),
        vec![
            NixSystem::Aarch64Linux,
            NixSystem::Aarch64Darwin,
            NixSystem::X86_64Linux,
            NixSystem::X86_64Darwin,
        ]
    );
}

#[test]
fn platform_tags() {
    assert_eq!(NixSystem::Aarch64Linux.tag(), "aarch64-linux");
    assert_eq!(NixSystem::Aarch64Darwin.tag(), "aarch64-darwin");
    assert_eq!(NixSystem::X86_64Linux.tag(), "x86_64-linux");
    assert_eq!(NixSystem::X86_64Darwin.tag(), "x86_64-darwin");
}
