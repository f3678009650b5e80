use platformio2nix::lockfile::{install_key, Dependency, Src};
use platformio2nix::manifest::{PackageManifest, PackageSpec, PackageType, PlatformIOSpec};
use platformio2nix::platform::NixSystem;
use platformio2nix::registry::{fetch_plan, package_spec_url, parse_registry_response, FetchPlan};

fn toolchain_gcc_manifest() -> PackageManifest {
    PackageManifest {
        ty: PackageType::Tool,
        version: "12.2.0".to_string(),
        spec: PackageSpec::PlatformIO(PlatformIOSpec {
            owner: "platformio".to_string(),
            name: "toolchain-gcc".to_string(),
        }),
    }
}

fn answer_linux_and_darwin_arm() -> &'static str {
    r#"{
        "name": "toolchain-gcc",
        "version": {
            "name": "12.2.0",
            "files": [
                {
                    "system": ["linux_x86_64"],
                    "download_url": "https://example.com/gcc-linux.tar.gz",
                    "checksum": { "sha256": "00ff" }
                },
                {
                    "system": ["darwin_arm64"],
                    "download_url": "https://example.com/gcc-darwin.tar.gz",
                    "checksum": { "sha256": "11ee" }
                }
            ]
        }
    }"#
}

#[test]
fn resolve_per_platform_subset() {
    let spec = parse_registry_response(answer_linux_and_darwin_arm()).unwrap();
    let dep = Dependency::from_registry(&toolchain_gcc_manifest(), "{}".to_string(), &spec);
    let entries = match &dep.src {
        Src::Systems(entries) => entries,
        Src::Universal(_) => panic!("no wildcard file, so the source is per-platform"),
    };
    let platforms: Vec<NixSystem> = entries.iter().map(|e| e.0).collect();
    assert_eq!(platforms, vec![NixSystem::Aarch64Darwin, NixSystem::X86_64Linux]);
}

#[test]
fn resolve_wildcard_universal() {
    let json = r#"{
        "name": "framework-arduino",
        "version": {
            "name": "5.0.0",
            "files": [
                {
                    "system": ["linux_x86_64"],
                    "download_url": "https://example.com/specific.tar.gz",
                    "checksum": { "sha256": "0011" }
                },
                {
                    "system": "*",
                    "download_url": "https://example.com/any.tar.gz",
                    "checksum": { "sha256": "2233" }
                }
            ]
        }
    }"#;
    let spec = parse_registry_response(json).unwrap();
    let dep = Dependency::from_registry(&toolchain_gcc_manifest(), "{}".to_string(), &spec);
    match &dep.src {
        Src::Universal(u) => assert_eq!(u.url, "https://example.com/any.tar.gz"),
        Src::Systems(_) => panic!("a wildcard file wins over per-platform files"),
    }
}

#[test]
fn toolchain_gcc_scenario() {
    let manifest = toolchain_gcc_manifest();
    let spec = parse_registry_response(answer_linux_and_darwin_arm()).unwrap();
    let dep = Dependency::from_registry(&manifest, "{\"name\":\"toolchain-gcc\"}".to_string(), &spec);

    let key = install_key(dep.kind, &dep.name);
    assert_eq!(key, "packages/toolchain-gcc");
    assert_eq!(dep.version, "12.2.0");

    let entries = match &dep.src {
        Src::Systems(entries) => entries,
        Src::Universal(_) => panic!("only two explicit platforms are covered"),
    };
    let tags: Vec<&str> = entries.iter().map(|e| e.0.tag()).collect();
    assert_eq!(tags, vec!["aarch64-darwin", "x86_64-linux"]);
    for (_, artifact) in entries {
        assert!(artifact.hash.starts_with("sha256-"));
    }
}

#[test]
fn fetch_plan_registry_url() {
    let plan = fetch_plan(&toolchain_gcc_manifest(), "https://api.registry.platformio.org");
    assert_eq!(
        plan,
        FetchPlan::Registry {
            url: "https://api.registry.platformio.org/v3/packages/platformio/tool/toolchain-gcc?version=12.2.0"
                .to_string()
        }
    );
}

#[test]
fn fetch_plan_external() {
    let manifest = PackageManifest {
        ty: PackageType::Library,
        version: "0.1.0".to_string(),
        spec: PackageSpec::External(platformio2nix::manifest::ExternalSpec {
            name: "extlib".to_string(),
            uri: "https://example.com/extlib.tar.gz".to_string(),
        }),
    };
    let plan = fetch_plan(&manifest, "https://api.registry.platformio.org");
    assert_eq!(
        plan,
        FetchPlan::External { url: "https://example.com/extlib.tar.gz".to_string() }
    );
}

#[test]
fn package_url_escapes_segments() {
    let url = package_spec_url(
        "https://api.registry.platformio.org",
        "some owner",
        PackageType::Platform,
        "espressif/32",
        Some("1.0.0+rc1"),
    );
    assert_eq!(
        url,
        "https://api.registry.platformio.org/v3/packages/some%20owner/platform/espressif%2F32?version=1.0.0%2Brc1"
    );
}

#[test]
fn external_dependency_from_body() {
    let manifest = PackageManifest {
        ty: PackageType::Package,
        version: "0.1.0".to_string(),
        spec: PackageSpec::External(platformio2nix::manifest::ExternalSpec {
            name: "framework-custom".to_string(),
            uri: "https://example.com/framework-custom.tar.gz".to_string(),
        }),
    };
    let external_spec = platformio2nix::manifest::ExternalSpec {
        name: "framework-custom".to_string(),
        uri: "https://example.com/framework-custom.tar.gz".to_string(),
    };
    let dep = Dependency::from_external(&manifest, "{}".to_string(), &external_spec, b"abc");
    assert_eq!(dep.name, "framework-custom");
    assert_eq!(dep.version, "0.1.0");
    assert_eq!(install_key(dep.kind, &dep.name), "packages/framework-custom");
    match &dep.src {
        Src::Universal(u) => {
            assert_eq!(u.url, "https://example.com/framework-custom.tar.gz");
            // sha256("abc") in normalized form
            assert_eq!(u.hash, "sha256-ungWv48Bz+pBQUDeXa4iI7ADYaOWF3qctBD/YfIAFa0=");
        }
        Src::Systems(_) => panic!("an external package is universal"),
    }
}
