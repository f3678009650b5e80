use platformio2nix::hash::{hex_decode, sri_hash};
use platformio2nix::lockfile::{Dependency, Src};
use platformio2nix::manifest::{ExternalSpec, PackageManifest, PackageSpec, PackageType};
use platformio2nix::registry::parse_registry_response;

fn external_manifest() -> PackageManifest {
    PackageManifest {
        ty: PackageType::Library,
        version: "1.0.0".to_string(),
        spec: PackageSpec::External(ExternalSpec {
            name: "extlib".to_string(),
            uri: "https://example.com/extlib.tar.gz".to_string(),
        }),
    }
}

#[test]
fn hex_decode_basic() {
    assert_eq!(hex_decode("deadbeef"), Some(vec![0xde, 0xad, 0xbe, 0xef]));
    assert_eq!(hex_decode(""), Some(vec![]));
}

#[test]
fn hex_decode_upper() {
    assert_eq!(hex_decode("DeAdBeEf"), Some(vec![0xde, 0xad, 0xbe, 0xef]));
}

#[test]
fn hex_decode_odd_length() {
    assert_eq!(hex_decode("abc"), None);
}

#[test]
fn hex_decode_bad_digit() {
    assert_eq!(hex_decode("zz"), None);
    assert_eq!(hex_decode("0g"), None);
}

#[test]
fn hash_normalization_length() {
    let digest = [0x11u8; 32];
    let hash = sri_hash(&digest);
    assert_eq!(hash.len(), 51);
    assert_eq!(&hash[..7], "sha256-");
    assert_eq!(hash[7..].len(), 44);
    assert!(hash[7..].chars().all(|c| c.is_ascii_alphanumeric() || c == '+' || c == '/' || c == '='));
}

#[test]
fn hash_of_zero_digest() {
    let digest = [0u8; 32];
    assert_eq!(
        sri_hash(&digest),
        "sha256-AAAAAAAAAAAAAAAAAAAAAAAAAAAAAAAAAAAAAAAAAAA="
    );
}

#[test]
fn hash_padding_positions() {
    assert_eq!(sri_hash(&[0u8]), "sha256-AA==");
    assert_eq!(sri_hash(&[0u8, 0u8]), "sha256-AAA=");
    assert_eq!(sri_hash(&[0u8, 0u8, 0u8]), "sha256-AAAA");
}

#[test]
fn hex_digest_matches_raw_hash() {
    // The registry reports the digest of the empty artifact in hex; the
    // external path hashes the same (empty) bytes itself. Both must
    // normalize to the same hash string.
    let external = Dependency::from_external(
        &external_manifest(),
        "{}".to_string(),
        &ExternalSpec {
            name: "extlib".to_string(),
            uri: "https://example.com/extlib.tar.gz".to_string(),
        },
        b"",
    );
    let external_hash = match &external.src {
        Src::Universal(u) => u.hash.clone(),
        Src::Systems(_) => panic!("an external package is universal"),
    };

    let json = r#"{
        "name": "extlib",
        "version": {
            "name": "1.0.0",
            "files": [
                {
                    "system": "*",
                    "download_url": "https://example.com/extlib.tar.gz",
                    "checksum": {
                        "sha256": "e3b0c44298fc1c149afbf4c8996fb92427ae41e4649b934ca495991b7852b855"
                    }
                }
            ]
        }
    }"#;
    let spec = parse_registry_response(json).unwrap();
    let registry_dep = Dependency::from_registry(&external_manifest(), "{}".to_string(), &spec);
    let registry_hash = match &registry_dep.src {
        Src::Universal(u) => u.hash.clone(),
        Src::Systems(_) => panic!("a wildcard file gives a universal source"),
    };

    assert_eq!(external_hash, registry_hash);
    assert_eq!(
        external_hash,
        "sha256-47DEQpj8HBSa+/TImW+5JCeuQeRkm5NMpJWZG3hSuFU="
    );
}
