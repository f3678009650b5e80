use platformio2nix::lockfile::{install_key, Dependency, FetchUrl, Lockfile, LockfileStore, Src};
use platformio2nix::manifest::PackageType;

fn dependency(name: &str, version: &str, manifest: &str) -> Dependency {
    Dependency {
        name: name.to_string(),
        version: version.to_string(),
        kind: PackageType::Tool,
        manifest: manifest.to_string(),
        src: Src::Universal(FetchUrl {
            url: "https://example.com/a.tar.gz".to_string(),
            hash: "sha256-AAAAAAAAAAAAAAAAAAAAAAAAAAAAAAAAAAAAAAAAAAA=".to_string(),
        }),
    }
}

fn entries(lockfile: Lockfile) -> Vec<(String, Dependency)> {
    lockfile.dependencies().clone()
}

#[test]
fn store_idempotent_insert() {
    let mut store = LockfileStore::new();
    let dep = dependency("gcc", "1.0.0", r#"{"type":"tool"}"#);
    assert!(store.insert("packages/gcc".to_string(), dep.clone()).is_none());
    assert!(store.insert("packages/gcc".to_string(), dep.clone()).is_none());
    let deps = entries(store.finalize());
    assert_eq!(deps.len(), 1);
    assert_eq!(deps[0].0, "packages/gcc");
    assert_eq!(deps[0].1, dep);
}

#[test]
fn store_conflict_last_write_wins() {
    let first = dependency("gcc", "1.0.0", r#"{"v":"1.0.0"}"#);
    let second = dependency("gcc", "2.0.0", r#"{"v":"2.0.0"}"#);

    let mut store = LockfileStore::new();
    assert!(store.insert("packages/gcc".to_string(), first).is_none());
    let warning = store
        .insert("packages/gcc".to_string(), second.clone())
        .expect("differing manifests under one key warn");
    assert_eq!(warning.previous.version, "1.0.0");
    assert_eq!(warning.name, "gcc");
    assert_eq!(warning.version, "2.0.0");

    let mut only_second = LockfileStore::new();
    assert!(only_second.insert("packages/gcc".to_string(), second).is_none());
    assert_eq!(entries(store.finalize()), entries(only_second.finalize()));
}

#[test]
fn store_conflict_message() {
    let mut store = LockfileStore::new();
    store.insert("packages/gcc".to_string(), dependency("gcc", "1.0.0", "a"));
    let warning = store
        .insert("packages/gcc".to_string(), dependency("gcc", "2.0.0", "b"))
        .unwrap();
    assert_eq!(
        warning.message(),
        r#"Found duplicate dependency "gcc@1.0.0", using "gcc@2.0.0""#
    );
}

#[test]
fn store_fresh_keys_keep_order() {
    let mut store = LockfileStore::new();
    store.insert("packages/b".to_string(), dependency("b", "1.0.0", "b"));
    store.insert("packages/a".to_string(), dependency("a", "1.0.0", "a"));
    let deps = entries(store.finalize());
    assert_eq!(deps.len(), 2);
    assert_eq!(deps[0].0, "packages/b");
    assert_eq!(deps[1].0, "packages/a");
}

#[test]
fn install_key_by_kind() {
    assert_eq!(install_key(PackageType::Platform, "atmelavr"), "platforms/atmelavr");
    assert_eq!(install_key(PackageType::Package, "framework"), "packages/framework");
    assert_eq!(install_key(PackageType::Tool, "toolchain-gcc"), "packages/toolchain-gcc");
    assert_eq!(install_key(PackageType::Library, "SimpleFOC"), "libdeps/SimpleFOC");
}

#[test]
fn dependency_describe() {
    assert_eq!(dependency("gcc", "1.2.3", "m").describe(), "gcc@1.2.3");
}

#[test]
fn finalize_wraps_entries() {
    let mut store = LockfileStore::new();
    let dep = dependency("gcc", "1.0.0", "m");
    store.insert("packages/gcc".to_string(), dep.clone());
    let lockfile = store.finalize();
    let Lockfile::V2 { dependencies } = lockfile;
    assert_eq!(dependencies, vec![("packages/gcc".to_string(), dep)]);
}
