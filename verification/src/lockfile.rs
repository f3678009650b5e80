//! Resolved dependencies and the lockfile that accumulates them:
//! artifact records with normalized hashes, the per-platform
//! resolution of a registry answer, install-key derivation, and the
//! conflict-aware store.

use vstd::prelude::*;

use crate::hash::sha256;
use crate::hash::sha256_of;
use crate::hash::spec_base64_alphabet;
use crate::hash::spec_sri_hash;
use crate::hash::sri_hash;
use crate::manifest::ExternalSpec;
use crate::manifest::PackageManifest;
use crate::manifest::PackageType;
use crate::platform::NixSystem;
use crate::registry;
use crate::registry::spec_find_wildcard;
use crate::registry::spec_first_support;
use crate::registry::File;
use crate::text::str_equal;

verus! {

/// A downloadable artifact: its URL and its normalized integrity hash.
#[derive(Clone, Debug, PartialEq, Eq)]
pub struct FetchUrl {
    pub url: String,
    pub hash: String,
}

impl FetchUrl {
    /// Pairs a URL with the normalized `sha256-<base64>` form of a raw
    /// digest: the prefix, then the padded standard base64 of the
    /// digest's bytes (44 characters for a 32-byte digest).
    pub fn new(url: String, sha256: &[u8]) -> (r: FetchUrl)
        requires
            4 * ((sha256@.len() + 2) / 3) <= usize::MAX as int,
        ensures
            r.url == url,
            r.hash@ == spec_sri_hash(sha256@),
            r.hash@.len() == 7 + 4 * ((sha256@.len() + 2) / 3),
            forall|i: int|
                7 <= i < r.hash@.len() ==> (spec_base64_alphabet(#[trigger] r.hash@[i])
                    || r.hash@[i] == '='),
    {
        FetchUrl { url, hash: sri_hash(sha256) }
    }

    /// The artifact record of a registry file entry: URL kept
    /// verbatim, hex digest re-encoded to the normalized hash form.
    pub fn from_file(file: &File) -> (r: FetchUrl)
        requires
            4 * ((file.checksum.sha256@.len() + 2) / 3) <= usize::MAX as int,
        ensures
            r.url@ == file.download_url@,
            r.hash@ == spec_sri_hash(file.checksum.sha256@),
    {
        FetchUrl::new(file.download_url.clone(), file.checksum.sha256.as_slice())
    }
}

/// Where a dependency's artifacts come from: one artifact valid
/// everywhere, or one artifact per supported platform. A platform
/// absent from the per-platform list is unsupported, never an error.
#[derive(Clone, Debug, PartialEq, Eq)]
pub enum Src {
    Universal(FetchUrl),
    Systems(Vec<(NixSystem, FetchUrl)>),
}

/// One fully resolved dependency, as the lockfile records it. The
/// `manifest` field retains the descriptor exactly as it was
/// serialized, so conflict detection can compare byte for byte.
#[derive(Clone, Debug, PartialEq, Eq)]
pub struct Dependency {
    pub name: String,
    pub version: String,
    pub kind: PackageType,
    pub manifest: String,
    pub src: Src,
}

/// The per-platform entries a version resolves to: the catalog's
/// platforms in order, each paired with its first admitting file;
/// platforms no file admits are absent.
pub open spec fn spec_platform_entries(platforms: Seq<NixSystem>, files: Seq<File>) -> Seq<
    (NixSystem, File),
>
    decreases platforms.len(),
{
    if platforms.len() == 0 {
        Seq::empty()
    } else {
        spec_platform_entries(platforms.drop_last(), files) + (match spec_first_support(
            files,
            platforms.last().spec_to_registry(),
        ) {
            Some(f) => seq![(platforms.last(), f)],
            None => Seq::empty(),
        })
    }
}

/// Whether the built artifact entries match the resolved per-platform
/// entries: same platforms in the same order, each artifact carrying
/// its file's URL and normalized hash.
pub open spec fn spec_src_entries_ok(
    m: Seq<(NixSystem, FetchUrl)>,
    resolved: Seq<(NixSystem, File)>,
) -> bool {
    &&& m.len() == resolved.len()
    &&& forall|j: int|
        0 <= j < m.len() ==> (#[trigger] m[j]).0 == resolved[j].0 && m[j].1.url@
            == resolved[j].1.download_url@ && m[j].1.hash@ == spec_sri_hash(
            resolved[j].1.checksum.sha256@,
        )
}

/// Every checksum in the file list is small enough to re-encode.
pub open spec fn spec_checksums_fit(files: Seq<File>) -> bool {
    forall|i: int|
        0 <= i < files.len() ==> 4 * (((#[trigger] files[i]).checksum.sha256@.len() + 2) / 3)
            <= usize::MAX as int
}

impl Dependency {
    /// Resolves a registry answer into a dependency: a file marked
    /// platform-independent gives a universal artifact, even when
    /// other files are present; otherwise each catalog platform takes
    /// the first file admitting it. The name and version are taken
    /// from the registry's answer, which is authoritative for a
    /// registry-hosted package; the descriptor contributes the kind
    /// and the snapshot.
    pub fn from_registry(
        manifest: &PackageManifest,
        snapshot: String,
        spec: &registry::PackageSpec,
    ) -> (r: Dependency)
        requires
            spec_checksums_fit(spec.version.files@),
        ensures
            r.name@ == spec.name@,
            r.version@ == spec.version.name@,
            r.kind == manifest.ty,
            r.manifest == snapshot,
            match spec_find_wildcard(spec.version.files@) {
                Some(w) => r.src matches Src::Universal(u) && u.url@ == w.download_url@
                    && u.hash@ == spec_sri_hash(w.checksum.sha256@),
                None => r.src matches Src::Systems(m) && spec_src_entries_ok(
                    m@,
                    spec_platform_entries(NixSystem::spec_all(), spec.version.files@),
                ),
            },
    {
        let src = match spec.version.wildcard_file() {
            Some(w) => {
                proof {
                    lemma_find_wildcard_in_files(spec.version.files@);
                }
                Src::Universal(FetchUrl::from_file(w))
            },
            None => {
                let platforms = NixSystem::all();
                let n = platforms.len();
                let mut entries: Vec<(NixSystem, FetchUrl)> = Vec::new();
                assert(platforms@.take(0) =~= Seq::<NixSystem>::empty());
                for i in 0..n
                    invariant
                        n == platforms@.len(),
                        platforms@ == NixSystem::spec_all(),
                        spec_checksums_fit(spec.version.files@),
                        spec_src_entries_ok(
                            entries@,
                            spec_platform_entries(platforms@.take(i as int), spec.version.files@),
                        ),
                {
                    proof {
                        assert(platforms@.take(i as int + 1).drop_last() =~= platforms@.take(
                            i as int,
                        ));
                        assert(platforms@.take(i as int + 1).last() == platforms@[i as int]);
                    }
                    let target = platforms[i].to_registry();
                    match spec.version.supports(&target) {
                        Some(file) => {
                            proof {
                                lemma_first_support_in_files(spec.version.files@, target);
                            }
                            entries.push((platforms[i], FetchUrl::from_file(file)));
                        },
                        None => {},
                    }
                }
                proof {
                    assert(platforms@.take(n as int) =~= platforms@);
                }
                Src::Systems(entries)
            },
        };
        Dependency {
            name: spec.name.clone(),
            version: spec.version.name.clone(),
            kind: manifest.ty,
            manifest: snapshot,
            src,
        }
    }

    /// Resolves an externally hosted package from its already computed
    /// digest: always a universal artifact, URL taken verbatim from
    /// the descriptor.
    pub fn from_url(
        manifest: &PackageManifest,
        snapshot: String,
        package_spec: &ExternalSpec,
        sha256: &[u8],
    ) -> (r: Dependency)
        requires
            4 * ((sha256@.len() + 2) / 3) <= usize::MAX as int,
        ensures
            r.name@ == package_spec.name@,
            r.version@ == manifest.version@,
            r.kind == manifest.ty,
            r.manifest == snapshot,
            r.src matches Src::Universal(u) && u.url@ == package_spec.uri@ && u.hash@
                == spec_sri_hash(sha256@),
    {
        let src = Src::Universal(FetchUrl::new(package_spec.uri.clone(), sha256));
        Dependency {
            name: package_spec.name.clone(),
            version: manifest.version.clone(),
            kind: manifest.ty,
            manifest: snapshot,
            src,
        }
    }

    /// Resolves an externally hosted package from the fetched artifact
    /// bytes, hashing them here.
    pub fn from_external(
        manifest: &PackageManifest,
        snapshot: String,
        package_spec: &ExternalSpec,
        body: &[u8],
    ) -> (r: Dependency)
        ensures
            r.name@ == package_spec.name@,
            r.version@ == manifest.version@,
            r.kind == manifest.ty,
            r.manifest == snapshot,
            r.src matches Src::Universal(u) && u.url@ == package_spec.uri@ && u.hash@
                == spec_sri_hash(sha256_of(body@)),
    {
        let digest = sha256(body);
        Dependency::from_url(manifest, snapshot, package_spec, digest.as_slice())
    }

    /// The dependency as warnings print it: `name@version`.
    pub fn describe(&self) -> (r: String)
        ensures
            r@ == self.name@ + "@"@ + self.version@,
    {
        let mut out = self.name.clone();
        out.append("@");
        out.append(self.version.as_str());
        out
    }
}

/// A wildcard find yields a file from the list.
proof fn lemma_find_wildcard_in_files(files: Seq<File>)
    ensures
        spec_find_wildcard(files) matches Some(f) ==> exists|i: int|
            0 <= i < files.len() && #[trigger] files[i] == f,
    decreases files.len(),
{
    if files.len() > 0 && !(files[0].system is Wildcard) {
        lemma_find_wildcard_in_files(files.drop_first());
        if spec_find_wildcard(files) is Some {
            let f = spec_find_wildcard(files).unwrap();
            let i = choose|i: int| 0 <= i < files.drop_first().len() && files.drop_first()[i] == f;
            assert(files[i + 1] == f);
        }
    }
}

/// A first-support find yields a file from the list.
proof fn lemma_first_support_in_files(files: Seq<File>, system: crate::platform::System)
    ensures
        spec_first_support(files, system) matches Some(f) ==> exists|i: int|
            0 <= i < files.len() && #[trigger] files[i] == f,
    decreases files.len(),
{
    if files.len() > 0 && !files[0].system.spec_supports(system) {
        lemma_first_support_in_files(files.drop_first(), system);
        if spec_first_support(files, system) is Some {
            let f = spec_first_support(files, system).unwrap();
            let i = choose|i: int| 0 <= i < files.drop_first().len() && files.drop_first()[i] == f;
            assert(files[i + 1] == f);
        }
    }
}

/// A platform stands in the per-platform entries exactly when it is
/// one of the listed platforms and some file admits its registry
/// identifier: supported platforms appear, unsupported ones are
/// absent.
pub proof fn lemma_platform_entries_keys(
    platforms: Seq<NixSystem>,
    files: Seq<File>,
    ns: NixSystem,
)
    ensures
        (exists|j: int|
            0 <= j < spec_platform_entries(platforms, files).len()
                && (#[trigger] spec_platform_entries(platforms, files)[j]).0 == ns) <==> (
        platforms.contains(ns) && spec_first_support(files, ns.spec_to_registry()) is Some),
    decreases platforms.len(),
{
    let e = spec_platform_entries(platforms, files);
    if platforms.len() == 0 {
        assert(!platforms.contains(ns));
    } else {
        let shorter = platforms.drop_last();
        let last = platforms.last();
        let e0 = spec_platform_entries(shorter, files);
        lemma_platform_entries_keys(shorter, files, ns);
        if exists|j: int| 0 <= j < e.len() && (#[trigger] e[j]).0 == ns {
            let j = choose|j: int| 0 <= j < e.len() && (#[trigger] e[j]).0 == ns;
            if j < e0.len() {
                assert(e0[j] == e[j]);
                assert(shorter.contains(ns));
                let k = choose|k: int| 0 <= k < shorter.len() && shorter[k] == ns;
                assert(platforms[k] == ns);
                assert(platforms.contains(ns));
            } else {
                assert(e[j].0 == last && last == ns);
                assert(platforms[platforms.len() - 1] == ns);
                assert(platforms.contains(ns));
            }
        }
        if platforms.contains(ns) && spec_first_support(files, ns.spec_to_registry()) is Some {
            let k = choose|k: int| 0 <= k < platforms.len() && platforms[k] == ns;
            if k < platforms.len() - 1 {
                assert(shorter[k] == ns);
                assert(shorter.contains(ns));
                let j = choose|j: int| 0 <= j < e0.len() && (#[trigger] e0[j]).0 == ns;
                assert(e[j] == e0[j]);
                assert(e[j].0 == ns);
            } else {
                assert(last == ns);
                let j = e0.len() as int;
                assert(e[j].0 == ns);
            }
        }
    }
}

/// The install key under which a dependency of the given kind and
/// name is recorded. This layout is a compatibility surface of the
/// lockfile format: platforms under `platforms/`, packages and tools
/// under `packages/`, libraries under `libdeps/`.
pub open spec fn spec_install_key(kind: PackageType, name: Seq<char>) -> Seq<char> {
    match kind {
        PackageType::Platform => "platforms/"@ + name,
        PackageType::Package => "packages/"@ + name,
        PackageType::Tool => "packages/"@ + name,
        PackageType::Library => "libdeps/"@ + name,
    }
}

/// Derives the install key for a package kind and name.
pub fn install_key(kind: PackageType, name: &str) -> (r: String)
    ensures
        r@ == spec_install_key(kind, name@),
{
    let mut out = match kind {
        PackageType::Platform => String::from_str("platforms/"),
        PackageType::Package | PackageType::Tool => String::from_str("packages/"),
        PackageType::Library => String::from_str("libdeps/"),
    };
    out.append(name);
    out
}

/// A non-fatal notice that two manifests collided on one install key
/// with differing content: the entry that was replaced, and the name
/// and version of the entry that replaced it.
#[derive(Clone, Debug)]
pub struct ConflictWarning {
    pub previous: Dependency,
    pub name: String,
    pub version: String,
}

/// The warning line for a conflict, naming both dependencies.
pub open spec fn spec_warning_message(w: ConflictWarning) -> Seq<char> {
    "Found duplicate dependency \""@ + w.previous.name@ + "@"@ + w.previous.version@
        + "\", using \""@ + w.name@ + "@"@ + w.version@ + "\""@
}

impl ConflictWarning {
    /// Renders the warning as the log line reports it.
    pub fn message(&self) -> (r: String)
        ensures
            r@ == spec_warning_message(*self),
    {
        let mut out = String::from_str("Found duplicate dependency \"");
        out.append(self.previous.name.as_str());
        out.append("@");
        out.append(self.previous.version.as_str());
        out.append("\", using \"");
        out.append(self.name.as_str());
        out.append("@");
        out.append(self.version.as_str());
        out.append("\"");
        out
    }
}

/// The index of the first entry under the key, if any.
fn find_key(entries: &Vec<(String, Dependency)>, key: &str) -> (r: Option<usize>)
    ensures
        match r {
            Some(i) => i < entries@.len() && entries@[i as int].0@ == key@,
            None => forall|j: int| 0 <= j < entries@.len() ==> (#[trigger] entries@[j]).0@ != key@,
        },
{
    let n = entries.len();
    for i in 0..n
        invariant
            n == entries@.len(),
            forall|j: int| 0 <= j < i ==> (#[trigger] entries@[j]).0@ != key@,
    {
        if str_equal(entries[i].0.as_str(), key) {
            return Some(i);
        }
    }
    None
}

/// Whether an entry list holds the key.
pub open spec fn spec_has_key(entries: Seq<(String, Dependency)>, key: Seq<char>) -> bool {
    exists|i: int| 0 <= i < entries.len() && (#[trigger] entries[i]).0@ == key
}

/// The index of the key's entry (meaningful under unique keys).
pub open spec fn spec_index_of(entries: Seq<(String, Dependency)>, key: Seq<char>) -> int {
    choose|i: int| 0 <= i < entries.len() && (#[trigger] entries[i]).0@ == key
}

/// Unique keys: the entry list is a map.
pub open spec fn spec_keys_unique(entries: Seq<(String, Dependency)>) -> bool {
    forall|i: int, j: int|
        0 <= i < j < entries.len() ==> (#[trigger] entries[i]).0@ != (#[trigger] entries[j]).0@
}

/// The entry list after one insert: a fresh key is appended, an
/// existing key keeps its place and takes the new dependency.
pub open spec fn spec_insert_entries(
    entries: Seq<(String, Dependency)>,
    key: String,
    dep: Dependency,
) -> Seq<(String, Dependency)> {
    if spec_has_key(entries, key@) {
        let i = spec_index_of(entries, key@);
        entries.update(i, (entries[i].0, dep))
    } else {
        entries.push((key, dep))
    }
}

/// Whether one insert warns: only a replacement whose manifest
/// snapshot differs from the replaced entry's does.
pub open spec fn spec_insert_warns(
    entries: Seq<(String, Dependency)>,
    key: String,
    dep: Dependency,
) -> bool {
    spec_has_key(entries, key@) && entries[spec_index_of(entries, key@)].1.manifest@
        != dep.manifest@
}

/// Accumulates resolved dependencies keyed by install key. The store
/// accepts inserts until `finalize` turns it, one way, into the
/// read-only [`Lockfile`].
pub struct LockfileStore {
    entries: Vec<(String, Dependency)>,
}

/// The versioned, read-only lockfile: the current format tag over the
/// accumulated dependency map.
#[derive(Clone, Debug)]
pub enum Lockfile {
    V2 { dependencies: Vec<(String, Dependency)> },
}

impl LockfileStore {
    /// The accumulated entries, in insertion order.
    pub closed spec fn spec_entries(self) -> Seq<(String, Dependency)> {
        self.entries@
    }

    /// The store's invariant: keys are unique.
    pub open spec fn wf(self) -> bool {
        spec_keys_unique(self.spec_entries())
    }

    /// An empty store, accepting inserts.
    pub fn new() -> (r: LockfileStore)
        ensures
            r.wf(),
            r.spec_entries() == Seq::<(String, Dependency)>::empty(),
    {
        LockfileStore { entries: Vec::new() }
    }

    /// Records a dependency under its install key. A fresh key is
    /// inserted unconditionally; an existing key is replaced,
    /// last write wins. Replacing an entry whose manifest snapshot
    /// differs returns a conflict warning naming both; an identical
    /// snapshot replaces silently.
    pub fn insert(&mut self, install_key: String, dependency: Dependency) -> (w: Option<
        ConflictWarning,
    >)
        requires
            old(self).wf(),
        ensures
            final(self).wf(),
            final(self).spec_entries() == spec_insert_entries(
                old(self).spec_entries(),
                install_key,
                dependency,
            ),
            (w is Some) == spec_insert_warns(old(self).spec_entries(), install_key, dependency),
            w matches Some(cw) ==> cw.previous == old(self).spec_entries()[spec_index_of(
                old(self).spec_entries(),
                install_key@,
            )].1 && cw.name == dependency.name && cw.version == dependency.version,
    {
        let found = find_key(&self.entries, install_key.as_str());
        match found {
            Some(i) => {
                proof {
                    assert(spec_has_key(self.entries@, install_key@));
                    let c = spec_index_of(self.entries@, install_key@);
                    assert(0 <= c < self.entries@.len() && self.entries@[c].0@ == install_key@);
                    if c != i as int {
                        assert(false);
                    }
                }
                let differs = !str_equal(
                    self.entries[i].1.manifest.as_str(),
                    dependency.manifest.as_str(),
                );
                let new_name = dependency.name.clone();
                let new_version = dependency.version.clone();
                let mut slot = dependency;
                core::mem::swap(&mut self.entries[i].1, &mut slot);
                if differs {
                    Some(ConflictWarning { previous: slot, name: new_name, version: new_version })
                } else {
                    None
                }
            },
            None => {
                self.entries.push((install_key, dependency));
                None
            },
        }
    }

    /// The one-way transition out of accumulation: wraps the entries
    /// with the current lockfile format's version tag. The result has
    /// no mutating operation.
    pub fn finalize(self) -> (r: Lockfile)
        ensures
            (r matches Lockfile::V2 { dependencies } && dependencies@ == self.spec_entries()),
    {
        Lockfile::V2 { dependencies: self.entries }
    }
}

impl Default for LockfileStore {
    /// The empty store.
    fn default() -> (r: LockfileStore)
        ensures
            r.wf(),
            r.spec_entries() == Seq::<(String, Dependency)>::empty(),
    {
        LockfileStore::new()
    }
}

impl Lockfile {
    /// The recorded dependency map, in insertion order.
    pub fn dependencies(&self) -> (r: &Vec<(String, Dependency)>)
        ensures
            (*self matches Lockfile::V2 { dependencies } && r@ == dependencies@),
    {
        match self {
            Lockfile::V2 { dependencies } => dependencies,
        }
    }
}

/// Store idempotence: after a pair is inserted, inserting the same
/// pair again warns nothing and leaves the entries unchanged.
pub proof fn lemma_insert_idempotent(
    entries: Seq<(String, Dependency)>,
    key: String,
    dep: Dependency,
)
    requires
        spec_keys_unique(entries),
    ensures
        !spec_insert_warns(spec_insert_entries(entries, key, dep), key, dep),
        spec_insert_entries(spec_insert_entries(entries, key, dep), key, dep)
            == spec_insert_entries(entries, key, dep),
{
    let once = spec_insert_entries(entries, key, dep);
    if spec_has_key(entries, key@) {
        let i = spec_index_of(entries, key@);
        assert(0 <= i < entries.len() && entries[i].0@ == key@);
        assert(once[i].0@ == key@ && once[i].1 == dep);
        assert(spec_has_key(once, key@));
        let c = spec_index_of(once, key@);
        assert(0 <= c < once.len() && once[c].0@ == key@);
        if c != i {
            assert(entries[c].0@ == key@);
            assert(false);
        }
        assert(once.update(i, (once[i].0, dep)) =~= once);
    } else {
        let i = entries.len() as int;
        assert(once[i].0@ == key@ && once[i].1 == dep);
        assert(spec_has_key(once, key@));
        let c = spec_index_of(once, key@);
        assert(0 <= c < once.len() && once[c].0@ == key@);
        if c != i {
            assert(entries[c].0@ == key@);
            assert(spec_has_key(entries, key@));
            assert(false);
        }
        assert(once.update(i, (once[i].0, dep)) =~= once);
    }
}

/// Store conflict: under one fresh key, inserting two dependencies
/// whose manifest snapshots differ warns exactly once, on the second
/// insert, and ends in the same entries as inserting only the second.
pub proof fn lemma_insert_conflict(
    entries: Seq<(String, Dependency)>,
    key: String,
    first: Dependency,
    second: Dependency,
)
    requires
        spec_keys_unique(entries),
        !spec_has_key(entries, key@),
        first.manifest@ != second.manifest@,
    ensures
        !spec_insert_warns(entries, key, first),
        spec_insert_warns(spec_insert_entries(entries, key, first), key, second),
        spec_insert_entries(spec_insert_entries(entries, key, first), key, second)
            =~= spec_insert_entries(entries, key, second),
{
    let once = spec_insert_entries(entries, key, first);
    let i = entries.len() as int;
    assert(once[i].0@ == key@ && once[i].1 == first);
    assert(spec_has_key(once, key@));
    let c = spec_index_of(once, key@);
    assert(0 <= c < once.len() && once[c].0@ == key@);
    if c != i {
        assert(entries[c].0@ == key@);
        assert(spec_has_key(entries, key@));
        assert(false);
    }
    assert(once.update(i, (once[i].0, second)) =~= entries.push((key, second)));
}

} // verus!
