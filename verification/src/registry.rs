//! Typed model of the package registry's answer: platform filters,
//! file entries, the schema checks that produce them from parsed JSON,
//! and the request URL the gateway fetches.

use vstd::prelude::*;
use vstd::string::StringSliceAdditionalSpecFns;

use crate::hash::hex_decode;
use crate::hash::spec_hex_decode;
use crate::json::json_doc_of;
use crate::json::parse_json;
use crate::json::spec_obj_get;
use crate::json::JsonValue;
use crate::manifest::PackageManifest;
use crate::manifest::PackageType;
use crate::platform::system_eq;
use crate::platform::NixSystem;
use crate::platform::System;
use crate::text::append_decimal;
use crate::text::append_hex_byte;
use crate::text::push_char;
use crate::text::spec_decimal;
use crate::text::spec_hex_char;
use crate::text::str_equal;

verus! {

/// The registry tag denoting a platform identifier.
pub open spec fn spec_system_tag(s: System) -> Seq<char> {
    match s {
        System::DarwinX86_64 => "darwin_x86_64"@,
        System::DarwinArm64 => "darwin_arm64"@,
        System::LinuxX86_64 => "linux_x86_64"@,
        System::LinuxAarch64 => "linux_aarch64"@,
        System::LinuxI686 => "linux_i686"@,
        System::Other(t) => t@,
    }
}

/// Whether a tag names one of the platform identifiers this crate
/// knows.
pub open spec fn spec_known_tag(tag: Seq<char>) -> bool {
    ||| tag == "darwin_x86_64"@
    ||| tag == "darwin_arm64"@
    ||| tag == "linux_x86_64"@
    ||| tag == "linux_aarch64"@
    ||| tag == "linux_i686"@
}

/// What it means for `r` to be the parse of a platform tag: the tag is
/// kept exactly, and `Other` is used precisely for unknown tags.
pub open spec fn spec_parse_system_ok(r: System, tag: Seq<char>) -> bool {
    &&& spec_system_tag(r) == tag
    &&& ((r is Other) <==> !spec_known_tag(tag))
}

/// Reads a registry platform tag. Total: an unknown tag becomes
/// `Other` with the tag kept verbatim, never an error.
pub fn parse_system(tag: &str) -> (r: System)
    ensures
        spec_parse_system_ok(r, tag@),
{
    if str_equal(tag, "darwin_x86_64") {
        System::DarwinX86_64
    } else if str_equal(tag, "darwin_arm64") {
        System::DarwinArm64
    } else if str_equal(tag, "linux_x86_64") {
        System::LinuxX86_64
    } else if str_equal(tag, "linux_aarch64") {
        System::LinuxAarch64
    } else if str_equal(tag, "linux_i686") {
        System::LinuxI686
    } else {
        System::Other(tag.to_owned())
    }
}

/// A file entry's platform filter: the wildcard marker, or an explicit
/// list of platform identifiers.
#[derive(Clone, Debug, PartialEq, Eq, Hash)]
pub enum SystemSpec {
    Wildcard,
    Systems(Vec<System>),
}

impl SystemSpec {
    /// Whether this filter admits the given platform identifier.
    pub open spec fn spec_supports(self, system: System) -> bool {
        match self {
            SystemSpec::Wildcard => true,
            SystemSpec::Systems(systems) => exists|i: int|
                0 <= i < systems@.len() && system_eq(#[trigger] systems@[i], system),
        }
    }

    /// Decides whether this filter admits the given platform
    /// identifier: the wildcard admits every platform, a list admits
    /// exactly what it contains.
    pub fn supports(&self, system: &System) -> (r: bool)
        ensures
            r == self.spec_supports(*system),
    {
        match self {
            SystemSpec::Wildcard => true,
            SystemSpec::Systems(systems) => list_contains(systems, system),
        }
    }
}

/// Whether a list of platform identifiers contains the given one.
fn list_contains(systems: &Vec<System>, system: &System) -> (r: bool)
    ensures
        r == exists|i: int|
            0 <= i < systems@.len() && system_eq(#[trigger] systems@[i], *system),
{
    let n = systems.len();
    for i in 0..n
        invariant
            n == systems@.len(),
            forall|j: int| 0 <= j < i ==> !system_eq(#[trigger] systems@[j], *system),
    {
        if systems[i].same_as(system) {
            return true;
        }
    }
    false
}

/// Parsing the wildcard marker yields a filter that admits every
/// platform.
pub proof fn lemma_wildcard_filter_supports_all(r: SystemSpec, v: JsonValue, system: System)
    requires
        v matches JsonValue::Str(s) && s@ == "*"@,
        spec_parse_system_spec_ok(r, v),
    ensures
        r.spec_supports(system),
{
}

/// Parsing an explicit tag list yields a filter that admits a catalog
/// platform exactly when the platform's registry tag is in the list.
pub proof fn lemma_list_filter_supports(r: SystemSpec, v: JsonValue, ns: NixSystem)
    requires
        v matches JsonValue::Arr(elems),
        spec_parse_system_spec_ok(r, v),
    ensures
        r.spec_supports(ns.spec_to_registry()) <==> exists|i: int|
            0 <= i < (v->Arr_0)@.len() && ((#[trigger] (v->Arr_0)@[i]) matches JsonValue::Str(t)
                && t@ == spec_system_tag(ns.spec_to_registry())),
{
    reveal_strlit("darwin_x86_64");
    reveal_strlit("darwin_arm64");
    reveal_strlit("linux_x86_64");
    reveal_strlit("linux_aarch64");
    reveal_strlit("linux_i686");
    let elems = v->Arr_0;
    let systems = r->Systems_0;
    let target = ns.spec_to_registry();
    if r.spec_supports(target) {
        let i = choose|i: int| 0 <= i < systems@.len() && system_eq(systems@[i], target);
        assert(elems@[i] matches JsonValue::Str(t) && t@ == spec_system_tag(target));
    }
    if exists|i: int|
        0 <= i < elems@.len() && ((#[trigger] elems@[i]) matches JsonValue::Str(t) && t@
            == spec_system_tag(target)) {
        let i = choose|i: int|
            0 <= i < elems@.len() && ((#[trigger] elems@[i]) matches JsonValue::Str(t) && t@
                == spec_system_tag(target));
        assert(spec_parse_system_ok(systems@[i], spec_system_tag(target)));
        lemma_known_tag_determines(systems@[i], target);
        assert(system_eq(systems@[i], target));
    }
}

/// Among the known platform identifiers, the registry tag determines
/// the identifier.
proof fn lemma_known_tag_determines(a: System, b: System)
    requires
        !(a is Other),
        !(b is Other),
        spec_system_tag(a) == spec_system_tag(b),
    ensures
        a == b,
{
    reveal_strlit("darwin_x86_64");
    reveal_strlit("darwin_arm64");
    reveal_strlit("linux_x86_64");
    reveal_strlit("linux_aarch64");
    reveal_strlit("linux_i686");
    assert("darwin_x86_64"@.len() == 13);
    assert("darwin_arm64"@.len() == 12);
    assert("linux_x86_64"@.len() == 12);
    assert("linux_aarch64"@.len() == 13);
    assert("linux_i686"@.len() == 10);
    assert("darwin_x86_64"@[0] == 'd');
    assert("darwin_arm64"@[0] == 'd');
    assert("linux_x86_64"@[0] == 'l');
    assert("linux_aarch64"@[0] == 'l');
}

/// A well-formed platform filter in JSON: the wildcard marker string,
/// or an array of tag strings.
pub open spec fn spec_system_spec_wf(v: JsonValue) -> bool {
    match v {
        JsonValue::Str(s) => s@ == "*"@,
        JsonValue::Arr(elems) => forall|i: int| 0 <= i < elems@.len() ==> (#[trigger] elems@[i]) is Str,
        _ => false,
    }
}

/// What it means for `r` to be the parse of a platform filter.
pub open spec fn spec_parse_system_spec_ok(r: SystemSpec, v: JsonValue) -> bool {
    match v {
        JsonValue::Str(s) => s@ == "*"@ && r is Wildcard,
        JsonValue::Arr(elems) => r matches SystemSpec::Systems(systems) && systems@.len()
            == elems@.len() && (forall|i: int|
            0 <= i < elems@.len() ==> ((#[trigger] elems@[i]) matches JsonValue::Str(t)
                && spec_parse_system_ok(systems@[i], t@))),
        _ => false,
    }
}

/// The index of the first array element that is no string (meaningful
/// when one exists).
pub open spec fn spec_first_non_str(elems: Seq<JsonValue>) -> int
    decreases elems.len(),
{
    if elems.len() == 0 {
        0
    } else if !(elems[0] is Str) {
        0
    } else {
        1 + spec_first_non_str(elems.drop_first())
    }
}

/// An all-string prefix followed by a non-string element pins the
/// first non-string index.
proof fn lemma_first_non_str_at(elems: Seq<JsonValue>, j: int)
    requires
        0 <= j < elems.len(),
        forall|i: int| 0 <= i < j ==> (#[trigger] elems[i]) is Str,
        !(elems[j] is Str),
    ensures
        spec_first_non_str(elems) == j,
    decreases j,
{
    if j > 0 {
        lemma_first_non_str_at(elems.drop_first(), j - 1);
    }
}

/// The path a failed platform-filter parse reports: the filter's own
/// location, or the first non-string element's location inside an
/// array.
pub open spec fn spec_system_spec_err_path(v: JsonValue, path: Seq<char>) -> Seq<char> {
    match v {
        JsonValue::Arr(elems) => path + seq!['['] + spec_decimal(
            spec_first_non_str(elems@) as nat,
        ) + seq![']'],
        _ => path,
    }
}

/// A schema mismatch in the registry's answer, with the exact JSON
/// path at which it was found and what was expected there.
#[derive(Clone, Debug, PartialEq, Eq)]
pub struct SchemaError {
    pub path: String,
    pub expected: String,
}

impl SchemaError {
    /// Renders the mismatch for diagnostics: the JSON path, then what
    /// was expected there.
    pub fn message(&self) -> (r: String)
        ensures
            r@ == self.path@ + ": expected "@ + self.expected@,
    {
        let mut out = self.path.clone();
        out.append(": expected ");
        out.append(self.expected.as_str());
        out
    }
}

/// Reads a platform filter from its JSON value: a string must be the
/// wildcard marker `*`, an array must hold tag strings. `path` names
/// the value's location for error reports.
pub fn parse_system_spec(v: &JsonValue, path: &str) -> (r: Result<SystemSpec, SchemaError>)
    ensures
        (r is Ok) == spec_system_spec_wf(*v),
        r matches Ok(s) ==> spec_parse_system_spec_ok(s, *v),
        r matches Err(e) ==> e.path@ == spec_system_spec_err_path(*v, path@),
{
    match v {
        JsonValue::Str(s) => {
            if str_equal(s.as_str(), "*") {
                Ok(SystemSpec::Wildcard)
            } else {
                Err(
                    SchemaError {
                        path: path.to_owned(),
                        expected: String::from_str("\"*\" or an array of systems"),
                    },
                )
            }
        },
        JsonValue::Arr(elems) => {
            let n = elems.len();
            let mut systems: Vec<System> = Vec::new();
            for j in 0..n
                invariant
                    *v == JsonValue::Arr(*elems),
                    n == elems@.len(),
                    systems@.len() == j,
                    forall|i: int|
                        0 <= i < j ==> ((#[trigger] elems@[i]) matches JsonValue::Str(t)
                            && spec_parse_system_ok(systems@[i], t@)),
            {
                match &elems[j] {
                    JsonValue::Str(t) => {
                        let parsed = parse_system(t.as_str());
                        systems.push(parsed);
                    },
                    _ => {
                        let mut p = path.to_owned();
                        push_char(&mut p, '[');
                        append_decimal(&mut p, j);
                        push_char(&mut p, ']');
                        proof {
                            lemma_first_non_str_at(elems@, j as int);
                            assert(p@ =~= path@ + seq!['['] + spec_decimal(j as nat) + seq![
                                ']',
                            ]);
                        }
                        return Err(
                            SchemaError { path: p, expected: String::from_str("a system string") },
                        );
                    },
                }
            }
            Ok(SystemSpec::Systems(systems))
        },
        _ => Err(
            SchemaError {
                path: path.to_owned(),
                expected: String::from_str("\"*\" or an array of systems"),
            },
        ),
    }
}

/// A checksum the registry reports for a file: the raw digest bytes.
#[derive(Clone, Debug, PartialEq, Eq)]
pub struct Checksum {
    pub sha256: Vec<u8>,
}

/// One downloadable file of a package version.
#[derive(Clone, Debug, PartialEq, Eq)]
pub struct File {
    pub system: SystemSpec,
    pub download_url: String,
    pub checksum: Checksum,
}

/// One version of a package: its exact name and its files.
#[derive(Clone, Debug, PartialEq, Eq)]
pub struct VersionSpec {
    pub name: String,
    pub files: Vec<File>,
}

/// The registry's answer for one package: its name and the resolved
/// version.
#[derive(Clone, Debug, PartialEq, Eq)]
pub struct PackageSpec {
    pub name: String,
    pub version: VersionSpec,
}

/// The first file whose platform filter admits the given identifier,
/// in file-list order.
pub open spec fn spec_first_support(files: Seq<File>, system: System) -> Option<File>
    decreases files.len(),
{
    if files.len() == 0 {
        None
    } else if files[0].system.spec_supports(system) {
        Some(files[0])
    } else {
        spec_first_support(files.drop_first(), system)
    }
}

/// The first file whose platform filter is the wildcard marker, in
/// file-list order.
pub open spec fn spec_find_wildcard(files: Seq<File>) -> Option<File>
    decreases files.len(),
{
    if files.len() == 0 {
        None
    } else if files[0].system is Wildcard {
        Some(files[0])
    } else {
        spec_find_wildcard(files.drop_first())
    }
}

impl VersionSpec {
    /// The file serving the given platform identifier, if any: ties
    /// among several matching files go to the first in list order.
    pub fn supports(&self, system: &System) -> (r: Option<&File>)
        ensures
            match spec_first_support(self.files@, *system) {
                Some(f) => r matches Some(x) && *x == f,
                None => r is None,
            },
    {
        let n = self.files.len();
        assert(self.files@.skip(0) =~= self.files@);
        for i in 0..n
            invariant
                n == self.files@.len(),
                spec_first_support(self.files@, *system) == spec_first_support(
                    self.files@.skip(i as int),
                    *system,
                ),
        {
            proof {
                assert(self.files@.skip(i as int)[0] == self.files@[i as int]);
                assert(self.files@.skip(i as int).drop_first() =~= self.files@.skip(i as int + 1));
            }
            if self.files[i].system.supports(system) {
                return Some(&self.files[i]);
            }
        }
        None
    }

    /// The first file marked as platform-independent, if any.
    pub fn wildcard_file(&self) -> (r: Option<&File>)
        ensures
            match spec_find_wildcard(self.files@) {
                Some(f) => r matches Some(x) && *x == f,
                None => r is None,
            },
    {
        let n = self.files.len();
        assert(self.files@.skip(0) =~= self.files@);
        for i in 0..n
            invariant
                n == self.files@.len(),
                spec_find_wildcard(self.files@) == spec_find_wildcard(self.files@.skip(i as int)),
        {
            proof {
                assert(self.files@.skip(i as int)[0] == self.files@[i as int]);
                assert(self.files@.skip(i as int).drop_first() =~= self.files@.skip(i as int + 1));
            }
            match &self.files[i].system {
                SystemSpec::Wildcard => {
                    return Some(&self.files[i]);
                },
                _ => {},
            }
        }
        None
    }
}

/// The value of a field of a JSON object; `None` for a missing field
/// or a non-object value.
pub open spec fn spec_field(v: JsonValue, key: Seq<char>) -> Option<JsonValue> {
    match v {
        JsonValue::Obj(entries) => spec_obj_get(entries@, key),
        _ => None,
    }
}

/// The path a failed file-entry parse reports: the first field, in
/// the order the schema is checked, that is missing or malformed.
pub open spec fn spec_file_error_path(v: JsonValue, path: Seq<char>) -> Seq<char> {
    if spec_field(v, "system"@) is None {
        path + ".system"@
    } else if !spec_system_spec_wf(spec_field(v, "system"@).unwrap()) {
        spec_system_spec_err_path(spec_field(v, "system"@).unwrap(), path + ".system"@)
    } else if !(spec_field(v, "download_url"@) matches Some(JsonValue::Str(_))) {
        path + ".download_url"@
    } else if spec_field(v, "checksum"@) is None {
        path + ".checksum"@
    } else {
        path + ".checksum.sha256"@
    }
}

/// The index of the first array element that is no well-formed file
/// entry (meaningful when one exists).
pub open spec fn spec_first_bad_file(elems: Seq<JsonValue>) -> int
    decreases elems.len(),
{
    if elems.len() == 0 {
        0
    } else if !spec_file_wf(elems[0]) {
        0
    } else {
        1 + spec_first_bad_file(elems.drop_first())
    }
}

/// A well-formed prefix followed by a malformed file entry pins the
/// first malformed index.
proof fn lemma_first_bad_file_at(elems: Seq<JsonValue>, j: int)
    requires
        0 <= j < elems.len(),
        forall|i: int| 0 <= i < j ==> spec_file_wf(#[trigger] elems[i]),
        !spec_file_wf(elems[j]),
    ensures
        spec_first_bad_file(elems) == j,
    decreases j,
{
    if j > 0 {
        lemma_first_bad_file_at(elems.drop_first(), j - 1);
    }
}

/// The path a failed version parse reports.
pub open spec fn spec_version_error_path(v: JsonValue, path: Seq<char>) -> Seq<char> {
    if !(spec_field(v, "name"@) matches Some(JsonValue::Str(_))) {
        path + ".name"@
    } else if !(spec_field(v, "files"@) matches Some(JsonValue::Arr(_))) {
        path + ".files"@
    } else {
        let elems = spec_field(v, "files"@).unwrap()->Arr_0;
        let k = spec_first_bad_file(elems@);
        spec_file_error_path(
            elems@[k],
            (path + ".files"@) + seq!['['] + spec_decimal(k as nat) + seq![']'],
        )
    }
}

/// The path a failed package parse reports.
pub open spec fn spec_package_error_path(v: JsonValue) -> Seq<char> {
    if !(spec_field(v, "name"@) matches Some(JsonValue::Str(_))) {
        "name"@
    } else if spec_field(v, "version"@) is None {
        "version"@
    } else {
        spec_version_error_path(spec_field(v, "version"@).unwrap(), "version"@)
    }
}

/// A well-formed file entry in JSON: a platform filter under `system`,
/// a string under `download_url`, and a hex digest string under
/// `checksum.sha256`.
pub open spec fn spec_file_wf(v: JsonValue) -> bool {
    &&& (spec_field(v, "system"@) matches Some(s) && spec_system_spec_wf(s))
    &&& (spec_field(v, "download_url"@) matches Some(u) && u is Str)
    &&& (spec_field(v, "checksum"@) matches Some(c) && spec_field(c, "sha256"@) matches Some(h)
        && h matches JsonValue::Str(hs) && spec_hex_decode(hs@) is Some)
}

/// What it means for `f` to be the parse of a file entry: the filter
/// is parsed, the URL is kept verbatim, the hex digest is decoded to
/// its bytes.
pub open spec fn spec_parse_file_ok(f: File, v: JsonValue) -> bool {
    &&& (spec_field(v, "system"@) matches Some(s) && spec_parse_system_spec_ok(f.system, s))
    &&& (spec_field(v, "download_url"@) matches Some(u) && u matches JsonValue::Str(us)
        && f.download_url@ == us@)
    &&& (spec_field(v, "checksum"@) matches Some(c) && spec_field(c, "sha256"@) matches Some(h)
        && h matches JsonValue::Str(hs) && spec_hex_decode(hs@) == Some(f.checksum.sha256@))
}

/// Reads one file entry from its JSON value.
pub fn parse_file(v: &JsonValue, path: &str) -> (r: Result<File, SchemaError>)
    ensures
        (r is Ok) == spec_file_wf(*v),
        r matches Ok(f) ==> spec_parse_file_ok(f, *v),
        r matches Err(e) ==> e.path@ == spec_file_error_path(*v, path@),
{
    let sys_v = match v.get("system") {
        Some(x) => x,
        None => {
            let mut p = path.to_owned();
            p.append(".system");
            return Err(SchemaError { path: p, expected: String::from_str("a platform filter") });
        },
    };
    let mut sys_path = path.to_owned();
    sys_path.append(".system");
    let system = match parse_system_spec(sys_v, sys_path.as_str()) {
        Ok(s) => s,
        Err(e) => {
            return Err(e);
        },
    };
    let download_url = match v.get("download_url") {
        Some(JsonValue::Str(u)) => u.clone(),
        _ => {
            let mut p = path.to_owned();
            p.append(".download_url");
            return Err(SchemaError { path: p, expected: String::from_str("a URL string") });
        },
    };
    let checksum_v = match v.get("checksum") {
        Some(x) => x,
        None => {
            let mut p = path.to_owned();
            p.append(".checksum");
            return Err(SchemaError { path: p, expected: String::from_str("a checksum object") });
        },
    };
    let hex_str = match checksum_v.get("sha256") {
        Some(JsonValue::Str(h)) => h,
        _ => {
            let mut p = path.to_owned();
            p.append(".checksum.sha256");
            return Err(
                SchemaError { path: p, expected: String::from_str("a hex digest string") },
            );
        },
    };
    let sha256 = match hex_decode(hex_str.as_str()) {
        Some(bytes) => bytes,
        None => {
            let mut p = path.to_owned();
            p.append(".checksum.sha256");
            return Err(
                SchemaError { path: p, expected: String::from_str("a hex digest string") },
            );
        },
    };
    Ok(File { system, download_url, checksum: Checksum { sha256 } })
}

/// A well-formed version object in JSON: a name string and an array of
/// well-formed file entries.
pub open spec fn spec_version_wf(v: JsonValue) -> bool {
    &&& (spec_field(v, "name"@) matches Some(n) && n is Str)
    &&& (spec_field(v, "files"@) matches Some(fs) && fs matches JsonValue::Arr(elems) && (
    forall|i: int| 0 <= i < elems@.len() ==> spec_file_wf(#[trigger] elems@[i])))
}

/// What it means for `ver` to be the parse of a version object.
pub open spec fn spec_parse_version_ok(ver: VersionSpec, v: JsonValue) -> bool {
    &&& (spec_field(v, "name"@) matches Some(n) && n matches JsonValue::Str(ns) && ver.name@
        == ns@)
    &&& (spec_field(v, "files"@) matches Some(fs) && fs matches JsonValue::Arr(elems)
        && ver.files@.len() == elems@.len() && (forall|i: int|
        0 <= i < elems@.len() ==> spec_parse_file_ok(#[trigger] ver.files@[i], elems@[i])))
}

/// Reads a version object from its JSON value.
pub fn parse_version(v: &JsonValue, path: &str) -> (r: Result<VersionSpec, SchemaError>)
    ensures
        (r is Ok) == spec_version_wf(*v),
        r matches Ok(ver) ==> spec_parse_version_ok(ver, *v),
        r matches Err(e) ==> e.path@ == spec_version_error_path(*v, path@),
{
    let name = match v.get("name") {
        Some(JsonValue::Str(n)) => n.clone(),
        _ => {
            let mut p = path.to_owned();
            p.append(".name");
            return Err(
                SchemaError { path: p, expected: String::from_str("a version name string") },
            );
        },
    };
    let files_v = match v.get("files") {
        Some(JsonValue::Arr(elems)) => elems,
        _ => {
            let mut p = path.to_owned();
            p.append(".files");
            return Err(SchemaError { path: p, expected: String::from_str("an array of files") });
        },
    };
    let mut files_path = path.to_owned();
    files_path.append(".files");
    match parse_files(files_v, files_path.as_str()) {
        Ok(files) => Ok(VersionSpec { name, files }),
        Err(e) => Err(e),
    }
}

/// Reads every element of a `files` array, stopping at the first
/// mismatch.
fn parse_files(elems: &Vec<JsonValue>, path: &str) -> (r: Result<Vec<File>, SchemaError>)
    ensures
        (r is Ok) == (forall|i: int| 0 <= i < elems@.len() ==> spec_file_wf(#[trigger] elems@[i])),
        r matches Ok(files) ==> files@.len() == elems@.len() && (forall|i: int|
            0 <= i < elems@.len() ==> spec_parse_file_ok(#[trigger] files@[i], elems@[i])),
        r matches Err(e) ==> ({
            let k = spec_first_bad_file(elems@);
            e.path@ == spec_file_error_path(
                elems@[k],
                path@ + seq!['['] + spec_decimal(k as nat) + seq![']'],
            )
        }),
{
    let n = elems.len();
    let mut files: Vec<File> = Vec::new();
    for i in 0..n
        invariant
            n == elems@.len(),
            files@.len() == i,
            forall|k: int| 0 <= k < i ==> spec_file_wf(#[trigger] elems@[k]),
            forall|k: int| 0 <= k < i ==> spec_parse_file_ok(#[trigger] files@[k], elems@[k]),
    {
        let mut fp = path.to_owned();
        push_char(&mut fp, '[');
        append_decimal(&mut fp, i);
        push_char(&mut fp, ']');
        match parse_file(&elems[i], fp.as_str()) {
            Ok(f) => {
                files.push(f);
            },
            Err(e) => {
                proof {
                    assert(!spec_file_wf(elems@[i as int]));
                    lemma_first_bad_file_at(elems@, i as int);
                    assert(fp@ =~= path@ + seq!['['] + spec_decimal(i as nat) + seq![']']);
                }
                return Err(e);
            },
        }
    }
    Ok(files)
}

/// A well-formed package answer in JSON: a name string and a
/// well-formed version object.
pub open spec fn spec_package_wf(v: JsonValue) -> bool {
    &&& (spec_field(v, "name"@) matches Some(n) && n is Str)
    &&& (spec_field(v, "version"@) matches Some(ver) && spec_version_wf(ver))
}

/// What it means for `p` to be the parse of a package answer.
pub open spec fn spec_parse_package_ok(p: PackageSpec, v: JsonValue) -> bool {
    &&& (spec_field(v, "name"@) matches Some(n) && n matches JsonValue::Str(ns) && p.name@
        == ns@)
    &&& (spec_field(v, "version"@) matches Some(ver) && spec_parse_version_ok(p.version, ver))
}

/// Reads the registry's package answer from its JSON value, reporting
/// the exact JSON path of the first schema mismatch.
pub fn parse_package_spec(v: &JsonValue) -> (r: Result<PackageSpec, SchemaError>)
    ensures
        (r is Ok) == spec_package_wf(*v),
        r matches Ok(p) ==> spec_parse_package_ok(p, *v),
        r matches Err(e) ==> e.path@ == spec_package_error_path(*v),
{
    let name = match v.get("name") {
        Some(JsonValue::Str(n)) => n.clone(),
        _ => {
            return Err(
                SchemaError {
                    path: String::from_str("name"),
                    expected: String::from_str("a package name string"),
                },
            );
        },
    };
    let version_v = match v.get("version") {
        Some(x) => x,
        None => {
            return Err(
                SchemaError {
                    path: String::from_str("version"),
                    expected: String::from_str("a version object"),
                },
            );
        },
    };
    let version = match parse_version(version_v, "version") {
        Ok(ver) => ver,
        Err(e) => {
            return Err(e);
        },
    };
    Ok(PackageSpec { name, version })
}

/// Reads the registry's answer from its response text. The JSON syntax
/// is checked by the JSON parser; every schema check on the resulting
/// tree is done here, so any `Ok` answer is the exact parse of some
/// well-formed document.
pub fn parse_registry_response(text: &str) -> (r: Result<PackageSpec, SchemaError>)
    ensures
        (r is Ok) == (json_doc_of(text@) matches Some(doc) && spec_package_wf(doc)),
        r matches Ok(p) ==> (json_doc_of(text@) matches Some(doc) && spec_parse_package_ok(
            p,
            doc,
        )),
        r matches Err(e) ==> (match json_doc_of(text@) {
            Some(doc) => !spec_package_wf(doc) && e.path@ == spec_package_error_path(doc),
            None => e.path@ == Seq::<char>::empty(),
        }),
{
    match parse_json(text) {
        Ok(doc) => parse_package_spec(&doc),
        Err(message) => Err(SchemaError { path: String::new(), expected: message }),
    }
}

/// A platform is served by the first-support rule exactly when some
/// file's filter admits it.
pub proof fn lemma_first_support_exists(files: Seq<File>, system: System)
    ensures
        (spec_first_support(files, system) is Some) <==> exists|i: int|
            0 <= i < files.len() && (#[trigger] files[i]).system.spec_supports(system),
    decreases files.len(),
{
    if files.len() > 0 {
        if files[0].system.spec_supports(system) {
            assert(0 <= 0 < files.len() && files[0].system.spec_supports(system));
        } else {
            lemma_first_support_exists(files.drop_first(), system);
            if exists|i: int|
                0 <= i < files.len() && (#[trigger] files[i]).system.spec_supports(system) {
                let i = choose|i: int|
                    0 <= i < files.len() && (#[trigger] files[i]).system.spec_supports(system);
                assert(files.drop_first()[i - 1] == files[i]);
            }
            if exists|i: int|
                0 <= i < files.drop_first().len() && (#[trigger] files.drop_first()[i]).system.spec_supports(
                    system,
                ) {
                let i = choose|i: int|
                    0 <= i < files.drop_first().len()
                        && (#[trigger] files.drop_first()[i]).system.spec_supports(system);
                assert(files[i + 1] == files.drop_first()[i]);
            }
        }
    }
}

/// What the gateway fetches for one descriptor: the registry's answer
/// for a registry-hosted package, or the artifact itself for an
/// externally hosted one.
#[derive(Clone, Debug, PartialEq, Eq)]
pub enum FetchPlan {
    Registry { url: String },
    External { url: String },
}

/// Decides one resolution step's fetch: a registry-hosted package is
/// asked for under its owner, kind, name and exact version; an
/// externally hosted package is fetched from its URI for hashing.
pub fn fetch_plan(manifest: &PackageManifest, registry_base: &str) -> (r: FetchPlan)
    ensures
        match manifest.spec {
            crate::manifest::PackageSpec::PlatformIO(p) => (r matches FetchPlan::Registry {
                url,
            } && url@ == spec_package_url(
                registry_base@,
                vstd::utf8::encode_utf8(p.owner@),
                manifest.ty.spec_as_str(),
                vstd::utf8::encode_utf8(p.name@),
                Some(vstd::utf8::encode_utf8(manifest.version@)),
            )),
            crate::manifest::PackageSpec::External(e) => (r matches FetchPlan::External { url }
                && url@ == e.uri@),
        },
{
    match &manifest.spec {
        crate::manifest::PackageSpec::PlatformIO(p) => FetchPlan::Registry {
            url: package_spec_url(
                registry_base,
                p.owner.as_str(),
                manifest.ty,
                p.name.as_str(),
                Some(manifest.version.as_str()),
            ),
        },
        crate::manifest::PackageSpec::External(e) => FetchPlan::External { url: e.uri.clone() },
    }
}

/// Bytes a URL component keeps verbatim (the unreserved set).
pub open spec fn spec_unreserved(b: u8) -> bool {
    ||| (48 <= b && b <= 57)
    ||| (65 <= b && b <= 90)
    ||| (97 <= b && b <= 122)
    ||| b == 45
    ||| b == 46
    ||| b == 95
    ||| b == 126
}

/// Percent-encoding of a byte sequence: unreserved bytes stand as
/// themselves, every other byte as `%` and two upper-case hex digits.
pub open spec fn spec_percent_encode(bytes: Seq<u8>) -> Seq<char>
    decreases bytes.len(),
{
    if bytes.len() == 0 {
        Seq::empty()
    } else {
        (if spec_unreserved(bytes[0]) {
            seq![bytes[0] as char]
        } else {
            seq![
                '%',
                spec_hex_char(bytes[0] as int / 16),
                spec_hex_char(bytes[0] as int % 16),
            ]
        }) + spec_percent_encode(bytes.drop_first())
    }
}

/// Appends the percent-encoding of a component to `out`.
fn append_percent_encoded(out: &mut String, s: &str)
    ensures
        final(out)@ == old(out)@ + spec_percent_encode(s.spec_bytes()),
{
    let bytes = s.as_bytes_vec();
    let n = bytes.len();
    assert(bytes@.skip(0) =~= bytes@);
    let mut i: usize = 0;
    while i < n
        invariant
            n == bytes@.len(),
            i <= n,
            old(out)@ + spec_percent_encode(bytes@) == out@ + spec_percent_encode(
                bytes@.skip(i as int),
            ),
        decreases n - i,
    {
        let b = bytes[i];
        proof {
            assert(bytes@.skip(i as int)[0] == bytes@[i as int]);
            assert(bytes@.skip(i as int).drop_first() =~= bytes@.skip(i as int + 1));
        }
        let ghost out0 = out@;
        if (48 <= b && b <= 57) || (65 <= b && b <= 90) || (97 <= b && b <= 122) || b == 45 || b
            == 46 || b == 95 || b == 126 {
            push_char(out, b as char);
            assert(out@ =~= out0 + seq![b as char]);
        } else {
            push_char(out, '%');
            append_hex_byte(out, b);
            assert(out@ =~= out0 + seq![
                '%',
                spec_hex_char(b as int / 16),
                spec_hex_char(b as int % 16),
            ]);
        }
        i = i + 1;
        assert(out@ + spec_percent_encode(bytes@.skip(i as int)) =~= out0 + spec_percent_encode(
            bytes@.skip(i as int - 1),
        ));
    }
    assert(bytes@.skip(n as int) =~= Seq::<u8>::empty());
    assert(out@ + Seq::<char>::empty() =~= out@);
}

/// The registry's package request URL: the base, the fixed package
/// path, then owner, kind and name as percent-encoded segments, and
/// the exact version as a query parameter where one is asked for.
pub open spec fn spec_package_url(
    base: Seq<char>,
    owner: Seq<u8>,
    kind: Seq<char>,
    name: Seq<u8>,
    version: Option<Seq<u8>>,
) -> Seq<char> {
    let path = base + "/v3/packages/"@ + spec_percent_encode(owner) + "/"@ + kind + "/"@
        + spec_percent_encode(name);
    match version {
        Some(ver) => path + "?version="@ + spec_percent_encode(ver),
        None => path,
    }
}

/// Builds the URL under which the registry answers for one package,
/// with an optional exact-version query parameter.
pub fn package_spec_url(
    base: &str,
    owner: &str,
    ty: PackageType,
    name: &str,
    version: Option<&str>,
) -> (r: String)
    ensures
        r@ == spec_package_url(
            base@,
            owner.spec_bytes(),
            ty.spec_as_str(),
            name.spec_bytes(),
            match version {
                Some(ver) => Some(ver.spec_bytes()),
                None => None,
            },
        ),
{
    let mut out = base.to_owned();
    out.append("/v3/packages/");
    append_percent_encoded(&mut out, owner);
    out.append("/");
    out.append(ty.as_str());
    out.append("/");
    append_percent_encoded(&mut out, name);
    match version {
        Some(ver) => {
            out.append("?version=");
            append_percent_encoded(&mut out, ver);
        },
        None => {},
    }
    out
}

} // verus!
