//! Resolving a replay's recorded patch reference against the scanned patch
//! library: by patch name, then by the exact parsed version.

use vstd::prelude::*;
use crate::game::Language;

verus! {

/// A version as its parsed parts: numbers plus the pre-release and build
/// metadata strings.  Two versions are the same patch version exactly when
/// all five parts agree.
pub struct ParsedVersion {
    pub major: u64,
    pub minor: u64,
    pub patch: u64,
    pub pre: String,
    pub build: String,
}

/// The parts of a parsed version, for contracts.
pub open spec fn spec_version_parts(v: ParsedVersion) -> (u64, u64, u64, Seq<char>, Seq<char>) {
    (v.major, v.minor, v.patch, v.pre@, v.build@)
}

/// What parsing a version string yields, a function of the string alone.
pub uninterp spec fn parsed_version(s: Seq<char>) -> Option<(u64, u64, u64, Seq<char>, Seq<char>)>;

/// Relies on semver's `Version::parse`: deterministic in its input, `Ok`
/// exactly on well-formed SemVer strings, and the parsed parts are the
/// version's components.
#[verifier::external_body]
fn parse_version_raw(s: &str) -> (r: Option<ParsedVersion>)
    ensures
        match r {
            Some(v) => parsed_version(s@) == Some(spec_version_parts(v)),
            None => parsed_version(s@) is None,
        },
{
    match semver::Version::parse(s) {
        Ok(v) => Some(
            ParsedVersion {
                major: v.major,
                minor: v.minor,
                patch: v.patch,
                pre: v.pre.as_str().to_owned(),
                build: v.build.as_str().to_owned(),
            },
        ),
        Err(_) => None,
    }
}

/// Parse a version string; `None` exactly when it is not well-formed
/// SemVer.
pub fn parse_version(s: &String) -> (r: Option<ParsedVersion>)
    ensures
        match r {
            Some(v) => parsed_version(s@) == Some(spec_version_parts(v)),
            None => parsed_version(s@) is None,
        },
{
    parse_version_raw(s.as_str())
}

/// What is known about one installed version of a patch.
#[derive(Clone, Copy, Debug, PartialEq, Eq)]
pub struct PatchVersionInfo {
    /// The language the patch overrides the game's own with, if any.
    pub language_override: Option<Language>,
}

/// One installed patch: its name and its installed versions.
pub struct PatchMeta {
    pub name: String,
    pub versions: Vec<(ParsedVersion, PatchVersionInfo)>,
}

/// The first installed patch with this name.
pub open spec fn spec_find_patch(ps: Seq<PatchMeta>, name: Seq<char>) -> Option<int>
    decreases ps.len(),
{
    if ps.len() == 0 {
        None
    } else if ps[0].name@ == name {
        Some(0)
    } else {
        match spec_find_patch(ps.drop_first(), name) {
            Some(j) => Some(j + 1),
            None => None,
        }
    }
}

/// The first installed version with exactly these parts.
pub open spec fn spec_find_version(
    vs: Seq<(ParsedVersion, PatchVersionInfo)>,
    parts: (u64, u64, u64, Seq<char>, Seq<char>),
) -> Option<int>
    decreases vs.len(),
{
    if vs.len() == 0 {
        None
    } else if spec_version_parts(vs[0].0) == parts {
        Some(0)
    } else {
        match spec_find_version(vs.drop_first(), parts) {
            Some(j) => Some(j + 1),
            None => None,
        }
    }
}

/// What resolving a recorded patch reference yields: the installed info of
/// the named patch at exactly the recorded version, or nothing when the
/// patch is unknown, the version string malformed, or that version not
/// installed.
pub open spec fn spec_resolve_patch(
    ps: Seq<PatchMeta>,
    name: Seq<char>,
    version: Seq<char>,
) -> Option<PatchVersionInfo> {
    match spec_find_patch(ps, name) {
        None => None,
        Some(i) => match parsed_version(version) {
            None => None,
            Some(parts) => match spec_find_version(ps[i].versions@, parts) {
                None => None,
                Some(j) => Some(ps[i].versions@[j].1),
            },
        },
    }
}

/// Whether two parsed versions have the same five parts.
fn version_parts_eq(a: &ParsedVersion, b: &ParsedVersion) -> (r: bool)
    ensures
        r == (spec_version_parts(*a) == spec_version_parts(*b)),
{
    a.major == b.major && a.minor == b.minor && a.patch == b.patch && a.pre == b.pre && a.build
        == b.build
}

/// Exec form of `spec_resolve_patch`.
pub fn resolve_patch(patches: &Vec<PatchMeta>, name: &String, version: &String) -> (r: Option<
    PatchVersionInfo,
>)
    ensures
        r == spec_resolve_patch(patches@, name@, version@),
{
    let mut i: usize = 0;
    proof {
        assert(patches@.skip(0) =~= patches@);
    }
    loop
        invariant
            0 <= i <= patches@.len(),
            spec_find_patch(patches@, name@) == (match spec_find_patch(
                patches@.skip(i as int),
                name@,
            ) {
                Some(j) => Some(j + i),
                None => None::<int>,
            }),
        decreases patches@.len() - i,
    {
        if i >= patches.len() {
            return None;
        }
        proof {
            assert(patches@.skip(i as int)[0] == patches@[i as int]);
            assert(patches@.skip(i as int).drop_first() =~= patches@.skip(i + 1));
        }
        if patches[i].name.eq(name) {
            let parts = match parse_version(version) {
                None => {
                    return None;
                },
                Some(p) => p,
            };
            return resolve_version(&patches[i], &parts);
        }
        i = i + 1;
    }
}

/// Look the parsed version up within one patch.
fn resolve_version(patch: &PatchMeta, parts: &ParsedVersion) -> (r: Option<PatchVersionInfo>)
    ensures
        r == (match spec_find_version(patch.versions@, spec_version_parts(*parts)) {
            None => None::<PatchVersionInfo>,
            Some(j) => Some(patch.versions@[j].1),
        }),
{
    let mut j: usize = 0;
    proof {
        assert(patch.versions@.skip(0) =~= patch.versions@);
    }
    loop
        invariant
            0 <= j <= patch.versions@.len(),
            spec_find_version(patch.versions@, spec_version_parts(*parts)) == (match
                spec_find_version(patch.versions@.skip(j as int), spec_version_parts(*parts)) {
                Some(m) => Some(m + j),
                None => None::<int>,
            }),
        decreases patch.versions@.len() - j,
    {
        if j >= patch.versions.len() {
            return None;
        }
        proof {
            assert(patch.versions@.skip(j as int)[0] == patch.versions@[j as int]);
            assert(patch.versions@.skip(j as int).drop_first() =~= patch.versions@.skip(j + 1));
        }
        if version_parts_eq(&patch.versions[j].0, parts) {
            return Some(patch.versions[j].1);
        }
        j = j + 1;
    }
}

} // verus!
