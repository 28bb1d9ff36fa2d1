//! ROM build request resolution: finding the one configuration, device,
//! branch and ROM entry a request names, and the request-level knobs
//! (parallelism, build variant).

use vstd::prelude::*;

use crate::rom_types::{ManifestBranchesEntry, ManifestEntry, ROMBranchEntry, ROMBuildConfig,
    ROMEntry, RecoveryManifestEntry, TargetsEntry};

verus! {

/// The error kinds ROM build handling reports.
#[derive(Debug, Clone, Copy, PartialEq, Eq, Structural)]
pub enum RomError {
    /// A request named something that does not resolve uniquely.
    InvalidArgument,
    /// A build id or record that does not exist.
    NotFound,
    /// A state that does not admit the operation.
    FailedPrecondition,
    /// An internal failure.
    Internal,
}

/// Whether a device pattern compiles as a regular expression; a function
/// of the pattern alone.
pub uninterp spec fn regex_compiles(pattern: Seq<char>) -> bool;

/// Whether the regular expression matches anywhere inside the text; a
/// function of the pattern and the text alone.
pub uninterp spec fn regex_is_match(pattern: Seq<char>, text: Seq<char>) -> bool;

/// Relies on regex::Regex::new and regex::Regex::is_match: compiling a
/// pattern succeeds or fails by the pattern alone, and the compiled
/// expression matches anywhere inside the text by the pattern and the
/// text alone.
#[verifier::external_body]
fn regex_match(pattern: &str, text: &str) -> (r: Option<bool>)
    ensures
        r is Some <==> regex_compiles(pattern@),
        r matches Some(b) ==> b == regex_is_match(pattern@, text@),
{
    match regex::Regex::new(pattern) {
        Ok(re) => Some(re.is_match(text)),
        Err(_) => None,
    }
}

/// Whether a local-manifest branch entry serves the request: same ROM,
/// same Android version, and the device either named exactly or matched
/// anywhere by the entry's pattern. An entry whose pattern does not
/// compile matches only by exact name.
pub open spec fn spec_branch_matches(
    e: ManifestBranchesEntry,
    rom: Seq<char>,
    ver: u32,
    device: Seq<char>,
) -> bool {
    &&& e.target_rom@ == rom
    &&& e.android_version == ver
    &&& (e.device@ == device || (e.use_regex && regex_compiles(e.device@) && regex_is_match(
        e.device@,
        device,
    )))
}

fn branch_matches(e: &ManifestBranchesEntry, rom: &String, ver: u32, device: &String) -> (r:
    bool)
    ensures
        r == spec_branch_matches(*e, rom@, ver, device@),
{
    if !(e.target_rom == *rom) {
        return false;
    }
    if e.android_version != ver {
        return false;
    }
    if e.device == *device {
        return true;
    }
    if !e.use_regex {
        return false;
    }
    match regex_match(e.device.as_str(), device.as_str()) {
        Some(b) => b,
        None => false,
    }
}

/// Exactly one manifest bears the name.
pub open spec fn spec_unique_manifest(s: Seq<ManifestEntry>, name: Seq<char>) -> bool {
    exists|i: int|
        0 <= i < s.len() && s[i].name@ == name && (forall|j: int|
            0 <= j < s.len() && j != i ==> s[j].name@ != name)
}

/// Exactly one recovery manifest bears the name.
pub open spec fn spec_unique_recovery_manifest(
    s: Seq<RecoveryManifestEntry>,
    name: Seq<char>,
) -> bool {
    exists|i: int|
        0 <= i < s.len() && s[i].name@ == name && (forall|j: int|
            0 <= j < s.len() && j != i ==> s[j].name@ != name)
}

/// Exactly one target bears the codename.
pub open spec fn spec_unique_target(s: Seq<TargetsEntry>, codename: Seq<char>) -> bool {
    exists|i: int|
        0 <= i < s.len() && s[i].codename@ == codename && (forall|j: int|
            0 <= j < s.len() && j != i ==> s[j].codename@ != codename)
}

/// Exactly one ROM entry bears the name.
pub open spec fn spec_unique_rom(s: Seq<ROMEntry>, name: Seq<char>) -> bool {
    exists|i: int|
        0 <= i < s.len() && s[i].name@ == name && (forall|j: int|
            0 <= j < s.len() && j != i ==> s[j].name@ != name)
}

/// Exactly one ROM branch bears the Android version.
pub open spec fn spec_unique_rom_branch(s: Seq<ROMBranchEntry>, ver: u32) -> bool {
    exists|i: int|
        0 <= i < s.len() && s[i].android_version == ver && (forall|j: int|
            0 <= j < s.len() && j != i ==> s[j].android_version != ver)
}

/// Exactly one branch entry serves the request.
pub open spec fn spec_unique_branch(
    s: Seq<ManifestBranchesEntry>,
    rom: Seq<char>,
    ver: u32,
    device: Seq<char>,
) -> bool {
    exists|i: int|
        0 <= i < s.len() && spec_branch_matches(s[i], rom, ver, device) && (forall|j: int|
            0 <= j < s.len() && j != i ==> !spec_branch_matches(s[j], rom, ver, device))
}

fn scan_manifests(s: &Vec<ManifestEntry>, name: &String) -> (r: (usize, usize))
    ensures
        r.0 <= 2,
        r.0 == 0 ==> forall|j: int| 0 <= j < s@.len() ==> s@[j].name@ != name@,
        r.0 == 1 ==> 0 <= r.1 < s@.len() && s@[r.1 as int].name@ == name@ && (forall|j: int|
            0 <= j < s@.len() && j != r.1 ==> s@[j].name@ != name@),
        r.0 == 2 ==> exists|a: int, b: int|
            0 <= a < b < s@.len() && s@[a].name@ == name@ && s@[b].name@ == name@,
{
    let n: usize = s.len();
    let mut count: usize = 0;
    let mut first: usize = 0;
    let mut i: usize = 0;
    while i < n
        invariant
            0 <= i <= n,
            n == s@.len(),
            count <= 2,
            count == 0 ==> forall|j: int| 0 <= j < i ==> s@[j].name@ != name@,
            count >= 1 ==> first < i && s@[first as int].name@ == name@ && (forall|j: int|
                0 <= j < first ==> s@[j].name@ != name@),
            count == 1 ==> forall|j: int| first < j < i ==> s@[j].name@ != name@,
            count == 2 ==> exists|a: int, b: int|
                0 <= a < b < i && s@[a].name@ == name@ && s@[b].name@ == name@,
        decreases n - i,
    {
        if s[i].name == *name {
            if count == 0 {
                first = i;
                count = 1;
            } else if count == 1 {
                proof {
                    assert(first < i && s@[first as int].name@ == name@ && s@[i as int].name@
                        == name@);
                }
                count = 2;
            }
        }
        i += 1;
    }
    (count, first)
}

fn scan_recovery_manifests(s: &Vec<RecoveryManifestEntry>, name: &String) -> (r: (usize, usize))
    ensures
        r.0 <= 2,
        r.0 == 0 ==> forall|j: int| 0 <= j < s@.len() ==> s@[j].name@ != name@,
        r.0 == 1 ==> 0 <= r.1 < s@.len() && s@[r.1 as int].name@ == name@ && (forall|j: int|
            0 <= j < s@.len() && j != r.1 ==> s@[j].name@ != name@),
        r.0 == 2 ==> exists|a: int, b: int|
            0 <= a < b < s@.len() && s@[a].name@ == name@ && s@[b].name@ == name@,
{
    let n: usize = s.len();
    let mut count: usize = 0;
    let mut first: usize = 0;
    let mut i: usize = 0;
    while i < n
        invariant
            0 <= i <= n,
            n == s@.len(),
            count <= 2,
            count == 0 ==> forall|j: int| 0 <= j < i ==> s@[j].name@ != name@,
            count >= 1 ==> first < i && s@[first as int].name@ == name@ && (forall|j: int|
                0 <= j < first ==> s@[j].name@ != name@),
            count == 1 ==> forall|j: int| first < j < i ==> s@[j].name@ != name@,
            count == 2 ==> exists|a: int, b: int|
                0 <= a < b < i && s@[a].name@ == name@ && s@[b].name@ == name@,
        decreases n - i,
    {
        if s[i].name == *name {
            if count == 0 {
                first = i;
                count = 1;
            } else if count == 1 {
                proof {
                    assert(first < i && s@[first as int].name@ == name@ && s@[i as int].name@
                        == name@);
                }
                count = 2;
            }
        }
        i += 1;
    }
    (count, first)
}

/// Which table a named configuration resolved into, and at which index.
#[derive(Debug, Clone, Copy)]
pub enum ConfigKind {
    Standard(usize),
    Recovery(usize),
}

impl ROMBuildConfig {
    /// Resolves a configuration name to exactly one of the standard
    /// manifests or the recovery manifests. A name that resolves in both
    /// tables, in neither, or more than once within a table, is invalid.
    pub fn resolve_config(&self, name: &String) -> (r: Result<ConfigKind, RomError>)
        ensures
            r is Ok <==> (spec_unique_manifest(self.manifests@, name@) != spec_unique_recovery_manifest(
                self.recovery_manifests@,
                name@,
            )),
            r matches Ok(k) ==> match k {
                ConfigKind::Standard(i) => 0 <= i < self.manifests@.len()
                    && self.manifests@[i as int].name@ == name@ && (forall|j: int|
                    0 <= j < self.manifests@.len() && j != i ==> self.manifests@[j].name@
                        != name@),
                ConfigKind::Recovery(i) => 0 <= i < self.recovery_manifests@.len()
                    && self.recovery_manifests@[i as int].name@ == name@ && (forall|j: int|
                    0 <= j < self.recovery_manifests@.len() && j != i
                        ==> self.recovery_manifests@[j].name@ != name@),
            },
            r matches Err(e) ==> e is InvalidArgument,
    {
        let (mc, mi) = scan_manifests(&self.manifests, name);
        let (rc, ri) = scan_recovery_manifests(&self.recovery_manifests, name);
        proof {
            if mc == 1 {
                assert(spec_unique_manifest(self.manifests@, name@));
            } else {
                if spec_unique_manifest(self.manifests@, name@) {
                    let i = choose|i: int|
                        0 <= i < self.manifests@.len() && self.manifests@[i].name@ == name@ && (
                        forall|j: int|
                            0 <= j < self.manifests@.len() && j != i ==> self.manifests@[j].name@
                                != name@);
                    if mc == 2 {
                        let (a, b) = choose|a: int, b: int|
                            0 <= a < b < self.manifests@.len() && self.manifests@[a].name@ == name@
                                && self.manifests@[b].name@ == name@;
                        assert(a == i && b == i);
                    }
                    assert(false);
                }
            }
            if rc == 1 {
                assert(spec_unique_recovery_manifest(self.recovery_manifests@, name@));
            } else {
                if spec_unique_recovery_manifest(self.recovery_manifests@, name@) {
                    let i = choose|i: int|
                        0 <= i < self.recovery_manifests@.len()
                            && self.recovery_manifests@[i].name@ == name@ && (forall|j: int|
                            0 <= j < self.recovery_manifests@.len() && j != i
                                ==> self.recovery_manifests@[j].name@ != name@);
                    if rc == 2 {
                        let (a, b) = choose|a: int, b: int|
                            0 <= a < b < self.recovery_manifests@.len()
                                && self.recovery_manifests@[a].name@ == name@
                                && self.recovery_manifests@[b].name@ == name@;
                        assert(a == i && b == i);
                    }
                    assert(false);
                }
            }
        }
        if mc == 1 && rc != 1 {
            Ok(ConfigKind::Standard(mi))
        } else if rc == 1 && mc != 1 {
            Ok(ConfigKind::Recovery(ri))
        } else {
            Err(RomError::InvalidArgument)
        }
    }

    /// Resolves a device codename to exactly one target entry.
    pub fn resolve_target(&self, codename: &String) -> (r: Result<usize, RomError>)
        ensures
            r is Ok <==> spec_unique_target(self.targets@, codename@),
            r matches Ok(i) ==> 0 <= i < self.targets@.len() && self.targets@[i as int].codename@
                == codename@ && (forall|j: int|
                0 <= j < self.targets@.len() && j != i ==> self.targets@[j].codename@
                    != codename@),
            r matches Err(e) ==> e is InvalidArgument,
    {
        let s = &self.targets;
        let n: usize = s.len();
        let mut count: usize = 0;
        let mut first: usize = 0;
        let mut i: usize = 0;
        while i < n
            invariant
                0 <= i <= n,
                n == s@.len(),
                count <= 2,
                count == 0 ==> forall|j: int| 0 <= j < i ==> s@[j].codename@ != codename@,
                count >= 1 ==> first < i && s@[first as int].codename@ == codename@ && (forall|
                    j: int,
                |
                    0 <= j < first ==> s@[j].codename@ != codename@),
                count == 1 ==> forall|j: int| first < j < i ==> s@[j].codename@ != codename@,
                count == 2 ==> exists|a: int, b: int|
                    0 <= a < b < i && s@[a].codename@ == codename@ && s@[b].codename@
                        == codename@,
            decreases n - i,
        {
            if s[i].codename == *codename {
                if count == 0 {
                    first = i;
                    count = 1;
                } else if count == 1 {
                    proof {
                        assert(first < i && s@[first as int].codename@ == codename@
                            && s@[i as int].codename@ == codename@);
                    }
                    count = 2;
                }
            }
            i += 1;
        }
        proof {
            if count == 1 {
                assert(spec_unique_target(s@, codename@));
            } else {
                if spec_unique_target(s@, codename@) {
                    let k = choose|k: int|
                        0 <= k < s@.len() && s@[k].codename@ == codename@ && (forall|j: int|
                            0 <= j < s@.len() && j != k ==> s@[j].codename@ != codename@);
                    if count == 2 {
                        let (a, b) = choose|a: int, b: int|
                            0 <= a < b < s@.len() && s@[a].codename@ == codename@
                                && s@[b].codename@ == codename@;
                        assert(a == k && b == k);
                    }
                    assert(false);
                }
            }
        }
        if count == 1 {
            Ok(first)
        } else {
            Err(RomError::InvalidArgument)
        }
    }

    /// Resolves a ROM name to exactly one entry of the given table (the
    /// ROM table or the recovery table).
    pub fn resolve_rom_in(roms: &Vec<ROMEntry>, name: &String) -> (r: Result<usize, RomError>)
        ensures
            r is Ok <==> spec_unique_rom(roms@, name@),
            r matches Ok(i) ==> 0 <= i < roms@.len() && roms@[i as int].name@ == name@ && (forall|
                j: int,
            |
                0 <= j < roms@.len() && j != i ==> roms@[j].name@ != name@),
            r matches Err(e) ==> e is InvalidArgument,
    {
        let n: usize = roms.len();
        let mut count: usize = 0;
        let mut first: usize = 0;
        let mut i: usize = 0;
        while i < n
            invariant
                0 <= i <= n,
                n == roms@.len(),
                count <= 2,
                count == 0 ==> forall|j: int| 0 <= j < i ==> roms@[j].name@ != name@,
                count >= 1 ==> first < i && roms@[first as int].name@ == name@ && (forall|j: int|
                    0 <= j < first ==> roms@[j].name@ != name@),
                count == 1 ==> forall|j: int| first < j < i ==> roms@[j].name@ != name@,
                count == 2 ==> exists|a: int, b: int|
                    0 <= a < b < i && roms@[a].name@ == name@ && roms@[b].name@ == name@,
            decreases n - i,
        {
            if roms[i].name == *name {
                if count == 0 {
                    first = i;
                    count = 1;
                } else if count == 1 {
                    proof {
                        assert(first < i && roms@[first as int].name@ == name@
                            && roms@[i as int].name@ == name@);
                    }
                    count = 2;
                }
            }
            i += 1;
        }
        proof {
            if count == 1 {
                assert(spec_unique_rom(roms@, name@));
            } else {
                if spec_unique_rom(roms@, name@) {
                    let k = choose|k: int|
                        0 <= k < roms@.len() && roms@[k].name@ == name@ && (forall|j: int|
                            0 <= j < roms@.len() && j != k ==> roms@[j].name@ != name@);
                    if count == 2 {
                        let (a, b) = choose|a: int, b: int|
                            0 <= a < b < roms@.len() && roms@[a].name@ == name@
                                && roms@[b].name@ == name@;
                        assert(a == k && b == k);
                    }
                    assert(false);
                }
            }
        }
        if count == 1 {
            Ok(first)
        } else {
            Err(RomError::InvalidArgument)
        }
    }

    /// Resolves the branch of a standard manifest that serves the
    /// request; exactly one entry must match.
    pub fn resolve_branch(
        branches: &Vec<ManifestBranchesEntry>,
        rom: &String,
        ver: u32,
        device: &String,
    ) -> (r: Result<usize, RomError>)
        ensures
            r is Ok <==> spec_unique_branch(branches@, rom@, ver, device@),
            r matches Ok(i) ==> 0 <= i < branches@.len() && spec_branch_matches(
                branches@[i as int],
                rom@,
                ver,
                device@,
            ) && (forall|j: int|
                0 <= j < branches@.len() && j != i ==> !spec_branch_matches(
                    branches@[j],
                    rom@,
                    ver,
                    device@,
                )),
            r matches Err(e) ==> e is InvalidArgument,
    {
        let n: usize = branches.len();
        let mut count: usize = 0;
        let mut first: usize = 0;
        let mut i: usize = 0;
        while i < n
            invariant
                0 <= i <= n,
                n == branches@.len(),
                count <= 2,
                count == 0 ==> forall|j: int|
                    0 <= j < i ==> !spec_branch_matches(branches@[j], rom@, ver, device@),
                count >= 1 ==> first < i && spec_branch_matches(
                    branches@[first as int],
                    rom@,
                    ver,
                    device@,
                ) && (forall|j: int|
                    0 <= j < first ==> !spec_branch_matches(branches@[j], rom@, ver, device@)),
                count == 1 ==> forall|j: int|
                    first < j < i ==> !spec_branch_matches(branches@[j], rom@, ver, device@),
                count == 2 ==> exists|a: int, b: int|
                    0 <= a < b < i && spec_branch_matches(branches@[a], rom@, ver, device@)
                        && spec_branch_matches(branches@[b], rom@, ver, device@),
            decreases n - i,
        {
            if branch_matches(&branches[i], rom, ver, device) {
                if count == 0 {
                    first = i;
                    count = 1;
                } else if count == 1 {
                    proof {
                        assert(first < i && spec_branch_matches(
                            branches@[first as int],
                            rom@,
                            ver,
                            device@,
                        ) && spec_branch_matches(branches@[i as int], rom@, ver, device@));
                    }
                    count = 2;
                }
            }
            i += 1;
        }
        proof {
            if count == 1 {
                assert(spec_unique_branch(branches@, rom@, ver, device@));
            } else {
                if spec_unique_branch(branches@, rom@, ver, device@) {
                    let k = choose|k: int|
                        0 <= k < branches@.len() && spec_branch_matches(
                            branches@[k],
                            rom@,
                            ver,
                            device@,
                        ) && (forall|j: int|
                            0 <= j < branches@.len() && j != k ==> !spec_branch_matches(
                                branches@[j],
                                rom@,
                                ver,
                                device@,
                            ));
                    if count == 2 {
                        let (a, b) = choose|a: int, b: int|
                            0 <= a < b < branches@.len() && spec_branch_matches(
                                branches@[a],
                                rom@,
                                ver,
                                device@,
                            ) && spec_branch_matches(branches@[b], rom@, ver, device@);
                        assert(a == k && b == k);
                    }
                    assert(false);
                }
            }
        }
        if count == 1 {
            Ok(first)
        } else {
            Err(RomError::InvalidArgument)
        }
    }

    /// Resolves the branch of a ROM entry by Android version; exactly one
    /// must match.
    pub fn resolve_rom_branch(branches: &Vec<ROMBranchEntry>, ver: u32) -> (r: Result<
        usize,
        RomError,
    >)
        ensures
            r is Ok <==> spec_unique_rom_branch(branches@, ver),
            r matches Ok(i) ==> 0 <= i < branches@.len() && branches@[i as int].android_version
                == ver && (forall|j: int|
                0 <= j < branches@.len() && j != i ==> branches@[j].android_version != ver),
            r matches Err(e) ==> e is InvalidArgument,
    {
        let n: usize = branches.len();
        let mut count: usize = 0;
        let mut first: usize = 0;
        let mut i: usize = 0;
        while i < n
            invariant
                0 <= i <= n,
                n == branches@.len(),
                count <= 2,
                count == 0 ==> forall|j: int| 0 <= j < i ==> branches@[j].android_version != ver,
                count >= 1 ==> first < i && branches@[first as int].android_version == ver && (
                forall|j: int| 0 <= j < first ==> branches@[j].android_version != ver),
                count == 1 ==> forall|j: int|
                    first < j < i ==> branches@[j].android_version != ver,
                count == 2 ==> exists|a: int, b: int|
                    0 <= a < b < i && branches@[a].android_version == ver
                        && branches@[b].android_version == ver,
            decreases n - i,
        {
            if branches[i].android_version == ver {
                if count == 0 {
                    first = i;
                    count = 1;
                } else if count == 1 {
                    proof {
                        assert(first < i && branches@[first as int].android_version == ver
                            && branches@[i as int].android_version == ver);
                    }
                    count = 2;
                }
            }
            i += 1;
        }
        proof {
            if count == 1 {
                assert(spec_unique_rom_branch(branches@, ver));
            } else {
                if spec_unique_rom_branch(branches@, ver) {
                    let k = choose|k: int|
                        0 <= k < branches@.len() && branches@[k].android_version == ver && (forall|
                            j: int,
                        |
                            0 <= j < branches@.len() && j != k ==> branches@[j].android_version
                                != ver);
                    if count == 2 {
                        let (a, b) = choose|a: int, b: int|
                            0 <= a < b < branches@.len() && branches@[a].android_version == ver
                                && branches@[b].android_version == ver;
                        assert(a == k && b == k);
                    }
                    assert(false);
                }
            }
        }
        if count == 1 {
            Ok(first)
        } else {
            Err(RomError::InvalidArgument)
        }
    }
}

/// The branch entry synthesized for a recovery configuration: an empty
/// manifest name, the recovery's target and device, the chosen branch's
/// Android version.
pub fn synthesize_recovery_branch(cfg: &RecoveryManifestEntry, rb: &ROMBranchEntry) -> (r:
    ManifestBranchesEntry)
    ensures
        r.name@.len() == 0,
        r.target_rom@ == cfg.target_recovery@,
        r.android_version == rb.android_version,
        r.device@ == cfg.device@,
        r.use_regex == cfg.use_regex,
{
    ManifestBranchesEntry {
        name: String::new(),
        target_rom: cfg.target_recovery.clone(),
        android_version: rb.android_version,
        device: cfg.device.clone(),
        use_regex: cfg.use_regex,
    }
}

#[derive(Debug, Clone, Copy, PartialEq, Eq, Structural)]
pub enum BuildVariant {
    User,
    UserDebug,
    Eng,
}

pub open spec fn spec_variant_name(v: BuildVariant) -> Seq<char> {
    match v {
        BuildVariant::User => ("user")@,
        BuildVariant::UserDebug => ("userdebug")@,
        BuildVariant::Eng => ("eng")@,
    }
}

pub fn variant_name(v: &BuildVariant) -> (r: &'static str)
    ensures
        r@ == spec_variant_name(*v),
{
    match v {
        BuildVariant::User => "user",
        BuildVariant::UserDebug => "userdebug",
        BuildVariant::Eng => "eng",
    }
}

/// Relies on num_cpus::get: the number of logical CPUs available, which
/// its documentation promises to be at least one.
#[verifier::external_body]
fn logical_cpus() -> (r: usize)
    ensures
        1 <= r,
{
    num_cpus::get()
}

/// The parallelism a request settles on: the requested value when one is
/// given, the CPU count otherwise.
pub open spec fn spec_effective_jobs(requested: Option<u32>, cpus: u32) -> u32 {
    match requested {
        Some(j) => j,
        None => cpus,
    }
}

pub fn effective_jobs(requested: Option<u32>, cpus: u32) -> (r: u32)
    ensures
        r == spec_effective_jobs(requested, cpus),
{
    match requested {
        Some(j) => j,
        None => cpus,
    }
}

/// Settles the parallelism of a request, reading the logical-CPU count
/// when none was given.
pub fn parallel_jobs(requested: Option<u32>) -> (r: u32)
    ensures
        requested matches Some(j) ==> r == j,
        requested is None ==> r >= 1,
        exists|cpus: u32| 1 <= cpus && r == #[trigger] spec_effective_jobs(requested, cpus),
{
    let raw: usize = logical_cpus();
    let cpus: u32 = if raw > 0xffff_ffff {
        0xffff_ffffu32
    } else {
        raw as u32
    };
    let r = effective_jobs(requested, cpus);
    proof {
        assert(1 <= cpus);
        assert(r == spec_effective_jobs(requested, cpus));
    }
    r
}

} // verus!
