//! Decisions of the ROM build pipeline: whether the repo tree needs
//! re-initialising, how the local manifest is reconciled, vendor and
//! release detection, the shell session a build runs, and where the
//! produced flashable is found.

use vstd::prelude::*;
use vstd::string::StringExecFns;

use crate::rom_types::{CloneMappingsEntry, ROMArtifactEntry, ROMArtifactMatcher};
use crate::strutil::{ends_with, spec_ends_with, spec_starts_with, spec_trim_trailing_slash,
    spec_u64_string, starts_with, strip_suffix, trim_trailing_slash, u64_to_string};

verus! {

// ---------------------------------------------------------------------
// Repo bootstrap
// ---------------------------------------------------------------------
/// Whether `repo init` must be run again: the manifest repository is
/// missing, its remote URL differs from the ROM's link (ignoring trailing
/// slashes), or its local head is not the remote branch's commit.
pub open spec fn spec_need_reinit(
    exists_repo: bool,
    url: Seq<char>,
    link: Seq<char>,
    head_matches: bool,
) -> bool {
    ||| !exists_repo
    ||| spec_trim_trailing_slash(url) != spec_trim_trailing_slash(link)
    ||| !head_matches
}

pub fn need_repo_reinit(
    exists_repo: bool,
    remote_url: &str,
    link: &str,
    head_matches: bool,
) -> (r: bool)
    ensures
        r == spec_need_reinit(exists_repo, remote_url@, link@, head_matches),
{
    if !exists_repo {
        return true;
    }
    let a: String = trim_trailing_slash(remote_url).to_owned();
    let b: String = trim_trailing_slash(link).to_owned();
    if !(a == b) {
        return true;
    }
    !head_matches
}

/// The arguments of the `repo init` run.
pub fn repo_init_args(link: &str, branch: &str) -> (r: Vec<String>)
    ensures
        r.deep_view() == seq![
            ("init")@,
            ("-u")@,
            link@,
            ("-b")@,
            branch@,
            ("--git-lfs")@,
            ("--depth=1")@,
        ],
{
    let mut v: Vec<String> = Vec::new();
    v.push("init".to_owned());
    v.push("-u".to_owned());
    v.push(link.to_owned());
    v.push("-b".to_owned());
    v.push(branch.to_owned());
    v.push("--git-lfs".to_owned());
    v.push("--depth=1".to_owned());
    assert(v.deep_view() =~= seq![
        ("init")@,
        ("-u")@,
        link@,
        ("-b")@,
        branch@,
        ("--git-lfs")@,
        ("--depth=1")@,
    ]);
    v
}

/// The arguments of the full `repo sync` run; a dirty checkout is
/// force-removed only when the request asks for it.
pub fn repo_sync_args(jobs: u64, force_checkout: bool) -> (r: Vec<String>)
    ensures
        r.deep_view() == seq![
            ("sync")@,
            ("-c")@,
            ("--force-sync")@,
            ("--no-clone-bundle")@,
            ("--no-tags")@,
            ("-j")@ + spec_u64_string(jobs as int),
        ] + if force_checkout {
            seq![("--force-remove-dirty")@]
        } else {
            Seq::<Seq<char>>::empty()
        },
{
    let mut v: Vec<String> = Vec::new();
    v.push("sync".to_owned());
    v.push("-c".to_owned());
    v.push("--force-sync".to_owned());
    v.push("--no-clone-bundle".to_owned());
    v.push("--no-tags".to_owned());
    let mut j = "-j".to_owned();
    j.append(u64_to_string(jobs).as_str());
    v.push(j);
    if force_checkout {
        v.push("--force-remove-dirty".to_owned());
    }
    assert(v.deep_view() =~= seq![
        ("sync")@,
        ("-c")@,
        ("--force-sync")@,
        ("--no-clone-bundle")@,
        ("--no-tags")@,
        ("-j")@ + spec_u64_string(jobs as int),
    ] + if force_checkout {
        seq![("--force-remove-dirty")@]
    } else {
        Seq::<Seq<char>>::empty()
    });
    v
}

/// The arguments of the partial `repo sync` run for one project.
pub fn repo_sync_project_args(jobs: u64, project: &str) -> (r: Vec<String>)
    ensures
        r.deep_view() == seq![
            ("sync")@,
            ("-c")@,
            ("--force-sync")@,
            ("--no-clone-bundle")@,
            ("--no-tags")@,
            ("-j")@ + spec_u64_string(jobs as int),
            project@,
        ],
{
    let mut v: Vec<String> = Vec::new();
    v.push("sync".to_owned());
    v.push("-c".to_owned());
    v.push("--force-sync".to_owned());
    v.push("--no-clone-bundle".to_owned());
    v.push("--no-tags".to_owned());
    let mut j = "-j".to_owned();
    j.append(u64_to_string(jobs).as_str());
    v.push(j);
    v.push(project.to_owned());
    assert(v.deep_view() =~= seq![
        ("sync")@,
        ("-c")@,
        ("--force-sync")@,
        ("--no-clone-bundle")@,
        ("--no-tags")@,
        ("-j")@ + spec_u64_string(jobs as int),
        project@,
    ]);
    v
}

// ---------------------------------------------------------------------
// Local manifest
// ---------------------------------------------------------------------
/// How the local-manifest directory is reconciled against the wanted
/// (URL, branch).
#[derive(Debug, Clone, Copy, PartialEq, Eq, Structural)]
pub enum ManifestAction {
    /// No repository there: clone it.
    CloneFresh,
    /// A repository with another remote URL: remove it and clone.
    RemoveAndClone,
    /// The right URL on another branch: check the branch out, then
    /// fast-forward.
    CheckoutThenFastForward,
    /// The right URL and branch: fast-forward only.
    FastForwardOnly,
}

pub fn local_manifest_action(open_ok: bool, url_matches: bool, branch_matches: bool) -> (r:
    ManifestAction)
    ensures
        r == if !open_ok {
            ManifestAction::CloneFresh
        } else if !url_matches {
            ManifestAction::RemoveAndClone
        } else if !branch_matches {
            ManifestAction::CheckoutThenFastForward
        } else {
            ManifestAction::FastForwardOnly
        },
{
    if !open_ok {
        ManifestAction::CloneFresh
    } else if !url_matches {
        ManifestAction::RemoveAndClone
    } else if !branch_matches {
        ManifestAction::CheckoutThenFastForward
    } else {
        ManifestAction::FastForwardOnly
    }
}

/// One `project` element of the synthesized recovery manifest.
pub open spec fn spec_manifest_project_line(m: CloneMappingsEntry) -> Seq<char> {
    ("  <project name=\"")@ + m.repo@ + ("\" path=\"")@ + m.path@ + ("\" revision=\"")@ + m.branch@
        + ("\" remote=\"cppbot_github\" />\n")@
}

/// The synthesized local manifest of a recovery configuration: one fixed
/// remote and one project per clone mapping.
pub open spec fn spec_manifest_projects(ms: Seq<CloneMappingsEntry>) -> Seq<char>
    decreases ms.len(),
{
    if ms.len() == 0 {
        Seq::empty()
    } else {
        spec_manifest_project_line(ms[0]) + spec_manifest_projects(ms.skip(1))
    }
}

pub open spec fn spec_recovery_manifest_xml(ms: Seq<CloneMappingsEntry>) -> Seq<char> {
    ("<?xml version=\"1.0\" encoding=\"UTF-8\" standalone=\"yes\"?>\n<manifest>\n  <remote name=\"cppbot_github\" fetch=\"https://github.com\" />\n")@
        + spec_manifest_projects(ms) + ("</manifest>\n")@
}

/// Writes out the recovery configuration's local manifest document.
pub fn recovery_manifest_xml(mappings: &Vec<CloneMappingsEntry>) -> (r: String)
    ensures
        r@ == spec_recovery_manifest_xml(mappings@),
{
    let mut out: String =
        "<?xml version=\"1.0\" encoding=\"UTF-8\" standalone=\"yes\"?>\n<manifest>\n  <remote name=\"cppbot_github\" fetch=\"https://github.com\" />\n".to_owned();
    let ghost header = out@;
    let n: usize = mappings.len();
    let mut i: usize = 0;
    proof {
        assert(mappings@.skip(0) =~= mappings@);
    }
    while i < n
        invariant
            0 <= i <= n,
            n == mappings@.len(),
            out@ + spec_manifest_projects(mappings@.skip(i as int)) == header
                + spec_manifest_projects(mappings@),
        decreases n - i,
    {
        let ghost tail = mappings@.skip(i as int);
        proof {
            assert(tail[0] == mappings@[i as int]);
            assert(tail.skip(1) =~= mappings@.skip(i + 1));
        }
        let m = &mappings[i];
        out.append("  <project name=\"");
        out.append(m.repo.as_str());
        out.append("\" path=\"");
        out.append(m.path.as_str());
        out.append("\" revision=\"");
        out.append(m.branch.as_str());
        out.append("\" remote=\"cppbot_github\" />\n");
        i += 1;
    }
    proof {
        assert(mappings@.skip(n as int) =~= Seq::<CloneMappingsEntry>::empty());
        assert(spec_manifest_projects(mappings@.skip(n as int)) =~= Seq::<char>::empty());
        assert(out@ + Seq::<char>::empty() =~= out@);
    }
    out.append("</manifest>\n");
    out
}

/// The contents of the `git-askpass` helper written for a token.
pub fn askpass_script(token: &str) -> (r: String)
    ensures
        r@ == ("#!/bin/sh\necho \"")@ + token@ + ("\"\n")@,
{
    let mut s = "#!/bin/sh\necho \"".to_owned();
    s.append(token);
    s.append("\"\n");
    s
}

// ---------------------------------------------------------------------
// Vendor and release detection
// ---------------------------------------------------------------------
/// Vendor detection rule: the first scanned vendor directory that carries
/// a board configuration names the vendor; with none, the default is
/// `lineage`.
pub open spec fn spec_detect_vendor(dirs: Seq<(Seq<char>, bool)>) -> Seq<char>
    decreases dirs.len(),
{
    if dirs.len() == 0 {
        ("lineage")@
    } else if dirs[0].1 {
        dirs[0].0
    } else {
        spec_detect_vendor(dirs.skip(1))
    }
}

/// Picks the vendor from the scanned (directory name, has board
/// configuration) pairs, in scan order.
pub fn detect_vendor(dirs: &Vec<(String, bool)>) -> (r: String)
    ensures
        r@ == spec_detect_vendor(dirs.deep_view()),
{
    let ghost dd = dirs.deep_view();
    let n: usize = dirs.len();
    let mut i: usize = 0;
    proof {
        assert(dd.skip(0) =~= dd);
    }
    while i < n
        invariant
            0 <= i <= n,
            n == dirs@.len(),
            dd == dirs.deep_view(),
            dd.len() == n,
            spec_detect_vendor(dd) == spec_detect_vendor(dd.skip(i as int)),
            forall|j: int| 0 <= j < i ==> !dd[j].1,
        decreases n - i,
    {
        let ghost tail = dd.skip(i as int);
        proof {
            assert(tail[0] == dd[i as int]);
            assert(dd[i as int] == (dirs@[i as int].0@, dirs@[i as int].1));
            assert(tail.skip(1) =~= dd.skip(i + 1));
        }
        if dirs[i].1 {
            return dirs[i].0.clone();
        }
        i += 1;
    }
    proof {
        assert(dd.skip(n as int) =~= Seq::<(Seq<char>, bool)>::empty());
    }
    "lineage".to_owned()
}

/// What one release directory shows: whether the release map file is
/// there, the file names under `build_config`, and the file names under
/// `release_configs`.
#[derive(Debug, Clone)]
pub struct ReleaseProbe {
    pub has_release_config_map: bool,
    pub build_config_files: Vec<String>,
    pub release_config_files: Vec<String>,
}

pub struct ReleaseProbeModel {
    pub has_release_config_map: bool,
    pub build_config_files: Seq<Seq<char>>,
    pub release_config_files: Seq<Seq<char>>,
}

impl DeepView for ReleaseProbe {
    type V = ReleaseProbeModel;

    open spec fn deep_view(&self) -> ReleaseProbeModel {
        ReleaseProbeModel {
            has_release_config_map: self.has_release_config_map,
            build_config_files: self.build_config_files.deep_view(),
            release_config_files: self.release_config_files.deep_view(),
        }
    }
}

/// The first `.scl` file, without its extension.
pub open spec fn spec_first_scl(names: Seq<Seq<char>>) -> Option<Seq<char>>
    decreases names.len(),
{
    if names.len() == 0 {
        None
    } else if spec_ends_with(names[0], (".scl")@) {
        Some(names[0].take(names[0].len() - 4))
    } else {
        spec_first_scl(names.skip(1))
    }
}

/// Whether a `release_configs` file names a release: a `.textproto` file
/// other than `root` and `trunk`.
pub open spec fn spec_names_release(name: Seq<char>) -> bool {
    &&& spec_ends_with(name, (".textproto")@)
    &&& name.take(name.len() - 10) != ("root")@
    &&& name.take(name.len() - 10) != ("trunk")@
}

/// The first release-naming `.textproto` file, without its extension.
pub open spec fn spec_first_release_config(names: Seq<Seq<char>>) -> Option<Seq<char>>
    decreases names.len(),
{
    if names.len() == 0 {
        None
    } else if spec_names_release(names[0]) {
        Some(names[0].take(names[0].len() - 10))
    } else {
        spec_first_release_config(names.skip(1))
    }
}

/// The release one probed directory yields: the map file names
/// `aosp_current`; else the first `build_config` `.scl` file; else the
/// first admissible `release_configs` `.textproto` file.
pub open spec fn spec_release_of_probe(p: ReleaseProbeModel) -> Option<Seq<char>> {
    if p.has_release_config_map {
        Some(("aosp_current")@)
    } else if spec_first_scl(p.build_config_files) is Some {
        spec_first_scl(p.build_config_files)
    } else {
        spec_first_release_config(p.release_config_files)
    }
}

/// The detected release: what the first probe that yields one says.
pub open spec fn spec_detect_release(ps: Seq<ReleaseProbeModel>) -> Option<Seq<char>>
    decreases ps.len(),
{
    if ps.len() == 0 {
        None
    } else if spec_release_of_probe(ps[0]) is Some {
        spec_release_of_probe(ps[0])
    } else {
        spec_detect_release(ps.skip(1))
    }
}

fn first_scl(names: &Vec<String>) -> (r: Option<String>)
    ensures
        r is Some <==> spec_first_scl(names.deep_view()) is Some,
        r matches Some(s) ==> spec_first_scl(names.deep_view()) == Some(s@),
{
    let ghost nd = names.deep_view();
    let n: usize = names.len();
    let mut i: usize = 0;
    proof {
        reveal_strlit(".scl");
        assert(nd.skip(0) =~= nd);
    }
    while i < n
        invariant
            0 <= i <= n,
            n == names@.len(),
            nd == names.deep_view(),
            nd.len() == n,
            spec_first_scl(nd) == spec_first_scl(nd.skip(i as int)),
        decreases n - i,
    {
        let ghost tail = nd.skip(i as int);
        proof {
            assert(tail[0] == nd[i as int]);
            assert(nd[i as int] == names@[i as int]@);
            assert(tail.skip(1) =~= nd.skip(i + 1));
        }
        proof {
            reveal_strlit(".scl");
        }
        if ends_with(names[i].as_str(), ".scl") {
            let trimmed = strip_suffix(names[i].as_str(), ".scl");
            return Some(trimmed.to_owned());
        }
        i += 1;
    }
    proof {
        assert(nd.skip(n as int) =~= Seq::<Seq<char>>::empty());
    }
    None
}

fn first_release_config(names: &Vec<String>) -> (r: Option<String>)
    ensures
        r is Some <==> spec_first_release_config(names.deep_view()) is Some,
        r matches Some(s) ==> spec_first_release_config(names.deep_view()) == Some(s@),
{
    let ghost nd = names.deep_view();
    let n: usize = names.len();
    let mut i: usize = 0;
    proof {
        reveal_strlit(".textproto");
        assert(nd.skip(0) =~= nd);
    }
    while i < n
        invariant
            0 <= i <= n,
            n == names@.len(),
            nd == names.deep_view(),
            nd.len() == n,
            spec_first_release_config(nd) == spec_first_release_config(nd.skip(i as int)),
        decreases n - i,
    {
        let ghost tail = nd.skip(i as int);
        proof {
            reveal_strlit(".textproto");
            assert(tail[0] == nd[i as int]);
            assert(nd[i as int] == names@[i as int]@);
            assert(tail.skip(1) =~= nd.skip(i + 1));
        }
        if ends_with(names[i].as_str(), ".textproto") {
            let trimmed: String = strip_suffix(names[i].as_str(), ".textproto").to_owned();
            let root: String = "root".to_owned();
            let trunk: String = "trunk".to_owned();
            if !(trimmed == root) && !(trimmed == trunk) {
                return Some(trimmed);
            }
        }
        i += 1;
    }
    proof {
        assert(nd.skip(n as int) =~= Seq::<Seq<char>>::empty());
    }
    None
}

fn probe_release(p: &ReleaseProbe) -> (r: Option<String>)
    ensures
        r is Some <==> spec_release_of_probe(p.deep_view()) is Some,
        r matches Some(s) ==> spec_release_of_probe(p.deep_view()) == Some(s@),
{
    if p.has_release_config_map {
        proof {
            reveal_strlit("aosp_current");
        }
        return Some("aosp_current".to_owned());
    }
    match first_scl(&p.build_config_files) {
        Some(s) => Some(s),
        None => first_release_config(&p.release_config_files),
    }
}

/// Detects the release from the probed directories, in probe order,
/// stopping at the first that yields one.
pub fn detect_release(probes: &Vec<ReleaseProbe>) -> (r: Option<String>)
    ensures
        r is Some <==> spec_detect_release(probes.deep_view()) is Some,
        r matches Some(s) ==> spec_detect_release(probes.deep_view()) == Some(s@),
{
    let ghost pd = probes.deep_view();
    let n: usize = probes.len();
    let mut i: usize = 0;
    proof {
        assert(pd.skip(0) =~= pd);
    }
    while i < n
        invariant
            0 <= i <= n,
            n == probes@.len(),
            pd == probes.deep_view(),
            pd.len() == n,
            spec_detect_release(pd) == spec_detect_release(pd.skip(i as int)),
        decreases n - i,
    {
        let ghost tail = pd.skip(i as int);
        proof {
            assert(tail[0] == pd[i as int]);
            assert(pd[i as int] == probes@[i as int].deep_view());
            assert(tail.skip(1) =~= pd.skip(i + 1));
        }
        match probe_release(&probes[i]) {
            Some(s) => {
                return Some(s);
            },
            None => {},
        }
        i += 1;
    }
    proof {
        assert(pd.skip(n as int) =~= Seq::<ReleaseProbeModel>::empty());
    }
    None
}

// ---------------------------------------------------------------------
// The build shell session
// ---------------------------------------------------------------------
pub open spec fn spec_ccache_line(use_ccache: bool) -> Seq<char> {
    if use_ccache {
        ("true")@
    } else {
        ("unset USE_CCACHE; unset CCACHE_EXEC;")@
    }
}

pub open spec fn spec_lunch_line(
    vendor: Seq<char>,
    codename: Seq<char>,
    release: Option<Seq<char>>,
    variant: Seq<char>,
) -> Seq<char> {
    match release {
        Some(rel) => ("lunch ")@ + vendor + ("_")@ + codename + ("-")@ + rel + ("-")@ + variant,
        None => ("llunch ")@ + vendor + ("_")@ + codename + ("-")@ + variant,
    }
}

pub open spec fn spec_make_line(target: Seq<char>, jobs: int) -> Seq<char> {
    ("m ")@ + target + (" -j")@ + spec_u64_string(jobs)
}

/// The lines fed to the build shell: fail fast, load the build system,
/// settle ccache, lunch the target (with the release when one is known),
/// make, and exit cleanly.
pub open spec fn spec_build_shell_lines(
    use_ccache: bool,
    vendor: Seq<char>,
    codename: Seq<char>,
    release: Option<Seq<char>>,
    variant: Seq<char>,
    target: Seq<char>,
    jobs: int,
) -> Seq<Seq<char>> {
    seq![
        ("set -e")@,
        ("source build/envsetup.sh")@,
        spec_ccache_line(use_ccache),
        spec_lunch_line(vendor, codename, release, variant),
        spec_make_line(target, jobs),
        ("exit 0")@,
    ]
}

pub fn build_shell_lines(
    use_ccache: bool,
    vendor: &str,
    codename: &str,
    release: &Option<String>,
    variant: &str,
    target: &str,
    jobs: u64,
) -> (r: Vec<String>)
    ensures
        r.deep_view() == spec_build_shell_lines(
            use_ccache,
            vendor@,
            codename@,
            release.deep_view(),
            variant@,
            target@,
            jobs as int,
        ),
{
    let mut v: Vec<String> = Vec::new();
    v.push("set -e".to_owned());
    v.push("source build/envsetup.sh".to_owned());
    if use_ccache {
        v.push("true".to_owned());
    } else {
        v.push("unset USE_CCACHE; unset CCACHE_EXEC;".to_owned());
    }
    let mut lunch: String;
    match release {
        Some(rel) => {
            lunch = "lunch ".to_owned();
            lunch.append(vendor);
            lunch.append("_");
            lunch.append(codename);
            lunch.append("-");
            lunch.append(rel.as_str());
            lunch.append("-");
            lunch.append(variant);
        },
        None => {
            lunch = "llunch ".to_owned();
            lunch.append(vendor);
            lunch.append("_");
            lunch.append(codename);
            lunch.append("-");
            lunch.append(variant);
        },
    }
    v.push(lunch);
    let mut make_line = "m ".to_owned();
    make_line.append(target);
    make_line.append(" -j");
    make_line.append(u64_to_string(jobs).as_str());
    v.push(make_line);
    v.push("exit 0".to_owned());
    assert(v.deep_view() =~= spec_build_shell_lines(
        use_ccache,
        vendor@,
        codename@,
        release.deep_view(),
        variant@,
        target@,
        jobs as int,
    ));
    v
}

// ---------------------------------------------------------------------
// Artifact location
// ---------------------------------------------------------------------
/// Whether a file name satisfies the prefix matcher: it starts with the
/// prefix and ends in `.zip`.
pub open spec fn spec_prefix_zip_match(name: Seq<char>, prefix: Seq<char>) -> bool {
    spec_starts_with(name, prefix) && spec_ends_with(name, (".zip")@)
}

/// The first file the prefix matcher accepts.
pub open spec fn spec_first_prefix_zip(names: Seq<Seq<char>>, prefix: Seq<char>) -> Option<
    Seq<char>,
>
    decreases names.len(),
{
    if names.len() == 0 {
        None
    } else if spec_prefix_zip_match(names[0], prefix) {
        Some(names[0])
    } else {
        spec_first_prefix_zip(names.skip(1), prefix)
    }
}

/// The artifact a matcher finds among the output files: the first
/// prefix-and-`.zip` match, or the exact name when it is present.
pub open spec fn spec_find_artifact(
    m: ROMArtifactMatcher,
    data: Seq<char>,
    names: Seq<Seq<char>>,
) -> Option<Seq<char>> {
    match m {
        ROMArtifactMatcher::ZipFilePrefixer => spec_first_prefix_zip(names, data),
        ROMArtifactMatcher::ExactMatcher => if names.contains(data) {
            Some(data)
        } else {
            None
        },
    }
}

pub fn find_artifact(entry: &ROMArtifactEntry, names: &Vec<String>) -> (r: Option<String>)
    ensures
        r is Some <==> spec_find_artifact(entry.matcher, entry.data@, names.deep_view())
            is Some,
        r matches Some(s) ==> spec_find_artifact(entry.matcher, entry.data@, names.deep_view())
            == Some(s@),
{
    let ghost nd = names.deep_view();
    let n: usize = names.len();
    match entry.matcher {
        ROMArtifactMatcher::ZipFilePrefixer => {
            let mut i: usize = 0;
            proof {
                assert(nd.skip(0) =~= nd);
            }
            while i < n
                invariant
                    0 <= i <= n,
                    n == names@.len(),
                    nd == names.deep_view(),
                    nd.len() == n,
                    entry.matcher is ZipFilePrefixer,
                    spec_first_prefix_zip(nd, entry.data@) == spec_first_prefix_zip(
                        nd.skip(i as int),
                        entry.data@,
                    ),
                decreases n - i,
            {
                let ghost tail = nd.skip(i as int);
                proof {
                    assert(tail[0] == nd[i as int]);
                    assert(nd[i as int] == names@[i as int]@);
                    assert(tail.skip(1) =~= nd.skip(i + 1));
                }
                if starts_with(names[i].as_str(), entry.data.as_str()) && ends_with(
                    names[i].as_str(),
                    ".zip",
                ) {
                    return Some(names[i].clone());
                }
                i += 1;
            }
            proof {
                assert(nd.skip(n as int) =~= Seq::<Seq<char>>::empty());
            }
            None
        },
        ROMArtifactMatcher::ExactMatcher => {
            let mut i: usize = 0;
            while i < n
                invariant
                    0 <= i <= n,
                    n == names@.len(),
                    nd == names.deep_view(),
                    nd.len() == n,
                    entry.matcher is ExactMatcher,
                    forall|j: int| 0 <= j < i ==> nd[j] != entry.data@,
                decreases n - i,
            {
                proof {
                    assert(nd[i as int] == names@[i as int]@);
                }
                if names[i] == entry.data {
                    proof {
                        assert(nd.contains(entry.data@));
                    }
                    return Some(names[i].clone());
                }
                i += 1;
            }
            proof {
                if nd.contains(entry.data@) {
                    let k = choose|k: int| 0 <= k < nd.len() && nd[k] == entry.data@;
                    assert(false);
                }
            }
            None
        },
    }
}

// ---------------------------------------------------------------------
// Log file names
// ---------------------------------------------------------------------
/// The log file of one ROM build phase: `<phase>-build-<build id>.log`.
pub fn phase_log_name(phase: &str, build_id: &str) -> (r: String)
    ensures
        r@ == phase@ + ("-build-")@ + build_id@ + (".log")@,
{
    let mut s = phase.to_owned();
    s.append("-build-");
    s.append(build_id);
    s.append(".log");
    s
}

/// The log file of one submodule's partial sync.
pub fn submodule_sync_log_name(build_id: &str) -> (r: String)
    ensures
        r@ == ("repo-sync-")@ + build_id@ + ("-submodule-sync.log")@,
{
    let mut s = "repo-sync-".to_owned();
    s.append(build_id);
    s.append("-submodule-sync.log");
    s
}

} // verus!
