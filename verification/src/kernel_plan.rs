//! Kernel build planning: validating a prepare request against the
//! registry and the toolchain catalog, and assembling the `make`
//! arguments for the defconfig and build steps.

use vstd::prelude::*;
use vstd::string::StringExecFns;

use crate::arch::{arch_matches, Architecture};
use crate::kernel_config::{spec_kernel_build_args, Fragment, KernelConfig};
use crate::registry::spec_has_name;
use crate::strutil::{spec_replace, spec_u64_string, u64_to_string};
use crate::toolchain::{spec_toolchain_build_args, spec_toolchain_candidate, BuilderConfig,
    Toolchain};

verus! {

/// Why a prepare request is rejected; each case names the failed check.
#[derive(Debug)]
pub enum PrepareError {
    /// No configuration bears the requested name.
    ConfigNotFound,
    /// The device is not in the configuration's allowlist.
    UnknownDevice,
    /// A requested fragment is not declared; carries its name.
    UnknownFragment(String),
    /// No catalog entry can serve the configuration's compiler and
    /// architecture.
    NoSuitableToolchain,
}

/// A validated prepare request: which configuration and which toolchain
/// serve it.
#[derive(Debug, Clone, Copy)]
pub struct PreparePlan {
    pub config_index: usize,
    pub toolchain_index: usize,
}

pub open spec fn spec_is_first_config(s: Seq<KernelConfig>, name: Seq<char>, i: int) -> bool {
    &&& 0 <= i < s.len()
    &&& s[i].name@ == name
    &&& forall|j: int| 0 <= j < i ==> s[j].name@ != name
}

pub open spec fn spec_device_ok(c: KernelConfig, device: Seq<char>) -> bool {
    exists|i: int| 0 <= i < c.defconfig.devices@.len() && c.defconfig.devices@[i]@ == device
}

pub open spec fn spec_fragment_ok(c: KernelConfig, name: Seq<char>) -> bool {
    exists|i: int| 0 <= i < c.fragments@.len() && c.fragments@[i].name@ == name
}

pub open spec fn spec_fragments_ok(c: KernelConfig, names: Seq<Seq<char>>) -> bool {
    forall|i: int| 0 <= i < names.len() ==> spec_fragment_ok(c, names[i])
}

pub open spec fn spec_toolchain_ok(cat: Seq<Toolchain>, c: KernelConfig) -> bool {
    exists|i: int| 0 <= i < cat.len() && spec_toolchain_candidate(cat[i], c.toolchains.clang, c.arch)
}

pub open spec fn spec_is_first_candidate(
    cat: Seq<Toolchain>,
    c: KernelConfig,
    i: int,
) -> bool {
    &&& 0 <= i < cat.len()
    &&& spec_toolchain_candidate(cat[i], c.toolchains.clang, c.arch)
    &&& forall|j: int| 0 <= j < i ==> !spec_toolchain_candidate(cat[j], c.toolchains.clang, c.arch)
}

/// Whether a whole prepare request is valid: its configuration exists and,
/// for the first configuration bearing the name, the device is allowed,
/// every fragment is declared, and a toolchain can serve it.
pub open spec fn spec_prepare_valid(
    configs: Seq<KernelConfig>,
    cat: Seq<Toolchain>,
    name: Seq<char>,
    device: Seq<char>,
    fragments: Seq<Seq<char>>,
) -> bool {
    exists|ci: int|
        {
            &&& spec_is_first_config(configs, name, ci)
            &&& spec_device_ok(configs[ci], device)
            &&& spec_fragments_ok(configs[ci], fragments)
            &&& spec_toolchain_ok(cat, configs[ci])
        }
}

/// The first configuration bearing the name, in registry order.
pub fn find_config(configs: &Vec<KernelConfig>, name: &String) -> (r: Option<usize>)
    ensures
        r matches Some(i) ==> spec_is_first_config(configs@, name@, i as int),
        r is None ==> !spec_has_name(configs@, name@),
{
    let n: usize = configs.len();
    let mut i: usize = 0;
    while i < n
        invariant
            0 <= i <= n,
            n == configs@.len(),
            forall|j: int| 0 <= j < i ==> configs@[j].name@ != name@,
        decreases n - i,
    {
        if configs[i].name == *name {
            return Some(i);
        }
        i += 1;
    }
    None
}

/// Validates a prepare request in the order the checks are specified:
/// configuration, device, fragments, toolchain. Succeeds exactly on the
/// valid requests, returning the chosen configuration and toolchain.
pub fn plan_prepare(
    configs: &Vec<KernelConfig>,
    catalog: &BuilderConfig,
    name: &String,
    device: &String,
    fragments: &Vec<String>,
) -> (r: Result<PreparePlan, PrepareError>)
    ensures
        r is Ok <==> spec_prepare_valid(
            configs@,
            catalog.toolchains@,
            name@,
            device@,
            fragments.deep_view(),
        ),
        !spec_has_name(configs@, name@) ==> (r matches Err(e) && e is ConfigNotFound),
        forall|ci: int|
            spec_is_first_config(configs@, name@, ci) ==> {
                let c = configs@[ci];
                &&& (!spec_device_ok(c, device@) ==> (r matches Err(e) && e is UnknownDevice))
                &&& (spec_device_ok(c, device@) && !spec_fragments_ok(c, fragments.deep_view())
                    ==> (r matches Err(e) && e matches PrepareError::UnknownFragment(f)
                    && !spec_fragment_ok(c, f@) && fragments.deep_view().contains(f@)))
                &&& (spec_device_ok(c, device@) && spec_fragments_ok(c, fragments.deep_view())
                    && !spec_toolchain_ok(catalog.toolchains@, c) ==> (r matches Err(e) && e
                    is NoSuitableToolchain))
                &&& (r matches Ok(p) ==> p.config_index == ci && spec_is_first_candidate(
                    catalog.toolchains@,
                    c,
                    p.toolchain_index as int,
                ))
            },
{
    let ci: usize = match find_config(configs, name) {
        Some(i) => i,
        None => {
            return Err(PrepareError::ConfigNotFound);
        },
    };
    let config = &configs[ci];
    proof {
        assert forall|cj: int| spec_is_first_config(configs@, name@, cj) implies cj
            == ci as int by {
            if cj < ci {
                assert(configs@[cj].name@ == name@);
            }
            if cj > ci {
                assert(configs@[ci as int].name@ == name@);
            }
        }
        assert(spec_is_first_config(configs@, name@, ci as int));
    }
    if !config.has_device(device) {
        return Err(PrepareError::UnknownDevice);
    }
    let nf: usize = fragments.len();
    let mut k: usize = 0;
    while k < nf
        invariant
            0 <= k <= nf,
            nf == fragments@.len(),
            ci < configs@.len(),
            spec_is_first_config(configs@, name@, ci as int),
            spec_device_ok(configs@[ci as int], device@),
            forall|cj: int| spec_is_first_config(configs@, name@, cj) ==> cj == ci as int,
            forall|j: int|
                0 <= j < k ==> spec_fragment_ok(configs@[ci as int], fragments.deep_view()[j]),
        decreases nf - k,
    {
        if matches!(configs[ci].find_fragment(&fragments[k]), None) {
            let bad = fragments[k].clone();
            proof {
                assert(fragments.deep_view()[k as int] == fragments@[k as int]@);
                assert(!spec_fragment_ok(configs@[ci as int], bad@));
                assert(fragments.deep_view().contains(bad@));
            }
            return Err(PrepareError::UnknownFragment(bad));
        }
        proof {
            assert(fragments.deep_view()[k as int] == fragments@[k as int]@);
        }
        k += 1;
    }
    let ti: usize = match catalog.select_toolchain(config.toolchains.clang, &config.arch) {
        Some(i) => i,
        None => {
            return Err(PrepareError::NoSuitableToolchain);
        },
    };
    proof {
        let c = configs@[ci as int];
        assert(spec_fragments_ok(c, fragments.deep_view()));
        assert(spec_toolchain_candidate(catalog.toolchains@[ti as int], c.toolchains.clang, c.arch));
        assert(spec_prepare_valid(configs@, catalog.toolchains@, name@, device@,
            fragments.deep_view()));
    }
    Ok(PreparePlan { config_index: ci, toolchain_index: ti })
}

/// The scheme of the first fragment bearing the name; empty when none
/// does.
pub open spec fn spec_first_fragment_scheme(fr: Seq<Fragment>, name: Seq<char>) -> Seq<char>
    decreases fr.len(),
{
    if fr.len() == 0 {
        Seq::empty()
    } else if fr[0].name@ == name {
        fr[0].scheme@
    } else {
        spec_first_fragment_scheme(fr.skip(1), name)
    }
}

proof fn lemma_first_fragment_scheme(fr: Seq<Fragment>, name: Seq<char>, i: int)
    requires
        0 <= i < fr.len(),
        fr[i].name@ == name,
        forall|j: int| 0 <= j < i ==> fr[j].name@ != name,
    ensures
        spec_first_fragment_scheme(fr, name) == fr[i].scheme@,
    decreases i,
{
    if i > 0 {
        assert(forall|j: int| 0 <= j < fr.skip(1).len() ==> fr.skip(1)[j] == fr[j + 1]);
        lemma_first_fragment_scheme(fr.skip(1), name, i - 1);
    }
}

/// The `make` arguments of the defconfig step: parallelism, the out
/// directory, the device's defconfig target, the toolchain's arguments,
/// the configuration's arguments, then each requested fragment's target.
pub open spec fn spec_defconfig_args(
    c: KernelConfig,
    t: Toolchain,
    device: Seq<char>,
    fragments: Seq<Seq<char>>,
    jobs: int,
) -> Seq<Seq<char>> {
    seq![("-j")@ + spec_u64_string(jobs), ("O=out")@, spec_replace(
        c.defconfig.scheme@,
        ("{device}")@,
        device,
    )] + spec_toolchain_build_args(t, c.arch) + spec_kernel_build_args(c) + Seq::new(
        fragments.len(),
        |i: int| spec_replace(spec_first_fragment_scheme(c.fragments@, fragments[i]), ("{device}")@, device),
    )
}

/// The `make` arguments of the build step: parallelism, the out
/// directory, the toolchain's arguments, then the configuration's
/// arguments.
pub open spec fn spec_build_args(c: KernelConfig, t: Toolchain, jobs: int) -> Seq<Seq<char>> {
    seq![("-j")@ + spec_u64_string(jobs), ("O=out")@] + spec_toolchain_build_args(t, c.arch)
        + spec_kernel_build_args(c)
}

fn push_all(dst: &mut Vec<String>, src: Vec<String>)
    ensures
        final(dst)@ == old(dst)@ + src@,
{
    let mut src = src;
    let n: usize = src.len();
    let mut i: usize = 0;
    let ghost s0 = src@;
    while i < n
        invariant
            0 <= i <= n,
            n == s0.len(),
            src@ == s0,
            dst@ == old(dst)@ + s0.take(i as int),
        decreases n - i,
    {
        let ghost pre = dst@;
        let item = src[i].clone();
        dst.push(item);
        proof {
            assert(s0.take(i + 1) =~= s0.take(i as int).push(s0[i as int]));
            assert(old(dst)@ + s0.take(i + 1) =~= pre.push(s0[i as int]));
        }
        i += 1;
    }
    proof {
        assert(s0.take(n as int) =~= s0);
    }
}

impl KernelConfig {
    /// Assembles the defconfig-step arguments for a validated request.
    pub fn defconfig_make_args(
        &self,
        toolchain: &Toolchain,
        device: &String,
        fragments: &Vec<String>,
        jobs: u64,
    ) -> (r: Vec<String>)
        requires
            spec_fragments_ok(*self, fragments.deep_view()),
        ensures
            r.deep_view() == spec_defconfig_args(
                *self,
                *toolchain,
                device@,
                fragments.deep_view(),
                jobs as int,
            ),
    {
        proof {
            reveal_strlit("{device}");
        }
        let mut args: Vec<String> = Vec::new();
        let mut jobs_arg = "-j".to_owned();
        jobs_arg.append(u64_to_string(jobs).as_str());
        args.push(jobs_arg);
        args.push("O=out".to_owned());
        args.push(self.defconfig_name(device.as_str()));
        let tc_args = toolchain.build_args(&self.arch);
        let ghost tcv = tc_args@;
        let ghost tcd = tc_args.deep_view();
        push_all(&mut args, tc_args);
        let cfg_args = self.build_args();
        let ghost cfgv = cfg_args@;
        let ghost cfgd = cfg_args.deep_view();
        push_all(&mut args, cfg_args);
        let ghost head = args@;
        let ghost head_len = args@.len();
        let nf: usize = fragments.len();
        let mut k: usize = 0;
        proof {
            assert(args@.take(head_len as int) =~= head);
        }
        while k < nf
            invariant
                0 <= k <= nf,
                nf == fragments@.len(),
                spec_fragments_ok(*self, fragments.deep_view()),
                args@.len() == head_len + k,
                head_len == head.len(),
                args@.take(head_len as int) == head,
                forall|j: int|
                    0 <= j < k ==> args@[head_len + j]@ == spec_replace(
                        spec_first_fragment_scheme(self.fragments@, fragments.deep_view()[j]),
                        ("{device}")@,
                        device@,
                    ),
            decreases nf - k,
        {
            proof {
                assert(fragments.deep_view()[k as int] == fragments@[k as int]@);
                assert(spec_fragment_ok(*self, fragments.deep_view()[k as int]));
            }
            let idx: usize = match self.find_fragment(&fragments[k]) {
                Some(i) => i,
                None => {
                    proof {
                        assert(false);
                    }
                    0
                },
            };
            proof {
                lemma_first_fragment_scheme(self.fragments@, fragments@[k as int]@, idx as int);
            }
            let ghost pre = args@;
            args.push(self.fragment_scheme(idx, device.as_str()));
            proof {
                assert(args@.take(head_len as int) =~= pre.take(head_len as int));
            }
            k += 1;
        }
        proof {
            let goal = spec_defconfig_args(
                *self,
                *toolchain,
                device@,
                fragments.deep_view(),
                jobs as int,
            );
            let frag_goal = Seq::new(
                fragments.deep_view().len(),
                |i: int| spec_replace(
                    spec_first_fragment_scheme(self.fragments@, fragments.deep_view()[i]),
                    ("{device}")@,
                    device@,
                ),
            );
            assert(head_len == 3 + tcv.len() + cfgv.len());
            assert(args.deep_view().len() == goal.len());
            assert forall|j: int| 0 <= j < goal.len() implies #[trigger] args.deep_view()[j]
                == goal[j] by {
                assert(args.deep_view()[j] == args@[j]@);
                if j < head_len {
                    assert(args@[j] == args@.take(head_len as int)[j]);
                    assert(args@[j] == head[j]);
                    if j < 3 {
                        assert(goal[j] == seq![("-j")@ + spec_u64_string(jobs as int), (
                        "O=out")@, spec_replace(self.defconfig.scheme@, ("{device}")@, device@)][j]);
                    } else if j < 3 + tcv.len() {
                        assert(head[j] == tcv[j - 3]);
                        assert(tcd[j - 3] == tcv[j - 3]@);
                        assert(goal[j] == spec_toolchain_build_args(*toolchain, self.arch)[j - 3]);
                    } else {
                        assert(head[j] == cfgv[j - 3 - tcv.len()]);
                        assert(cfgd[j - 3 - tcv.len()] == cfgv[j - 3 - tcv.len()]@);
                        assert(goal[j] == spec_kernel_build_args(*self)[j - 3 - tcv.len()]);
                    }
                } else {
                    assert(goal[j] == frag_goal[j - head_len]);
                }
            }
            assert(args.deep_view() =~= goal);
        }
        args
    }

    /// Assembles the build-step arguments.
    pub fn build_make_args(&self, toolchain: &Toolchain, jobs: u64) -> (r: Vec<String>)
        ensures
            r.deep_view() == spec_build_args(*self, *toolchain, jobs as int),
    {
        let mut args: Vec<String> = Vec::new();
        let mut jobs_arg = "-j".to_owned();
        jobs_arg.append(u64_to_string(jobs).as_str());
        args.push(jobs_arg);
        args.push("O=out".to_owned());
        push_all(&mut args, toolchain.build_args(&self.arch));
        push_all(&mut args, self.build_args());
        proof {
            let goal = spec_build_args(*self, *toolchain, jobs as int);
            assert forall|j: int| 0 <= j < goal.len() implies #[trigger] args.deep_view()[j]
                == goal[j] by {
                assert(args.deep_view()[j] == args@[j]@);
            }
            assert(args.deep_view() =~= goal);
        }
        args
    }
}

/// How the kernel source tree is reconciled against the configuration's
/// repository before a prepare.
#[derive(Debug, Clone, Copy, PartialEq, Eq, Structural)]
pub enum SourceAction {
    /// No repository in the work directory: clone the configured one.
    CloneFresh,
    /// A repository with another remote URL: check the configured branch
    /// out, then fast-forward.
    CheckoutThenFastForward,
    /// The configured repository is already there: fast-forward only.
    FastForwardOnly,
}

pub fn source_reconcile_action(open_ok: bool, url_matches: bool) -> (r: SourceAction)
    ensures
        r == if !open_ok {
            SourceAction::CloneFresh
        } else if !url_matches {
            SourceAction::CheckoutThenFastForward
        } else {
            SourceAction::FastForwardOnly
        },
{
    if !open_ok {
        SourceAction::CloneFresh
    } else if !url_matches {
        SourceAction::CheckoutThenFastForward
    } else {
        SourceAction::FastForwardOnly
    }
}

/// A configuration whose architecture is the wildcard can be served by a
/// toolchain of any architecture: the architecture check of the candidate
/// rule always passes for it.
pub proof fn lemma_any_arch_serves_all(t: Toolchain, c: KernelConfig)
    requires
        c.arch is Any,
    ensures
        arch_matches(t.arch, c.arch),
        t.compiler is Clang && c.toolchains.clang ==> spec_toolchain_candidate(
            t,
            c.toolchains.clang,
            c.arch,
        ),
{
}

} // verus!
