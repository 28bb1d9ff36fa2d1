//! The toolchain catalog: which compilers are available, how one is chosen
//! for a build, and the arguments and names it contributes.

use vstd::prelude::*;
use vstd::string::StringExecFns;

use crate::arch::{arch_matches, cross_compile_default, spec_cross_compile_default, Architecture,
    CompilerType, Source};

verus! {

#[derive(Debug, Clone)]
pub struct Toolchain {
    pub compiler: CompilerType,
    /// Compiler version in tenths, so that fractional releases stay exact
    /// (49 stands for 4.9).
    pub compiler_version: u32,
    /// Optional target triple, used as the GCC binary prefix.
    pub compiler_triple: Option<String>,
    /// Unique name; also the install directory under the output root.
    pub name: String,
    pub arch: Architecture,
    pub source_type: Source,
    pub url: String,
    /// Branch to clone, for git sources.
    pub branch: Option<String>,
}

#[derive(Debug, Clone)]
pub struct BuilderConfig {
    pub toolchains: Vec<Toolchain>,
}

/// Name of the compiler executable inside the toolchain's `bin` directory.
pub open spec fn spec_exe_name(t: Toolchain) -> Seq<char> {
    match t.compiler {
        CompilerType::GCC => (match t.compiler_triple {
            Some(tr) => tr@,
            None => Seq::empty(),
        }) + ("-gcc")@,
        CompilerType::Clang => ("clang")@,
    }
}

/// The `CROSS_COMPILE` argument a toolchain contributes: its own triple
/// with a dash, or the per-architecture default, or nothing.
pub open spec fn spec_toolchain_build_args(t: Toolchain, arch: Architecture) -> Seq<Seq<char>> {
    match t.compiler_triple {
        Some(tr) => seq![("CROSS_COMPILE=")@ + tr@ + ("-")@],
        None => if spec_cross_compile_default(arch).len() > 0 {
            seq![("CROSS_COMPILE=")@ + spec_cross_compile_default(arch)]
        } else {
            Seq::empty()
        },
    }
}

/// Whether a catalog entry can serve a build that wants (or refuses) clang
/// on the given architecture: refusing clang selects old GCC (4.9 or
/// below); wanting clang selects any clang entry.
pub open spec fn spec_toolchain_candidate(t: Toolchain, wants_clang: bool, arch: Architecture)
    -> bool {
    if wants_clang {
        t.compiler is Clang && arch_matches(t.arch, arch)
    } else {
        t.compiler is GCC && t.compiler_version <= 49 && arch_matches(t.arch, arch)
    }
}

impl Toolchain {
    pub fn exe_name(&self) -> (r: String)
        ensures
            r@ == spec_exe_name(*self),
    {
        match self.compiler {
            CompilerType::GCC => {
                let mut s: String = match &self.compiler_triple {
                    Some(tr) => tr.clone(),
                    None => String::new(),
                };
                s.append("-gcc");
                s
            },
            CompilerType::Clang => {
                let r = "clang".to_owned();
                r
            },
        }
    }

    pub fn build_args(&self, arch: &Architecture) -> (r: Vec<String>)
        ensures
            r.deep_view() == spec_toolchain_build_args(*self, *arch),
    {
        let mut args: Vec<String> = Vec::new();
        match &self.compiler_triple {
            Some(tr) => {
                let mut s = "CROSS_COMPILE=".to_owned();
                s.append(tr.as_str());
                s.append("-");
                args.push(s);
                assert(args.deep_view() =~= spec_toolchain_build_args(*self, *arch));
            },
            None => {
                let def: &str = cross_compile_default(arch);
                if def.unicode_len() > 0 {
                    let mut s = "CROSS_COMPILE=".to_owned();
                    s.append(def);
                    args.push(s);
                }
                assert(args.deep_view() =~= spec_toolchain_build_args(*self, *arch));
            },
        }
        args
    }
}

impl BuilderConfig {
    /// The first catalog entry able to serve the request, searching in
    /// catalog order.
    pub fn select_toolchain(&self, wants_clang: bool, arch: &Architecture) -> (r: Option<usize>)
        ensures
            r matches Some(i) ==> 0 <= i < self.toolchains@.len()
                && spec_toolchain_candidate(self.toolchains@[i as int], wants_clang, *arch)
                && (forall|j: int|
                0 <= j < i ==> !spec_toolchain_candidate(self.toolchains@[j], wants_clang, *arch)),
            r is None ==> forall|j: int|
                0 <= j < self.toolchains@.len() ==> !spec_toolchain_candidate(
                    self.toolchains@[j],
                    wants_clang,
                    *arch,
                ),
    {
        let n: usize = self.toolchains.len();
        let mut i: usize = 0;
        while i < n
            invariant
                0 <= i <= n,
                n == self.toolchains@.len(),
                forall|j: int|
                    0 <= j < i ==> !spec_toolchain_candidate(
                        self.toolchains@[j],
                        wants_clang,
                        *arch,
                    ),
            decreases n - i,
        {
            let t = &self.toolchains[i];
            let ok: bool = if wants_clang {
                matches!(t.compiler, CompilerType::Clang) && t.arch.matches(arch)
            } else {
                matches!(t.compiler, CompilerType::GCC) && t.compiler_version <= 49
                    && t.arch.matches(arch)
            };
            if ok {
                return Some(i);
            }
            i += 1;
        }
        None
    }
}

/// The catalog entries whose architecture equals the given one under the
/// wildcard rule, in catalog order.
pub open spec fn spec_arch_filter(s: Seq<Toolchain>, arch: Architecture) -> Seq<Toolchain>
    decreases s.len(),
{
    if s.len() == 0 {
        Seq::empty()
    } else if arch_matches(s[0].arch, arch) {
        seq![s[0]] + spec_arch_filter(s.skip(1), arch)
    } else {
        spec_arch_filter(s.skip(1), arch)
    }
}

impl BuilderConfig {
    /// All catalog entries serving an architecture, in catalog order.
    pub fn get_toolchains_for_arch(&self, arch: &Architecture) -> (r: Vec<&Toolchain>)
        ensures
            r@.len() == spec_arch_filter(self.toolchains@, *arch).len(),
            forall|i: int|
                0 <= i < r@.len() ==> *r@[i] == spec_arch_filter(self.toolchains@, *arch)[i],
    {
        let ghost full = spec_arch_filter(self.toolchains@, *arch);
        let n: usize = self.toolchains.len();
        let mut r: Vec<&Toolchain> = Vec::new();
        let mut i: usize = 0;
        proof {
            assert(self.toolchains@.skip(0) =~= self.toolchains@);
        }
        while i < n
            invariant
                0 <= i <= n,
                n == self.toolchains@.len(),
                full == spec_arch_filter(self.toolchains@, *arch),
                full.len() == r@.len() + spec_arch_filter(
                    self.toolchains@.skip(i as int),
                    *arch,
                ).len(),
                forall|j: int| 0 <= j < r@.len() ==> *r@[j] == full[j],
                full.skip(r@.len() as int) == spec_arch_filter(
                    self.toolchains@.skip(i as int),
                    *arch,
                ),
            decreases n - i,
        {
            let ghost tail = self.toolchains@.skip(i as int);
            proof {
                assert(tail[0] == self.toolchains@[i as int]);
                assert(tail.skip(1) =~= self.toolchains@.skip(i + 1));
            }
            if self.toolchains[i].arch.matches(arch) {
                proof {
                    assert(spec_arch_filter(tail, *arch) == seq![tail[0]] + spec_arch_filter(
                        tail.skip(1),
                        *arch,
                    ));
                    assert(full.skip(r@.len() as int)[0] == tail[0]);
                    assert(full[r@.len() as int] == tail[0]);
                    let k: int = r@.len() as int;
                    assert forall|j: int|
                        0 <= j < spec_arch_filter(tail.skip(1), *arch).len() implies full.skip(
                        k + 1,
                    )[j] == spec_arch_filter(tail.skip(1), *arch)[j] by {
                        assert(full.skip(k + 1)[j] == full[k + 1 + j]);
                        assert(full.skip(k)[1 + j] == full[k + 1 + j]);
                        assert(full.skip(k)[1 + j] == (seq![tail[0]] + spec_arch_filter(
                            tail.skip(1),
                            *arch,
                        ))[1 + j]);
                    }
                    assert(full.skip(k + 1) =~= spec_arch_filter(tail.skip(1), *arch));
                }
                r.push(&self.toolchains[i]);
            } else {
                proof {
                    assert(spec_arch_filter(tail, *arch) == spec_arch_filter(
                        tail.skip(1),
                        *arch,
                    ));
                }
            }
            i += 1;
        }
        proof {
            assert(self.toolchains@.skip(n as int) =~= Seq::<Toolchain>::empty());
        }
        r
    }
}

/// The file name a downloaded toolchain tarball is stored under.
pub fn tarball_file_name(name: &str) -> (r: String)
    ensures
        r@ == name@ + (".tar.gz")@,
{
    let mut s = name.to_owned();
    s.append(".tar.gz");
    s
}

/// Detect-then-install rule: an install happens only when the version
/// probe printed nothing.
pub open spec fn spec_install_needed(probe: Option<Seq<char>>) -> bool {
    probe is None
}

pub fn toolchain_install_needed(probe: &Option<String>) -> (r: bool)
    ensures
        r == spec_install_needed(probe.deep_view()),
{
    matches!(probe, None)
}

/// Provision idempotence law: once the version probe of an installed
/// toolchain prints a line, whatever it prints, the detect-then-install
/// rule skips the install, so a repeated prepare never installs again.
pub proof fn lemma_provision_idempotent(out: Seq<char>)
    ensures
        !spec_install_needed(Some(out)),
{
}

} // verus!
