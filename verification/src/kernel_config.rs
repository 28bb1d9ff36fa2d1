//! Kernel build configurations: the shape of one configuration, which
//! architectures and devices it accepts, and the `make` arguments and
//! environment it contributes to a build.

use vstd::prelude::*;
use vstd::string::StringExecFns;

use crate::arch::{arch_matches, spec_arch_arg_name, arch_arg_name, Architecture};
use crate::strutil::{replace_all, spec_replace};

verus! {

#[derive(Debug, Clone)]
pub struct Repo {
    pub url: String,
    pub branch: String,
}

#[derive(Debug, Clone)]
pub struct AnyKernel {
    pub enabled: bool,
    /// Overlay directory inside the source tree.
    pub location: Option<String>,
}

#[derive(Debug, Clone)]
pub struct Defconfig {
    /// Defconfig target template; `{device}` is substituted.
    pub scheme: String,
    /// Devices this configuration may be built for.
    pub devices: Vec<String>,
}

#[derive(Debug, Clone)]
pub struct Fragment {
    pub name: String,
    /// Fragment target template; `{device}` is substituted.
    pub scheme: String,
    pub depends: Vec<String>,
    pub description: Option<String>,
    pub default_enabled: bool,
}

#[derive(Debug, Clone)]
pub struct EnvVar {
    pub name: String,
    pub value: String,
}

#[derive(Debug, Clone)]
pub struct LLVMSupport {
    pub clang: bool,
    pub llvm_binutils: bool,
    pub llvm_ias: bool,
}

#[derive(Debug, Clone)]
pub struct KernelConfig {
    /// Unique key within the registry.
    pub name: String,
    pub repo: Repo,
    pub arch: Architecture,
    /// File name of the kernel image the build is expected to produce.
    pub image_type: String,
    pub toolchains: LLVMSupport,
    pub anykernel: Option<AnyKernel>,
    pub defconfig: Defconfig,
    pub fragments: Vec<Fragment>,
    pub env: Vec<EnvVar>,
}

/// The compiler-selection arguments implied by a configuration's toolchain
/// switches.
pub open spec fn spec_llvm_args(l: LLVMSupport) -> Seq<Seq<char>> {
    if l.clang {
        if l.llvm_ias {
            seq![("LLVM=1")@, ("LLVM_IAS=1")@]
        } else if l.llvm_binutils {
            seq![
                ("CC=clang")@,
                ("LD=ld.lld")@,
                ("AR=llvm-ar")@,
                ("NM=llvm-nm")@,
                ("OBJCOPY=llvm-objcopy")@,
                ("OBJDUMP=llvm-objdump")@,
                ("STRIP=llvm-strip")@,
            ]
        } else {
            seq![("CC=clang")@]
        }
    } else {
        Seq::empty()
    }
}

/// All `make` arguments a configuration contributes: the architecture
/// first, then the compiler selection.
pub open spec fn spec_kernel_build_args(c: KernelConfig) -> Seq<Seq<char>> {
    seq![("ARCH=")@ + spec_arch_arg_name(c.arch)] + spec_llvm_args(c.toolchains)
}

/// The environment a kernel build runs under: the configuration's own
/// variables, then `PATH` with the toolchain's `bin` directory in front,
/// then the fixed build user and host names.
pub open spec fn spec_env_vars(c: KernelConfig, bin_dir: Seq<char>, inherited_path: Seq<char>)
    -> Seq<(Seq<char>, Seq<char>)> {
    Seq::new(c.env@.len(), |i: int| (c.env@[i].name@, c.env@[i].value@)) + seq![
        (("PATH")@, bin_dir + (":")@ + inherited_path),
        (("KBUILD_BUILD_USER")@, ("builder-rs")@),
        (("KBUILD_BUILD_HOST")@, ("builder-rs-host")@),
    ]
}

impl KernelConfig {
    /// Whether this configuration accepts the given architecture; its own
    /// architecture must equal it under the wildcard rule.
    pub fn supports_arch(&self, arch: &Architecture) -> (r: bool)
        ensures
            r == arch_matches(self.arch, *arch),
    {
        self.arch.matches(arch)
    }

    pub fn build_args(&self) -> (r: Vec<String>)
        ensures
            r.deep_view() == spec_kernel_build_args(*self),
    {
        let mut args: Vec<String> = Vec::new();
        let mut arch_arg = "ARCH=".to_owned();
        arch_arg.append(arch_arg_name(&self.arch));
        args.push(arch_arg);
        if self.toolchains.clang {
            if self.toolchains.llvm_ias {
                args.push("LLVM=1".to_owned());
                args.push("LLVM_IAS=1".to_owned());
            } else if self.toolchains.llvm_binutils {
                args.push("CC=clang".to_owned());
                args.push("LD=ld.lld".to_owned());
                args.push("AR=llvm-ar".to_owned());
                args.push("NM=llvm-nm".to_owned());
                args.push("OBJCOPY=llvm-objcopy".to_owned());
                args.push("OBJDUMP=llvm-objdump".to_owned());
                args.push("STRIP=llvm-strip".to_owned());
            } else {
                args.push("CC=clang".to_owned());
            }
        }
        assert(args.deep_view() =~= spec_kernel_build_args(*self));
        args
    }

    pub fn env_vars(&self, toolchain_bin_dir: &str, inherited_path: &str) -> (r: Vec<
        (String, String),
    >)
        ensures
            r.deep_view() == spec_env_vars(*self, toolchain_bin_dir@, inherited_path@),
    {
        let mut r: Vec<(String, String)> = Vec::new();
        let n: usize = self.env.len();
        let mut i: usize = 0;
        while i < n
            invariant
                0 <= i <= n,
                n == self.env@.len(),
                r@.len() == i,
                forall|j: int|
                    0 <= j < i ==> r@[j].0@ == self.env@[j].name@ && r@[j].1@
                        == self.env@[j].value@,
            decreases n - i,
        {
            let e = &self.env[i];
            r.push((e.name.clone(), e.value.clone()));
            i += 1;
        }
        let mut path_val = toolchain_bin_dir.to_owned();
        path_val.append(":");
        path_val.append(inherited_path);
        r.push(("PATH".to_owned(), path_val));
        r.push(("KBUILD_BUILD_USER".to_owned(), "builder-rs".to_owned()));
        r.push(("KBUILD_BUILD_HOST".to_owned(), "builder-rs-host".to_owned()));
        proof {
            let goal = spec_env_vars(*self, toolchain_bin_dir@, inherited_path@);
            assert(r@.len() == goal.len());
            assert forall|j: int| 0 <= j < r@.len() implies #[trigger] r.deep_view()[j]
                == goal[j] by {
                assert(r.deep_view()[j] == r@[j].deep_view());
                if j < n {
                    assert(r@[j].0@ == self.env@[j].name@ && r@[j].1@ == self.env@[j].value@);
                    assert(goal[j] == (self.env@[j].name@, self.env@[j].value@));
                } else {
                    assert(goal[j] == seq![
                        (("PATH")@, toolchain_bin_dir@ + (":")@ + inherited_path@),
                        (("KBUILD_BUILD_USER")@, ("builder-rs")@),
                        (("KBUILD_BUILD_HOST")@, ("builder-rs-host")@),
                    ][j - n]);
                }
            }
            assert(r.deep_view() =~= goal);
        }
        r
    }

    /// Whether `device` is in the configuration's device allowlist.
    pub fn has_device(&self, device: &String) -> (r: bool)
        ensures
            r == exists|i: int|
                0 <= i < self.defconfig.devices@.len() && self.defconfig.devices@[i]@ == device@,
    {
        let n: usize = self.defconfig.devices.len();
        let mut i: usize = 0;
        while i < n
            invariant
                0 <= i <= n,
                n == self.defconfig.devices@.len(),
                forall|j: int| 0 <= j < i ==> self.defconfig.devices@[j]@ != device@,
            decreases n - i,
        {
            if self.defconfig.devices[i] == *device {
                return true;
            }
            i += 1;
        }
        false
    }

    /// The first declared fragment with the given name, in declaration
    /// order.
    pub fn find_fragment(&self, name: &String) -> (r: Option<usize>)
        ensures
            r matches Some(i) ==> 0 <= i < self.fragments@.len() && self.fragments@[i as int].name@
                == name@ && (forall|j: int| 0 <= j < i ==> self.fragments@[j].name@ != name@),
            r is None ==> forall|j: int|
                0 <= j < self.fragments@.len() ==> self.fragments@[j].name@ != name@,
    {
        let n: usize = self.fragments.len();
        let mut i: usize = 0;
        while i < n
            invariant
                0 <= i <= n,
                n == self.fragments@.len(),
                forall|j: int| 0 <= j < i ==> self.fragments@[j].name@ != name@,
            decreases n - i,
        {
            if self.fragments[i].name == *name {
                return Some(i);
            }
            i += 1;
        }
        None
    }

    /// The overlay directory a finished image is packaged through, when
    /// the configuration asks for packaging: the overlay must be enabled
    /// and carry a location.
    pub fn anykernel_overlay(&self) -> (r: Option<&String>)
        ensures
            r matches Some(l) ==> (self.anykernel matches Some(a) && a.enabled && a.location
                == Some(*l)),
            r is None ==> !(self.anykernel matches Some(a) && a.enabled && a.location is Some),
    {
        match &self.anykernel {
            Some(a) => {
                if a.enabled {
                    match &a.location {
                        Some(l) => Some(l),
                        None => None,
                    }
                } else {
                    None
                }
            },
            None => None,
        }
    }

    /// The defconfig `make` target for a device: the scheme with every
    /// `{device}` replaced by the device name.
    pub fn defconfig_name(&self, device: &str) -> (r: String)
        ensures
            r@ == spec_replace(self.defconfig.scheme@, ("{device}")@, device@),
    {
        proof {
            reveal_strlit("{device}");
        }
        replace_all(self.defconfig.scheme.as_str(), "{device}", device)
    }

    /// A fragment's `make` target for a device, by fragment index.
    pub fn fragment_scheme(&self, idx: usize, device: &str) -> (r: String)
        requires
            idx < self.fragments@.len(),
        ensures
            r@ == spec_replace(self.fragments@[idx as int].scheme@, ("{device}")@, device@),
    {
        proof {
            reveal_strlit("{device}");
        }
        replace_all(self.fragments[idx].scheme.as_str(), "{device}", device)
    }
}

} // verus!
