//! Compiler, architecture and toolchain-source enumerations.
//!
//! Architecture equality is a wildcard relation: `Any` compares equal to
//! every architecture; two concrete architectures compare equal exactly
//! when they are the same.

use vstd::prelude::*;

verus! {

#[derive(Debug, Clone, Copy, PartialEq, Eq, Structural)]
pub enum CompilerType {
    GCC,
    Clang,
}

#[derive(Debug, Clone, Copy, PartialEq, Eq, Structural)]
pub enum Source {
    Git,
    Tarball,
}

#[derive(Debug, Clone, Copy)]
pub enum Architecture {
    Any,
    ARM,
    ARM64,
    X86,
    X86_64,
}

/// The wildcard equality on architectures.
pub open spec fn arch_matches(a: Architecture, b: Architecture) -> bool {
    ||| a is Any
    ||| b is Any
    ||| (a is ARM && b is ARM)
    ||| (a is ARM64 && b is ARM64)
    ||| (a is X86 && b is X86)
    ||| (a is X86_64 && b is X86_64)
}

impl PartialEq for Architecture {
    fn eq(&self, other: &Self) -> (r: bool) {
        match (self, other) {
            (Architecture::Any, _) => true,
            (_, Architecture::Any) => true,
            (Architecture::ARM, Architecture::ARM) => true,
            (Architecture::ARM64, Architecture::ARM64) => true,
            (Architecture::X86, Architecture::X86) => true,
            (Architecture::X86_64, Architecture::X86_64) => true,
            _ => false,
        }
    }
}

impl vstd::std_specs::cmp::PartialEqSpecImpl for Architecture {
    open spec fn obeys_eq_spec() -> bool {
        true
    }

    open spec fn eq_spec(&self, other: &Architecture) -> bool {
        arch_matches(*self, *other)
    }
}

impl Architecture {
    /// Whether this architecture equals `other` under the wildcard rule.
    pub fn matches(&self, other: &Architecture) -> (r: bool)
        ensures
            r == arch_matches(*self, *other),
    {
        *self == *other
    }
}

/// The name an architecture carries in `make` arguments; empty for `Any`.
pub open spec fn spec_arch_arg_name(a: Architecture) -> Seq<char> {
    match a {
        Architecture::Any => Seq::empty(),
        Architecture::ARM => ("arm")@,
        Architecture::ARM64 => ("arm64")@,
        Architecture::X86 => ("x86")@,
        Architecture::X86_64 => ("x86_64")@,
    }
}

pub fn arch_arg_name(a: &Architecture) -> (r: &'static str)
    ensures
        r@ == spec_arch_arg_name(*a),
{
    proof {
        reveal_strlit("");
    }
    match a {
        Architecture::Any => {
            let r: &'static str = "";
            assert(r@ =~= Seq::<char>::empty());
            r
        },
        Architecture::ARM => "arm",
        Architecture::ARM64 => "arm64",
        Architecture::X86 => "x86",
        Architecture::X86_64 => "x86_64",
    }
}

/// The directory name of an architecture inside a kernel tree; `Any` is
/// written out.
pub open spec fn spec_arch_dir_name(a: Architecture) -> Seq<char> {
    match a {
        Architecture::Any => ("any")@,
        Architecture::ARM => ("arm")@,
        Architecture::ARM64 => ("arm64")@,
        Architecture::X86 => ("x86")@,
        Architecture::X86_64 => ("x86_64")@,
    }
}

pub fn arch_dir_name(a: &Architecture) -> (r: &'static str)
    ensures
        r@ == spec_arch_dir_name(*a),
{
    match a {
        Architecture::Any => "any",
        Architecture::ARM => "arm",
        Architecture::ARM64 => "arm64",
        Architecture::X86 => "x86",
        Architecture::X86_64 => "x86_64",
    }
}

/// The default cross-compile prefix for an architecture; empty for `Any`.
pub open spec fn spec_cross_compile_default(a: Architecture) -> Seq<char> {
    match a {
        Architecture::Any => Seq::empty(),
        Architecture::ARM => ("arm-linux-gnueabi-")@,
        Architecture::ARM64 => ("aarch64-linux-gnu-")@,
        Architecture::X86 => ("x86_64-linux-gnu-")@,
        Architecture::X86_64 => ("x86_64-linux-gnu-")@,
    }
}

pub fn cross_compile_default(a: &Architecture) -> (r: &'static str)
    ensures
        r@ == spec_cross_compile_default(*a),
{
    proof {
        reveal_strlit("");
    }
    match a {
        Architecture::Any => {
            let r: &'static str = "";
            assert(r@ =~= Seq::<char>::empty());
            r
        },
        Architecture::ARM => "arm-linux-gnueabi-",
        Architecture::ARM64 => "aarch64-linux-gnu-",
        Architecture::X86 => "x86_64-linux-gnu-",
        Architecture::X86_64 => "x86_64-linux-gnu-",
    }
}

/// Architecture equality law: `Any` equals every architecture on either
/// side; between two concrete architectures, equality holds exactly when
/// they bear the same name.
pub proof fn lemma_arch_equality(a: Architecture, b: Architecture)
    ensures
        arch_matches(Architecture::Any, b),
        arch_matches(a, Architecture::Any),
        !(a is Any) && !(b is Any) ==> (arch_matches(a, b) <==> a == b),
{
}

} // verus!
