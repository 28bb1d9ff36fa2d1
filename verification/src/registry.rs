//! In-memory registry of kernel configurations, with the add, update,
//! list and delete operations, and the laws that relate them.
//!
//! Duplicate names are allowed on add; lookups find the first match in
//! list order; delete removes every entry bearing the name.

use vstd::prelude::*;
use vstd::seq_lib::lemma_multiset_commutative;

use crate::kernel_config::KernelConfig;

verus! {

pub struct ConfigRegistry {
    pub configs: Vec<KernelConfig>,
}

#[derive(Debug, Clone, Copy, PartialEq, Eq, Structural)]
pub enum RegistryError {
    NotFound,
}

pub open spec fn spec_has_name(s: Seq<KernelConfig>, name: Seq<char>) -> bool {
    exists|i: int| 0 <= i < s.len() && s[i].name@ == name
}

/// The sequence with every entry bearing `name` removed, in order.
pub open spec fn spec_remove_name(s: Seq<KernelConfig>, name: Seq<char>) -> Seq<KernelConfig>
    decreases s.len(),
{
    if s.len() == 0 {
        s
    } else if s[0].name@ == name {
        spec_remove_name(s.skip(1), name)
    } else {
        seq![s[0]] + spec_remove_name(s.skip(1), name)
    }
}

proof fn lemma_remove_name_nomatch(s: Seq<KernelConfig>, name: Seq<char>)
    requires
        forall|j: int| 0 <= j < s.len() ==> s[j].name@ != name,
    ensures
        spec_remove_name(s, name) == s,
    decreases s.len(),
{
    if s.len() > 0 {
        assert(forall|j: int| 0 <= j < s.skip(1).len() ==> s.skip(1)[j] == s[j + 1]);
        lemma_remove_name_nomatch(s.skip(1), name);
        assert(seq![s[0]] + s.skip(1) =~= s);
    }
}

proof fn lemma_remove_name_len(s: Seq<KernelConfig>, name: Seq<char>)
    ensures
        spec_remove_name(s, name).len() <= s.len(),
        (spec_remove_name(s, name).len() < s.len()) <==> spec_has_name(s, name),
    decreases s.len(),
{
    if s.len() > 0 {
        lemma_remove_name_len(s.skip(1), name);
        if spec_has_name(s.skip(1), name) {
            let i = choose|i: int|
                0 <= i < s.skip(1).len() && s.skip(1)[i].name@ == name;
            assert(s[i + 1].name@ == name);
        }
        if s[0].name@ != name && spec_has_name(s, name) {
            let i = choose|i: int| 0 <= i < s.len() && s[i].name@ == name;
            assert(s.skip(1)[i - 1].name@ == name);
        }
        if s[0].name@ == name {
            assert(spec_has_name(s, name));
        }
    }
}

proof fn lemma_remove_name_push(s: Seq<KernelConfig>, x: KernelConfig, name: Seq<char>)
    ensures
        spec_remove_name(s.push(x), name) == if x.name@ == name {
            spec_remove_name(s, name)
        } else {
            spec_remove_name(s, name).push(x)
        },
    decreases s.len(),
{
    if s.len() == 0 {
        assert(s =~= Seq::<KernelConfig>::empty());
        assert(s.push(x)[0] == x);
        assert(s.push(x).skip(1) =~= Seq::<KernelConfig>::empty());
        if x.name@ != name {
            assert(seq![x] + Seq::<KernelConfig>::empty() =~= spec_remove_name(
                s,
                name,
            ).push(x));
        }
    } else {
        assert(s.push(x)[0] == s[0]);
        assert(s.push(x).skip(1) =~= s.skip(1).push(x));
        lemma_remove_name_push(s.skip(1), x, name);
        if s[0].name@ != name && x.name@ != name {
            assert(seq![s[0]] + spec_remove_name(s.skip(1), name).push(x) =~= (seq![s[0]]
                + spec_remove_name(s.skip(1), name)).push(x));
        }
    }
}

/// With a single entry bearing the name at index `i0`, removal keeps
/// everything around that entry.
proof fn lemma_remove_name_single(s: Seq<KernelConfig>, name: Seq<char>, i0: int)
    requires
        0 <= i0 < s.len(),
        s[i0].name@ == name,
        forall|j: int| 0 <= j < s.len() && j != i0 ==> s[j].name@ != name,
    ensures
        spec_remove_name(s, name) == s.take(i0) + s.skip(i0 + 1),
    decreases s.len(),
{
    if i0 == 0 {
        assert(forall|j: int|
            0 <= j < s.skip(1).len() ==> s.skip(1)[j] == s[j + 1]);
        lemma_remove_name_nomatch(s.skip(1), name);
        assert(s.take(0) + s.skip(1) =~= s.skip(1));
    } else {
        assert(forall|j: int|
            0 <= j < s.skip(1).len() ==> s.skip(1)[j] == s[j + 1]);
        lemma_remove_name_single(s.skip(1), name, i0 - 1);
        assert(seq![s[0]] + (s.skip(1).take(i0 - 1) + s.skip(1).skip(i0)) =~= s.take(i0) + s.skip(
            i0 + 1,
        ));
    }
}

impl ConfigRegistry {
    pub fn new() -> (r: ConfigRegistry)
        ensures
            r.configs@ == Seq::<KernelConfig>::empty(),
    {
        ConfigRegistry { configs: Vec::new() }
    }

    /// Starts the registry from configurations loaded elsewhere.
    pub fn with_configs(configs: Vec<KernelConfig>) -> (r: ConfigRegistry)
        ensures
            r.configs@ == configs@,
    {
        ConfigRegistry { configs }
    }

    /// Appends a configuration; duplicate names are allowed here.
    pub fn add_config(&mut self, c: KernelConfig)
        ensures
            final(self).configs@ == old(self).configs@.push(c),
    {
        self.configs.push(c);
    }

    /// The current snapshot, in insertion order.
    pub fn list_configs(&self) -> (r: &Vec<KernelConfig>)
        ensures
            r@ == self.configs@,
    {
        &self.configs
    }

    /// Replaces the first entry bearing the new configuration's name, or
    /// reports that none exists.
    pub fn update_config(&mut self, c: KernelConfig) -> (r: Result<(), RegistryError>)
        ensures
            r is Ok <==> spec_has_name(old(self).configs@, c.name@),
            r is Err ==> final(self).configs@ == old(self).configs@,
            r is Ok ==> exists|i: int|
                {
                    &&& 0 <= i < old(self).configs@.len()
                    &&& old(self).configs@[i].name@ == c.name@
                    &&& (forall|j: int| 0 <= j < i ==> old(self).configs@[j].name@ != c.name@)
                    &&& final(self).configs@ == old(self).configs@.update(i, c)
                },
    {
        let n: usize = self.configs.len();
        let mut i: usize = 0;
        while i < n
            invariant
                0 <= i <= n,
                n == self.configs@.len(),
                self.configs@ == old(self).configs@,
                forall|j: int| 0 <= j < i ==> self.configs@[j].name@ != c.name@,
            decreases n - i,
        {
            if self.configs[i].name == c.name {
                let ghost pre = self.configs@;
                let ghost idx = i as int;
                vstd::pervasive::VecAdditionalExecFns::set(&mut self.configs, i, c);
                proof {
                    assert(self.configs@ == pre.update(idx, c));
                    assert(pre[idx].name@ == c.name@);
                    assert(spec_has_name(pre, c.name@));
                    assert((0 <= idx < pre.len() && pre[idx].name@ == c.name@ && (forall|j: int|
                        0 <= j < idx ==> pre[j].name@ != c.name@) && self.configs@ == pre.update(
                        idx,
                        c,
                    )));
                }
                return Ok(());
            }
            i += 1;
        }
        Err(RegistryError::NotFound)
    }

    /// Removes every entry bearing the name, or reports that none exists.
    pub fn delete_config(&mut self, name: &String) -> (r: Result<(), RegistryError>)
        ensures
            final(self).configs@ == spec_remove_name(old(self).configs@, name@),
            r is Ok <==> spec_has_name(old(self).configs@, name@),
            r is Err ==> final(self).configs@ == old(self).configs@,
    {
        let ghost orig = self.configs@;
        let before_len: usize = self.configs.len();
        let mut i: usize = 0;
        let ghost mut k: int = 0;
        proof {
            assert(orig.take(0) =~= Seq::<KernelConfig>::empty());
            assert(orig.skip(0) =~= orig);
            assert(spec_remove_name(orig.take(0), name@) + orig.skip(0) =~= orig);
        }
        while i < self.configs.len()
            invariant
                0 <= k <= orig.len(),
                i == spec_remove_name(orig.take(k), name@).len(),
                self.configs@ == spec_remove_name(orig.take(k), name@) + orig.skip(k),
                before_len == orig.len(),
            decreases orig.len() - k,
        {
            proof {
                assert(k < orig.len());
                assert(self.configs@[i as int] == orig.skip(k)[0]);
                assert(orig.skip(k)[0] == orig[k]);
                assert(orig.take(k + 1) =~= orig.take(k).push(orig[k]));
                lemma_remove_name_push(orig.take(k), orig[k], name@);
            }
            if self.configs[i].name == *name {
                self.configs.remove(i);
                proof {
                    assert(self.configs@ =~= spec_remove_name(orig.take(k + 1), name@)
                        + orig.skip(k + 1));
                    k = k + 1;
                }
            } else {
                proof {
                    assert(self.configs@ =~= spec_remove_name(orig.take(k + 1), name@)
                        + orig.skip(k + 1));
                    k = k + 1;
                }
                i += 1;
            }
        }
        proof {
            assert(self.configs@.len() == i + (orig.len() - k));
            assert(k == orig.len());
            assert(orig.take(k) =~= orig);
            assert(orig.skip(k) =~= Seq::<KernelConfig>::empty());
            assert(self.configs@ =~= spec_remove_name(orig, name@));
            lemma_remove_name_len(orig, name@);
            if !spec_has_name(orig, name@) {
                lemma_remove_name_nomatch(orig, name@);
            }
        }
        if self.configs.len() < before_len {
            Ok(())
        } else {
            Err(RegistryError::NotFound)
        }
    }
}

/// Round-trip law: after adding a configuration, the listed snapshot
/// contains it, as its last entry.
pub proof fn lemma_add_then_list_contains(s: Seq<KernelConfig>, c: KernelConfig)
    ensures
        s.push(c).contains(c),
        s.push(c).last() == c,
{
    assert(s.push(c)[s.len() as int] == c);
}

/// Update-equals-delete-then-add law: when exactly one entry bears the
/// configuration's name, replacing that entry holds the same multiset of
/// configurations as deleting the name and appending the configuration;
/// only the position of the new entry differs.
pub proof fn lemma_update_is_delete_then_add(s: Seq<KernelConfig>, c: KernelConfig, i0: int)
    requires
        0 <= i0 < s.len(),
        s[i0].name@ == c.name@,
        forall|j: int| 0 <= j < s.len() && j != i0 ==> s[j].name@ != c.name@,
    ensures
        s.update(i0, c).to_multiset() == spec_remove_name(s, c.name@).push(c).to_multiset(),
{
    broadcast use vstd::multiset::group_multiset_axioms;

    let a = s.take(i0);
    let b = s.skip(i0 + 1);
    lemma_remove_name_single(s, c.name@, i0);
    assert(s.update(i0, c) =~= a + seq![c] + b);
    assert(spec_remove_name(s, c.name@).push(c) =~= a + b + seq![c]);
    lemma_multiset_commutative(a + seq![c], b);
    lemma_multiset_commutative(a, seq![c]);
    lemma_multiset_commutative(a + b, seq![c]);
    lemma_multiset_commutative(a, b);
    assert((a + seq![c] + b).to_multiset() =~= (a + b + seq![c]).to_multiset());
}

} // verus!
