//! Per-build job state for kernel builds: id allocation, status records,
//! build contexts, artifact recording and cancellation.
//!
//! Ids are allocated monotonically and never reused; every allocated id
//! has exactly one status record; `finished` only ever goes from false to
//! true; a finished and succeeded build always has an artifact recorded.

use vstd::prelude::*;

use crate::kernel_config::KernelConfig;
use crate::toolchain::Toolchain;

verus! {

#[derive(Debug, Clone, Copy)]
pub struct PerBuildIdStatus {
    pub build_id: u64,
    pub finished: bool,
    pub succeeded: bool,
}

#[derive(Debug, Clone)]
pub struct BuildContext {
    pub id: u64,
    pub config: KernelConfig,
    pub toolchain: Toolchain,
    /// Source tree the build runs in.
    pub work_dir: String,
    /// Directory the selected toolchain is installed in.
    pub toolchain_dir: String,
    pub device_name: String,
    /// The built artifact once recorded; the log file on failure.
    pub artifact_path: Option<String>,
    /// Whether a cancel channel is currently installed.
    pub running: bool,
}

pub struct JobRegistry {
    pub contexts: Vec<BuildContext>,
    pub statuses: Vec<PerBuildIdStatus>,
    /// The last allocated build id; 0 before the first allocation.
    pub last_id: u64,
}

#[derive(Debug, Clone, Copy, PartialEq, Eq, Structural)]
pub enum CancelError {
    /// The id was never allocated, or nothing is running under it.
    NotFound,
    /// The build has already finished.
    AlreadyFinished,
}

pub open spec fn spec_valid_id(st: Seq<PerBuildIdStatus>, id: u64) -> bool {
    exists|i: int| 0 <= i < st.len() && st[i].build_id == id
}

pub open spec fn spec_finished_id(st: Seq<PerBuildIdStatus>, id: u64) -> bool {
    exists|i: int| 0 <= i < st.len() && st[i].build_id == id && st[i].finished
}

pub open spec fn spec_succeeded_id(st: Seq<PerBuildIdStatus>, id: u64) -> bool {
    exists|i: int| 0 <= i < st.len() && st[i].build_id == id && st[i].succeeded
}

pub open spec fn spec_running_id(cx: Seq<BuildContext>, id: u64) -> bool {
    exists|i: int| 0 <= i < cx.len() && cx[i].id == id && cx[i].running
}

/// Every status record for `id` marked finished and not succeeded; other
/// records unchanged.
pub open spec fn spec_cancel_statuses(st: Seq<PerBuildIdStatus>, id: u64) -> Seq<
    PerBuildIdStatus,
> {
    Seq::new(st.len(), |i: int| if st[i].build_id == id {
        (PerBuildIdStatus { build_id: st[i].build_id, finished: true, succeeded: false })
    } else {
        st[i]
    })
}

/// Every status record for `id` marked finished with the given success;
/// other records unchanged.
pub open spec fn spec_finish_statuses(st: Seq<PerBuildIdStatus>, id: u64, success: bool) -> Seq<
    PerBuildIdStatus,
> {
    Seq::new(st.len(), |i: int| if st[i].build_id == id {
        (PerBuildIdStatus { build_id: st[i].build_id, finished: true, succeeded: success })
    } else {
        st[i]
    })
}

impl JobRegistry {
    pub open spec fn wf(&self) -> bool {
        &&& self.contexts@.len() == self.statuses@.len()
        &&& (forall|i: int| #![trigger self.statuses@[i]]
            0 <= i < self.statuses@.len() ==> self.contexts@[i].id
                == self.statuses@[i].build_id)
        &&& (forall|i: int| #![trigger self.statuses@[i]]
            0 <= i < self.statuses@.len() ==> 1 <= self.statuses@[i].build_id <= self.last_id)
        &&& (forall|i: int, j: int| #![trigger self.statuses@[i], self.statuses@[j]]
            0 <= i < self.statuses@.len() && 0 <= j < self.statuses@.len() && i != j
                ==> self.statuses@[i].build_id != self.statuses@[j].build_id)
        &&& (forall|i: int| #![trigger self.statuses@[i]]
            0 <= i < self.statuses@.len() && self.statuses@[i].finished
                && self.statuses@[i].succeeded ==> self.contexts@[i].artifact_path is Some)
    }

    /// Whether every context recorded under `id` has an artifact path.
    pub open spec fn spec_has_artifact(&self, id: u64) -> bool {
        forall|i: int|
            0 <= i < self.contexts@.len() && self.contexts@[i].id == id
                ==> self.contexts@[i].artifact_path is Some
    }

    pub fn new() -> (r: JobRegistry)
        ensures
            r.wf(),
            r.statuses@.len() == 0,
            r.contexts@.len() == 0,
            r.last_id == 0,
    {
        JobRegistry { contexts: Vec::new(), statuses: Vec::new(), last_id: 0 }
    }

    /// Allocates a fresh build id and records the prepared build under it.
    /// The new id is distinct from every id allocated before.
    pub fn register(
        &mut self,
        config: KernelConfig,
        toolchain: Toolchain,
        work_dir: String,
        toolchain_dir: String,
        device_name: String,
    ) -> (id: u64)
        requires
            old(self).wf(),
            old(self).last_id < u64::MAX,
        ensures
            final(self).wf(),
            id == old(self).last_id + 1,
            final(self).last_id == id,
            forall|i: int|
                0 <= i < old(self).statuses@.len() ==> old(self).statuses@[i].build_id != id,
            final(self).statuses@ == old(self).statuses@.push(
                (PerBuildIdStatus { build_id: id, finished: false, succeeded: true }),
            ),
            final(self).contexts@ == old(self).contexts@.push(
                (BuildContext {
                    id,
                    config,
                    toolchain,
                    work_dir,
                    toolchain_dir,
                    device_name,
                    artifact_path: None,
                    running: false,
                }),
            ),
    {
        let id: u64 = self.last_id + 1;
        self.last_id = id;
        self.contexts.push(
            BuildContext {
                id,
                config,
                toolchain,
                work_dir,
                toolchain_dir,
                device_name,
                artifact_path: None,
                running: false,
            },
        );
        self.statuses.push(PerBuildIdStatus { build_id: id, finished: false, succeeded: true });
        id
    }

    pub fn is_valid_build_id(&self, id: u64) -> (r: bool)
        ensures
            r == spec_valid_id(self.statuses@, id),
    {
        let n: usize = self.statuses.len();
        let mut i: usize = 0;
        while i < n
            invariant
                0 <= i <= n,
                n == self.statuses@.len(),
                forall|j: int| 0 <= j < i ==> self.statuses@[j].build_id != id,
            decreases n - i,
        {
            if self.statuses[i].build_id == id {
                return true;
            }
            i += 1;
        }
        false
    }

    pub fn is_build_finished(&self, id: u64) -> (r: bool)
        ensures
            r == spec_finished_id(self.statuses@, id),
    {
        let n: usize = self.statuses.len();
        let mut i: usize = 0;
        while i < n
            invariant
                0 <= i <= n,
                n == self.statuses@.len(),
                forall|j: int|
                    0 <= j < i ==> !(self.statuses@[j].build_id == id
                        && self.statuses@[j].finished),
            decreases n - i,
        {
            if self.statuses[i].build_id == id && self.statuses[i].finished {
                return true;
            }
            i += 1;
        }
        false
    }

    pub fn is_build_succeeded(&self, id: u64) -> (r: bool)
        ensures
            r == spec_succeeded_id(self.statuses@, id),
    {
        let n: usize = self.statuses.len();
        let mut i: usize = 0;
        while i < n
            invariant
                0 <= i <= n,
                n == self.statuses@.len(),
                forall|j: int|
                    0 <= j < i ==> !(self.statuses@[j].build_id == id
                        && self.statuses@[j].succeeded),
            decreases n - i,
        {
            if self.statuses[i].build_id == id && self.statuses[i].succeeded {
                return true;
            }
            i += 1;
        }
        false
    }

    pub fn is_running(&self, id: u64) -> (r: bool)
        ensures
            r == spec_running_id(self.contexts@, id),
    {
        let n: usize = self.contexts.len();
        let mut i: usize = 0;
        while i < n
            invariant
                0 <= i <= n,
                n == self.contexts@.len(),
                forall|j: int|
                    0 <= j < i ==> !(self.contexts@[j].id == id && self.contexts@[j].running),
            decreases n - i,
        {
            if self.contexts[i].id == id && self.contexts[i].running {
                return true;
            }
            i += 1;
        }
        false
    }

    pub fn has_artifact(&self, id: u64) -> (r: bool)
        ensures
            r == self.spec_has_artifact(id),
    {
        let n: usize = self.contexts.len();
        let mut i: usize = 0;
        while i < n
            invariant
                0 <= i <= n,
                n == self.contexts@.len(),
                forall|j: int|
                    0 <= j < i && self.contexts@[j].id == id ==> self.contexts@[j].artifact_path
                        is Some,
            decreases n - i,
        {
            if self.contexts[i].id == id && matches!(self.contexts[i].artifact_path, None) {
                return false;
            }
            i += 1;
        }
        true
    }

    /// The other context indexes never carry the same id, in a well-formed
    /// registry.
    proof fn lemma_unique_context_id(&self, i: int)
        requires
            self.wf(),
            0 <= i < self.contexts@.len(),
        ensures
            forall|j: int|
                0 <= j < self.contexts@.len() && j != i ==> self.contexts@[j].id
                    != self.contexts@[i].id,
    {
        assert forall|j: int|
            0 <= j < self.contexts@.len() && j != i implies self.contexts@[j].id
            != self.contexts@[i].id by {
            assert(self.contexts@[j].id == self.statuses@[j].build_id);
            assert(self.contexts@[i].id == self.statuses@[i].build_id);
        }
    }

    /// Records the artifact path for the build with the given id; every
    /// other field and record is unchanged.
    pub fn set_artifact(&mut self, id: u64, path: String)
        requires
            old(self).wf(),
        ensures
            final(self).wf(),
            final(self).statuses@ == old(self).statuses@,
            final(self).last_id == old(self).last_id,
            final(self).contexts@.len() == old(self).contexts@.len(),
            forall|i: int|
                0 <= i < old(self).contexts@.len() ==> final(self).contexts@[i]
                    == (if old(self).contexts@[i].id == id {
                    (BuildContext { artifact_path: Some(path), ..old(self).contexts@[i] })
                } else {
                    old(self).contexts@[i]
                }),
    {
        let n: usize = self.contexts.len();
        let mut i: usize = 0;
        while i < n
            invariant
                0 <= i <= n,
                *self == *old(self),
                old(self).wf(),
                n == old(self).contexts@.len(),
                forall|j: int| 0 <= j < i ==> old(self).contexts@[j].id != id,
            decreases n - i,
        {
            if self.contexts[i].id == id {
                let ctx = self.contexts.remove(i);
                let updated = BuildContext { artifact_path: Some(path), ..ctx };
                self.contexts.insert(i, updated);
                proof {
                    assert(self.contexts@ =~= old(self).contexts@.update(i as int, updated));
                    old(self).lemma_unique_context_id(i as int);
                    assert(self.wf());
                }
                return;
            }
            i += 1;
        }
    }

    /// Installs or removes the cancel marker for the build with the given
    /// id; every other field and record is unchanged.
    pub fn set_running(&mut self, id: u64, running: bool)
        requires
            old(self).wf(),
        ensures
            final(self).wf(),
            final(self).statuses@ == old(self).statuses@,
            final(self).last_id == old(self).last_id,
            final(self).contexts@.len() == old(self).contexts@.len(),
            forall|i: int|
                0 <= i < old(self).contexts@.len() ==> final(self).contexts@[i]
                    == (if old(self).contexts@[i].id == id {
                    (BuildContext { running, ..old(self).contexts@[i] })
                } else {
                    old(self).contexts@[i]
                }),
    {
        let n: usize = self.contexts.len();
        let mut i: usize = 0;
        while i < n
            invariant
                0 <= i <= n,
                *self == *old(self),
                old(self).wf(),
                n == old(self).contexts@.len(),
                forall|j: int| 0 <= j < i ==> old(self).contexts@[j].id != id,
            decreases n - i,
        {
            if self.contexts[i].id == id {
                let ctx = self.contexts.remove(i);
                let updated = BuildContext { running, ..ctx };
                self.contexts.insert(i, updated);
                proof {
                    assert(self.contexts@ =~= old(self).contexts@.update(i as int, updated));
                    old(self).lemma_unique_context_id(i as int);
                    assert(self.wf());
                }
                return;
            }
            i += 1;
        }
    }

    /// Marks the build finished with the given success. Success may only
    /// be recorded once an artifact is in place, so that a finished,
    /// succeeded build always has one. `finished` never goes back to
    /// false.
    pub fn mark_build_finished(&mut self, id: u64, success: bool)
        requires
            old(self).wf(),
            success ==> old(self).spec_has_artifact(id),
        ensures
            final(self).wf(),
            final(self).contexts@ == old(self).contexts@,
            final(self).last_id == old(self).last_id,
            final(self).statuses@ == spec_finish_statuses(old(self).statuses@, id, success),
            forall|i: int|
                0 <= i < old(self).statuses@.len() && old(self).statuses@[i].finished
                    ==> final(self).statuses@[i].finished,
    {
        let n: usize = self.statuses.len();
        let mut i: usize = 0;
        while i < n
            invariant
                0 <= i <= n,
                *self == *old(self),
                old(self).wf(),
                success ==> old(self).spec_has_artifact(id),
                n == old(self).statuses@.len(),
                forall|j: int| 0 <= j < i ==> old(self).statuses@[j].build_id != id,
            decreases n - i,
        {
            if self.statuses[i].build_id == id {
                vstd::pervasive::VecAdditionalExecFns::set(
                    &mut self.statuses,
                    i,
                    PerBuildIdStatus { build_id: id, finished: true, succeeded: success },
                );
                proof {
                    old(self).lemma_unique_context_id(i as int);
                    assert(self.statuses@ =~= spec_finish_statuses(
                        old(self).statuses@,
                        id,
                        success,
                    ));
                    assert(self.wf());
                }
                return;
            }
            i += 1;
        }
        proof {
            assert(self.statuses@ =~= spec_finish_statuses(old(self).statuses@, id, success));
        }
    }

    /// Cancellation: a known, unfinished, running build is marked finished
    /// and not succeeded; otherwise an error reports why and nothing
    /// changes. `finished` never goes back to false.
    pub fn cancel_build(&mut self, id: u64) -> (r: Result<(), CancelError>)
        requires
            old(self).wf(),
        ensures
            final(self).wf(),
            final(self).contexts@ == old(self).contexts@,
            final(self).last_id == old(self).last_id,
            !spec_valid_id(old(self).statuses@, id) ==> r == Result::<(), CancelError>::Err(
                CancelError::NotFound,
            ) && final(self).statuses@ == old(self).statuses@,
            spec_valid_id(old(self).statuses@, id) && spec_finished_id(old(self).statuses@, id)
                ==> r == Result::<(), CancelError>::Err(CancelError::AlreadyFinished)
                    && final(self).statuses@ == old(self).statuses@,
            spec_valid_id(old(self).statuses@, id) && !spec_finished_id(old(self).statuses@, id)
                && !spec_running_id(old(self).contexts@, id) ==> r == Result::<
                (),
                CancelError,
            >::Err(CancelError::NotFound) && final(self).statuses@ == old(self).statuses@,
            spec_valid_id(old(self).statuses@, id) && !spec_finished_id(old(self).statuses@, id)
                && spec_running_id(old(self).contexts@, id) ==> r == Result::<
                (),
                CancelError,
            >::Ok(()) && final(self).statuses@ == spec_cancel_statuses(old(self).statuses@, id),
            r is Ok ==> spec_finished_id(final(self).statuses@, id) && !spec_succeeded_id(
                final(self).statuses@,
                id,
            ),
            forall|i: int|
                0 <= i < old(self).statuses@.len() && old(self).statuses@[i].finished
                    ==> final(self).statuses@[i].finished,
    {
        if !self.is_valid_build_id(id) {
            return Err(CancelError::NotFound);
        }
        if self.is_build_finished(id) {
            return Err(CancelError::AlreadyFinished);
        }
        if !self.is_running(id) {
            return Err(CancelError::NotFound);
        }
        let n: usize = self.statuses.len();
        let mut i: usize = 0;
        while i < n
            invariant
                0 <= i <= n,
                *self == *old(self),
                old(self).wf(),
                n == old(self).statuses@.len(),
                spec_valid_id(old(self).statuses@, id),
                !spec_finished_id(old(self).statuses@, id),
                spec_running_id(old(self).contexts@, id),
                forall|j: int| 0 <= j < i ==> old(self).statuses@[j].build_id != id,
            decreases n - i,
        {
            if self.statuses[i].build_id == id {
                vstd::pervasive::VecAdditionalExecFns::set(
                    &mut self.statuses,
                    i,
                    PerBuildIdStatus { build_id: id, finished: true, succeeded: false },
                );
                proof {
                    old(self).lemma_unique_context_id(i as int);
                    assert(self.statuses@ =~= spec_cancel_statuses(old(self).statuses@, id));
                    assert(self.wf());
                    assert(self.statuses@[i as int].build_id == id
                        && self.statuses@[i as int].finished);
                    assert forall|j: int|
                        0 <= j < self.statuses@.len() && self.statuses@[j].build_id == id implies
                        !self.statuses@[j].succeeded by {
                        assert(old(self).statuses@[j].build_id
                            == old(self).statuses@[j].build_id);
                    }
                }
                return Ok(());
            }
            i += 1;
        }
        proof {
            assert(!spec_valid_id(old(self).statuses@, id));
        }
        Err(CancelError::NotFound)
    }

    /// The recorded artifact path of the build with the given id, if any.
    pub fn artifact_path_of(&self, id: u64) -> (r: Option<&String>)
        requires
            self.wf(),
        ensures
            r matches Some(p) ==> exists|i: int|
                0 <= i < self.contexts@.len() && self.contexts@[i].id == id
                    && self.contexts@[i].artifact_path == Some(*p),
            r is None ==> forall|i: int|
                0 <= i < self.contexts@.len() && self.contexts@[i].id == id
                    ==> self.contexts@[i].artifact_path is None,
    {
        let n: usize = self.contexts.len();
        let mut i: usize = 0;
        while i < n
            invariant
                0 <= i <= n,
                self.wf(),
                n == self.contexts@.len(),
                forall|j: int| 0 <= j < i ==> self.contexts@[j].id != id,
            decreases n - i,
        {
            if self.contexts[i].id == id {
                proof {
                    self.lemma_unique_context_id(i as int);
                }
                return match &self.contexts[i].artifact_path {
                    Some(p) => Some(p),
                    None => None,
                };
            }
            i += 1;
        }
        None
    }

    /// The context recorded for the given id, if any.
    pub fn context_of(&self, id: u64) -> (r: Option<&BuildContext>)
        ensures
            r matches Some(c) ==> c.id == id && exists|i: int|
                0 <= i < self.contexts@.len() && self.contexts@[i] == *c,
            r is None ==> forall|i: int|
                0 <= i < self.contexts@.len() ==> self.contexts@[i].id != id,
    {
        let n: usize = self.contexts.len();
        let mut i: usize = 0;
        while i < n
            invariant
                0 <= i <= n,
                n == self.contexts@.len(),
                forall|j: int| 0 <= j < i ==> self.contexts@[j].id != id,
            decreases n - i,
        {
            if self.contexts[i].id == id {
                return Some(&self.contexts[i]);
            }
            i += 1;
        }
        None
    }
}

/// Per-build status law: in a well-formed registry every allocated id has
/// exactly one status record, and a record that is finished and succeeded
/// always has an artifact path recorded in its context.
pub proof fn lemma_one_status_per_id(r: JobRegistry, id: u64)
    requires
        r.wf(),
        spec_valid_id(r.statuses@, id),
    ensures
        exists|i: int|
            {
                &&& 0 <= i < r.statuses@.len()
                &&& r.statuses@[i].build_id == id
                &&& (forall|j: int|
                    0 <= j < r.statuses@.len() && j != i ==> r.statuses@[j].build_id != id)
                &&& (r.statuses@[i].finished && r.statuses@[i].succeeded
                    ==> r.contexts@[i].artifact_path is Some)
            },
{
    let i = choose|i: int| 0 <= i < r.statuses@.len() && r.statuses@[i].build_id == id;
    assert(0 <= i < r.statuses@.len() && r.statuses@[i].build_id == id && (forall|j: int|
        0 <= j < r.statuses@.len() && j != i ==> r.statuses@[j].build_id != id) && (
    r.statuses@[i].finished && r.statuses@[i].succeeded ==> r.contexts@[i].artifact_path
        is Some));
}

/// Cancel idempotence law: after a cancellation succeeds, every status
/// record under the id is finished, so by the contract of `cancel_build` a
/// second cancellation returns an error and leaves the registry unchanged.
pub proof fn lemma_cancel_idempotent(st: Seq<PerBuildIdStatus>, id: u64)
    requires
        spec_valid_id(st, id),
    ensures
        spec_finished_id(spec_cancel_statuses(st, id), id),
{
    let i = choose|i: int| 0 <= i < st.len() && st[i].build_id == id;
    assert(spec_cancel_statuses(st, id)[i].build_id == id && spec_cancel_statuses(
        st,
        id,
    )[i].finished);
}

} // verus!
