//! ROM service state: the settings, the single active build, the build
//! history, and the scheduled uploads, together with the decisions taken
//! over them.
//!
//! At most one ROM build runs per service instance; an attempt while one
//! is active is rejected without any state change. A build entry's
//! `success` only ever goes from false to true, and failure messages
//! accumulate rather than overwrite.

use vstd::prelude::*;
use vstd::string::StringExecFns;

use crate::rom_plan::{BuildVariant, RomError};
use crate::rom_types::TargetsEntry;
use crate::strutil::{base_name, spec_base_name};

verus! {

#[derive(Debug, Clone)]
pub struct Settings {
    pub do_repo_sync: Option<bool>,
    pub do_clean_build: Option<bool>,
    pub use_ccache: Option<bool>,
    pub use_rbe_service: Option<bool>,
    pub rbe_api_token: Option<String>,
    pub do_upload: Option<bool>,
}

impl Settings {
    /// The settings a fresh service starts with.
    pub fn defaults() -> (r: Settings)
        ensures
            r.do_repo_sync == Some(true),
            r.do_clean_build == Some(false),
            r.use_ccache == Some(false),
            r.use_rbe_service == Some(false),
            r.rbe_api_token is None,
            r.do_upload == Some(false),
    {
        Settings {
            do_repo_sync: Some(true),
            do_clean_build: Some(false),
            use_ccache: Some(false),
            use_rbe_service: Some(false),
            rbe_api_token: None,
            do_upload: Some(false),
        }
    }

    /// Applies a partial update: only the fields the patch sets change.
    pub fn merge(&mut self, patch: Settings)
        ensures
            final(self).do_repo_sync == if patch.do_repo_sync is Some {
                patch.do_repo_sync
            } else {
                old(self).do_repo_sync
            },
            final(self).do_clean_build == if patch.do_clean_build is Some {
                patch.do_clean_build
            } else {
                old(self).do_clean_build
            },
            final(self).use_ccache == if patch.use_ccache is Some {
                patch.use_ccache
            } else {
                old(self).use_ccache
            },
            final(self).use_rbe_service == if patch.use_rbe_service is Some {
                patch.use_rbe_service
            } else {
                old(self).use_rbe_service
            },
            final(self).rbe_api_token == if patch.rbe_api_token is Some {
                patch.rbe_api_token
            } else {
                old(self).rbe_api_token
            },
            final(self).do_upload == if patch.do_upload is Some {
                patch.do_upload
            } else {
                old(self).do_upload
            },
    {
        if patch.do_repo_sync.is_some() {
            self.do_repo_sync = patch.do_repo_sync;
        }
        if patch.do_clean_build.is_some() {
            self.do_clean_build = patch.do_clean_build;
        }
        if patch.use_ccache.is_some() {
            self.use_ccache = patch.use_ccache;
        }
        if patch.use_rbe_service.is_some() {
            self.use_rbe_service = patch.use_rbe_service;
        }
        if patch.rbe_api_token.is_some() {
            self.rbe_api_token = patch.rbe_api_token;
        }
        if patch.do_upload.is_some() {
            self.do_upload = patch.do_upload;
        }
    }
}

/// How a finished artifact is handed out.
#[derive(Debug, Clone, Copy, PartialEq, Eq, Structural)]
pub enum UploadMethod {
    NoUpload,
    LocalFile,
    GoFile,
    Stream,
}

#[derive(Debug, Clone)]
pub struct UploadTask {
    pub method: UploadMethod,
    pub build_id: String,
    pub artifact_path: String,
}

#[derive(Debug, Clone)]
pub struct BuildEntry {
    pub id: String,
    pub variant: BuildVariant,
    pub target_device: TargetsEntry,
    pub config_name: String,
    pub success: bool,
    pub error_message: Option<String>,
}

/// What a start request came back with.
#[derive(Debug)]
pub struct StartOutcome {
    pub accepted: bool,
    pub build_id: String,
    pub status_message: String,
}

pub struct RomBuildState {
    pub settings: Settings,
    /// The id of the active build, while one runs.
    pub active: Option<String>,
    pub known_builds: Vec<BuildEntry>,
    pub uploads: Vec<UploadTask>,
}

/// Relies on uuid::Uuid::new_v4 and its Display impl: a freshly drawn
/// random UUID, written in the hyphenated form of 36 characters. Nothing
/// else is assumed of the value.
#[verifier::external_body]
fn new_uuid_string() -> (r: String)
    ensures
        r@.len() == 36,
{
    uuid::Uuid::new_v4().to_string()
}

/// A new ROM build id: `build-` followed by a fresh UUID.
pub fn fresh_build_id() -> (r: String)
    ensures
        r@.len() == 42,
        r@.subrange(0, 6) == ("build-")@,
{
    proof {
        reveal_strlit("build-");
    }
    let mut s = "build-".to_owned();
    s.append(new_uuid_string().as_str());
    proof {
        assert(s@.subrange(0, 6) =~= ("build-")@);
    }
    s
}

impl RomBuildState {
    pub fn new() -> (r: RomBuildState)
        ensures
            r.active is None,
            r.known_builds@.len() == 0,
            r.uploads@.len() == 0,
            r.settings.do_repo_sync == Some(true),
            r.settings.do_clean_build == Some(false),
            r.settings.use_ccache == Some(false),
            r.settings.use_rbe_service == Some(false),
            r.settings.rbe_api_token is None,
            r.settings.do_upload == Some(false),
    {
        RomBuildState {
            settings: Settings::defaults(),
            active: None,
            known_builds: Vec::new(),
            uploads: Vec::new(),
        }
    }

    /// Single-build gate: while a build is active, a new request is
    /// rejected outright with an empty id and nothing changes; otherwise
    /// a fresh id is drawn, the build is recorded as active and in the
    /// history, and the request is accepted.
    pub fn try_start_build(
        &mut self,
        variant: BuildVariant,
        target_device: TargetsEntry,
        config_name: String,
    ) -> (r: StartOutcome)
        ensures
            old(self).active is Some ==> {
                &&& !r.accepted
                &&& r.build_id@.len() == 0
                &&& r.status_message@ == ("A build is already running.")@
                &&& final(self).active == old(self).active
                &&& final(self).known_builds@ == old(self).known_builds@
                &&& final(self).uploads@ == old(self).uploads@
                &&& final(self).settings == old(self).settings
            },
            old(self).active is None ==> {
                &&& r.accepted
                &&& r.build_id@.len() == 42
                &&& r.build_id@.subrange(0, 6) == ("build-")@
                &&& r.status_message@ == ("Build queued successfully.")@
                &&& final(self).active == Some(r.build_id)
                &&& final(self).known_builds@ == old(self).known_builds@.push(
                    (BuildEntry {
                        id: r.build_id,
                        variant,
                        target_device,
                        config_name,
                        success: false,
                        error_message: None,
                    }),
                )
                &&& final(self).uploads@ == old(self).uploads@
                &&& final(self).settings == old(self).settings
            },
    {
        if self.active.is_some() {
            return StartOutcome {
                accepted: false,
                build_id: String::new(),
                status_message: "A build is already running.".to_owned(),
            };
        }
        let id = fresh_build_id();
        let id_for_entry = id.clone();
        let id_for_active = id.clone();
        self.known_builds.push(
            BuildEntry {
                id: id_for_entry,
                variant,
                target_device,
                config_name,
                success: false,
                error_message: None,
            },
        );
        self.active = Some(id_for_active);
        StartOutcome {
            accepted: true,
            build_id: id,
            status_message: "Build queued successfully.".to_owned(),
        }
    }

    /// Clears the active build when its task finishes.
    pub fn finish_active(&mut self)
        ensures
            final(self).active is None,
            final(self).known_builds@ == old(self).known_builds@,
            final(self).uploads@ == old(self).uploads@,
            final(self).settings == old(self).settings,
    {
        self.active = None;
    }

    /// Whether the id names the active build.
    pub fn is_active(&self, id: &String) -> (r: bool)
        ensures
            r == match self.active {
                Some(a) => a@ == id@,
                None => false,
            },
    {
        match &self.active {
            Some(a) => *a == *id,
            None => false,
        }
    }

    /// Cancellation routing: a cancel is deliverable exactly when the id
    /// names the active build; nothing here changes state, so a repeated
    /// cancel decides the same way.
    pub fn cancel_decision(&self, id: &String) -> (r: Result<(), RomError>)
        ensures
            r is Ok <==> (self.active matches Some(a) && a@ == id@),
            r matches Err(e) ==> e is InvalidArgument,
    {
        if self.is_active(id) {
            Ok(())
        } else {
            Err(RomError::InvalidArgument)
        }
    }

    /// Marks the build successful in the history; `success` never goes
    /// back to false. Every entry bearing the id is marked.
    pub fn mark_build_success(&mut self, id: &String)
        ensures
            final(self).known_builds@.len() == old(self).known_builds@.len(),
            forall|i: int|
                0 <= i < old(self).known_builds@.len() ==> final(self).known_builds@[i] == (if old(
                    self,
                ).known_builds@[i].id@ == id@ {
                    (BuildEntry { success: true, ..old(self).known_builds@[i] })
                } else {
                    old(self).known_builds@[i]
                }),
            forall|i: int|
                0 <= i < old(self).known_builds@.len() && old(self).known_builds@[i].success
                    ==> final(self).known_builds@[i].success,
            final(self).active == old(self).active,
            final(self).uploads@ == old(self).uploads@,
            final(self).settings == old(self).settings,
    {
        let n: usize = self.known_builds.len();
        let mut i: usize = 0;
        while i < n
            invariant
                0 <= i <= n,
                n == old(self).known_builds@.len(),
                self.known_builds@.len() == n,
                self.active == old(self).active,
                self.uploads@ == old(self).uploads@,
                self.settings == old(self).settings,
                forall|j: int| i <= j < n ==> self.known_builds@[j] == old(self).known_builds@[j],
                forall|j: int|
                    0 <= j < i ==> self.known_builds@[j] == (if old(self).known_builds@[j].id@
                        == id@ {
                        (BuildEntry { success: true, ..old(self).known_builds@[j] })
                    } else {
                        old(self).known_builds@[j]
                    }),
            decreases n - i,
        {
            if self.known_builds[i].id == *id {
                let ghost pre = self.known_builds@;
                let e = self.known_builds.remove(i);
                let updated = BuildEntry { success: true, ..e };
                self.known_builds.insert(i, updated);
                proof {
                    assert(self.known_builds@ =~= pre.update(i as int, updated));
                }
            }
            i += 1;
        }
    }

    /// Records why the build failed, on every entry bearing the id. A
    /// first message is stored as it is; a later one is appended under a
    /// line naming the builder error, so earlier causes are never lost.
    pub fn append_error(&mut self, id: &String, msg: &String)
        ensures
            final(self).known_builds@.len() == old(self).known_builds@.len(),
            forall|i: int|
                0 <= i < old(self).known_builds@.len() ==> spec_error_appended(
                    old(self).known_builds@[i],
                    final(self).known_builds@[i],
                    id@,
                    msg@,
                ),
            final(self).active == old(self).active,
            final(self).uploads@ == old(self).uploads@,
            final(self).settings == old(self).settings,
    {
        let n: usize = self.known_builds.len();
        let mut i: usize = 0;
        while i < n
            invariant
                0 <= i <= n,
                n == old(self).known_builds@.len(),
                self.known_builds@.len() == n,
                self.active == old(self).active,
                self.uploads@ == old(self).uploads@,
                self.settings == old(self).settings,
                forall|j: int| i <= j < n ==> self.known_builds@[j] == old(self).known_builds@[j],
                forall|j: int|
                    0 <= j < i ==> spec_error_appended(
                        old(self).known_builds@[j],
                        self.known_builds@[j],
                        id@,
                        msg@,
                    ),
            decreases n - i,
        {
            if self.known_builds[i].id == *id {
                let ghost pre = self.known_builds@;
                let e = self.known_builds.remove(i);
                let BuildEntry {
                    id: eid,
                    variant,
                    target_device,
                    config_name,
                    success,
                    error_message,
                } = e;
                let new_msg: String = match error_message {
                    Some(prev) => {
                        let mut s = prev;
                        s.append("\nWhich caused builder error: ");
                        s.append(msg.as_str());
                        s
                    },
                    None => msg.clone(),
                };
                let updated = BuildEntry {
                    id: eid,
                    variant,
                    target_device,
                    config_name,
                    success,
                    error_message: Some(new_msg),
                };
                self.known_builds.insert(i, updated);
                proof {
                    assert(self.known_builds@ =~= pre.update(i as int, updated));
                }
            }
            i += 1;
        }
    }

    /// Schedules an upload task for a finished build.
    pub fn schedule_upload(&mut self, task: UploadTask)
        ensures
            final(self).uploads@ == old(self).uploads@.push(task),
            final(self).known_builds@ == old(self).known_builds@,
            final(self).active == old(self).active,
            final(self).settings == old(self).settings,
    {
        self.uploads.push(task);
    }

    /// The first history entry bearing the id.
    pub fn find_build(&self, id: &String) -> (r: Option<&BuildEntry>)
        ensures
            r matches Some(e) ==> exists|i: int|
                0 <= i < self.known_builds@.len() && self.known_builds@[i] == *e && e.id@ == id@
                    && (forall|j: int| 0 <= j < i ==> self.known_builds@[j].id@ != id@),
            r is None ==> forall|i: int|
                0 <= i < self.known_builds@.len() ==> self.known_builds@[i].id@ != id@,
    {
        let n: usize = self.known_builds.len();
        let mut i: usize = 0;
        while i < n
            invariant
                0 <= i <= n,
                n == self.known_builds@.len(),
                forall|j: int| 0 <= j < i ==> self.known_builds@[j].id@ != id@,
            decreases n - i,
        {
            if self.known_builds[i].id == *id {
                return Some(&self.known_builds[i]);
            }
            i += 1;
        }
        None
    }

    /// The first upload task scheduled for the id.
    pub fn find_upload(&self, id: &String) -> (r: Option<&UploadTask>)
        ensures
            r matches Some(t) ==> exists|i: int|
                0 <= i < self.uploads@.len() && self.uploads@[i] == *t && t.build_id@ == id@
                    && (forall|j: int| 0 <= j < i ==> self.uploads@[j].build_id@ != id@),
            r is None ==> forall|i: int|
                0 <= i < self.uploads@.len() ==> self.uploads@[i].build_id@ != id@,
    {
        let n: usize = self.uploads.len();
        let mut i: usize = 0;
        while i < n
            invariant
                0 <= i <= n,
                n == self.uploads@.len(),
                forall|j: int| 0 <= j < i ==> self.uploads@[j].build_id@ != id@,
            decreases n - i,
        {
            if self.uploads[i].build_id == *id {
                return Some(&self.uploads[i]);
            }
            i += 1;
        }
        None
    }

    /// Decides what the result stream for a build carries; the outcome
    /// is a pure function of the history and the scheduled uploads.
    pub fn build_result_plan(&self, id: &String) -> (r: BuildResultPlan)
        ensures
            (r is UnknownId) <==> (forall|i: int|
                0 <= i < self.known_builds@.len() ==> self.known_builds@[i].id@ != id@),
            forall|i: int|
                spec_first_build_at(self.known_builds@, id@, i) ==> {
                    let e = self.known_builds@[i];
                    &&& (!e.success ==> (r matches BuildResultPlan::Failure(m) && m@
                        == spec_failure_message(e.error_message.deep_view())))
                    &&& (e.success && (forall|k: int|
                        0 <= k < self.uploads@.len() ==> self.uploads@[k].build_id@ != id@) ==> r
                        is MissingUpload)
                    &&& (e.success ==> forall|k: int|
                        spec_first_upload_at(self.uploads@, id@, k) ==> {
                            let t = self.uploads@[k];
                            let base = spec_base_name(t.artifact_path@);
                            &&& (base.len() == 0 ==> r is BadArtifactPath)
                            &&& (base.len() > 0 ==> match t.method {
                                UploadMethod::NoUpload => r is UnsupportedMethod,
                                UploadMethod::LocalFile => r matches BuildResultPlan::LocalFile(
                                    p,
                                    f,
                                ) && p@ == t.artifact_path@ && f@ == base,
                                UploadMethod::GoFile => r matches BuildResultPlan::GoFile(p, f)
                                    && p@ == t.artifact_path@ && f@ == base,
                                UploadMethod::Stream => r matches BuildResultPlan::Stream(p, f)
                                    && p@ == t.artifact_path@ && f@ == base,
                            })
                        })
                },
    {
        let n: usize = self.known_builds.len();
        let mut idx: usize = n;
        let mut scan: usize = 0;
        while scan < n
            invariant
                0 <= scan <= n,
                idx <= n,
                n == self.known_builds@.len(),
                idx == n ==> forall|j: int| 0 <= j < scan ==> self.known_builds@[j].id@ != id@,
                idx < n ==> self.known_builds@[idx as int].id@ == id@ && (forall|j: int|
                    0 <= j < idx ==> self.known_builds@[j].id@ != id@),
            decreases n - scan,
        {
            if idx == n && self.known_builds[scan].id == *id {
                idx = scan;
            }
            scan += 1;
        }
        if idx == n {
            return BuildResultPlan::UnknownId;
        }
        let i: usize = idx;
        proof {
            assert(spec_first_build_at(self.known_builds@, id@, i as int));
            assert forall|j: int| spec_first_build_at(self.known_builds@, id@, j) implies j
                == i as int by {
                if j < i {
                    assert(self.known_builds@[j].id@ == id@);
                }
                if j > i {
                    assert(self.known_builds@[i as int].id@ == id@);
                }
            }
        }
        let e = &self.known_builds[i];
        if !e.success {
            let m: String = match &e.error_message {
                Some(prev) => prev.clone(),
                None => {
                    proof {
                        reveal_strlit("Build failed for unknown reasons.");
                    }
                    "Build failed for unknown reasons.".to_owned()
                },
            };
            return BuildResultPlan::Failure(m);
        }
        let un: usize = self.uploads.len();
        let mut uidx: usize = un;
        let mut uscan: usize = 0;
        while uscan < un
            invariant
                0 <= uscan <= un,
                uidx <= un,
                un == self.uploads@.len(),
                uidx == un ==> forall|j: int| 0 <= j < uscan ==> self.uploads@[j].build_id@ != id@,
                uidx < un ==> self.uploads@[uidx as int].build_id@ == id@ && (forall|j: int|
                    0 <= j < uidx ==> self.uploads@[j].build_id@ != id@),
            decreases un - uscan,
        {
            if uidx == un && self.uploads[uscan].build_id == *id {
                uidx = uscan;
            }
            uscan += 1;
        }
        if uidx == un {
            return BuildResultPlan::MissingUpload;
        }
        let k: usize = uidx;
        proof {
            assert(spec_first_upload_at(self.uploads@, id@, k as int));
            assert forall|j: int| spec_first_upload_at(self.uploads@, id@, j) implies j
                == k as int by {
                if j < k {
                    assert(self.uploads@[j].build_id@ == id@);
                }
                if j > k {
                    assert(self.uploads@[k as int].build_id@ == id@);
                }
            }
        }
        let t = &self.uploads[k];
        let f: String = base_name(t.artifact_path.as_str());
        if f.as_str().unicode_len() == 0 {
            return BuildResultPlan::BadArtifactPath;
        }
        match t.method {
            UploadMethod::NoUpload => BuildResultPlan::UnsupportedMethod,
            UploadMethod::LocalFile => BuildResultPlan::LocalFile(t.artifact_path.clone(), f),
            UploadMethod::GoFile => BuildResultPlan::GoFile(t.artifact_path.clone(), f),
            UploadMethod::Stream => BuildResultPlan::Stream(t.artifact_path.clone(), f),
        }
    }
}

/// How one history entry changes when a failure message lands: entries
/// with other ids are untouched; a matching entry keeps everything but
/// its message, which becomes the new text or gains it at the end.
pub open spec fn spec_error_appended(
    o: BuildEntry,
    f: BuildEntry,
    id: Seq<char>,
    msg: Seq<char>,
) -> bool {
    if o.id@ == id {
        &&& f.id == o.id
        &&& f.variant == o.variant
        &&& f.target_device == o.target_device
        &&& f.config_name == o.config_name
        &&& f.success == o.success
        &&& (f.error_message matches Some(m) && m@ == spec_joined_error(
            o.error_message.deep_view(),
            msg,
        ))
    } else {
        f == o
    }
}

/// The accumulated failure text: the new message alone, or appended to
/// the previous text under a line naming the builder error.
pub open spec fn spec_joined_error(prev: Option<Seq<char>>, msg: Seq<char>) -> Seq<char> {
    match prev {
        Some(p) => p + ("\nWhich caused builder error: ")@ + msg,
        None => msg,
    }
}

/// The message a failed build reports: its recorded text, or a fixed
/// line when none was recorded.
pub open spec fn spec_failure_message(prev: Option<Seq<char>>) -> Seq<char> {
    match prev {
        Some(p) => p,
        None => ("Build failed for unknown reasons.")@,
    }
}

pub open spec fn spec_first_build_at(s: Seq<BuildEntry>, id: Seq<char>, i: int) -> bool {
    &&& 0 <= i < s.len()
    &&& s[i].id@ == id
    &&& forall|j: int| 0 <= j < i ==> s[j].id@ != id
}

pub open spec fn spec_first_upload_at(s: Seq<UploadTask>, id: Seq<char>, i: int) -> bool {
    &&& 0 <= i < s.len()
    &&& s[i].build_id@ == id
    &&& forall|j: int| 0 <= j < i ==> s[j].build_id@ != id
}

/// What the result stream for a build carries.
#[derive(Debug)]
pub enum BuildResultPlan {
    /// No history entry bears the id.
    UnknownId,
    /// The build failed; one failure frame with this message.
    Failure(String),
    /// The build succeeded but no upload was scheduled.
    MissingUpload,
    /// The artifact path has no base name.
    BadArtifactPath,
    /// The scheduled method is not one that can be served.
    UnsupportedMethod,
    /// Hand out the local path; carries (path, file name).
    LocalFile(String, String),
    /// Upload to the hosting service; carries (path, file name).
    GoFile(String, String),
    /// Stream the bytes; carries (path, file name).
    Stream(String, String),
}

} // verus!
