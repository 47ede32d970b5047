//! The record-level semantics of the storage operations: what a create
//! inserts and what an update writes into a row. The storage collaborator
//! executes the SQL; these functions are the verified meaning of each
//! statement, and the job lifecycle laws are proved over them.

use vstd::prelude::*;
use crate::models::{
    CreateJobInput, CreateSceneInput, CreateWorkflowInput, Job, Scene, UpdateJobInput,
    UpdateSceneInput, UpdateWorkflowInput, Workflow, WorkflowVersion,
};
use crate::params::ParamValue;
use crate::strutil::str_eq;

verus! {

/// Workflow record operations.
pub struct WorkflowOps;

/// Scene record operations.
pub struct SceneOps;

/// Job record operations.
pub struct JobOps;

/// Workflow version operations.
pub struct VersionOps;

/// What a workflow update writes: each supplied field, and a fresh
/// modification timestamp exactly when anything was supplied.
pub open spec fn spec_workflow_update_ok(
    w: Workflow,
    input: UpdateWorkflowInput,
    now: Seq<char>,
    u: Workflow,
) -> bool {
    &&& u.id == w.id
    &&& u.workflow_type == w.workflow_type
    &&& u.created_at == w.created_at
    &&& (match input.name {
        Some(n) => u.name == n,
        None => u.name == w.name,
    })
    &&& (match input.data {
        Some(d) => u.data == d,
        None => u.data == w.data,
    })
    &&& (if input.name is Some || input.data is Some {
        u.updated_at@ == now
    } else {
        u.updated_at == w.updated_at
    })
}

/// What a scene update writes: each supplied field.
pub open spec fn spec_scene_update_ok(s: Scene, input: UpdateSceneInput, u: Scene) -> bool {
    &&& u.id == s.id
    &&& u.workflow_id == s.workflow_id
    &&& u.created_at == s.created_at
    &&& (match input.name {
        Some(n) => u.name == n,
        None => u.name == s.name,
    })
    &&& (match input.data {
        Some(d) => u.data == d,
        None => u.data == s.data,
    })
    &&& (match input.thumbnail {
        Some(t) => u.thumbnail == Some(t),
        None => u.thumbnail == s.thumbnail,
    })
}

/// What a job update writes: each supplied field; a status write also
/// maintains the lifecycle timestamps — the start timestamp is kept once
/// set and first written on a transition into `running`, the completion
/// timestamp is written exactly on a transition into `completed` or
/// `failed`.
pub open spec fn spec_job_update_ok(
    job: Job,
    input: UpdateJobInput,
    now: Seq<char>,
    u: Job,
) -> bool {
    &&& u.id == job.id
    &&& u.workflow_id == job.workflow_id
    &&& u.scene_id == job.scene_id
    &&& u.job_type == job.job_type
    &&& u.data == job.data
    &&& u.created_at == job.created_at
    &&& (match input.status {
        Some(s) => {
            &&& u.status == s
            &&& (match job.started_at {
                Some(_) => u.started_at == job.started_at,
                None => if s@ == "running"@ {
                    u.started_at matches Some(t) && t@ == now
                } else {
                    u.started_at is None
                },
            })
            &&& (if s@ == "completed"@ || s@ == "failed"@ {
                u.completed_at matches Some(t) && t@ == now
            } else {
                u.completed_at is None
            })
        },
        None => {
            &&& u.status == job.status
            &&& u.started_at == job.started_at
            &&& u.completed_at == job.completed_at
        },
    })
    &&& (match input.result {
        Some(v) => u.result == Some(v),
        None => u.result == job.result,
    })
    &&& (match input.error {
        Some(e) => u.error == Some(e),
        None => u.error == job.error,
    })
}

impl WorkflowOps {
    /// The row a workflow creation inserts.
    pub fn new_record(id: String, now: &str, input: CreateWorkflowInput) -> (w: Workflow)
        ensures
            w.id == id,
            w.name == input.name,
            w.workflow_type == input.workflow_type,
            w.data == input.data,
            w.created_at@ == now@,
            w.updated_at@ == now@,
    {
        Workflow {
            id,
            name: input.name,
            workflow_type: input.workflow_type,
            data: input.data,
            created_at: String::from_str(now),
            updated_at: String::from_str(now),
        }
    }

    /// Applies a workflow update to a row.
    pub fn apply_update(w: Workflow, input: UpdateWorkflowInput, now: &str) -> (u: Workflow)
        ensures
            spec_workflow_update_ok(w, input, now@, u),
    {
        let touched = input.name.is_some() || input.data.is_some();
        let name = match input.name {
            Some(n) => n,
            None => w.name,
        };
        let data = match input.data {
            Some(d) => d,
            None => w.data,
        };
        let updated_at = if touched {
            String::from_str(now)
        } else {
            w.updated_at
        };
        Workflow {
            id: w.id,
            name,
            workflow_type: w.workflow_type,
            data,
            created_at: w.created_at,
            updated_at,
        }
    }
}

impl SceneOps {
    /// The row a scene creation inserts.
    pub fn new_record(id: String, now: &str, input: CreateSceneInput) -> (s: Scene)
        ensures
            s.id == id,
            s.workflow_id == input.workflow_id,
            s.name == input.name,
            s.data == input.data,
            s.thumbnail == input.thumbnail,
            s.created_at@ == now@,
    {
        Scene {
            id,
            workflow_id: input.workflow_id,
            name: input.name,
            data: input.data,
            thumbnail: input.thumbnail,
            created_at: String::from_str(now),
        }
    }

    /// Applies a scene update to a row.
    pub fn apply_update(s: Scene, input: UpdateSceneInput) -> (u: Scene)
        ensures
            spec_scene_update_ok(s, input, u),
    {
        let name = match input.name {
            Some(n) => n,
            None => s.name,
        };
        let data = match input.data {
            Some(d) => d,
            None => s.data,
        };
        let thumbnail = match input.thumbnail {
            Some(t) => Some(t),
            None => s.thumbnail,
        };
        Scene {
            id: s.id,
            workflow_id: s.workflow_id,
            name,
            data,
            thumbnail,
            created_at: s.created_at,
        }
    }
}

impl JobOps {
    /// The row a job creation inserts: a pending job with no timestamps,
    /// result or error beyond its creation time.
    pub fn new_record(id: String, now: &str, input: CreateJobInput) -> (j: Job)
        ensures
            j.id == id,
            j.workflow_id == input.workflow_id,
            j.scene_id == input.scene_id,
            j.job_type == input.job_type,
            j.status@ == "pending"@,
            j.data == input.data,
            j.result is None,
            j.error is None,
            j.created_at@ == now@,
            j.started_at is None,
            j.completed_at is None,
    {
        Job {
            id,
            workflow_id: input.workflow_id,
            scene_id: input.scene_id,
            job_type: input.job_type,
            status: String::from_str("pending"),
            data: input.data,
            result: None,
            error: None,
            created_at: String::from_str(now),
            started_at: None,
            completed_at: None,
        }
    }

    /// Applies a job update to a row.
    pub fn apply_update(job: Job, input: UpdateJobInput, now: &str) -> (u: Job)
        ensures
            spec_job_update_ok(job, input, now@, u),
    {
        let (status, started_at, completed_at) = match input.status {
            Some(s) => {
                let started_at = match job.started_at {
                    Some(t) => Some(t),
                    None => {
                        if str_eq(s.as_str(), "running") {
                            Some(String::from_str(now))
                        } else {
                            None
                        }
                    },
                };
                let completed_at = if str_eq(s.as_str(), "completed") || str_eq(
                    s.as_str(),
                    "failed",
                ) {
                    Some(String::from_str(now))
                } else {
                    None
                };
                (s, started_at, completed_at)
            },
            None => (job.status, job.started_at, job.completed_at),
        };
        let result = match input.result {
            Some(v) => Some(v),
            None => job.result,
        };
        let error = match input.error {
            Some(e) => Some(e),
            None => job.error,
        };
        Job {
            id: job.id,
            workflow_id: job.workflow_id,
            scene_id: job.scene_id,
            job_type: job.job_type,
            status,
            data: job.data,
            result,
            error,
            created_at: job.created_at,
            started_at,
            completed_at,
        }
    }
}

/// The greatest version number among the rows, zero when there are none.
pub open spec fn spec_max_version(s: Seq<WorkflowVersion>) -> int
    decreases s.len(),
{
    if s.len() == 0 {
        0
    } else if s.last().version as int > spec_max_version(s.drop_last()) {
        s.last().version as int
    } else {
        spec_max_version(s.drop_last())
    }
}

impl VersionOps {
    /// The next version number for a workflow: one past the greatest saved
    /// one.
    pub fn next_version(versions: &Vec<WorkflowVersion>) -> (r: i32)
        requires
            forall|i: int| 0 <= i < versions@.len() ==> (#[trigger] versions@[i].version) < i32::MAX,
        ensures
            r as int == spec_max_version(versions@) + 1,
    {
        let n = versions.len();
        let mut best: i32 = 0;
        let mut i: usize = 0;
        proof {
            assert(versions@.subrange(0, 0) =~= Seq::<WorkflowVersion>::empty());
        }
        while i < n
            invariant
                n == versions.len(),
                i <= n,
                best as int == spec_max_version(versions@.subrange(0, i as int)),
                best < i32::MAX,
                forall|j: int| 0 <= j < versions@.len() ==> (#[trigger] versions@[j].version)
                    < i32::MAX,
            decreases n - i,
        {
            proof {
                let pre = versions@.subrange(0, i + 1);
                assert(pre.drop_last() =~= versions@.subrange(0, i as int));
                assert(pre.last() == versions@[i as int]);
            }
            if versions[i].version > best {
                best = versions[i].version;
            }
            i += 1;
        }
        proof {
            assert(versions@.subrange(0, n as int) =~= versions@);
        }
        best + 1
    }

    /// The row a version creation inserts.
    pub fn new_record(
        id: i64,
        workflow_id: String,
        version: i32,
        data: ParamValue,
        now: &str,
    ) -> (v: WorkflowVersion)
        ensures
            v.id == id,
            v.workflow_id == workflow_id,
            v.version == version,
            v.data == data,
            v.created_at@ == now@,
    {
        WorkflowVersion { id, workflow_id, version, data, created_at: String::from_str(now) }
    }
}

/// A job's start timestamp is written at most once: once set, every update
/// preserves it.
pub proof fn lemma_started_at_set_at_most_once(
    job: Job,
    input: UpdateJobInput,
    now: Seq<char>,
    updated: Job,
)
    requires
        spec_job_update_ok(job, input, now, updated),
        job.started_at is Some,
    ensures
        updated.started_at == job.started_at,
{
}

/// A completion timestamp appears only on a transition into `completed` or
/// `failed`: an update that leaves one behind where none stood named a
/// terminal status.
pub proof fn lemma_completed_at_only_terminal(
    job: Job,
    input: UpdateJobInput,
    now: Seq<char>,
    updated: Job,
)
    requires
        spec_job_update_ok(job, input, now, updated),
        job.completed_at is None,
        updated.completed_at is Some,
    ensures
        input.status matches Some(s) && (s@ == "completed"@ || s@ == "failed"@),
{
}

/// The result and error fields move only when the update carries them.
pub proof fn lemma_result_error_only_when_given(
    job: Job,
    input: UpdateJobInput,
    now: Seq<char>,
    updated: Job,
)
    requires
        spec_job_update_ok(job, input, now, updated),
    ensures
        input.result is None ==> updated.result == job.result,
        input.error is None ==> updated.error == job.error,
{
}

} // verus!
