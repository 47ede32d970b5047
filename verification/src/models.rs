//! The persisted record types: workflows, their versions, scenes and jobs,
//! with the create/update input shapes. The storage collaborator holds the
//! rows; documents cross its boundary serialized, and stand here as
//! parameter documents.

use vstd::prelude::*;
use crate::params::ParamValue;

verus! {

/// A stored workflow.
#[derive(Debug, PartialEq)]
pub struct Workflow {
    pub id: String,
    pub name: String,
    pub workflow_type: String,
    pub data: ParamValue,
    pub created_at: String,
    pub updated_at: String,
}

/// The input of a workflow creation.
#[derive(Debug, PartialEq)]
pub struct CreateWorkflowInput {
    pub name: String,
    pub workflow_type: String,
    pub data: ParamValue,
}

/// The input of a workflow update: each field is written when present.
#[derive(Debug, PartialEq)]
pub struct UpdateWorkflowInput {
    pub name: Option<String>,
    pub data: Option<ParamValue>,
}

/// One saved version of a workflow's document.
#[derive(Debug, PartialEq)]
pub struct WorkflowVersion {
    pub id: i64,
    pub workflow_id: String,
    pub version: i32,
    pub data: ParamValue,
    pub created_at: String,
}

/// A stored scene.
#[derive(Debug, PartialEq)]
pub struct Scene {
    pub id: String,
    pub workflow_id: String,
    pub name: String,
    pub data: ParamValue,
    pub thumbnail: Option<String>,
    pub created_at: String,
}

/// The input of a scene creation.
#[derive(Debug, PartialEq)]
pub struct CreateSceneInput {
    pub workflow_id: String,
    pub name: String,
    pub data: ParamValue,
    pub thumbnail: Option<String>,
}

/// The input of a scene update: each field is written when present.
#[derive(Debug, PartialEq)]
pub struct UpdateSceneInput {
    pub name: Option<String>,
    pub data: Option<ParamValue>,
    pub thumbnail: Option<String>,
}

/// A queued generation request with its lifecycle state: pending, running,
/// completed or failed.
#[derive(Debug, PartialEq)]
pub struct Job {
    pub id: String,
    pub workflow_id: String,
    pub scene_id: Option<String>,
    pub job_type: String,
    pub status: String,
    pub data: ParamValue,
    pub result: Option<ParamValue>,
    pub error: Option<String>,
    pub created_at: String,
    pub started_at: Option<String>,
    pub completed_at: Option<String>,
}

/// The input of a job creation.
#[derive(Debug, PartialEq)]
pub struct CreateJobInput {
    pub workflow_id: String,
    pub scene_id: Option<String>,
    pub job_type: String,
    pub data: ParamValue,
}

/// The input of a job update: each field is written when present. A status
/// write also maintains the lifecycle timestamps.
#[derive(Debug, PartialEq)]
pub struct UpdateJobInput {
    pub status: Option<String>,
    pub result: Option<ParamValue>,
    pub error: Option<String>,
}

} // verus!
