//! The job processor's decision core: the idempotent start/stop control
//! state of the single background loop, and the per-job steps — parsing a
//! queued job's data into a generation request, and the updates written on
//! each lifecycle transition. The embedding application runs the loop:
//! fetch a batch of pending jobs, process them in creation order, sleep,
//! repeat.

use vstd::prelude::*;
use crate::gen::{GenerationRequest, GenerationResult};
use crate::models::{UpdateJobInput, UpdateSceneInput};
use crate::params::{
    kv, spec_entry, spec_get, spec_opt_str, spec_str_or, ParamValue,
};

verus! {

/// How many pending jobs one cycle fetches.
pub const JOB_BATCH_LIMIT: u32 = 10;

/// How long the loop sleeps between cycles, in milliseconds.
pub const CYCLE_SLEEP_MS: u64 = 5000;

/// The control state of the background loop.
#[derive(Debug, PartialEq, Eq, Structural, Clone, Copy)]
pub struct JobProcessor {
    pub is_running: bool,
}

/// What a start call does: the processor runs afterwards, and a new loop is
/// spawned exactly when none was running.
pub open spec fn spec_start(p: JobProcessor) -> (JobProcessor, bool) {
    (JobProcessor { is_running: true }, !p.is_running)
}

impl JobProcessor {
    /// A processor that is not yet running.
    pub fn new() -> (r: Self)
        ensures
            !r.is_running,
    {
        JobProcessor { is_running: false }
    }

    /// Marks the processor running. The caller spawns the background loop
    /// exactly when `spawned` comes back true: a second start while running
    /// is a no-op and spawns nothing.
    pub fn start(&mut self) -> (spawned: bool)
        ensures
            *final(self) == spec_start(*old(self)).0,
            spawned == spec_start(*old(self)).1,
    {
        let spawned = !self.is_running;
        self.is_running = true;
        spawned
    }

    /// Clears the running flag; the loop observes it and exits.
    pub fn stop(&mut self)
        ensures
            !final(self).is_running,
    {
        self.is_running = false;
    }
}

/// Starting twice leaves the same state as starting once, and the second
/// start spawns no loop: at most one loop is ever active.
pub proof fn lemma_start_idempotent(p: JobProcessor)
    ensures
        spec_start(spec_start(p).0).0 == spec_start(p).0,
        !spec_start(spec_start(p).0).1,
{
}

/// What parsing a job's data document yields: the named provider and the
/// normalized request, with the model defaulting to `default` and the
/// parameters defaulting to an empty document; a document without a
/// provider or without a prompt is rejected with the field named.
pub open spec fn spec_job_request_ok(
    data: ParamValue,
    r: Result<(String, GenerationRequest), String>,
) -> bool {
    match spec_opt_str(data, "provider"@) {
        None => r matches Err(e) && e@ == "Missing provider in job data"@,
        Some(provider) => match spec_opt_str(data, "prompt"@) {
            None => r matches Err(e) && e@ == "Missing prompt in job data"@,
            Some(prompt) => r matches Ok(p) && ({
                &&& p.0@ == provider
                &&& p.1.prompt@ == prompt
                &&& p.1.model@ == spec_str_or(data, "model"@, "default"@)
                &&& (match spec_get(data, "parameters"@) {
                    Some(v) => p.1.parameters == v,
                    None => p.1.parameters matches ParamValue::Obj(es) && es@.len() == 0,
                })
            }),
        },
    }
}

/// Parses a queued job's data document into the provider name and the
/// generation request.
pub fn parse_job_request(data: ParamValue) -> (r: Result<(String, GenerationRequest), String>)
    ensures
        spec_job_request_ok(data, r),
{
    let provider = match data.opt_str("provider") {
        Some(p) => p,
        None => {
            return Err(String::from_str("Missing provider in job data"));
        },
    };
    let prompt = match data.opt_str("prompt") {
        Some(p) => p,
        None => {
            return Err(String::from_str("Missing prompt in job data"));
        },
    };
    let model = data.str_or("model", "default");
    let mut data = data;
    let parameters = match data.take("parameters") {
        Some(v) => v,
        None => ParamValue::empty_obj(),
    };
    Ok((provider, GenerationRequest { prompt, model, parameters }))
}

/// The update that marks a job running: a status write alone.
pub fn running_update() -> (u: UpdateJobInput)
    ensures
        u.status matches Some(s) && s@ == "running"@,
        u.result is None,
        u.error is None,
{
    UpdateJobInput { status: Some(String::from_str("running")), result: None, error: None }
}

/// The serialized form of a generation result, as stored on a completed
/// job.
pub open spec fn spec_result_doc_ok(result: GenerationResult, doc: ParamValue) -> bool {
    doc matches ParamValue::Obj(es) && ({
        let e = es@;
        &&& e.len() == 4
        &&& e[0].0@ == "output_url"@
        &&& (match result.output_url {
            Some(u) => e[0].1 matches ParamValue::Str(s) && s@ == u@,
            None => e[0].1 is Null,
        })
        &&& e[1].0@ == "output_data"@
        &&& (match result.output_data {
            Some(d) => e[1].1 matches ParamValue::Str(s) && s@ == d@,
            None => e[1].1 is Null,
        })
        &&& e[2].0@ == "file_path"@
        &&& (match result.file_path {
            Some(f) => e[2].1 matches ParamValue::Str(s) && s@ == f@,
            None => e[2].1 is Null,
        })
        &&& spec_entry(e, 3, "metadata"@, result.metadata)
    })
}

/// The update that marks a job completed, carrying the serialized result
/// and no error.
pub fn completion_update(result: GenerationResult) -> (u: UpdateJobInput)
    ensures
        u.status matches Some(s) && s@ == "completed"@,
        u.result matches Some(doc) && spec_result_doc_ok(result, doc),
        u.error is None,
{
    let output_url = match result.output_url {
        Some(u) => ParamValue::Str(u),
        None => ParamValue::Null,
    };
    let output_data = match result.output_data {
        Some(d) => ParamValue::Str(d),
        None => ParamValue::Null,
    };
    let file_path = match result.file_path {
        Some(f) => ParamValue::Str(f),
        None => ParamValue::Null,
    };
    let mut es: Vec<(String, ParamValue)> = Vec::new();
    es.push(kv("output_url", output_url));
    es.push(kv("output_data", output_data));
    es.push(kv("file_path", file_path));
    es.push(kv("metadata", result.metadata));
    UpdateJobInput {
        status: Some(String::from_str("completed")),
        result: Some(ParamValue::Obj(es)),
        error: None,
    }
}

/// The update that marks a job failed, carrying the error's description and
/// no result.
pub fn failure_update(message: String) -> (u: UpdateJobInput)
    ensures
        u.status matches Some(s) && s@ == "failed"@,
        u.result is None,
        u.error == Some(message),
{
    UpdateJobInput { status: Some(String::from_str("failed")), result: None, error: Some(message) }
}

/// What a completed job offers a linked scene as its thumbnail: the output
/// URL, or the inline data when no URL is there.
pub fn thumbnail_source(result: &GenerationResult) -> (r: Option<String>)
    ensures
        match result.output_url {
            Some(u) => r matches Some(t) && t@ == u@,
            None => match result.output_data {
                Some(d) => r matches Some(t) && t@ == d@,
                None => r is None,
            },
        },
{
    match &result.output_url {
        Some(u) => Some(u.clone()),
        None => match &result.output_data {
            Some(d) => Some(d.clone()),
            None => None,
        },
    }
}

/// The best-effort scene update carrying a completed job's thumbnail.
pub fn scene_thumbnail_update(thumbnail: String) -> (u: UpdateSceneInput)
    ensures
        u.name is None,
        u.data is None,
        u.thumbnail == Some(thumbnail),
{
    UpdateSceneInput { name: None, data: None, thumbnail: Some(thumbnail) }
}

} // verus!
