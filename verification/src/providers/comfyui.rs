//! The ComfyUI provider: builds a directed txt2img workflow graph
//! (checkpoint loader, prompt and negative-prompt encoders, latent sizer,
//! sampler, decoder, save node), submits it, and resolves the output by
//! polling the history endpoint for the save node's emitted files.

use vstd::prelude::*;
use crate::error::GenError;
use crate::gen::{GenerationRequest, GenerationResult};
use crate::http::{spec_header_is, spec_is2xx, HttpReply, HttpRequest, Method};
use crate::params::{
    kv, spec_as_str, spec_centi_or, spec_entry, spec_entry_str, spec_get, spec_i64_or,
    spec_opt_str, spec_str_or, spec_u64_or, str_node, ParamValue,
};
use crate::session::{GenStep, SdContext, SessionState};
use crate::strutil::{concat2, concat3};

use crate::providers::{schema_field, schema_with, spec_schema_field, spec_schema_props};

verus! {

/// ComfyUI provider configuration.
#[derive(Debug, PartialEq)]
pub struct ComfyUIConfig {
    pub api_url: String,
}

/// ComfyUI provider.
#[derive(Debug, PartialEq)]
pub struct ComfyUIProvider {
    pub config: Option<ComfyUIConfig>,
}

/// The generation parameters extracted from the request, each with its
/// documented default; the model checkpoint is required.
pub open spec fn spec_ctx_ok(req: GenerationRequest, ctx: SdContext) -> bool {
    &&& ctx.prompt@ == req.prompt@
    &&& ctx.negative_prompt@ == spec_str_or(req.parameters, "negative_prompt"@, ""@)
    &&& ctx.steps == spec_u64_or(req.parameters, "steps"@, 20) as u32
    &&& ctx.cfg_centi == spec_centi_or(req.parameters, "cfg_scale"@, 700)
    &&& ctx.width == spec_u64_or(req.parameters, "width"@, 512) as u32
    &&& ctx.height == spec_u64_or(req.parameters, "height"@, 512) as u32
    &&& ctx.sampler@ == spec_str_or(req.parameters, "sampler"@, "euler"@)
    &&& ctx.seed == spec_i64_or(req.parameters, "seed"@, -1i64)
    &&& (ctx.model matches Some(m) && spec_opt_str(req.parameters, "model"@) == Some(m@))
}

/// A graph edge: the output slot `slot` of node `node`.
pub open spec fn spec_link(v: ParamValue, node: Seq<char>, slot: i64) -> bool {
    v matches ParamValue::Arr(items) && items@.len() == 2 && spec_as_str(items@[0]) == Some(node)
        && items@[1] == ParamValue::Int(slot)
}

/// A graph node of the given class; yields its inputs object.
pub open spec fn spec_node_inputs(v: ParamValue, class: Seq<char>) -> Option<ParamValue> {
    match v {
        ParamValue::Obj(es) => if es@.len() == 2 && es@[0].0@ == "class_type"@ && spec_as_str(
            es@[0].1,
        ) == Some(class) && es@[1].0@ == "inputs"@ {
            Some(es@[1].1)
        } else {
            None
        },
        _ => None,
    }
}

/// The txt2img workflow graph: checkpoint loader (1), prompt encoder (2),
/// negative-prompt encoder (3), latent sizer (4), sampler (5), decoder (6)
/// and save node (7), wired in that order.
pub open spec fn spec_workflow_ok(
    prompt: Seq<char>,
    negative_prompt: Seq<char>,
    model: Seq<char>,
    steps: u32,
    cfg_centi: i64,
    width: u32,
    height: u32,
    sampler: Seq<char>,
    seed: i64,
    w: ParamValue,
) -> bool {
    w matches ParamValue::Obj(es) && ({
        let e = es@;
        &&& e.len() == 7
        &&& e[0].0@ == "1"@
        &&& (match spec_node_inputs(e[0].1, "CheckpointLoaderSimple"@) {
            Some(ParamValue::Obj(ii)) => ii@.len() == 1 && spec_entry_str(
                ii@,
                0,
                "ckpt_name"@,
                model,
            ),
            _ => false,
        })
        &&& e[1].0@ == "2"@
        &&& (match spec_node_inputs(e[1].1, "CLIPTextEncode"@) {
            Some(ParamValue::Obj(ii)) => ii@.len() == 2 && spec_entry_str(ii@, 0, "text"@, prompt)
                && ii@[1].0@ == "clip"@ && spec_link(ii@[1].1, "1"@, 1),
            _ => false,
        })
        &&& e[2].0@ == "3"@
        &&& (match spec_node_inputs(e[2].1, "CLIPTextEncode"@) {
            Some(ParamValue::Obj(ii)) => ii@.len() == 2 && spec_entry_str(
                ii@,
                0,
                "text"@,
                negative_prompt,
            ) && ii@[1].0@ == "clip"@ && spec_link(ii@[1].1, "1"@, 1),
            _ => false,
        })
        &&& e[3].0@ == "4"@
        &&& (match spec_node_inputs(e[3].1, "EmptyLatentImage"@) {
            Some(ParamValue::Obj(ii)) => ii@.len() == 3 && spec_entry(
                ii@,
                0,
                "width"@,
                ParamValue::Int(width as i64),
            ) && spec_entry(ii@, 1, "height"@, ParamValue::Int(height as i64)) && spec_entry(
                ii@,
                2,
                "batch_size"@,
                ParamValue::Int(1),
            ),
            _ => false,
        })
        &&& e[4].0@ == "5"@
        &&& (match spec_node_inputs(e[4].1, "KSampler"@) {
            Some(ParamValue::Obj(ii)) => ({
                let i = ii@;
                &&& i.len() == 10
                &&& spec_entry(i, 0, "seed"@, ParamValue::Int(seed))
                &&& spec_entry(i, 1, "steps"@, ParamValue::Int(steps as i64))
                &&& spec_entry(i, 2, "cfg"@, ParamValue::Dec(cfg_centi))
                &&& spec_entry_str(i, 3, "sampler_name"@, sampler)
                &&& spec_entry_str(i, 4, "scheduler"@, "normal"@)
                &&& spec_entry(i, 5, "denoise"@, ParamValue::Dec(100))
                &&& i[6].0@ == "model"@ && spec_link(i[6].1, "1"@, 0)
                &&& i[7].0@ == "positive"@ && spec_link(i[7].1, "2"@, 0)
                &&& i[8].0@ == "negative"@ && spec_link(i[8].1, "3"@, 0)
                &&& i[9].0@ == "latent_image"@ && spec_link(i[9].1, "4"@, 0)
            }),
            _ => false,
        })
        &&& e[5].0@ == "6"@
        &&& (match spec_node_inputs(e[5].1, "VAEDecode"@) {
            Some(ParamValue::Obj(ii)) => ii@.len() == 2 && ii@[0].0@ == "samples"@ && spec_link(
                ii@[0].1,
                "5"@,
                0,
            ) && ii@[1].0@ == "vae"@ && spec_link(ii@[1].1, "1"@, 2),
            _ => false,
        })
        &&& e[6].0@ == "7"@
        &&& (match spec_node_inputs(e[6].1, "SaveImage"@) {
            Some(ParamValue::Obj(ii)) => ii@.len() == 2 && spec_entry_str(
                ii@,
                0,
                "filename_prefix"@,
                "ComfyUI"@,
            ) && ii@[1].0@ == "images"@ && spec_link(ii@[1].1, "6"@, 0),
            _ => false,
        })
    })
}

/// A configured begin step with a model named: the workflow graph POSTed to
/// the prompt endpoint, awaiting the prompt id.
pub open spec fn spec_submit_begin(cfg: ComfyUIConfig, req: GenerationRequest, r: GenStep) -> bool {
    r matches GenStep::Send { request, state } && ({
        &&& request.method == Method::Post
        &&& request.url@ == cfg.api_url@ + "/prompt"@
        &&& request.headers@.len() == 1
        &&& spec_header_is(request.headers@, 0, "Content-Type"@, "application/json"@)
        &&& (state matches SessionState::ComfySubmit { api_url, ctx } && api_url@ == cfg.api_url@
            && spec_ctx_ok(req, ctx) && (request.body matches Some(ParamValue::Obj(es))
            && es@.len() == 1 && es@[0].0@ == "prompt"@ && (match ctx.model {
            Some(m) => spec_workflow_ok(
                ctx.prompt@,
                ctx.negative_prompt@,
                m@,
                ctx.steps,
                ctx.cfg_centi,
                ctx.width,
                ctx.height,
                ctx.sampler@,
                ctx.seed,
                es@[0].1,
            ),
            None => false,
        })))
    })
}

/// The history poll for one submitted workflow.
pub open spec fn spec_poll_request(api_url: Seq<char>, prompt_id: Seq<char>, r: HttpRequest) -> bool {
    &&& r.method == Method::Get
    &&& r.url@ == api_url + "/history/"@ + prompt_id
    &&& r.headers@.len() == 0
    &&& r.body is None
}

/// How the submission reply is interpreted: the prompt id must be there; the
/// first history poll follows after one second.
pub open spec fn spec_submit_reply(
    api_url: Seq<char>,
    ctx: SdContext,
    reply: HttpReply,
    r: GenStep,
) -> bool {
    if !spec_is2xx(reply.status) {
        r matches GenStep::Fail { error: GenError::Remote { status, body } } && status
            == reply.status && body@ == reply.body_text@
    } else {
        match reply.body_json {
            None => r matches GenStep::Fail { error: GenError::Malformed { reason } } && reason@
                == "response body is not JSON"@,
            Some(data) => match spec_opt_str(data, "prompt_id"@) {
                None => r matches GenStep::Fail { error: GenError::Malformed { reason } }
                    && reason@ == "No prompt_id in response"@,
                Some(pid) => r matches GenStep::SleepSend { delay_ms, request, state } && ({
                    &&& delay_ms == 1000
                    &&& spec_poll_request(api_url, pid, request)
                    &&& (state matches SessionState::ComfyPoll {
                        api_url: a,
                        prompt_id,
                        ctx: c,
                        attempts,
                    } && a@ == api_url && prompt_id@ == pid && c == ctx && attempts == 1)
                }),
            },
        }
    }
}

/// The file emitted by one history image entry, when it names both its
/// filename and its subfolder.
pub open spec fn spec_file_of(img: ParamValue) -> Option<(Seq<char>, Seq<char>)> {
    match spec_opt_str(img, "filename"@) {
        Some(f) => match spec_opt_str(img, "subfolder"@) {
            Some(s) => Some((f, s)),
            None => None,
        },
        None => None,
    }
}

/// The first well-formed file among the history image entries.
pub open spec fn spec_first_file(imgs: Seq<ParamValue>) -> Option<(Seq<char>, Seq<char>)>
    decreases imgs.len(),
{
    if imgs.len() == 0 {
        None
    } else {
        match spec_file_of(imgs[0]) {
            Some(p) => Some(p),
            None => spec_first_file(imgs.drop_first()),
        }
    }
}

/// The first output file recorded in the history for this prompt id, under
/// the save node's outputs.
pub open spec fn spec_history_file(history: ParamValue, prompt_id: Seq<char>) -> Option<
    (Seq<char>, Seq<char>),
> {
    match spec_get(history, prompt_id) {
        Some(ph) => match spec_get(ph, "outputs"@) {
            Some(outs) => match spec_get(outs, "7"@) {
                Some(save) => match spec_get(save, "images"@) {
                    Some(ParamValue::Arr(imgs)) => spec_first_file(imgs@),
                    _ => None,
                },
                None => None,
            },
            None => None,
        },
        None => None,
    }
}

/// The constructible view URL of an emitted file.
pub open spec fn spec_view_url(api_url: Seq<char>, f: Seq<char>, s: Seq<char>) -> Seq<char> {
    api_url + "/view?filename="@ + f + "&subfolder="@ + s + "&type=output"@
}

/// The result built from a resolved workflow: the first emitted file's view
/// URL, with the prompt id and the echoed parameters as metadata.
pub open spec fn spec_poll_result(
    api_url: Seq<char>,
    prompt_id: Seq<char>,
    ctx: SdContext,
    f: Seq<char>,
    s: Seq<char>,
    result: GenerationResult,
) -> bool {
    &&& (result.output_url matches Some(u) && u@ == spec_view_url(api_url, f, s))
    &&& result.output_data is None
    &&& result.file_path is None
    &&& (result.metadata matches ParamValue::Obj(es) && ({
        let e = es@;
        &&& e.len() == 3
        &&& spec_entry_str(e, 0, "provider"@, "comfyui"@)
        &&& spec_entry_str(e, 1, "prompt_id"@, prompt_id)
        &&& e[2].0@ == "parameters"@
        &&& (e[2].1 matches ParamValue::Obj(ps) && ({
            let p = ps@;
            &&& p.len() == 9
            &&& spec_entry_str(p, 0, "prompt"@, ctx.prompt@)
            &&& spec_entry_str(p, 1, "negative_prompt"@, ctx.negative_prompt@)
            &&& spec_entry_str(
                p,
                2,
                "model"@,
                (match ctx.model {
                    Some(m) => m@,
                    None => ""@,
                }),
            )
            &&& spec_entry(p, 3, "steps"@, ParamValue::Int(ctx.steps as i64))
            &&& spec_entry(p, 4, "cfg_scale"@, ParamValue::Dec(ctx.cfg_centi))
            &&& spec_entry(p, 5, "width"@, ParamValue::Int(ctx.width as i64))
            &&& spec_entry(p, 6, "height"@, ParamValue::Int(ctx.height as i64))
            &&& spec_entry_str(p, 7, "sampler"@, ctx.sampler@)
            &&& spec_entry(p, 8, "seed"@, ParamValue::Int(ctx.seed))
        }))
    }))
}

/// How one history poll is interpreted: a non-2xx status or a history
/// without the output yet retries after one second, up to 60 polls; an
/// unparsable 2xx body is fatal; an emitted file resolves the generation.
pub open spec fn spec_poll_reply(
    api_url: Seq<char>,
    prompt_id: Seq<char>,
    ctx: SdContext,
    attempts: u32,
    reply: HttpReply,
    r: GenStep,
) -> bool {
    if !spec_is2xx(reply.status) {
        spec_poll_retry(api_url, prompt_id, ctx, attempts, r)
    } else {
        match reply.body_json {
            None => r matches GenStep::Fail { error: GenError::Malformed { reason } } && reason@
                == "response body is not JSON"@,
            Some(history) => match spec_history_file(history, prompt_id) {
                Some((f, s)) => r matches GenStep::Done { result } && spec_poll_result(
                    api_url,
                    prompt_id,
                    ctx,
                    f,
                    s,
                    result,
                ),
                None => spec_poll_retry(api_url, prompt_id, ctx, attempts, r),
            },
        }
    }
}

/// One more poll after one second, or a timeout at the attempt ceiling.
pub open spec fn spec_poll_retry(
    api_url: Seq<char>,
    prompt_id: Seq<char>,
    ctx: SdContext,
    attempts: u32,
    r: GenStep,
) -> bool {
    if attempts >= 60 {
        r matches GenStep::Fail { error: GenError::Timeout { attempts: a } } && a == attempts
    } else {
        r matches GenStep::SleepSend { delay_ms, request, state } && ({
            &&& delay_ms == 1000
            &&& spec_poll_request(api_url, prompt_id, request)
            &&& (state matches SessionState::ComfyPoll {
                api_url: a,
                prompt_id: p,
                ctx: c,
                attempts: at,
            } && a@ == api_url && p@ == prompt_id && c == ctx && at == attempts + 1)
        })
    }
}

/// Builds a graph edge.
fn link(node: &str, slot: i64) -> (r: ParamValue)
    ensures
        spec_link(r, node@, slot),
{
    let mut items: Vec<ParamValue> = Vec::new();
    items.push(str_node(node));
    items.push(ParamValue::Int(slot));
    ParamValue::Arr(items)
}

/// Builds a graph node of the given class around its inputs.
fn node(class: &str, inputs: Vec<(String, ParamValue)>) -> (r: ParamValue)
    ensures
        spec_node_inputs(r, class@) == Some(ParamValue::Obj(inputs)),
{
    let mut es: Vec<(String, ParamValue)> = Vec::new();
    es.push(kv("class_type", str_node(class)));
    es.push(kv("inputs", ParamValue::Obj(inputs)));
    ParamValue::Obj(es)
}

impl ComfyUIProvider {
    /// An unconfigured placeholder.
    pub fn new() -> (r: Self)
        ensures
            r.config is None,
    {
        ComfyUIProvider { config: None }
    }

    /// A configured instance.
    pub fn with_config(config: ComfyUIConfig) -> (r: Self)
        ensures
            r.config == Some(config),
    {
        ComfyUIProvider { config: Some(config) }
    }

    /// The registry key of this provider.
    pub fn name(&self) -> (r: &'static str)
        ensures
            r@ == "comfyui"@,
    {
        "comfyui"
    }

    /// Whether the instance holds usable configuration.
    pub fn is_available(&self) -> (r: bool)
        ensures
            r == (self.config is Some),
    {
        self.config.is_some()
    }

    /// Builds the txt2img workflow graph around the given parameters.
    pub fn build_txt2img_workflow(
        &self,
        prompt: &str,
        negative_prompt: &str,
        model: &str,
        steps: u32,
        cfg_centi: i64,
        width: u32,
        height: u32,
        sampler: &str,
        seed: i64,
    ) -> (r: ParamValue)
        ensures
            spec_workflow_ok(
                prompt@,
                negative_prompt@,
                model@,
                steps,
                cfg_centi,
                width,
                height,
                sampler@,
                seed,
                r,
            ),
    {
        let mut i1: Vec<(String, ParamValue)> = Vec::new();
        i1.push(kv("ckpt_name", str_node(model)));

        let mut i2: Vec<(String, ParamValue)> = Vec::new();
        i2.push(kv("text", str_node(prompt)));
        i2.push(kv("clip", link("1", 1)));

        let mut i3: Vec<(String, ParamValue)> = Vec::new();
        i3.push(kv("text", str_node(negative_prompt)));
        i3.push(kv("clip", link("1", 1)));

        let mut i4: Vec<(String, ParamValue)> = Vec::new();
        i4.push(kv("width", ParamValue::Int(width as i64)));
        i4.push(kv("height", ParamValue::Int(height as i64)));
        i4.push(kv("batch_size", ParamValue::Int(1)));

        let mut i5: Vec<(String, ParamValue)> = Vec::new();
        i5.push(kv("seed", ParamValue::Int(seed)));
        i5.push(kv("steps", ParamValue::Int(steps as i64)));
        i5.push(kv("cfg", ParamValue::Dec(cfg_centi)));
        i5.push(kv("sampler_name", str_node(sampler)));
        i5.push(kv("scheduler", str_node("normal")));
        i5.push(kv("denoise", ParamValue::Dec(100)));
        i5.push(kv("model", link("1", 0)));
        i5.push(kv("positive", link("2", 0)));
        i5.push(kv("negative", link("3", 0)));
        i5.push(kv("latent_image", link("4", 0)));

        let mut i6: Vec<(String, ParamValue)> = Vec::new();
        i6.push(kv("samples", link("5", 0)));
        i6.push(kv("vae", link("1", 2)));

        let mut i7: Vec<(String, ParamValue)> = Vec::new();
        i7.push(kv("filename_prefix", str_node("ComfyUI")));
        i7.push(kv("images", link("6", 0)));

        let mut es: Vec<(String, ParamValue)> = Vec::new();
        es.push(kv("1", node("CheckpointLoaderSimple", i1)));
        es.push(kv("2", node("CLIPTextEncode", i2)));
        es.push(kv("3", node("CLIPTextEncode", i3)));
        es.push(kv("4", node("EmptyLatentImage", i4)));
        es.push(kv("5", node("KSampler", i5)));
        es.push(kv("6", node("VAEDecode", i6)));
        es.push(kv("7", node("SaveImage", i7)));
        ParamValue::Obj(es)
    }

    /// The first step of a generation call: the workflow submission, or
    /// `NotConfigured` when no endpoint was supplied, or `InvalidRequest`
    /// when the parameters name no checkpoint. Every model value is routed
    /// to the image path.
    pub fn begin(&self, req: GenerationRequest) -> (r: GenStep)
        ensures
            match self.config {
                None => r matches GenStep::Fail {
                    error: GenError::NotConfigured { detail },
                } && detail@ == "ComfyUI API URL not configured"@,
                Some(cfg) => {
                    if spec_opt_str(req.parameters, "model"@) is None {
                        r matches GenStep::Fail { error: GenError::InvalidRequest { detail } }
                            && detail@ == "Model checkpoint required for ComfyUI"@
                    } else {
                        spec_submit_begin(cfg, req, r)
                    }
                },
            },
    {
        let cfg = match &self.config {
            Some(cfg) => cfg,
            None => {
                return GenStep::Fail {
                    error: GenError::NotConfigured {
                        detail: String::from_str("ComfyUI API URL not configured"),
                    },
                };
            },
        };
        let p = &req.parameters;
        let model = match p.opt_str("model") {
            Some(m) => m,
            None => {
                return GenStep::Fail {
                    error: GenError::InvalidRequest {
                        detail: String::from_str("Model checkpoint required for ComfyUI"),
                    },
                };
            },
        };
        let negative_prompt = p.str_or("negative_prompt", "");
        let steps64 = p.u64_or("steps", 20);
        let steps: u32 = #[verifier::truncate] (steps64 as u32);
        let cfg_centi = p.centi_or("cfg_scale", 700);
        let width64 = p.u64_or("width", 512);
        let width: u32 = #[verifier::truncate] (width64 as u32);
        let height64 = p.u64_or("height", 512);
        let height: u32 = #[verifier::truncate] (height64 as u32);
        let sampler = p.str_or("sampler", "euler");
        let seed = p.i64_or("seed", -1);

        let workflow = self.build_txt2img_workflow(
            req.prompt.as_str(),
            negative_prompt.as_str(),
            model.as_str(),
            steps,
            cfg_centi,
            width,
            height,
            sampler.as_str(),
            seed,
        );
        let mut entries: Vec<(String, ParamValue)> = Vec::new();
        entries.push(kv("prompt", workflow));
        let body = ParamValue::Obj(entries);

        let url = concat2(cfg.api_url.as_str(), "/prompt");
        let mut headers: Vec<(String, String)> = Vec::new();
        headers.push((String::from_str("Content-Type"), String::from_str("application/json")));

        let ctx = SdContext {
            prompt: req.prompt,
            negative_prompt,
            model: Some(model),
            steps,
            cfg_centi,
            width,
            height,
            sampler,
            seed,
        };
        GenStep::Send {
            request: HttpRequest { method: Method::Post, url, headers, body: Some(body) },
            state: SessionState::ComfySubmit { api_url: cfg.api_url.clone(), ctx },
        }
    }
}

/// Builds the history poll for one submitted workflow.
fn poll_request(api_url: &str, prompt_id: &str) -> (r: HttpRequest)
    ensures
        spec_poll_request(api_url@, prompt_id@, r),
{
    HttpRequest {
        method: Method::Get,
        url: concat3(api_url, "/history/", prompt_id),
        headers: Vec::new(),
        body: None,
    }
}

/// Interprets the submission reply.
pub fn on_submit_reply(api_url: String, ctx: SdContext, reply: HttpReply) -> (r: GenStep)
    ensures
        spec_submit_reply(api_url@, ctx, reply, r),
{
    if !crate::http::is2xx(reply.status) {
        return GenStep::Fail {
            error: GenError::Remote { status: reply.status, body: reply.body_text },
        };
    }
    let data = match reply.body_json {
        Some(data) => data,
        None => {
            return GenStep::Fail {
                error: GenError::Malformed {
                    reason: String::from_str("response body is not JSON"),
                },
            };
        },
    };
    let prompt_id = match data.opt_str("prompt_id") {
        Some(pid) => pid,
        None => {
            return GenStep::Fail {
                error: GenError::Malformed {
                    reason: String::from_str("No prompt_id in response"),
                },
            };
        },
    };
    let request = poll_request(api_url.as_str(), prompt_id.as_str());
    GenStep::SleepSend {
        delay_ms: 1000,
        request,
        state: SessionState::ComfyPoll { api_url, prompt_id, ctx, attempts: 1 },
    }
}

/// One more poll after one second, or the timeout at the attempt ceiling.
fn poll_retry(api_url: String, prompt_id: String, ctx: SdContext, attempts: u32) -> (r: GenStep)
    ensures
        spec_poll_retry(api_url@, prompt_id@, ctx, attempts, r),
{
    if attempts >= 60 {
        return GenStep::Fail { error: GenError::Timeout { attempts } };
    }
    let request = poll_request(api_url.as_str(), prompt_id.as_str());
    GenStep::SleepSend {
        delay_ms: 1000,
        request,
        state: SessionState::ComfyPoll { api_url, prompt_id, ctx, attempts: attempts + 1 },
    }
}

/// Finds the first well-formed file among the history image entries.
fn first_file(imgs: &Vec<ParamValue>) -> (r: Option<(String, String)>)
    ensures
        match r {
            Some(p) => spec_first_file(imgs@) == Some((p.0@, p.1@)),
            None => spec_first_file(imgs@) is None,
        },
{
    let n = imgs.len();
    let mut i: usize = 0;
    proof {
        assert(imgs@.skip(0) =~= imgs@);
    }
    while i < n
        invariant
            n == imgs.len(),
            i <= n,
            spec_first_file(imgs@) == spec_first_file(imgs@.skip(i as int)),
        decreases n - i,
    {
        proof {
            assert(imgs@.skip(i as int)[0] == imgs@[i as int]);
            assert(imgs@.skip(i as int).drop_first() =~= imgs@.skip(i + 1));
        }
        let f = imgs[i].opt_str("filename");
        match f {
            Some(f) => {
                match imgs[i].opt_str("subfolder") {
                    Some(s) => {
                        return Some((f, s));
                    },
                    None => {},
                }
            },
            None => {},
        }
        i += 1;
    }
    proof {
        assert(imgs@.skip(n as int) =~= Seq::<ParamValue>::empty());
    }
    None
}

/// Interprets one history poll.
pub fn on_poll_reply(
    api_url: String,
    prompt_id: String,
    ctx: SdContext,
    attempts: u32,
    reply: HttpReply,
) -> (r: GenStep)
    ensures
        spec_poll_reply(api_url@, prompt_id@, ctx, attempts, reply, r),
{
    if !crate::http::is2xx(reply.status) {
        return poll_retry(api_url, prompt_id, ctx, attempts);
    }
    let history = match reply.body_json {
        Some(h) => h,
        None => {
            return GenStep::Fail {
                error: GenError::Malformed {
                    reason: String::from_str("response body is not JSON"),
                },
            };
        },
    };
    let file: Option<(String, String)> = match history.get(prompt_id.as_str()) {
        Some(ph) => match ph.get("outputs") {
            Some(outs) => match outs.get("7") {
                Some(save) => match save.get("images") {
                    Some(ParamValue::Arr(imgs)) => first_file(imgs),
                    _ => None,
                },
                None => None,
            },
            None => None,
        },
        None => None,
    };
    let (f, s) = match file {
        Some(p) => p,
        None => {
            return poll_retry(api_url, prompt_id, ctx, attempts);
        },
    };
    let url = concat2(
        concat3(
            concat3(api_url.as_str(), "/view?filename=", f.as_str()).as_str(),
            "&subfolder=",
            s.as_str(),
        ).as_str(),
        "&type=output",
    );

    let model = match &ctx.model {
        Some(m) => m.clone(),
        None => String::from_str(""),
    };
    let mut params: Vec<(String, ParamValue)> = Vec::new();
    params.push(kv("prompt", ParamValue::Str(ctx.prompt)));
    params.push(kv("negative_prompt", ParamValue::Str(ctx.negative_prompt)));
    params.push(kv("model", ParamValue::Str(model)));
    params.push(kv("steps", ParamValue::Int(ctx.steps as i64)));
    params.push(kv("cfg_scale", ParamValue::Dec(ctx.cfg_centi)));
    params.push(kv("width", ParamValue::Int(ctx.width as i64)));
    params.push(kv("height", ParamValue::Int(ctx.height as i64)));
    params.push(kv("sampler", ParamValue::Str(ctx.sampler)));
    params.push(kv("seed", ParamValue::Int(ctx.seed)));

    let mut meta: Vec<(String, ParamValue)> = Vec::new();
    meta.push(kv("provider", str_node("comfyui")));
    meta.push(kv("prompt_id", ParamValue::Str(prompt_id)));
    meta.push(kv("parameters", ParamValue::Obj(params)));

    GenStep::Done {
        result: GenerationResult {
            output_url: Some(url),
            output_data: None,
            file_path: None,
            metadata: ParamValue::Obj(meta),
        },
    }
}

/// The declared configuration fields of this provider, for UI generation.
pub open spec fn spec_config_schema(r: ParamValue) -> bool {
    match spec_schema_props(r, "api_url"@) {
        Some(ps) => {
            &&& ps.len() == 1
        &&& ps[0].0@ == "api_url"@
        &&& spec_schema_field(ps[0].1, "string"@, "API URL"@, Some("ComfyUI API URL"@), Some("http://127.0.0.1:8188"@))
        },
        None => false,
    }
}

impl ComfyUIProvider {
    /// The configuration fields a caller must supply, as a schema document.
    pub fn config_schema(&self) -> (r: ParamValue)
        ensures
            spec_config_schema(r),
    {
        let mut props: Vec<(String, ParamValue)> = Vec::new();
        props.push(kv("api_url", schema_field("string", "API URL", Some("ComfyUI API URL"), Some("http://127.0.0.1:8188"))));
        schema_with(props, "api_url")
    }
}

} // verus!
