//! The Automatic1111 Stable Diffusion WebUI provider: one POST against the
//! txt2img endpoint, with documented parameter defaults, answered by an
//! array of base64-encoded images.

use vstd::prelude::*;
use crate::error::GenError;
use crate::gen::{GenerationRequest, GenerationResult};
use crate::http::{spec_header_is, spec_is2xx, HttpReply, HttpRequest, Method};
use crate::params::{
    kv, spec_as_str, spec_centi_or, spec_entry, spec_entry_str, spec_get, spec_i64_or,
    spec_opt_str, spec_str_or, spec_u64_or, str_node, ParamValue,
};
use crate::session::{GenStep, SdContext, SessionState};
use crate::strutil::concat2;

use crate::providers::{schema_field, schema_with, spec_schema_field, spec_schema_props};

verus! {

/// Automatic1111 provider configuration.
#[derive(Debug, PartialEq)]
pub struct A1111Config {
    pub api_url: String,
}

/// Automatic1111 Stable Diffusion WebUI provider.
#[derive(Debug, PartialEq)]
pub struct A1111Provider {
    pub config: Option<A1111Config>,
}

/// The generation parameters extracted from the request, each with its
/// documented default.
pub open spec fn spec_ctx_ok(req: GenerationRequest, ctx: SdContext) -> bool {
    &&& ctx.prompt@ == req.prompt@
    &&& ctx.negative_prompt@ == spec_str_or(req.parameters, "negative_prompt"@, ""@)
    &&& ctx.steps == spec_u64_or(req.parameters, "steps"@, 20) as u32
    &&& ctx.cfg_centi == spec_centi_or(req.parameters, "cfg_scale"@, 700)
    &&& ctx.width == spec_u64_or(req.parameters, "width"@, 512) as u32
    &&& ctx.height == spec_u64_or(req.parameters, "height"@, 512) as u32
    &&& ctx.sampler@ == spec_str_or(req.parameters, "sampler"@, "Euler a"@)
    &&& ctx.seed == (spec_i64_or(req.parameters, "seed"@, -1i64) as i32) as i64
    &&& (match ctx.model {
        Some(m) => spec_opt_str(req.parameters, "model"@) == Some(m@),
        None => spec_opt_str(req.parameters, "model"@) is None,
    })
}

/// The txt2img request body: the context field for field, a single-image
/// batch, and, exactly when a checkpoint was named, an override block.
pub open spec fn spec_body_ok(ctx: SdContext, body: ParamValue) -> bool {
    body matches ParamValue::Obj(es) && ({
        let e = es@;
        &&& e.len() == (if ctx.model is Some {
            11int
        } else {
            10int
        })
        &&& spec_entry_str(e, 0, "prompt"@, ctx.prompt@)
        &&& spec_entry_str(e, 1, "negative_prompt"@, ctx.negative_prompt@)
        &&& spec_entry(e, 2, "steps"@, ParamValue::Int(ctx.steps as i64))
        &&& spec_entry(e, 3, "cfg_scale"@, ParamValue::Dec(ctx.cfg_centi))
        &&& spec_entry(e, 4, "width"@, ParamValue::Int(ctx.width as i64))
        &&& spec_entry(e, 5, "height"@, ParamValue::Int(ctx.height as i64))
        &&& spec_entry_str(e, 6, "sampler_name"@, ctx.sampler@)
        &&& spec_entry(e, 7, "seed"@, ParamValue::Int(ctx.seed))
        &&& spec_entry(e, 8, "n_iter"@, ParamValue::Int(1))
        &&& spec_entry(e, 9, "batch_size"@, ParamValue::Int(1))
        &&& (match ctx.model {
            Some(m) => e[10].0@ == "override_settings"@ && (e[10].1 matches ParamValue::Obj(o)
                && o@.len() == 1 && spec_entry_str(o@, 0, "sd_model_checkpoint"@, m@)),
            None => true,
        })
    })
}

/// A configured begin step: one POST of the txt2img body against the
/// configured endpoint, awaiting an image reply under the extracted context.
pub open spec fn spec_image_begin(cfg: A1111Config, req: GenerationRequest, r: GenStep) -> bool {
    r matches GenStep::Send { request, state } && ({
        &&& request.method == Method::Post
        &&& request.url@ == cfg.api_url@ + "/sdapi/v1/txt2img"@
        &&& request.headers@.len() == 1
        &&& spec_header_is(request.headers@, 0, "Content-Type"@, "application/json"@)
        &&& (state matches SessionState::A1111Image { ctx } && spec_ctx_ok(req, ctx) && (
        request.body matches Some(b) && spec_body_ok(ctx, b)))
    })
}

/// The result built from a successful txt2img reply: the first image as the
/// inline payload, the generation info and the echoed parameters as
/// metadata.
pub open spec fn spec_image_result(
    ctx: SdContext,
    data: ParamValue,
    images: Seq<ParamValue>,
    result: GenerationResult,
) -> bool {
    &&& result.output_url is None
    &&& result.file_path is None
    &&& (result.output_data matches Some(d) && Some(d@) == spec_as_str(images[0]))
    &&& (result.metadata matches ParamValue::Obj(es) && ({
        let e = es@;
        &&& e.len() == 3
        &&& spec_entry_str(e, 0, "provider"@, "a1111"@)
        &&& spec_entry_str(e, 1, "info"@, spec_str_or(data, "info"@, ""@))
        &&& e[2].0@ == "parameters"@
        &&& (e[2].1 matches ParamValue::Obj(ps) && ({
            let p = ps@;
            &&& p.len() == 8
            &&& spec_entry_str(p, 0, "prompt"@, ctx.prompt@)
            &&& spec_entry_str(p, 1, "negative_prompt"@, ctx.negative_prompt@)
            &&& spec_entry(p, 2, "steps"@, ParamValue::Int(ctx.steps as i64))
            &&& spec_entry(p, 3, "cfg_scale"@, ParamValue::Dec(ctx.cfg_centi))
            &&& spec_entry(p, 4, "width"@, ParamValue::Int(ctx.width as i64))
            &&& spec_entry(p, 5, "height"@, ParamValue::Int(ctx.height as i64))
            &&& spec_entry_str(p, 6, "sampler"@, ctx.sampler@)
            &&& spec_entry(p, 7, "seed"@, ParamValue::Int(ctx.seed))
        }))
    }))
}

/// How a txt2img reply is interpreted: a non-2xx status is a remote error
/// carrying the raw body; a 2xx reply must be JSON carrying a non-empty
/// `images` array whose first entry is a base64 string.
pub open spec fn spec_image_reply(ctx: SdContext, reply: HttpReply, r: GenStep) -> bool {
    if !spec_is2xx(reply.status) {
        r matches GenStep::Fail { error: GenError::Remote { status, body } } && status
            == reply.status && body@ == reply.body_text@
    } else {
        match reply.body_json {
            None => r matches GenStep::Fail { error: GenError::Malformed { reason } } && reason@
                == "response body is not JSON"@,
            Some(data) => match spec_get(data, "images"@) {
                Some(ParamValue::Arr(images)) => {
                    if images@.len() == 0 || spec_as_str(images@[0]) is None {
                        r matches GenStep::Fail { error: GenError::Malformed { reason } }
                            && reason@ == "Invalid image data"@
                    } else {
                        r matches GenStep::Done { result } && spec_image_result(
                            ctx,
                            data,
                            images@,
                            result,
                        )
                    }
                },
                _ => r matches GenStep::Fail { error: GenError::Malformed { reason } } && reason@
                    == "No images in response"@,
            },
        }
    }
}

impl A1111Provider {
    /// An unconfigured placeholder.
    pub fn new() -> (r: Self)
        ensures
            r.config is None,
    {
        A1111Provider { config: None }
    }

    /// A configured instance.
    pub fn with_config(config: A1111Config) -> (r: Self)
        ensures
            r.config == Some(config),
    {
        A1111Provider { config: Some(config) }
    }

    /// The registry key of this provider.
    pub fn name(&self) -> (r: &'static str)
        ensures
            r@ == "a1111"@,
    {
        "a1111"
    }

    /// Whether the instance holds usable configuration.
    pub fn is_available(&self) -> (r: bool)
        ensures
            r == (self.config is Some),
    {
        self.config.is_some()
    }

    /// The first step of a generation call: the txt2img POST, or
    /// `NotConfigured` when no endpoint was supplied. Every model value is
    /// routed to the image path.
    pub fn begin(&self, req: GenerationRequest) -> (r: GenStep)
        ensures
            match self.config {
                None => r matches GenStep::Fail {
                    error: GenError::NotConfigured { detail },
                } && detail@ == "A1111 API URL not configured"@,
                Some(cfg) => spec_image_begin(cfg, req, r),
            },
    {
        let cfg = match &self.config {
            Some(cfg) => cfg,
            None => {
                return GenStep::Fail {
                    error: GenError::NotConfigured {
                        detail: String::from_str("A1111 API URL not configured"),
                    },
                };
            },
        };
        let p = &req.parameters;
        let negative_prompt = p.str_or("negative_prompt", "");
        let steps64 = p.u64_or("steps", 20);
        let steps: u32 = #[verifier::truncate] (steps64 as u32);
        let cfg_centi = p.centi_or("cfg_scale", 700);
        let width64 = p.u64_or("width", 512);
        let width: u32 = #[verifier::truncate] (width64 as u32);
        let height64 = p.u64_or("height", 512);
        let height: u32 = #[verifier::truncate] (height64 as u32);
        let sampler = p.str_or("sampler", "Euler a");
        let seed64 = p.i64_or("seed", -1);
        let seed32: i32 = #[verifier::truncate] (seed64 as i32);
        let seed: i64 = seed32 as i64;
        let model = p.opt_str("model");

        let mut entries: Vec<(String, ParamValue)> = Vec::new();
        entries.push(kv("prompt", str_node(req.prompt.as_str())));
        entries.push(kv("negative_prompt", str_node(negative_prompt.as_str())));
        entries.push(kv("steps", ParamValue::Int(steps as i64)));
        entries.push(kv("cfg_scale", ParamValue::Dec(cfg_centi)));
        entries.push(kv("width", ParamValue::Int(width as i64)));
        entries.push(kv("height", ParamValue::Int(height as i64)));
        entries.push(kv("sampler_name", str_node(sampler.as_str())));
        entries.push(kv("seed", ParamValue::Int(seed)));
        entries.push(kv("n_iter", ParamValue::Int(1)));
        entries.push(kv("batch_size", ParamValue::Int(1)));
        match &model {
            Some(m) => {
                let mut over: Vec<(String, ParamValue)> = Vec::new();
                over.push(kv("sd_model_checkpoint", str_node(m.as_str())));
                entries.push(kv("override_settings", ParamValue::Obj(over)));
            },
            None => {},
        }
        let body = ParamValue::Obj(entries);

        let url = concat2(cfg.api_url.as_str(), "/sdapi/v1/txt2img");
        let mut headers: Vec<(String, String)> = Vec::new();
        headers.push((String::from_str("Content-Type"), String::from_str("application/json")));

        let ctx = SdContext {
            prompt: req.prompt,
            negative_prompt,
            model,
            steps,
            cfg_centi,
            width,
            height,
            sampler,
            seed,
        };
        GenStep::Send {
            request: HttpRequest { method: Method::Post, url, headers, body: Some(body) },
            state: SessionState::A1111Image { ctx },
        }
    }
}

/// Interprets the txt2img reply under the request's context.
pub fn on_image_reply(ctx: SdContext, reply: HttpReply) -> (r: GenStep)
    ensures
        spec_image_reply(ctx, reply, r),
{
    if !crate::http::is2xx(reply.status) {
        return GenStep::Fail {
            error: GenError::Remote { status: reply.status, body: reply.body_text },
        };
    }
    let data = match reply.body_json {
        Some(data) => data,
        None => {
            return GenStep::Fail {
                error: GenError::Malformed {
                    reason: String::from_str("response body is not JSON"),
                },
            };
        },
    };
    let first_image: String = match data.get("images") {
        Some(ParamValue::Arr(images)) => {
            if images.len() == 0 {
                return GenStep::Fail {
                    error: GenError::Malformed { reason: String::from_str("Invalid image data") },
                };
            }
            match images[0].as_str() {
                Some(s) => s.clone(),
                None => {
                    return GenStep::Fail {
                        error: GenError::Malformed {
                            reason: String::from_str("Invalid image data"),
                        },
                    };
                },
            }
        },
        _ => {
            return GenStep::Fail {
                error: GenError::Malformed { reason: String::from_str("No images in response") },
            };
        },
    };
    let info = data.str_or("info", "");

    let mut params: Vec<(String, ParamValue)> = Vec::new();
    params.push(kv("prompt", ParamValue::Str(ctx.prompt)));
    params.push(kv("negative_prompt", ParamValue::Str(ctx.negative_prompt)));
    params.push(kv("steps", ParamValue::Int(ctx.steps as i64)));
    params.push(kv("cfg_scale", ParamValue::Dec(ctx.cfg_centi)));
    params.push(kv("width", ParamValue::Int(ctx.width as i64)));
    params.push(kv("height", ParamValue::Int(ctx.height as i64)));
    params.push(kv("sampler", ParamValue::Str(ctx.sampler)));
    params.push(kv("seed", ParamValue::Int(ctx.seed)));

    let mut meta: Vec<(String, ParamValue)> = Vec::new();
    meta.push(kv("provider", str_node("a1111")));
    meta.push(kv("info", ParamValue::Str(info)));
    meta.push(kv("parameters", ParamValue::Obj(params)));

    GenStep::Done {
        result: GenerationResult {
            output_url: None,
            output_data: Some(first_image),
            file_path: None,
            metadata: ParamValue::Obj(meta),
        },
    }
}

/// The declared configuration fields of this provider, for UI generation.
pub open spec fn spec_config_schema(r: ParamValue) -> bool {
    match spec_schema_props(r, "api_url"@) {
        Some(ps) => {
            &&& ps.len() == 1
        &&& ps[0].0@ == "api_url"@
        &&& spec_schema_field(ps[0].1, "string"@, "API URL"@, Some("Automatic1111 WebUI API URL"@), Some("http://127.0.0.1:7860"@))
        },
        None => false,
    }
}

impl A1111Provider {
    /// The configuration fields a caller must supply, as a schema document.
    pub fn config_schema(&self) -> (r: ParamValue)
        ensures
            spec_config_schema(r),
    {
        let mut props: Vec<(String, ParamValue)> = Vec::new();
        props.push(kv("api_url", schema_field("string", "API URL", Some("Automatic1111 WebUI API URL"), Some("http://127.0.0.1:7860"))));
        schema_with(props, "api_url")
    }
}

} // verus!
