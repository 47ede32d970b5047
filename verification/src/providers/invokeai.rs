//! The InvokeAI provider: one POST against the generate endpoint, with
//! documented parameter defaults and a required model, answered by an image
//! record carrying a URL or inline data.

use vstd::prelude::*;
use crate::error::GenError;
use crate::gen::{GenerationRequest, GenerationResult};
use crate::http::{spec_header_is, spec_is2xx, HttpReply, HttpRequest, Method};
use crate::params::{
    kv, spec_centi_or, spec_entry, spec_entry_str, spec_get, spec_i64_or, spec_opt_str,
    spec_str_or, spec_u64_or, str_node, ParamValue,
};
use crate::session::{GenStep, SdContext, SessionState};
use crate::strutil::concat2;

use crate::providers::{schema_field, schema_with, spec_schema_field, spec_schema_props};

verus! {

/// InvokeAI provider configuration.
#[derive(Debug, PartialEq)]
pub struct InvokeAIConfig {
    pub api_url: String,
}

/// InvokeAI provider.
#[derive(Debug, PartialEq)]
pub struct InvokeAIProvider {
    pub config: Option<InvokeAIConfig>,
}

/// The generation parameters extracted from the request, each with its
/// documented default; the model checkpoint is required.
pub open spec fn spec_ctx_ok(req: GenerationRequest, ctx: SdContext) -> bool {
    &&& ctx.prompt@ == req.prompt@
    &&& ctx.negative_prompt@ == spec_str_or(req.parameters, "negative_prompt"@, ""@)
    &&& ctx.steps == spec_u64_or(req.parameters, "steps"@, 20) as u32
    &&& ctx.cfg_centi == spec_centi_or(req.parameters, "cfg_scale"@, 700)
    &&& ctx.width == spec_u64_or(req.parameters, "width"@, 512) as u32
    &&& ctx.height == spec_u64_or(req.parameters, "height"@, 512) as u32
    &&& ctx.sampler@ == spec_str_or(req.parameters, "sampler"@, "euler"@)
    &&& ctx.seed == spec_i64_or(req.parameters, "seed"@, -1i64)
    &&& (ctx.model matches Some(m) && spec_opt_str(req.parameters, "model"@) == Some(m@))
}

/// The generate request body, the context field for field.
pub open spec fn spec_body_ok(ctx: SdContext, body: ParamValue) -> bool {
    body matches ParamValue::Obj(es) && ctx.model matches Some(m) && ({
        let e = es@;
        &&& e.len() == 9
        &&& spec_entry_str(e, 0, "model"@, m@)
        &&& spec_entry_str(e, 1, "prompt"@, ctx.prompt@)
        &&& spec_entry_str(e, 2, "negative_prompt"@, ctx.negative_prompt@)
        &&& spec_entry(e, 3, "steps"@, ParamValue::Int(ctx.steps as i64))
        &&& spec_entry(e, 4, "cfg_scale"@, ParamValue::Dec(ctx.cfg_centi))
        &&& spec_entry(e, 5, "width"@, ParamValue::Int(ctx.width as i64))
        &&& spec_entry(e, 6, "height"@, ParamValue::Int(ctx.height as i64))
        &&& spec_entry_str(e, 7, "scheduler"@, ctx.sampler@)
        &&& spec_entry(e, 8, "seed"@, ParamValue::Int(ctx.seed))
    })
}

/// A configured begin step with a model named: one POST of the generate body
/// against the configured endpoint.
pub open spec fn spec_image_begin(
    cfg: InvokeAIConfig,
    req: GenerationRequest,
    r: GenStep,
) -> bool {
    r matches GenStep::Send { request, state } && ({
        &&& request.method == Method::Post
        &&& request.url@ == cfg.api_url@ + "/api/v1/generate"@
        &&& request.headers@.len() == 1
        &&& spec_header_is(request.headers@, 0, "Content-Type"@, "application/json"@)
        &&& (state matches SessionState::InvokeImage { ctx } && spec_ctx_ok(req, ctx) && (
        request.body matches Some(b) && spec_body_ok(ctx, b)))
    })
}

/// The result built from a successful generate reply: the image record's
/// URL and inline data, either of which may be absent, and the echoed
/// parameters as metadata.
pub open spec fn spec_image_result(ctx: SdContext, data: ParamValue, result: GenerationResult) -> bool {
    &&& (match result.output_url {
        Some(u) => (match spec_get(data, "image"@) {
            Some(img) => spec_opt_str(img, "url"@) == Some(u@),
            None => false,
        }),
        None => (match spec_get(data, "image"@) {
            Some(img) => spec_opt_str(img, "url"@) is None,
            None => true,
        }),
    })
    &&& (match result.output_data {
        Some(d) => (match spec_get(data, "image"@) {
            Some(img) => spec_opt_str(img, "data"@) == Some(d@),
            None => false,
        }),
        None => (match spec_get(data, "image"@) {
            Some(img) => spec_opt_str(img, "data"@) is None,
            None => true,
        }),
    })
    &&& result.file_path is None
    &&& (result.metadata matches ParamValue::Obj(es) && ({
        let e = es@;
        &&& e.len() == 2
        &&& spec_entry_str(e, 0, "provider"@, "invokeai"@)
        &&& e[1].0@ == "parameters"@
        &&& (e[1].1 matches ParamValue::Obj(ps) && ({
            let p = ps@;
            &&& p.len() == 9
            &&& spec_entry_str(p, 0, "prompt"@, ctx.prompt@)
            &&& spec_entry_str(p, 1, "negative_prompt"@, ctx.negative_prompt@)
            &&& spec_entry_str(
                p,
                2,
                "model"@,
                (match ctx.model {
                    Some(m) => m@,
                    None => ""@,
                }),
            )
            &&& spec_entry(p, 3, "steps"@, ParamValue::Int(ctx.steps as i64))
            &&& spec_entry(p, 4, "cfg_scale"@, ParamValue::Dec(ctx.cfg_centi))
            &&& spec_entry(p, 5, "width"@, ParamValue::Int(ctx.width as i64))
            &&& spec_entry(p, 6, "height"@, ParamValue::Int(ctx.height as i64))
            &&& spec_entry_str(p, 7, "sampler"@, ctx.sampler@)
            &&& spec_entry(p, 8, "seed"@, ParamValue::Int(ctx.seed))
        }))
    }))
}

/// How a generate reply is interpreted: a non-2xx status is a remote error
/// carrying the raw body; a 2xx reply must be JSON, whose `image` record may
/// carry a URL or inline data.
pub open spec fn spec_image_reply(ctx: SdContext, reply: HttpReply, r: GenStep) -> bool {
    if !spec_is2xx(reply.status) {
        r matches GenStep::Fail { error: GenError::Remote { status, body } } && status
            == reply.status && body@ == reply.body_text@
    } else {
        match reply.body_json {
            None => r matches GenStep::Fail { error: GenError::Malformed { reason } } && reason@
                == "response body is not JSON"@,
            Some(data) => r matches GenStep::Done { result } && spec_image_result(
                ctx,
                data,
                result,
            ),
        }
    }
}

impl InvokeAIProvider {
    /// An unconfigured placeholder.
    pub fn new() -> (r: Self)
        ensures
            r.config is None,
    {
        InvokeAIProvider { config: None }
    }

    /// A configured instance.
    pub fn with_config(config: InvokeAIConfig) -> (r: Self)
        ensures
            r.config == Some(config),
    {
        InvokeAIProvider { config: Some(config) }
    }

    /// The registry key of this provider.
    pub fn name(&self) -> (r: &'static str)
        ensures
            r@ == "invokeai"@,
    {
        "invokeai"
    }

    /// Whether the instance holds usable configuration.
    pub fn is_available(&self) -> (r: bool)
        ensures
            r == (self.config is Some),
    {
        self.config.is_some()
    }

    /// The first step of a generation call: the generate POST, or
    /// `NotConfigured` when no endpoint was supplied, or `InvalidRequest`
    /// when the parameters name no model. Every model value is routed to the
    /// image path.
    pub fn begin(&self, req: GenerationRequest) -> (r: GenStep)
        ensures
            match self.config {
                None => r matches GenStep::Fail {
                    error: GenError::NotConfigured { detail },
                } && detail@ == "InvokeAI API URL not configured"@,
                Some(cfg) => {
                    if spec_opt_str(req.parameters, "model"@) is None {
                        r matches GenStep::Fail { error: GenError::InvalidRequest { detail } }
                            && detail@ == "Model required for InvokeAI"@
                    } else {
                        spec_image_begin(cfg, req, r)
                    }
                },
            },
    {
        let cfg = match &self.config {
            Some(cfg) => cfg,
            None => {
                return GenStep::Fail {
                    error: GenError::NotConfigured {
                        detail: String::from_str("InvokeAI API URL not configured"),
                    },
                };
            },
        };
        let p = &req.parameters;
        let model = match p.opt_str("model") {
            Some(m) => m,
            None => {
                return GenStep::Fail {
                    error: GenError::InvalidRequest {
                        detail: String::from_str("Model required for InvokeAI"),
                    },
                };
            },
        };
        let negative_prompt = p.str_or("negative_prompt", "");
        let steps64 = p.u64_or("steps", 20);
        let steps: u32 = #[verifier::truncate] (steps64 as u32);
        let cfg_centi = p.centi_or("cfg_scale", 700);
        let width64 = p.u64_or("width", 512);
        let width: u32 = #[verifier::truncate] (width64 as u32);
        let height64 = p.u64_or("height", 512);
        let height: u32 = #[verifier::truncate] (height64 as u32);
        let sampler = p.str_or("sampler", "euler");
        let seed = p.i64_or("seed", -1);

        let mut entries: Vec<(String, ParamValue)> = Vec::new();
        entries.push(kv("model", str_node(model.as_str())));
        entries.push(kv("prompt", str_node(req.prompt.as_str())));
        entries.push(kv("negative_prompt", str_node(negative_prompt.as_str())));
        entries.push(kv("steps", ParamValue::Int(steps as i64)));
        entries.push(kv("cfg_scale", ParamValue::Dec(cfg_centi)));
        entries.push(kv("width", ParamValue::Int(width as i64)));
        entries.push(kv("height", ParamValue::Int(height as i64)));
        entries.push(kv("scheduler", str_node(sampler.as_str())));
        entries.push(kv("seed", ParamValue::Int(seed)));
        let body = ParamValue::Obj(entries);

        let url = concat2(cfg.api_url.as_str(), "/api/v1/generate");
        let mut headers: Vec<(String, String)> = Vec::new();
        headers.push((String::from_str("Content-Type"), String::from_str("application/json")));

        let ctx = SdContext {
            prompt: req.prompt,
            negative_prompt,
            model: Some(model),
            steps,
            cfg_centi,
            width,
            height,
            sampler,
            seed,
        };
        GenStep::Send {
            request: HttpRequest { method: Method::Post, url, headers, body: Some(body) },
            state: SessionState::InvokeImage { ctx },
        }
    }
}

/// Interprets the generate reply under the request's context.
pub fn on_image_reply(ctx: SdContext, reply: HttpReply) -> (r: GenStep)
    ensures
        spec_image_reply(ctx, reply, r),
{
    if !crate::http::is2xx(reply.status) {
        return GenStep::Fail {
            error: GenError::Remote { status: reply.status, body: reply.body_text },
        };
    }
    let data = match reply.body_json {
        Some(data) => data,
        None => {
            return GenStep::Fail {
                error: GenError::Malformed {
                    reason: String::from_str("response body is not JSON"),
                },
            };
        },
    };
    let mut output_url: Option<String> = None;
    let mut output_data: Option<String> = None;
    match data.get("image") {
        Some(img) => {
            output_url = img.opt_str("url");
            output_data = img.opt_str("data");
        },
        None => {},
    }
    let model = match &ctx.model {
        Some(m) => m.clone(),
        None => String::from_str(""),
    };

    let mut params: Vec<(String, ParamValue)> = Vec::new();
    params.push(kv("prompt", ParamValue::Str(ctx.prompt)));
    params.push(kv("negative_prompt", ParamValue::Str(ctx.negative_prompt)));
    params.push(kv("model", ParamValue::Str(model)));
    params.push(kv("steps", ParamValue::Int(ctx.steps as i64)));
    params.push(kv("cfg_scale", ParamValue::Dec(ctx.cfg_centi)));
    params.push(kv("width", ParamValue::Int(ctx.width as i64)));
    params.push(kv("height", ParamValue::Int(ctx.height as i64)));
    params.push(kv("sampler", ParamValue::Str(ctx.sampler)));
    params.push(kv("seed", ParamValue::Int(ctx.seed)));

    let mut meta: Vec<(String, ParamValue)> = Vec::new();
    meta.push(kv("provider", str_node("invokeai")));
    meta.push(kv("parameters", ParamValue::Obj(params)));

    GenStep::Done {
        result: GenerationResult {
            output_url,
            output_data,
            file_path: None,
            metadata: ParamValue::Obj(meta),
        },
    }
}

/// The declared configuration fields of this provider, for UI generation.
pub open spec fn spec_config_schema(r: ParamValue) -> bool {
    match spec_schema_props(r, "api_url"@) {
        Some(ps) => {
            &&& ps.len() == 1
        &&& ps[0].0@ == "api_url"@
        &&& spec_schema_field(ps[0].1, "string"@, "API URL"@, Some("InvokeAI API URL"@), Some("http://127.0.0.1:9090"@))
        },
        None => false,
    }
}

impl InvokeAIProvider {
    /// The configuration fields a caller must supply, as a schema document.
    pub fn config_schema(&self) -> (r: ParamValue)
        ensures
            spec_config_schema(r),
    {
        let mut props: Vec<(String, ParamValue)> = Vec::new();
        props.push(kv("api_url", schema_field("string", "API URL", Some("InvokeAI API URL"), Some("http://127.0.0.1:9090"))));
        schema_with(props, "api_url")
    }
}

} // verus!
