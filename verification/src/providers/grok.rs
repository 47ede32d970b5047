//! The Grok (xAI) provider: image generation through the Aurora model, one
//! POST answered by a data array carrying a URL or inline base64 payload.

use vstd::prelude::*;
use crate::error::GenError;
use crate::gen::{GenerationRequest, GenerationResult};
use crate::http::{spec_header_is, spec_is2xx, HttpReply, HttpRequest, Method};
use crate::params::{
    kv, spec_entry, spec_entry_str, spec_str_or, spec_u64_or, str_node, ParamValue,
};
use crate::providers::{data0_field_str, spec_data0_field_str};
use crate::session::{GenStep, SessionState};
use crate::strutil::{concat2, concat3, str_eq};

use crate::providers::{schema_field, schema_with, spec_schema_field, spec_schema_props};

verus! {

/// Grok (xAI) provider configuration.
#[derive(Debug, PartialEq)]
pub struct GrokConfig {
    pub api_key: String,
}

/// Grok provider, serving xAI's Aurora image generation.
#[derive(Debug, PartialEq)]
pub struct GrokProvider {
    pub config: Option<GrokConfig>,
}

/// The models this provider routes: the image models and their accepted
/// legacy aliases.
pub open spec fn spec_model_ok(m: Seq<char>) -> bool {
    ||| m == "grok-2-image"@
    ||| m == "grok-2-image-1212"@
    ||| m == "grok-image"@
    ||| m == "aurora"@
    ||| m == "grok-1"@
    ||| m == "grok"@
    ||| m == "flux"@
}

/// The legacy aliases, accepted with a logged note.
pub open spec fn spec_model_alias(m: Seq<char>) -> bool {
    ||| m == "grok-1"@
    ||| m == "grok"@
    ||| m == "flux"@
}

/// The image-count parameter: default 1, capped at 10.
pub open spec fn spec_n_of(p: ParamValue) -> u64 {
    if spec_u64_or(p, "n"@, 1) > 10 {
        10
    } else {
        spec_u64_or(p, "n"@, 1)
    }
}

/// A configured begin step for a routed model: one POST of the image body
/// against the xAI endpoint, under the bearer key.
pub open spec fn spec_image_begin(cfg: GrokConfig, req: GenerationRequest, r: GenStep) -> bool {
    r matches GenStep::Send { request, state } && ({
        &&& request.method == Method::Post
        &&& request.url@ == "https://api.x.ai/v1/images/generations"@
        &&& request.headers@.len() == 2
        &&& spec_header_is(request.headers@, 0, "Authorization"@, "Bearer "@ + cfg.api_key@)
        &&& spec_header_is(request.headers@, 1, "Content-Type"@, "application/json"@)
        &&& state is GrokImage
        &&& (request.body matches Some(ParamValue::Obj(es)) && ({
            let e = es@;
            &&& e.len() == 4
            &&& spec_entry_str(e, 0, "model"@, "grok-2-image"@)
            &&& spec_entry_str(e, 1, "prompt"@, req.prompt@)
            &&& spec_entry(e, 2, "n"@, ParamValue::Int(spec_n_of(req.parameters) as i64))
            &&& spec_entry_str(
                e,
                3,
                "response_format"@,
                spec_str_or(req.parameters, "response_format"@, "url"@),
            )
        }))
    })
}

/// How an image reply is interpreted: a non-2xx status is a remote error
/// carrying the raw body; a 2xx JSON reply yields the first data entry's
/// URL and inline payload, either of which may be absent, with the whole
/// response as metadata.
pub open spec fn spec_image_reply(reply: HttpReply, r: GenStep) -> bool {
    if !spec_is2xx(reply.status) {
        r matches GenStep::Fail { error: GenError::Remote { status, body } } && status
            == reply.status && body@ == reply.body_text@
    } else {
        match reply.body_json {
            None => r matches GenStep::Fail { error: GenError::Malformed { reason } } && reason@
                == "response body is not JSON"@,
            Some(data) => r matches GenStep::Done { result } && ({
                &&& (match result.output_url {
                    Some(u) => spec_data0_field_str(data, "data"@, "url"@) == Some(u@),
                    None => spec_data0_field_str(data, "data"@, "url"@) is None,
                })
                &&& (match result.output_data {
                    Some(d) => spec_data0_field_str(data, "data"@, "b64_json"@) == Some(d@),
                    None => spec_data0_field_str(data, "data"@, "b64_json"@) is None,
                })
                &&& result.file_path is None
                &&& result.metadata == data
            }),
        }
    }
}

impl GrokProvider {
    /// An unconfigured placeholder.
    pub fn new() -> (r: Self)
        ensures
            r.config is None,
    {
        GrokProvider { config: None }
    }

    /// A configured instance.
    pub fn with_config(config: GrokConfig) -> (r: Self)
        ensures
            r.config == Some(config),
    {
        GrokProvider { config: Some(config) }
    }

    /// The registry key of this provider.
    pub fn name(&self) -> (r: &'static str)
        ensures
            r@ == "grok"@,
    {
        "grok"
    }

    /// Whether the instance holds usable configuration.
    pub fn is_available(&self) -> (r: bool)
        ensures
            r == (self.config is Some),
    {
        self.config.is_some()
    }

    /// The note logged when a legacy alias is redirected to the current
    /// image model.
    pub fn model_warning(&self, model: &str) -> (r: Option<String>)
        ensures
            match r {
                Some(w) => spec_model_alias(model@) && w@
                    == "Note: Using grok-2-image for Grok image generation"@,
                None => !spec_model_alias(model@),
            },
    {
        if str_eq(model, "grok-1") || str_eq(model, "grok") || str_eq(model, "flux") {
            Some(String::from_str("Note: Using grok-2-image for Grok image generation"))
        } else {
            None
        }
    }

    /// The first step of a generation call: an unrouted model fails with
    /// `UnsupportedModel` before anything else; a routed model needs a
    /// configured key and yields the image POST.
    pub fn begin(&self, req: GenerationRequest) -> (r: GenStep)
        ensures
            if !spec_model_ok(req.model@) {
                r matches GenStep::Fail { error: GenError::UnsupportedModel { model, detail } }
                    && model@ == req.model@ && detail@ == "Unsupported Grok model: "@ + req.model@
                    + ". Use 'grok-2-image' for image generation."@
            } else {
                match self.config {
                    None => r matches GenStep::Fail { error: GenError::NotConfigured { detail } }
                        && detail@ == "xAI API key not configured"@,
                    Some(cfg) => spec_image_begin(cfg, req, r),
                }
            },
    {
        let routed = str_eq(req.model.as_str(), "grok-2-image") || str_eq(
            req.model.as_str(),
            "grok-2-image-1212",
        ) || str_eq(req.model.as_str(), "grok-image") || str_eq(req.model.as_str(), "aurora")
            || str_eq(req.model.as_str(), "grok-1") || str_eq(req.model.as_str(), "grok")
            || str_eq(req.model.as_str(), "flux");
        if !routed {
            let detail = concat3(
                "Unsupported Grok model: ",
                req.model.as_str(),
                ". Use 'grok-2-image' for image generation.",
            );
            return GenStep::Fail { error: GenError::UnsupportedModel { model: req.model, detail } };
        }
        let cfg = match &self.config {
            Some(cfg) => cfg,
            None => {
                return GenStep::Fail {
                    error: GenError::NotConfigured {
                        detail: String::from_str("xAI API key not configured"),
                    },
                };
            },
        };
        let n64 = req.parameters.u64_or("n", 1);
        let n: u64 = if n64 > 10 {
            10
        } else {
            n64
        };
        let response_format = req.parameters.str_or("response_format", "url");

        let mut entries: Vec<(String, ParamValue)> = Vec::new();
        entries.push(kv("model", str_node("grok-2-image")));
        entries.push(kv("prompt", str_node(req.prompt.as_str())));
        entries.push(kv("n", ParamValue::Int(n as i64)));
        entries.push(kv("response_format", ParamValue::Str(response_format)));
        let body = ParamValue::Obj(entries);

        let mut headers: Vec<(String, String)> = Vec::new();
        headers.push((String::from_str("Authorization"), concat2("Bearer ", cfg.api_key.as_str())));
        headers.push((String::from_str("Content-Type"), String::from_str("application/json")));

        GenStep::Send {
            request: HttpRequest {
                method: Method::Post,
                url: String::from_str("https://api.x.ai/v1/images/generations"),
                headers,
                body: Some(body),
            },
            state: SessionState::GrokImage,
        }
    }
}

/// Interprets the image reply.
pub fn on_image_reply(reply: HttpReply) -> (r: GenStep)
    ensures
        spec_image_reply(reply, r),
{
    if !crate::http::is2xx(reply.status) {
        return GenStep::Fail {
            error: GenError::Remote { status: reply.status, body: reply.body_text },
        };
    }
    let data = match reply.body_json {
        Some(data) => data,
        None => {
            return GenStep::Fail {
                error: GenError::Malformed {
                    reason: String::from_str("response body is not JSON"),
                },
            };
        },
    };
    let output_url = data0_field_str(&data, "data", "url");
    let output_data = data0_field_str(&data, "data", "b64_json");
    GenStep::Done {
        result: GenerationResult { output_url, output_data, file_path: None, metadata: data },
    }
}

/// The declared configuration fields of this provider, for UI generation.
pub open spec fn spec_config_schema(r: ParamValue) -> bool {
    match spec_schema_props(r, "api_key"@) {
        Some(ps) => {
            &&& ps.len() == 1
        &&& ps[0].0@ == "api_key"@
        &&& spec_schema_field(ps[0].1, "string"@, "API Key"@, Some("Your xAI API key"@), None)
        },
        None => false,
    }
}

impl GrokProvider {
    /// The configuration fields a caller must supply, as a schema document.
    pub fn config_schema(&self) -> (r: ParamValue)
        ensures
            spec_config_schema(r),
    {
        let mut props: Vec<(String, ParamValue)> = Vec::new();
        props.push(kv("api_key", schema_field("string", "API Key", Some("Your xAI API key"), None)));
        schema_with(props, "api_key")
    }
}

} // verus!
