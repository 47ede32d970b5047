//! The closed set of generation providers. Each submodule translates
//! normalized requests into one backend's wire format and interprets the
//! replies; the `Provider` type dispatches over the set.

use vstd::prelude::*;

pub mod a1111;
pub mod anthropic;
pub mod comfyui;
pub mod google;
pub mod grok;
pub mod invokeai;
pub mod midjourney;
pub mod openai;

use crate::gen::GenerationRequest;
use crate::http::HttpReply;
use crate::params::{spec_as_str, spec_get, ParamValue};
use crate::error::GenError;
use crate::session::{GenStep, SessionState};
use a1111::A1111Provider;
use anthropic::AnthropicProvider;
use comfyui::ComfyUIProvider;
use google::GoogleProvider;
use grok::GrokProvider;
use invokeai::InvokeAIProvider;
use midjourney::MidjourneyProvider;
use openai::OpenAIProvider;

verus! {

/// The string at `data[arr_key][0][field]`, the location where the OpenAI
/// wire format family carries its image outputs.
pub open spec fn spec_data0_field_str(
    data: ParamValue,
    arr_key: Seq<char>,
    field: Seq<char>,
) -> Option<Seq<char>> {
    match spec_get(data, arr_key) {
        Some(ParamValue::Arr(items)) => if items@.len() > 0 {
            match spec_get(items@[0], field) {
                Some(v) => spec_as_str(v),
                None => None,
            }
        } else {
            None
        },
        _ => None,
    }
}

/// Reads the string at `data[arr_key][0][field]`.
pub fn data0_field_str(data: &ParamValue, arr_key: &str, field: &str) -> (r: Option<String>)
    ensures
        match r {
            Some(s) => spec_data0_field_str(*data, arr_key@, field@) == Some(s@),
            None => spec_data0_field_str(*data, arr_key@, field@) is None,
        },
{
    match data.get(arr_key) {
        Some(ParamValue::Arr(items)) => {
            if items.len() > 0 {
                match items[0].get(field) {
                    Some(v) => match v.as_str() {
                        Some(s) => Some(s.clone()),
                        None => None,
                    },
                    None => None,
                }
            } else {
                None
            }
        },
        _ => None,
    }
}

/// The view of an optional string slice.
pub open spec fn spec_opt_view(o: Option<&str>) -> Option<Seq<char>> {
    match o {
        Some(s) => Some(s@),
        None => None,
    }
}

/// A configuration-schema property: its JSON type and title, and optionally
/// a description and a default.
pub open spec fn spec_schema_field(
    v: ParamValue,
    typ: Seq<char>,
    title: Seq<char>,
    description: Option<Seq<char>>,
    default: Option<Seq<char>>,
) -> bool {
    v matches ParamValue::Obj(fs) && ({
        let f = fs@;
        let n: int = 2 + (if description is Some {
            1int
        } else {
            0int
        }) + (if default is Some {
            1int
        } else {
            0int
        });
        &&& f.len() == n
        &&& crate::params::spec_entry_str(f, 0, "type"@, typ)
        &&& crate::params::spec_entry_str(f, 1, "title"@, title)
        &&& (match description {
            Some(d) => crate::params::spec_entry_str(f, 2, "description"@, d),
            None => true,
        })
        &&& (match default {
            Some(d) => crate::params::spec_entry_str(f, n - 1, "default"@, d),
            None => true,
        })
    })
}

/// The property list of a configuration schema whose shape is in order: an
/// object declaration around the properties, with one required field.
pub open spec fn spec_schema_props(r: ParamValue, required: Seq<char>) -> Option<
    Seq<(String, ParamValue)>,
> {
    match r {
        ParamValue::Obj(es) => if es@.len() == 3 && crate::params::spec_entry_str(
            es@,
            0,
            "type"@,
            "object"@,
        ) && es@[1].0@ == "properties"@ && es@[2].0@ == "required"@ && (
        es@[2].1 matches ParamValue::Arr(a) && a@.len() == 1 && spec_as_str(a@[0]) == Some(
            required,
        )) {
            match es@[1].1 {
                ParamValue::Obj(ps) => Some(ps@),
                _ => None,
            }
        } else {
            None
        },
        _ => None,
    }
}

/// Builds one configuration-schema property.
pub fn schema_field(
    typ: &str,
    title: &str,
    description: Option<&str>,
    default: Option<&str>,
) -> (r: ParamValue)
    ensures
        spec_schema_field(r, typ@, title@, spec_opt_view(description), spec_opt_view(default)),
{
    let mut fs: Vec<(String, ParamValue)> = Vec::new();
    fs.push(crate::params::kv("type", crate::params::str_node(typ)));
    fs.push(crate::params::kv("title", crate::params::str_node(title)));
    match description {
        Some(d) => {
            fs.push(crate::params::kv("description", crate::params::str_node(d)));
        },
        None => {},
    }
    match default {
        Some(d) => {
            fs.push(crate::params::kv("default", crate::params::str_node(d)));
        },
        None => {},
    }
    ParamValue::Obj(fs)
}

/// Builds a configuration schema around its properties, with one required
/// field.
pub fn schema_with(props: Vec<(String, ParamValue)>, required: &str) -> (r: ParamValue)
    ensures
        spec_schema_props(r, required@) == Some(props@),
{
    let mut reqs: Vec<ParamValue> = Vec::new();
    reqs.push(crate::params::str_node(required));
    let mut es: Vec<(String, ParamValue)> = Vec::new();
    es.push(crate::params::kv("type", crate::params::str_node("object")));
    es.push(crate::params::kv("properties", ParamValue::Obj(props)));
    es.push(crate::params::kv("required", ParamValue::Arr(reqs)));
    ParamValue::Obj(es)
}

/// One registered generation backend: the closed, compiled-in provider set.
#[derive(Debug, PartialEq)]
pub enum Provider {
    A1111(A1111Provider),
    Anthropic(AnthropicProvider),
    ComfyUI(ComfyUIProvider),
    Google(GoogleProvider),
    Grok(GrokProvider),
    InvokeAI(InvokeAIProvider),
    Midjourney(MidjourneyProvider),
    OpenAI(OpenAIProvider),
}

/// The registry key of a provider.
pub open spec fn spec_name(p: Provider) -> Seq<char> {
    match p {
        Provider::A1111(_) => "a1111"@,
        Provider::Anthropic(_) => "anthropic"@,
        Provider::ComfyUI(_) => "comfyui"@,
        Provider::Google(_) => "google"@,
        Provider::Grok(_) => "grok"@,
        Provider::InvokeAI(_) => "invokeai"@,
        Provider::Midjourney(_) => "midjourney"@,
        Provider::OpenAI(_) => "openai"@,
    }
}

/// Whether a provider holds usable configuration.
pub open spec fn spec_is_available(p: Provider) -> bool {
    match p {
        Provider::A1111(q) => q.config is Some,
        Provider::Anthropic(q) => q.config is Some,
        Provider::ComfyUI(q) => q.config is Some,
        Provider::Google(q) => q.config is Some,
        Provider::Grok(q) => q.config is Some,
        Provider::InvokeAI(q) => q.config is Some,
        Provider::Midjourney(q) => q.config is Some,
        Provider::OpenAI(q) => q.config is Some,
    }
}

/// Whether a provider routes the model to one of its generation paths.
/// Providers without a dispatch-by-model policy route every value.
pub open spec fn spec_routes_model(p: Provider, m: Seq<char>) -> bool {
    match p {
        Provider::A1111(_) => true,
        Provider::Anthropic(_) => true,
        Provider::ComfyUI(_) => true,
        Provider::Google(_) => google::spec_model_image(m) || google::spec_model_video(m),
        Provider::Grok(_) => grok::spec_model_ok(m),
        Provider::InvokeAI(_) => true,
        Provider::Midjourney(_) => true,
        Provider::OpenAI(_) => openai::spec_model_image(m) || openai::spec_model_video(m),
    }
}

/// What the first step of a generation call is, per provider: the begin
/// contract of the dispatched backend.
pub open spec fn spec_begin_ok(p: Provider, req: GenerationRequest, r: GenStep) -> bool {
    match p {
        Provider::A1111(q) => match q.config {
            None => r matches GenStep::Fail { error: GenError::NotConfigured { detail } }
                && detail@ == "A1111 API URL not configured"@,
            Some(cfg) => a1111::spec_image_begin(cfg, req, r),
        },
        Provider::Anthropic(q) => match q.config {
            None => r matches GenStep::Fail { error: GenError::NotConfigured { detail } }
                && detail@ == "Anthropic API key not configured"@,
            Some(cfg) => anthropic::spec_text_begin(cfg, req, r),
        },
        Provider::ComfyUI(q) => match q.config {
            None => r matches GenStep::Fail { error: GenError::NotConfigured { detail } }
                && detail@ == "ComfyUI API URL not configured"@,
            Some(cfg) => {
                if crate::params::spec_opt_str(req.parameters, "model"@) is None {
                    r matches GenStep::Fail { error: GenError::InvalidRequest { detail } }
                        && detail@ == "Model checkpoint required for ComfyUI"@
                } else {
                    comfyui::spec_submit_begin(cfg, req, r)
                }
            },
        },
        Provider::Google(q) => {
            if !google::spec_model_image(req.model@) && !google::spec_model_video(req.model@) {
                r matches GenStep::Fail { error: GenError::UnsupportedModel { model, detail } }
                    && model@ == req.model@ && detail@ == "Unsupported Google model: "@
                    + req.model@
                    + ". Use 'gemini-2.5-flash-image' or 'gemini-3-pro-image-preview' for images, or 'veo-3.1-generate-preview' for video generation."@
            } else {
                match q.config {
                    None => r matches GenStep::Fail { error: GenError::NotConfigured { detail } }
                        && detail@ == "Google API key not configured"@,
                    Some(cfg) => {
                        if google::spec_model_image(req.model@) {
                            google::spec_image_begin(cfg, req, r)
                        } else {
                            google::spec_video_begin(cfg, req, r)
                        }
                    },
                }
            }
        },
        Provider::Grok(q) => {
            if !grok::spec_model_ok(req.model@) {
                r matches GenStep::Fail { error: GenError::UnsupportedModel { model, detail } }
                    && model@ == req.model@ && detail@ == "Unsupported Grok model: "@ + req.model@
                    + ". Use 'grok-2-image' for image generation."@
            } else {
                match q.config {
                    None => r matches GenStep::Fail { error: GenError::NotConfigured { detail } }
                        && detail@ == "xAI API key not configured"@,
                    Some(cfg) => grok::spec_image_begin(cfg, req, r),
                }
            }
        },
        Provider::InvokeAI(q) => match q.config {
            None => r matches GenStep::Fail { error: GenError::NotConfigured { detail } }
                && detail@ == "InvokeAI API URL not configured"@,
            Some(cfg) => {
                if crate::params::spec_opt_str(req.parameters, "model"@) is None {
                    r matches GenStep::Fail { error: GenError::InvalidRequest { detail } }
                        && detail@ == "Model required for InvokeAI"@
                } else {
                    invokeai::spec_image_begin(cfg, req, r)
                }
            },
        },
        Provider::Midjourney(_) => r matches GenStep::Fail {
            error: GenError::NotImplemented { detail },
        } && detail@ == "Midjourney integration coming soon"@,
        Provider::OpenAI(q) => {
            if !openai::spec_model_image(req.model@) && !openai::spec_model_video(req.model@) {
                r matches GenStep::Fail { error: GenError::UnsupportedModel { model, detail } }
                    && model@ == req.model@ && detail@ == "Unsupported OpenAI model: "@
                    + req.model@ + ". Use 'gpt-image-1' for images or 'sora-2' for videos."@
            } else {
                match q.config {
                    None => r matches GenStep::Fail { error: GenError::NotConfigured { detail } }
                        && detail@ == "OpenAI API key not configured"@,
                    Some(cfg) => {
                        if openai::spec_model_image(req.model@) {
                            openai::spec_image_begin(cfg, req, r)
                        } else {
                            openai::spec_video_begin(cfg, req, r)
                        }
                    },
                }
            }
        },
    }
}

impl Provider {
    /// The registry key of this provider.
    pub fn name(&self) -> (r: &'static str)
        ensures
            r@ == spec_name(*self),
    {
        match self {
            Provider::A1111(q) => q.name(),
            Provider::Anthropic(q) => q.name(),
            Provider::ComfyUI(q) => q.name(),
            Provider::Google(q) => q.name(),
            Provider::Grok(q) => q.name(),
            Provider::InvokeAI(q) => q.name(),
            Provider::Midjourney(q) => q.name(),
            Provider::OpenAI(q) => q.name(),
        }
    }

    /// Whether the instance holds usable configuration.
    pub fn is_available(&self) -> (r: bool)
        ensures
            r == spec_is_available(*self),
    {
        match self {
            Provider::A1111(q) => q.is_available(),
            Provider::Anthropic(q) => q.is_available(),
            Provider::ComfyUI(q) => q.is_available(),
            Provider::Google(q) => q.is_available(),
            Provider::Grok(q) => q.is_available(),
            Provider::InvokeAI(q) => q.is_available(),
            Provider::Midjourney(q) => q.is_available(),
            Provider::OpenAI(q) => q.is_available(),
        }
    }

    /// The warning logged when a deprecated model alias is redirected, on
    /// the backends that keep aliases.
    pub fn model_warning(&self, model: &str) -> (r: Option<String>)
        ensures
            match *self {
                Provider::Grok(_) => (match r {
                    Some(w) => grok::spec_model_alias(model@) && w@
                        == "Note: Using grok-2-image for Grok image generation"@,
                    None => !grok::spec_model_alias(model@),
                }),
                Provider::OpenAI(_) => (match r {
                    Some(w) => openai::spec_model_alias(model@) && w@
                        == "Warning: DALL-E models are deprecated, using gpt-image-1 instead"@,
                    None => !openai::spec_model_alias(model@),
                }),
                _ => r is None,
            },
    {
        match self {
            Provider::Grok(q) => q.model_warning(model),
            Provider::OpenAI(q) => q.model_warning(model),
            _ => None,
        }
    }

    /// The declared configuration fields, for UI generation, dispatched to
    /// the backend.
    pub fn config_schema(&self) -> (r: ParamValue)
        ensures
            match *self {
                Provider::A1111(_) => a1111::spec_config_schema(r),
                Provider::Anthropic(_) => anthropic::spec_config_schema(r),
                Provider::ComfyUI(_) => comfyui::spec_config_schema(r),
                Provider::Google(_) => google::spec_config_schema(r),
                Provider::Grok(_) => grok::spec_config_schema(r),
                Provider::InvokeAI(_) => invokeai::spec_config_schema(r),
                Provider::Midjourney(_) => midjourney::spec_config_schema(r),
                Provider::OpenAI(_) => openai::spec_config_schema(r),
            },
    {
        match self {
            Provider::A1111(q) => q.config_schema(),
            Provider::Anthropic(q) => q.config_schema(),
            Provider::ComfyUI(q) => q.config_schema(),
            Provider::Google(q) => q.config_schema(),
            Provider::Grok(q) => q.config_schema(),
            Provider::InvokeAI(q) => q.config_schema(),
            Provider::Midjourney(q) => q.config_schema(),
            Provider::OpenAI(q) => q.config_schema(),
        }
    }

    /// The first step of a generation call, dispatched to the backend.
    pub fn begin(&self, req: GenerationRequest) -> (r: GenStep)
        ensures
            spec_begin_ok(*self, req, r),
    {
        match self {
            Provider::A1111(q) => q.begin(req),
            Provider::Anthropic(q) => q.begin(req),
            Provider::ComfyUI(q) => q.begin(req),
            Provider::Google(q) => q.begin(req),
            Provider::Grok(q) => q.begin(req),
            Provider::InvokeAI(q) => q.begin(req),
            Provider::Midjourney(q) => q.begin(req),
            Provider::OpenAI(q) => q.begin(req),
        }
    }
}

/// How an in-flight generation call answers the reply it awaited: the reply
/// contract of the backend the state belongs to.
pub open spec fn spec_session_step(state: SessionState, reply: HttpReply, r: GenStep) -> bool {
    match state {
        SessionState::A1111Image { ctx } => a1111::spec_image_reply(ctx, reply, r),
        SessionState::InvokeImage { ctx } => invokeai::spec_image_reply(ctx, reply, r),
        SessionState::ComfySubmit { api_url, ctx } => comfyui::spec_submit_reply(
            api_url@,
            ctx,
            reply,
            r,
        ),
        SessionState::ComfyPoll { api_url, prompt_id, ctx, attempts } => comfyui::spec_poll_reply(
            api_url@,
            prompt_id@,
            ctx,
            attempts,
            reply,
            r,
        ),
        SessionState::OpenAiImage => openai::spec_image_reply(reply, r),
        SessionState::OpenAiVideoStart { api_key, organization } => openai::spec_video_start_reply(
            api_key@,
            organization,
            reply,
            r,
        ),
        SessionState::OpenAiVideoPoll {
            api_key,
            organization,
            video_id,
            attempts,
            delay_ms,
        } => openai::spec_video_poll_reply(
            api_key@,
            organization,
            video_id@,
            attempts,
            delay_ms,
            reply,
            r,
        ),
        SessionState::GrokImage => grok::spec_image_reply(reply, r),
        SessionState::AnthropicText => anthropic::spec_text_reply(reply, r),
        SessionState::GoogleImage => google::spec_image_reply(reply, r),
        SessionState::GoogleVideoStart { api_key } => google::spec_video_start_reply(
            api_key@,
            reply,
            r,
        ),
        SessionState::GoogleVideoPoll { api_key, operation_name, attempts, delay_ms } => {
            google::spec_video_poll_reply(api_key@, operation_name@, attempts, delay_ms, reply, r)
        },
    }
}

/// Advances an in-flight generation call by one reply.
pub fn session_step(state: SessionState, reply: HttpReply) -> (r: GenStep)
    ensures
        spec_session_step(state, reply, r),
{
    match state {
        SessionState::A1111Image { ctx } => a1111::on_image_reply(ctx, reply),
        SessionState::InvokeImage { ctx } => invokeai::on_image_reply(ctx, reply),
        SessionState::ComfySubmit { api_url, ctx } => comfyui::on_submit_reply(api_url, ctx, reply),
        SessionState::ComfyPoll { api_url, prompt_id, ctx, attempts } => comfyui::on_poll_reply(
            api_url,
            prompt_id,
            ctx,
            attempts,
            reply,
        ),
        SessionState::OpenAiImage => openai::on_image_reply(reply),
        SessionState::OpenAiVideoStart { api_key, organization } => openai::on_video_start_reply(
            api_key,
            organization,
            reply,
        ),
        SessionState::OpenAiVideoPoll {
            api_key,
            organization,
            video_id,
            attempts,
            delay_ms,
        } => openai::on_video_poll_reply(api_key, organization, video_id, attempts, delay_ms, reply),
        SessionState::GrokImage => grok::on_image_reply(reply),
        SessionState::AnthropicText => anthropic::on_text_reply(reply),
        SessionState::GoogleImage => google::on_image_reply(reply),
        SessionState::GoogleVideoStart { api_key } => google::on_video_start_reply(api_key, reply),
        SessionState::GoogleVideoPoll { api_key, operation_name, attempts, delay_ms } => {
            google::on_video_poll_reply(api_key, operation_name, attempts, delay_ms, reply)
        },
    }
}

/// An unconfigured provider answers a generation call with a failure and
/// never with a request: no network I/O happens. When its dispatch policy
/// routes the model (and an integration stands behind it), that failure is
/// `NotConfigured`.
pub proof fn lemma_unconfigured_never_sends(p: Provider, req: GenerationRequest, r: GenStep)
    requires
        spec_begin_ok(p, req, r),
        !spec_is_available(p),
    ensures
        r is Fail,
        spec_routes_model(p, req.model@) && !(p is Midjourney) ==> r matches GenStep::Fail {
            error: GenError::NotConfigured { .. },
        },
{
}

/// An unrecognized model value answers with `UnsupportedModel`, naming that
/// value, and never with a request: nothing is attempted, whatever the
/// configuration.
pub proof fn lemma_unsupported_model_rejected(p: Provider, req: GenerationRequest, r: GenStep)
    requires
        spec_begin_ok(p, req, r),
        !spec_routes_model(p, req.model@),
    ensures
        r matches GenStep::Fail { error: GenError::UnsupportedModel { model, detail: _ } }
            && model@ == req.model@,
{
}

} // verus!
