//! The OpenAI provider: image generation through gpt-image-1 (one POST,
//! answered by a data array carrying a URL or inline base64 payload) and
//! video generation through Sora (a POST returning an operation id, resolved
//! by polling with exponential backoff).

use vstd::prelude::*;
use crate::error::GenError;
use crate::gen::{GenerationRequest, GenerationResult};
use crate::http::{spec_header_is, spec_is2xx, HttpReply, HttpRequest, Method};
use crate::params::{
    kv, spec_as_str, spec_entry, spec_entry_str, spec_get, spec_opt_str, spec_str_or, spec_u64_or,
    str_node, ParamValue,
};
use crate::providers::{data0_field_str, spec_data0_field_str};
use crate::session::{GenStep, SessionState};
use crate::strutil::{concat2, concat3, str_eq};

use crate::providers::{schema_field, schema_with, spec_schema_field, spec_schema_props};

verus! {

/// OpenAI provider configuration.
#[derive(Debug, PartialEq)]
pub struct OpenAIConfig {
    pub api_key: String,
    pub organization: Option<String>,
}

/// OpenAI provider (gpt-image-1 for images, Sora for video).
#[derive(Debug, PartialEq)]
pub struct OpenAIProvider {
    pub config: Option<OpenAIConfig>,
}

/// The models routed to the image path, the deprecated aliases included.
pub open spec fn spec_model_image(m: Seq<char>) -> bool {
    ||| m == "gpt-image-1"@
    ||| m == "gpt-image-1-mini"@
    ||| m == "dall-e-3"@
    ||| m == "dall-e-2"@
}

/// The models routed to the video path.
pub open spec fn spec_model_video(m: Seq<char>) -> bool {
    ||| m == "sora-2"@
    ||| m == "sora-2-pro"@
    ||| m == "sora"@
}

/// The deprecated aliases, accepted with a logged warning.
pub open spec fn spec_model_alias(m: Seq<char>) -> bool {
    ||| m == "dall-e-3"@
    ||| m == "dall-e-2"@
}

/// The authorization headers of every OpenAI call: the bearer key, then the
/// optional organization.
pub open spec fn spec_auth_headers(
    cfg: OpenAIConfig,
    headers: Seq<(String, String)>,
    extra: int,
) -> bool {
    &&& spec_header_is(headers, 0, "Authorization"@, "Bearer "@ + cfg.api_key@)
    &&& (match cfg.organization {
        Some(o) => headers.len() == extra + 2 && spec_header_is(
            headers,
            extra + 1,
            "OpenAI-Organization"@,
            o@,
        ),
        None => headers.len() == extra + 1,
    })
}

/// A configured image begin step: one POST of the image body against the
/// images endpoint.
pub open spec fn spec_image_begin(cfg: OpenAIConfig, req: GenerationRequest, r: GenStep) -> bool {
    r matches GenStep::Send { request, state } && ({
        &&& request.method == Method::Post
        &&& request.url@ == "https://api.openai.com/v1/images/generations"@
        &&& spec_header_is(request.headers@, 1, "Content-Type"@, "application/json"@)
        &&& spec_auth_headers(cfg, request.headers@, 1)
        &&& state is OpenAiImage
        &&& (request.body matches Some(ParamValue::Obj(es)) && ({
            let e = es@;
            &&& e.len() == 5
            &&& spec_entry_str(e, 0, "model"@, "gpt-image-1"@)
            &&& spec_entry_str(e, 1, "prompt"@, req.prompt@)
            &&& spec_entry(
                e,
                2,
                "n"@,
                ParamValue::Int(spec_u64_or(req.parameters, "n"@, 1) as i64),
            )
            &&& spec_entry_str(e, 3, "size"@, spec_str_or(req.parameters, "size"@, "auto"@))
            &&& spec_entry_str(e, 4, "quality"@, spec_str_or(req.parameters, "quality"@, "high"@))
        }))
    })
}

/// A configured video begin step: one POST of the Sora body against the
/// videos endpoint.
pub open spec fn spec_video_begin(cfg: OpenAIConfig, req: GenerationRequest, r: GenStep) -> bool {
    r matches GenStep::Send { request, state } && ({
        &&& request.method == Method::Post
        &&& request.url@ == "https://api.openai.com/v1/videos"@
        &&& spec_header_is(request.headers@, 1, "Content-Type"@, "application/json"@)
        &&& spec_auth_headers(cfg, request.headers@, 1)
        &&& (state matches SessionState::OpenAiVideoStart { api_key, organization } && api_key@
            == cfg.api_key@ && (match organization {
            Some(o) => cfg.organization matches Some(co) && co@ == o@,
            None => cfg.organization is None,
        }))
        &&& (request.body matches Some(ParamValue::Obj(es)) && ({
            let e = es@;
            &&& e.len() == 5
            &&& spec_entry_str(e, 0, "model"@, "sora-2"@)
            &&& spec_entry_str(e, 1, "prompt"@, req.prompt@)
            &&& spec_entry(
                e,
                2,
                "duration"@,
                ParamValue::Int(spec_u64_or(req.parameters, "duration"@, 5) as i64),
            )
            &&& spec_entry_str(
                e,
                3,
                "resolution"@,
                spec_str_or(req.parameters, "resolution"@, "1080p"@),
            )
            &&& spec_entry_str(
                e,
                4,
                "aspect_ratio"@,
                spec_str_or(req.parameters, "aspect_ratio"@, "16:9"@),
            )
        }))
    })
}

/// The status poll for one Sora operation: a GET against the operation's
/// resource under the same authorization.
pub open spec fn spec_poll_request(
    key: Seq<char>,
    org: Option<String>,
    id: Seq<char>,
    r: HttpRequest,
) -> bool {
    &&& r.method == Method::Get
    &&& r.url@ == "https://api.openai.com/v1/videos/"@ + id
    &&& r.body is None
    &&& spec_header_is(r.headers@, 0, "Authorization"@, "Bearer "@ + key)
    &&& (match org {
        Some(o) => r.headers@.len() == 2 && spec_header_is(
            r.headers@,
            1,
            "OpenAI-Organization"@,
            o@,
        ),
        None => r.headers@.len() == 1,
    })
}

/// The output URL of a finished Sora operation: the first of `output`,
/// `video_url` and `result.url` that is there, when it is a string.
pub open spec fn spec_sora_url(data: ParamValue) -> Option<Seq<char>> {
    match spec_get(data, "output"@) {
        Some(v) => spec_as_str(v),
        None => match spec_get(data, "video_url"@) {
            Some(v) => spec_as_str(v),
            None => match spec_get(data, "result"@) {
                Some(res) => match spec_get(res, "url"@) {
                    Some(v) => spec_as_str(v),
                    None => None,
                },
                None => None,
            },
        },
    }
}

/// The message of a failed Sora operation, with its documented fallback.
pub open spec fn spec_sora_error(data: ParamValue) -> Seq<char> {
    spec_str_or(data, "error"@, "Video generation failed"@)
}

/// The backoff step: the polling delay doubles, capped at one minute.
pub open spec fn spec_next_delay(d: u64) -> u64 {
    if d > 30000 {
        60000u64
    } else {
        (d * 2) as u64
    }
}

/// How an image reply is interpreted: a non-2xx status is a remote error
/// carrying the raw body; a 2xx JSON reply yields the first data entry's
/// URL and inline payload, either of which may be absent, with the whole
/// response as metadata.
pub open spec fn spec_image_reply(reply: HttpReply, r: GenStep) -> bool {
    if !spec_is2xx(reply.status) {
        r matches GenStep::Fail { error: GenError::Remote { status, body } } && status
            == reply.status && body@ == reply.body_text@
    } else {
        match reply.body_json {
            None => r matches GenStep::Fail { error: GenError::Malformed { reason } } && reason@
                == "response body is not JSON"@,
            Some(data) => r matches GenStep::Done { result } && ({
                &&& (match result.output_url {
                    Some(u) => spec_data0_field_str(data, "data"@, "url"@) == Some(u@),
                    None => spec_data0_field_str(data, "data"@, "url"@) is None,
                })
                &&& (match result.output_data {
                    Some(d) => spec_data0_field_str(data, "data"@, "b64_json"@) == Some(d@),
                    None => spec_data0_field_str(data, "data"@, "b64_json"@) is None,
                })
                &&& result.file_path is None
                &&& result.metadata == data
            }),
        }
    }
}

/// How the reply to the video submission is interpreted: the operation id
/// must be there; the first poll follows after the initial five-second
/// delay.
pub open spec fn spec_video_start_reply(
    key: Seq<char>,
    org: Option<String>,
    reply: HttpReply,
    r: GenStep,
) -> bool {
    if !spec_is2xx(reply.status) {
        r matches GenStep::Fail { error: GenError::Remote { status, body } } && status
            == reply.status && body@ == reply.body_text@
    } else {
        match reply.body_json {
            None => r matches GenStep::Fail { error: GenError::Malformed { reason } } && reason@
                == "response body is not JSON"@,
            Some(data) => match spec_opt_str(data, "id"@) {
                None => r matches GenStep::Fail { error: GenError::Malformed { reason } }
                    && reason@ == "No operation ID in Sora response"@,
                Some(id) => r matches GenStep::SleepSend { delay_ms, request, state } && ({
                    &&& delay_ms == 5000
                    &&& spec_poll_request(key, org, id, request)
                    &&& (state matches SessionState::OpenAiVideoPoll {
                        api_key,
                        organization,
                        video_id,
                        attempts,
                        delay_ms: d,
                    } && api_key@ == key && organization == org && video_id@ == id && attempts == 1
                        && d == 5000)
                }),
            },
        }
    }
}

/// How one poll reply is interpreted: a completed status yields the result,
/// and a missing output location is a malformed response; a failed status
/// carries the remote message; a non-terminal status continues polling,
/// doubling the delay, until the attempt ceiling of 60 polls.
pub open spec fn spec_video_poll_reply(
    key: Seq<char>,
    org: Option<String>,
    id: Seq<char>,
    attempts: u32,
    delay: u64,
    reply: HttpReply,
    r: GenStep,
) -> bool {
    if !spec_is2xx(reply.status) {
        r matches GenStep::Fail { error: GenError::Remote { status, body } } && status
            == reply.status && body@ == reply.body_text@
    } else {
        match reply.body_json {
            None => r matches GenStep::Fail { error: GenError::Malformed { reason } } && reason@
                == "response body is not JSON"@,
            Some(data) => {
                let st = spec_str_or(data, "status"@, "unknown"@);
                if st == "completed"@ || st == "succeeded"@ {
                    match spec_sora_url(data) {
                        Some(u) => r matches GenStep::Done { result } && ({
                            &&& (result.output_url matches Some(ou) && ou@ == u)
                            &&& result.output_data is None
                            &&& result.file_path is None
                            &&& result.metadata == data
                        }),
                        None => r matches GenStep::Fail {
                            error: GenError::Malformed { reason },
                        } && reason@ == "No output location in Sora response"@,
                    }
                } else if st == "failed"@ || st == "error"@ {
                    r matches GenStep::Fail { error: GenError::Remote { status, body } } && status
                        == reply.status && body@ == "Sora generation failed: "@ + spec_sora_error(
                        data,
                    )
                } else if attempts >= 60 {
                    r matches GenStep::Fail { error: GenError::Timeout { attempts: a } } && a
                        == attempts
                } else {
                    let nd = if st == "processing"@ || st == "pending"@ || st == "running"@ {
                        spec_next_delay(delay)
                    } else {
                        delay
                    };
                    r matches GenStep::SleepSend { delay_ms, request, state } && ({
                        &&& delay_ms == nd
                        &&& spec_poll_request(key, org, id, request)
                        &&& (state matches SessionState::OpenAiVideoPoll {
                            api_key,
                            organization,
                            video_id,
                            attempts: a,
                            delay_ms: d,
                        } && api_key@ == key && organization == org && video_id@ == id && a
                            == attempts + 1 && d == nd)
                    })
                }
            },
        }
    }
}

impl OpenAIProvider {
    /// An unconfigured placeholder.
    pub fn new() -> (r: Self)
        ensures
            r.config is None,
    {
        OpenAIProvider { config: None }
    }

    /// A configured instance.
    pub fn with_config(config: OpenAIConfig) -> (r: Self)
        ensures
            r.config == Some(config),
    {
        OpenAIProvider { config: Some(config) }
    }

    /// The registry key of this provider.
    pub fn name(&self) -> (r: &'static str)
        ensures
            r@ == "openai"@,
    {
        "openai"
    }

    /// Whether the instance holds usable configuration.
    pub fn is_available(&self) -> (r: bool)
        ensures
            r == (self.config is Some),
    {
        self.config.is_some()
    }

    /// The warning logged when a deprecated DALL-E alias is redirected to
    /// the current image model.
    pub fn model_warning(&self, model: &str) -> (r: Option<String>)
        ensures
            match r {
                Some(w) => spec_model_alias(model@) && w@
                    == "Warning: DALL-E models are deprecated, using gpt-image-1 instead"@,
                None => !spec_model_alias(model@),
            },
    {
        if str_eq(model, "dall-e-3") || str_eq(model, "dall-e-2") {
            Some(
                String::from_str(
                    "Warning: DALL-E models are deprecated, using gpt-image-1 instead",
                ),
            )
        } else {
            None
        }
    }

    /// The first step of a generation call: an unrouted model fails with
    /// `UnsupportedModel` before anything else; a routed model needs a
    /// configured key and yields the image or video POST.
    pub fn begin(&self, req: GenerationRequest) -> (r: GenStep)
        ensures
            if !spec_model_image(req.model@) && !spec_model_video(req.model@) {
                r matches GenStep::Fail { error: GenError::UnsupportedModel { model, detail } }
                    && model@ == req.model@ && detail@ == "Unsupported OpenAI model: "@
                    + req.model@ + ". Use 'gpt-image-1' for images or 'sora-2' for videos."@
            } else {
                match self.config {
                    None => r matches GenStep::Fail { error: GenError::NotConfigured { detail } }
                        && detail@ == "OpenAI API key not configured"@,
                    Some(cfg) => {
                        if spec_model_image(req.model@) {
                            spec_image_begin(cfg, req, r)
                        } else {
                            spec_video_begin(cfg, req, r)
                        }
                    },
                }
            },
    {
        let image = str_eq(req.model.as_str(), "gpt-image-1") || str_eq(
            req.model.as_str(),
            "gpt-image-1-mini",
        ) || str_eq(req.model.as_str(), "dall-e-3") || str_eq(req.model.as_str(), "dall-e-2");
        let video = str_eq(req.model.as_str(), "sora-2") || str_eq(req.model.as_str(), "sora-2-pro")
            || str_eq(req.model.as_str(), "sora");
        if !image && !video {
            let detail = concat3(
                "Unsupported OpenAI model: ",
                req.model.as_str(),
                ". Use 'gpt-image-1' for images or 'sora-2' for videos.",
            );
            return GenStep::Fail { error: GenError::UnsupportedModel { model: req.model, detail } };
        }
        let cfg = match &self.config {
            Some(cfg) => cfg,
            None => {
                return GenStep::Fail {
                    error: GenError::NotConfigured {
                        detail: String::from_str("OpenAI API key not configured"),
                    },
                };
            },
        };
        let mut headers: Vec<(String, String)> = Vec::new();
        headers.push((String::from_str("Authorization"), concat2("Bearer ", cfg.api_key.as_str())));
        headers.push((String::from_str("Content-Type"), String::from_str("application/json")));
        match &cfg.organization {
            Some(o) => {
                headers.push((String::from_str("OpenAI-Organization"), o.clone()));
            },
            None => {},
        }

        if image {
            let n = req.parameters.u64_or("n", 1);
            let n_int: i64 = #[verifier::truncate] (n as i64);
            let size = req.parameters.str_or("size", "auto");
            let quality = req.parameters.str_or("quality", "high");
            let mut entries: Vec<(String, ParamValue)> = Vec::new();
            entries.push(kv("model", str_node("gpt-image-1")));
            entries.push(kv("prompt", str_node(req.prompt.as_str())));
            entries.push(kv("n", ParamValue::Int(n_int)));
            entries.push(kv("size", ParamValue::Str(size)));
            entries.push(kv("quality", ParamValue::Str(quality)));
            GenStep::Send {
                request: HttpRequest {
                    method: Method::Post,
                    url: String::from_str("https://api.openai.com/v1/images/generations"),
                    headers,
                    body: Some(ParamValue::Obj(entries)),
                },
                state: SessionState::OpenAiImage,
            }
        } else {
            let duration = req.parameters.u64_or("duration", 5);
            let duration_int: i64 = #[verifier::truncate] (duration as i64);
            let resolution = req.parameters.str_or("resolution", "1080p");
            let aspect_ratio = req.parameters.str_or("aspect_ratio", "16:9");
            let mut entries: Vec<(String, ParamValue)> = Vec::new();
            entries.push(kv("model", str_node("sora-2")));
            entries.push(kv("prompt", str_node(req.prompt.as_str())));
            entries.push(kv("duration", ParamValue::Int(duration_int)));
            entries.push(kv("resolution", ParamValue::Str(resolution)));
            entries.push(kv("aspect_ratio", ParamValue::Str(aspect_ratio)));
            let organization = match &cfg.organization {
                Some(o) => Some(o.clone()),
                None => None,
            };
            GenStep::Send {
                request: HttpRequest {
                    method: Method::Post,
                    url: String::from_str("https://api.openai.com/v1/videos"),
                    headers,
                    body: Some(ParamValue::Obj(entries)),
                },
                state: SessionState::OpenAiVideoStart {
                    api_key: cfg.api_key.clone(),
                    organization,
                },
            }
        }
    }
}

/// Builds the status poll for one Sora operation.
fn poll_request(api_key: &str, organization: &Option<String>, video_id: &str) -> (r: HttpRequest)
    ensures
        spec_poll_request(api_key@, *organization, video_id@, r),
{
    let mut headers: Vec<(String, String)> = Vec::new();
    headers.push((String::from_str("Authorization"), concat2("Bearer ", api_key)));
    match organization {
        Some(o) => {
            headers.push((String::from_str("OpenAI-Organization"), o.clone()));
        },
        None => {},
    }
    HttpRequest {
        method: Method::Get,
        url: concat2("https://api.openai.com/v1/videos/", video_id),
        headers,
        body: None,
    }
}

/// Interprets the image reply.
pub fn on_image_reply(reply: HttpReply) -> (r: GenStep)
    ensures
        spec_image_reply(reply, r),
{
    if !crate::http::is2xx(reply.status) {
        return GenStep::Fail {
            error: GenError::Remote { status: reply.status, body: reply.body_text },
        };
    }
    let data = match reply.body_json {
        Some(data) => data,
        None => {
            return GenStep::Fail {
                error: GenError::Malformed {
                    reason: String::from_str("response body is not JSON"),
                },
            };
        },
    };
    let output_url = data0_field_str(&data, "data", "url");
    let output_data = data0_field_str(&data, "data", "b64_json");
    GenStep::Done {
        result: GenerationResult { output_url, output_data, file_path: None, metadata: data },
    }
}

/// Interprets the reply to the video submission.
pub fn on_video_start_reply(
    api_key: String,
    organization: Option<String>,
    reply: HttpReply,
) -> (r: GenStep)
    ensures
        spec_video_start_reply(api_key@, organization, reply, r),
{
    if !crate::http::is2xx(reply.status) {
        return GenStep::Fail {
            error: GenError::Remote { status: reply.status, body: reply.body_text },
        };
    }
    let data = match reply.body_json {
        Some(data) => data,
        None => {
            return GenStep::Fail {
                error: GenError::Malformed {
                    reason: String::from_str("response body is not JSON"),
                },
            };
        },
    };
    let video_id = match data.opt_str("id") {
        Some(id) => id,
        None => {
            return GenStep::Fail {
                error: GenError::Malformed {
                    reason: String::from_str("No operation ID in Sora response"),
                },
            };
        },
    };
    let request = poll_request(api_key.as_str(), &organization, video_id.as_str());
    GenStep::SleepSend {
        delay_ms: 5000,
        request,
        state: SessionState::OpenAiVideoPoll {
            api_key,
            organization,
            video_id,
            attempts: 1,
            delay_ms: 5000,
        },
    }
}

/// Interprets one poll reply.
pub fn on_video_poll_reply(
    api_key: String,
    organization: Option<String>,
    video_id: String,
    attempts: u32,
    delay_ms: u64,
    reply: HttpReply,
) -> (r: GenStep)
    ensures
        spec_video_poll_reply(api_key@, organization, video_id@, attempts, delay_ms, reply, r),
{
    if !crate::http::is2xx(reply.status) {
        return GenStep::Fail {
            error: GenError::Remote { status: reply.status, body: reply.body_text },
        };
    }
    let data = match reply.body_json {
        Some(data) => data,
        None => {
            return GenStep::Fail {
                error: GenError::Malformed {
                    reason: String::from_str("response body is not JSON"),
                },
            };
        },
    };
    let st = data.str_or("status", "unknown");
    if str_eq(st.as_str(), "completed") || str_eq(st.as_str(), "succeeded") {
        let output_url = match data.get("output") {
            Some(v) => match v.as_str() {
                Some(s) => Some(s.clone()),
                None => None,
            },
            None => match data.get("video_url") {
                Some(v) => match v.as_str() {
                    Some(s) => Some(s.clone()),
                    None => None,
                },
                None => match data.get("result") {
                    Some(res) => match res.get("url") {
                        Some(v) => match v.as_str() {
                            Some(s) => Some(s.clone()),
                            None => None,
                        },
                        None => None,
                    },
                    None => None,
                },
            },
        };
        let output_url = match output_url {
            Some(u) => u,
            None => {
                return GenStep::Fail {
                    error: GenError::Malformed {
                        reason: String::from_str("No output location in Sora response"),
                    },
                };
            },
        };
        return GenStep::Done {
            result: GenerationResult {
                output_url: Some(output_url),
                output_data: None,
                file_path: None,
                metadata: data,
            },
        };
    }
    if str_eq(st.as_str(), "failed") || str_eq(st.as_str(), "error") {
        let msg = data.str_or("error", "Video generation failed");
        return GenStep::Fail {
            error: GenError::Remote {
                status: reply.status,
                body: concat2("Sora generation failed: ", msg.as_str()),
            },
        };
    }
    if attempts >= 60 {
        return GenStep::Fail { error: GenError::Timeout { attempts } };
    }
    let busy = str_eq(st.as_str(), "processing") || str_eq(st.as_str(), "pending") || str_eq(
        st.as_str(),
        "running",
    );
    let nd: u64 = if busy {
        if delay_ms > 30000 {
            60000
        } else {
            delay_ms * 2
        }
    } else {
        delay_ms
    };
    let request = poll_request(api_key.as_str(), &organization, video_id.as_str());
    GenStep::SleepSend {
        delay_ms: nd,
        request,
        state: SessionState::OpenAiVideoPoll {
            api_key,
            organization,
            video_id,
            attempts: attempts + 1,
            delay_ms: nd,
        },
    }
}

/// The declared configuration fields of this provider, for UI generation.
pub open spec fn spec_config_schema(r: ParamValue) -> bool {
    match spec_schema_props(r, "api_key"@) {
        Some(ps) => {
            &&& ps.len() == 2
        &&& ps[0].0@ == "api_key"@
        &&& spec_schema_field(ps[0].1, "string"@, "API Key"@, Some("Your OpenAI API key"@), None)
        &&& ps[1].0@ == "organization"@
        &&& spec_schema_field(ps[1].1, "string"@, "Organization ID (optional)"@, Some("Your OpenAI organization ID"@), None)
        },
        None => false,
    }
}

impl OpenAIProvider {
    /// The configuration fields a caller must supply, as a schema document.
    pub fn config_schema(&self) -> (r: ParamValue)
        ensures
            spec_config_schema(r),
    {
        let mut props: Vec<(String, ParamValue)> = Vec::new();
        props.push(kv("api_key", schema_field("string", "API Key", Some("Your OpenAI API key"), None)));
        props.push(kv("organization", schema_field("string", "Organization ID (optional)", Some("Your OpenAI organization ID"), None)));
        schema_with(props, "api_key")
    }
}

} // verus!
