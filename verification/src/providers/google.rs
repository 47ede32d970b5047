//! The Google provider: image generation through the Gemini API (prompt plus
//! up to 14 reference images, optionally search-augmented) and video
//! generation through Veo (a long-running operation resolved by polling with
//! additive backoff).

use vstd::prelude::*;
use crate::error::GenError;
use crate::gen::{GenerationRequest, GenerationResult};
use crate::http::{spec_header_is, spec_is2xx, HttpReply, HttpRequest, Method};
use crate::numfmt::{spec_digits, u64_to_string};
use crate::params::{
    kv, spec_as_str, spec_bool_or, spec_entry, spec_entry_str, spec_get, spec_opt_str,
    spec_str_or, spec_u64_or, spec_val_u64_or, str_node, ParamValue,
};
use crate::session::{GenStep, SessionState};
use crate::strutil::{concat2, concat3, spec_contains, str_contains, str_eq};
use crate::utils::{
    extract_reference_images, spec_data_url_mime, spec_data_url_ok, spec_data_url_payload,
    spec_ref_image_url, spec_ref_list,
};

use crate::providers::{schema_field, schema_with, spec_schema_field, spec_schema_props};

verus! {

/// Google AI configuration (Gemini image generation and Veo video
/// generation).
#[derive(Debug, PartialEq)]
pub struct GoogleConfig {
    pub api_key: String,
    pub project_id: Option<String>,
}

/// Google provider.
#[derive(Debug, PartialEq)]
pub struct GoogleProvider {
    pub config: Option<GoogleConfig>,
}

/// The models routed to the image path.
pub open spec fn spec_model_image(m: Seq<char>) -> bool {
    ||| m == "gemini-2.5-flash-image"@
    ||| m == "gemini-3-pro-image-preview"@
}

/// The models routed to the video path.
pub open spec fn spec_model_video(m: Seq<char>) -> bool {
    ||| m == "veo"@
    ||| m == "veo-2"@
    ||| m == "veo-2.0-generate-exp"@
    ||| m == "veo-3"@
    ||| m == "veo-3.1"@
    ||| m == "veo-3.1-generate-preview"@
}

/// The reference images a request carries, in order: the well-formed
/// entries of the `reference_images` array, or the singular
/// `reference_image` field.
pub open spec fn spec_google_refs(p: ParamValue) -> Seq<(Seq<char>, Seq<char>)> {
    match spec_get(p, "reference_images"@) {
        Some(ParamValue::Arr(items)) => spec_ref_list(items@),
        _ => match spec_ref_image_url(p) {
            Some(u) => if spec_data_url_ok(u) {
                seq![(spec_data_url_mime(u), spec_data_url_payload(u))]
            } else {
                Seq::empty()
            },
            None => Seq::empty(),
        },
    }
}

/// An inline-data part carrying one reference image.
pub open spec fn spec_inline_part(p: ParamValue, mime: Seq<char>, data: Seq<char>) -> bool {
    p matches ParamValue::Obj(es) && ({
        let e = es@;
        &&& e.len() == 1
        &&& e[0].0@ == "inlineData"@
        &&& (e[0].1 matches ParamValue::Obj(inner) && ({
            let i = inner@;
            &&& i.len() == 2
            &&& spec_entry_str(i, 0, "mimeType"@, mime)
            &&& spec_entry_str(i, 1, "data"@, data)
        }))
    })
}

/// The parts array of the image request: the prompt text first, then up to
/// 14 reference images.
pub open spec fn spec_parts_ok(req: GenerationRequest, parts: ParamValue) -> bool {
    parts matches ParamValue::Arr(items) && ({
        let refs = spec_google_refs(req.parameters);
        let k: int = if refs.len() > 14 {
            14int
        } else {
            refs.len() as int
        };
        &&& items@.len() == 1 + k
        &&& (items@[0] matches ParamValue::Obj(t) && t@.len() == 1 && spec_entry_str(
            t@,
            0,
            "text"@,
            req.prompt@,
        ))
        &&& (forall|i: int|
            0 <= i < k ==> spec_inline_part(#[trigger] items@[1 + i], refs[i].0, refs[i].1))
    })
}

/// Whether the model accepts an explicit output resolution.
pub open spec fn spec_model_takes_resolution(m: Seq<char>) -> bool {
    spec_contains(m, "gemini-3"@) || spec_contains(m, "pro-image"@)
}

/// The generation config of the image request: the candidate count, the
/// response modalities (text and image under search augmentation, image
/// alone otherwise), and, on models that take one, the requested
/// resolution.
pub open spec fn spec_genconfig_ok(req: GenerationRequest, gc: ParamValue) -> bool {
    gc matches ParamValue::Obj(es) && ({
        let e = es@;
        let search = spec_bool_or(req.parameters, "google_search"@, false);
        let res = spec_opt_str(req.parameters, "resolution"@);
        let with_res = spec_model_takes_resolution(req.model@) && res is Some;
        &&& e.len() == (if with_res {
            3int
        } else {
            2int
        })
        &&& spec_entry(
            e,
            0,
            "candidateCount"@,
            ParamValue::Int(spec_u64_or(req.parameters, "n"@, 1) as i64),
        )
        &&& e[1].0@ == "responseModalities"@
        &&& (e[1].1 matches ParamValue::Arr(ms) && (if search {
            ms@.len() == 2 && spec_as_str(ms@[0]) == Some("TEXT"@) && spec_as_str(ms@[1]) == Some(
                "IMAGE"@,
            )
        } else {
            ms@.len() == 1 && spec_as_str(ms@[0]) == Some("IMAGE"@)
        }))
        &&& (with_res ==> (match res {
            Some(rs) => spec_entry_str(e, 2, "resolution"@, rs),
            None => false,
        }))
    })
}

/// A configured image begin step: one POST of the Gemini body against the
/// model's generateContent endpoint, under the API key header.
pub open spec fn spec_image_begin(cfg: GoogleConfig, req: GenerationRequest, r: GenStep) -> bool {
    r matches GenStep::Send { request, state } && ({
        let search = spec_bool_or(req.parameters, "google_search"@, false);
        &&& request.method == Method::Post
        &&& request.url@ == "https://generativelanguage.googleapis.com/v1beta/models/"@
            + req.model@ + ":generateContent"@
        &&& request.headers@.len() == 2
        &&& spec_header_is(request.headers@, 0, "x-goog-api-key"@, cfg.api_key@)
        &&& spec_header_is(request.headers@, 1, "Content-Type"@, "application/json"@)
        &&& state is GoogleImage
        &&& (request.body matches Some(ParamValue::Obj(es)) && ({
            let e = es@;
            &&& e.len() == (if search {
                3int
            } else {
                2int
            })
            &&& e[0].0@ == "contents"@
            &&& (e[0].1 matches ParamValue::Arr(cs) && cs@.len() == 1 && (
            cs@[0] matches ParamValue::Obj(ce) && ce@.len() == 1 && ce@[0].0@ == "parts"@
                && spec_parts_ok(req, ce@[0].1)))
            &&& e[1].0@ == "generationConfig"@
            &&& spec_genconfig_ok(req, e[1].1)
            &&& (search ==> e[2].0@ == "tools"@ && (e[2].1 matches ParamValue::Arr(ts)
                && ts@.len() == 1 && (ts@[0] matches ParamValue::Obj(te) && te@.len() == 1
                && te@[0].0@ == "google_search"@ && (te@[0].1 matches ParamValue::Obj(ge)
                && ge@.len() == 0))))
        }))
    })
}

/// The inline image data of one response part, when it carries any.
pub open spec fn spec_inline_of(p: ParamValue) -> Option<Seq<char>> {
    match spec_get(p, "inlineData"@) {
        Some(inl) => match spec_get(inl, "data"@) {
            Some(d) => spec_as_str(d),
            None => None,
        },
        None => None,
    }
}

/// The first response part carrying inline image data.
pub open spec fn spec_first_inline(parts: Seq<ParamValue>) -> Option<Seq<char>>
    decreases parts.len(),
{
    if parts.len() == 0 {
        None
    } else {
        match spec_inline_of(parts[0]) {
            Some(s) => Some(s),
            None => spec_first_inline(parts.drop_first()),
        }
    }
}

/// How an image reply is interpreted: the first candidate's first part with
/// inline data is the result; each missing layer has its own error.
pub open spec fn spec_image_reply(reply: HttpReply, r: GenStep) -> bool {
    if !spec_is2xx(reply.status) {
        r matches GenStep::Fail { error: GenError::Remote { status, body } } && status
            == reply.status && body@ == reply.body_text@
    } else {
        match reply.body_json {
            None => r matches GenStep::Fail { error: GenError::Malformed { reason } } && reason@
                == "response body is not JSON"@,
            Some(data) => match spec_get(data, "candidates"@) {
                Some(ParamValue::Arr(cands)) => {
                    if cands@.len() == 0 {
                        r matches GenStep::Fail { error: GenError::Malformed { reason } }
                            && reason@ == "No candidates in response"@
                    } else {
                        match spec_get(cands@[0], "content"@) {
                            Some(content) => match spec_get(content, "parts"@) {
                                Some(ParamValue::Arr(parts)) => match spec_first_inline(parts@) {
                                    Some(img) => r matches GenStep::Done { result } && ({
                                        &&& result.output_url is None
                                        &&& (result.output_data matches Some(d) && d@ == img)
                                        &&& result.file_path is None
                                        &&& result.metadata == data
                                    }),
                                    None => r matches GenStep::Fail {
                                        error: GenError::Malformed { reason },
                                    } && reason@ == "No inlineData.data found in response parts"@,
                                },
                                _ => r matches GenStep::Fail {
                                    error: GenError::Malformed { reason },
                                } && reason@ == "No content.parts in candidate"@,
                            },
                            None => r matches GenStep::Fail {
                                error: GenError::Malformed { reason },
                            } && reason@ == "No content.parts in candidate"@,
                        }
                    }
                },
                _ => r matches GenStep::Fail { error: GenError::Malformed { reason } } && reason@
                    == "No candidates in Gemini response"@,
            },
        }
    }
}

/// The aspect ratio of a video request: `aspect_ratio`, else `aspectRatio`,
/// defaulting to 16:9.
pub open spec fn spec_aspect(p: ParamValue) -> Seq<char> {
    match spec_get(p, "aspect_ratio"@) {
        Some(v) => match spec_as_str(v) {
            Some(s) => s,
            None => "16:9"@,
        },
        None => match spec_get(p, "aspectRatio"@) {
            Some(v) => match spec_as_str(v) {
                Some(s) => s,
                None => "16:9"@,
            },
            None => "16:9"@,
        },
    }
}

/// The duration of a video request in seconds: `duration`, else
/// `durationSeconds`, defaulting to 8.
pub open spec fn spec_duration(p: ParamValue) -> u64 {
    match spec_get(p, "duration"@) {
        Some(v) => spec_val_u64_or(v, 8),
        None => match spec_get(p, "durationSeconds"@) {
            Some(v) => spec_val_u64_or(v, 8),
            None => 8,
        },
    }
}

/// The Veo model name used for the submission URL, read from the
/// parameters.
pub open spec fn spec_veo_model(p: ParamValue) -> Seq<char> {
    spec_str_or(p, "model"@, "veo-3.1-generate-preview"@)
}

/// A configured video begin step: one POST of the Veo body against the
/// model's predictLongRunning endpoint.
pub open spec fn spec_video_begin(cfg: GoogleConfig, req: GenerationRequest, r: GenStep) -> bool {
    r matches GenStep::Send { request, state } && ({
        &&& request.method == Method::Post
        &&& request.url@ == "https://generativelanguage.googleapis.com/v1beta/models/"@
            + spec_veo_model(req.parameters) + ":predictLongRunning"@
        &&& request.headers@.len() == 2
        &&& spec_header_is(request.headers@, 0, "x-goog-api-key"@, cfg.api_key@)
        &&& spec_header_is(request.headers@, 1, "Content-Type"@, "application/json"@)
        &&& (state matches SessionState::GoogleVideoStart { api_key } && api_key@ == cfg.api_key@)
        &&& (request.body matches Some(ParamValue::Obj(es)) && ({
            let e = es@;
            &&& e.len() == 2
            &&& e[0].0@ == "instances"@
            &&& (e[0].1 matches ParamValue::Arr(ins) && ins@.len() == 1 && (
            ins@[0] matches ParamValue::Obj(ie) && ie@.len() == 1 && spec_entry_str(
                ie@,
                0,
                "prompt"@,
                req.prompt@,
            )))
            &&& e[1].0@ == "parameters"@
            &&& (e[1].1 matches ParamValue::Obj(pe) && ({
                let pp = pe@;
                &&& pp.len() == 3
                &&& spec_entry_str(pp, 0, "aspectRatio"@, spec_aspect(req.parameters))
                &&& spec_entry_str(
                    pp,
                    1,
                    "resolution"@,
                    spec_str_or(req.parameters, "resolution"@, "720p"@),
                )
                &&& spec_entry_str(
                    pp,
                    2,
                    "durationSeconds"@,
                    spec_digits(spec_duration(req.parameters) as nat),
                )
            }))
        }))
    })
}

/// The status poll of one Veo operation: a GET against the operation's
/// resource under the API key header.
pub open spec fn spec_poll_request(key: Seq<char>, name: Seq<char>, r: HttpRequest) -> bool {
    &&& r.method == Method::Get
    &&& r.url@ == "https://generativelanguage.googleapis.com/v1beta/models/"@ + name
    &&& r.body is None
    &&& r.headers@.len() == 1
    &&& spec_header_is(r.headers@, 0, "x-goog-api-key"@, key)
}

/// How the reply to the video submission is interpreted: the operation name
/// must be there; the first poll follows after the initial ten-second delay.
pub open spec fn spec_video_start_reply(key: Seq<char>, reply: HttpReply, r: GenStep) -> bool {
    if !spec_is2xx(reply.status) {
        r matches GenStep::Fail { error: GenError::Remote { status, body } } && status
            == reply.status && body@ == reply.body_text@
    } else {
        match reply.body_json {
            None => r matches GenStep::Fail { error: GenError::Malformed { reason } } && reason@
                == "response body is not JSON"@,
            Some(data) => match spec_opt_str(data, "name"@) {
                None => r matches GenStep::Fail { error: GenError::Malformed { reason } }
                    && reason@ == "No operation name in Veo response"@,
                Some(name) => r matches GenStep::SleepSend { delay_ms, request, state } && ({
                    &&& delay_ms == 10000
                    &&& spec_poll_request(key, name, request)
                    &&& (state matches SessionState::GoogleVideoPoll {
                        api_key,
                        operation_name,
                        attempts,
                        delay_ms: d,
                    } && api_key@ == key && operation_name@ == name && attempts == 1 && d == 10000)
                }),
            },
        }
    }
}

/// The output URL of a finished Veo operation: a first-match search over the
/// known response locations, under `response` or `result`.
pub open spec fn spec_veo_url(data: ParamValue) -> Option<Seq<char>> {
    let res = (match spec_get(data, "response"@) {
        Some(r) => Some(r),
        None => spec_get(data, "result"@),
    });
    match res {
        Some(r) => {
            let from_pred = (match spec_get(r, "predictions"@) {
                Some(ParamValue::Arr(items)) => if items@.len() > 0 {
                    match spec_get(items@[0], "videoUri"@) {
                        Some(v) => Some(v),
                        None => spec_get(items@[0], "video_uri"@),
                    }
                } else {
                    None
                },
                _ => None,
            });
            let found = (match from_pred {
                Some(v) => Some(v),
                None => match spec_get(r, "videoUri"@) {
                    Some(v) => Some(v),
                    None => match spec_get(r, "video_uri"@) {
                        Some(v) => Some(v),
                        None => spec_get(r, "output"@),
                    },
                },
            });
            match found {
                Some(v) => spec_as_str(v),
                None => None,
            }
        },
        None => None,
    }
}

/// The backoff step: the polling delay grows by five seconds, capped at one
/// minute.
pub open spec fn spec_next_delay(d: u64) -> u64 {
    if d > 55000 {
        60000u64
    } else {
        (d + 5000) as u64
    }
}

/// How one poll reply is interpreted: once the operation is done, an
/// embedded error object fails the generation with its message, checked
/// before any result extraction, and a missing output location is a
/// malformed response; an unfinished operation continues polling until the
/// attempt ceiling of 60 polls.
pub open spec fn spec_video_poll_reply(
    key: Seq<char>,
    name: Seq<char>,
    attempts: u32,
    delay: u64,
    reply: HttpReply,
    r: GenStep,
) -> bool {
    if !spec_is2xx(reply.status) {
        r matches GenStep::Fail { error: GenError::Remote { status, body } } && status
            == reply.status && body@ == reply.body_text@
    } else {
        match reply.body_json {
            None => r matches GenStep::Fail { error: GenError::Malformed { reason } } && reason@
                == "response body is not JSON"@,
            Some(data) => {
                if spec_bool_or(data, "done"@, false) {
                    match spec_get(data, "error"@) {
                        Some(e) => r matches GenStep::Fail {
                            error: GenError::Remote { status, body },
                        } && status == reply.status && body@ == "Veo generation failed: "@
                            + spec_str_or(e, "message"@, "Video generation failed"@),
                        None => match spec_veo_url(data) {
                            Some(u) => r matches GenStep::Done { result } && ({
                                &&& (result.output_url matches Some(ou) && ou@ == u)
                                &&& result.output_data is None
                                &&& result.file_path is None
                                &&& result.metadata == data
                            }),
                            None => r matches GenStep::Fail {
                                error: GenError::Malformed { reason },
                            } && reason@ == "No output location in Veo response"@,
                        },
                    }
                } else if attempts >= 60 {
                    r matches GenStep::Fail { error: GenError::Timeout { attempts: a } } && a
                        == attempts
                } else {
                    r matches GenStep::SleepSend { delay_ms, request, state } && ({
                        &&& delay_ms == spec_next_delay(delay)
                        &&& spec_poll_request(key, name, request)
                        &&& (state matches SessionState::GoogleVideoPoll {
                            api_key,
                            operation_name,
                            attempts: a,
                            delay_ms: d,
                        } && api_key@ == key && operation_name@ == name && a == attempts + 1 && d
                            == spec_next_delay(delay))
                    })
                }
            },
        }
    }
}

impl GoogleProvider {
    /// An unconfigured placeholder.
    pub fn new() -> (r: Self)
        ensures
            r.config is None,
    {
        GoogleProvider { config: None }
    }

    /// A configured instance.
    pub fn with_config(config: GoogleConfig) -> (r: Self)
        ensures
            r.config == Some(config),
    {
        GoogleProvider { config: Some(config) }
    }

    /// The registry key of this provider.
    pub fn name(&self) -> (r: &'static str)
        ensures
            r@ == "google"@,
    {
        "google"
    }

    /// Whether the instance holds usable configuration.
    pub fn is_available(&self) -> (r: bool)
        ensures
            r == (self.config is Some),
    {
        self.config.is_some()
    }

    /// The first step of a generation call: an unrouted model fails with
    /// `UnsupportedModel` before anything else; a routed model needs a
    /// configured key and yields the image or video POST.
    pub fn begin(&self, req: GenerationRequest) -> (r: GenStep)
        ensures
            if !spec_model_image(req.model@) && !spec_model_video(req.model@) {
                r matches GenStep::Fail { error: GenError::UnsupportedModel { model, detail } }
                    && model@ == req.model@ && detail@ == "Unsupported Google model: "@
                    + req.model@
                    + ". Use 'gemini-2.5-flash-image' or 'gemini-3-pro-image-preview' for images, or 'veo-3.1-generate-preview' for video generation."@
            } else {
                match self.config {
                    None => r matches GenStep::Fail { error: GenError::NotConfigured { detail } }
                        && detail@ == "Google API key not configured"@,
                    Some(cfg) => {
                        if spec_model_image(req.model@) {
                            spec_image_begin(cfg, req, r)
                        } else {
                            spec_video_begin(cfg, req, r)
                        }
                    },
                }
            },
    {
        let image = str_eq(req.model.as_str(), "gemini-2.5-flash-image") || str_eq(
            req.model.as_str(),
            "gemini-3-pro-image-preview",
        );
        let video = str_eq(req.model.as_str(), "veo") || str_eq(req.model.as_str(), "veo-2")
            || str_eq(req.model.as_str(), "veo-2.0-generate-exp") || str_eq(
            req.model.as_str(),
            "veo-3",
        ) || str_eq(req.model.as_str(), "veo-3.1") || str_eq(
            req.model.as_str(),
            "veo-3.1-generate-preview",
        );
        if !image && !video {
            let detail = concat3(
                "Unsupported Google model: ",
                req.model.as_str(),
                ". Use 'gemini-2.5-flash-image' or 'gemini-3-pro-image-preview' for images, or 'veo-3.1-generate-preview' for video generation.",
            );
            return GenStep::Fail { error: GenError::UnsupportedModel { model: req.model, detail } };
        }
        let cfg = match &self.config {
            Some(cfg) => cfg,
            None => {
                return GenStep::Fail {
                    error: GenError::NotConfigured {
                        detail: String::from_str("Google API key not configured"),
                    },
                };
            },
        };
        let mut headers: Vec<(String, String)> = Vec::new();
        headers.push((String::from_str("x-goog-api-key"), cfg.api_key.clone()));
        headers.push((String::from_str("Content-Type"), String::from_str("application/json")));

        if image {
            self.begin_image(cfg, req, headers)
        } else {
            self.begin_video(cfg, req, headers)
        }
    }

    /// Builds the Gemini image request.
    #[verifier::loop_isolation(false)]
    fn begin_image(
        &self,
        cfg: &GoogleConfig,
        req: GenerationRequest,
        headers: Vec<(String, String)>,
    ) -> (r: GenStep)
        requires
            spec_header_is(headers@, 0, "x-goog-api-key"@, cfg.api_key@),
            spec_header_is(headers@, 1, "Content-Type"@, "application/json"@),
            headers@.len() == 2,
        ensures
            spec_image_begin(*cfg, req, r),
    {
        let p = &req.parameters;
        let n = p.u64_or("n", 1);
        let n_int: i64 = #[verifier::truncate] (n as i64);
        let resolution = p.opt_str("resolution");
        let search = p.bool_or("google_search", false);

        // Response modalities.
        let mut modalities: Vec<ParamValue> = Vec::new();
        if search {
            modalities.push(str_node("TEXT"));
        }
        modalities.push(str_node("IMAGE"));

        let mut gc: Vec<(String, ParamValue)> = Vec::new();
        gc.push(kv("candidateCount", ParamValue::Int(n_int)));
        gc.push(kv("responseModalities", ParamValue::Arr(modalities)));
        let takes_res = str_contains(req.model.as_str(), "gemini-3") || str_contains(
            req.model.as_str(),
            "pro-image",
        );
        match &resolution {
            Some(rs) => {
                if takes_res {
                    gc.push(kv("resolution", str_node(rs.as_str())));
                }
            },
            None => {},
        }
        let genconfig = ParamValue::Obj(gc);

        // Parts: the prompt first, then up to 14 reference images.
        let mut parts: Vec<ParamValue> = Vec::new();
        let mut te: Vec<(String, ParamValue)> = Vec::new();
        te.push(kv("text", str_node(req.prompt.as_str())));
        parts.push(ParamValue::Obj(te));
        let ghost refs = spec_google_refs(req.parameters);
        let images: Vec<(String, String)> = match extract_reference_images(p) {
            Some(v) => v,
            None => Vec::new(),
        };
        proof {
            assert(images@.len() == refs.len() || (images@.len() == 0 && refs.len() == 0));
        }
        let count = if images.len() > 14 {
            14
        } else {
            images.len()
        };
        let mut i: usize = 0;
        while i < count
            invariant
                count <= images.len(),
                count == (if refs.len() > 14 {
                    14int
                } else {
                    refs.len() as int
                }),
                forall|k: int|
                    0 <= k < images@.len() ==> (#[trigger] images@[k].0@, images@[k].1@) == refs[k],
                i <= count,
                parts@.len() == 1 + i,
                (parts@[0] matches ParamValue::Obj(t) && t@.len() == 1 && spec_entry_str(
                    t@,
                    0,
                    "text"@,
                    req.prompt@,
                )),
                forall|k: int|
                    0 <= k < i ==> spec_inline_part(#[trigger] parts@[1 + k], refs[k].0, refs[k].1),
            decreases count - i,
        {
            let mut inner: Vec<(String, ParamValue)> = Vec::new();
            inner.push(kv("mimeType", str_node(images[i].0.as_str())));
            inner.push(kv("data", str_node(images[i].1.as_str())));
            let mut pe: Vec<(String, ParamValue)> = Vec::new();
            pe.push(kv("inlineData", ParamValue::Obj(inner)));
            parts.push(ParamValue::Obj(pe));
            i += 1;
        }

        let mut ce: Vec<(String, ParamValue)> = Vec::new();
        ce.push(kv("parts", ParamValue::Arr(parts)));
        let mut contents: Vec<ParamValue> = Vec::new();
        contents.push(ParamValue::Obj(ce));

        let mut entries: Vec<(String, ParamValue)> = Vec::new();
        entries.push(kv("contents", ParamValue::Arr(contents)));
        entries.push(kv("generationConfig", genconfig));
        if search {
            let ge: Vec<(String, ParamValue)> = Vec::new();
            let mut te2: Vec<(String, ParamValue)> = Vec::new();
            te2.push(kv("google_search", ParamValue::Obj(ge)));
            let mut tools: Vec<ParamValue> = Vec::new();
            tools.push(ParamValue::Obj(te2));
            entries.push(kv("tools", ParamValue::Arr(tools)));
        }
        let body = ParamValue::Obj(entries);

        let url = concat3(
            "https://generativelanguage.googleapis.com/v1beta/models/",
            req.model.as_str(),
            ":generateContent",
        );
        GenStep::Send {
            request: HttpRequest { method: Method::Post, url, headers, body: Some(body) },
            state: SessionState::GoogleImage,
        }
    }

    /// Builds the Veo video submission.
    fn begin_video(
        &self,
        cfg: &GoogleConfig,
        req: GenerationRequest,
        headers: Vec<(String, String)>,
    ) -> (r: GenStep)
        requires
            spec_header_is(headers@, 0, "x-goog-api-key"@, cfg.api_key@),
            spec_header_is(headers@, 1, "Content-Type"@, "application/json"@),
            headers@.len() == 2,
        ensures
            spec_video_begin(*cfg, req, r),
    {
        let p = &req.parameters;
        let aspect: String = match p.get("aspect_ratio") {
            Some(v) => match v.as_str() {
                Some(s) => s.clone(),
                None => String::from_str("16:9"),
            },
            None => match p.get("aspectRatio") {
                Some(v) => match v.as_str() {
                    Some(s) => s.clone(),
                    None => String::from_str("16:9"),
                },
                None => String::from_str("16:9"),
            },
        };
        let resolution = p.str_or("resolution", "720p");
        let duration: u64 = match p.get("duration") {
            Some(v) => v.val_u64_or(8),
            None => match p.get("durationSeconds") {
                Some(v) => v.val_u64_or(8),
                None => 8,
            },
        };
        let duration_str = u64_to_string(duration);
        let model = p.str_or("model", "veo-3.1-generate-preview");

        let mut ie: Vec<(String, ParamValue)> = Vec::new();
        ie.push(kv("prompt", str_node(req.prompt.as_str())));
        let mut instances: Vec<ParamValue> = Vec::new();
        instances.push(ParamValue::Obj(ie));

        let mut pe: Vec<(String, ParamValue)> = Vec::new();
        pe.push(kv("aspectRatio", ParamValue::Str(aspect)));
        pe.push(kv("resolution", ParamValue::Str(resolution)));
        pe.push(kv("durationSeconds", ParamValue::Str(duration_str)));

        let mut entries: Vec<(String, ParamValue)> = Vec::new();
        entries.push(kv("instances", ParamValue::Arr(instances)));
        entries.push(kv("parameters", ParamValue::Obj(pe)));
        let body = ParamValue::Obj(entries);

        let url = concat3(
            "https://generativelanguage.googleapis.com/v1beta/models/",
            model.as_str(),
            ":predictLongRunning",
        );
        GenStep::Send {
            request: HttpRequest { method: Method::Post, url, headers, body: Some(body) },
            state: SessionState::GoogleVideoStart { api_key: cfg.api_key.clone() },
        }
    }
}

/// Builds the status poll for one Veo operation.
fn poll_request(api_key: &str, operation_name: &str) -> (r: HttpRequest)
    ensures
        spec_poll_request(api_key@, operation_name@, r),
{
    let mut headers: Vec<(String, String)> = Vec::new();
    headers.push((String::from_str("x-goog-api-key"), String::from_str(api_key)));
    HttpRequest {
        method: Method::Get,
        url: concat2("https://generativelanguage.googleapis.com/v1beta/models/", operation_name),
        headers,
        body: None,
    }
}

/// Interprets the image reply.
pub fn on_image_reply(reply: HttpReply) -> (r: GenStep)
    ensures
        spec_image_reply(reply, r),
{
    if !crate::http::is2xx(reply.status) {
        return GenStep::Fail {
            error: GenError::Remote { status: reply.status, body: reply.body_text },
        };
    }
    let data = match reply.body_json {
        Some(data) => data,
        None => {
            return GenStep::Fail {
                error: GenError::Malformed {
                    reason: String::from_str("response body is not JSON"),
                },
            };
        },
    };
    let image_data: String = match data.get("candidates") {
        Some(ParamValue::Arr(cands)) => {
            if cands.len() == 0 {
                return GenStep::Fail {
                    error: GenError::Malformed {
                        reason: String::from_str("No candidates in response"),
                    },
                };
            }
            let parts = match cands[0].get("content") {
                Some(content) => match content.get("parts") {
                    Some(ParamValue::Arr(parts)) => parts,
                    _ => {
                        return GenStep::Fail {
                            error: GenError::Malformed {
                                reason: String::from_str("No content.parts in candidate"),
                            },
                        };
                    },
                },
                None => {
                    return GenStep::Fail {
                        error: GenError::Malformed {
                            reason: String::from_str("No content.parts in candidate"),
                        },
                    };
                },
            };
            match first_inline(parts) {
                Some(img) => img,
                None => {
                    return GenStep::Fail {
                        error: GenError::Malformed {
                            reason: String::from_str(
                                "No inlineData.data found in response parts",
                            ),
                        },
                    };
                },
            }
        },
        _ => {
            return GenStep::Fail {
                error: GenError::Malformed {
                    reason: String::from_str("No candidates in Gemini response"),
                },
            };
        },
    };
    GenStep::Done {
        result: GenerationResult {
            output_url: None,
            output_data: Some(image_data),
            file_path: None,
            metadata: data,
        },
    }
}

/// Finds the first part carrying inline image data.
fn first_inline(parts: &Vec<ParamValue>) -> (r: Option<String>)
    ensures
        match r {
            Some(s) => spec_first_inline(parts@) == Some(s@),
            None => spec_first_inline(parts@) is None,
        },
{
    let n = parts.len();
    let mut i: usize = 0;
    proof {
        assert(parts@.skip(0) =~= parts@);
    }
    while i < n
        invariant
            n == parts.len(),
            i <= n,
            spec_first_inline(parts@) == spec_first_inline(parts@.skip(i as int)),
        decreases n - i,
    {
        let inline: Option<String> = match parts[i].get("inlineData") {
            Some(inl) => match inl.get("data") {
                Some(d) => match d.as_str() {
                    Some(s) => Some(s.clone()),
                    None => None,
                },
                None => None,
            },
            None => None,
        };
        proof {
            assert(parts@.skip(i as int)[0] == parts@[i as int]);
            assert(parts@.skip(i as int).drop_first() =~= parts@.skip(i + 1));
        }
        match inline {
            Some(s) => {
                return Some(s);
            },
            None => {},
        }
        i += 1;
    }
    proof {
        assert(parts@.skip(n as int) =~= Seq::<ParamValue>::empty());
    }
    None
}

/// Interprets the reply to the video submission.
pub fn on_video_start_reply(api_key: String, reply: HttpReply) -> (r: GenStep)
    ensures
        spec_video_start_reply(api_key@, reply, r),
{
    if !crate::http::is2xx(reply.status) {
        return GenStep::Fail {
            error: GenError::Remote { status: reply.status, body: reply.body_text },
        };
    }
    let data = match reply.body_json {
        Some(data) => data,
        None => {
            return GenStep::Fail {
                error: GenError::Malformed {
                    reason: String::from_str("response body is not JSON"),
                },
            };
        },
    };
    let operation_name = match data.opt_str("name") {
        Some(name) => name,
        None => {
            return GenStep::Fail {
                error: GenError::Malformed {
                    reason: String::from_str("No operation name in Veo response"),
                },
            };
        },
    };
    let request = poll_request(api_key.as_str(), operation_name.as_str());
    GenStep::SleepSend {
        delay_ms: 10000,
        request,
        state: SessionState::GoogleVideoPoll {
            api_key,
            operation_name,
            attempts: 1,
            delay_ms: 10000,
        },
    }
}

/// Interprets one poll reply.
pub fn on_video_poll_reply(
    api_key: String,
    operation_name: String,
    attempts: u32,
    delay_ms: u64,
    reply: HttpReply,
) -> (r: GenStep)
    ensures
        spec_video_poll_reply(api_key@, operation_name@, attempts, delay_ms, reply, r),
{
    if !crate::http::is2xx(reply.status) {
        return GenStep::Fail {
            error: GenError::Remote { status: reply.status, body: reply.body_text },
        };
    }
    let data = match reply.body_json {
        Some(data) => data,
        None => {
            return GenStep::Fail {
                error: GenError::Malformed {
                    reason: String::from_str("response body is not JSON"),
                },
            };
        },
    };
    let done = data.bool_or("done", false);
    if done {
        match data.get("error") {
            Some(e) => {
                let msg = e.str_or("message", "Video generation failed");
                return GenStep::Fail {
                    error: GenError::Remote {
                        status: reply.status,
                        body: concat2("Veo generation failed: ", msg.as_str()),
                    },
                };
            },
            None => {},
        }
        let output_url = match veo_url(&data) {
            Some(u) => u,
            None => {
                return GenStep::Fail {
                    error: GenError::Malformed {
                        reason: String::from_str("No output location in Veo response"),
                    },
                };
            },
        };
        return GenStep::Done {
            result: GenerationResult {
                output_url: Some(output_url),
                output_data: None,
                file_path: None,
                metadata: data,
            },
        };
    }
    if attempts >= 60 {
        return GenStep::Fail { error: GenError::Timeout { attempts } };
    }
    let nd: u64 = if delay_ms > 55000 {
        60000
    } else {
        delay_ms + 5000
    };
    let request = poll_request(api_key.as_str(), operation_name.as_str());
    GenStep::SleepSend {
        delay_ms: nd,
        request,
        state: SessionState::GoogleVideoPoll {
            api_key,
            operation_name,
            attempts: attempts + 1,
            delay_ms: nd,
        },
    }
}

/// Reads the output URL of a finished operation out of the known locations.
fn veo_url(data: &ParamValue) -> (r: Option<String>)
    ensures
        match r {
            Some(u) => spec_veo_url(*data) == Some(u@),
            None => spec_veo_url(*data) is None,
        },
{
    let res = match data.get("response") {
        Some(r) => Some(r),
        None => data.get("result"),
    };
    let r = match res {
        Some(r) => r,
        None => {
            return None;
        },
    };
    let from_pred: Option<&ParamValue> = match r.get("predictions") {
        Some(ParamValue::Arr(items)) => {
            if items.len() > 0 {
                match items[0].get("videoUri") {
                    Some(v) => Some(v),
                    None => items[0].get("video_uri"),
                }
            } else {
                None
            }
        },
        _ => None,
    };
    let found: Option<&ParamValue> = match from_pred {
        Some(v) => Some(v),
        None => match r.get("videoUri") {
            Some(v) => Some(v),
            None => match r.get("video_uri") {
                Some(v) => Some(v),
                None => r.get("output"),
            },
        },
    };
    match found {
        Some(v) => match v.as_str() {
            Some(s) => Some(s.clone()),
            None => None,
        },
        None => None,
    }
}

/// The declared configuration fields of this provider, for UI generation.
pub open spec fn spec_config_schema(r: ParamValue) -> bool {
    match spec_schema_props(r, "api_key"@) {
        Some(ps) => {
            &&& ps.len() == 2
        &&& ps[0].0@ == "api_key"@
        &&& spec_schema_field(ps[0].1, "string"@, "API Key"@, Some("Your Google AI / Gemini API key"@), None)
        &&& ps[1].0@ == "project_id"@
        &&& spec_schema_field(ps[1].1, "string"@, "Project ID (optional)"@, None, None)
        },
        None => false,
    }
}

impl GoogleProvider {
    /// The configuration fields a caller must supply, as a schema document.
    pub fn config_schema(&self) -> (r: ParamValue)
        ensures
            spec_config_schema(r),
    {
        let mut props: Vec<(String, ParamValue)> = Vec::new();
        props.push(kv("api_key", schema_field("string", "API Key", Some("Your Google AI / Gemini API key"), None)));
        props.push(kv("project_id", schema_field("string", "Project ID (optional)", None, None)));
        schema_with(props, "api_key")
    }
}

} // verus!
