//! The Anthropic provider: single-turn text generation. One POST against
//! the messages endpoint; the response's content blocks are concatenated in
//! order into the inline output, and usage and stop reason are copied into
//! the metadata.

use vstd::prelude::*;
use crate::error::GenError;
use crate::gen::{GenerationRequest, GenerationResult};
use crate::http::{spec_header_is, spec_is2xx, HttpReply, HttpRequest, Method};
use crate::params::{
    kv, spec_centi_or, spec_entry, spec_entry_str, spec_get, spec_opt_str, spec_u64_or, str_node,
    ParamValue,
};
use crate::session::{GenStep, SessionState};

use crate::providers::{schema_field, schema_with, spec_schema_field, spec_schema_props};

verus! {

/// Anthropic provider configuration.
#[derive(Debug, PartialEq)]
pub struct AnthropicConfig {
    pub api_key: String,
}

/// Anthropic provider (single-turn text generation).
#[derive(Debug, PartialEq)]
pub struct AnthropicProvider {
    pub config: Option<AnthropicConfig>,
}

/// A configured begin step: one POST of the single-turn message body, with
/// the request's model passed through, the token ceiling defaulting to 4096
/// and the temperature (hundredths) defaulting to 1.
pub open spec fn spec_text_begin(cfg: AnthropicConfig, req: GenerationRequest, r: GenStep) -> bool {
    r matches GenStep::Send { request, state } && ({
        &&& request.method == Method::Post
        &&& request.url@ == "https://api.anthropic.com/v1/messages"@
        &&& request.headers@.len() == 3
        &&& spec_header_is(request.headers@, 0, "x-api-key"@, cfg.api_key@)
        &&& spec_header_is(request.headers@, 1, "anthropic-version"@, "2023-06-01"@)
        &&& spec_header_is(request.headers@, 2, "Content-Type"@, "application/json"@)
        &&& state is AnthropicText
        &&& (request.body matches Some(ParamValue::Obj(es)) && ({
            let e = es@;
            &&& e.len() == 4
            &&& spec_entry_str(e, 0, "model"@, req.model@)
            &&& spec_entry(
                e,
                1,
                "max_tokens"@,
                ParamValue::Int((spec_u64_or(req.parameters, "max_tokens"@, 4096) as u32) as i64),
            )
            &&& spec_entry(
                e,
                2,
                "temperature"@,
                ParamValue::Dec(spec_centi_or(req.parameters, "temperature"@, 100)),
            )
            &&& e[3].0@ == "messages"@
            &&& (e[3].1 matches ParamValue::Arr(msgs) && msgs@.len() == 1 && (
            msgs@[0] matches ParamValue::Obj(ms) && ({
                let m = ms@;
                &&& m.len() == 2
                &&& spec_entry_str(m, 0, "role"@, "user"@)
                &&& spec_entry_str(m, 1, "content"@, req.prompt@)
            })))
        }))
    })
}

/// One content block of a message response is well formed: it names its
/// type, and its text, when present, is a string or null.
pub open spec fn spec_block_ok(b: ParamValue) -> bool {
    &&& spec_opt_str(b, "type"@) is Some
    &&& (match spec_get(b, "text"@) {
        None => true,
        Some(t) => t is Str || t is Null,
    })
}

/// A message response is well formed: id and model are strings, usage is
/// present, the content is an array of well-formed blocks, and the stop
/// reason, when present, is a string or null.
pub open spec fn spec_msg_valid(data: ParamValue) -> bool {
    &&& spec_opt_str(data, "id"@) is Some
    &&& spec_opt_str(data, "model"@) is Some
    &&& spec_get(data, "usage"@) is Some
    &&& (match spec_get(data, "content"@) {
        Some(ParamValue::Arr(blocks)) => forall|i: int|
            0 <= i < blocks@.len() ==> spec_block_ok(#[trigger] blocks@[i]),
        _ => false,
    })
    &&& (match spec_get(data, "stop_reason"@) {
        None => true,
        Some(v) => v is Str || v is Null,
    })
}

/// The concatenation, in order, of the text carried by the blocks.
pub open spec fn spec_blocks_text(blocks: Seq<ParamValue>) -> Seq<char>
    decreases blocks.len(),
{
    if blocks.len() == 0 {
        Seq::empty()
    } else {
        spec_blocks_text(blocks.drop_last()) + (match spec_get(blocks.last(), "text"@) {
            Some(ParamValue::Str(s)) => s@,
            _ => Seq::<char>::empty(),
        })
    }
}

/// The result built from a valid message response: the concatenated text as
/// inline output; id, model, stop reason and usage as metadata.
pub open spec fn spec_text_result(data: ParamValue, result: GenerationResult) -> bool {
    &&& result.output_url is None
    &&& result.file_path is None
    &&& (match spec_get(data, "content"@) {
        Some(ParamValue::Arr(blocks)) => result.output_data matches Some(t) && t@
            == spec_blocks_text(blocks@),
        _ => false,
    })
    &&& (result.metadata matches ParamValue::Obj(es) && ({
        let e = es@;
        &&& e.len() == 4
        &&& (match spec_opt_str(data, "id"@) {
            Some(id) => spec_entry_str(e, 0, "id"@, id),
            None => false,
        })
        &&& (match spec_opt_str(data, "model"@) {
            Some(m) => spec_entry_str(e, 1, "model"@, m),
            None => false,
        })
        &&& e[2].0@ == "stop_reason"@
        &&& (match spec_get(data, "stop_reason"@) {
            Some(ParamValue::Str(s)) => spec_as_str_entry(e[2].1, s@),
            _ => e[2].1 is Null,
        })
        &&& e[3].0@ == "usage"@
        &&& spec_get(data, "usage"@) == Some(e[3].1)
    }))
}

/// The node is the string `val`.
pub open spec fn spec_as_str_entry(v: ParamValue, val: Seq<char>) -> bool {
    crate::params::spec_as_str(v) == Some(val)
}

/// How a message reply is interpreted: a non-2xx status is a remote error
/// carrying the raw body; a 2xx reply must be JSON shaped as a valid
/// message response.
pub open spec fn spec_text_reply(reply: HttpReply, r: GenStep) -> bool {
    if !spec_is2xx(reply.status) {
        r matches GenStep::Fail { error: GenError::Remote { status, body } } && status
            == reply.status && body@ == reply.body_text@
    } else {
        match reply.body_json {
            None => r matches GenStep::Fail { error: GenError::Malformed { reason } } && reason@
                == "response body is not JSON"@,
            Some(data) => {
                if !spec_msg_valid(data) {
                    r matches GenStep::Fail { error: GenError::Malformed { reason } } && reason@
                        == "response is not a valid message object"@
                } else {
                    r matches GenStep::Done { result } && spec_text_result(data, result)
                }
            },
        }
    }
}

impl AnthropicProvider {
    /// An unconfigured placeholder.
    pub fn new() -> (r: Self)
        ensures
            r.config is None,
    {
        AnthropicProvider { config: None }
    }

    /// A configured instance.
    pub fn with_config(config: AnthropicConfig) -> (r: Self)
        ensures
            r.config == Some(config),
    {
        AnthropicProvider { config: Some(config) }
    }

    /// The registry key of this provider.
    pub fn name(&self) -> (r: &'static str)
        ensures
            r@ == "anthropic"@,
    {
        "anthropic"
    }

    /// Whether the instance holds usable configuration.
    pub fn is_available(&self) -> (r: bool)
        ensures
            r == (self.config is Some),
    {
        self.config.is_some()
    }

    /// The first step of a generation call: the messages POST, or
    /// `NotConfigured` when no key was supplied. Every model value is routed
    /// to the text path and passed through to the backend.
    pub fn begin(&self, req: GenerationRequest) -> (r: GenStep)
        ensures
            match self.config {
                None => r matches GenStep::Fail {
                    error: GenError::NotConfigured { detail },
                } && detail@ == "Anthropic API key not configured"@,
                Some(cfg) => spec_text_begin(cfg, req, r),
            },
    {
        let cfg = match &self.config {
            Some(cfg) => cfg,
            None => {
                return GenStep::Fail {
                    error: GenError::NotConfigured {
                        detail: String::from_str("Anthropic API key not configured"),
                    },
                };
            },
        };
        let max_tokens64 = req.parameters.u64_or("max_tokens", 4096);
        let max_tokens: u32 = #[verifier::truncate] (max_tokens64 as u32);
        let temperature = req.parameters.centi_or("temperature", 100);

        let mut msg: Vec<(String, ParamValue)> = Vec::new();
        msg.push(kv("role", str_node("user")));
        msg.push(kv("content", str_node(req.prompt.as_str())));
        let mut msgs: Vec<ParamValue> = Vec::new();
        msgs.push(ParamValue::Obj(msg));

        let mut entries: Vec<(String, ParamValue)> = Vec::new();
        entries.push(kv("model", str_node(req.model.as_str())));
        entries.push(kv("max_tokens", ParamValue::Int(max_tokens as i64)));
        entries.push(kv("temperature", ParamValue::Dec(temperature)));
        entries.push(kv("messages", ParamValue::Arr(msgs)));
        let body = ParamValue::Obj(entries);

        let mut headers: Vec<(String, String)> = Vec::new();
        headers.push((String::from_str("x-api-key"), cfg.api_key.clone()));
        headers.push((String::from_str("anthropic-version"), String::from_str("2023-06-01")));
        headers.push((String::from_str("Content-Type"), String::from_str("application/json")));

        GenStep::Send {
            request: HttpRequest {
                method: Method::Post,
                url: String::from_str("https://api.anthropic.com/v1/messages"),
                headers,
                body: Some(body),
            },
            state: SessionState::AnthropicText,
        }
    }
}

/// The error for a 2xx reply that is not shaped as a message response.
fn invalid_msg() -> (r: GenError)
    ensures
        r matches GenError::Malformed { reason } && reason@
            == "response is not a valid message object"@,
{
    GenError::Malformed { reason: String::from_str("response is not a valid message object") }
}

/// Interprets the messages reply.
#[verifier::loop_isolation(false)]
pub fn on_text_reply(reply: HttpReply) -> (r: GenStep)
    ensures
        spec_text_reply(reply, r),
{
    if !crate::http::is2xx(reply.status) {
        return GenStep::Fail {
            error: GenError::Remote { status: reply.status, body: reply.body_text },
        };
    }
    let mut data = match reply.body_json {
        Some(data) => data,
        None => {
            return GenStep::Fail {
                error: GenError::Malformed {
                    reason: String::from_str("response body is not JSON"),
                },
            };
        },
    };
    let id = match data.opt_str("id") {
        Some(id) => id,
        None => {
            return GenStep::Fail { error: invalid_msg() };
        },
    };
    let model = match data.opt_str("model") {
        Some(m) => m,
        None => {
            return GenStep::Fail { error: invalid_msg() };
        },
    };
    let stop_reason: ParamValue = match data.get("stop_reason") {
        Some(ParamValue::Str(s)) => ParamValue::Str(s.clone()),
        Some(ParamValue::Null) => ParamValue::Null,
        None => ParamValue::Null,
        Some(_) => {
            return GenStep::Fail { error: invalid_msg() };
        },
    };

    let mut text = String::new();
    match data.get("content") {
        Some(ParamValue::Arr(blocks)) => {
            let n = blocks.len();
            let mut i: usize = 0;
            while i < n
                invariant
                    n == blocks.len(),
                    i <= n,
                    forall|j: int| 0 <= j < i ==> spec_block_ok(#[trigger] blocks@[j]),
                    text@ == spec_blocks_text(blocks@.subrange(0, i as int)),
                decreases n - i,
            {
                proof {
                    let pre = blocks@.subrange(0, i + 1);
                    assert(pre.drop_last() =~= blocks@.subrange(0, i as int));
                    assert(pre.last() == blocks@[i as int]);
                }
                let b = &blocks[i];
                match b.get("type") {
                    Some(t) => {
                        if t.as_str().is_none() {
                            return GenStep::Fail { error: invalid_msg() };
                        }
                    },
                    None => {
                        return GenStep::Fail { error: invalid_msg() };
                    },
                }
                match b.get("text") {
                    Some(ParamValue::Str(s)) => {
                        text.append(s.as_str());
                    },
                    Some(ParamValue::Null) => {},
                    None => {},
                    Some(_) => {
                        return GenStep::Fail { error: invalid_msg() };
                    },
                }
                i += 1;
            }
            proof {
                assert(blocks@.subrange(0, n as int) =~= blocks@);
            }
        },
        _ => {
            return GenStep::Fail { error: invalid_msg() };
        },
    }

    let usage = match data.take("usage") {
        Some(u) => u,
        None => {
            return GenStep::Fail { error: invalid_msg() };
        },
    };

    let mut meta: Vec<(String, ParamValue)> = Vec::new();
    meta.push(kv("id", ParamValue::Str(id)));
    meta.push(kv("model", ParamValue::Str(model)));
    meta.push(kv("stop_reason", stop_reason));
    meta.push(kv("usage", usage));

    GenStep::Done {
        result: GenerationResult {
            output_url: None,
            output_data: Some(text),
            file_path: None,
            metadata: ParamValue::Obj(meta),
        },
    }
}

/// The declared configuration fields of this provider, for UI generation.
pub open spec fn spec_config_schema(r: ParamValue) -> bool {
    match spec_schema_props(r, "api_key"@) {
        Some(ps) => {
            &&& ps.len() == 1
        &&& ps[0].0@ == "api_key"@
        &&& spec_schema_field(ps[0].1, "string"@, "API Key"@, Some("Your Anthropic API key"@), None)
        },
        None => false,
    }
}

impl AnthropicProvider {
    /// The configuration fields a caller must supply, as a schema document.
    pub fn config_schema(&self) -> (r: ParamValue)
        ensures
            spec_config_schema(r),
    {
        let mut props: Vec<(String, ParamValue)> = Vec::new();
        props.push(kv("api_key", schema_field("string", "API Key", Some("Your Anthropic API key"), None)));
        schema_with(props, "api_key")
    }
}

} // verus!
