//! The state machine of one in-flight generation call. The verified code
//! answers every event with a `GenStep`; the embedding application performs
//! the named action (an HTTP exchange, possibly after a delay) and hands the
//! reply back, until the step is `Done` or `Fail`.

use vstd::prelude::*;
use crate::error::GenError;
use crate::gen::GenerationResult;
use crate::http::HttpRequest;

verus! {

/// What the synchronous image backends echo into the result metadata: the
/// prompt and the extracted generation parameters, fixed-point values in
/// hundredths.
#[derive(Debug, PartialEq)]
pub struct SdContext {
    pub prompt: String,
    pub negative_prompt: String,
    pub model: Option<String>,
    pub steps: u32,
    pub cfg_centi: i64,
    pub width: u32,
    pub height: u32,
    pub sampler: String,
    pub seed: i64,
}

/// Where an in-flight generation call stands: which reply it awaits and the
/// context that reply will be interpreted with.
#[derive(Debug, PartialEq)]
pub enum SessionState {
    /// Awaiting the response of an A1111 txt2img call.
    A1111Image { ctx: SdContext },
    /// Awaiting the response of an InvokeAI generate call.
    InvokeImage { ctx: SdContext },
    /// Awaiting the prompt id of a submitted ComfyUI workflow graph.
    ComfySubmit { api_url: String, ctx: SdContext },
    /// Awaiting one ComfyUI history poll; `attempts` counts the polls made,
    /// this one included.
    ComfyPoll { api_url: String, prompt_id: String, ctx: SdContext, attempts: u32 },
    /// Awaiting the response of an OpenAI image generation call.
    OpenAiImage,
    /// Awaiting the operation id of a submitted OpenAI video generation.
    OpenAiVideoStart { api_key: String, organization: Option<String> },
    /// Awaiting one OpenAI video status poll; `attempts` counts the polls
    /// made, this one included; `delay_ms` is the delay that preceded it.
    OpenAiVideoPoll {
        api_key: String,
        organization: Option<String>,
        video_id: String,
        attempts: u32,
        delay_ms: u64,
    },
    /// Awaiting the response of a Grok image generation call.
    GrokImage,
    /// Awaiting the response of an Anthropic message call.
    AnthropicText,
    /// Awaiting the response of a Google image generation call.
    GoogleImage,
    /// Awaiting the operation name of a submitted Google video generation.
    GoogleVideoStart { api_key: String },
    /// Awaiting one Google video status poll; `attempts` counts the polls
    /// made, this one included; `delay_ms` is the delay that preceded it.
    GoogleVideoPoll { api_key: String, operation_name: String, attempts: u32, delay_ms: u64 },
}

/// The next action of an in-flight generation call.
#[derive(Debug, PartialEq)]
pub enum GenStep {
    /// Perform the HTTP exchange and hand the reply back.
    Send { request: HttpRequest, state: SessionState },
    /// Sleep `delay_ms` milliseconds, then perform the exchange and hand the
    /// reply back.
    SleepSend { delay_ms: u64, request: HttpRequest, state: SessionState },
    /// The generation finished with this result.
    Done { result: GenerationResult },
    /// The generation failed.
    Fail { error: GenError },
}

} // verus!
