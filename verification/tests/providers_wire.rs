//! Tests of the provider wire protocols: request building with defaults,
//! reply interpretation, model dispatch and configuration gating.

use promptcraft::gen::GenerationRequest;
use promptcraft::error::GenError;
use promptcraft::http::{HttpReply, Method};
use promptcraft::params::ParamValue;
use promptcraft::providers::a1111::{A1111Config, A1111Provider};
use promptcraft::providers::anthropic::{AnthropicConfig, AnthropicProvider};
use promptcraft::providers::comfyui::{ComfyUIConfig, ComfyUIProvider};
use promptcraft::providers::google::{GoogleConfig, GoogleProvider};
use promptcraft::providers::grok::GrokProvider;
use promptcraft::providers::invokeai::{InvokeAIConfig, InvokeAIProvider};
use promptcraft::providers::midjourney::MidjourneyProvider;
use promptcraft::providers::openai::{OpenAIConfig, OpenAIProvider};
use promptcraft::providers::{session_step, Provider};
use promptcraft::session::{GenStep, SessionState};

fn s(x: &str) -> String {
    x.to_string()
}

fn obj(entries: Vec<(&str, ParamValue)>) -> ParamValue {
    ParamValue::Obj(entries.into_iter().map(|(k, v)| (s(k), v)).collect())
}

fn req(prompt: &str, model: &str, parameters: ParamValue) -> GenerationRequest {
    GenerationRequest { prompt: s(prompt), model: s(model), parameters }
}

fn json_reply(status: u16, body: ParamValue) -> HttpReply {
    HttpReply { status, body_text: s(""), body_json: Some(body) }
}

fn text_reply(status: u16, text: &str) -> HttpReply {
    HttpReply { status, body_text: s(text), body_json: None }
}

#[test]
fn unconfigured_providers_fail_without_any_request() {
    let cases: Vec<(Provider, &str)> = vec![
        (Provider::A1111(A1111Provider::new()), "default"),
        (Provider::Anthropic(AnthropicProvider::new()), "anthropic-text-1"),
        (Provider::ComfyUI(ComfyUIProvider::new()), "default"),
        (Provider::Google(GoogleProvider::new()), "gemini-2.5-flash-image"),
        (Provider::Grok(GrokProvider::new()), "grok-2-image"),
        (Provider::InvokeAI(InvokeAIProvider::new()), "default"),
        (Provider::OpenAI(OpenAIProvider::new()), "gpt-image-1"),
    ];
    for (provider, model) in cases {
        assert!(!provider.is_available());
        let step = provider.begin(req("a cat", model, obj(vec![])));
        match step {
            GenStep::Fail { error: GenError::NotConfigured { detail } } => {
                assert!(detail.contains("not configured"));
            }
            other => panic!("expected NotConfigured, got {:?}", other),
        }
    }
}

#[test]
fn unrecognized_models_fail_naming_the_model() {
    let cases: Vec<Provider> = vec![
        Provider::Google(GoogleProvider::new()),
        Provider::Grok(GrokProvider::new()),
        Provider::OpenAI(OpenAIProvider::new()),
    ];
    for provider in cases {
        let step = provider.begin(req("a cat", "made-up-model", obj(vec![])));
        match step {
            GenStep::Fail { error: GenError::UnsupportedModel { model, detail } } => {
                assert_eq!(model, "made-up-model");
                assert!(detail.contains("made-up-model"));
                assert!(detail.contains("Unsupported"));
            }
            other => panic!("expected UnsupportedModel, got {:?}", other),
        }
    }
}

#[test]
fn midjourney_is_a_placeholder() {
    let provider = Provider::Midjourney(MidjourneyProvider::new());
    match provider.begin(req("a cat", "default", obj(vec![]))) {
        GenStep::Fail { error: GenError::NotImplemented { detail } } => {
            assert_eq!(detail, "Midjourney integration coming soon");
        }
        other => panic!("expected NotImplemented, got {:?}", other),
    }
}

#[test]
fn a1111_request_carries_documented_defaults() {
    let provider = A1111Provider::with_config(A1111Config { api_url: s("http://sd.local") });
    let step = provider.begin(req("a cat", "default", obj(vec![])));
    let (request, state) = match step {
        GenStep::Send { request, state } => (request, state),
        other => panic!("expected Send, got {:?}", other),
    };
    assert_eq!(request.method, Method::Post);
    assert_eq!(request.url, "http://sd.local/sdapi/v1/txt2img");
    assert_eq!(request.headers, vec![(s("Content-Type"), s("application/json"))]);
    let body = request.body.unwrap();
    assert_eq!(body.get("prompt"), Some(&ParamValue::Str(s("a cat"))));
    assert_eq!(body.get("negative_prompt"), Some(&ParamValue::Str(s(""))));
    assert_eq!(body.get("steps"), Some(&ParamValue::Int(20)));
    assert_eq!(body.get("cfg_scale"), Some(&ParamValue::Dec(700)));
    assert_eq!(body.get("width"), Some(&ParamValue::Int(512)));
    assert_eq!(body.get("height"), Some(&ParamValue::Int(512)));
    assert_eq!(body.get("sampler_name"), Some(&ParamValue::Str(s("Euler a"))));
    assert_eq!(body.get("seed"), Some(&ParamValue::Int(-1)));
    assert_eq!(body.get("n_iter"), Some(&ParamValue::Int(1)));
    assert_eq!(body.get("batch_size"), Some(&ParamValue::Int(1)));
    assert_eq!(body.get("override_settings"), None);
    assert!(matches!(state, SessionState::A1111Image { .. }));
}

#[test]
fn a1111_request_applies_overrides() {
    let provider = A1111Provider::with_config(A1111Config { api_url: s("http://sd.local") });
    let params = obj(vec![
        ("steps", ParamValue::Int(30)),
        ("cfg_scale", ParamValue::Dec(1150)),
        ("model", ParamValue::Str(s("v1-5-pruned"))),
    ]);
    let step = provider.begin(req("a cat", "default", params));
    let request = match step {
        GenStep::Send { request, .. } => request,
        other => panic!("expected Send, got {:?}", other),
    };
    let body = request.body.unwrap();
    assert_eq!(body.get("steps"), Some(&ParamValue::Int(30)));
    assert_eq!(body.get("cfg_scale"), Some(&ParamValue::Dec(1150)));
    let over = body.get("override_settings").unwrap();
    assert_eq!(
        over.get("sd_model_checkpoint"),
        Some(&ParamValue::Str(s("v1-5-pruned")))
    );
}

#[test]
fn a1111_reply_yields_first_image_and_metadata() {
    let provider = A1111Provider::with_config(A1111Config { api_url: s("http://sd.local") });
    let state = match provider.begin(req("a cat", "default", obj(vec![]))) {
        GenStep::Send { state, .. } => state,
        other => panic!("expected Send, got {:?}", other),
    };
    let reply = json_reply(
        200,
        obj(vec![
            (
                "images",
                ParamValue::Arr(vec![ParamValue::Str(s("AAAA")), ParamValue::Str(s("BBBB"))]),
            ),
            ("info", ParamValue::Str(s("{}"))),
        ]),
    );
    let result = match session_step(state, reply) {
        GenStep::Done { result } => result,
        other => panic!("expected Done, got {:?}", other),
    };
    assert_eq!(result.output_url, None);
    assert_eq!(result.output_data, Some(s("AAAA")));
    assert_eq!(result.file_path, None);
    assert_eq!(result.metadata.get("provider"), Some(&ParamValue::Str(s("a1111"))));
    assert_eq!(result.metadata.get("info"), Some(&ParamValue::Str(s("{}"))));
    let p = result.metadata.get("parameters").unwrap();
    assert_eq!(p.get("prompt"), Some(&ParamValue::Str(s("a cat"))));
    assert_eq!(p.get("seed"), Some(&ParamValue::Int(-1)));
}

#[test]
fn a1111_reply_errors() {
    let provider = A1111Provider::with_config(A1111Config { api_url: s("http://sd.local") });
    let mk_state = || match provider.begin(req("a cat", "default", obj(vec![]))) {
        GenStep::Send { state, .. } => state,
        other => panic!("expected Send, got {:?}", other),
    };
    // Non-2xx: remote error with the raw body.
    match session_step(mk_state(), text_reply(503, "busy")) {
        GenStep::Fail { error: GenError::Remote { status, body } } => {
            assert_eq!(status, 503);
            assert_eq!(body, "busy");
        }
        other => panic!("expected Remote, got {:?}", other),
    }
    // 2xx without an images array.
    match session_step(mk_state(), json_reply(200, obj(vec![]))) {
        GenStep::Fail { error: GenError::Malformed { reason } } => {
            assert_eq!(reason, "No images in response");
        }
        other => panic!("expected Malformed, got {:?}", other),
    }
    // 2xx with an empty images array.
    match session_step(
        mk_state(),
        json_reply(200, obj(vec![("images", ParamValue::Arr(vec![]))])),
    ) {
        GenStep::Fail { error: GenError::Malformed { reason } } => {
            assert_eq!(reason, "Invalid image data");
        }
        other => panic!("expected Malformed, got {:?}", other),
    }
}

#[test]
fn invokeai_requires_a_model() {
    let provider = InvokeAIProvider::with_config(InvokeAIConfig { api_url: s("http://ia.local") });
    match provider.begin(req("a cat", "default", obj(vec![]))) {
        GenStep::Fail { error: GenError::InvalidRequest { detail } } => {
            assert_eq!(detail, "Model required for InvokeAI");
        }
        other => panic!("expected InvalidRequest, got {:?}", other),
    }
    let params = obj(vec![("model", ParamValue::Str(s("sdxl")))]);
    let step = provider.begin(req("a cat", "default", params));
    let request = match step {
        GenStep::Send { request, .. } => request,
        other => panic!("expected Send, got {:?}", other),
    };
    assert_eq!(request.url, "http://ia.local/api/v1/generate");
    let body = request.body.unwrap();
    assert_eq!(body.get("model"), Some(&ParamValue::Str(s("sdxl"))));
    assert_eq!(body.get("scheduler"), Some(&ParamValue::Str(s("euler"))));
}

#[test]
fn anthropic_request_and_text_concatenation() {
    let provider =
        AnthropicProvider::with_config(AnthropicConfig { api_key: s("SECRET-REDACTED") });
    let step = provider.begin(req("write a haiku", "anthropic-text-1", obj(vec![])));
    let (request, state) = match step {
        GenStep::Send { request, state } => (request, state),
        other => panic!("expected Send, got {:?}", other),
    };
    assert_eq!(request.url, "https://api.anthropic.com/v1/messages");
    let body = request.body.unwrap();
    assert_eq!(body.get("model"), Some(&ParamValue::Str(s("anthropic-text-1"))));
    assert_eq!(body.get("max_tokens"), Some(&ParamValue::Int(4096)));
    assert_eq!(body.get("temperature"), Some(&ParamValue::Dec(100)));

    let reply = json_reply(
        200,
        obj(vec![
            ("id", ParamValue::Str(s("msg_1"))),
            (
                "content",
                ParamValue::Arr(vec![
                    obj(vec![
                        ("type", ParamValue::Str(s("text"))),
                        ("text", ParamValue::Str(s("Hello "))),
                    ]),
                    obj(vec![("type", ParamValue::Str(s("tool_use")))]),
                    obj(vec![
                        ("type", ParamValue::Str(s("text"))),
                        ("text", ParamValue::Str(s("world"))),
                    ]),
                ]),
            ),
            ("model", ParamValue::Str(s("anthropic-text-1"))),
            ("stop_reason", ParamValue::Str(s("end_turn"))),
            ("usage", obj(vec![("output_tokens", ParamValue::Int(9))])),
        ]),
    );
    let result = match session_step(state, reply) {
        GenStep::Done { result } => result,
        other => panic!("expected Done, got {:?}", other),
    };
    assert_eq!(result.output_data, Some(s("Hello world")));
    assert_eq!(result.metadata.get("id"), Some(&ParamValue::Str(s("msg_1"))));
    assert_eq!(
        result.metadata.get("stop_reason"),
        Some(&ParamValue::Str(s("end_turn")))
    );
    assert_eq!(
        result.metadata.get("usage"),
        Some(&obj(vec![("output_tokens", ParamValue::Int(9))]))
    );
}

#[test]
fn comfyui_workflow_graph_wires_all_nodes() {
    let provider = ComfyUIProvider::with_config(ComfyUIConfig { api_url: s("http://cf.local") });
    let w = provider.build_txt2img_workflow("a cat", "blurry", "sd15.ckpt", 25, 650, 640, 512, "euler", 7);
    let n1 = w.get("1").unwrap();
    assert_eq!(n1.get("class_type"), Some(&ParamValue::Str(s("CheckpointLoaderSimple"))));
    assert_eq!(
        n1.get("inputs").unwrap().get("ckpt_name"),
        Some(&ParamValue::Str(s("sd15.ckpt")))
    );
    let n5 = w.get("5").unwrap();
    let i5 = n5.get("inputs").unwrap();
    assert_eq!(i5.get("seed"), Some(&ParamValue::Int(7)));
    assert_eq!(i5.get("steps"), Some(&ParamValue::Int(25)));
    assert_eq!(i5.get("cfg"), Some(&ParamValue::Dec(650)));
    assert_eq!(i5.get("denoise"), Some(&ParamValue::Dec(100)));
    assert_eq!(
        i5.get("latent_image"),
        Some(&ParamValue::Arr(vec![ParamValue::Str(s("4")), ParamValue::Int(0)]))
    );
    let n7 = w.get("7").unwrap();
    assert_eq!(n7.get("class_type"), Some(&ParamValue::Str(s("SaveImage"))));
}

#[test]
fn comfyui_polls_history_until_the_output_file_appears() {
    let provider = ComfyUIProvider::with_config(ComfyUIConfig { api_url: s("http://cf.local") });
    let params = obj(vec![("model", ParamValue::Str(s("sd15.ckpt")))]);
    let state = match provider.begin(req("a cat", "default", params)) {
        GenStep::Send { request, state } => {
            assert_eq!(request.url, "http://cf.local/prompt");
            state
        }
        other => panic!("expected Send, got {:?}", other),
    };
    // Submission returns the prompt id; the first history poll follows.
    let submit_reply = json_reply(200, obj(vec![("prompt_id", ParamValue::Str(s("p-77")))]));
    let mut state = match session_step(state, submit_reply) {
        GenStep::SleepSend { delay_ms, request, state } => {
            assert_eq!(delay_ms, 1000);
            assert_eq!(request.url, "http://cf.local/history/p-77");
            state
        }
        other => panic!("expected SleepSend, got {:?}", other),
    };
    // A failing poll status retries rather than failing.
    state = match session_step(state, text_reply(500, "not yet")) {
        GenStep::SleepSend { delay_ms, state, .. } => {
            assert_eq!(delay_ms, 1000);
            state
        }
        other => panic!("expected SleepSend, got {:?}", other),
    };
    // A history without the save node's output retries too.
    state = match session_step(state, json_reply(200, obj(vec![]))) {
        GenStep::SleepSend { state, .. } => state,
        other => panic!("expected SleepSend, got {:?}", other),
    };
    // The emitted file resolves the generation into a view URL.
    let history = obj(vec![(
        "p-77",
        obj(vec![(
            "outputs",
            obj(vec![(
                "7",
                obj(vec![(
                    "images",
                    ParamValue::Arr(vec![obj(vec![
                        ("filename", ParamValue::Str(s("ComfyUI_0001.png"))),
                        ("subfolder", ParamValue::Str(s(""))),
                    ])]),
                )]),
            )]),
        )]),
    )]);
    match session_step(state, json_reply(200, history)) {
        GenStep::Done { result } => {
            assert_eq!(
                result.output_url,
                Some(s(
                    "http://cf.local/view?filename=ComfyUI_0001.png&subfolder=&type=output"
                ))
            );
            assert_eq!(result.output_data, None);
            assert_eq!(
                result.metadata.get("prompt_id"),
                Some(&ParamValue::Str(s("p-77")))
            );
        }
        other => panic!("expected Done, got {:?}", other),
    }
}

#[test]
fn comfyui_poll_times_out_at_the_attempt_ceiling() {
    let provider = ComfyUIProvider::with_config(ComfyUIConfig { api_url: s("http://cf.local") });
    let params = obj(vec![("model", ParamValue::Str(s("sd15.ckpt")))]);
    let mut state = match provider.begin(req("a cat", "default", params)) {
        GenStep::Send { state, .. } => state,
        other => panic!("expected Send, got {:?}", other),
    };
    state = match session_step(
        state,
        json_reply(200, obj(vec![("prompt_id", ParamValue::Str(s("p-1")))])),
    ) {
        GenStep::SleepSend { state, .. } => state,
        other => panic!("expected SleepSend, got {:?}", other),
    };
    let mut polls = 0;
    loop {
        match session_step(state, json_reply(200, obj(vec![]))) {
            GenStep::SleepSend { state: next, delay_ms, .. } => {
                assert_eq!(delay_ms, 1000);
                state = next;
                polls += 1;
            }
            GenStep::Fail { error: GenError::Timeout { attempts } } => {
                assert_eq!(attempts, 60);
                break;
            }
            other => panic!("unexpected step {:?}", other),
        }
        assert!(polls < 100);
    }
    // 59 retries follow the first poll; the 60th unproductive poll fails.
    assert_eq!(polls, 59);
}

#[test]
fn grok_and_openai_image_replies_pick_url_or_inline_payload() {
    let providers: Vec<(Provider, &str)> = vec![
        (
            Provider::Grok(GrokProvider::with_config(
                promptcraft::providers::grok::GrokConfig { api_key: s("SECRET-REDACTED") },
            )),
            "grok-2-image",
        ),
        (
            Provider::OpenAI(OpenAIProvider::with_config(OpenAIConfig {
                api_key: s("SECRET-REDACTED"),
                organization: None,
            })),
            "gpt-image-1",
        ),
    ];
    for (provider, model) in providers {
        let state = match provider.begin(req("a cat", model, obj(vec![]))) {
            GenStep::Send { state, .. } => state,
            other => panic!("expected Send, got {:?}", other),
        };
        let reply = json_reply(
            200,
            obj(vec![(
                "data",
                ParamValue::Arr(vec![obj(vec![
                    ("url", ParamValue::Str(s("https://img.example/1.png"))),
                    ("b64_json", ParamValue::Str(s("QUJD"))),
                ])]),
            )]),
        );
        match session_step(state, reply) {
            GenStep::Done { result } => {
                assert_eq!(result.output_url, Some(s("https://img.example/1.png")));
                assert_eq!(result.output_data, Some(s("QUJD")));
            }
            other => panic!("expected Done, got {:?}", other),
        }
    }
}

#[test]
fn deprecated_aliases_redirect_with_a_warning() {
    let openai = OpenAIProvider::with_config(OpenAIConfig {
        api_key: s("SECRET-REDACTED"),
        organization: None,
    });
    assert!(openai.model_warning("dall-e-3").is_some());
    assert!(openai.model_warning("gpt-image-1").is_none());
    // The alias still routes to the current image model.
    match openai.begin(req("a cat", "dall-e-3", obj(vec![]))) {
        GenStep::Send { request, .. } => {
            let body = request.body.unwrap();
            assert_eq!(body.get("model"), Some(&ParamValue::Str(s("gpt-image-1"))));
        }
        other => panic!("expected Send, got {:?}", other),
    }
    let grok = GrokProvider::new();
    assert!(grok.model_warning("flux").is_some());
    assert!(grok.model_warning("aurora").is_none());
}

#[test]
fn config_schemas_declare_the_required_field() {
    let a1111 = A1111Provider::new();
    let schema = a1111.config_schema();
    assert_eq!(schema.get("type"), Some(&ParamValue::Str(s("object"))));
    let field = schema.get("properties").unwrap().get("api_url").unwrap();
    assert_eq!(
        field.get("default"),
        Some(&ParamValue::Str(s("http://127.0.0.1:7860")))
    );
    assert_eq!(
        schema.get("required"),
        Some(&ParamValue::Arr(vec![ParamValue::Str(s("api_url"))]))
    );

    let openai = OpenAIProvider::new();
    let schema = openai.config_schema();
    let props = schema.get("properties").unwrap();
    assert!(props.get("api_key").is_some());
    assert!(props.get("organization").is_some());
    assert_eq!(
        schema.get("required"),
        Some(&ParamValue::Arr(vec![ParamValue::Str(s("api_key"))]))
    );
}

#[test]
fn google_image_request_embeds_references_and_search_tool() {
    let provider = GoogleProvider::with_config(GoogleConfig {
        api_key: s("SECRET-REDACTED"),
        project_id: None,
    });
    let params = obj(vec![
        ("n", ParamValue::Int(2)),
        ("google_search", ParamValue::Bool(true)),
        ("resolution", ParamValue::Str(s("2K"))),
        (
            "reference_image",
            obj(vec![("data", ParamValue::Str(s("data:image/png;base64,REF1")))]),
        ),
    ]);
    let step = provider.begin(req("a cat", "gemini-3-pro-image-preview", params));
    let request = match step {
        GenStep::Send { request, state } => {
            assert!(matches!(state, SessionState::GoogleImage));
            request
        }
        other => panic!("expected Send, got {:?}", other),
    };
    assert_eq!(
        request.url,
        "https://generativelanguage.googleapis.com/v1beta/models/gemini-3-pro-image-preview:generateContent"
    );
    assert_eq!(request.headers[0].0, "x-goog-api-key");
    let body = request.body.unwrap();
    let gc = body.get("generationConfig").unwrap();
    assert_eq!(gc.get("candidateCount"), Some(&ParamValue::Int(2)));
    assert_eq!(
        gc.get("responseModalities"),
        Some(&ParamValue::Arr(vec![
            ParamValue::Str(s("TEXT")),
            ParamValue::Str(s("IMAGE"))
        ]))
    );
    assert_eq!(gc.get("resolution"), Some(&ParamValue::Str(s("2K"))));
    let contents = match body.get("contents") {
        Some(ParamValue::Arr(cs)) => cs,
        other => panic!("expected contents array, got {:?}", other),
    };
    let parts = match contents[0].get("parts") {
        Some(ParamValue::Arr(ps)) => ps,
        other => panic!("expected parts array, got {:?}", other),
    };
    assert_eq!(parts.len(), 2);
    assert_eq!(parts[0].get("text"), Some(&ParamValue::Str(s("a cat"))));
    let inline = parts[1].get("inlineData").unwrap();
    assert_eq!(inline.get("mimeType"), Some(&ParamValue::Str(s("image/png"))));
    assert_eq!(inline.get("data"), Some(&ParamValue::Str(s("REF1"))));
    assert!(body.get("tools").is_some());
}

#[test]
fn google_image_reply_takes_the_first_inline_part() {
    let provider = GoogleProvider::with_config(GoogleConfig {
        api_key: s("SECRET-REDACTED"),
        project_id: None,
    });
    let state = match provider.begin(req("a cat", "gemini-2.5-flash-image", obj(vec![]))) {
        GenStep::Send { state, .. } => state,
        other => panic!("expected Send, got {:?}", other),
    };
    let reply = json_reply(
        200,
        obj(vec![(
            "candidates",
            ParamValue::Arr(vec![obj(vec![(
                "content",
                obj(vec![(
                    "parts",
                    ParamValue::Arr(vec![
                        obj(vec![("text", ParamValue::Str(s("here is your image")))]),
                        obj(vec![(
                            "inlineData",
                            obj(vec![("data", ParamValue::Str(s("SU1H")))]),
                        )]),
                    ]),
                )]),
            )])]),
        )]),
    );
    match session_step(state, reply) {
        GenStep::Done { result } => {
            assert_eq!(result.output_data, Some(s("SU1H")));
            assert_eq!(result.output_url, None);
        }
        other => panic!("expected Done, got {:?}", other),
    }
}

#[test]
fn openai_video_start_schedules_the_first_poll() {
    let provider = OpenAIProvider::with_config(OpenAIConfig {
        api_key: s("SECRET-REDACTED"),
        organization: Some(s("org-1")),
    });
    let state = match provider.begin(req("a storm", "sora-2", obj(vec![]))) {
        GenStep::Send { request, state } => {
            assert_eq!(request.url, "https://api.openai.com/v1/videos");
            let body = request.body.unwrap();
            assert_eq!(body.get("duration"), Some(&ParamValue::Int(5)));
            assert_eq!(body.get("resolution"), Some(&ParamValue::Str(s("1080p"))));
            assert_eq!(body.get("aspect_ratio"), Some(&ParamValue::Str(s("16:9"))));
            state
        }
        other => panic!("expected Send, got {:?}", other),
    };
    let reply = json_reply(200, obj(vec![("id", ParamValue::Str(s("vid-9")))]));
    match session_step(state, reply) {
        GenStep::SleepSend { delay_ms, request, state } => {
            assert_eq!(delay_ms, 5000);
            assert_eq!(request.url, "https://api.openai.com/v1/videos/vid-9");
            assert_eq!(request.headers.len(), 2);
            assert!(matches!(
                state,
                SessionState::OpenAiVideoPoll { attempts: 1, delay_ms: 5000, .. }
            ));
        }
        other => panic!("expected SleepSend, got {:?}", other),
    }
}

#[test]
fn invokeai_reply_carries_url_or_inline_data() {
    let provider = InvokeAIProvider::with_config(InvokeAIConfig { api_url: s("http://ia.local") });
    let params = obj(vec![("model", ParamValue::Str(s("sdxl")))]);
    let state = match provider.begin(req("a cat", "default", params)) {
        GenStep::Send { state, .. } => state,
        other => panic!("expected Send, got {:?}", other),
    };
    let reply = json_reply(
        200,
        obj(vec![(
            "image",
            obj(vec![("url", ParamValue::Str(s("http://ia.local/img/1.png")))]),
        )]),
    );
    match session_step(state, reply) {
        GenStep::Done { result } => {
            assert_eq!(result.output_url, Some(s("http://ia.local/img/1.png")));
            assert_eq!(result.output_data, None);
            assert_eq!(
                result.metadata.get("provider"),
                Some(&ParamValue::Str(s("invokeai")))
            );
        }
        other => panic!("expected Done, got {:?}", other),
    }
}
