//! Tests of the job processor's decision core, the job lifecycle, the
//! service registry, output normalization, and the long-running-operation
//! polling scenarios.

use base64::Engine;
use promptcraft::b64::{cleaned_base64, decode_base64_payload};
use promptcraft::error::GenError;
use promptcraft::gen::GenerationResult;
use promptcraft::http::HttpReply;
use promptcraft::models::{CreateJobInput, UpdateJobInput};
use promptcraft::numfmt::u64_to_string;
use promptcraft::operations::JobOps;
use promptcraft::params::ParamValue;
use promptcraft::processor::{
    completion_update, failure_update, parse_job_request, running_update, scene_thumbnail_update,
    thumbnail_source, JobProcessor, CYCLE_SLEEP_MS, JOB_BATCH_LIMIT,
};
use promptcraft::providers::google;
use promptcraft::providers::openai;
use promptcraft::service::{apply_normalization, init_generation_service, GenerationService};
use promptcraft::session::GenStep;

fn s(x: &str) -> String {
    x.to_string()
}

fn obj(entries: Vec<(&str, ParamValue)>) -> ParamValue {
    ParamValue::Obj(entries.into_iter().map(|(k, v)| (s(k), v)).collect())
}

fn json_reply(status: u16, body: ParamValue) -> HttpReply {
    HttpReply { status, body_text: s(""), body_json: Some(body) }
}

fn pending_job(data: ParamValue) -> promptcraft::models::Job {
    JobOps::new_record(
        s("job-1"),
        "2024-01-01T00:00:00Z",
        CreateJobInput {
            workflow_id: s("wf-1"),
            scene_id: Some(s("scene-1")),
            job_type: s("generation"),
            data,
        },
    )
}

#[test]
fn processor_start_is_idempotent() {
    let mut p = JobProcessor::new();
    assert!(!p.is_running);
    let first = p.start();
    assert!(first);
    assert!(p.is_running);
    // A second start while running spawns no second loop.
    let second = p.start();
    assert!(!second);
    assert!(p.is_running);
    p.stop();
    assert!(!p.is_running);
    assert_eq!(JOB_BATCH_LIMIT, 10);
    assert_eq!(CYCLE_SLEEP_MS, 5000);
}

#[test]
fn job_lifecycle_timestamps_are_written_once_and_only_on_transitions() {
    let job = pending_job(obj(vec![]));
    assert_eq!(job.status, "pending");
    assert_eq!(job.started_at, None);
    assert_eq!(job.completed_at, None);

    let running = JobOps::apply_update(job, running_update(), "t1");
    assert_eq!(running.status, "running");
    assert_eq!(running.started_at, Some(s("t1")));
    assert_eq!(running.completed_at, None);
    assert_eq!(running.result, None);
    assert_eq!(running.error, None);

    // A second transition into running keeps the first start timestamp.
    let running_again = JobOps::apply_update(running, running_update(), "t2");
    assert_eq!(running_again.started_at, Some(s("t1")));

    let done = JobOps::apply_update(
        running_again,
        completion_update(GenerationResult {
            output_url: Some(s("asset://localhost/x.png")),
            output_data: None,
            file_path: Some(s("x.png")),
            metadata: obj(vec![]),
        }),
        "t3",
    );
    assert_eq!(done.status, "completed");
    assert_eq!(done.started_at, Some(s("t1")));
    assert_eq!(done.completed_at, Some(s("t3")));
    let doc = done.result.unwrap();
    assert_eq!(
        doc.get("output_url"),
        Some(&ParamValue::Str(s("asset://localhost/x.png")))
    );
    assert_eq!(doc.get("output_data"), Some(&ParamValue::Null));
    assert_eq!(done.error, None);
}

#[test]
fn failed_jobs_carry_the_error_text() {
    let job = pending_job(obj(vec![]));
    let running = JobOps::apply_update(job, running_update(), "t1");
    let failed = JobOps::apply_update(running, failure_update(s("remote exploded")), "t2");
    assert_eq!(failed.status, "failed");
    assert_eq!(failed.error, Some(s("remote exploded")));
    assert_eq!(failed.result, None);
    assert_eq!(failed.completed_at, Some(s("t2")));
}

#[test]
fn parse_job_request_applies_defaults_and_names_missing_fields() {
    let data = obj(vec![
        ("provider", ParamValue::Str(s("a1111"))),
        ("prompt", ParamValue::Str(s("a cat"))),
    ]);
    let (provider, request) = parse_job_request(data).unwrap();
    assert_eq!(provider, "a1111");
    assert_eq!(request.prompt, "a cat");
    assert_eq!(request.model, "default");
    assert_eq!(request.parameters, obj(vec![]));

    let missing_prompt = obj(vec![("provider", ParamValue::Str(s("a1111")))]);
    let err = parse_job_request(missing_prompt).unwrap_err();
    assert!(err.contains("prompt"));
    assert_eq!(err, "Missing prompt in job data");

    let missing_provider = obj(vec![("prompt", ParamValue::Str(s("a cat")))]);
    let err = parse_job_request(missing_provider).unwrap_err();
    assert_eq!(err, "Missing provider in job data");
}

#[test]
fn registry_configures_replaces_and_rejects_unknown_names() {
    let mut service = init_generation_service();
    let mut names = service.list_providers();
    names.sort();
    assert_eq!(names, vec![s("anthropic"), s("google"), s("grok"), s("openai")]);
    assert!(!service.get_provider("openai").unwrap().is_available());

    service.configure_provider("openai", s("SECRET-REDACTED")).unwrap();
    assert!(service.get_provider("openai").unwrap().is_available());

    let err = service.configure_provider("nope", s("SECRET-REDACTED")).unwrap_err();
    assert_eq!(err.message(), "Unknown provider: nope");

    service.configure_local_provider("a1111", s("http://sd.local")).unwrap();
    assert!(service.get_provider("a1111").unwrap().is_available());
    let err = service
        .configure_local_provider("openai", s("http://sd.local"))
        .unwrap_err();
    assert_eq!(err.message(), "Unknown local provider: openai");
    // A failed configuration leaves the registry unchanged: the entry stays
    // registered and configured.
    assert!(service.get_provider("openai").unwrap().is_available());
    let count_before = service.list_providers().len();
    let _ = service.configure_provider("nope", s("SECRET-REDACTED"));
    assert_eq!(service.list_providers().len(), count_before);
}

#[test]
fn generate_without_a_registered_provider_names_it() {
    let service = GenerationService::new();
    let request = promptcraft::gen::GenerationRequest {
        prompt: s("a cat"),
        model: s("default"),
        parameters: obj(vec![]),
    };
    match service.begin_generate("a1111", request) {
        GenStep::Fail { error: GenError::ProviderNotFound { name } } => {
            assert_eq!(name, "a1111");
        }
        other => panic!("expected ProviderNotFound, got {:?}", other),
    }
}

#[test]
fn base64_payloads_are_cleaned_and_decoded() {
    assert_eq!(cleaned_base64("data:image/png;base64,aGVs\nbG8="), "aGVsbG8=");
    assert_eq!(cleaned_base64(" aGVs bG8= "), "aGVsbG8=");
    let bytes = decode_base64_payload("data:image/png;base64,aGVsbG8=").unwrap();
    assert_eq!(bytes, b"hello");
    // The decode agrees with the engine it relies on.
    let direct = base64::engine::general_purpose::STANDARD
        .decode("aGVsbG8=")
        .unwrap();
    assert_eq!(bytes, direct);
    match decode_base64_payload("!!!") {
        Err(GenError::Decode { .. }) => {}
        other => panic!("expected Decode error, got {:?}", other),
    }
}

fn a1111_job_data() -> ParamValue {
    obj(vec![
        ("provider", ParamValue::Str(s("a1111"))),
        ("prompt", ParamValue::Str(s("a cat"))),
        ("model", ParamValue::Str(s("default"))),
        ("parameters", obj(vec![])),
    ])
}

#[test]
fn queued_image_job_completes_with_a_normalized_result() {
    // A queued job for a mocked A1111 backend: pending -> running ->
    // completed, with the inline payload moved to disk.
    let job = pending_job(a1111_job_data());
    assert_eq!(job.status, "pending");

    let mut service = init_generation_service();
    service.configure_local_provider("a1111", s("http://sd.local")).unwrap();

    let job = JobOps::apply_update(job, running_update(), "t1");
    assert_eq!(job.status, "running");

    let (provider, request) = parse_job_request(a1111_job_data()).unwrap();
    let state = match service.begin_generate(&provider, request) {
        GenStep::Send { request, state } => {
            assert_eq!(request.url, "http://sd.local/sdapi/v1/txt2img");
            state
        }
        other => panic!("expected Send, got {:?}", other),
    };
    let reply = json_reply(
        200,
        obj(vec![
            ("images", ParamValue::Arr(vec![ParamValue::Str(s("aGVsbG8="))])),
            ("info", ParamValue::Str(s("{}"))),
        ]),
    );
    let result = match promptcraft::providers::session_step(state, reply) {
        GenStep::Done { result } => result,
        other => panic!("expected Done, got {:?}", other),
    };
    assert_eq!(result.output_data, Some(s("aGVsbG8=")));

    // Output normalization: decode the payload, write it (the embedding
    // application's part), rewrite the result.
    let payload = result.output_data.clone().unwrap();
    let bytes = decode_base64_payload(&payload).unwrap();
    assert_eq!(bytes, b"hello");
    let result = apply_normalization(result, s("/home/u/Pictures/gen_1.png"));
    assert_eq!(
        result.output_url,
        Some(s("asset://localhost//home/u/Pictures/gen_1.png"))
    );
    assert_eq!(result.output_data, None);
    assert_eq!(result.file_path, Some(s("/home/u/Pictures/gen_1.png")));

    let thumbnail = thumbnail_source(&result);
    assert_eq!(
        thumbnail,
        Some(s("asset://localhost//home/u/Pictures/gen_1.png"))
    );
    let scene_update = scene_thumbnail_update(thumbnail.unwrap());
    assert_eq!(scene_update.name, None);
    assert_eq!(scene_update.data, None);

    let job = JobOps::apply_update(job, completion_update(result), "t2");
    assert_eq!(job.status, "completed");
    assert_eq!(job.completed_at, Some(s("t2")));
    assert!(job.result.is_some());
}

#[test]
fn queued_job_without_a_prompt_fails_mentioning_it() {
    let job = pending_job(obj(vec![("provider", ParamValue::Str(s("a1111")))]));
    let job = JobOps::apply_update(job, running_update(), "t1");
    assert_eq!(job.status, "running");
    let err = parse_job_request(obj(vec![("provider", ParamValue::Str(s("a1111")))])).unwrap_err();
    assert!(err.contains("prompt"));
    let job = JobOps::apply_update(job, failure_update(err), "t2");
    assert_eq!(job.status, "failed");
    assert!(job.error.unwrap().contains("prompt"));
}

#[test]
fn video_poll_surfaces_the_embedded_error_after_unfinished_polls() {
    // Five unfinished polls, then a terminal reply carrying an error object:
    // the generation fails with the embedded message and nothing completes.
    let mut attempts: u32 = 1;
    let mut delay: u64 = 10000;
    for _ in 0..5 {
        let step = google::on_video_poll_reply(
            s("SECRET-REDACTED"),
            s("operations/op-1"),
            attempts,
            delay,
            json_reply(200, obj(vec![("done", ParamValue::Bool(false))])),
        );
        match step {
            GenStep::SleepSend { delay_ms, state, .. } => {
                assert_eq!(delay_ms, (delay + 5000).min(60000));
                match state {
                    promptcraft::session::SessionState::GoogleVideoPoll {
                        attempts: a,
                        delay_ms: d,
                        ..
                    } => {
                        attempts = a;
                        delay = d;
                    }
                    other => panic!("unexpected state {:?}", other),
                }
            }
            other => panic!("expected SleepSend, got {:?}", other),
        }
    }
    assert_eq!(attempts, 6);
    assert_eq!(delay, 35000);
    let terminal = json_reply(
        200,
        obj(vec![
            ("done", ParamValue::Bool(true)),
            ("error", obj(vec![("message", ParamValue::Str(s("safety block")))])),
        ]),
    );
    match google::on_video_poll_reply(
        s("SECRET-REDACTED"),
        s("operations/op-1"),
        attempts,
        delay,
        terminal,
    ) {
        GenStep::Fail { error } => {
            let msg = error.message();
            assert!(msg.contains("Veo generation failed: safety block"));
        }
        other => panic!("expected Fail, got {:?}", other),
    }
}

#[test]
fn video_poll_finishes_with_the_first_matching_url() {
    let done = json_reply(
        200,
        obj(vec![
            ("done", ParamValue::Bool(true)),
            (
                "response",
                obj(vec![(
                    "predictions",
                    ParamValue::Arr(vec![obj(vec![(
                        "videoUri",
                        ParamValue::Str(s("https://video.example/v.mp4")),
                    )])]),
                )]),
            ),
        ]),
    );
    match google::on_video_poll_reply(s("SECRET-REDACTED"), s("op"), 3, 20000, done) {
        GenStep::Done { result } => {
            assert_eq!(result.output_url, Some(s("https://video.example/v.mp4")));
            assert_eq!(result.output_data, None);
        }
        other => panic!("expected Done, got {:?}", other),
    }
}

#[test]
fn sora_poll_doubles_the_delay_and_times_out() {
    let busy = |st: &str| json_reply(200, obj(vec![("status", ParamValue::Str(s(st)))]));
    match openai::on_video_poll_reply(s("SECRET-REDACTED"), None, s("vid-1"), 1, 5000, busy("processing")) {
        GenStep::SleepSend { delay_ms, .. } => assert_eq!(delay_ms, 10000),
        other => panic!("expected SleepSend, got {:?}", other),
    }
    // An unknown status keeps polling without touching the delay.
    match openai::on_video_poll_reply(s("SECRET-REDACTED"), None, s("vid-1"), 2, 10000, busy("warming-up")) {
        GenStep::SleepSend { delay_ms, .. } => assert_eq!(delay_ms, 10000),
        other => panic!("expected SleepSend, got {:?}", other),
    }
    // The delay caps at one minute.
    match openai::on_video_poll_reply(s("SECRET-REDACTED"), None, s("vid-1"), 3, 40000, busy("running")) {
        GenStep::SleepSend { delay_ms, .. } => assert_eq!(delay_ms, 60000),
        other => panic!("expected SleepSend, got {:?}", other),
    }
    // The attempt ceiling turns into a timeout.
    match openai::on_video_poll_reply(s("SECRET-REDACTED"), None, s("vid-1"), 60, 60000, busy("processing")) {
        GenStep::Fail { error: GenError::Timeout { attempts } } => assert_eq!(attempts, 60),
        other => panic!("expected Timeout, got {:?}", other),
    }
    // A terminal failure carries the remote message.
    let failed = json_reply(
        200,
        obj(vec![
            ("status", ParamValue::Str(s("failed"))),
            ("error", ParamValue::Str(s("policy"))),
        ]),
    );
    match openai::on_video_poll_reply(s("SECRET-REDACTED"), None, s("vid-1"), 4, 10000, failed) {
        GenStep::Fail { error } => {
            assert!(error.message().contains("Sora generation failed: policy"));
        }
        other => panic!("expected Fail, got {:?}", other),
    }
}

#[test]
fn error_messages_render_their_fields() {
    assert_eq!(u64_to_string(0), "0");
    assert_eq!(u64_to_string(503), "503");
    assert_eq!(u64_to_string(1234567890), "1234567890");
    let e = GenError::Remote { status: 503, body: s("busy") };
    assert_eq!(e.message(), "API error (503): busy");
    let e = GenError::Timeout { attempts: 60 };
    assert_eq!(e.message(), "Generation timed out after 60 attempts");
    let e = GenError::Malformed { reason: s("No images in response") };
    assert_eq!(e.message(), "Malformed response: No images in response");
    let e = GenError::ProviderNotFound { name: s("a1111") };
    assert_eq!(e.message(), "Provider not found: a1111");
    let e = GenError::NotConfigured { detail: s("OpenAI API key not configured") };
    assert_eq!(e.message(), "OpenAI API key not configured");
}

#[test]
fn empty_inline_payloads_are_not_normalized() {
    let result = GenerationResult {
        output_url: None,
        output_data: Some(s("")),
        file_path: None,
        metadata: obj(vec![]),
    };
    assert!(promptcraft::service::normalization_payload(&result).is_none());
    let result = GenerationResult {
        output_url: None,
        output_data: Some(s("aGVsbG8=")),
        file_path: None,
        metadata: obj(vec![]),
    };
    assert_eq!(
        promptcraft::service::normalization_payload(&result),
        Some(&s("aGVsbG8="))
    );
}

#[test]
fn update_inputs_outside_the_processor_keep_fields() {
    // An update without a status write touches no timestamp.
    let job = pending_job(obj(vec![]));
    let updated = JobOps::apply_update(
        job,
        UpdateJobInput { status: None, result: None, error: Some(s("note")) },
        "t9",
    );
    assert_eq!(updated.status, "pending");
    assert_eq!(updated.started_at, None);
    assert_eq!(updated.completed_at, None);
    assert_eq!(updated.error, Some(s("note")));
}

#[test]
fn finished_video_operations_without_an_output_location_are_malformed() {
    let done = json_reply(200, obj(vec![("done", ParamValue::Bool(true))]));
    match google::on_video_poll_reply(s("SECRET-REDACTED"), s("op"), 3, 20000, done) {
        GenStep::Fail { error: GenError::Malformed { reason } } => {
            assert_eq!(reason, "No output location in Veo response");
        }
        other => panic!("expected Malformed, got {:?}", other),
    }
    let completed = json_reply(200, obj(vec![("status", ParamValue::Str(s("completed")))]));
    match openai::on_video_poll_reply(s("SECRET-REDACTED"), None, s("vid-1"), 3, 20000, completed) {
        GenStep::Fail { error: GenError::Malformed { reason } } => {
            assert_eq!(reason, "No output location in Sora response");
        }
        other => panic!("expected Malformed, got {:?}", other),
    }
}
