//! Configuration, workers, the engine, the judge, sessions and tools.

use openfusion::cli;
use openfusion::config::{ApiProtocol, Config, ModelEndpoint};
use openfusion::config;
use openfusion::engine;
use openfusion::engine::judge;
use openfusion::engine::session;
use openfusion::engine::{Attempts, FusionEngine, FusionResult};
use openfusion::error::{is_transient_upstream_error, OpenFusionError};
use openfusion::json;
use openfusion::json::JsonMap;
use openfusion::mcp;
use openfusion::mcp::bench;
use openfusion::mcp::diff;
use openfusion::mcp::fusion;
use openfusion::protocol::{
    IntermediateRequest, IntermediateResponse, Message, Role, Single, ToolCall, Usage, Usd,
    WorkerResult,
};
use openfusion::server;
use openfusion::text;
use openfusion::worker;
use openfusion::worker::Worker;

fn single(x: f32) -> Single {
    Single {
        bits: x.to_bits(),
        text: x.to_string(),
        json: json::from_value(serde_json::Value::from(x)),
    }
}

fn message(role: Role, content: &str) -> Message {
    Message {
        role,
        content: content.to_string(),
        tool_call_id: None,
        tool_is_error: None,
        tool_calls: vec![],
    }
}

fn request(messages: Vec<Message>) -> IntermediateRequest {
    let mut r = mcp::request_for(String::new(), single(0.7));
    r.messages = messages;
    r
}

fn answer(model: &str, name: &str, content: &str) -> WorkerResult {
    WorkerResult {
        model: model.to_string(),
        name: name.to_string(),
        api: "openai-completions".to_string(),
        success: true,
        response: Some(IntermediateResponse {
            id: None,
            content: content.to_string(),
            status: None,
            finish_reason: "stop".to_string(),
            usage: Usage {
                prompt_tokens: 1,
                completion_tokens: 2,
                total_tokens: 3,
                reasoning_tokens: 0,
            },
            cost_usd: Usd { bits: 0.5f64.to_bits() },
            duration_ms: 11,
            model: model.to_string(),
            tool_calls: vec![],
            thinking: None,
            metadata: JsonMap::new(),
            native: JsonMap::new(),
        }),
        error: None,
    }
}

fn failure(model: &str, error: Option<&str>) -> WorkerResult {
    WorkerResult {
        model: model.to_string(),
        name: model.to_string(),
        api: "error".to_string(),
        success: false,
        response: None,
        error: error.map(|e| e.to_string()),
    }
}

fn sample_run() -> FusionResult {
    engine::fuse(
        "id-1".to_string(),
        &request(vec![message(Role::User, "What now?")]),
        vec![answer("m1", "n1", "first"), failure("m2", Some("broken"))],
        true,
        Some(answer("judge", "judge", "the synthesis")),
        Usd { bits: 1.0f64.to_bits() },
        42,
        "2026-01-01T00:00:00+00:00".to_string(),
    )
}

// ---------------------------------------------------------------------------
// Errors
// ---------------------------------------------------------------------------

#[test]
fn high_demand_message_is_transient_even_without_5xx_status() {
    assert!(is_transient_upstream_error(
        429,
        "We're currently experiencing high demand, which may cause temporary errors."
    ));
    assert!(is_transient_upstream_error(
        400,
        "We're currently experiencing high demand, which may cause temporary errors."
    ));
    assert!(!is_transient_upstream_error(400, "Invalid request: missing model"));
}

#[test]
fn transient_phrases_are_found_in_any_case() {
    assert!(is_transient_upstream_error(400, "Service OVERLOADED"));
    assert!(is_transient_upstream_error(400, "rate_limit_exceeded"));
    assert!(!is_transient_upstream_error(404, "no such model"));
    for status in [408u16, 425, 429, 500, 502, 503, 504, 529] {
        assert!(is_transient_upstream_error(status, ""));
    }
    for status in [200u16, 400, 401, 403, 404, 501, 505] {
        assert!(!is_transient_upstream_error(status, ""));
    }
}

#[test]
fn errors_say_what_happened() {
    let cases = vec![
        (
            OpenFusionError::NoApiKey,
            "No API key configured. Set api_key in config, OPENFUSION_API_KEY env var, or pass via request.",
        ),
        (
            OpenFusionError::ApiError { status: 503, body: "b".into(), retry_after_secs: None },
            "API error: HTTP 503: b",
        ),
        (OpenFusionError::Network("n".into()), "Network error: n"),
        (
            OpenFusionError::WorkerTimeout { model: "m".into(), duration_ms: 60000 },
            "Worker 'm' timed out after 60000ms",
        ),
        (
            OpenFusionError::WorkerError { model: "m".into(), message: "x".into() },
            "Worker 'm' failed: x",
        ),
        (
            OpenFusionError::InsufficientWorkers {
                success_count: 0,
                total: 2,
                min: 1,
                details: "d".into(),
            },
            "Insufficient workers: 0/2 succeeded, need 1\nd",
        ),
        (OpenFusionError::Config("c".into()), "Config error: c"),
        (OpenFusionError::Serialization("s".into()), "Serialization error: s"),
        (OpenFusionError::Io("i".into()), "IO error: i"),
        (OpenFusionError::SessionNotFound { id: "z".into() }, "Session not found: z"),
        (OpenFusionError::Protocol("p".into()), "Invalid protocol conversion: p"),
    ];
    for (error, text) in cases {
        assert_eq!(error.message(), text);
    }
}

// ---------------------------------------------------------------------------
// Text and JSON
// ---------------------------------------------------------------------------

#[test]
fn text_operations_agree_with_the_standard_library() {
    for s in ["", " ", "a", "  a b\t", "\u{3000}x\u{85}", "é\n\nb\r\nc\r", "\n", "a\n", "---a-"] {
        assert_eq!(text::trim(s), s.trim());
        assert_eq!(text::trim_start(s), s.trim_start());
        assert_eq!(text::trim_start_char(s, '-'), s.trim_start_matches('-'));
        assert_eq!(text::trim_end_char(s, '-'), s.trim_end_matches('-'));
        assert_eq!(text::lines(s), s.lines().map(|l| l.to_string()).collect::<Vec<_>>());
        assert_eq!(text::ascii_lower(s), s.to_ascii_lowercase());
        assert_eq!(text::head(s, 2), s.chars().take(2).collect::<String>());
        for p in ["", "a", "b\r", "-", "\n"] {
            assert_eq!(text::contains(s, p), s.contains(p));
            assert_eq!(text::starts_with(s, p), s.starts_with(p));
            assert_eq!(text::strip_prefix(s, p).as_deref(), s.strip_prefix(p));
            assert_eq!(text::strip_suffix(s, p).as_deref(), s.strip_suffix(p));
        }
    }
    for c in (0u32..0x11_0000).filter_map(char::from_u32) {
        assert_eq!(text::space(c), c.is_whitespace(), "{c:?}");
    }
}

#[test]
fn numbers_are_written_and_read() {
    for n in [0u64, 1, 9, 10, 99, 100, 1234567890, u64::MAX] {
        assert_eq!(text::decimal(n), n.to_string());
    }
    for s in ["", "+", "0", "+7", "007", "18446744073709551615", "18446744073709551616", "-1", "1x", " 1"] {
        assert_eq!(text::parse_u64(s), s.parse::<u64>().ok(), "{s}");
    }
}

#[test]
fn json_trees_survive_conversion() {
    let text = r#"{"a":[1,-2,2.5,true,null,"x"],"b":{"c":{}},"d":18446744073709551615}"#;
    let v: serde_json::Value = serde_json::from_str(text).unwrap();
    let tree = json::from_value(v.clone());
    assert_eq!(json::to_value(&tree), v);
    assert_eq!(json::to_text(&tree), text);
    assert_eq!(tree.at("a").item(0).as_u64(), Some(1));
    assert_eq!(tree.at("a").item(1).as_i64(), Some(-2));
    assert_eq!(tree.at("a").item(1).as_u64(), None);
    assert_eq!(tree.at("a").item(2).as_i64(), None);
    assert_eq!(tree.at("a").item(3).as_bool(), Some(true));
    assert!(tree.at("a").item(9).is_null());
    assert_eq!(tree.at("d").as_u64(), Some(u64::MAX));
    assert_eq!(tree.at("d").as_i64(), None);
    assert!(json::parse("{").is_none());
    assert!(json::parse_or_fault("{").unwrap_err().contains("EOF"));
}

#[test]
fn later_members_override_earlier_ones() {
    let mut m = JsonMap::new();
    assert!(m.is_empty());
    m.insert("a", json::Json::of_u64(1));
    m.insert("b", json::Json::of_i64(-1));
    m.insert("a", json::Json::of_u64(2));
    assert_eq!(m.get("a").unwrap().as_u64(), Some(2));
    assert!(m.minus("a").get("a").is_none());
    assert!(m.minus("a").get("b").is_some());
    let mut defaults = JsonMap::new();
    defaults.insert("a", json::Json::Null);
    defaults.insert("c", json::Json::Null);
    let both = m.with_defaults(&defaults);
    assert_eq!(json::to_text(&json::Json::Object(both)), r#"{"a":2,"b":-1,"c":null}"#);
}

#[test]
fn json_text_of_plain_trees_is_read_back() {
    let tree = json::parse(r#"{"k":["\"\u0001é",{"n":-9}],"":false}"#).unwrap();
    let again = json::parse(&json::to_text(&tree)).unwrap();
    assert_eq!(json::to_value(&tree), json::to_value(&again));
    let mut deep = json::Json::Null;
    for _ in 0..127 {
        deep = json::Json::Array(vec![deep]);
    }
    assert!(json::parse(&json::to_text(&deep)).is_some());
    assert!(json::parse(&json::to_text(&json::Json::Array(vec![deep]))).is_none());
}

#[test]
fn reserved_member_name_is_not_read_back() {
    let mut m = JsonMap::new();
    m.insert("$serde_json::private::RawValue", json::Json::Str("1".to_string()));
    let text = json::to_text(&json::Json::Object(m));
    assert_eq!(text, r#"{"$serde_json::private::RawValue":"1"}"#);
    assert_eq!(json::parse(&text).unwrap().as_u64(), Some(1));
}

// ---------------------------------------------------------------------------
// Configuration
// ---------------------------------------------------------------------------

#[test]
fn starter_config_is_valid() {
    let c = Config::default_config("/home/me");
    assert!(c.validate().is_ok());
    assert_eq!(c.workers.len(), 2);
    assert_eq!(c.storage.sessions_dir, "/home/me/.openfusion/sessions");
    assert_eq!(c.storage.max_sessions, 1000);
    assert_eq!(config::default_config_path("/home/me/"), "/home/me/.openfusion/config.toml");
    assert_eq!(c.fusion.timeout_secs, 120);
    assert_eq!(c.fusion.worker_timeout_secs, 60);
    assert!(c.workers.iter().any(|w| w.name.as_deref() == Some("critical")));
}

#[test]
fn absolute_names_are_not_put_below() {
    assert_eq!(config::join_path("/home/me", "x"), "/home/me/x");
    assert_eq!(config::join_path("/home/me/", "x"), "/home/me/x");
    assert_eq!(config::join_path("/home/me", "/x"), "/x");
}

#[test]
fn unusable_configs_are_refused() {
    let fault = |change: fn(&mut Config)| {
        let mut c = Config::default_config("");
        change(&mut c);
        c.validate().unwrap_err().message()
    };
    assert_eq!(
        fault(|c| c.workers.clear()),
        "Config error: At least one worker is required"
    );
    assert_eq!(
        fault(|c| c.fusion.min_workers = 3),
        "Config error: min_workers (3) exceeds total workers (2)"
    );
    assert_eq!(
        fault(|c| c.fusion.timeout_secs = 0),
        "Config error: fusion.timeout_secs must be > 0"
    );
    assert_eq!(
        fault(|c| c.fusion.worker_timeout_secs = 0),
        "Config error: fusion.worker_timeout_secs must be > 0"
    );
    assert_eq!(
        fault(|c| c.judge.base_url = "ftp://x".into()),
        "Config error: judge base_url must start with http:// or https://: ftp://x"
    );
    assert_eq!(
        fault(|c| c.workers[1].base_url = "x".into()),
        "Config error: worker[1] base_url must start with http:// or https://: x"
    );
}

#[test]
fn keys_come_from_the_endpoint_or_the_environment() {
    let c = Config::default_config("");
    let mut e: ModelEndpoint = c.judge.clone();
    assert_eq!(c.resolve_api_key(&e, &None), None);
    assert_eq!(c.resolve_api_key(&e, &Some("env".into())), Some("env".to_string()));
    e.api_key = "own".into();
    assert_eq!(c.resolve_api_key(&e, &Some("env".into())), Some("own".to_string()));
    e.api_key = String::new();
    assert_eq!(c.resolve_api_key(&e, &Some("env".into())), Some("env".to_string()));
}

#[test]
fn protocols_have_paths() {
    let path = |p| Config::protocol_path(&p, "g");
    assert_eq!(path(ApiProtocol::OpenaiCompletions), "/v1/chat/completions");
    assert_eq!(path(ApiProtocol::OpenaiResponses), "/v1/responses");
    assert_eq!(path(ApiProtocol::GoogleGenerativeAi), "/v1beta/models/g:generateContent");
    assert_eq!(path(ApiProtocol::AnthropicMessages), "/v1/messages");
}

// ---------------------------------------------------------------------------
// Workers
// ---------------------------------------------------------------------------

#[test]
fn upstream_error_message_extracts_detail_field() {
    let body = r#"{"detail":"The 'gpt-5.4' model is not supported when using Codex with a ChatGPT account."}"#;
    assert_eq!(
        worker::extract_upstream_error_message(400, body),
        "The 'gpt-5.4' model is not supported when using Codex with a ChatGPT account."
    );
}

#[test]
fn upstream_error_message_takes_what_is_stated() {
    let m = worker::extract_upstream_error_message;
    assert_eq!(m(400, r#"{"error":{"message":"a"},"message":"b"}"#), "a");
    assert_eq!(m(400, r#"{"error":"c","message":"b"}"#), "c");
    assert_eq!(m(400, r#"{"message":"b","detail":"d"}"#), "b");
    assert_eq!(m(400, "  plain  "), "plain");
    assert_eq!(m(404, " \n"), "HTTP 404 Not Found");
    assert_eq!(m(599, ""), "HTTP 599 <unknown status code>");
    assert_eq!(m(400, &"x".repeat(2000)), "x".repeat(1000));
}

#[test]
fn answers_are_accepted_by_status() {
    assert_eq!(worker::accept_answer(204, &None, "t".into()).unwrap(), "t");
    match worker::accept_answer(429, &Some("7".into()), "slow down".into()) {
        Err(OpenFusionError::ApiError { status, body, retry_after_secs }) => {
            assert_eq!(status, 429);
            assert_eq!(body, "slow down");
            assert_eq!(retry_after_secs, Some(7));
        }
        other => panic!("{other:?}"),
    }
}

#[test]
fn workers_are_asked_at_their_address() {
    let url = |base: &str, api| {
        Worker::new("m".into(), api, base.to_string(), "k".into()).request_url()
    };
    assert_eq!(
        url("https://x.com/v1/", ApiProtocol::OpenaiResponses),
        "https://x.com/v1/responses"
    );
    assert_eq!(url("https://x.com//", ApiProtocol::AnthropicMessages), "https://x.com/v1/messages");
    assert_eq!(
        url("https://x.com", ApiProtocol::GoogleGenerativeAi),
        "https://x.com/v1beta/models/m:generateContent"
    );
    let w = Worker::new("m".into(), ApiProtocol::OpenaiResponses, "u".into(), "k".into());
    assert_eq!(w.authorization(), "Bearer k");
    assert_eq!(w.provider_id(), "openai-responses:m");
}

#[test]
fn advisory_workers_get_their_prompt_and_no_tools() {
    let w = Worker::new("m".into(), ApiProtocol::OpenaiCompletions, "u".into(), "k".into())
        .with_name("n".into())
        .with_advisory_prompt(vec!["strict".into(), "critical".into()]);
    let mut r = request(vec![message(Role::System, "s"), message(Role::User, "u")]);
    r.stream = true;
    r.parallel_tool_calls = Some(true);
    let p = w.prepare_request(&r);
    assert_eq!(p.messages.len(), 2);
    assert_eq!(p.messages[0].role, Role::System);
    assert!(p.messages[0].content.contains("\nWorking style: strict, critical.\n</worker-role>"));
    assert_eq!(p.messages[1].content, "u");
    assert!(!p.stream);
    assert!(p.parallel_tool_calls.is_none());
    let plain = worker::build_advisory_prompt(&vec![]);
    assert!(plain.starts_with("<worker-role>\nYou are an advisory worker"));
    assert!(plain.ends_with("generic advice.\n</worker-role>"));
}

#[test]
fn answers_of_workers_are_read() {
    let w = Worker::new("m".into(), ApiProtocol::GoogleGenerativeAi, "u".into(), "k".into())
        .with_name("n".into());
    let mut body = w
        .parse_body(r#"{"candidates":[{"content":{"parts":[{"functionCall":{"name":"f","args":{}}}]}}]}"#)
        .unwrap();
    w.complete_body(&mut body);
    let received = w.receive(&body, 5, None).unwrap();
    assert_eq!(received.result.name, "n");
    let call = &received.result.response.unwrap().tool_calls[0];
    let kept = received.turn.unwrap();
    assert_eq!(kept.tool_calls[0].id.as_deref(), Some(call.id.as_str()));

    let mut body = w.parse_body(r#"{"candidates":[{"content":{"parts":[{"text":"t"}]}}]}"#).unwrap();
    w.complete_body(&mut body);
    assert!(w.receive(&body, 5, None).unwrap().turn.is_none());

    let e = w.parse_body("<html>").unwrap_err().message();
    assert!(e.starts_with("Worker 'm' failed: Failed to parse JSON response: expected value"));
    assert!(e.ends_with("\n--- raw body ---\n<html>"));
    assert_eq!(w.timeout_error(60).message(), "Worker 'm' timed out after 60000ms");
    assert_eq!(w.read_error("x").message(), "Worker 'm' failed: Failed to read response body: x");
}

// ---------------------------------------------------------------------------
// Engine
// ---------------------------------------------------------------------------

#[test]
fn engine_needs_keys() {
    let c = Config::default_config("");
    assert_eq!(
        FusionEngine::new(c.clone(), &None).unwrap_err().message(),
        OpenFusionError::NoApiKey.message()
    );
    let mut with_judge = c.clone();
    with_judge.judge.api_key = "real".into();
    assert_eq!(
        FusionEngine::new(with_judge, &None).unwrap_err().message(),
        "Config error: No API key for worker 'gpt-5.4-mini'"
    );
    let e = FusionEngine::new(c, &Some("k".into())).unwrap();
    assert_eq!(e.workers.len(), 2);
    assert_eq!(e.workers[0].name, "analytical");
    assert_eq!(e.workers[1].api_key, "k");
    assert!(e.judge_worker.advisory_prompt.is_none());
}

#[test]
fn panel_is_filtered_by_model_or_name() {
    let e = FusionEngine::new(Config::default_config(""), &Some("k".into())).unwrap();
    let names = |filter: &[&str]| -> Vec<String> {
        let filter: Vec<String> = filter.iter().map(|s| s.to_string()).collect();
        e.panel(&filter).iter().map(|w| w.name.clone()).collect()
    };
    assert_eq!(names(&[]), vec!["analytical", "critical"]);
    assert_eq!(names(&["all", "x"]), vec!["analytical", "critical"]);
    assert_eq!(names(&["critical"]), vec!["critical"]);
    assert_eq!(names(&["gpt-5.4-mini"]), vec!["analytical"]);
    assert!(names(&["nobody"]).is_empty());
}

#[test]
fn too_few_successes_end_a_run() {
    let results = vec![answer("a", "a", "x"), failure("b", Some("boom")), failure("c", None)];
    assert!(engine::check_quorum(&results, 1).is_ok());
    assert_eq!(
        engine::check_quorum(&results, 2).unwrap_err().message(),
        "Insufficient workers: 1/3 succeeded, need 2\n  b: boom\n  c: unknown"
    );
    assert_eq!(engine::tally(&results), (1, 2));
}

#[test]
fn judge_is_told_the_proposals_first() {
    let results = vec![
        failure("f", None),
        answer("a", "n1", "one"),
        answer("b", "n2", ""),
        answer("c", "n3", "three"),
    ];
    let r = engine::request_for_judge(&request(vec![message(Role::User, "q")]), &results);
    assert_eq!(r.messages.len(), 2);
    assert_eq!(r.messages[0].role, Role::System);
    assert!(r.messages[0].content.starts_with("# Worker Proposals\n\nMultiple AI workers"));
    assert!(r.messages[0].content.contains("## Worker 1 (n1)\none\n\n## Worker 3 (n3)\nthree\n\n"));
    assert!(r.messages[0].content.contains("\n\n# Judge Task\nSynthesize"));
    let none = engine::request_for_judge(
        &request(vec![message(Role::User, "q")]),
        &vec![failure("f", None)],
    );
    assert_eq!(none.messages.len(), 1);
}

#[test]
fn a_run_is_summed_up() {
    let run = sample_run();
    assert_eq!(run.models_succeeded, 1);
    assert_eq!(run.models_failed, 1);
    assert_eq!(run.synthesis.as_deref(), Some("the synthesis"));
    assert_eq!(run.judge_output_raw.as_deref(), Some("the synthesis"));
    assert_eq!(run.original_prompt, "What now?");
    assert!(run.enhanced_prompt_used);
    assert_eq!(run.total_cost_usd, Usd { bits: 1.0f64.to_bits() });
}

#[test]
fn failures_become_results() {
    let r = engine::failed_worker("m".into(), "n".into(), &OpenFusionError::Config("c".into()));
    assert!(!r.success);
    assert_eq!(r.api, "error");
    assert_eq!(r.error.as_deref(), Some("Config error: c"));
    let b = engine::broken_worker("oops");
    assert_eq!(b.model, "worker-panic");
    assert_eq!(b.error.as_deref(), Some("Worker panicked: oops"));
}

#[test]
fn advisory_requests_have_no_tools() {
    let mut r = request(vec![message(Role::User, "q")]);
    r.tool_choice = Some(json::Json::text("auto"));
    r.parallel_tool_calls = Some(false);
    let a = engine::advisory_request(&r);
    assert!(a.tool_choice.is_none());
    assert!(a.parallel_tool_calls.is_none());
    assert_eq!(a.messages[0].content, "q");
}

#[test]
fn session_ids_are_random() {
    let id = engine::new_session_id();
    assert_eq!(id.len(), 36);
    assert_eq!(id.chars().filter(|c| *c == '-').count(), 4);
    assert_ne!(id, engine::new_session_id());
}

#[test]
fn passing_failures_are_retried_with_growing_pauses() {
    let e = OpenFusionError::WorkerTimeout { model: "m".into(), duration_ms: 1 };
    let mut a = Attempts::first(6);
    let mut pauses = vec![];
    while let Some(p) = a.failed(&e) {
        pauses.push(p);
    }
    assert_eq!(pauses, vec![500, 1000, 2000, 4000, 8000, 8000]);
    assert_eq!(a.attempt, 7);
    let mut b = Attempts::first(0);
    assert_eq!(b.max_retries, 2);
    assert!(b.failed(&OpenFusionError::Config("no".into())).is_none());
    assert!(b.failed(&OpenFusionError::Network("n".into())).is_some());
}

#[test]
fn pauses_follow_the_wish_of_the_upstream_within_limits() {
    let pause = |secs| {
        engine::retry_delay(
            &OpenFusionError::ApiError { status: 429, body: String::new(), retry_after_secs: secs },
            3,
        )
    };
    assert_eq!(pause(Some(0)), 1000);
    assert_eq!(pause(Some(4)), 4000);
    assert_eq!(pause(Some(99)), 10_000);
    assert_eq!(pause(None), 2000);
}

// ---------------------------------------------------------------------------
// Judge
// ---------------------------------------------------------------------------

#[test]
fn judge_prompt_shows_question_context_and_answers() {
    let a = answer("m1", "n1", "yes");
    let b = failure("m2", None);
    let c = answer("m3", "n3", "no");
    let p = judge::build_judge_prompt(
        &request(vec![message(Role::System, "ctx"), message(Role::User, "q")]),
        &[&a, &b, &c],
    );
    assert!(p.starts_with("You are a synthesis judge. "));
    assert!(p.contains("\n\n## User Question\nq\n\n## System Context (if any)\nctx\n\n## Model Responses\n### Model 1: m1\n\nyes\n\n### Model 3: m3\n\nno\n\n\n\n## Instructions\n"));
    assert!(p.ends_with("individual model names in the synthesis.\n"));
}

#[test]
fn judge_output_is_read_by_section() {
    let raw = "### CONSENSUS\n- one\n-\n-- two\n  - three\n\n### CONTRADICTIONS\n- **Auth**: which\n  - Model A: tokens\n- **Cost**\n\n### BLIND SPOTS\n- risk\n\n### SYNTHESIS\nDo it.\n";
    let out = judge::parse_judge_output(raw).unwrap();
    assert_eq!(out.synthesis, "Do it.");
    assert_eq!(out.consensus, vec!["one", "two", "- three"]);
    assert_eq!(out.blind_spots, vec!["risk"]);
    assert_eq!(out.contradictions.len(), 2);
    assert_eq!(out.contradictions[0].topic, "Auth");
    assert_eq!(out.contradictions[0].views.len(), 1);
    assert_eq!(out.contradictions[0].views[0].model, "Model A");
    assert_eq!(out.contradictions[0].views[0].position, "tokens");
    assert_eq!(out.contradictions[1].topic, "Cost");
    assert!(out.contradictions[1].views.is_empty());
}

#[test]
fn contradictions_hold_topic_and_positions() {
    let found = judge::parse_contradictions(
        "- **Cost**: they differ\n  - Model A: cheap\n  - Model B: dear",
    );
    assert_eq!(found.len(), 1);
    assert_eq!(found[0].topic, "Cost");
    let views: Vec<_> =
        found[0].views.iter().map(|v| (v.model.as_str(), v.position.as_str())).collect();
    assert_eq!(views, vec![("Model A", "cheap"), ("Model B", "dear")]);
    let colon = judge::parse_contradictions("- **Time: limits**: late\n  - A: now");
    assert_eq!(colon[0].topic, "Time: limits");
    assert!(judge::parse_contradictions("no topic\n  - A: x").is_empty());
}

#[test]
fn unmarked_judge_output_is_a_synthesis() {
    let out = judge::parse_judge_output(" just text ").unwrap();
    assert_eq!(out.synthesis, " just text ");
    assert!(out.consensus.is_empty());
    assert!(out.contradictions.is_empty());
    assert!(out.blind_spots.is_empty());
    assert_eq!(judge::extract_section("x SYNTHESIS: y\n### Z", "SYNTHESIS"), ": y");
    assert_eq!(judge::extract_section("x", "SYNTHESIS"), "");
}

// ---------------------------------------------------------------------------
// Sessions
// ---------------------------------------------------------------------------

fn meta(id: &str, preview: &str, models: &[&str]) -> session::SessionMeta {
    session::SessionMeta {
        id: id.to_string(),
        prompt_preview: preview.to_string(),
        original_prompt: preview.to_string(),
        models: models.iter().map(|m| m.to_string()).collect(),
        models_succeeded: 1,
        models_failed: 0,
        duration_ms: 1,
        timestamp: "t".to_string(),
    }
}

fn ids(metas: &[session::SessionMeta]) -> Vec<&str> {
    metas.iter().map(|m| m.id.as_str()).collect()
}

#[test]
fn sessions_are_listed_newest_first() {
    let all = vec![
        meta("1", "Rust AND safety", &["GPT"]),
        meta("2", "other", &["Sonnet"]),
        meta("3", "ÄPFEL", &["gpt-5"]),
    ];
    assert_eq!(ids(&session::list_sessions(all.clone(), None, None)), vec!["3", "2", "1"]);
    assert_eq!(ids(&session::list_sessions(all.clone(), None, Some(2))), vec!["3", "2"]);
    assert_eq!(ids(&session::list_sessions(all.clone(), Some("gPt"), None)), vec!["3", "1"]);
    assert_eq!(ids(&session::list_sessions(all.clone(), Some("RUST and"), None)), vec!["1"]);
    assert_eq!(ids(&session::list_sessions(all.clone(), Some("äpf"), None)), vec!["3"]);
    let many: Vec<_> = (0..60).map(|i| meta(&i.to_string(), "", &[])).collect();
    let shown = session::list_sessions(many, None, None);
    assert_eq!(shown.len(), 60);
    assert_eq!(shown[0].id, "59");
    assert_eq!(shown[59].id, "0");
}

#[test]
fn deleted_sessions_are_not_listed() {
    let all = vec![meta("1", "a", &[]), meta("2", "b", &[]), meta("3", "c", &[])];
    let left = session::without_session(all, "2");
    assert_eq!(ids(&left), vec!["1", "3"]);
    assert_eq!(ids(&session::list_sessions(left.clone(), None, None)), vec!["3", "1"]);
    assert_eq!(ids(&session::without_session(left, "9")), vec!["1", "3"]);
}

#[test]
fn old_sessions_are_pruned() {
    let all: Vec<_> = (0..10).map(|i| meta(&i.to_string(), "", &[])).collect();
    assert_eq!(session::sessions_to_prune(&all, 7), vec!["0", "1", "2"]);
    assert!(session::sessions_to_prune(&all, 10).is_empty());
    let many: Vec<_> = (0..60).map(|i| meta(&i.to_string(), "", &[])).collect();
    assert_eq!(session::sessions_to_prune(&many, 58), vec!["0", "1"]);
    assert!(session::sessions_to_prune(&many, 60).is_empty());
    assert_eq!(ids(&session::sessions_to_keep(many.clone(), 2)), vec!["58", "59"]);
    assert_eq!(session::sessions_to_keep(many, 60).len(), 60);
    assert_eq!(session::sessions_to_prune(&all, 0).len(), 10);
    assert!(session::sessions_to_keep(all, 0).is_empty());
}

#[test]
fn saving_one_by_one_keeps_the_newest() {
    let mut kept: Vec<session::SessionMeta> = vec![];
    for i in 0..9 {
        kept.push(meta(&i.to_string(), "", &[]));
        kept = session::sessions_to_keep(kept, 3);
    }
    assert_eq!(ids(&session::list_sessions(kept, None, None)), vec!["8", "7", "6"]);
}

#[test]
fn sessions_are_made_from_runs() {
    let mut run = sample_run();
    run.original_prompt = "é".repeat(300);
    let s = session::session_of(&run);
    assert_eq!(s.meta.prompt_preview, "é".repeat(200));
    assert_eq!(s.meta.models, vec!["m1", "m2"]);
    assert_eq!(s.meta.id, "id-1");
    assert_eq!(s.full.original_prompt, run.original_prompt);
    assert_eq!(session::session_file("x"), "x.json");
    assert_eq!(session::export_file("x"), "x.md");
    assert_eq!(session::json_export_file("x"), "x.export.json");
    assert_eq!(session::index_file(), "_index.jsonl");
}

#[test]
fn sessions_are_exported_as_markdown() {
    let mut s = session::session_of(&sample_run());
    s.full.consensus = vec!["p".to_string()];
    assert_eq!(
        session::session_to_markdown(&s),
        "# Fusion Session: id-1\n\n**Time**: 2026-01-01T00:00:00+00:00\n**Duration**: 42ms\n**Models**: m1, m2 (1/2)\n\n## Synthesis\n\nthe synthesis\n\n## Consensus\n\n- p\n\n## Individual Responses\n\n### m1\n\nfirst\n\n### m2\n\n*Error: broken*\n\n"
    );
}

// ---------------------------------------------------------------------------
// Tools
// ---------------------------------------------------------------------------

#[test]
fn prompts_are_framed() {
    assert_eq!(mcp::frame_prompt("p", &None), "p");
    assert_eq!(mcp::frame_prompt("p", &Some("  ".into())), "p");
    assert_eq!(
        mcp::frame_prompt("p", &Some(" s ".into())),
        "# Domain Framing\ns\n\n# Task\np"
    );
}

#[test]
fn fusion_is_planned() {
    let plan = fusion::plan(
        fusion::FusionParams {
            prompt: "p".into(),
            system: None,
            judge_mode: Some(true),
            panel_override: Some(vec!["a".into()]),
            save_session: None,
        },
        single(0.7),
    );
    assert!(plan.judge_mode);
    assert!(!plan.save_session);
    assert_eq!(plan.model_filter, vec!["a"]);
    assert_eq!(plan.request.max_tokens, 2048);
    assert_eq!(plan.request.messages[0].content, "p");
    assert_eq!(plan.request.temperature.unwrap().text, "0.7");
    assert!(fusion::plan(fusion::FusionParams::default(), single(0.7)).model_filter.is_empty());
}

#[test]
fn answers_are_compared() {
    let results = vec![answer("m1", "n1", "x"), failure("m2", Some("e"))];
    let d = diff::compare("s".into(), &results, Usd { bits: 9 }, 4);
    assert_eq!(d.responses.len(), 2);
    assert_eq!(d.responses[0].token_count, 3);
    assert_eq!(d.responses[0].cost_usd, Usd { bits: 0.5f64.to_bits() });
    assert_eq!(d.responses[1].error.as_deref(), Some("e"));
    assert_eq!(d.summary.models_succeeded, 1);
    assert_eq!(d.summary.models_failed, 1);
    assert_eq!(d.summary.mode, "raw-worker-comparison");
    assert!(diff::check_panel(&results).is_ok());
    assert_eq!(
        diff::check_panel(&vec![]).unwrap_err().message(),
        "Config error: No workers matched panel_override"
    );
    let plan = diff::plan(diff::DiffParams::default(), single(0.7));
    assert!(!plan.judge_mode);
    let kept = diff::archived(
        "s".into(),
        &request(vec![message(Role::User, "q")]),
        results,
        Usd { bits: 9 },
        4,
        "t".into(),
    );
    assert_eq!(kept.original_prompt, "q");
    assert!(kept.synthesis.is_none());
}

#[test]
fn runs_are_counted() {
    assert_eq!(bench::effective_runs(None), 1);
    assert_eq!(bench::effective_runs(Some(0)), 1);
    assert_eq!(bench::effective_runs(Some(3)), 3);
    let mut t = bench::BenchTally::new();
    assert_eq!(t.attempts(), 1);
    let mut run = sample_run();
    assert!(t.can_add(&run));
    t.add_run(&run);
    run.duration_ms = 44;
    run.synthesis = None;
    t.add_run(&run);
    assert_eq!(t.runs, 2);
    assert_eq!(t.avg_duration_ms(), 43);
    assert_eq!(t.total_success_count, 2);
    assert_eq!(t.attempts(), 4);
    assert_eq!(t.sample_synthesis.as_deref(), Some("the synthesis"));
    assert_eq!(t.sample_worker_outputs, vec!["first"]);
    run.duration_ms = u64::MAX;
    assert!(!t.can_add(&run));
    let r = bench::build_request("p", &Some("s".into()), single(0.7));
    assert_eq!(r.messages[0].content, "# Domain Framing\ns\n\n# Task\np");
}

#[test]
fn session_actions_are_decided() {
    let ask = |action: &str, id: Option<&str>, format: Option<&str>| {
        mcp::session::decide(mcp::session::SessionParams {
            action: action.to_string(),
            session_id: id.map(|s| s.to_string()),
            query: Some("q".into()),
            limit: None,
            export_format: format.map(|s| s.to_string()),
        })
    };
    match ask("list", None, None).unwrap() {
        mcp::session::SessionStep::List { query, limit } => {
            assert_eq!(query.as_deref(), Some("q"));
            assert_eq!(limit, Some(20));
        }
        other => panic!("{other:?}"),
    }
    assert!(matches!(
        ask("get", Some("i"), Some("json")).unwrap(),
        mcp::session::SessionStep::Get { as_json: true, .. }
    ));
    assert!(matches!(
        ask("export", Some("i"), None).unwrap(),
        mcp::session::SessionStep::Export { as_json: false, .. }
    ));
    assert!(matches!(
        ask("export", Some("i"), Some("json")).unwrap(),
        mcp::session::SessionStep::Export { as_json: true, .. }
    ));
    assert!(matches!(
        ask("export", Some("i"), Some("markdown")).unwrap(),
        mcp::session::SessionStep::Export { as_json: false, .. }
    ));
    for action in ["get", "export", "delete", "replay"] {
        assert_eq!(
            ask(action, None, None).unwrap_err().message(),
            format!("Config error: session_id required for {action}")
        );
    }
    assert_eq!(
        ask("drop", None, None).unwrap_err().message(),
        "Config error: Unknown action 'drop'. Valid: list, get, export, delete, replay"
    );
}

#[test]
fn replay_repeats_prompt_panel_and_judge() {
    let mut s = session::session_of(&sample_run());
    s.full.worker_results[1].name = String::new();
    let plan = mcp::session::plan_replay(&s, single(0.7));
    assert_eq!(plan.model_filter, vec!["n1", "m2"]);
    assert!(plan.judge_mode);
    assert!(plan.save_session);
    assert_eq!(plan.request.messages[0].content, "What now?");
}

#[test]
fn session_answers_are_put_together() {
    let s = session::session_of(&sample_run());
    match mcp::session::listed(vec![s.meta.clone()]) {
        mcp::session::SessionResult::List(l) => assert_eq!(l.total, 1),
        other => panic!("{other:?}"),
    }
    match mcp::session::shown(s, Some("{}".into()), true) {
        mcp::session::SessionResult::Get(g) => {
            assert!(g.session.is_none());
            assert_eq!(g.raw_json.as_deref(), Some("{}"));
        }
        other => panic!("{other:?}"),
    }
    match mcp::session::exported("f".into()) {
        mcp::session::SessionResult::Export(x) => assert_eq!(x.file_path, "f"),
        other => panic!("{other:?}"),
    }
    match mcp::session::deleted(true) {
        mcp::session::SessionResult::Delete(d) => assert!(d.deleted),
        other => panic!("{other:?}"),
    }
    match mcp::session::replayed("i".into(), true, vec![], sample_run()) {
        mcp::session::SessionResult::Replay(r) => assert_eq!(r.session_id, "i"),
        other => panic!("{other:?}"),
    }
}

#[test]
fn tools_are_offered_and_found() {
    let tools = mcp::tool_catalog();
    let names: Vec<&str> = tools.iter().map(|t| t.name).collect();
    assert_eq!(names, vec!["fusion", "fusion_diff", "fusion_bench", "fusion_session"]);
    for name in names {
        assert!(mcp::tool_named(name).is_ok());
    }
    assert_eq!(mcp::tool_named("x").unwrap_err(), "Unknown tool: x");
    let schema = json::to_value(&json::Json::Object(tools[2].schema.clone()));
    assert_eq!(schema["required"], serde_json::from_str::<serde_json::Value>(r#"["prompt","configs"]"#).unwrap());
    assert_eq!(schema["properties"]["configs"]["items"]["properties"]["workers"]["items"]["type"], "string");
    assert_eq!(schema["properties"]["configs"]["items"]["required"][0], "label");
    assert!(mcp::instructions().starts_with("OpenFusion is an MCP-first"));
}

// ---------------------------------------------------------------------------
// Server and command line
// ---------------------------------------------------------------------------

#[test]
fn google_paths_name_models() {
    assert_eq!(server::google_model("models/g-2:generateContent").unwrap(), "g-2");
    assert_eq!(server::google_model("models/g:streamGenerateContent").unwrap(), "g");
    assert_eq!(
        server::google_model("models/g").unwrap_err(),
        "Invalid Google GenAI path: models/g"
    );
    assert!(server::google_model("g:generateContent").is_err());
}

#[test]
fn server_answers_are_put_together() {
    let r = server::response_of_synthesis(None, "stop", Usd { bits: 1 }, 2, "m");
    assert_eq!(r.content, "");
    assert_eq!(r.finish_reason, "stop");
    assert_eq!(r.usage.total_tokens, 0);
    let h = json::to_value(&server::health_check("1.2").to_json());
    assert_eq!(h["status"], "ok");
    assert_eq!(h["version"], "1.2");
    let c = Config::default_config("");
    let m = json::to_value(&server::metrics(&c, 5, 6).to_json());
    assert_eq!(m["worker_count"], 2);
    assert_eq!(m["judge_model"], "gpt-5.4-mini");
    assert_eq!(m["uptime_secs"], 5);
    assert_eq!(m["request_count"], 6);
}

#[test]
fn flags_have_values() {
    let args: Vec<String> =
        ["x", "--config", "a", "--config", "b"].iter().map(|s| s.to_string()).collect();
    assert_eq!(cli::parse_arg(&args, "--config").as_deref(), Some("a"));
    assert_eq!(cli::parse_arg(&args[..2], "--config"), None);
    assert_eq!(cli::parse_arg(&args[..1], "--config"), None);
}

#[test]
fn tool_calls_of_the_judge_are_passed_through() {
    let mut j = answer("judge", "judge", "s");
    j.response.as_mut().unwrap().tool_calls.push(ToolCall {
        id: "c".into(),
        name: "f".into(),
        arguments: json::parse("{}").unwrap(),
    });
    let run = engine::fuse(
        "i".into(),
        &request(vec![]),
        vec![],
        true,
        Some(j),
        Usd { bits: 0 },
        0,
        String::new(),
    );
    assert_eq!(run.passthrough_tool_calls[0].id, "c");
}
