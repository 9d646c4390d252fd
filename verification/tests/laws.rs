//! The laws of the library on concrete values.

use openfusion::config::ApiProtocol;
use openfusion::config::Config;
use openfusion::engine;
use openfusion::engine::run::{AdvisoryRun, RunStep};
use openfusion::engine::FusionEngine;
use openfusion::error::OpenFusionError;
use openfusion::json;
use openfusion::json::{Json, JsonMap};
use openfusion::mcp;
use openfusion::mcp::diff;
use openfusion::protocol::anthropic_messages;
use openfusion::protocol::gemini_shadow::{
    GeminiAssistantTurn, GeminiShadowStore, GeminiToolCallMeta,
};
use openfusion::protocol::google_genai;
use openfusion::protocol::openai_completions;
use openfusion::protocol::openai_responses;
use openfusion::protocol::stream;
use openfusion::protocol::{
    IntermediateRequest, IntermediateResponse, Message, Role, Single, StreamEvent,
    ThinkingConfig, ThinkingEffort, ToolCall, Usage, Usd, WorkerResult,
};
use openfusion::worker::Worker;
use serde_json::Value;

fn tree(text: &str) -> Json {
    json::parse(text).unwrap()
}

fn value_of(j: &Json) -> Value {
    json::to_value(j)
}

fn call(id: &str, name: &str, arguments: &str) -> ToolCall {
    ToolCall { id: id.to_string(), name: name.to_string(), arguments: tree(arguments) }
}

fn said(role: Role, content: &str) -> Message {
    Message {
        role,
        content: content.to_string(),
        tool_call_id: None,
        tool_is_error: None,
        tool_calls: vec![],
    }
}

fn request(messages: Vec<Message>) -> IntermediateRequest {
    let temperature =
        Single { bits: 0.5f32.to_bits(), text: "0.5".to_string(), json: tree("0.5") };
    let mut r = mcp::request_for(String::new(), temperature);
    r.messages = messages;
    r
}

fn chain() -> IntermediateRequest {
    let mut asked = said(Role::Assistant, "");
    asked.tool_calls = vec![call("call_1", "look", r#"{"at": "x"}"#)];
    let mut seen = said(Role::Tool, "nothing");
    seen.tool_call_id = Some("call_1".to_string());
    request(vec![said(Role::User, "Look."), asked, seen])
}

fn response() -> IntermediateResponse {
    IntermediateResponse {
        id: None,
        content: "Done.".to_string(),
        status: None,
        finish_reason: "stop".to_string(),
        usage: Usage {
            prompt_tokens: 7,
            completion_tokens: 8,
            total_tokens: 15,
            reasoning_tokens: 0,
        },
        cost_usd: Usd { bits: 0 },
        duration_ms: 3,
        model: "m".to_string(),
        tool_calls: vec![call("call_1", "look", r#"{"at": "x"}"#)],
        thinking: Some("Hm.".to_string()),
        metadata: JsonMap::new(),
        native: JsonMap::new(),
    }
}

fn worker(api: ApiProtocol) -> Worker {
    Worker::new("m".to_string(), api, "http://h".to_string(), "k".to_string())
}

fn same_calls(a: &[ToolCall], b: &[ToolCall]) {
    assert_eq!(a.len(), b.len());
    for (x, y) in a.iter().zip(b) {
        assert_eq!((&x.id, &x.name), (&y.id, &y.name));
        assert_eq!(value_of(&x.arguments), value_of(&y.arguments));
    }
}

fn event_text(event: &Option<StreamEvent>) -> String {
    match event {
        None => "none".to_string(),
        Some(StreamEvent::Delta(s)) => format!("text {s}"),
        Some(StreamEvent::ThinkingDelta(s)) => format!("thought {s}"),
        Some(StreamEvent::ToolCallDelta { index, id, name, arguments }) => {
            format!("call {index} {id} {name} {arguments}")
        }
        Some(StreamEvent::Done(_)) => "done".to_string(),
    }
}

fn call_event(index: u32, arguments: &str) -> StreamEvent {
    StreamEvent::ToolCallDelta {
        index,
        id: "call_1".to_string(),
        name: "look".to_string(),
        arguments: arguments.to_string(),
    }
}

// ---------------------------------------------------------------------------
// Responses that are sent are read back
// ---------------------------------------------------------------------------

#[test]
fn sent_chat_response_is_read_back() {
    let sent = openai_completions::from_intermediate(response(), "m").to_json();
    let back = openai_completions::parse_worker_response(&sent, "m", 1, None).unwrap();
    let back = back.response.unwrap();
    assert_eq!(back.content, "Done.");
    assert_eq!(back.usage.total_tokens, 15);
    same_calls(&back.tool_calls, &response().tool_calls);
}

#[test]
fn sent_responses_response_is_read_back() {
    let sent = openai_responses::from_intermediate(response(), "m").to_json();
    let back = openai_responses::parse_worker_response(&sent, "m", 1, None).unwrap();
    let back = back.response.unwrap();
    assert_eq!(back.usage.prompt_tokens, 7);
    assert_eq!(back.content, "Hm.\n\nDone.");
    same_calls(&back.tool_calls, &response().tool_calls);

    let mut plain = response();
    plain.thinking = None;
    plain.tool_calls.clear();
    let sent = openai_responses::from_intermediate(plain, "m").to_json();
    let back = openai_responses::parse_worker_response(&sent, "m", 1, None).unwrap();
    assert_eq!(back.response.unwrap().content, "Done.");
}

#[test]
fn sent_anthropic_response_is_read_back() {
    let sent = anthropic_messages::from_intermediate(response(), "m").to_json();
    let back = anthropic_messages::parse_worker_response(&sent, "m", 1, None).unwrap();
    let back = back.response.unwrap();
    assert_eq!(back.content, "Done.");
    assert_eq!(back.thinking.as_deref(), Some("Hm."));
    assert_eq!(back.finish_reason, "tool_use");
    assert_eq!(back.usage.completion_tokens, 8);
    same_calls(&back.tool_calls, &response().tool_calls);
}

#[test]
fn sent_gemini_response_is_read_back() {
    let sent = google_genai::from_intermediate(response());
    let back = google_genai::parse_worker_response(&sent, "m", 1, None).unwrap();
    let back = back.response.unwrap();
    assert_eq!(back.finish_reason, "stop");
    assert_eq!(back.usage.total_tokens, 15);
    assert_eq!(back.thinking.as_deref(), Some("Hm."));
    assert_eq!(back.content, "Hm.Done.");
    same_calls(&back.tool_calls, &response().tool_calls);
}

// ---------------------------------------------------------------------------
// Streams
// ---------------------------------------------------------------------------

#[test]
fn anthropic_events_are_read_back() {
    let mut acc = stream::AnthropicAccumulator::new();
    for event in [
        StreamEvent::Delta("Do".to_string()),
        StreamEvent::Delta("ne.".to_string()),
        StreamEvent::ThinkingDelta("Hm.".to_string()),
        call_event(3, ""),
        call_event(3, r#"{"at":"#),
        call_event(3, r#""x"}"#),
    ] {
        let sent = stream::anthropic_format_sse(&event, "m").unwrap();
        let read = acc.feed(&sent);
        assert_eq!(event_text(&read), event_text(&Some(event)));
    }
    let end = stream::anthropic_format_sse(&StreamEvent::Done(response()), "m").unwrap();
    assert!(acc.feed(&end).is_none());
    let back = acc.into_response("m", 1);
    assert_eq!(back.content, "Done.");
    assert_eq!(back.thinking.as_deref(), Some("Hm."));
    assert_eq!(back.finish_reason, "stop");
    assert_eq!(back.usage.completion_tokens, 8);
    same_calls(&back.tool_calls, &response().tool_calls);
}

#[test]
fn chat_events_are_read_back() {
    let mut acc = stream::OpenAiAccumulator::new();
    for event in [
        StreamEvent::Delta("Do".to_string()),
        StreamEvent::Delta("ne.".to_string()),
        StreamEvent::ThinkingDelta("Hm.".to_string()),
        call_event(0, ""),
    ] {
        let sent = stream::openai_format_sse(&event, "m").unwrap();
        let read = acc.feed(&sent);
        assert_eq!(event_text(&read), event_text(&Some(event)));
    }
    for piece in [r#"{\"at\":"#, r#"\"x\"}"#] {
        let sent = format!(
            r#"{{"choices":[{{"delta":{{"tool_calls":[{{"index":0,"function":{{"arguments":"{piece}"}}}}]}}}}]}}"#
        );
        assert!(acc.feed(&sent).is_some());
    }
    let end = stream::openai_format_sse(&StreamEvent::Done(response()), "m").unwrap();
    assert!(acc.feed(&end).is_none());
    let back = acc.into_response("m", 1);
    assert_eq!(back.content, "Done.");
    assert_eq!(back.usage.total_tokens, 15);
    same_calls(&back.tool_calls, &response().tool_calls);
}

#[test]
fn responses_events_are_read_back() {
    let mut acc = stream::OpenAiResponsesAccumulator::new();
    for event in [
        StreamEvent::Delta("Do".to_string()),
        StreamEvent::Delta("ne.".to_string()),
        call_event(0, ""),
        call_event(0, r#"{"at":"#),
        call_event(0, r#""x"}"#),
    ] {
        let sent = stream::responses_format_sse(&event, "m").unwrap();
        let read = acc.feed(&sent);
        assert_eq!(event_text(&read), event_text(&Some(event)));
    }
    let end = stream::responses_format_sse(&StreamEvent::Done(response()), "m").unwrap();
    assert!(acc.feed(&end).is_none());
    let back = acc.into_response("m", 1);
    assert_eq!(back.content, "Done.");
    assert_eq!(back.usage.prompt_tokens, 7);
    same_calls(&back.tool_calls, &response().tool_calls);
}

#[test]
fn gemini_events_are_read_back() {
    let mut acc = stream::GoogleAccumulator::new();
    for event in [
        StreamEvent::Delta("Do".to_string()),
        StreamEvent::Delta("ne.".to_string()),
        call_event(0, r#"{"at":"x"}"#),
    ] {
        let sent = stream::google_format_sse(&event, "m").unwrap();
        let read = acc.feed(&sent);
        assert_eq!(event_text(&read), event_text(&Some(event)));
    }
    let mut last = response();
    last.content = String::new();
    last.tool_calls.clear();
    let end = stream::google_format_sse(&StreamEvent::Done(last), "m").unwrap();
    assert!(acc.feed(&end).is_none());
    let back = acc.into_response("m", 1);
    assert_eq!(back.content, "Done.");
    assert_eq!(back.finish_reason, "stop");
    assert_eq!(back.usage.completion_tokens, 8);
    same_calls(&back.tool_calls, &response().tool_calls);
}

#[test]
fn payloads_are_never_empty() {
    let chunk = "data: \ndata: [DONE]\n\ndata: a\r\nevent: b\ndata:c\ndata:  d \n";
    assert_eq!(stream::parse_sse_lines(chunk), vec!["a", "d"]);
}

#[test]
fn pieces_of_a_stream_have_its_payloads() {
    for (a, b) in [
        ("data: 1\r", "data: 2\n"),
        ("", "data: 1"),
        ("data: 1\n", ""),
        ("data: 1\ndata: \r", "event: x\ndata: 2"),
    ] {
        let whole = format!("{a}\n{b}");
        let mut parts = stream::parse_sse_lines(a);
        parts.extend(stream::parse_sse_lines(b));
        assert_eq!(stream::parse_sse_lines(&whole), parts);
    }
}

#[test]
fn every_tool_is_offered_under_its_name() {
    let offered: Vec<_> =
        mcp::tool_catalog().iter().map(|t| mcp::tool_named(t.name).unwrap()).collect();
    assert_eq!(
        offered,
        vec![
            mcp::PanelTool::Fusion,
            mcp::PanelTool::Diff,
            mcp::PanelTool::Bench,
            mcp::PanelTool::Session,
        ]
    );
}

// ---------------------------------------------------------------------------
// Tool chains
// ---------------------------------------------------------------------------

#[test]
fn workers_of_every_protocol_are_shown_the_tool_chain() {
    let body = |api| {
        value_of(&worker(api).build_request_body_with_gemini_shadow(&chain(), &vec![]))
    };
    let chat = body(ApiProtocol::OpenaiCompletions);
    assert_eq!(chat["messages"][1]["tool_calls"][0]["id"], "call_1");
    assert_eq!(chat["messages"][1]["tool_calls"][0]["function"]["arguments"], r#"{"at":"x"}"#);
    assert_eq!(chat["messages"][2]["tool_call_id"], "call_1");
    let responses = body(ApiProtocol::OpenaiResponses);
    assert_eq!(responses["input"][1]["call_id"], "call_1");
    assert_eq!(responses["input"][1]["name"], "look");
    assert_eq!(responses["input"][2]["output"], "nothing");
    let anthropic = body(ApiProtocol::AnthropicMessages);
    assert_eq!(anthropic["messages"][1]["content"][0]["input"]["at"], "x");
    assert_eq!(anthropic["messages"][2]["content"][0]["tool_use_id"], "call_1");
    let gemini = body(ApiProtocol::GoogleGenerativeAi);
    let shown = &gemini["contents"][1]["parts"][0]["functionCall"];
    assert_eq!((&shown["id"], &shown["name"]), (&Value::from("call_1"), &Value::from("look")));
    let seen = &gemini["contents"][2]["parts"][0]["functionResponse"];
    assert_eq!(seen["name"], "look");
    assert_eq!(seen["response"]["content"], "nothing");
}

#[test]
fn thinking_is_asked_for_in_every_protocol() {
    let mut ir = chain();
    ir.thinking = Some(ThinkingConfig {
        effort: ThinkingEffort::Low,
        budget_tokens: Some(64),
        summary: false,
    });
    let chat = value_of(&openai_completions::build_worker_body(&ir, "m"));
    assert_eq!(chat["reasoning"]["effort"], "low");
    let responses = value_of(&openai_responses::build_worker_body(&ir, "m"));
    assert_eq!(responses["reasoning"]["effort"], "low");
    let anthropic = value_of(&anthropic_messages::build_worker_body(&ir, "m"));
    assert_eq!(anthropic["thinking"]["type"], "enabled");
    assert_eq!(anthropic["thinking"]["budget_tokens"], 64);
    let gemini = value_of(&google_genai::build_worker_body(&ir, "m"));
    let config = &gemini["generationConfig"]["thinkingConfig"];
    assert_eq!(config["includeThoughts"], true);
    assert_eq!(config["thinkingBudget"], 64);
}

#[test]
fn made_up_ids_are_not_sent_and_kept_turns_are() {
    let id = google_genai::synthesize_tool_call_id();
    let mut ir = chain();
    ir.messages[1].tool_calls[0].id = id.clone();
    ir.messages[2].tool_call_id = Some(id.clone());
    let body = value_of(&google_genai::build_worker_body(&ir, "m"));
    assert!(body["contents"][1]["parts"][0]["functionCall"].get("id").is_none());
    assert!(body["contents"][2]["parts"][0]["functionResponse"].get("id").is_none());
    let content = format!(
        r#"{{"parts": [{{"thoughtSignature": "s", "functionCall": {{"id": "{id}", "name": "look", "args": {{"at": "x"}}}}}}]}}"#
    );
    let turn = GeminiAssistantTurn {
        assistant_content: tree(&content),
        tool_calls: vec![GeminiToolCallMeta {
            id: Some(id),
            name: "look".to_string(),
            args: tree(r#"{"at": "x"}"#),
            thought_signature: Some("s".to_string()),
        }],
    };
    let body = value_of(&google_genai::build_worker_body_with_shadow(&ir, "m", &vec![turn]));
    let sent = &body["contents"][1]["parts"][0];
    assert_eq!(sent["thoughtSignature"], "s");
    assert_eq!(sent["functionCall"]["args"]["at"], "x");
    assert!(sent["functionCall"].get("id").is_none());
}

#[test]
fn rectifying_again_changes_nothing() {
    let mut body = tree(
        r#"{"candidates": [{"content": {"parts": [{"functionCall": {"name": "a"}}, {"text": "t"}]}}]}"#,
    );
    google_genai::rectify_response_missing_function_call_ids(&mut body);
    let once = value_of(&body);
    assert!(once["candidates"][0]["content"]["parts"][0]["functionCall"]["id"].is_string());
    google_genai::rectify_response_missing_function_call_ids(&mut body);
    assert_eq!(value_of(&body), once);
}

// ---------------------------------------------------------------------------
// Runs
// ---------------------------------------------------------------------------

#[test]
fn runs_are_dated_in_universal_time() {
    let run = engine::conclude(
        engine::new_session_id(),
        &chain(),
        vec![],
        false,
        None,
        Usd { bits: 0 },
        1,
    );
    assert!(run.timestamp.ends_with("+00:00"));
    assert!(run.timestamp.len() > 20);
    assert_eq!(run.session_id.as_bytes()[14], b'4');
    let kept =
        diff::archived_now("id".to_string(), &chain(), vec![], Usd { bits: 0 }, 1);
    assert!(kept.timestamp.ends_with("+00:00"));
    assert_eq!(kept.session_id, "id");
}

fn answered(name: &str, success: bool) -> WorkerResult {
    WorkerResult {
        model: "m".to_string(),
        name: name.to_string(),
        api: "openai-responses".to_string(),
        success,
        response: if success { Some(response()) } else { None },
        error: if success { None } else { Some("down".to_string()) },
    }
}

fn small_engine() -> FusionEngine {
    let config = Config::default_config("/home/u");
    FusionEngine::new(config, &Some("key".to_string())).unwrap()
}

#[test]
fn a_run_asks_workers_then_judge_then_finishes() {
    let engine = small_engine();
    let mut ir = chain();
    ir.parallel_tool_calls = Some(true);
    let (mut run, step) = AdvisoryRun::begin(&engine, ir, &vec!["critical".to_string()], true);
    match step {
        RunStep::AskWorkers { workers, request } => {
            assert_eq!(workers.len(), 1);
            assert_eq!(workers[0].name, "critical");
            assert_eq!(request.parallel_tool_calls, None);
        }
        other => panic!("unexpected step {other:?}"),
    }
    match run.workers_answered(vec![answered("critical", true)]) {
        RunStep::AskJudge { request } => {
            assert_eq!(request.messages.len(), 4);
            assert!(request.messages[0].content.contains("Done."));
        }
        other => panic!("unexpected step {other:?}"),
    }
    assert!(matches!(run.judge_answered(Ok(answered("judge", true))), RunStep::Finish));
    let result = run.finish(Usd { bits: 1.5f64.to_bits() }, 9);
    assert_eq!(result.synthesis.as_deref(), Some("Done."));
    assert_eq!((result.models_succeeded, result.models_failed), (1, 0));
    assert_eq!(f64::from_bits(result.total_cost_usd.bits), 1.5);
    assert_eq!(result.original_prompt, "Look.");
    same_calls(&result.passthrough_tool_calls, &response().tool_calls);
}

#[test]
fn a_run_without_judge_or_quorum_ends_early() {
    let engine = small_engine();
    let (mut run, _) = AdvisoryRun::begin(&engine, chain(), &vec![], false);
    assert!(matches!(run.workers_answered(vec![answered("a", true)]), RunStep::Finish));
    let (mut run, _) = AdvisoryRun::begin(&engine, chain(), &vec![], true);
    match run.workers_answered(vec![answered("a", false)]) {
        RunStep::Stop(e) => {
            assert!(matches!(
                e,
                OpenFusionError::InsufficientWorkers { success_count: 0, total: 1, min: 1, .. }
            ));
        }
        other => panic!("unexpected step {other:?}"),
    }
    match run.judge_answered(Err(OpenFusionError::NoApiKey)) {
        RunStep::Stop(e) => assert!(matches!(e, OpenFusionError::NoApiKey)),
        other => panic!("unexpected step {other:?}"),
    }
}

#[test]
fn an_exchange_keeps_the_turn_of_its_session() {
    let w = worker(ApiProtocol::GoogleGenerativeAi).with_name("gem".to_string());
    let mut kept = GeminiShadowStore::default();
    let mut ir = request(vec![said(Role::User, "Look.")]);
    ir.session_id = Some("s1".to_string());
    let errand = w.errand(&ir, &kept);
    assert_eq!(errand.url, "http://h/v1beta/models/m:generateContent");
    assert_eq!(errand.authorization, "Bearer k");
    assert_eq!(errand.provider_id, "google-generative-ai:m");
    let answer = tree(
        r#"{"candidates": [{"content": {"role": "model", "parts": [
            {"thoughtSignature": "sig", "functionCall": {"name": "look", "args": {"at": "x"}}}]}}]}"#,
    );
    let result = w.settle(&errand, answer, 5, None, &mut kept).unwrap();
    assert_eq!(result.name, "gem");
    let made = &result.response.unwrap().tool_calls;
    assert!(google_genai::is_synthesized_tool_call_id(&made[0].id));
    let mut again = said(Role::Assistant, "");
    again.tool_calls = made.clone();
    ir.messages.push(again);
    let next = value_of(&w.errand(&ir, &kept).body);
    assert_eq!(next["contents"][1]["parts"][0]["thoughtSignature"], "sig");
    ir.session_id = Some("s2".to_string());
    let other = value_of(&w.errand(&ir, &kept).body);
    assert!(other["contents"][1]["parts"][0].get("thoughtSignature").is_none());
}

#[test]
fn an_answer_that_cannot_be_read_keeps_nothing() {
    let w = worker(ApiProtocol::GoogleGenerativeAi);
    let mut kept = GeminiShadowStore::default();
    let mut ir = request(vec![said(Role::User, "Look.")]);
    ir.session_id = Some("s1".to_string());
    let errand = w.errand(&ir, &kept);
    let e = w.settle(&errand, tree("{}"), 5, None, &mut kept).unwrap_err();
    assert_eq!(e.message(), "Invalid protocol conversion: missing candidates[0]");
    assert!(kept.get_session(&errand.provider_id, "s1").is_none());
}

#[test]
fn anthropic_thinking_settings_are_read_back() {
    let read = |effort, budget| {
        let mut ir = chain();
        ir.thinking =
            Some(ThinkingConfig { effort, budget_tokens: budget, summary: false });
        let body = anthropic_messages::build_worker_body(&ir, "m");
        let request = anthropic_messages::MessagesRequest {
            model: "m".to_string(),
            system: None,
            messages: vec![anthropic_messages::AnthropicMessage {
                role: "user".to_string(),
                content: anthropic_messages::AnthropicContent::Text("Look.".to_string()),
            }],
            max_tokens: 8,
            temperature: None,
            top_p: None,
            stop_sequences: vec![],
            api_key: None,
            tools: vec![],
            tool_choice: None,
            thinking: Some(body.at("thinking").clone()),
            stream: false,
            metadata: JsonMap::new(),
            extra: JsonMap::new(),
        };
        let back = anthropic_messages::to_intermediate(request).unwrap().thinking.unwrap();
        (back.effort, back.budget_tokens)
    };
    assert_eq!(read(ThinkingEffort::Disabled, Some(9)), (ThinkingEffort::Disabled, None));
    assert_eq!(read(ThinkingEffort::Adaptive, None), (ThinkingEffort::Adaptive, None));
    assert_eq!(read(ThinkingEffort::Low, Some(9)), (ThinkingEffort::High, Some(9)));
    assert_eq!(read(ThinkingEffort::Max, Some(0)), (ThinkingEffort::Disabled, Some(0)));
    assert_eq!(read(ThinkingEffort::Medium, None), (ThinkingEffort::High, Some(-1)));
}
