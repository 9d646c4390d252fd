//! Requests, responses and streams in the four wire protocols.

use openfusion::json;
use openfusion::json::{Json, JsonMap};
use openfusion::protocol::anthropic_messages;
use openfusion::protocol::gemini_shadow::{GeminiShadowStore, GeminiToolCallMeta};
use openfusion::protocol::google_genai;
use openfusion::protocol::openai_completions;
use openfusion::protocol::openai_responses;
use openfusion::protocol::stream;
use openfusion::protocol::{
    IntermediateRequest, IntermediateResponse, Message, Role, Single, StreamEvent,
    ThinkingConfig, ThinkingEffort, ToolCall, ToolDef, Usage, Usd,
};
use serde_json::Value;

const PROTOCOLS: [&str; 4] = ["chat", "responses", "anthropic", "gemini"];
const TOOL_PHASES: [&str; 4] = ["tool_declared", "tool_call", "tool_result", "full_chain"];

// ---------------------------------------------------------------------------
// Values
// ---------------------------------------------------------------------------

fn value(text: &str) -> Value {
    serde_json::from_str(text).unwrap()
}

fn tree(text: &str) -> Json {
    json::parse(text).unwrap()
}

fn tree_of(v: &Value) -> Json {
    json::from_value(v.clone())
}

fn value_of(j: &Json) -> Value {
    json::to_value(j)
}

fn single(x: f32) -> Single {
    Single { bits: x.to_bits(), text: x.to_string(), json: json::from_value(Value::from(x)) }
}

fn text_of(v: &Value) -> Option<String> {
    v.as_str().map(|s| s.to_string())
}

fn texts_of(v: &Value) -> Vec<String> {
    match v.as_array() {
        Some(items) => items.iter().map(|s| s.as_str().unwrap().to_string()).collect(),
        None => vec![],
    }
}

fn single_of(v: &Value) -> Option<Single> {
    v.as_f64().map(|x| single(x as f32))
}

fn tree_if(v: &Value) -> Option<Json> {
    if v.is_null() {
        None
    } else {
        Some(tree_of(v))
    }
}

fn members_of(v: &Value) -> JsonMap {
    let mut m = JsonMap::new();
    if let Some(object) = v.as_object() {
        for (name, member) in object {
            m.insert(name, tree_of(member));
        }
    }
    m
}

fn extra_of(v: &Value, known: &[&str]) -> JsonMap {
    let mut m = JsonMap::new();
    for (name, member) in v.as_object().unwrap() {
        if !known.contains(&name.as_str()) {
            m.insert(name, tree_of(member));
        }
    }
    m
}

fn items_of(v: &Value) -> Vec<Value> {
    v.as_array().cloned().unwrap_or_default()
}

// ---------------------------------------------------------------------------
// Requests read from JSON
// ---------------------------------------------------------------------------

fn chat_request(v: &Value) -> openai_completions::ChatCompletionRequest {
    openai_completions::ChatCompletionRequest {
        model: text_of(&v["model"]).unwrap(),
        messages: items_of(&v["messages"])
            .iter()
            .map(|m| openai_completions::ChatMessage {
                role: text_of(&m["role"]).unwrap(),
                content: match &m["content"] {
                    Value::Null => None,
                    Value::String(s) => Some(openai_completions::ChatContent::Text(s.clone())),
                    parts => Some(openai_completions::ChatContent::Parts(
                        items_of(parts)
                            .iter()
                            .map(|p| openai_completions::ContentPart {
                                kind: text_of(&p["type"]).unwrap(),
                                text: text_of(&p["text"]),
                            })
                            .collect(),
                    )),
                },
                tool_call_id: text_of(&m["tool_call_id"]),
                is_error: m["is_error"].as_bool(),
                tool_calls: items_of(&m["tool_calls"])
                    .iter()
                    .map(|c| openai_completions::ChatToolCall {
                        id: text_of(&c["id"]).unwrap(),
                        function: openai_completions::ChatToolCallFunction {
                            name: text_of(&c["function"]["name"]).unwrap_or_default(),
                            arguments: text_of(&c["function"]["arguments"]).unwrap_or_default(),
                        },
                    })
                    .collect(),
            })
            .collect(),
        max_tokens: v["max_tokens"]
            .as_u64()
            .map(|n| n as u32)
            .unwrap_or(openai_completions::default_max_tokens()),
        temperature: single_of(&v["temperature"]),
        top_p: single_of(&v["top_p"]),
        stop: texts_of(&v["stop"]),
        api_key: text_of(&v["api_key"]),
        stream: v["stream"].as_bool().unwrap_or(false),
        tools: items_of(&v["tools"])
            .iter()
            .map(|t| openai_completions::ChatTool {
                kind: text_of(&t["type"]).unwrap(),
                function: openai_completions::ChatToolFunction {
                    name: text_of(&t["function"]["name"]).unwrap(),
                    description: text_of(&t["function"]["description"]).unwrap_or_default(),
                    parameters: tree_of(&t["function"]["parameters"]),
                },
            })
            .collect(),
        tool_choice: tree_if(&v["tool_choice"]),
        parallel_tool_calls: v["parallel_tool_calls"].as_bool(),
        reasoning: v.get("reasoning").map(|r| openai_completions::ChatReasoning {
            effort: text_of(&r["effort"]),
        }),
        metadata: members_of(&v["metadata"]),
        extra: extra_of(
            v,
            &[
                "model", "messages", "max_tokens", "temperature", "top_p", "stop", "api_key",
                "stream", "tools", "tool_choice", "parallel_tool_calls", "reasoning", "metadata",
            ],
        ),
    }
}

fn responses_request(v: &Value) -> openai_responses::ResponsesRequest {
    let input = match &v["input"] {
        Value::String(s) => openai_responses::ResponsesInput::Text(s.clone()),
        items => openai_responses::ResponsesInput::Items(
            items_of(items)
                .iter()
                .map(|item| match item["type"].as_str().unwrap() {
                    "message" => openai_responses::ResponsesInputItem::Message {
                        role: text_of(&item["role"]).unwrap(),
                        content: match &item["content"] {
                            Value::String(s) => {
                                openai_responses::ResponsesMessageContent::Text(s.clone())
                            }
                            Value::Null => openai_responses::ResponsesMessageContent::default(),
                            blocks => openai_responses::ResponsesMessageContent::Blocks(
                                items_of(blocks)
                                    .iter()
                                    .map(|b| openai_responses::ResponsesContentBlock {
                                        kind: text_of(&b["type"]),
                                        text: text_of(&b["text"]),
                                    })
                                    .collect(),
                            ),
                        },
                    },
                    "function_call" => openai_responses::ResponsesInputItem::FunctionCall {
                        call_id: text_of(&item["call_id"]).unwrap(),
                        name: text_of(&item["name"]).unwrap(),
                        arguments: text_of(&item["arguments"]).unwrap_or_default(),
                    },
                    "function_call_output" => {
                        openai_responses::ResponsesInputItem::FunctionCallOutput {
                            call_id: text_of(&item["call_id"]).unwrap(),
                            output: text_of(&item["output"]).unwrap_or_default(),
                        }
                    }
                    other => panic!("unexpected item {other}"),
                })
                .collect(),
        ),
    };
    openai_responses::ResponsesRequest {
        model: text_of(&v["model"]).unwrap(),
        input,
        instructions: text_of(&v["instructions"]),
        max_output_tokens: v["max_output_tokens"]
            .as_u64()
            .map(|n| n as u32)
            .unwrap_or(openai_responses::default_max_tokens()),
        temperature: single_of(&v["temperature"]),
        top_p: single_of(&v["top_p"]),
        api_key: text_of(&v["api_key"]),
        stream: v["stream"].as_bool().unwrap_or(false),
        previous_response_id: text_of(&v["previous_response_id"]),
        tools: items_of(&v["tools"])
            .iter()
            .map(|t| openai_responses::ResponsesTool {
                kind: text_of(&t["type"]).unwrap(),
                name: text_of(&t["name"]).unwrap_or_default(),
                description: text_of(&t["description"]).unwrap_or_default(),
                parameters: tree_of(&t["parameters"]),
                input_schema: tree_of(&t["input_schema"]),
                function: t.get("function").map(|f| openai_responses::ResponsesToolFunction {
                    name: text_of(&f["name"]).unwrap(),
                    description: text_of(&f["description"]).unwrap_or_default(),
                    parameters: tree_of(&f["parameters"]),
                }),
            })
            .collect(),
        tool_choice: tree_if(&v["tool_choice"]),
        parallel_tool_calls: v["parallel_tool_calls"].as_bool(),
        reasoning: v.get("reasoning").map(|r| openai_responses::ResponsesReasoning {
            effort: text_of(&r["effort"]),
            summary: tree_if(&r["summary"]),
        }),
        metadata: members_of(&v["metadata"]),
        extra: extra_of(
            v,
            &[
                "model", "input", "instructions", "max_output_tokens", "temperature", "top_p",
                "api_key", "stream", "previous_response_id", "tools", "tool_choice",
                "parallel_tool_calls", "reasoning", "metadata",
            ],
        ),
    }
}

fn messages_request(v: &Value) -> anthropic_messages::MessagesRequest {
    anthropic_messages::MessagesRequest {
        model: text_of(&v["model"]).unwrap(),
        system: match &v["system"] {
            Value::Null => None,
            Value::String(s) => Some(anthropic_messages::AnthropicSystem::Text(s.clone())),
            blocks => Some(anthropic_messages::AnthropicSystem::Structured(
                items_of(blocks)
                    .iter()
                    .map(|b| anthropic_messages::AnthropicSystemBlock {
                        kind: text_of(&b["type"]).unwrap(),
                        text: text_of(&b["text"]).unwrap(),
                    })
                    .collect(),
            )),
        },
        messages: items_of(&v["messages"])
            .iter()
            .map(|m| anthropic_messages::AnthropicMessage {
                role: text_of(&m["role"]).unwrap(),
                content: match &m["content"] {
                    Value::String(s) => anthropic_messages::AnthropicContent::Text(s.clone()),
                    blocks => anthropic_messages::AnthropicContent::Blocks(
                        items_of(blocks)
                            .iter()
                            .map(|b| anthropic_messages::AnthropicContentBlock {
                                kind: text_of(&b["type"]).unwrap(),
                                text: text_of(&b["text"]),
                                tool_use_id: text_of(&b["tool_use_id"]),
                                content: tree_if(&b["content"]),
                                is_error: b["is_error"].as_bool(),
                                name: text_of(&b["name"]),
                                id: text_of(&b["id"]),
                                input: tree_if(&b["input"]),
                            })
                            .collect(),
                    ),
                },
            })
            .collect(),
        max_tokens: v["max_tokens"].as_u64().unwrap() as u32,
        temperature: single_of(&v["temperature"]),
        top_p: single_of(&v["top_p"]),
        stop_sequences: texts_of(&v["stop_sequences"]),
        api_key: text_of(&v["api_key"]),
        tools: items_of(&v["tools"])
            .iter()
            .map(|t| anthropic_messages::AnthropicTool {
                name: text_of(&t["name"]).unwrap(),
                description: text_of(&t["description"]),
                input_schema: tree_of(&t["input_schema"]),
            })
            .collect(),
        tool_choice: tree_if(&v["tool_choice"]),
        thinking: tree_if(&v["thinking"]),
        stream: v["stream"].as_bool().unwrap_or(false),
        metadata: members_of(&v["metadata"]),
        extra: extra_of(
            v,
            &[
                "model", "system", "messages", "max_tokens", "temperature", "top_p",
                "stop_sequences", "api_key", "tools", "tool_choice", "thinking", "stream",
                "metadata",
            ],
        ),
    }
}

fn genai_part(p: &Value) -> google_genai::GenAiPart {
    google_genai::GenAiPart {
        text: text_of(&p["text"]),
        function_call: p.get("functionCall").map(|c| google_genai::GenAiFunctionCall {
            id: text_of(&c["id"]),
            name: text_of(&c["name"]).unwrap(),
            args: tree_of(&c["args"]),
        }),
        function_response: p.get("functionResponse").map(|f| {
            google_genai::GenAiFunctionResponse {
                id: text_of(&f["id"]),
                name: text_of(&f["name"]).unwrap(),
                response: tree_of(&f["response"]),
            }
        }),
    }
}

fn genai_request(v: &Value) -> google_genai::GenAiRequest {
    google_genai::GenAiRequest {
        contents: items_of(&v["contents"])
            .iter()
            .map(|c| google_genai::GenAiContent {
                role: text_of(&c["role"]),
                parts: items_of(&c["parts"]).iter().map(genai_part).collect(),
            })
            .collect(),
        system_instruction: v.get("systemInstruction").map(|s| {
            google_genai::GenAiSystemInstruction {
                parts: items_of(&s["parts"]).iter().map(genai_part).collect(),
            }
        }),
        generation_config: v.get("generationConfig").map(|c| google_genai::GenAiConfig {
            max_output_tokens: c["maxOutputTokens"]
                .as_u64()
                .map(|n| n as u32)
                .unwrap_or(google_genai::default_max_output_tokens()),
            temperature: single_of(&c["temperature"]),
            top_p: single_of(&c["topP"]),
            stop_sequences: texts_of(&c["stopSequences"]),
            thinking_config: c.get("thinkingConfig").map(|t| google_genai::GenAiThinkingConfig {
                include_thoughts: t["includeThoughts"].as_bool(),
                thinking_budget: t["thinkingBudget"].as_i64().map(|n| n as i32),
                thinking_level: text_of(&t["thinkingLevel"]),
            }),
        }),
        api_key: text_of(&v["api_key"]),
        stream: v["stream"].as_bool().unwrap_or(false),
        tools: items_of(&v["tools"])
            .iter()
            .map(|t| google_genai::GenAiTool {
                function_declarations: items_of(&t["functionDeclarations"])
                    .iter()
                    .map(|d| google_genai::GenAiFunctionDeclaration {
                        name: text_of(&d["name"]).unwrap(),
                        description: text_of(&d["description"]).unwrap_or_default(),
                        parameters: tree_of(&d["parameters"]),
                    })
                    .collect(),
            })
            .collect(),
        tool_config: tree_if(&v["toolConfig"]),
        extra: extra_of(
            v,
            &[
                "contents", "systemInstruction", "generationConfig", "api_key", "stream", "tools",
                "toolConfig",
            ],
        ),
    }
}

// ---------------------------------------------------------------------------
// Samples
// ---------------------------------------------------------------------------

fn message(role: Role, content: &str) -> Message {
    Message {
        role,
        content: content.to_string(),
        tool_call_id: None,
        tool_is_error: None,
        tool_calls: vec![],
    }
}

fn plain_request(messages: Vec<Message>, max_tokens: u32) -> IntermediateRequest {
    IntermediateRequest {
        messages,
        max_tokens,
        temperature: None,
        top_p: None,
        stop: vec![],
        api_key: None,
        tools: vec![],
        tool_choice: None,
        parallel_tool_calls: None,
        thinking: None,
        session_id: None,
        system: None,
        stream: false,
        metadata: JsonMap::new(),
        native: JsonMap::new(),
    }
}

fn sample_call() -> ToolCall {
    ToolCall {
        id: "call_1".into(),
        name: "inspect_input".into(),
        arguments: tree(r#"{"path": "sample-target"}"#),
    }
}

fn sample_request(stream: bool) -> IntermediateRequest {
    let mut metadata = JsonMap::new();
    metadata.insert("trace_id", Json::text("trace-1"));
    IntermediateRequest {
        messages: vec![
            message(Role::System, "system"),
            message(Role::User, "read sample-target"),
            Message {
                role: Role::Assistant,
                content: "I will inspect it.".into(),
                tool_call_id: None,
                tool_is_error: None,
                tool_calls: vec![sample_call()],
            },
            Message {
                role: Role::Tool,
                content: "fn main() {}".into(),
                tool_call_id: Some("call_1".into()),
                tool_is_error: None,
                tool_calls: vec![],
            },
        ],
        max_tokens: 512,
        temperature: Some(single(0.3)),
        top_p: Some(single(0.9)),
        stop: vec!["STOP".into()],
        api_key: None,
        tools: vec![ToolDef {
            name: "inspect_input".into(),
            description: "Read a file".into(),
            parameters: tree(
                r#"{"type": "object", "properties": {"path": {"type": "string"}}, "required": ["path"]}"#,
            ),
        }],
        tool_choice: Some(tree(r#"{"type": "function", "function": {"name": "inspect_input"}}"#)),
        parallel_tool_calls: Some(true),
        thinking: Some(ThinkingConfig {
            effort: ThinkingEffort::High,
            budget_tokens: Some(128),
            summary: true,
        }),
        session_id: Some("session-1".into()),
        system: None,
        stream,
        metadata,
        native: JsonMap::new(),
    }
}

fn request_for_phase(stream: bool, phase: &str) -> IntermediateRequest {
    let mut request = sample_request(stream);
    match phase {
        "tool_declared" => request.messages.truncate(2),
        "tool_call" => request.messages.truncate(3),
        "tool_result" => {
            request.messages = vec![
                request.messages[1].clone(),
                request.messages[2].clone(),
                request.messages[3].clone(),
            ];
        }
        "full_chain" => {}
        _ => unreachable!(),
    }
    request
}

fn sample_response() -> IntermediateResponse {
    IntermediateResponse {
        id: Some("resp_1".into()),
        content: "done".into(),
        status: Some("completed".into()),
        finish_reason: "stop".into(),
        usage: Usage {
            prompt_tokens: 10,
            completion_tokens: 5,
            total_tokens: 15,
            reasoning_tokens: 2,
        },
        cost_usd: Usd { bits: 0 },
        duration_ms: 1,
        model: "model".into(),
        tool_calls: vec![sample_call()],
        thinking: Some("thought".into()),
        metadata: JsonMap::new(),
        native: JsonMap::new(),
    }
}

fn response_for_phase(phase: &str) -> IntermediateResponse {
    let mut response = sample_response();
    match phase {
        "tool_declared" => response.tool_calls.clear(),
        "tool_call" | "tool_result" | "full_chain" => {}
        _ => unreachable!(),
    }
    response
}

fn source_request_ir(protocol: &str) -> IntermediateRequest {
    protocol_body_to_ir(
        protocol,
        match protocol {
            "chat" => value(
                r#"{
                    "model": "model",
                    "messages": [
                        {"role": "user", "content": "read"},
                        {"role": "assistant", "content": null, "tool_calls": [{
                            "id": "call_1",
                            "type": "function",
                            "function": {"name": "inspect_input", "arguments": "{\"path\":\"sample-target\"}"}
                        }]},
                        {"role": "tool", "tool_call_id": "call_1", "content": "ok"}
                    ],
                    "reasoning": {"effort": "high"},
                    "tools": [{"type": "function", "function": {"name": "inspect_input", "parameters": {"type": "object"}}}]
                }"#,
            ),
            "responses" => value(
                r#"{
                    "model": "model",
                    "input": [
                        {"type": "message", "role": "user", "content": "read"},
                        {"type": "function_call", "call_id": "call_1", "name": "inspect_input", "arguments": "{\"path\":\"sample-target\"}"},
                        {"type": "function_call_output", "call_id": "call_1", "output": "ok"}
                    ],
                    "reasoning": {"effort": "high", "summary": "auto"},
                    "tools": [{"type": "function", "name": "inspect_input", "parameters": {"type": "object"}}]
                }"#,
            ),
            "anthropic" => value(
                r#"{
                    "model": "model",
                    "max_tokens": 512,
                    "messages": [
                        {"role": "assistant", "content": [{"type": "tool_use", "id": "call_1", "name": "inspect_input", "input": {"path": "sample-target"}}]},
                        {"role": "user", "content": [{"type": "tool_result", "tool_use_id": "call_1", "content": "ok"}]}
                    ],
                    "thinking": {"type": "enabled", "budget_tokens": 128},
                    "tools": [{"name": "inspect_input", "input_schema": {"type": "object"}}]
                }"#,
            ),
            "gemini" => value(
                r#"{
                    "contents": [
                        {"role": "model", "parts": [{"functionCall": {"id": "call_1", "name": "inspect_input", "args": {"path": "sample-target"}}}]},
                        {"role": "user", "parts": [{"functionResponse": {"id": "call_1", "name": "inspect_input", "response": {"content": "ok"}}}]}
                    ],
                    "generationConfig": {"thinkingConfig": {"includeThoughts": true, "thinkingBudget": 128}}
                }"#,
            ),
            _ => unreachable!(),
        },
    )
}

fn protocol_body_to_ir(protocol: &str, body: Value) -> IntermediateRequest {
    match protocol {
        "chat" => openai_completions::to_intermediate(chat_request(&body)).unwrap(),
        "responses" => openai_responses::to_intermediate(responses_request(&body)).unwrap(),
        "anthropic" => anthropic_messages::to_intermediate(messages_request(&body)).unwrap(),
        "gemini" => google_genai::to_intermediate(genai_request(&body), "model").unwrap(),
        _ => unreachable!(),
    }
}

fn ir_to_protocol_body(protocol: &str, ir: &IntermediateRequest) -> Value {
    value_of(&match protocol {
        "chat" => openai_completions::build_worker_body(ir, "model"),
        "responses" => openai_responses::build_worker_body(ir, "model"),
        "anthropic" => anthropic_messages::build_worker_body(ir, "model"),
        "gemini" => google_genai::build_worker_body(ir, "model"),
        _ => unreachable!(),
    })
}

fn protocol_response_to_ir(protocol: &str, body: Value) -> IntermediateResponse {
    let mut body = tree_of(&body);
    match protocol {
        "chat" => openai_completions::parse_worker_response(&body, "model", 1, None),
        "responses" => openai_responses::parse_worker_response(&body, "model", 1, None),
        "anthropic" => anthropic_messages::parse_worker_response(&body, "model", 1, None),
        "gemini" => {
            google_genai::rectify_response_missing_function_call_ids(&mut body);
            google_genai::parse_worker_response(&body, "model", 1, None)
        }
        _ => unreachable!(),
    }
    .unwrap()
    .response
    .unwrap()
}

fn ir_to_protocol_response(protocol: &str, ir: IntermediateResponse) -> Value {
    value_of(&match protocol {
        "chat" => openai_completions::from_intermediate(ir, "model").to_json(),
        "responses" => openai_responses::from_intermediate(ir, "model").to_json(),
        "anthropic" => anthropic_messages::from_intermediate(ir, "model").to_json(),
        "gemini" => google_genai::from_intermediate(ir),
        _ => unreachable!(),
    })
}

fn protocol_stream_events(response: IntermediateResponse) -> Vec<StreamEvent> {
    let mut events = Vec::new();
    events.push(StreamEvent::Delta(response.content.clone()));
    for (index, tc) in response.tool_calls.iter().enumerate() {
        events.push(StreamEvent::ToolCallDelta {
            index: index as u32,
            id: tc.id.clone(),
            name: tc.name.clone(),
            arguments: String::new(),
        });
        events.push(StreamEvent::ToolCallDelta {
            index: index as u32,
            id: tc.id.clone(),
            name: tc.name.clone(),
            arguments: json::to_text(&tc.arguments),
        });
    }
    events.push(StreamEvent::Done(response));
    events
}

fn format_stream_event(protocol: &str, event: &StreamEvent) -> String {
    match protocol {
        "chat" => stream::openai_format_sse(event, "model").unwrap(),
        "responses" => stream::responses_format_sse(event, "model").unwrap(),
        "anthropic" => stream::anthropic_format_sse(event, "model").unwrap(),
        "gemini" => stream::google_format_sse(event, "model").unwrap(),
        _ => unreachable!(),
    }
}

fn assert_body_supports_judge_phase(protocol: &str, body: &Value, phase: &str) {
    let text = body.to_string();
    assert!(
        text.contains("inspect_input"),
        "{protocol} body lost judge tool name for {phase}: {text}"
    );
    if phase != "tool_declared" {
        assert!(
            text.contains("call_1") || protocol == "gemini",
            "{protocol} body lost judge tool id for {phase}: {text}"
        );
    }
    if matches!(phase, "tool_result" | "full_chain") {
        assert!(
            text.contains("fn main() {}") || text.contains("ok"),
            "{protocol} body lost judge tool result for {phase}: {text}"
        );
    }
}

fn assert_response_supports_judge_phase(protocol: &str, body: &Value, phase: &str) {
    let text = body.to_string();
    if phase == "tool_declared" {
        assert!(text.contains("done"), "{protocol} response lost text: {text}");
        return;
    }
    assert!(
        text.contains("inspect_input"),
        "{protocol} response lost judge tool name for {phase}: {text}"
    );
    assert!(
        text.contains("call_1") || protocol == "gemini",
        "{protocol} response lost judge tool id for {phase}: {text}"
    );
}

fn assert_stream_supports_judge_phase(protocol: &str, events: &[String], phase: &str) {
    let text = events.join("\n");
    assert!(text.contains("done"), "{protocol} stream lost text: {text}");
    if phase != "tool_declared" {
        assert!(
            text.contains("inspect_input"),
            "{protocol} stream lost judge tool name for {phase}: {text}"
        );
        assert!(
            text.contains("call_1") || protocol == "gemini",
            "{protocol} stream lost judge tool id for {phase}: {text}"
        );
    }
}

fn assert_target_body_has_tool_chain(target: &str, ir: &IntermediateRequest) {
    let body = ir_to_protocol_body(target, ir);
    if target != "gemini" {
        assert!(body.to_string().contains("call_1"));
    }
    assert!(body.to_string().contains("inspect_input"));
}

fn source_response_ir(protocol: &str) -> IntermediateResponse {
    protocol_response_to_ir(
        protocol,
        match protocol {
            "chat" => value(
                r#"{
                    "id": "chatcmpl_1",
                    "choices": [{
                        "message": {
                            "role": "assistant",
                            "content": "done",
                            "tool_calls": [{
                                "id": "call_1",
                                "type": "function",
                                "function": {"name": "inspect_input", "arguments": "{\"path\":\"sample-target\"}"}
                            }]
                        },
                        "finish_reason": "tool_calls"
                    }],
                    "usage": {"prompt_tokens": 1, "completion_tokens": 1, "total_tokens": 2}
                }"#,
            ),
            "responses" => value(
                r#"{
                    "id": "resp_1",
                    "status": "completed",
                    "output": [
                        {"type": "message", "content": [{"type": "output_text", "text": "done"}]},
                        {"type": "function_call", "call_id": "call_1", "name": "inspect_input", "arguments": "{\"path\":\"sample-target\"}"}
                    ],
                    "usage": {"input_tokens": 1, "output_tokens": 1, "total_tokens": 2}
                }"#,
            ),
            "anthropic" => value(
                r#"{
                    "id": "msg_1",
                    "content": [
                        {"type": "text", "text": "done"},
                        {"type": "tool_use", "id": "call_1", "name": "inspect_input", "input": {"path": "sample-target"}}
                    ],
                    "stop_reason": "tool_use",
                    "usage": {"input_tokens": 1, "output_tokens": 1}
                }"#,
            ),
            "gemini" => value(
                r#"{
                    "responseId": "gen_1",
                    "candidates": [{
                        "content": {"parts": [
                            {"text": "done"},
                            {"functionCall": {"id": "call_1", "name": "inspect_input", "args": {"path": "sample-target"}}}
                        ]},
                        "finishReason": "STOP"
                    }],
                    "usageMetadata": {"promptTokenCount": 1, "candidatesTokenCount": 1, "totalTokenCount": 2}
                }"#,
            ),
            _ => unreachable!(),
        },
    )
}

fn assert_target_response_has_tool_call(target: &str, ir: IntermediateResponse) {
    let v = ir_to_protocol_response(target, ir);
    if target != "gemini" {
        assert!(v.to_string().contains("call_1"));
    }
    assert!(v.to_string().contains("inspect_input"));
}

// ---------------------------------------------------------------------------
// All protocols
// ---------------------------------------------------------------------------

#[test]
fn all_protocol_worker_bodies_preserve_judge_tool_chain_non_stream_and_stream() {
    for stream in [false, true] {
        let ir = sample_request(stream);

        let chat = ir_to_protocol_body("chat", &ir);
        assert_eq!(chat["tools"][0]["function"]["name"], "inspect_input");
        assert_eq!(chat["messages"][2]["tool_calls"][0]["id"], "call_1");
        assert_eq!(chat["messages"][3]["tool_call_id"], "call_1");
        if stream {
            assert_eq!(chat["stream"], Value::Bool(true));
        } else {
            assert!(chat.get("stream").is_none());
        }

        let responses = ir_to_protocol_body("responses", &ir);
        assert_eq!(responses["tools"][0]["name"], "inspect_input");
        assert!(responses["input"].as_array().unwrap().iter().any(|item| {
            item["type"] == "function_call"
                && item["call_id"] == "call_1"
                && item["name"] == "inspect_input"
        }));
        assert!(responses["input"]
            .as_array()
            .unwrap()
            .iter()
            .any(|item| item["type"] == "function_call_output" && item["call_id"] == "call_1"));
        if stream {
            assert_eq!(responses["stream"], Value::Bool(true));
        } else {
            assert!(responses.get("stream").is_none());
        }

        let anthropic = ir_to_protocol_body("anthropic", &ir);
        assert_eq!(anthropic["tools"][0]["name"], "inspect_input");
        assert_eq!(anthropic["messages"][1]["content"][1]["id"], "call_1");
        assert_eq!(anthropic["messages"][2]["content"][0]["tool_use_id"], "call_1");
        if stream {
            assert_eq!(anthropic["stream"], Value::Bool(true));
        } else {
            assert!(anthropic.get("stream").is_none());
        }

        let gemini = ir_to_protocol_body("gemini", &ir);
        assert_eq!(gemini["tools"][0]["functionDeclarations"][0]["name"], "inspect_input");
        assert_eq!(
            gemini["contents"][2]["parts"][0]["functionResponse"]["name"],
            "inspect_input"
        );
        if stream {
            assert_eq!(gemini["stream"], Value::Bool(true));
        } else {
            assert!(gemini.get("stream").is_none());
        }
    }
}

#[test]
fn all_protocol_worker_bodies_preserve_thinking_config() {
    let ir = sample_request(false);

    let chat = ir_to_protocol_body("chat", &ir);
    assert_eq!(chat["reasoning"]["effort"], "high");

    let responses = ir_to_protocol_body("responses", &ir);
    assert_eq!(responses["reasoning"]["effort"], "high");
    assert_eq!(responses["reasoning"]["summary"], "auto");

    let anthropic = ir_to_protocol_body("anthropic", &ir);
    assert_eq!(anthropic["thinking"]["type"], "enabled");
    assert_eq!(anthropic["thinking"]["budget_tokens"], 128);

    let gemini = ir_to_protocol_body("gemini", &ir);
    assert_eq!(gemini["generationConfig"]["thinkingConfig"]["includeThoughts"], true);
    assert_eq!(gemini["generationConfig"]["thinkingConfig"]["thinkingBudget"], 128);
}

#[test]
fn all_protocol_sources_preserve_thinking_config_in_ir() {
    for source in PROTOCOLS {
        let ir = source_request_ir(source);
        let thinking = ir
            .thinking
            .as_ref()
            .unwrap_or_else(|| panic!("{source} source lost thinking config"));
        assert_ne!(
            thinking.effort,
            ThinkingEffort::Disabled,
            "{source} source unexpectedly disabled thinking"
        );
    }
}

#[test]
fn all_protocol_responses_preserve_tool_calls() {
    let ir = sample_response();

    let chat = ir_to_protocol_response("chat", ir.clone());
    assert_eq!(chat["choices"][0]["message"]["content"], "done");

    let responses = ir_to_protocol_response("responses", ir.clone());
    assert!(responses["output"]
        .as_array()
        .unwrap()
        .iter()
        .any(|item| item["type"] == "function_call" && item["call_id"] == "call_1"));

    let anthropic = ir_to_protocol_response("anthropic", ir.clone());
    assert!(anthropic["content"]
        .as_array()
        .unwrap()
        .iter()
        .any(|item| item["type"] == "tool_use" && item["id"] == "call_1"));

    let gemini = ir_to_protocol_response("gemini", ir);
    assert!(gemini["candidates"][0]["content"]["parts"]
        .as_array()
        .unwrap()
        .iter()
        .any(|part| part["functionCall"]["name"] == "inspect_input"));
}

#[test]
fn request_body_protocol_matrix_preserves_judge_tool_chain() {
    for source in PROTOCOLS {
        let ir = source_request_ir(source);
        assert!(
            ir.messages.iter().any(|m| !m.tool_calls.is_empty())
                || ir.messages.iter().any(|m| m.role == Role::Tool),
            "source {source} did not produce tool-capable IR"
        );
        for target in PROTOCOLS {
            assert_target_body_has_tool_chain(target, &ir);
        }
    }
}

#[test]
fn response_protocol_matrix_preserves_tool_calls() {
    for source in PROTOCOLS {
        let ir = source_response_ir(source);
        assert!(
            !ir.tool_calls.is_empty(),
            "source {source} did not produce response tool_calls"
        );
        for target in PROTOCOLS {
            assert_target_response_has_tool_call(target, ir.clone());
        }
    }
}

#[test]
fn stream_protocol_formatters_preserve_tool_calls_and_done_payloads() {
    let delta_start = StreamEvent::ToolCallDelta {
        index: 0,
        id: "call_1".into(),
        name: "inspect_input".into(),
        arguments: String::new(),
    };
    let delta_args = StreamEvent::ToolCallDelta {
        index: 0,
        id: "call_1".into(),
        name: "inspect_input".into(),
        arguments: "{\"path\":\"sample-target\"}".into(),
    };
    let text_delta = StreamEvent::Delta("done".into());
    let done = StreamEvent::Done(sample_response());

    for event in [text_delta, delta_start, delta_args, done] {
        let expects_tool = matches!(event, StreamEvent::ToolCallDelta { .. });
        let expects_text = matches!(event, StreamEvent::Delta(_));
        let anthropic = stream::anthropic_format_sse(&event, "model").unwrap();
        if expects_tool {
            assert!(
                anthropic.contains("inspect_input") || anthropic.contains("sample-target"),
                "{anthropic}"
            );
        } else if expects_text {
            assert!(anthropic.contains("done"));
        } else {
            assert!(anthropic.contains("stop"));
        }

        let chat = stream::openai_format_sse(&event, "model").unwrap();
        if expects_tool {
            assert!(
                chat.contains("inspect_input") || chat.contains("sample-target"),
                "{chat}"
            );
        } else if expects_text {
            assert!(chat.contains("done"));
        } else {
            assert!(chat.contains("stop") || chat.contains("finish_reason"));
        }

        let responses = stream::responses_format_sse(&event, "model").unwrap();
        if expects_tool {
            assert!(
                responses.contains("inspect_input") || responses.contains("sample-target"),
                "{responses}"
            );
        } else if expects_text {
            assert!(responses.contains("done"));
        } else {
            assert!(responses.contains("response.completed"));
        }

        let google = stream::google_format_sse(&event, "model").unwrap();
        if expects_tool {
            assert!(
                google.contains("inspect_input") || google.contains("sample-target"),
                "{google}"
            );
        } else if expects_text {
            assert!(google.contains("done"));
        } else {
            assert!(google.contains("finishReason") || google.contains("STOP"));
        }
    }
}

#[test]
fn protocol_ir_matrix_covers_1024_body_response_stream_tool_scenarios() {
    let mut covered = 0usize;

    for source_body in PROTOCOLS {
        for target_body in PROTOCOLS {
            for source_response in PROTOCOLS {
                for target_response in PROTOCOLS {
                    for stream in [false, true] {
                        for phase in TOOL_PHASES {
                            let source_ir = request_for_phase(stream, phase);
                            let source_body_value = ir_to_protocol_body(source_body, &source_ir);
                            let intermediate = protocol_body_to_ir(source_body, source_body_value);
                            let target_body_value =
                                ir_to_protocol_body(target_body, &intermediate);
                            assert_body_supports_judge_phase(
                                target_body,
                                &target_body_value,
                                phase,
                            );

                            let response_ir = response_for_phase(phase);
                            let response_body =
                                ir_to_protocol_response(source_response, response_ir);
                            let intermediate_response =
                                protocol_response_to_ir(source_response, response_body);
                            let target_response_value = if stream {
                                let events = protocol_stream_events(intermediate_response)
                                    .into_iter()
                                    .map(|event| format_stream_event(target_response, &event))
                                    .collect::<Vec<_>>();
                                assert_stream_supports_judge_phase(
                                    target_response,
                                    &events,
                                    phase,
                                );
                                Value::String(events.join("\n"))
                            } else {
                                let v = ir_to_protocol_response(
                                    target_response,
                                    intermediate_response,
                                );
                                assert_response_supports_judge_phase(target_response, &v, phase);
                                v
                            };
                            assert!(
                                !target_response_value.to_string().is_empty(),
                                "{source_body}->{target_body}, {source_response}->{target_response}, stream={stream}, phase={phase}"
                            );
                            covered += 1;
                        }
                    }
                }
            }
        }
    }

    assert_eq!(covered, 4 * 4 * 4 * 4 * 2 * 4);
}

// ---------------------------------------------------------------------------
// Anthropic messages
// ---------------------------------------------------------------------------

#[test]
fn anthropic_tool_result_preserves_is_error_and_flattens_content_blocks() {
    let req = messages_request(&value(
        r#"{
            "model": "sonnet",
            "max_tokens": 128,
            "messages": [{
                "role": "user",
                "content": [{
                    "type": "tool_result",
                    "tool_use_id": "toolu_1",
                    "is_error": true,
                    "content": [
                        {"type": "text", "text": "first"},
                        {"type": "text", "text": "second"},
                        {"json": true}
                    ]
                }]
            }]
        }"#,
    ));

    let ir = anthropic_messages::to_intermediate(req).unwrap();
    let tool = ir.messages.iter().find(|m| m.role == Role::Tool).unwrap();
    assert_eq!(tool.tool_call_id.as_deref(), Some("toolu_1"));
    assert_eq!(tool.tool_is_error, Some(true));
    assert_eq!(tool.content, "first\nsecond\n{\"json\":true}");

    let body = value_of(&anthropic_messages::build_worker_body(&ir, "sonnet"));
    assert_eq!(body["messages"][0]["content"][0]["is_error"], true);
    assert_eq!(body["messages"][0]["content"][0]["content"], tool.content);
}

#[test]
fn anthropic_worker_body_omits_null_temperature_and_empty_stop_sequences() {
    let ir = plain_request(vec![message(Role::User, "hello")], 128);
    let body = value_of(&anthropic_messages::build_worker_body(&ir, "sonnet"));
    assert!(body.get("temperature").is_none());
    assert!(body.get("stop_sequences").is_none());
}

#[test]
fn anthropic_system_blocks_become_one_prompt() {
    let req = messages_request(&value(
        r#"{
            "model": "sonnet", "max_tokens": 1,
            "system": [{"type": "text", "text": "a"}, {"type": "image", "text": "x"}, {"type": "text", "text": "b"}],
            "messages": [{"role": "user", "content": "hi"}],
            "top_k": 7
        }"#,
    ));
    let ir = anthropic_messages::to_intermediate(req).unwrap();
    assert_eq!(ir.system.as_deref(), Some("a\nb"));
    assert_eq!(ir.messages[0].role, Role::System);
    assert_eq!(ir.messages[0].content, "a\nb");
    let body = value_of(&anthropic_messages::build_worker_body(&ir, "sonnet"));
    assert_eq!(body["system"], "a\nb\na\nb");
    assert_eq!(body["top_k"], 7);
}

#[test]
fn anthropic_thinking_budget_keeps_its_low_bits() {
    let req = messages_request(&value(
        r#"{"model": "sonnet", "max_tokens": 1, "messages": [{"role": "user", "content": "hi"}],
            "thinking": {"type": "enabled", "budget_tokens": 4294967295}}"#,
    ));
    let thinking = anthropic_messages::to_intermediate(req).unwrap().thinking.unwrap();
    assert_eq!(thinking.effort, ThinkingEffort::High);
    assert_eq!(thinking.budget_tokens, Some(-1));
}

#[test]
fn anthropic_tool_choice_is_mapped() {
    let map = |text: &str| value_of(&anthropic_messages::map_tool_choice_to_anthropic(&tree(text)));
    assert_eq!(map(r#""none""#), value(r#"{"type": "none"}"#));
    assert_eq!(map(r#""required""#), value(r#"{"type": "any"}"#));
    assert_eq!(map(r#""whatever""#), value(r#"{"type": "auto"}"#));
    assert_eq!(
        map(r#"{"type": "function", "function": {"name": "f"}}"#),
        value(r#"{"type": "tool", "name": "f"}"#)
    );
    assert_eq!(map(r#"{"type": "tool", "name": "g"}"#), value(r#"{"type": "tool", "name": "g"}"#));
    assert_eq!(map("3"), value(r#"{"type": "auto"}"#));
}

#[test]
fn anthropic_adaptive_thinking_names_its_effort() {
    let mut ir = plain_request(vec![message(Role::User, "hi")], 1);
    ir.thinking = Some(ThinkingConfig {
        effort: ThinkingEffort::Adaptive,
        budget_tokens: None,
        summary: false,
    });
    let body = value_of(&anthropic_messages::build_worker_body(&ir, "sonnet"));
    assert_eq!(body["thinking"], value(r#"{"type": "adaptive"}"#));
    assert_eq!(body["output_config"], value(r#"{"effort": "adaptive"}"#));
}

#[test]
fn anthropic_response_holds_thoughts_text_and_calls_in_order() {
    let v = ir_to_protocol_response("anthropic", sample_response());
    assert_eq!(v["content"][0], value(r#"{"type": "thinking", "thinking": "thought"}"#));
    assert_eq!(v["content"][1], value(r#"{"type": "text", "text": "done"}"#));
    assert_eq!(v["content"][2]["input"], value(r#"{"path": "sample-target"}"#));
    assert_eq!(v["stop_reason"], "tool_use");
    assert_eq!(v["usage"], value(r#"{"input_tokens": 10, "output_tokens": 5}"#));
    let id = v["id"].as_str().unwrap();
    assert!(id.starts_with("openfusion-"));
    assert_eq!(id.len(), "openfusion-".len() + 36);
}

#[test]
fn anthropic_worker_response_is_read() {
    let body = tree(
        r#"{"id": "m", "content": [{"type": "thinking", "thinking": "hm"}, {"type": "text", "text": "a"}, {"type": "text", "text": "b"}],
            "usage": {"input_tokens": 4294967297, "output_tokens": 3}, "odd": 1}"#,
    );
    let wr = anthropic_messages::parse_worker_response(&body, "sonnet", 9, Some(Usd { bits: 5 }))
        .unwrap();
    assert_eq!(wr.api, "anthropic-messages");
    assert!(wr.success);
    let r = wr.response.unwrap();
    assert_eq!(r.content, "ab");
    assert_eq!(r.thinking.as_deref(), Some("hm"));
    assert_eq!(r.finish_reason, "end_turn");
    assert_eq!(r.usage.prompt_tokens, 1);
    assert_eq!(r.usage.completion_tokens, 3);
    assert_eq!(r.cost_usd, Usd { bits: 5 });
    assert_eq!(r.duration_ms, 9);
    assert_eq!(
        value_of(r.native.get("anthropic-messages").unwrap()),
        value(r#"{"odd": 1}"#)
    );
}

// ---------------------------------------------------------------------------
// Chat completions
// ---------------------------------------------------------------------------

#[test]
fn chat_request_preserves_tools_and_tool_history() {
    let req = chat_request(&value(
        r#"{
            "model": "demo",
            "messages": [
                {"role": "user", "content": "read it"},
                {
                    "role": "assistant",
                    "content": null,
                    "tool_calls": [{
                        "id": "call_1",
                        "type": "function",
                        "function": {"name": "inspect_input", "arguments": "{\"path\":\"sample-target\"}"}
                    }]
                },
                {"role": "tool", "tool_call_id": "call_1", "content": "ok"}
            ],
            "tools": [{
                "type": "function",
                "function": {"name": "inspect_input", "description": "read", "parameters": {"type": "object"}}
            }]
        }"#,
    ));

    let ir = openai_completions::to_intermediate(req).unwrap();
    assert_eq!(ir.tools.len(), 1);
    assert_eq!(ir.messages[1].role, Role::Assistant);
    assert_eq!(ir.messages[1].tool_calls[0].id, "call_1");
    assert_eq!(ir.messages[2].role, Role::Tool);
    assert_eq!(ir.messages[2].tool_call_id.as_deref(), Some("call_1"));
}

#[test]
fn chat_request_preserves_reasoning_config() {
    let req = chat_request(&value(
        r#"{
            "model": "demo",
            "messages": [{"role": "user", "content": "think"}],
            "reasoning": {"effort": "max"}
        }"#,
    ));

    let ir = openai_completions::to_intermediate(req).unwrap();
    let thinking = ir.thinking.expect("reasoning should map to thinking");
    assert_eq!(thinking.effort, ThinkingEffort::Max);
    assert!(!thinking.summary);
}

#[test]
fn chat_request_with_faults_is_refused() {
    let fault = |text: &str| {
        openai_completions::to_intermediate(chat_request(&value(text))).unwrap_err().message()
    };
    assert_eq!(
        fault(r#"{"model": "m", "messages": []}"#),
        "Invalid protocol conversion: messages must not be empty"
    );
    assert_eq!(
        fault(r#"{"model": "m", "messages": [{"role": "user", "content": "x"}], "max_tokens": 0}"#),
        "Invalid protocol conversion: max_tokens must be > 0"
    );
    assert_eq!(
        fault(r#"{"model": "m", "messages": [{"role": "user", "content": "x"}], "temperature": 2.5}"#),
        "Invalid protocol conversion: temperature must be 0.0..=2.0, got 2.5"
    );
    assert_eq!(
        fault(r#"{"model": "m", "messages": [{"role": "user", "content": "x"}], "temperature": -0.5}"#),
        "Invalid protocol conversion: temperature must be 0.0..=2.0, got -0.5"
    );
}

#[test]
fn temperatures_are_in_range_from_zero_to_two() {
    let accepted = |x: f32| {
        let mut req = chat_request(&value(
            r#"{"model": "m", "messages": [{"role": "user", "content": "x"}]}"#,
        ));
        req.temperature = Some(single(x));
        openai_completions::to_intermediate(req).is_ok()
    };
    for x in [0.0f32, -0.0, 1e-30, 0.7, 1.0, 1.9999999, 2.0] {
        assert!(accepted(x), "{x}");
    }
    for x in [-1e-30f32, 2.0000002, 3.0, f32::INFINITY, f32::NEG_INFINITY, f32::NAN, -2.0] {
        assert!(!accepted(x), "{x}");
    }
}

#[test]
fn chat_text_parts_are_joined_and_other_parts_left_out() {
    let req = chat_request(&value(
        r#"{"model": "m", "messages": [{"role": "developer", "content": [
            {"type": "text", "text": "a"}, {"type": "image_url"}, {"type": "text", "text": "b"}]}]}"#,
    ));
    let ir = openai_completions::to_intermediate(req).unwrap();
    assert_eq!(ir.messages[0].content, "a\nb");
    assert_eq!(ir.messages[0].role, Role::User);
    assert_eq!(ir.max_tokens, 2048);
}

#[test]
fn chat_worker_body_is_complete() {
    let body = ir_to_protocol_body("chat", &sample_request(true));
    assert_eq!(
        body,
        value(
            r#"{
                "model": "model",
                "messages": [
                    {"role": "system", "content": "system"},
                    {"role": "user", "content": "read sample-target"},
                    {"role": "assistant", "content": "I will inspect it.", "tool_calls": [{
                        "id": "call_1", "type": "function",
                        "function": {"name": "inspect_input", "arguments": "{\"path\":\"sample-target\"}"}}]},
                    {"role": "tool", "content": "fn main() {}", "tool_call_id": "call_1"}
                ],
                "max_tokens": 512,
                "temperature": 0.30000001192092896,
                "top_p": 0.8999999761581421,
                "stop": ["STOP"],
                "tools": [{"type": "function", "function": {
                    "name": "inspect_input", "description": "Read a file",
                    "parameters": {"type": "object", "properties": {"path": {"type": "string"}}, "required": ["path"]}}}],
                "tool_choice": {"type": "function", "function": {"name": "inspect_input"}},
                "parallel_tool_calls": true,
                "metadata": {"trace_id": "trace-1"},
                "reasoning": {"effort": "high"},
                "stream": true
            }"#
        )
    );
}

#[test]
fn chat_worker_response_without_choices_is_refused() {
    for text in [r#"{}"#, r#"{"choices": []}"#, r#"{"choices": 3}"#] {
        let e = openai_completions::parse_worker_response(&tree(text), "m", 1, None).unwrap_err();
        assert_eq!(e.message(), "Invalid protocol conversion: missing choices[0]");
    }
}

#[test]
fn chat_worker_response_reads_arguments_written_twice() {
    let body = tree(
        r#"{"choices": [{"message": {"reasoning": "hm", "tool_calls": [
            {"id": "a", "function": {"name": "f", "arguments": "\"{\\\"x\\\":1}\""}},
            {"id": "b", "function": {"name": "g", "arguments": "[1]"}},
            {"id": "c", "function": {"name": "h"}}]}}],
            "usage": {"output_tokens_details": {"reasoning_tokens": 4}}}"#,
    );
    let r = openai_completions::parse_worker_response(&body, "m", 1, None)
        .unwrap()
        .response
        .unwrap();
    assert_eq!(value_of(&r.tool_calls[0].arguments), value(r#"{"x": 1}"#));
    assert_eq!(value_of(&r.tool_calls[1].arguments), value("{}"));
    assert_eq!(value_of(&r.tool_calls[2].arguments), value("{}"));
    assert_eq!(r.thinking.as_deref(), Some("hm"));
    assert_eq!(r.usage.reasoning_tokens, 4);
    assert_eq!(r.finish_reason, "stop");
    assert_eq!(r.content, "");
}

#[test]
fn chat_response_without_text_has_null_content() {
    let mut ir = sample_response();
    ir.content = String::new();
    ir.thinking = None;
    let v = value_of(
        &openai_completions::completion(ir, "fusion", "id-1".to_string(), 77).to_json(),
    );
    assert_eq!(
        v,
        value(
            r#"{"id": "id-1", "object": "chat.completion", "created": 77, "model": "fusion",
                "choices": [{"index": 0, "message": {"role": "assistant", "content": null, "tool_calls": [
                    {"id": "call_1", "type": "function", "function": {"name": "inspect_input", "arguments": "{\"path\":\"sample-target\"}"}}]},
                    "finish_reason": "stop"}],
                "usage": {"prompt_tokens": 10, "completion_tokens": 5, "total_tokens": 15}}"#
        )
    );
}

// ---------------------------------------------------------------------------
// Responses
// ---------------------------------------------------------------------------

#[test]
fn responses_request_preserves_codex_function_tools() {
    let req = responses_request(&value(
        r#"{
            "model": "fusion",
            "input": "ask",
            "tools": [
                {
                    "type": "function",
                    "name": "request_user_input",
                    "description": "Ask user",
                    "parameters": {
                        "type": "object",
                        "properties": {"questions": {"type": "array"}}
                    }
                },
                {
                    "type": "function",
                    "function": {
                        "name": "shell_command",
                        "description": "Run shell",
                        "parameters": {"type": "object"}
                    }
                }
            ]
        }"#,
    ));

    let ir = openai_responses::to_intermediate(req).unwrap();
    assert_eq!(ir.tools.len(), 2);
    assert_eq!(ir.tools[0].name, "request_user_input");
    assert_eq!(
        value_of(&ir.tools[0].parameters)["properties"]["questions"]["type"],
        "array"
    );
    assert_eq!(ir.tools[1].name, "shell_command");
}

#[test]
fn responses_request_accepts_non_codex_tool_schema_aliases() {
    let req = responses_request(&value(
        r#"{
            "model": "fusion",
            "input": "ask",
            "tools": [
                {
                    "type": "function",
                    "name": "anthropic_style",
                    "description": "Compatibility fallback",
                    "input_schema": {"type": "object"}
                },
                {
                    "type": "function",
                    "function": {
                        "name": "chat_completions_style",
                        "description": "Compatibility fallback",
                        "parameters": {"type": "object"}
                    }
                }
            ]
        }"#,
    ));

    let ir = openai_responses::to_intermediate(req).unwrap();
    assert_eq!(ir.tools.len(), 2);
    assert_eq!(ir.tools[0].name, "anthropic_style");
    assert_eq!(ir.tools[1].name, "chat_completions_style");
}

#[test]
fn responses_request_preserves_reasoning_config() {
    let req = responses_request(&value(
        r#"{
            "model": "fusion",
            "input": "ask",
            "reasoning": {
                "effort": "high",
                "summary": "auto"
            }
        }"#,
    ));

    let ir = openai_responses::to_intermediate(req).unwrap();
    let thinking = ir.thinking.expect("reasoning should map to thinking");
    assert_eq!(thinking.effort, ThinkingEffort::High);
    assert!(thinking.summary);
}

#[test]
fn responses_request_maps_codex_reasoning_effort_aliases() {
    for (wire_effort, expected) in [
        ("none", ThinkingEffort::Disabled),
        ("minimal", ThinkingEffort::Low),
        ("low", ThinkingEffort::Low),
        ("medium", ThinkingEffort::Medium),
        ("high", ThinkingEffort::High),
        ("xhigh", ThinkingEffort::Max),
        ("max", ThinkingEffort::Max),
        ("ultra", ThinkingEffort::Max),
    ] {
        let mut req = responses_request(&value(
            r#"{"model": "fusion", "input": "ask", "reasoning": {"summary": "none"}}"#,
        ));
        req.reasoning.as_mut().unwrap().effort = Some(wire_effort.to_string());

        let ir = openai_responses::to_intermediate(req).unwrap();
        let thinking = ir.thinking.expect("reasoning should map to thinking");
        assert_eq!(thinking.effort, expected, "{wire_effort}");
        assert!(!thinking.summary, "{wire_effort}");
    }
}

#[test]
fn responses_worker_body_includes_reasoning_from_ir() {
    let mut ir = plain_request(vec![message(Role::User, "ask")], 128);
    ir.thinking = Some(ThinkingConfig {
        effort: ThinkingEffort::Max,
        budget_tokens: None,
        summary: true,
    });
    ir.stream = true;

    let body = value_of(&openai_responses::build_worker_body(&ir, "model"));
    assert_eq!(body["reasoning"]["effort"], "xhigh");
    assert_eq!(body["reasoning"]["summary"], "auto");
}

#[test]
fn responses_worker_body_moves_system_messages_to_instructions() {
    let mut ir = plain_request(
        vec![message(Role::System, "judge system"), message(Role::User, "ask")],
        128,
    );
    ir.system = Some("client instructions".into());
    ir.stream = true;

    let body = value_of(&openai_responses::build_worker_body(&ir, "model"));
    let input = body["input"].as_array().expect("input should be an array");

    assert_eq!(body["instructions"], "client instructions\n\njudge system");
    assert_eq!(input.len(), 1);
    assert_eq!(input[0]["role"], "user");
    assert!(input.iter().all(|item| item["role"].as_str() != Some("developer")));
}

#[test]
fn responses_worker_body_omits_max_output_tokens_for_codex_compatibility() {
    let mut ir = plain_request(vec![message(Role::User, "ask")], 128);
    ir.stream = true;
    let body = value_of(&openai_responses::build_worker_body(&ir, "model"));
    assert!(body.get("max_output_tokens").is_none());
}

#[test]
fn responses_repeated_context_is_said_once() {
    let env = "  <environment_context>x</environment_context>";
    let messages = vec![
        message(Role::System, "s"),
        message(Role::User, env),
        message(Role::User, "again"),
        message(Role::System, "s"),
        message(Role::User, env),
        message(Role::User, "again"),
        message(Role::System, "t"),
    ];
    let once = openai_responses::dedupe_repeated_context_messages(messages);
    let said: Vec<&str> = once.iter().map(|m| m.content.as_str()).collect();
    assert_eq!(said, vec!["s", env, "again", "again", "t"]);
    let twice = openai_responses::dedupe_repeated_context_messages(once.clone());
    let said_twice: Vec<&str> = twice.iter().map(|m| m.content.as_str()).collect();
    assert_eq!(said, said_twice);
}

#[test]
fn responses_function_calls_join_the_assistant_before_them() {
    let req = responses_request(&value(
        r#"{"model": "m", "instructions": "i", "previous_response_id": "resp_0", "input": [
            {"type": "message", "role": "assistant", "content": [{"type": "output_text", "text": "ok"}]},
            {"type": "function_call", "call_id": "a", "name": "f", "arguments": "{}"},
            {"type": "function_call", "call_id": "b", "name": "g", "arguments": "oops"},
            {"type": "function_call_output", "call_id": "a", "output": "1"},
            {"type": "function_call", "call_id": "c", "name": "h", "arguments": "{}"}]}"#,
    ));
    let ir = openai_responses::to_intermediate(req).unwrap();
    assert_eq!(ir.messages.len(), 4);
    assert_eq!(ir.messages[1].content, "ok");
    assert_eq!(ir.messages[1].tool_calls.len(), 2);
    assert_eq!(value_of(&ir.messages[1].tool_calls[1].arguments), value("{}"));
    assert_eq!(ir.messages[3].role, Role::Assistant);
    assert_eq!(ir.messages[3].tool_calls[0].id, "c");
    assert_eq!(ir.session_id.as_deref(), Some("resp_0"));
    assert_eq!(ir.system.as_deref(), Some("i"));
}

#[test]
fn responses_request_with_faults_is_refused() {
    let e = openai_responses::to_intermediate(responses_request(&value(
        r#"{"model": "m", "input": "x", "max_output_tokens": 0}"#,
    )))
    .unwrap_err();
    assert_eq!(e.message(), "Invalid protocol conversion: max_output_tokens must be > 0");
    let e = openai_responses::to_intermediate(responses_request(&value(
        r#"{"model": "m", "input": "x", "temperature": 9}"#,
    )))
    .unwrap_err();
    assert_eq!(
        e.message(),
        "Invalid protocol conversion: temperature must be 0.0..=2.0, got 9"
    );
}

#[test]
fn responses_worker_response_without_output_is_refused() {
    let e = openai_responses::parse_worker_response(&tree("{}"), "m", 1, None).unwrap_err();
    assert_eq!(e.message(), "Invalid protocol conversion: missing output array");
}

#[test]
fn responses_worker_response_is_read() {
    let body = tree(
        r#"{"id": "r", "status": "completed", "output": [
            {"type": "reasoning", "summary": [{"text": "a"}, {"text": "b"}]},
            {"type": "message", "content": [{"text": "x"}, {"text": "y"}]},
            {"type": "message", "content": [{"text": "z"}]},
            {"type": "function_call", "call_id": "c", "name": "f", "arguments": {"k": 1}}],
            "usage": {"input_tokens": 1, "output_tokens": 2, "total_tokens": 3}}"#,
    );
    let r = openai_responses::parse_worker_response(&body, "m", 1, None)
        .unwrap()
        .response
        .unwrap();
    assert_eq!(r.content, "xy\nz");
    assert_eq!(r.thinking.as_deref(), Some("ab"));
    assert_eq!(r.status.as_deref(), Some("completed"));
    assert_eq!(value_of(&r.tool_calls[0].arguments), value(r#"{"k": 1}"#));
    assert_eq!(r.usage.total_tokens, 3);
}

#[test]
fn responses_response_shows_fresh_ids() {
    let v = ir_to_protocol_response("responses", sample_response());
    assert!(v["id"].as_str().unwrap().starts_with("resp_"));
    assert!(v["output"][0]["id"].as_str().unwrap().starts_with("rs_"));
    assert!(v["output"][1]["id"].as_str().unwrap().starts_with("fc_"));
    assert!(v["output"][2]["id"].as_str().unwrap().starts_with("msg_"));
    assert_eq!(v["output"][0]["content"][0]["text"], "thought");
    assert_eq!(v["output"][1]["arguments"], "{\"path\":\"sample-target\"}");
    assert_eq!(v["output"][2]["content"][0], value(r#"{"type": "output_text", "text": "done"}"#));
    assert_eq!(v["output"][2]["role"], "assistant");
    assert!(v["output"][1].get("role").is_none());
}

// ---------------------------------------------------------------------------
// Gemini
// ---------------------------------------------------------------------------

#[test]
fn gemini_preserves_function_call_id_and_response_name() {
    let body = tree(
        r#"{
            "candidates": [{
                "content": {"parts": [{
                    "functionCall": {"id": "call_1", "name": "inspect_input", "args": {"path": "sample-target"}}
                }]},
                "finishReason": "STOP"
            }]
        }"#,
    );

    let result = google_genai::parse_worker_response(&body, "gemini", 1, None).unwrap();
    let response = result.response.unwrap();
    assert_eq!(response.tool_calls[0].id, "call_1");
    assert_eq!(response.tool_calls[0].name, "inspect_input");

    let mut assistant = message(Role::Assistant, "");
    assistant.tool_calls = response.tool_calls;
    let mut tool = message(Role::Tool, "ok");
    tool.tool_call_id = Some("call_1".into());
    let ir = plain_request(vec![assistant, tool], 100);
    let request = value_of(&google_genai::build_worker_body(&ir, "gemini"));
    assert_eq!(
        request["contents"][1]["parts"][0]["functionResponse"]["name"],
        "inspect_input"
    );
    assert_eq!(request["contents"][1]["parts"][0]["functionResponse"]["id"], "call_1");
}

#[test]
fn genai_request_preserves_thinking_config() {
    let req = genai_request(&value(
        r#"{
            "contents": [{"role": "user", "parts": [{"text": "think"}]}],
            "generationConfig": {
                "maxOutputTokens": 128,
                "thinkingConfig": {
                    "includeThoughts": true,
                    "thinkingBudget": 256
                }
            }
        }"#,
    ));

    let ir = google_genai::to_intermediate(req, "gemini").unwrap();
    let thinking = ir.thinking.expect("thinkingConfig should map to thinking");
    assert_eq!(thinking.effort, ThinkingEffort::High);
    assert_eq!(thinking.budget_tokens, Some(256));
}

#[test]
fn genai_request_maps_zero_thinking_budget_to_disabled() {
    let req = genai_request(&value(
        r#"{
            "contents": [{"role": "user", "parts": [{"text": "think"}]}],
            "generationConfig": {
                "thinkingConfig": {
                    "includeThoughts": false,
                    "thinkingBudget": 0
                }
            }
        }"#,
    ));

    let ir = google_genai::to_intermediate(req, "gemini").unwrap();
    let thinking = ir.thinking.expect("thinkingConfig should map to thinking");
    assert_eq!(thinking.effort, ThinkingEffort::Disabled);
    assert_eq!(thinking.budget_tokens, Some(0));
}

#[test]
fn genai_request_preserves_thinking_level() {
    let req = genai_request(&value(
        r#"{
            "contents": [{"role": "user", "parts": [{"text": "think"}]}],
            "generationConfig": {
                "thinkingConfig": {
                    "includeThoughts": true,
                    "thinkingLevel": "HIGH"
                }
            }
        }"#,
    ));

    let ir = google_genai::to_intermediate(req, "gemini-3-pro-preview").unwrap();
    let thinking = ir.thinking.expect("thinkingLevel should map to thinking");
    assert_eq!(thinking.effort, ThinkingEffort::High);
    assert_eq!(thinking.budget_tokens, None);
}

#[test]
fn gemini3_worker_body_uses_thinking_level_not_budget() {
    let mut ir = plain_request(vec![message(Role::User, "think")], 100);
    ir.thinking = Some(ThinkingConfig {
        effort: ThinkingEffort::High,
        budget_tokens: Some(8192),
        summary: false,
    });

    let body = value_of(&google_genai::build_worker_body(&ir, "gemini-3-pro-preview"));
    let thinking_config = &body["generationConfig"]["thinkingConfig"];
    assert_eq!(thinking_config["includeThoughts"], true);
    assert_eq!(thinking_config["thinkingLevel"], "HIGH");
    assert!(thinking_config.get("thinkingBudget").is_none());
}

#[test]
fn gemini_synthesized_id_is_shadowed_and_not_replayed_upstream() {
    let mut body = tree(
        r#"{
            "candidates": [{
                "content": {"parts": [{
                    "functionCall": {
                        "name": "inspect_input",
                        "args": {"path": "sample-target"},
                        "thoughtSignature": "sig-tool-1"
                    }
                }]},
                "finishReason": "STOP"
            }]
        }"#,
    );

    google_genai::rectify_response_missing_function_call_ids(&mut body);
    let result = google_genai::parse_worker_response(&body, "gemini", 1, None).unwrap();
    let response = result.response.unwrap();
    let synthesized_id = response.tool_calls[0].id.clone();
    assert!(google_genai::is_synthesized_tool_call_id(&synthesized_id));

    let shadow_turn = google_genai::extract_assistant_shadow_turn(&body).unwrap();
    let mut assistant = message(Role::Assistant, "");
    assistant.tool_calls = response.tool_calls;
    let mut tool = message(Role::Tool, "ok");
    tool.tool_call_id = Some(synthesized_id);
    let ir = plain_request(vec![assistant, tool], 100);
    let request = value_of(&google_genai::build_worker_body_with_shadow(
        &ir,
        "gemini",
        &[shadow_turn],
    ));

    let function_call = &request["contents"][0]["parts"][0]["functionCall"];
    assert_eq!(function_call["name"], "inspect_input");
    assert!(function_call.get("id").is_none());
    assert_eq!(function_call["thoughtSignature"], "sig-tool-1");

    let function_response = &request["contents"][1]["parts"][0]["functionResponse"];
    assert_eq!(function_response["name"], "inspect_input");
    assert!(function_response.get("id").is_none());
    assert_eq!(function_response["response"]["content"], "ok");
}

#[test]
fn gemini_shadow_store_replays_synthesized_tool_turn_by_session() {
    let mut store = GeminiShadowStore::with_limits(8, 4);
    let synth = google_genai::synthesize_tool_call_id();
    let mut content = value(
        r#"{"parts": [{"functionCall": {"name": "inspect_input", "args": {"path": "src/lib.rs"}}}]}"#,
    );
    content["parts"][0]["functionCall"]["id"] = Value::String(synth.clone());
    store.record_assistant_turn(
        "google-generative-ai:gemini",
        "session-1",
        tree_of(&content),
        vec![GeminiToolCallMeta::new(
            Some(synth.clone()),
            "inspect_input",
            tree(r#"{"path": "src/lib.rs"}"#),
            None,
        )],
    );

    let snapshot = store.get_session("google-generative-ai:gemini", "session-1").unwrap();
    let mut tool = message(Role::Tool, "ok");
    tool.tool_call_id = Some(synth);
    let mut ir = plain_request(vec![tool], 100);
    ir.session_id = Some("session-1".into());

    let request = value_of(&google_genai::build_worker_body_with_shadow(
        &ir,
        "gemini",
        &snapshot.turns,
    ));
    let function_response = &request["contents"][0]["parts"][0]["functionResponse"];
    assert_eq!(function_response["name"], "inspect_input");
    assert!(function_response.get("id").is_none());
}

#[test]
fn gemini_shadow_store_keeps_its_limits() {
    let mut store = GeminiShadowStore::with_limits(2, 3);
    for session in ["a", "b", "c"] {
        for n in 0..5u64 {
            store.record_assistant_turn("p", session, Json::of_u64(n), vec![]);
        }
    }
    assert_eq!(store.sessions.len(), 2);
    assert!(store.get_session("p", "a").is_none());
    assert!(store.get_session("q", "c").is_none());
    let kept: Vec<Option<u64>> = store
        .get_session("p", "c")
        .unwrap()
        .turns
        .iter()
        .map(|t| t.assistant_content.as_u64())
        .collect();
    assert_eq!(kept, vec![Some(2), Some(3), Some(4)]);
}

#[test]
fn gemini_shadow_store_has_default_limits() {
    let mut store = GeminiShadowStore::default();
    assert!(store.sessions.is_empty());
    for n in 0..65u64 {
        store.record_assistant_turn("p", "long", Json::of_u64(n), vec![]);
    }
    let turns = store.get_session("p", "long").unwrap().turns;
    assert_eq!(turns.len(), 64);
    assert_eq!(turns[0].assistant_content.as_u64(), Some(1));
    for n in 0..255u64 {
        store.record_assistant_turn("p", &n.to_string(), Json::Null, vec![]);
    }
    assert_eq!(store.sessions.len(), 256);
    assert!(store.get_session("p", "long").is_some());
    store.record_assistant_turn("p", "one more", Json::Null, vec![]);
    assert_eq!(store.sessions.len(), 256);
}

#[test]
fn sent_chat_request_is_read_back() {
    let given = r#"{
        "model": "m",
        "messages": [
            {"role": "system", "content": "Be brief."},
            {"role": "user", "content": "Look."},
            {"role": "assistant", "content": null, "tool_calls": [
                {"id": "c1", "type": "function",
                 "function": {"name": "look", "arguments": "{\"at\":\"x\"}"}}
            ]},
            {"role": "tool", "content": "nothing", "tool_call_id": "c1", "is_error": true}
        ],
        "max_tokens": 77,
        "temperature": 0.5,
        "stop": ["END"],
        "stream": true,
        "tools": [{"type": "function", "function": {
            "name": "look", "description": "Looks.", "parameters": {"type": "object"}}}],
        "tool_choice": "auto",
        "parallel_tool_calls": false,
        "reasoning": {"effort": "high"},
        "metadata": {"user": "u"},
        "seed": 3
    }"#;
    let ir = openai_completions::to_intermediate(chat_request(&value(given))).unwrap();
    let body = value_of(&openai_completions::build_worker_body(&ir, "m"));
    assert_eq!(body, value(given));
    let back = openai_completions::to_intermediate(chat_request(&body)).unwrap();
    assert_eq!(value_of(&openai_completions::build_worker_body(&back, "m")), body);
    assert_eq!(back.messages.len(), 4);
    assert_eq!(back.messages[2].tool_calls[0].arguments.at("at").as_str(), Some("x"));
    assert_eq!(back.messages[3].tool_is_error, Some(true));
}

#[test]
fn gemini_thought_signature_of_a_kept_call_is_sent_again() {
    let mut store = GeminiShadowStore::default();
    store.record_assistant_turn(
        "p",
        "s",
        tree(r#"{"role": "model"}"#),
        vec![GeminiToolCallMeta::new(
            Some("call_1".into()),
            "other",
            tree("{}"),
            Some("sig".into()),
        )],
    );
    let turns = store.get_session("p", "s").unwrap().turns;
    let mut assistant = message(Role::Assistant, "text");
    assistant.tool_calls = vec![sample_call()];
    let ir = plain_request(vec![assistant], 1);
    let body = value_of(&google_genai::build_worker_body_with_shadow(&ir, "gemini", &turns));
    assert_eq!(
        body["contents"][0]["parts"],
        value(
            r#"[{"text": "text"}, {"functionCall": {"id": "call_1", "name": "inspect_input",
                "args": {"path": "sample-target"}, "thoughtSignature": "sig"}}]"#
        )
    );
}

#[test]
fn gemini_calls_without_ids_are_numbered() {
    let req = genai_request(&value(
        r#"{"contents": [{"role": "model", "parts": [
            {"functionCall": {"name": "f", "args": {}}}, {"text": "t"}, {"functionCall": {"name": "f", "args": {}}}]}]}"#,
    ));
    let ir = google_genai::to_intermediate(req, "m").unwrap();
    assert_eq!(ir.messages[0].tool_calls[0].id, "f_0");
    assert_eq!(ir.messages[0].tool_calls[1].id, "f_1");
    assert_eq!(ir.messages[0].content, "t");
}

#[test]
fn gemini_request_with_faults_is_refused() {
    let fault = |text: &str| {
        google_genai::to_intermediate(genai_request(&value(text)), "m").unwrap_err().message()
    };
    assert_eq!(
        fault(r#"{"contents": []}"#),
        "Invalid protocol conversion: contents must not be empty"
    );
    assert_eq!(
        fault(r#"{"contents": [{"parts": []}], "generationConfig": {"maxOutputTokens": 0}}"#),
        "Invalid protocol conversion: max_output_tokens must be > 0"
    );
    assert_eq!(
        fault(r#"{"contents": [{"parts": []}], "generationConfig": {"temperature": 2.25}}"#),
        "Invalid protocol conversion: temperature must be 0.0..=2.0, got 2.25"
    );
}

#[test]
fn gemini_tool_choice_is_mapped_both_ways() {
    let out = |text: &str| value_of(&google_genai::map_tool_choice_to_gemini(&tree(text)));
    let back = |v: &Value| value_of(&google_genai::map_gemini_tool_config_to_common(tree_of(v)));
    assert_eq!(back(&out(r#""none""#)), value(r#""none""#));
    assert_eq!(back(&out(r#""required""#)), value(r#""required""#));
    assert_eq!(back(&out(r#""auto""#)), value(r#""auto""#));
    let one = r#"{"type": "function", "function": {"name": "f"}}"#;
    assert_eq!(back(&out(one)), value(one));
    assert_eq!(back(&value("{}")), value(r#""auto""#));
    let own = r#"{"functionCallingConfig": {"mode": "NONE"}}"#;
    assert_eq!(out(own), value(own));
}

#[test]
fn gemini_worker_response_without_candidates_is_refused() {
    let e = google_genai::parse_worker_response(&tree("{}"), "m", 1, None).unwrap_err();
    assert_eq!(e.message(), "Invalid protocol conversion: missing candidates[0]");
}

#[test]
fn gemini_body_without_candidates_gets_a_null_field() {
    let mut body = tree("{}");
    google_genai::rectify_response_missing_function_call_ids(&mut body);
    assert_eq!(value_of(&body), value(r#"{"candidates": null}"#));
    let mut body = tree("null");
    google_genai::rectify_response_missing_function_call_ids(&mut body);
    assert_eq!(value_of(&body), value(r#"{"candidates": null}"#));
}

#[test]
fn gemini_rectified_ids_are_the_given_ones() {
    let mut body = tree(
        r#"{"candidates": [{"content": {"parts": [
            {"functionCall": {"name": "a"}}, {"text": "t"}, {"functionCall": {"name": "b", "id": "own"}},
            {"functionCall": {"name": "c", "id": ""}}]}}]}"#,
    );
    let fresh: Vec<String> = ["w", "x", "y", "z"].iter().map(|s| s.to_string()).collect();
    google_genai::rectify_response_with_ids(&mut body, &fresh);
    let parts = &value_of(&body)["candidates"][0]["content"]["parts"];
    assert_eq!(parts[0]["functionCall"]["id"], "w");
    assert_eq!(parts[1], value(r#"{"text": "t"}"#));
    assert_eq!(parts[2]["functionCall"]["id"], "own");
    assert_eq!(parts[3]["functionCall"]["id"], "z");
}

#[test]
fn gemini_synthesized_ids_look_fresh() {
    let id = google_genai::synthesize_tool_call_id();
    assert!(id.starts_with("gemini_synth_"));
    let rest = &id["gemini_synth_".len()..];
    assert_eq!(rest.len(), 32);
    assert!(rest.chars().all(|c| c.is_ascii_hexdigit() && !c.is_ascii_uppercase()));
    assert_ne!(id, google_genai::synthesize_tool_call_id());
}

#[test]
fn gemini_response_hides_synthesized_ids() {
    let mut ir = sample_response();
    ir.tool_calls[0].id = "gemini_synth_1".into();
    let v = value_of(&google_genai::from_intermediate(ir));
    let parts = &v["candidates"][0]["content"]["parts"];
    assert_eq!(parts[0], value(r#"{"text": "thought", "thought": true}"#));
    assert_eq!(parts[1], value(r#"{"text": "done"}"#));
    assert!(parts[2]["functionCall"].get("id").is_none());
    assert_eq!(v["usageMetadata"]["totalTokenCount"], 15);
}

// ---------------------------------------------------------------------------
// Streams
// ---------------------------------------------------------------------------

#[test]
fn openai_chat_stream_accumulates_tool_arguments() {
    let mut acc = stream::OpenAiAccumulator::new();
    acc.feed(r#"{"choices":[{"delta":{"tool_calls":[{"index":0,"id":"call_1","type":"function","function":{"name":"inspect_input"}}]}}]}"#);
    acc.feed(r#"{"choices":[{"delta":{"tool_calls":[{"index":0,"function":{"arguments":"{\"path\":"}}]}}]}"#);
    acc.feed(r#"{"choices":[{"delta":{"tool_calls":[{"index":0,"function":{"arguments":"\"sample-target\"}"}}]}}]}"#);

    let response = acc.into_response("demo", 1);
    assert_eq!(response.tool_calls[0].id, "call_1");
    assert_eq!(response.tool_calls[0].name, "inspect_input");
    assert_eq!(value_of(&response.tool_calls[0].arguments)["path"], "sample-target");
}

#[test]
fn responses_stream_correlates_interleaved_tool_arguments_by_item_id() {
    let mut acc = stream::OpenAiResponsesAccumulator::new();
    acc.feed(r#"{"type":"response.output_item.added","item":{"id":"fc_1","type":"function_call","call_id":"call_1","name":"first"}}"#);
    acc.feed(r#"{"type":"response.output_item.added","item":{"id":"fc_2","type":"function_call","call_id":"call_2","name":"second"}}"#);
    acc.feed(r#"{"type":"response.function_call_arguments.delta","item_id":"fc_2","delta":"{\"b\":2}"}"#);
    acc.feed(r#"{"type":"response.function_call_arguments.delta","item_id":"fc_1","delta":"{\"a\":1}"}"#);
    acc.feed(r#"{"type":"response.function_call_arguments.done","item_id":"fc_1"}"#);
    acc.feed(r#"{"type":"response.function_call_arguments.done","item_id":"fc_2"}"#);

    let response = acc.into_response("demo", 1);
    assert_eq!(response.tool_calls.len(), 2);
    assert_eq!(response.tool_calls[0].name, "first");
    assert_eq!(value_of(&response.tool_calls[0].arguments)["a"], 1);
    assert_eq!(response.tool_calls[1].name, "second");
    assert_eq!(value_of(&response.tool_calls[1].arguments)["b"], 2);
}

#[test]
fn google_stream_synthesizes_missing_function_call_id() {
    let mut acc = stream::GoogleAccumulator::new();
    let event = acc
        .feed(
            r#"{"candidates":[{"content":{"role":"model","parts":[{"functionCall":{"name":"inspect_input","args":{"path":"sample-target"}}}]}}]}"#,
        )
        .expect("tool call delta");

    match event {
        StreamEvent::ToolCallDelta { id, name, .. } => {
            assert!(google_genai::is_synthesized_tool_call_id(&id));
            assert_eq!(name, "inspect_input");
        }
        other => panic!("unexpected event: {other:?}"),
    }

    assert_eq!(acc.tool_calls.len(), 1);
    assert!(google_genai::is_synthesized_tool_call_id(&acc.tool_calls[0].id));
}

#[test]
fn sse_lines_give_their_payloads() {
    let chunk = "event: x\ndata: {\"a\":1}\r\ndata:  [DONE] \ndata:   \n data: no\ndata: é b \ndata:x\ndata: last";
    assert_eq!(stream::parse_sse_lines(chunk), vec!["{\"a\":1}", "é b", "last"]);
    assert!(stream::parse_sse_lines("").is_empty());
    assert!(stream::parse_sse_lines("data: [DONE]").is_empty());
}

#[test]
fn anthropic_stream_is_put_together() {
    let mut acc = stream::AnthropicAccumulator::new();
    assert!(acc.feed("not json").is_none());
    assert!(acc.feed(r#"{"type":"message_start"}"#).is_none());
    for event in [
        StreamEvent::ThinkingDelta("hm".into()),
        StreamEvent::Delta("do".into()),
        StreamEvent::Delta("ne".into()),
        StreamEvent::ToolCallDelta {
            index: 1,
            id: "call_1".into(),
            name: "f".into(),
            arguments: String::new(),
        },
        StreamEvent::ToolCallDelta {
            index: 1,
            id: "call_1".into(),
            name: "f".into(),
            arguments: "{\"a\"".into(),
        },
        StreamEvent::ToolCallDelta {
            index: 1,
            id: "call_1".into(),
            name: "f".into(),
            arguments: ":2}".into(),
        },
    ] {
        let payload = stream::anthropic_format_sse(&event, "m").unwrap();
        let read = acc.feed(&payload).unwrap();
        assert_eq!(format!("{event:?}"), format!("{read:?}"));
    }
    let payload = stream::anthropic_format_sse(&StreamEvent::Done(sample_response()), "m").unwrap();
    assert!(acc.feed(&payload).is_none());
    assert_eq!(acc.tool_call_indices, vec![1]);
    let r = acc.into_response("m", 3);
    assert_eq!(r.content, "done");
    assert_eq!(r.thinking.as_deref(), Some("hm"));
    assert_eq!(r.finish_reason, "stop");
    assert_eq!(r.usage.completion_tokens, 5);
    assert_eq!(value_of(&r.tool_calls[0].arguments), value(r#"{"a": 2}"#));
    assert_eq!(r.duration_ms, 3);
}

#[test]
fn chat_stream_is_put_together() {
    let mut acc = stream::OpenAiAccumulator::new();
    for event in [StreamEvent::Delta("a".into()), StreamEvent::ThinkingDelta("b".into())] {
        let payload = stream::openai_format_sse(&event, "m").unwrap();
        let read = acc.feed(&payload).unwrap();
        assert_eq!(format!("{event:?}"), format!("{read:?}"));
    }
    let payload = stream::openai_format_sse(&StreamEvent::Done(sample_response()), "m").unwrap();
    assert!(acc.feed(&payload).is_none());
    acc.feed(r#"{"choices":[{"delta":{"tool_calls":[{"index":2,"id":"c"},{"index":0,"function":{"name":"f"}}]}}]}"#);
    let r = acc.into_response("m", 3);
    assert_eq!(r.content, "a");
    assert_eq!(r.thinking.as_deref(), Some("b"));
    assert_eq!(r.usage.total_tokens, 15);
    assert_eq!(r.tool_calls.len(), 3);
    assert_eq!(r.tool_calls[0].name, "f");
    assert_eq!(r.tool_calls[1].name, "");
    assert_eq!(r.tool_calls[2].id, "c");
}

#[test]
fn responses_stream_fills_in_what_was_missing() {
    let mut acc = stream::OpenAiResponsesAccumulator::new();
    acc.feed(r#"{"type":"response.function_call_arguments.delta","item_id":"i","delta":"{\"x\":"}"#);
    acc.feed(r#"{"type":"response.function_call_arguments.delta","item_id":"i","call_id":"c","delta":"1}"}"#);
    assert!(acc
        .feed(r#"{"type":"response.output_item.done","item":{"id":"i","type":"function_call","call_id":"d","name":"f","arguments":""}}"#)
        .is_none());
    let event = acc
        .feed(r#"{"type":"response.output_item.done","item":{"id":"k","type":"function_call","call_id":"e","name":"g","arguments":"{}"}}"#)
        .unwrap();
    assert!(matches!(event, StreamEvent::ToolCallDelta { index: 1, .. }));
    acc.feed(r#"{"type":"response.reasoning.delta","delta":"r"}"#);
    acc.feed(r#"{"type":"response.output_text.delta","delta":"t"}"#);
    acc.feed(r#"{"type":"response.completed","response":{"usage":{"input_tokens":1,"output_tokens":2,"total_tokens":3}}}"#);
    let r = acc.into_response("m", 1);
    assert_eq!(r.tool_calls[0].id, "c");
    assert_eq!(r.tool_calls[0].name, "f");
    assert_eq!(value_of(&r.tool_calls[0].arguments), value(r#"{"x": 1}"#));
    assert_eq!(r.tool_calls[1].name, "g");
    assert_eq!(r.content, "t");
    assert_eq!(r.thinking.as_deref(), Some("r"));
    assert_eq!(r.usage.total_tokens, 3);
}

#[test]
fn google_stream_is_put_together() {
    let mut acc = stream::GoogleAccumulator::new();
    for event in [
        StreamEvent::Delta("a".into()),
        StreamEvent::ToolCallDelta {
            index: 0,
            id: "call_1".into(),
            name: "f".into(),
            arguments: "{\"p\":1}".into(),
        },
    ] {
        let payload = stream::google_format_sse(&event, "m").unwrap();
        let read = acc.feed(&payload).unwrap();
        assert_eq!(format!("{event:?}"), format!("{read:?}"));
    }
    assert_eq!(
        stream::google_format_sse(&StreamEvent::ThinkingDelta("x".into()), "m").unwrap(),
        ""
    );
    acc.feed(r#"{"candidates":[{"finishReason":"MAX"}],"usageMetadata":{"promptTokenCount":7}}"#);
    let r = acc.into_response("m", 1);
    assert_eq!(r.content, "a");
    assert_eq!(r.finish_reason, "MAX");
    assert_eq!(r.usage.prompt_tokens, 7);
    assert_eq!(r.tool_calls[0].id, "call_1");
}

#[test]
fn responses_payload_of_a_finished_response_gets_an_id() {
    let mut ir = sample_response();
    ir.id = None;
    ir.status = None;
    let text = stream::responses_format_sse(&StreamEvent::Done(ir), "m").unwrap();
    let v = value(&text);
    assert!(v["response"]["id"].as_str().unwrap().starts_with("resp_"));
    assert_eq!(v["response"]["status"], "completed");
    assert_eq!(v["response"]["output"][0]["arguments"], "{\"path\":\"sample-target\"}");
}
