//! Anthropic's messages protocol.
//!
//! A request holds `messages` whose content is text or a list of blocks, and a
//! `system` prompt beside them. Tool calls and tool results are blocks.

use vstd::prelude::*;

use crate::error::{ErrorView, OpenFusionError};
use crate::ids;
use crate::json;
use crate::json::{int_view, json_text, names_view, no_members, with_some, Json, JsonMap, JsonView};
use crate::protocol;
use crate::protocol::{
    cost_or_zero, count_of, or_empty, text_or, IntermediateRequest, IntermediateResponse, Message,
    MessageView, RequestView, ResponseView, Role, Single, SingleView, ThinkingConfig,
    ThinkingEffort, ToolCall, ToolCallView, ToolDef, ToolDefView, Usage, Usd, WorkerResult,
    WorkerResultView,
};
use crate::seqs;
use crate::text;

verus! {

// ---------------------------------------------------------------------------
// Requests as they come in
// ---------------------------------------------------------------------------

/// A messages request.
#[derive(Debug)]
pub struct MessagesRequest {
    pub model: String,
    pub system: Option<AnthropicSystem>,
    pub messages: Vec<AnthropicMessage>,
    pub max_tokens: u32,
    pub temperature: Option<Single>,
    pub top_p: Option<Single>,
    pub stop_sequences: Vec<String>,
    pub api_key: Option<String>,
    pub tools: Vec<AnthropicTool>,
    pub tool_choice: Option<Json>,
    pub thinking: Option<Json>,
    pub stream: bool,
    pub metadata: JsonMap,
    pub extra: JsonMap,
}

#[derive(Debug)]
pub struct AnthropicTool {
    pub name: String,
    pub description: Option<String>,
    pub input_schema: Json,
}

#[derive(Debug)]
pub enum AnthropicSystem {
    Text(String),
    Structured(Vec<AnthropicSystemBlock>),
}

#[derive(Debug)]
pub struct AnthropicSystemBlock {
    pub kind: String,
    pub text: String,
}

#[derive(Debug)]
pub struct AnthropicMessage {
    pub role: String,
    pub content: AnthropicContent,
}

#[derive(Debug)]
pub enum AnthropicContent {
    Text(String),
    Blocks(Vec<AnthropicContentBlock>),
}

/// A block of a message: text, a tool call (`name`, `id`, `input`) or the result
/// of one (`tool_use_id`, `content`, `is_error`).
#[derive(Debug)]
pub struct AnthropicContentBlock {
    pub kind: String,
    pub text: Option<String>,
    pub tool_use_id: Option<String>,
    pub content: Option<Json>,
    pub is_error: Option<bool>,
    pub name: Option<String>,
    pub id: Option<String>,
    pub input: Option<Json>,
}

#[verifier::ext_equal]
pub struct MessagesRequestView {
    pub model: Seq<char>,
    pub system: Option<SystemView>,
    pub messages: Seq<InMessageView>,
    pub max_tokens: u32,
    pub temperature: Option<SingleView>,
    pub top_p: Option<SingleView>,
    pub stop_sequences: Seq<Seq<char>>,
    pub api_key: Option<Seq<char>>,
    pub tools: Seq<InToolView>,
    pub tool_choice: Option<JsonView>,
    pub thinking: Option<JsonView>,
    pub stream: bool,
    pub metadata: Map<Seq<char>, JsonView>,
    pub extra: Map<Seq<char>, JsonView>,
}

#[verifier::ext_equal]
pub struct InToolView {
    pub name: Seq<char>,
    pub description: Option<Seq<char>>,
    pub input_schema: JsonView,
}

#[verifier::ext_equal]
pub enum SystemView {
    Text(Seq<char>),
    Structured(Seq<SystemBlockView>),
}

#[verifier::ext_equal]
pub struct SystemBlockView {
    pub kind: Seq<char>,
    pub text: Seq<char>,
}

#[verifier::ext_equal]
pub struct InMessageView {
    pub role: Seq<char>,
    pub content: ContentView,
}

#[verifier::ext_equal]
pub enum ContentView {
    Text(Seq<char>),
    Blocks(Seq<BlockView>),
}

#[verifier::ext_equal]
pub struct BlockView {
    pub kind: Seq<char>,
    pub text: Option<Seq<char>>,
    pub tool_use_id: Option<Seq<char>>,
    pub content: Option<JsonView>,
    pub is_error: Option<bool>,
    pub name: Option<Seq<char>>,
    pub id: Option<Seq<char>>,
    pub input: Option<JsonView>,
}

impl DeepView for AnthropicTool {
    type V = InToolView;

    open spec fn deep_view(&self) -> InToolView {
        InToolView {
            name: self.name@,
            description: self.description.deep_view(),
            input_schema: self.input_schema.deep_view(),
        }
    }
}

impl DeepView for AnthropicSystemBlock {
    type V = SystemBlockView;

    open spec fn deep_view(&self) -> SystemBlockView {
        SystemBlockView { kind: self.kind@, text: self.text@ }
    }
}

impl DeepView for AnthropicSystem {
    type V = SystemView;

    open spec fn deep_view(&self) -> SystemView {
        match *self {
            AnthropicSystem::Text(s) => SystemView::Text(s@),
            AnthropicSystem::Structured(blocks) => SystemView::Structured(blocks.deep_view()),
        }
    }
}

impl DeepView for AnthropicContentBlock {
    type V = BlockView;

    open spec fn deep_view(&self) -> BlockView {
        BlockView {
            kind: self.kind@,
            text: self.text.deep_view(),
            tool_use_id: self.tool_use_id.deep_view(),
            content: self.content.deep_view(),
            is_error: self.is_error,
            name: self.name.deep_view(),
            id: self.id.deep_view(),
            input: self.input.deep_view(),
        }
    }
}

impl DeepView for AnthropicContent {
    type V = ContentView;

    open spec fn deep_view(&self) -> ContentView {
        match *self {
            AnthropicContent::Text(s) => ContentView::Text(s@),
            AnthropicContent::Blocks(blocks) => ContentView::Blocks(blocks.deep_view()),
        }
    }
}

impl DeepView for AnthropicMessage {
    type V = InMessageView;

    open spec fn deep_view(&self) -> InMessageView {
        InMessageView { role: self.role@, content: self.content.deep_view() }
    }
}

impl DeepView for MessagesRequest {
    type V = MessagesRequestView;

    open spec fn deep_view(&self) -> MessagesRequestView {
        MessagesRequestView {
            model: self.model@,
            system: self.system.deep_view(),
            messages: self.messages.deep_view(),
            max_tokens: self.max_tokens,
            temperature: self.temperature.deep_view(),
            top_p: self.top_p.deep_view(),
            stop_sequences: self.stop_sequences.deep_view(),
            api_key: self.api_key.deep_view(),
            tools: self.tools.deep_view(),
            tool_choice: self.tool_choice.deep_view(),
            thinking: self.thinking.deep_view(),
            stream: self.stream,
            metadata: self.metadata.deep_view(),
            extra: self.extra.deep_view(),
        }
    }
}

// ---------------------------------------------------------------------------
// From a request to the common form
// ---------------------------------------------------------------------------

/// The text of a block inside a tool result: its text, else its content as JSON,
/// else the whole block as JSON.
pub open spec fn result_block_text() -> spec_fn(JsonView) -> Seq<char> {
    |block: JsonView|
        match block {
            JsonView::Str(s) => s,
            JsonView::Object(_) => match block.at("text"@).as_str() {
                Some(s) => s,
                None => match block.get("content"@) {
                    Some(content) => json_text(content),
                    None => json_text(block),
                },
            },
            _ => json_text(block),
        }
}

/// The text of a tool result.
pub open spec fn result_text(content: Option<JsonView>) -> Seq<char> {
    match content {
        Some(JsonView::Str(s)) => s,
        Some(JsonView::Array(blocks)) => text::join_of(
            blocks.map_values(result_block_text()),
            "\n"@,
        ),
        Some(value) => json_text(value),
        None => ""@,
    }
}

fn text_of_result_block(block: &Json) -> (r: String)
    ensures
        r@ == result_block_text()(block.deep_view()),
{
    match block {
        Json::Str(s) => s.clone(),
        Json::Object(_) => match block.at("text").as_str() {
            Some(s) => s.to_owned(),
            None => match block.get("content") {
                Some(content) => json::to_text(content),
                None => json::to_text(block),
            },
        },
        _ => json::to_text(block),
    }
}

/// The text of a tool result.
pub fn flatten_tool_result_content(content: Option<&Json>) -> (r: String)
    ensures
        r@ == result_text(content.deep_view()),
{
    broadcast use json::array_view;

    match content {
        Some(Json::Str(s)) => s.clone(),
        Some(Json::Array(blocks)) => text::join(
            &seqs::map_all(blocks, text_of_result_block, Ghost(result_block_text())),
            "\n",
        ),
        Some(value) => json::to_text(value),
        None => "".to_owned(),
    }
}

/// The role that a word names.
pub open spec fn role_of_word(word: Seq<char>) -> Role {
    if word == "assistant"@ {
        Role::Assistant
    } else {
        Role::User
    }
}

/// The text of a system block that holds text.
pub open spec fn system_block_text() -> spec_fn(SystemBlockView) -> Option<Seq<char>> {
    |b: SystemBlockView|
        if b.kind == "text"@ {
            Some(b.text)
        } else {
            None
        }
}

/// The system prompt of a request.
pub open spec fn system_text(system: SystemView) -> Seq<char> {
    match system {
        SystemView::Text(s) => s,
        SystemView::Structured(blocks) => text::join_of(
            blocks.filter_map(system_block_text()),
            "\n"@,
        ),
    }
}

/// The system prompt that a request is known to have.
pub open spec fn system_field(system: Option<SystemView>) -> Option<Seq<char>> {
    match system {
        Some(SystemView::Text(s)) => Some(s),
        Some(structured) => protocol::unless_empty(system_text(structured)),
        None => None,
    }
}

/// The message that carries the system prompt, if there is one.
pub open spec fn system_messages(system: Option<SystemView>) -> Seq<MessageView> {
    match system {
        Some(s) => seq![protocol::plain_message(Role::System, system_text(s))],
        None => Seq::empty(),
    }
}

/// The message for a tool result.
pub open spec fn result_in() -> spec_fn(BlockView) -> Option<MessageView> {
    |b: BlockView|
        if b.kind == "tool_result"@ {
            Some(
                MessageView {
                    role: Role::Tool,
                    content: result_text(b.content),
                    tool_call_id: Some(or_empty(b.tool_use_id)),
                    tool_is_error: b.is_error,
                    tool_calls: Seq::empty(),
                },
            )
        } else {
            None
        }
}

/// The text of a block that holds text.
pub open spec fn block_text() -> spec_fn(BlockView) -> Option<Seq<char>> {
    |b: BlockView|
        if b.kind == "text"@ {
            b.text
        } else {
            None
        }
}

/// The tool call of a block that holds one.
pub open spec fn call_in() -> spec_fn(BlockView) -> Option<ToolCallView> {
    |b: BlockView|
        if b.kind == "tool_use"@ {
            Some(
                ToolCallView {
                    id: or_empty(b.id),
                    name: or_empty(b.name),
                    arguments: match b.input {
                        Some(v) => v,
                        None => protocol::empty_object(),
                    },
                },
            )
        } else {
            None
        }
}

/// The messages that one message stands for: each tool result is one of its own;
/// where there is none, the text and the tool calls make one message.
pub open spec fn message_in(m: InMessageView) -> Seq<MessageView> {
    match m.content {
        ContentView::Text(s) => seq![protocol::plain_message(role_of_word(m.role), s)],
        ContentView::Blocks(blocks) => {
            let results = blocks.filter_map(result_in());
            let calls = blocks.filter_map(call_in());
            if results.len() > 0 {
                results
            } else {
                seq![
                    MessageView {
                        role: if calls.len() > 0 {
                            Role::Assistant
                        } else {
                            role_of_word(m.role)
                        },
                        content: text::join_of(blocks.filter_map(block_text()), "\n"@),
                        tool_call_id: None,
                        tool_is_error: None,
                        tool_calls: calls,
                    },
                ]
            }
        },
    }
}

/// The messages that some messages stand for.
pub open spec fn messages_in(messages: Seq<InMessageView>) -> Seq<MessageView>
    decreases messages.len(),
{
    if messages.len() == 0 {
        Seq::empty()
    } else {
        messages_in(messages.drop_last()) + message_in(messages.last())
    }
}

/// A tool in the common form.
pub open spec fn tool_in() -> spec_fn(InToolView) -> ToolDefView {
    |t: InToolView|
        ToolDefView {
            name: t.name,
            description: or_empty(t.description),
            parameters: t.input_schema,
        }
}

/// The thinking that the `thinking` field of a request asks for.
pub open spec fn thinking_in(v: JsonView) -> ThinkingConfig {
    let kind = v.at("type"@).as_str();
    let budget = v.at("budget_tokens"@).as_i64();
    ThinkingConfig {
        effort: if kind == Some("disabled"@) {
            ThinkingEffort::Disabled
        } else if kind == Some("auto"@) || kind == Some("adaptive"@) {
            ThinkingEffort::Adaptive
        } else if budget == Some(0i64) {
            ThinkingEffort::Disabled
        } else {
            ThinkingEffort::High
        },
        budget_tokens: match budget {
            Some(n) => Some(protocol::low_i32_of(n)),
            None => None,
        },
        summary: false,
    }
}

/// A request in the common form.
pub open spec fn request_in(req: MessagesRequestView) -> RequestView {
    RequestView {
        messages: system_messages(req.system) + messages_in(req.messages),
        max_tokens: req.max_tokens,
        temperature: req.temperature,
        top_p: req.top_p,
        stop: req.stop_sequences,
        api_key: req.api_key,
        tools: req.tools.map_values(tool_in()),
        tool_choice: req.tool_choice,
        parallel_tool_calls: None,
        thinking: match req.thinking {
            Some(v) => Some(thinking_in(v)),
            None => None,
        },
        session_id: None,
        system: system_field(req.system),
        stream: req.stream,
        metadata: req.metadata,
        native: protocol::kept_under(protocol::NATIVE_ANTHROPIC@, req.extra),
    }
}

fn role_from_word(word: &str) -> (r: Role)
    ensures
        r == role_of_word(word@),
{
    if text::same(word, "assistant") {
        Role::Assistant
    } else {
        Role::User
    }
}

fn text_of_system_block(b: &AnthropicSystemBlock) -> (r: Option<String>)
    ensures
        r.deep_view() == system_block_text()(b.deep_view()),
{
    if text::same(b.kind.as_str(), "text") {
        Some(b.text.clone())
    } else {
        None
    }
}

fn result_of_block(b: &AnthropicContentBlock) -> (r: Option<Message>)
    ensures
        r.deep_view() == result_in()(b.deep_view()),
{
    if text::same(b.kind.as_str(), "tool_result") {
        Some(
            Message {
                role: Role::Tool,
                content: flatten_tool_result_content(b.content.as_ref()),
                tool_call_id: Some(protocol::unwrap_text(&b.tool_use_id)),
                tool_is_error: b.is_error,
                tool_calls: seqs::none(),
            },
        )
    } else {
        None
    }
}

fn text_of_block(b: &AnthropicContentBlock) -> (r: Option<String>)
    ensures
        r.deep_view() == block_text()(b.deep_view()),
{
    if text::same(b.kind.as_str(), "text") {
        b.text.clone()
    } else {
        None
    }
}

fn call_of_block(b: &AnthropicContentBlock) -> (r: Option<ToolCall>)
    ensures
        r.deep_view() == call_in()(b.deep_view()),
{
    if text::same(b.kind.as_str(), "tool_use") {
        let arguments = match &b.input {
            Some(v) => v.clone(),
            None => Json::Object(JsonMap::new()),
        };
        Some(
            ToolCall {
                id: protocol::unwrap_text(&b.id),
                name: protocol::unwrap_text(&b.name),
                arguments,
            },
        )
    } else {
        None
    }
}

fn messages_of(m: &AnthropicMessage) -> (r: Vec<Message>)
    ensures
        r.deep_view() == message_in(m.deep_view()),
{
    match &m.content {
        AnthropicContent::Text(s) => seqs::one(
            protocol::message_of(role_from_word(m.role.as_str()), s.clone()),
        ),
        AnthropicContent::Blocks(blocks) => {
            let results = seqs::pick_all(blocks, result_of_block, Ghost(result_in()));
            if results.len() > 0 {
                return results;
            }
            let tool_calls = seqs::pick_all(blocks, call_of_block, Ghost(call_in()));
            let texts = seqs::pick_all(blocks, text_of_block, Ghost(block_text()));
            let role = if tool_calls.len() > 0 {
                Role::Assistant
            } else {
                role_from_word(m.role.as_str())
            };
            seqs::one(
                Message {
                    role,
                    content: text::join(&texts, "\n"),
                    tool_call_id: None,
                    tool_is_error: None,
                    tool_calls,
                },
            )
        },
    }
}

fn tool_from_request(t: &AnthropicTool) -> (r: ToolDef)
    ensures
        r.deep_view() == tool_in()(t.deep_view()),
{
    ToolDef {
        name: t.name.clone(),
        description: protocol::unwrap_text(&t.description),
        parameters: t.input_schema.clone(),
    }
}

fn thinking_from_request(v: &Json) -> (r: ThinkingConfig)
    ensures
        r == thinking_in(v.deep_view()),
{
    let budget = v.at("budget_tokens").as_i64();
    let mut effort = match budget {
        Some(n) => {
            if n == 0 {
                ThinkingEffort::Disabled
            } else {
                ThinkingEffort::High
            }
        },
        None => ThinkingEffort::High,
    };
    if let Some(kind) = v.at("type").as_str() {
        if text::same(kind, "disabled") {
            effort = ThinkingEffort::Disabled;
        } else if text::same(kind, "auto") || text::same(kind, "adaptive") {
            effort = ThinkingEffort::Adaptive;
        }
    }
    ThinkingConfig {
        effort,
        budget_tokens: match budget {
            Some(n) => Some(protocol::low_i32(n)),
            None => None,
        },
        summary: false,
    }
}

fn text_of_system(system: &AnthropicSystem) -> (r: String)
    ensures
        r@ == system_text(system.deep_view()),
{
    match system {
        AnthropicSystem::Text(s) => s.clone(),
        AnthropicSystem::Structured(blocks) => text::join(
            &seqs::pick_all(blocks, text_of_system_block, Ghost(system_block_text())),
            "\n",
        ),
    }
}

/// A request in the common form, or what is wrong with it.
pub fn to_intermediate(req: MessagesRequest) -> (r: Result<IntermediateRequest, OpenFusionError>)
    ensures
        match protocol::fault_of(
            req.messages.deep_view().len(),
            req.max_tokens,
            req.temperature.deep_view(),
        ) {
            Some(fault) => r matches Err(e) && e.deep_view() == ErrorView::Protocol(fault),
            None => r matches Ok(ir) && ir.deep_view() == request_in(req.deep_view()),
        },
{
    if let Some(fault) = protocol::request_fault(
        req.messages.len(),
        req.max_tokens,
        &req.temperature,
    ) {
        return Err(OpenFusionError::Protocol(fault));
    }
    let mut messages: Vec<Message> = seqs::none();
    let mut system: Option<String> = None;
    if let Some(s) = &req.system {
        let content = text_of_system(s);
        system = match s {
            AnthropicSystem::Text(_) => Some(content.clone()),
            AnthropicSystem::Structured(_) => {
                if content.as_str().is_empty() {
                    None
                } else {
                    Some(content.clone())
                }
            },
        };
        seqs::put(&mut messages, protocol::message_of(Role::System, content));
    }
    let ghost all = req.messages.deep_view();
    let ghost start = messages.deep_view();
    assert(start =~= system_messages(req.system.deep_view()));
    let mut i: usize = 0;
    proof {
        seqs::take_ends(all);
        assert(start + messages_in(all.take(0)) =~= start);
    }
    while i < req.messages.len()
        invariant
            i <= req.messages@.len(),
            all == req.messages.deep_view(),
            all.len() == req.messages@.len(),
            messages.deep_view() == start + messages_in(all.take(i as int)),
        decreases req.messages.len() - i,
    {
        let more = messages_of(&req.messages[i]);
        proof {
            seqs::take_step(all, i as int);
            assert(start + messages_in(all.take(i + 1)) =~= (start + messages_in(
                all.take(i as int),
            )) + more.deep_view());
        }
        seqs::extend(&mut messages, more);
        i += 1;
    }
    let tools = seqs::map_all(&req.tools, tool_from_request, Ghost(tool_in()));
    let thinking = match &req.thinking {
        Some(v) => Some(thinking_from_request(v)),
        None => None,
    };
    Ok(
        IntermediateRequest {
            messages,
            max_tokens: req.max_tokens,
            temperature: req.temperature,
            top_p: req.top_p,
            stop: req.stop_sequences,
            api_key: req.api_key,
            tools,
            tool_choice: req.tool_choice,
            parallel_tool_calls: None,
            thinking,
            session_id: None,
            system,
            stream: req.stream,
            metadata: req.metadata,
            native: protocol::native_from_extra(protocol::NATIVE_ANTHROPIC, req.extra),
        },
    )
}

// ---------------------------------------------------------------------------
// Responses as they go out
// ---------------------------------------------------------------------------

/// A messages response.
#[derive(Debug)]
pub struct MessagesResponse {
    pub id: String,
    pub kind: &'static str,
    pub role: &'static str,
    pub model: String,
    pub content: Vec<AnthropicOutBlock>,
    pub stop_reason: String,
    pub usage: AnthropicUsage,
}

#[derive(Debug)]
pub struct AnthropicOutBlock {
    pub kind: String,
    pub text: Option<String>,
    pub thinking: Option<String>,
    pub id: Option<String>,
    pub name: Option<String>,
    pub input: Option<Json>,
}

#[derive(Clone, Copy, Debug, PartialEq, Eq, Structural)]
pub struct AnthropicUsage {
    pub input_tokens: u32,
    pub output_tokens: u32,
}

#[verifier::ext_equal]
pub struct MessagesResponseView {
    pub id: Seq<char>,
    pub kind: Seq<char>,
    pub role: Seq<char>,
    pub model: Seq<char>,
    pub content: Seq<OutBlockView>,
    pub stop_reason: Seq<char>,
    pub usage: AnthropicUsage,
}

#[verifier::ext_equal]
pub struct OutBlockView {
    pub kind: Seq<char>,
    pub text: Option<Seq<char>>,
    pub thinking: Option<Seq<char>>,
    pub id: Option<Seq<char>>,
    pub name: Option<Seq<char>>,
    pub input: Option<JsonView>,
}

impl DeepView for AnthropicOutBlock {
    type V = OutBlockView;

    open spec fn deep_view(&self) -> OutBlockView {
        OutBlockView {
            kind: self.kind@,
            text: self.text.deep_view(),
            thinking: self.thinking.deep_view(),
            id: self.id.deep_view(),
            name: self.name.deep_view(),
            input: self.input.deep_view(),
        }
    }
}

impl DeepView for MessagesResponse {
    type V = MessagesResponseView;

    open spec fn deep_view(&self) -> MessagesResponseView {
        MessagesResponseView {
            id: self.id@,
            kind: self.kind@,
            role: self.role@,
            model: self.model@,
            content: self.content.deep_view(),
            stop_reason: self.stop_reason@,
            usage: self.usage,
        }
    }
}

/// A block that holds text.
pub open spec fn text_block(s: Seq<char>) -> OutBlockView {
    OutBlockView {
        kind: "text"@,
        text: Some(s),
        thinking: None,
        id: None,
        name: None,
        input: None,
    }
}

/// A block that holds thoughts.
pub open spec fn thinking_block(s: Seq<char>) -> OutBlockView {
    OutBlockView {
        kind: "thinking"@,
        text: None,
        thinking: Some(s),
        id: None,
        name: None,
        input: None,
    }
}

/// A block that holds a tool call.
pub open spec fn call_out() -> spec_fn(ToolCallView) -> OutBlockView {
    |c: ToolCallView|
        OutBlockView {
            kind: "tool_use"@,
            text: None,
            thinking: None,
            id: Some(c.id),
            name: Some(c.name),
            input: Some(protocol::call_input(c.arguments)),
        }
}

/// The blocks before the tool calls: thoughts, then text, if there are any.
pub open spec fn leading_blocks(ir: ResponseView) -> Seq<OutBlockView> {
    let thoughts = match ir.thinking {
        Some(s) => if s.len() > 0 {
            seq![thinking_block(s)]
        } else {
            Seq::empty()
        },
        None => Seq::empty(),
    };
    if ir.content.len() > 0 {
        thoughts.push(text_block(ir.content))
    } else {
        thoughts
    }
}

/// The messages response for a response.
pub open spec fn response_out(
    ir: ResponseView,
    model: Seq<char>,
    id: Seq<char>,
) -> MessagesResponseView {
    MessagesResponseView {
        id,
        kind: "message"@,
        role: "assistant"@,
        model,
        content: leading_blocks(ir) + ir.tool_calls.map_values(call_out()),
        stop_reason: if ir.tool_calls.len() == 0 {
            ir.finish_reason
        } else {
            "tool_use"@
        },
        usage: AnthropicUsage {
            input_tokens: ir.usage.prompt_tokens,
            output_tokens: ir.usage.completion_tokens,
        },
    }
}

impl AnthropicOutBlock {
    fn text(text: String) -> (r: Self)
        ensures
            r.deep_view() == text_block(text@),
    {
        AnthropicOutBlock {
            kind: "text".to_owned(),
            text: Some(text),
            thinking: None,
            id: None,
            name: None,
            input: None,
        }
    }

    fn thinking(thinking: String) -> (r: Self)
        ensures
            r.deep_view() == thinking_block(thinking@),
    {
        AnthropicOutBlock {
            kind: "thinking".to_owned(),
            text: None,
            thinking: Some(thinking),
            id: None,
            name: None,
            input: None,
        }
    }

    fn tool_use(c: &ToolCall) -> (r: Self)
        ensures
            r.deep_view() == call_out()(c.deep_view()),
    {
        AnthropicOutBlock {
            kind: "tool_use".to_owned(),
            text: None,
            thinking: None,
            id: Some(c.id.clone()),
            name: Some(c.name.clone()),
            input: Some(protocol::input_of_call(&c.arguments)),
        }
    }
}

/// The messages response for a response, with an identifier.
pub fn message_response(ir: IntermediateResponse, model_name: &str, id: String) -> (r:
    MessagesResponse)
    ensures
        r.deep_view() == response_out(ir.deep_view(), model_name@, id@),
{
    let mut content: Vec<AnthropicOutBlock> = seqs::none();
    if let Some(thinking) = &ir.thinking {
        if !thinking.as_str().is_empty() {
            seqs::put(&mut content, AnthropicOutBlock::thinking(thinking.clone()));
        }
    }
    if !ir.content.as_str().is_empty() {
        seqs::put(&mut content, AnthropicOutBlock::text(ir.content.clone()));
    }
    assert(content.deep_view() =~= leading_blocks(ir.deep_view()));
    seqs::extend(
        &mut content,
        seqs::map_all(&ir.tool_calls, AnthropicOutBlock::tool_use, Ghost(call_out())),
    );
    let stop_reason = if ir.tool_calls.len() == 0 {
        ir.finish_reason.clone()
    } else {
        "tool_use".to_owned()
    };
    MessagesResponse {
        id,
        kind: "message",
        role: "assistant",
        model: model_name.to_owned(),
        content,
        stop_reason,
        usage: AnthropicUsage {
            input_tokens: ir.usage.prompt_tokens,
            output_tokens: ir.usage.completion_tokens,
        },
    }
}

/// The messages response for a response, with a new identifier.
pub fn from_intermediate(ir: IntermediateResponse, model_name: &str) -> (r: MessagesResponse)
    ensures
        ids::is_response_id(r.id@),
        r.deep_view() == response_out(ir.deep_view(), model_name@, r.id@),
{
    message_response(ir, model_name, ids::response_id())
}

// ---------------------------------------------------------------------------
// Responses as JSON
// ---------------------------------------------------------------------------

/// A block as JSON.
pub open spec fn out_block_json() -> spec_fn(OutBlockView) -> JsonView {
    |b: OutBlockView|
        JsonView::Object(
            with_some(
                with_some(
                    with_some(
                        with_some(
                            with_some(
                                no_members().insert("type"@, JsonView::Str(b.kind)),
                                "text"@,
                                protocol::optional_text(b.text),
                            ),
                            "thinking"@,
                            protocol::optional_text(b.thinking),
                        ),
                        "id"@,
                        protocol::optional_text(b.id),
                    ),
                    "name"@,
                    protocol::optional_text(b.name),
                ),
                "input"@,
                b.input,
            ),
        )
}

/// A response as JSON.
pub open spec fn response_json(r: MessagesResponseView) -> JsonView {
    JsonView::Object(
        no_members().insert("id"@, JsonView::Str(r.id)).insert(
            "type"@,
            JsonView::Str(r.kind),
        ).insert("role"@, JsonView::Str(r.role)).insert("model"@, JsonView::Str(r.model)).insert(
            "content"@,
            JsonView::Array(r.content.map_values(out_block_json())),
        ).insert("stop_reason"@, JsonView::Str(r.stop_reason)).insert(
            "usage"@,
            JsonView::Object(
                no_members().insert("input_tokens"@, int_view(r.usage.input_tokens as int)).insert(
                    "output_tokens"@,
                    int_view(r.usage.output_tokens as int),
                ),
            ),
        ),
    )
}

fn json_of_out_block(b: &AnthropicOutBlock) -> (r: Json)
    ensures
        r.deep_view() == out_block_json()(b.deep_view()),
{
    let mut m = JsonMap::new();
    m.insert_text("type", b.kind.as_str());
    if let Some(s) = &b.text {
        m.insert_text("text", s.as_str());
    }
    if let Some(s) = &b.thinking {
        m.insert_text("thinking", s.as_str());
    }
    if let Some(s) = &b.id {
        m.insert_text("id", s.as_str());
    }
    if let Some(s) = &b.name {
        m.insert_text("name", s.as_str());
    }
    m.insert_some("input", b.input.clone());
    Json::object(m)
}

impl MessagesResponse {
    /// The response as JSON.
    pub fn to_json(&self) -> (r: Json)
        ensures
            r.deep_view() == response_json(self.deep_view()),
    {
        let mut usage = JsonMap::new();
        usage.insert("input_tokens", Json::of_u64(self.usage.input_tokens as u64));
        usage.insert("output_tokens", Json::of_u64(self.usage.output_tokens as u64));
        let mut m = JsonMap::new();
        m.insert_text("id", self.id.as_str());
        m.insert_text("type", self.kind);
        m.insert_text("role", self.role);
        m.insert_text("model", self.model.as_str());
        m.insert(
            "content",
            Json::array(seqs::map_all(&self.content, json_of_out_block, Ghost(out_block_json()))),
        );
        m.insert_text("stop_reason", self.stop_reason.as_str());
        m.insert("usage", Json::object(usage));
        Json::object(m)
    }
}

// ---------------------------------------------------------------------------
// Bodies for workers
// ---------------------------------------------------------------------------

/// The word for an effort.
pub open spec fn effort_word(effort: ThinkingEffort) -> Seq<char> {
    match effort {
        ThinkingEffort::Disabled => "disabled"@,
        ThinkingEffort::Low => "low"@,
        ThinkingEffort::Medium => "medium"@,
        ThinkingEffort::High => "high"@,
        ThinkingEffort::Max => "max"@,
        ThinkingEffort::Adaptive => "adaptive"@,
    }
}

/// The word for an effort.
pub fn effort_to_anthropic_str(effort: ThinkingEffort) -> (r: &'static str)
    ensures
        r@ == effort_word(effort),
{
    match effort {
        ThinkingEffort::Disabled => "disabled",
        ThinkingEffort::Low => "low",
        ThinkingEffort::Medium => "medium",
        ThinkingEffort::High => "high",
        ThinkingEffort::Max => "max",
        ThinkingEffort::Adaptive => "adaptive",
    }
}

/// A tool choice of the given type.
pub open spec fn choice_of_type(kind: Seq<char>) -> JsonView {
    JsonView::Object(no_members().insert("type"@, JsonView::Str(kind)))
}

/// Whether a tool choice is already in this protocol's form.
pub open spec fn is_own_choice(kind: Option<Seq<char>>) -> bool {
    ||| kind == Some("auto"@)
    ||| kind == Some("any"@)
    ||| kind == Some("none"@)
    ||| kind == Some("tool"@)
}

/// The name of the tool that a choice asks for; empty where it asks for none.
pub open spec fn chosen_name(choice: JsonView) -> Seq<char> {
    text_or(
        match choice.get("name"@) {
            Some(name) => name,
            None => choice.at("function"@).at("name"@),
        },
        ""@,
    )
}

/// A tool choice in this protocol's form.
pub open spec fn choice_out(choice: JsonView) -> JsonView {
    match choice {
        JsonView::Str(s) => if s == "none"@ {
            choice_of_type("none"@)
        } else if s == "required"@ || s == "any"@ {
            choice_of_type("any"@)
        } else {
            choice_of_type("auto"@)
        },
        JsonView::Object(_) => if is_own_choice(choice.at("type"@).as_str()) {
            choice
        } else if chosen_name(choice).len() == 0 {
            choice_of_type("auto"@)
        } else {
            JsonView::Object(
                no_members().insert("type"@, JsonView::Str("tool"@)).insert(
                    "name"@,
                    JsonView::Str(chosen_name(choice)),
                ),
            )
        },
        _ => choice_of_type("auto"@),
    }
}

fn typed_choice(kind: &str) -> (r: Json)
    ensures
        r.deep_view() == choice_of_type(kind@),
{
    let mut m = JsonMap::new();
    m.insert_text("type", kind);
    Json::object(m)
}

/// A tool choice in this protocol's form.
pub fn map_tool_choice_to_anthropic(tool_choice: &Json) -> (r: Json)
    ensures
        r.deep_view() == choice_out(tool_choice.deep_view()),
{
    match tool_choice {
        Json::Str(s) => {
            if text::same(s.as_str(), "none") {
                typed_choice("none")
            } else if text::same(s.as_str(), "required") || text::same(s.as_str(), "any") {
                typed_choice("any")
            } else {
                typed_choice("auto")
            }
        },
        Json::Object(_) => {
            if let Some(kind) = tool_choice.at("type").as_str() {
                if text::same(kind, "auto") || text::same(kind, "any") || text::same(kind, "none")
                    || text::same(kind, "tool") {
                    return tool_choice.clone();
                }
            }
            let name = match tool_choice.get("name") {
                Some(name) => protocol::str_or(name, ""),
                None => protocol::str_or(tool_choice.at("function").at("name"), ""),
            };
            proof {
                reveal_strlit("");
            }
            if name.as_str().is_empty() {
                typed_choice("auto")
            } else {
                let mut m = JsonMap::new();
                m.insert_text("type", "tool");
                m.insert_text("name", name.as_str());
                Json::object(m)
            }
        },
        _ => typed_choice("auto"),
    }
}

/// The system prompt of a body: `start`, then the text of each system message, each
/// on a line of its own.
pub open spec fn body_system(start: Seq<char>, messages: Seq<MessageView>) -> Seq<char>
    decreases messages.len(),
{
    if messages.len() == 0 {
        start
    } else {
        let before = body_system(start, messages.drop_last());
        let m = messages.last();
        if m.role is System {
            (if before.len() > 0 {
                before.push('\n')
            } else {
                before
            }) + m.content
        } else {
            before
        }
    }
}

/// A tool call as a worker is shown it.
pub open spec fn body_call() -> spec_fn(ToolCallView) -> JsonView {
    |c: ToolCallView|
        JsonView::Object(
            no_members().insert("type"@, JsonView::Str("tool_use"@)).insert(
                "id"@,
                JsonView::Str(c.id),
            ).insert("name"@, JsonView::Str(c.name)).insert("input"@, c.arguments),
        )
}

/// The text of a message as a worker is shown it, if there is any.
pub open spec fn body_text(content: Seq<char>) -> Seq<JsonView> {
    if content.len() == 0 {
        Seq::empty()
    } else {
        seq![
            JsonView::Object(
                no_members().insert("type"@, JsonView::Str("text"@)).insert(
                    "text"@,
                    JsonView::Str(content),
                ),
            ),
        ]
    }
}

/// A tool result as a worker is shown it.
pub open spec fn body_result(m: MessageView) -> JsonView {
    JsonView::Object(
        with_some(
            no_members().insert("type"@, JsonView::Str("tool_result"@)).insert(
                "tool_use_id"@,
                JsonView::Str(or_empty(m.tool_call_id)),
            ).insert("content"@, JsonView::Str(m.content)),
            "is_error"@,
            protocol::bool_json(m.tool_is_error),
        ),
    )
}

/// A message as a worker is shown it.
pub open spec fn role_and_content(role: Seq<char>, content: JsonView) -> JsonView {
    JsonView::Object(
        no_members().insert("role"@, JsonView::Str(role)).insert("content"@, content),
    )
}

/// A message as a worker is shown it; system messages go elsewhere.
pub open spec fn body_message() -> spec_fn(MessageView) -> Option<JsonView> {
    |m: MessageView|
        match m.role {
            Role::System => None,
            Role::Tool => Some(
                role_and_content("user"@, JsonView::Array(seq![body_result(m)])),
            ),
            Role::Assistant => Some(
                role_and_content(
                    "assistant"@,
                    if m.tool_calls.len() == 0 {
                        JsonView::Str(m.content)
                    } else {
                        JsonView::Array(
                            body_text(m.content) + m.tool_calls.map_values(body_call()),
                        )
                    },
                ),
            ),
            Role::User => Some(role_and_content("user"@, JsonView::Str(m.content))),
        }
}

/// A tool as a worker is shown it.
pub open spec fn body_tool() -> spec_fn(ToolDefView) -> JsonView {
    |t: ToolDefView|
        JsonView::Object(
            no_members().insert("name"@, JsonView::Str(t.name)).insert(
                "description"@,
                JsonView::Str(t.description),
            ).insert("input_schema"@, t.parameters),
        )
}

/// The tools as a worker is shown them, if there are any.
pub open spec fn body_tools(tools: Seq<ToolDefView>) -> Option<JsonView> {
    if tools.len() == 0 {
        None
    } else {
        Some(JsonView::Array(tools.map_values(body_tool())))
    }
}

/// The thinking that a worker is asked for.
pub open spec fn body_thinking(t: ThinkingConfig) -> JsonView {
    match t.effort {
        ThinkingEffort::Disabled => choice_of_type("disabled"@),
        ThinkingEffort::Adaptive => choice_of_type("adaptive"@),
        _ => JsonView::Object(
            no_members().insert("type"@, JsonView::Str("enabled"@)).insert(
                "budget_tokens"@,
                int_view(
                    match t.budget_tokens {
                        Some(n) => n as int,
                        None => -1,
                    },
                ),
            ),
        ),
    }
}

/// A body with the thinking that a worker is asked for.
pub open spec fn with_thinking(
    body: Map<Seq<char>, JsonView>,
    thinking: Option<ThinkingConfig>,
) -> Map<Seq<char>, JsonView> {
    match thinking {
        None => body,
        Some(t) => {
            let b = body.insert("thinking"@, body_thinking(t));
            if t.effort is Adaptive {
                b.insert(
                    "output_config"@,
                    JsonView::Object(
                        no_members().insert("effort"@, JsonView::Str(effort_word(t.effort))),
                    ),
                )
            } else {
                b
            }
        },
    }
}

/// The members of a body that the common form of a request decides.
pub open spec fn body_members(ir: RequestView, model: Seq<char>) -> Map<Seq<char>, JsonView> {
    let system = body_system(or_empty(ir.system), ir.messages);
    let b = no_members().insert("model"@, JsonView::Str(model)).insert(
        "messages"@,
        JsonView::Array(ir.messages.filter_map(body_message())),
    ).insert("max_tokens"@, int_view(ir.max_tokens as int));
    let b = with_some(b, "system"@, protocol::optional_text(protocol::unless_empty(system)));
    let b = with_some(b, "temperature"@, protocol::single_json(ir.temperature));
    let b = with_some(b, "stop_sequences"@, protocol::stop_json(ir.stop));
    let b = with_some(b, "tools"@, body_tools(ir.tools));
    let b = with_some(
        b,
        "tool_choice"@,
        match ir.tool_choice {
            Some(c) => Some(choice_out(c)),
            None => None,
        },
    );
    let b = with_some(b, "top_p"@, protocol::single_json(ir.top_p));
    let b = with_thinking(b, ir.thinking);
    let b = with_some(b, "stream"@, protocol::stream_json(ir.stream));
    with_some(b, "metadata"@, protocol::metadata_json(ir.metadata))
}

/// The body of a request to a worker.
pub open spec fn worker_body(ir: RequestView, model: Seq<char>) -> JsonView {
    JsonView::Object(
        protocol::with_native(body_members(ir, model), ir.native, protocol::NATIVE_ANTHROPIC@),
    )
}

fn json_of_call(c: &ToolCall) -> (r: Json)
    ensures
        r.deep_view() == body_call()(c.deep_view()),
{
    let mut m = JsonMap::new();
    m.insert_text("type", "tool_use");
    m.insert_text("id", c.id.as_str());
    m.insert_text("name", c.name.as_str());
    m.insert("input", c.arguments.clone());
    Json::object(m)
}

fn json_of_role_and_content(role: &str, content: Json) -> (r: Json)
    ensures
        r.deep_view() == role_and_content(role@, content.deep_view()),
{
    let mut m = JsonMap::new();
    m.insert_text("role", role);
    m.insert("content", content);
    Json::object(m)
}

fn json_of_message(m: &Message) -> (r: Option<Json>)
    ensures
        r.deep_view() == body_message()(m.deep_view()),
{
    match m.role {
        Role::System => None,
        Role::Tool => {
            let mut result = JsonMap::new();
            result.insert_text("type", "tool_result");
            result.insert_text("tool_use_id", protocol::unwrap_text(&m.tool_call_id).as_str());
            result.insert_text("content", m.content.as_str());
            result.insert_some("is_error", protocol::json_of_bool(m.tool_is_error));
            let content = Json::array(seqs::one(Json::object(result)));
            Some(json_of_role_and_content("user", content))
        },
        Role::Assistant => {
            let content = if m.tool_calls.len() == 0 {
                Json::text(m.content.as_str())
            } else {
                let mut blocks: Vec<Json> = seqs::none();
                if !m.content.as_str().is_empty() {
                    let mut block = JsonMap::new();
                    block.insert_text("type", "text");
                    block.insert_text("text", m.content.as_str());
                    blocks = seqs::one(Json::object(block));
                }
                assert(blocks.deep_view() =~= body_text(m.content@));
                seqs::extend(
                    &mut blocks,
                    seqs::map_all(&m.tool_calls, json_of_call, Ghost(body_call())),
                );
                Json::array(blocks)
            };
            Some(json_of_role_and_content("assistant", content))
        },
        Role::User => Some(json_of_role_and_content("user", Json::text(m.content.as_str()))),
    }
}

fn json_of_tool(t: &ToolDef) -> (r: Json)
    ensures
        r.deep_view() == body_tool()(t.deep_view()),
{
    let mut m = JsonMap::new();
    m.insert_text("name", t.name.as_str());
    m.insert_text("description", t.description.as_str());
    m.insert("input_schema", t.parameters.clone());
    Json::object(m)
}

fn system_of_body(ir: &IntermediateRequest) -> (r: String)
    ensures
        r@ == body_system(or_empty(ir.deep_view().system), ir.deep_view().messages),
{
    let mut system = protocol::unwrap_text(&ir.system);
    let ghost start = system@;
    let ghost all = ir.messages.deep_view();
    let mut i: usize = 0;
    proof {
        seqs::take_ends(all);
    }
    while i < ir.messages.len()
        invariant
            i <= ir.messages@.len(),
            all == ir.messages.deep_view(),
            all.len() == ir.messages@.len(),
            system@ == body_system(start, all.take(i as int)),
        decreases ir.messages.len() - i,
    {
        proof {
            seqs::take_step(all, i as int);
        }
        if matches!(ir.messages[i].role, Role::System) {
            if !system.as_str().is_empty() {
                system.push('\n');
            }
            system.append(ir.messages[i].content.as_str());
        }
        i += 1;
    }
    system
}

fn insert_thinking(body: &mut JsonMap, thinking: &Option<ThinkingConfig>)
    ensures
        final(body).deep_view() == with_thinking(old(body).deep_view(), *thinking),
{
    if let Some(t) = thinking {
        match t.effort {
            ThinkingEffort::Disabled => {
                body.insert("thinking", typed_choice("disabled"));
            },
            ThinkingEffort::Adaptive => {
                body.insert("thinking", typed_choice("adaptive"));
                let mut config = JsonMap::new();
                config.insert_text("effort", effort_to_anthropic_str(t.effort));
                body.insert("output_config", Json::object(config));
            },
            _ => {
                let budget: i32 = match t.budget_tokens {
                    Some(n) => n,
                    None => -1,
                };
                let mut config = JsonMap::new();
                config.insert_text("type", "enabled");
                config.insert("budget_tokens", Json::of_i64(budget as i64));
                body.insert("thinking", Json::object(config));
            },
        }
    }
}

/// The body of a request to a worker.
pub fn build_worker_body(ir: &IntermediateRequest, model: &str) -> (r: Json)
    ensures
        r.deep_view() == worker_body(ir.deep_view(), model@),
{
    let messages = seqs::pick_all(&ir.messages, json_of_message, Ghost(body_message()));
    let system = system_of_body(ir);
    let mut body = JsonMap::new();
    body.insert_text("model", model);
    body.insert("messages", Json::array(messages));
    body.insert("max_tokens", Json::of_u64(ir.max_tokens as u64));
    if !system.as_str().is_empty() {
        body.insert_text("system", system.as_str());
    }
    body.insert_some("temperature", protocol::json_of_single(&ir.temperature));
    body.insert_some("stop_sequences", protocol::json_of_stop(&ir.stop));
    if ir.tools.len() > 0 {
        let tools = seqs::map_all(&ir.tools, json_of_tool, Ghost(body_tool()));
        body.insert("tools", Json::array(tools));
    }
    if let Some(choice) = &ir.tool_choice {
        body.insert("tool_choice", map_tool_choice_to_anthropic(choice));
    }
    body.insert_some("top_p", protocol::json_of_single(&ir.top_p));
    insert_thinking(&mut body, &ir.thinking);
    body.insert_some("stream", protocol::json_of_stream(ir.stream));
    body.insert_some("metadata", protocol::json_of_metadata(&ir.metadata));
    assert(body.deep_view() == body_members(ir.deep_view(), model@));
    protocol::merge_native_object(&mut body, &ir.native, protocol::NATIVE_ANTHROPIC);
    Json::object(body)
}

// ---------------------------------------------------------------------------
// Responses of workers
// ---------------------------------------------------------------------------

/// The fields of a response body that the common form stands for.
pub open spec fn known_fields() -> Seq<Seq<char>> {
    seq![
        "id"@,
        "type"@,
        "role"@,
        "model"@,
        "content"@,
        "stop_reason"@,
        "stop_sequence"@,
        "usage"@,
    ]
}

/// The text of a block of a worker.
pub open spec fn worker_text() -> spec_fn(JsonView) -> Option<Seq<char>> {
    |b: JsonView| b.at("text"@).as_str()
}

/// The thoughts of a block of a worker.
pub open spec fn worker_thought() -> spec_fn(JsonView) -> Option<Seq<char>> {
    |b: JsonView|
        if b.at("type"@).as_str() == Some("thinking"@) {
            b.at("thinking"@).as_str()
        } else {
            None
        }
}

/// The tool call of a block of a worker.
pub open spec fn worker_call() -> spec_fn(JsonView) -> Option<ToolCallView> {
    |b: JsonView|
        if b.at("type"@).as_str() == Some("tool_use"@) {
            Some(
                ToolCallView {
                    id: text_or(b.at("id"@), ""@),
                    name: text_or(b.at("name"@), ""@),
                    arguments: b.at("input"@),
                },
            )
        } else {
            None
        }
}

/// The blocks of a response body.
pub open spec fn worker_blocks(body: JsonView) -> Seq<JsonView> {
    match body.at("content"@).as_array() {
        Some(blocks) => blocks,
        None => Seq::empty(),
    }
}

/// What a worker's response body says, in the common form.
pub open spec fn worker_result(
    body: JsonView,
    model: Seq<char>,
    duration_ms: u64,
    cost_usd: Option<Usd>,
) -> WorkerResultView {
    let blocks = worker_blocks(body);
    WorkerResultView {
        model,
        name: ""@,
        api: "anthropic-messages"@,
        success: true,
        response: Some(
            ResponseView {
                id: body.at("id"@).as_str(),
                content: text::join_of(blocks.filter_map(worker_text()), ""@),
                status: None,
                finish_reason: text_or(body.at("stop_reason"@), "end_turn"@),
                usage: Usage {
                    prompt_tokens: count_of(body.at("usage"@).at("input_tokens"@)),
                    completion_tokens: count_of(body.at("usage"@).at("output_tokens"@)),
                    total_tokens: 0,
                    reasoning_tokens: 0,
                },
                cost_usd: cost_or_zero(cost_usd),
                duration_ms,
                model,
                tool_calls: blocks.filter_map(worker_call()),
                thinking: protocol::joined(blocks.filter_map(worker_thought())),
                metadata: Map::empty(),
                native: protocol::native_of_body(
                    protocol::NATIVE_ANTHROPIC@,
                    body,
                    known_fields(),
                ),
            },
        ),
        error: None,
    }
}

fn text_of_worker(b: &Json) -> (r: Option<String>)
    ensures
        r.deep_view() == worker_text()(b.deep_view()),
{
    protocol::str_of(b.at("text"))
}

fn thought_of_worker(b: &Json) -> (r: Option<String>)
    ensures
        r.deep_view() == worker_thought()(b.deep_view()),
{
    if protocol::has_type(b, "thinking") {
        protocol::str_of(b.at("thinking"))
    } else {
        None
    }
}

fn call_of_worker(b: &Json) -> (r: Option<ToolCall>)
    ensures
        r.deep_view() == worker_call()(b.deep_view()),
{
    if protocol::has_type(b, "tool_use") {
        Some(
            ToolCall {
                id: protocol::str_or(b.at("id"), ""),
                name: protocol::str_or(b.at("name"), ""),
                arguments: b.at("input").clone(),
            },
        )
    } else {
        None
    }
}

/// What a worker's response body says, in the common form.
pub fn parse_worker_response(
    body: &Json,
    model: &str,
    duration_ms: u64,
    cost_usd: Option<Usd>,
) -> (r: Result<WorkerResult, OpenFusionError>)
    ensures
        r matches Ok(wr) && wr.deep_view() == worker_result(
            body.deep_view(),
            model@,
            duration_ms,
            cost_usd,
        ),
{
    let empty: Vec<Json> = seqs::none();
    let blocks: &Vec<Json> = match body.at("content").as_array() {
        Some(blocks) => blocks,
        None => &empty,
    };
    let texts = seqs::pick_all(blocks, text_of_worker, Ghost(worker_text()));
    let thoughts = seqs::pick_all(blocks, thought_of_worker, Ghost(worker_thought()));
    let tool_calls = seqs::pick_all(blocks, call_of_worker, Ghost(worker_call()));
    let usage = body.at("usage");
    let known: Vec<&str> = vec![
        "id",
        "type",
        "role",
        "model",
        "content",
        "stop_reason",
        "stop_sequence",
        "usage",
    ];
    assert(names_view(known@) =~= known_fields());
    Ok(
        WorkerResult {
            model: model.to_owned(),
            name: "".to_owned(),
            api: "anthropic-messages".to_owned(),
            success: true,
            response: Some(
                IntermediateResponse {
                    id: protocol::str_of(body.at("id")),
                    content: text::join(&texts, ""),
                    status: None,
                    finish_reason: protocol::str_or(body.at("stop_reason"), "end_turn"),
                    usage: Usage {
                        prompt_tokens: protocol::count(usage.at("input_tokens")),
                        completion_tokens: protocol::count(usage.at("output_tokens")),
                        total_tokens: 0,
                        reasoning_tokens: 0,
                    },
                    cost_usd: protocol::unwrap_cost(cost_usd),
                    duration_ms,
                    model: model.to_owned(),
                    tool_calls,
                    thinking: protocol::join_some(&thoughts),
                    metadata: JsonMap::new(),
                    native: protocol::native_from_body_excluding(
                        protocol::NATIVE_ANTHROPIC,
                        body,
                        &known,
                    ),
                },
            ),
            error: None,
        },
    )
}

} // verus!
