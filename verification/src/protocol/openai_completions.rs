//! OpenAI's chat completions protocol.
//!
//! A request holds `messages` with roles, a response holds `choices` with one
//! message each. Arguments of tool calls travel as JSON text.

use vstd::prelude::*;

use crate::error::{ErrorView, OpenFusionError};
use crate::ids;
use crate::json;
use crate::json::{int_view, json_text, names_view, no_members, with_some, Json, JsonMap, JsonView};
use crate::protocol;
use crate::protocol::{
    call_arguments_of, cost_or_zero, count_of, filled_text, nullable_text, optional_text,
    unless_empty, IntermediateRequest, IntermediateResponse, Message,
    MessageView, RequestView, ResponseView, Role, Single, SingleView, ThinkingConfig,
    ThinkingEffort, ToolCall, ToolCallView, ToolDef, ToolDefView, Usage, Usd, WorkerResult,
    WorkerResultView,
};
use crate::seqs;
use crate::text;

verus! {

// ---------------------------------------------------------------------------
// Requests as they come in
// ---------------------------------------------------------------------------

/// A chat completion request.
#[derive(Debug)]
pub struct ChatCompletionRequest {
    pub model: String,
    pub messages: Vec<ChatMessage>,
    pub max_tokens: u32,
    pub temperature: Option<Single>,
    pub top_p: Option<Single>,
    pub stop: Vec<String>,
    pub api_key: Option<String>,
    pub stream: bool,
    pub tools: Vec<ChatTool>,
    pub tool_choice: Option<Json>,
    pub parallel_tool_calls: Option<bool>,
    pub reasoning: Option<ChatReasoning>,
    pub metadata: JsonMap,
    pub extra: JsonMap,
}

#[derive(Debug)]
pub struct ChatReasoning {
    pub effort: Option<String>,
}

#[derive(Debug)]
pub struct ChatMessage {
    pub role: String,
    pub content: Option<ChatContent>,
    pub tool_call_id: Option<String>,
    pub is_error: Option<bool>,
    pub tool_calls: Vec<ChatToolCall>,
}

#[derive(Debug)]
pub struct ChatTool {
    pub kind: String,
    pub function: ChatToolFunction,
}

#[derive(Debug)]
pub struct ChatToolFunction {
    pub name: String,
    pub description: String,
    pub parameters: Json,
}

#[derive(Debug)]
pub struct ChatToolCall {
    pub id: String,
    pub function: ChatToolCallFunction,
}

#[derive(Debug)]
pub struct ChatToolCallFunction {
    pub name: String,
    pub arguments: String,
}

#[derive(Debug)]
pub enum ChatContent {
    Text(String),
    Parts(Vec<ContentPart>),
}

#[derive(Debug)]
pub struct ContentPart {
    pub kind: String,
    pub text: Option<String>,
}

#[verifier::ext_equal]
pub struct ChatRequestView {
    pub model: Seq<char>,
    pub messages: Seq<ChatMessageView>,
    pub max_tokens: u32,
    pub temperature: Option<SingleView>,
    pub top_p: Option<SingleView>,
    pub stop: Seq<Seq<char>>,
    pub api_key: Option<Seq<char>>,
    pub stream: bool,
    pub tools: Seq<ChatToolView>,
    pub tool_choice: Option<JsonView>,
    pub parallel_tool_calls: Option<bool>,
    pub reasoning: Option<Option<Seq<char>>>,
    pub metadata: Map<Seq<char>, JsonView>,
    pub extra: Map<Seq<char>, JsonView>,
}

#[verifier::ext_equal]
pub struct ChatMessageView {
    pub role: Seq<char>,
    pub content: Option<ChatContentView>,
    pub tool_call_id: Option<Seq<char>>,
    pub is_error: Option<bool>,
    pub tool_calls: Seq<ChatToolCallView>,
}

#[verifier::ext_equal]
pub struct ChatToolView {
    pub kind: Seq<char>,
    pub name: Seq<char>,
    pub description: Seq<char>,
    pub parameters: JsonView,
}

#[verifier::ext_equal]
pub struct ChatToolCallView {
    pub id: Seq<char>,
    pub name: Seq<char>,
    pub arguments: Seq<char>,
}

#[verifier::ext_equal]
pub enum ChatContentView {
    Text(Seq<char>),
    Parts(Seq<ContentPartView>),
}

#[verifier::ext_equal]
pub struct ContentPartView {
    pub kind: Seq<char>,
    pub text: Option<Seq<char>>,
}

impl DeepView for ChatReasoning {
    type V = Option<Seq<char>>;

    open spec fn deep_view(&self) -> Option<Seq<char>> {
        self.effort.deep_view()
    }
}

impl DeepView for ContentPart {
    type V = ContentPartView;

    open spec fn deep_view(&self) -> ContentPartView {
        ContentPartView { kind: self.kind@, text: self.text.deep_view() }
    }
}

impl DeepView for ChatContent {
    type V = ChatContentView;

    open spec fn deep_view(&self) -> ChatContentView {
        match *self {
            ChatContent::Text(s) => ChatContentView::Text(s@),
            ChatContent::Parts(parts) => ChatContentView::Parts(parts.deep_view()),
        }
    }
}

impl DeepView for ChatToolCall {
    type V = ChatToolCallView;

    open spec fn deep_view(&self) -> ChatToolCallView {
        ChatToolCallView {
            id: self.id@,
            name: self.function.name@,
            arguments: self.function.arguments@,
        }
    }
}

impl DeepView for ChatTool {
    type V = ChatToolView;

    open spec fn deep_view(&self) -> ChatToolView {
        ChatToolView {
            kind: self.kind@,
            name: self.function.name@,
            description: self.function.description@,
            parameters: self.function.parameters.deep_view(),
        }
    }
}

impl DeepView for ChatMessage {
    type V = ChatMessageView;

    open spec fn deep_view(&self) -> ChatMessageView {
        ChatMessageView {
            role: self.role@,
            content: self.content.deep_view(),
            tool_call_id: self.tool_call_id.deep_view(),
            is_error: self.is_error,
            tool_calls: self.tool_calls.deep_view(),
        }
    }
}

impl DeepView for ChatCompletionRequest {
    type V = ChatRequestView;

    open spec fn deep_view(&self) -> ChatRequestView {
        ChatRequestView {
            model: self.model@,
            messages: self.messages.deep_view(),
            max_tokens: self.max_tokens,
            temperature: self.temperature.deep_view(),
            top_p: self.top_p.deep_view(),
            stop: self.stop.deep_view(),
            api_key: self.api_key.deep_view(),
            stream: self.stream,
            tools: self.tools.deep_view(),
            tool_choice: self.tool_choice.deep_view(),
            parallel_tool_calls: self.parallel_tool_calls,
            reasoning: self.reasoning.deep_view(),
            metadata: self.metadata.deep_view(),
            extra: self.extra.deep_view(),
        }
    }
}

impl Default for ChatContent {
    fn default() -> (r: Self)
        ensures
            r.deep_view() == ChatContentView::Text(Seq::empty()),
    {
        ChatContent::Text(String::new())
    }
}

impl Default for ChatToolCallFunction {
    fn default() -> (r: Self)
        ensures
            r.name@ == Seq::<char>::empty(),
            r.arguments@ == Seq::<char>::empty(),
    {
        ChatToolCallFunction { name: String::new(), arguments: String::new() }
    }
}

/// The token limit of a request that names none.
pub fn default_max_tokens() -> (r: u32)
    ensures
        r == 2048,
{
    2048
}

// ---------------------------------------------------------------------------
// Thinking
// ---------------------------------------------------------------------------

/// The word for an effort.
pub open spec fn effort_word(effort: ThinkingEffort) -> Seq<char> {
    match effort {
        ThinkingEffort::Disabled => "none"@,
        ThinkingEffort::Low => "low"@,
        ThinkingEffort::Medium => "medium"@,
        ThinkingEffort::High => "high"@,
        ThinkingEffort::Max => "xhigh"@,
        ThinkingEffort::Adaptive => "medium"@,
    }
}

/// The word for an effort.
pub fn effort_to_openai_str(effort: ThinkingEffort) -> (r: &'static str)
    ensures
        r@ == effort_word(effort),
{
    match effort {
        ThinkingEffort::Disabled => "none",
        ThinkingEffort::Low => "low",
        ThinkingEffort::Medium => "medium",
        ThinkingEffort::High => "high",
        ThinkingEffort::Max => "xhigh",
        ThinkingEffort::Adaptive => "medium",
    }
}

/// The effort that a word asks for.
pub open spec fn effort_of_word(word: Option<Seq<char>>) -> ThinkingEffort {
    match word {
        Some(w) => if w == "none"@ || w == "disabled"@ {
            ThinkingEffort::Disabled
        } else if w == "minimal"@ || w == "low"@ {
            ThinkingEffort::Low
        } else if w == "medium"@ {
            ThinkingEffort::Medium
        } else if w == "high"@ {
            ThinkingEffort::High
        } else if w == "xhigh"@ || w == "max"@ || w == "ultra"@ {
            ThinkingEffort::Max
        } else {
            ThinkingEffort::Adaptive
        },
        None => ThinkingEffort::Adaptive,
    }
}

/// The effort that a word asks for.
pub fn effort_from_word(word: &Option<String>) -> (r: ThinkingEffort)
    ensures
        r == effort_of_word(word.deep_view()),
{
    match word {
        Some(w) => {
            let w = w.as_str();
            if text::same(w, "none") || text::same(w, "disabled") {
                ThinkingEffort::Disabled
            } else if text::same(w, "minimal") || text::same(w, "low") {
                ThinkingEffort::Low
            } else if text::same(w, "medium") {
                ThinkingEffort::Medium
            } else if text::same(w, "high") {
                ThinkingEffort::High
            } else if text::same(w, "xhigh") || text::same(w, "max") || text::same(w, "ultra") {
                ThinkingEffort::Max
            } else {
                ThinkingEffort::Adaptive
            }
        },
        None => ThinkingEffort::Adaptive,
    }
}

/// The thinking that the `reasoning` field of a request asks for.
pub open spec fn chat_thinking(reasoning: Option<Option<Seq<char>>>) -> Option<ThinkingConfig> {
    match reasoning {
        Some(word) => Some(
            ThinkingConfig { effort: effort_of_word(word), budget_tokens: None, summary: false },
        ),
        None => None,
    }
}

/// The thinking that the `reasoning` field of a request asks for.
pub fn parse_openai_chat_reasoning(reasoning: Option<ChatReasoning>) -> (r: Option<ThinkingConfig>)
    ensures
        r == chat_thinking(reasoning.deep_view()),
{
    match reasoning {
        Some(reasoning) => Some(
            ThinkingConfig {
                effort: effort_from_word(&reasoning.effort),
                budget_tokens: None,
                summary: false,
            },
        ),
        None => None,
    }
}

// ---------------------------------------------------------------------------
// From a request to the common form
// ---------------------------------------------------------------------------

/// The role that a word names.
pub open spec fn role_of_word(word: Seq<char>) -> Role {
    if word == "system"@ {
        Role::System
    } else if word == "assistant"@ {
        Role::Assistant
    } else if word == "tool"@ {
        Role::Tool
    } else {
        Role::User
    }
}

/// The text of a part that holds text.
pub open spec fn part_text() -> spec_fn(ContentPartView) -> Option<Seq<char>> {
    |p: ContentPartView|
        if p.kind == "text"@ {
            p.text
        } else {
            None
        }
}

/// The text of a message.
pub open spec fn content_text(content: Option<ChatContentView>) -> Seq<char> {
    match content {
        None => Seq::empty(),
        Some(ChatContentView::Text(s)) => s,
        Some(ChatContentView::Parts(parts)) => text::join_of(parts.filter_map(part_text()), "\n"@),
    }
}

/// A tool call in the common form.
pub open spec fn call_in() -> spec_fn(ChatToolCallView) -> ToolCallView {
    |c: ChatToolCallView|
        ToolCallView {
            id: c.id,
            name: c.name,
            arguments: protocol::parsed_or_empty(c.arguments),
        }
}

/// A message in the common form.
pub open spec fn message_in() -> spec_fn(ChatMessageView) -> MessageView {
    |m: ChatMessageView|
        MessageView {
            role: role_of_word(m.role),
            content: content_text(m.content),
            tool_call_id: m.tool_call_id,
            tool_is_error: m.is_error,
            tool_calls: m.tool_calls.map_values(call_in()),
        }
}

/// A tool in the common form; only functions are tools.
pub open spec fn tool_in() -> spec_fn(ChatToolView) -> Option<ToolDefView> {
    |t: ChatToolView|
        if t.kind == "function"@ {
            Some(
                ToolDefView { name: t.name, description: t.description, parameters: t.parameters },
            )
        } else {
            None
        }
}

/// A request in the common form.
pub open spec fn request_in(req: ChatRequestView) -> RequestView {
    RequestView {
        messages: req.messages.map_values(message_in()),
        max_tokens: req.max_tokens,
        temperature: req.temperature,
        top_p: req.top_p,
        stop: req.stop,
        api_key: req.api_key,
        tools: req.tools.filter_map(tool_in()),
        tool_choice: req.tool_choice,
        parallel_tool_calls: req.parallel_tool_calls,
        thinking: chat_thinking(req.reasoning),
        session_id: None,
        system: None,
        stream: req.stream,
        metadata: req.metadata,
        native: protocol::kept_under(protocol::NATIVE_OPENAI_CHAT@, req.extra),
    }
}

fn role_from_word(word: &str) -> (r: Role)
    ensures
        r == role_of_word(word@),
{
    if text::same(word, "system") {
        Role::System
    } else if text::same(word, "assistant") {
        Role::Assistant
    } else if text::same(word, "tool") {
        Role::Tool
    } else {
        Role::User
    }
}

fn text_of_part(p: &ContentPart) -> (r: Option<String>)
    ensures
        r.deep_view() == part_text()(p.deep_view()),
{
    if text::same(p.kind.as_str(), "text") {
        p.text.clone()
    } else {
        None
    }
}

fn text_of_content(content: &Option<ChatContent>) -> (r: String)
    ensures
        r@ == content_text(content.deep_view()),
{
    match content {
        None => String::new(),
        Some(ChatContent::Text(s)) => s.clone(),
        Some(ChatContent::Parts(parts)) => text::join(
            &seqs::pick_all(parts, text_of_part, Ghost(part_text())),
            "\n",
        ),
    }
}

fn tool_call_in(c: &ChatToolCall) -> (r: ToolCall)
    ensures
        r.deep_view() == call_in()(c.deep_view()),
{
    ToolCall {
        id: c.id.clone(),
        name: c.function.name.clone(),
        arguments: protocol::parse_or_empty(c.function.arguments.as_str()),
    }
}

fn message_from_chat(m: &ChatMessage) -> (r: Message)
    ensures
        r.deep_view() == message_in()(m.deep_view()),
{
    Message {
        role: role_from_word(m.role.as_str()),
        content: text_of_content(&m.content),
        tool_call_id: m.tool_call_id.clone(),
        tool_is_error: m.is_error,
        tool_calls: seqs::map_all(&m.tool_calls, tool_call_in, Ghost(call_in())),
    }
}

fn tool_from_chat(t: &ChatTool) -> (r: Option<ToolDef>)
    ensures
        r.deep_view() == tool_in()(t.deep_view()),
{
    if text::same(t.kind.as_str(), "function") {
        Some(
            ToolDef {
                name: t.function.name.clone(),
                description: t.function.description.clone(),
                parameters: t.function.parameters.clone(),
            },
        )
    } else {
        None
    }
}

/// A request in the common form, or what is wrong with it.
pub fn to_intermediate(req: ChatCompletionRequest) -> (r: Result<
    IntermediateRequest,
    OpenFusionError,
>)
    ensures
        match protocol::fault_of(
            req.messages.deep_view().len(),
            req.max_tokens,
            req.temperature.deep_view(),
        ) {
            Some(fault) => r matches Err(e) && e.deep_view() == ErrorView::Protocol(fault),
            None => r matches Ok(ir) && ir.deep_view() == request_in(req.deep_view()),
        },
{
    if let Some(fault) = protocol::request_fault(
        req.messages.len(),
        req.max_tokens,
        &req.temperature,
    ) {
        return Err(OpenFusionError::Protocol(fault));
    }
    let messages = seqs::map_all(&req.messages, message_from_chat, Ghost(message_in()));
    let tools = seqs::pick_all(&req.tools, tool_from_chat, Ghost(tool_in()));
    let thinking = parse_openai_chat_reasoning(req.reasoning);
    Ok(
        IntermediateRequest {
            messages,
            max_tokens: req.max_tokens,
            temperature: req.temperature,
            top_p: req.top_p,
            stop: req.stop,
            api_key: req.api_key,
            tools,
            tool_choice: req.tool_choice,
            parallel_tool_calls: req.parallel_tool_calls,
            thinking,
            session_id: None,
            system: None,
            stream: req.stream,
            metadata: req.metadata,
            native: protocol::native_from_extra(protocol::NATIVE_OPENAI_CHAT, req.extra),
        },
    )
}

// ---------------------------------------------------------------------------
// Responses as they go out
// ---------------------------------------------------------------------------

/// A chat completion.
#[derive(Debug)]
pub struct ChatCompletionResponse {
    pub id: String,
    pub object: &'static str,
    pub created: i64,
    pub model: String,
    pub choices: Vec<ChatChoice>,
    pub usage: ChatUsage,
}

#[derive(Debug)]
pub struct ChatChoice {
    pub index: u32,
    pub message: ChatResponseMessage,
    pub finish_reason: String,
}

#[derive(Debug)]
pub struct ChatResponseMessage {
    pub role: &'static str,
    pub content: Option<String>,
    pub reasoning: Option<String>,
    pub tool_calls: Vec<ChatResponseToolCall>,
}

#[derive(Debug)]
pub struct ChatResponseToolCall {
    pub id: String,
    pub kind: &'static str,
    pub function: ChatResponseToolCallFunction,
}

#[derive(Debug)]
pub struct ChatResponseToolCallFunction {
    pub name: String,
    pub arguments: String,
}

#[derive(Clone, Copy, Debug, PartialEq, Eq, Structural)]
pub struct ChatUsage {
    pub prompt_tokens: u32,
    pub completion_tokens: u32,
    pub total_tokens: u32,
}

#[verifier::ext_equal]
pub struct ChatResponseView {
    pub id: Seq<char>,
    pub object: Seq<char>,
    pub created: i64,
    pub model: Seq<char>,
    pub choices: Seq<ChatChoiceView>,
    pub usage: ChatUsage,
}

#[verifier::ext_equal]
pub struct ChatChoiceView {
    pub index: u32,
    pub message: ChatResponseMessageView,
    pub finish_reason: Seq<char>,
}

#[verifier::ext_equal]
pub struct ChatResponseMessageView {
    pub role: Seq<char>,
    pub content: Option<Seq<char>>,
    pub reasoning: Option<Seq<char>>,
    pub tool_calls: Seq<ChatResponseToolCallView>,
}

#[verifier::ext_equal]
pub struct ChatResponseToolCallView {
    pub id: Seq<char>,
    pub kind: Seq<char>,
    pub name: Seq<char>,
    pub arguments: Seq<char>,
}

impl DeepView for ChatResponseToolCall {
    type V = ChatResponseToolCallView;

    open spec fn deep_view(&self) -> ChatResponseToolCallView {
        ChatResponseToolCallView {
            id: self.id@,
            kind: self.kind@,
            name: self.function.name@,
            arguments: self.function.arguments@,
        }
    }
}

impl DeepView for ChatResponseMessage {
    type V = ChatResponseMessageView;

    open spec fn deep_view(&self) -> ChatResponseMessageView {
        ChatResponseMessageView {
            role: self.role@,
            content: self.content.deep_view(),
            reasoning: self.reasoning.deep_view(),
            tool_calls: self.tool_calls.deep_view(),
        }
    }
}

impl DeepView for ChatChoice {
    type V = ChatChoiceView;

    open spec fn deep_view(&self) -> ChatChoiceView {
        ChatChoiceView {
            index: self.index,
            message: self.message.deep_view(),
            finish_reason: self.finish_reason@,
        }
    }
}

impl DeepView for ChatCompletionResponse {
    type V = ChatResponseView;

    open spec fn deep_view(&self) -> ChatResponseView {
        ChatResponseView {
            id: self.id@,
            object: self.object@,
            created: self.created,
            model: self.model@,
            choices: self.choices.deep_view(),
            usage: self.usage,
        }
    }
}

/// A tool call as a response shows it.
pub open spec fn call_out() -> spec_fn(ToolCallView) -> ChatResponseToolCallView {
    |c: ToolCallView|
        ChatResponseToolCallView {
            id: c.id,
            kind: "function"@,
            name: c.name,
            arguments: json_text(c.arguments),
        }
}

/// The chat completion for a response.
pub open spec fn response_out(
    ir: ResponseView,
    model: Seq<char>,
    id: Seq<char>,
    created: i64,
) -> ChatResponseView {
    ChatResponseView {
        id,
        object: "chat.completion"@,
        created,
        model,
        choices: seq![
            ChatChoiceView {
                index: 0,
                message: ChatResponseMessageView {
                    role: "assistant"@,
                    content: unless_empty(ir.content),
                    reasoning: ir.thinking,
                    tool_calls: ir.tool_calls.map_values(call_out()),
                },
                finish_reason: ir.finish_reason,
            },
        ],
        usage: ChatUsage {
            prompt_tokens: ir.usage.prompt_tokens,
            completion_tokens: ir.usage.completion_tokens,
            total_tokens: ir.usage.total_tokens,
        },
    }
}

fn tool_call_out(c: &ToolCall) -> (r: ChatResponseToolCall)
    ensures
        r.deep_view() == call_out()(c.deep_view()),
{
    ChatResponseToolCall {
        id: c.id.clone(),
        kind: "function",
        function: ChatResponseToolCallFunction {
            name: c.name.clone(),
            arguments: json::to_text(&c.arguments),
        },
    }
}

/// The chat completion for a response, with an identifier and a time of creation.
pub fn completion(
    ir: IntermediateResponse,
    model_name: &str,
    id: String,
    created: i64,
) -> (r: ChatCompletionResponse)
    ensures
        r.deep_view() == response_out(ir.deep_view(), model_name@, id@, created),
{
    let tool_calls = seqs::map_all(&ir.tool_calls, tool_call_out, Ghost(call_out()));
    let content = if ir.content.as_str().is_empty() {
        None
    } else {
        Some(ir.content)
    };
    ChatCompletionResponse {
        id,
        object: "chat.completion",
        created,
        model: model_name.to_owned(),
        choices: seqs::one(
            ChatChoice {
                index: 0,
                message: ChatResponseMessage {
                    role: "assistant",
                    content,
                    reasoning: ir.thinking,
                    tool_calls,
                },
                finish_reason: ir.finish_reason,
            },
        ),
        usage: ChatUsage {
            prompt_tokens: ir.usage.prompt_tokens,
            completion_tokens: ir.usage.completion_tokens,
            total_tokens: ir.usage.total_tokens,
        },
    }
}

/// The chat completion for a response, with a new identifier and created now.
pub fn from_intermediate(ir: IntermediateResponse, model_name: &str) -> (r: ChatCompletionResponse)
    ensures
        ids::is_response_id(r.id@),
        r.deep_view() == response_out(ir.deep_view(), model_name@, r.id@, r.created),
{
    completion(ir, model_name, ids::response_id(), ids::now_seconds())
}

// ---------------------------------------------------------------------------
// Responses as JSON
// ---------------------------------------------------------------------------

/// A tool call of a response as JSON.
pub open spec fn out_call_json() -> spec_fn(ChatResponseToolCallView) -> JsonView {
    |c: ChatResponseToolCallView|
        JsonView::Object(
            no_members().insert("id"@, JsonView::Str(c.id)).insert(
                "type"@,
                JsonView::Str(c.kind),
            ).insert(
                "function"@,
                JsonView::Object(
                    no_members().insert("name"@, JsonView::Str(c.name)).insert(
                        "arguments"@,
                        JsonView::Str(c.arguments),
                    ),
                ),
            ),
        )
}

/// The tool calls of a response as JSON, if there are any.
pub open spec fn out_calls_json(calls: Seq<ChatResponseToolCallView>) -> Option<JsonView> {
    if calls.len() == 0 {
        None
    } else {
        Some(JsonView::Array(calls.map_values(out_call_json())))
    }
}

/// A choice of a response as JSON.
pub open spec fn choice_json() -> spec_fn(ChatChoiceView) -> JsonView {
    |c: ChatChoiceView|
        JsonView::Object(
            no_members().insert("index"@, int_view(c.index as int)).insert(
                "message"@,
                JsonView::Object(
                    with_some(
                        with_some(
                            no_members().insert("role"@, JsonView::Str(c.message.role)).insert(
                                "content"@,
                                nullable_text(c.message.content),
                            ),
                            "reasoning"@,
                            optional_text(c.message.reasoning),
                        ),
                        "tool_calls"@,
                        out_calls_json(c.message.tool_calls),
                    ),
                ),
            ).insert("finish_reason"@, JsonView::Str(c.finish_reason)),
        )
}

/// A response as JSON.
pub open spec fn response_json(r: ChatResponseView) -> JsonView {
    JsonView::Object(
        no_members().insert("id"@, JsonView::Str(r.id)).insert(
            "object"@,
            JsonView::Str(r.object),
        ).insert("created"@, int_view(r.created as int)).insert(
            "model"@,
            JsonView::Str(r.model),
        ).insert("choices"@, JsonView::Array(r.choices.map_values(choice_json()))).insert(
            "usage"@,
            JsonView::Object(
                no_members().insert("prompt_tokens"@, int_view(r.usage.prompt_tokens as int)).insert(
                    "completion_tokens"@,
                    int_view(r.usage.completion_tokens as int),
                ).insert("total_tokens"@, int_view(r.usage.total_tokens as int)),
            ),
        ),
    )
}

fn json_of_out_call(c: &ChatResponseToolCall) -> (r: Json)
    ensures
        r.deep_view() == out_call_json()(c.deep_view()),
{
    let mut function = JsonMap::new();
    function.insert_text("name", c.function.name.as_str());
    function.insert_text("arguments", c.function.arguments.as_str());
    let mut m = JsonMap::new();
    m.insert_text("id", c.id.as_str());
    m.insert_text("type", c.kind);
    m.insert("function", Json::object(function));
    Json::object(m)
}

fn json_of_choice(c: &ChatChoice) -> (r: Json)
    ensures
        r.deep_view() == choice_json()(c.deep_view()),
{
    let mut message = JsonMap::new();
    message.insert_text("role", c.message.role);
    match &c.message.content {
        Some(s) => message.insert_text("content", s.as_str()),
        None => message.insert("content", Json::Null),
    }
    if let Some(s) = &c.message.reasoning {
        message.insert_text("reasoning", s.as_str());
    }
    if c.message.tool_calls.len() > 0 {
        message.insert(
            "tool_calls",
            Json::array(
                seqs::map_all(&c.message.tool_calls, json_of_out_call, Ghost(out_call_json())),
            ),
        );
    }
    let mut m = JsonMap::new();
    m.insert("index", Json::of_u64(c.index as u64));
    m.insert("message", Json::object(message));
    m.insert_text("finish_reason", c.finish_reason.as_str());
    Json::object(m)
}

impl ChatCompletionResponse {
    /// The response as JSON.
    pub fn to_json(&self) -> (r: Json)
        ensures
            r.deep_view() == response_json(self.deep_view()),
    {
        let mut usage = JsonMap::new();
        usage.insert("prompt_tokens", Json::of_u64(self.usage.prompt_tokens as u64));
        usage.insert("completion_tokens", Json::of_u64(self.usage.completion_tokens as u64));
        usage.insert("total_tokens", Json::of_u64(self.usage.total_tokens as u64));
        let mut m = JsonMap::new();
        m.insert_text("id", self.id.as_str());
        m.insert_text("object", self.object);
        m.insert("created", Json::of_i64(self.created));
        m.insert_text("model", self.model.as_str());
        m.insert(
            "choices",
            Json::array(seqs::map_all(&self.choices, json_of_choice, Ghost(choice_json()))),
        );
        m.insert("usage", Json::object(usage));
        Json::object(m)
    }
}

// ---------------------------------------------------------------------------
// Bodies for workers
// ---------------------------------------------------------------------------

/// A tool call as a worker is shown it.
pub open spec fn body_call() -> spec_fn(ToolCallView) -> JsonView {
    |c: ToolCallView|
        JsonView::Object(
            no_members().insert("id"@, JsonView::Str(c.id)).insert(
                "type"@,
                JsonView::Str("function"@),
            ).insert(
                "function"@,
                JsonView::Object(
                    no_members().insert("name"@, JsonView::Str(c.name)).insert(
                        "arguments"@,
                        JsonView::Str(json_text(c.arguments)),
                    ),
                ),
            ),
        )
}

/// The word for a role.
pub open spec fn role_word(role: Role) -> Seq<char> {
    match role {
        Role::System => "system"@,
        Role::Assistant => "assistant"@,
        Role::User => "user"@,
        Role::Tool => "tool"@,
    }
}

/// A message as a worker is shown it.
pub open spec fn body_message() -> spec_fn(MessageView) -> JsonView {
    |m: MessageView|
        JsonView::Object(
            if m.role is Tool {
                with_some(
                    with_some(
                        no_members().insert("role"@, JsonView::Str("tool"@)).insert(
                            "content"@,
                            JsonView::Str(m.content),
                        ),
                        "tool_call_id"@,
                        optional_text(m.tool_call_id),
                    ),
                    "is_error"@,
                    protocol::bool_json(m.tool_is_error),
                )
            } else if m.role is Assistant && m.tool_calls.len() > 0 {
                no_members().insert("role"@, JsonView::Str("assistant"@)).insert(
                    "content"@,
                    nullable_text(unless_empty(m.content)),
                ).insert("tool_calls"@, JsonView::Array(m.tool_calls.map_values(body_call())))
            } else {
                no_members().insert("role"@, JsonView::Str(role_word(m.role))).insert(
                    "content"@,
                    JsonView::Str(m.content),
                )
            },
        )
}

/// A tool as a worker is shown it.
pub open spec fn body_tool() -> spec_fn(ToolDefView) -> JsonView {
    |t: ToolDefView|
        JsonView::Object(
            no_members().insert("type"@, JsonView::Str("function"@)).insert(
                "function"@,
                JsonView::Object(
                    no_members().insert("name"@, JsonView::Str(t.name)).insert(
                        "description"@,
                        JsonView::Str(t.description),
                    ).insert("parameters"@, t.parameters),
                ),
            ),
        )
}

/// The tools as a worker is shown them, if there are any.
pub open spec fn body_tools(tools: Seq<ToolDefView>) -> Option<JsonView> {
    if tools.len() == 0 {
        None
    } else {
        Some(JsonView::Array(tools.map_values(body_tool())))
    }
}

/// The reasoning that a worker is asked for, if any.
pub open spec fn body_reasoning(thinking: Option<ThinkingConfig>) -> Option<JsonView> {
    match thinking {
        Some(t) => Some(
            JsonView::Object(
                no_members().insert("effort"@, JsonView::Str(effort_word(t.effort))),
            ),
        ),
        None => None,
    }
}

/// The members of a body that the common form of a request decides.
pub open spec fn body_members(ir: RequestView, model: Seq<char>) -> Map<Seq<char>, JsonView> {
    let b = no_members().insert("model"@, JsonView::Str(model)).insert(
        "messages"@,
        JsonView::Array(ir.messages.map_values(body_message())),
    ).insert("max_tokens"@, int_view(ir.max_tokens as int));
    let b = with_some(b, "temperature"@, protocol::single_json(ir.temperature));
    let b = with_some(b, "top_p"@, protocol::single_json(ir.top_p));
    let b = with_some(b, "stop"@, protocol::stop_json(ir.stop));
    let b = with_some(b, "tools"@, body_tools(ir.tools));
    let b = with_some(b, "tool_choice"@, ir.tool_choice);
    let b = with_some(b, "parallel_tool_calls"@, protocol::bool_json(ir.parallel_tool_calls));
    let b = with_some(b, "metadata"@, protocol::metadata_json(ir.metadata));
    let b = with_some(b, "reasoning"@, body_reasoning(ir.thinking));
    with_some(b, "stream"@, protocol::stream_json(ir.stream))
}

/// The body of a request to a worker.
pub open spec fn worker_body(ir: RequestView, model: Seq<char>) -> JsonView {
    JsonView::Object(
        protocol::with_native(body_members(ir, model), ir.native, protocol::NATIVE_OPENAI_CHAT@),
    )
}

fn json_of_call(c: &ToolCall) -> (r: Json)
    ensures
        r.deep_view() == body_call()(c.deep_view()),
{
    let mut function = JsonMap::new();
    function.insert_text("name", c.name.as_str());
    function.insert("arguments", Json::Str(json::to_text(&c.arguments)));
    let mut m = JsonMap::new();
    m.insert_text("id", c.id.as_str());
    m.insert_text("type", "function");
    m.insert("function", Json::object(function));
    Json::object(m)
}

fn json_of_message(m: &Message) -> (r: Json)
    ensures
        r.deep_view() == body_message()(m.deep_view()),
{
    let mut msg = JsonMap::new();
    match m.role {
        Role::Tool => {
            msg.insert_text("role", "tool");
            msg.insert_text("content", m.content.as_str());
            if let Some(id) = &m.tool_call_id {
                msg.insert_text("tool_call_id", id.as_str());
            }
            msg.insert_some("is_error", protocol::json_of_bool(m.tool_is_error));
            return Json::object(msg);
        },
        Role::Assistant => {
            if m.tool_calls.len() > 0 {
                msg.insert_text("role", "assistant");
                if m.content.as_str().is_empty() {
                    msg.insert("content", Json::Null);
                } else {
                    msg.insert_text("content", m.content.as_str());
                }
                msg.insert(
                    "tool_calls",
                    Json::array(seqs::map_all(&m.tool_calls, json_of_call, Ghost(body_call()))),
                );
                return Json::object(msg);
            }
            msg.insert_text("role", "assistant");
        },
        Role::System => {
            msg.insert_text("role", "system");
        },
        Role::User => {
            msg.insert_text("role", "user");
        },
    }
    msg.insert_text("content", m.content.as_str());
    Json::object(msg)
}

fn json_of_tool(t: &ToolDef) -> (r: Json)
    ensures
        r.deep_view() == body_tool()(t.deep_view()),
{
    let mut function = JsonMap::new();
    function.insert_text("name", t.name.as_str());
    function.insert_text("description", t.description.as_str());
    function.insert("parameters", t.parameters.clone());
    let mut m = JsonMap::new();
    m.insert_text("type", "function");
    m.insert("function", Json::object(function));
    Json::object(m)
}

/// The body of a request to a worker.
pub fn build_worker_body(ir: &IntermediateRequest, model: &str) -> (r: Json)
    ensures
        r.deep_view() == worker_body(ir.deep_view(), model@),
{
    let messages = seqs::map_all(&ir.messages, json_of_message, Ghost(body_message()));
    let mut body = JsonMap::new();
    body.insert_text("model", model);
    body.insert("messages", Json::array(messages));
    body.insert("max_tokens", Json::of_u64(ir.max_tokens as u64));
    body.insert_some("temperature", protocol::json_of_single(&ir.temperature));
    body.insert_some("top_p", protocol::json_of_single(&ir.top_p));
    body.insert_some("stop", protocol::json_of_stop(&ir.stop));
    if ir.tools.len() > 0 {
        let tools = seqs::map_all(&ir.tools, json_of_tool, Ghost(body_tool()));
        body.insert("tools", Json::array(tools));
    }
    body.insert_some("tool_choice", ir.tool_choice.clone());
    body.insert_some("parallel_tool_calls", protocol::json_of_bool(ir.parallel_tool_calls));
    body.insert_some("metadata", protocol::json_of_metadata(&ir.metadata));
    if let Some(thinking) = &ir.thinking {
        let mut reasoning = JsonMap::new();
        reasoning.insert_text("effort", effort_to_openai_str(thinking.effort));
        body.insert("reasoning", Json::object(reasoning));
    }
    body.insert_some("stream", protocol::json_of_stream(ir.stream));
    assert(body.deep_view() == body_members(ir.deep_view(), model@));
    protocol::merge_native_object(&mut body, &ir.native, protocol::NATIVE_OPENAI_CHAT);
    Json::object(body)
}

// ---------------------------------------------------------------------------
// Responses of workers
// ---------------------------------------------------------------------------

/// The fields of a response body that the common form stands for.
pub open spec fn known_fields() -> Seq<Seq<char>> {
    seq!["id"@, "object"@, "created"@, "model"@, "choices"@, "usage"@]
}

/// A tool call that a worker makes.
pub open spec fn worker_call() -> spec_fn(JsonView) -> ToolCallView {
    |c: JsonView|
        ToolCallView {
            id: protocol::text_or(c.at("id"@), ""@),
            name: protocol::text_or(c.at("function"@).at("name"@), ""@),
            arguments: call_arguments_of(
                protocol::text_or(c.at("function"@).at("arguments"@), "{}"@),
            ),
        }
}

/// The tool calls of a message of a worker.
pub open spec fn worker_calls(message: JsonView) -> Seq<ToolCallView> {
    match message.at("tool_calls"@).as_array() {
        Some(calls) => calls.map_values(worker_call()),
        None => Seq::empty(),
    }
}

/// The first choice of a response body.
pub open spec fn first_choice(body: JsonView) -> Option<JsonView> {
    match body.at("choices"@).as_array() {
        Some(choices) => if choices.len() > 0 {
            Some(choices[0])
        } else {
            None
        },
        None => None,
    }
}

/// The tokens that a response body counts.
pub open spec fn worker_usage(body: JsonView) -> Usage {
    let usage = body.at("usage"@);
    Usage {
        prompt_tokens: count_of(usage.at("prompt_tokens"@)),
        completion_tokens: count_of(usage.at("completion_tokens"@)),
        total_tokens: count_of(usage.at("total_tokens"@)),
        reasoning_tokens: count_of(usage.at("output_tokens_details"@).at("reasoning_tokens"@)),
    }
}

/// What a worker's first choice says, in the common form.
pub open spec fn worker_result(
    body: JsonView,
    choice: JsonView,
    model: Seq<char>,
    duration_ms: u64,
    cost_usd: Option<Usd>,
) -> WorkerResultView {
    let message = choice.at("message"@);
    WorkerResultView {
        model,
        name: ""@,
        api: "openai-completions"@,
        success: true,
        response: Some(
            ResponseView {
                id: body.at("id"@).as_str(),
                content: protocol::text_or(message.at("content"@), ""@),
                status: None,
                finish_reason: protocol::text_or(choice.at("finish_reason"@), "stop"@),
                usage: worker_usage(body),
                cost_usd: cost_or_zero(cost_usd),
                duration_ms,
                model,
                tool_calls: worker_calls(message),
                thinking: filled_text(message.at("reasoning"@)),
                metadata: Map::empty(),
                native: protocol::native_of_body(
                    protocol::NATIVE_OPENAI_CHAT@,
                    body,
                    known_fields(),
                ),
            },
        ),
        error: None,
    }
}

fn tool_call_of_worker(c: &Json) -> (r: ToolCall)
    ensures
        r.deep_view() == worker_call()(c.deep_view()),
{
    let arguments = protocol::str_or(c.at("function").at("arguments"), "{}");
    ToolCall {
        id: protocol::str_or(c.at("id"), ""),
        name: protocol::str_or(c.at("function").at("name"), ""),
        arguments: protocol::call_arguments(arguments.as_str()),
    }
}

/// What a worker's response body says, in the common form.
pub fn parse_worker_response(
    body: &Json,
    model: &str,
    duration_ms: u64,
    cost_usd: Option<Usd>,
) -> (r: Result<WorkerResult, OpenFusionError>)
    ensures
        match first_choice(body.deep_view()) {
            Some(choice) => r matches Ok(wr) && wr.deep_view() == worker_result(
                body.deep_view(),
                choice,
                model@,
                duration_ms,
                cost_usd,
            ),
            None => r matches Err(e) && e.deep_view() == ErrorView::Protocol(
                "missing choices[0]"@,
            ),
        },
{
    let choice = match body.at("choices").as_array() {
        Some(choices) => {
            if choices.len() > 0 {
                &choices[0]
            } else {
                return Err(OpenFusionError::Protocol("missing choices[0]".to_owned()));
            }
        },
        None => {
            return Err(OpenFusionError::Protocol("missing choices[0]".to_owned()));
        },
    };
    let message = choice.at("message");
    let usage = body.at("usage");
    let tool_calls = match message.at("tool_calls").as_array() {
        Some(calls) => seqs::map_all(calls, tool_call_of_worker, Ghost(worker_call())),
        None => seqs::none(),
    };
    let known: Vec<&str> = vec!["id", "object", "created", "model", "choices", "usage"];
    assert(names_view(known@) =~= known_fields());
    Ok(
        WorkerResult {
            model: model.to_owned(),
            name: "".to_owned(),
            api: "openai-completions".to_owned(),
            success: true,
            response: Some(
                IntermediateResponse {
                    id: protocol::str_of(body.at("id")),
                    content: protocol::str_or(message.at("content"), ""),
                    status: None,
                    finish_reason: protocol::str_or(choice.at("finish_reason"), "stop"),
                    usage: Usage {
                        prompt_tokens: protocol::count(usage.at("prompt_tokens")),
                        completion_tokens: protocol::count(usage.at("completion_tokens")),
                        total_tokens: protocol::count(usage.at("total_tokens")),
                        reasoning_tokens: protocol::count(
                            usage.at("output_tokens_details").at("reasoning_tokens"),
                        ),
                    },
                    cost_usd: protocol::unwrap_cost(cost_usd),
                    duration_ms,
                    model: model.to_owned(),
                    tool_calls,
                    thinking: protocol::filled_str(message.at("reasoning")),
                    metadata: JsonMap::new(),
                    native: protocol::native_from_body_excluding(
                        protocol::NATIVE_OPENAI_CHAT,
                        body,
                        &known,
                    ),
                },
            ),
            error: None,
        },
    )
}

} // verus!
