//! The form in which requests, responses and stream events travel between the
//! wire protocols.

pub mod answer_laws;
pub mod anthropic_messages;
pub mod body_laws;
pub mod chat_laws;
pub mod gemini_body_laws;
pub mod gemini_laws;
pub mod gemini_request_laws;
pub mod gemini_shadow;
pub mod google_genai;
pub mod laws;
pub mod matrix;
pub mod openai_completions;
pub mod openai_responses;
pub mod request_laws;
pub mod shadow_laws;
pub mod stream;
pub mod stream_laws;
pub mod stream_shape_laws;
pub mod words;

use vstd::prelude::*;

use crate::json;
use crate::json::{names_view, parsed_json, texts_view, Json, JsonMap, JsonView};
use crate::seqs;
use crate::text;

verus! {

/// Where the fields that only Anthropic's protocol knows are kept.
pub const NATIVE_ANTHROPIC: &'static str = "anthropic-messages";

/// Where the fields that only OpenAI's chat protocol knows are kept.
pub const NATIVE_OPENAI_CHAT: &'static str = "openai-completions";

/// Where the fields that only OpenAI's responses protocol knows are kept.
pub const NATIVE_OPENAI_RESPONSES: &'static str = "openai-responses";

/// Where the fields that only Gemini's protocol knows are kept.
pub const NATIVE_GEMINI: &'static str = "google-genai";

// ---------------------------------------------------------------------------
// Plain types
// ---------------------------------------------------------------------------

/// Who speaks.
#[derive(Clone, Copy, Debug, PartialEq, Eq, Structural)]
pub enum Role {
    System,
    User,
    Assistant,
    Tool,
}

/// How much a model is asked to think.
#[derive(Clone, Copy, Debug, PartialEq, Eq, Structural)]
pub enum ThinkingEffort {
    Disabled,
    Low,
    Medium,
    High,
    Max,
    Adaptive,
}

/// How a model is asked to think.
#[derive(Clone, Copy, Debug)]
pub struct ThinkingConfig {
    pub effort: ThinkingEffort,
    pub budget_tokens: Option<i32>,
    pub summary: bool,
}

/// Token counts.
#[derive(Clone, Copy, Debug, PartialEq, Eq, Structural)]
pub struct Usage {
    pub prompt_tokens: u32,
    pub completion_tokens: u32,
    pub total_tokens: u32,
    pub reasoning_tokens: u32,
}

/// No tokens at all.
pub open spec fn no_usage() -> Usage {
    Usage { prompt_tokens: 0, completion_tokens: 0, total_tokens: 0, reasoning_tokens: 0 }
}

/// A cost in dollars: the bits of a double-precision number.
#[derive(Clone, Copy, Debug, PartialEq, Eq, Structural)]
pub struct Usd {
    pub bits: u64,
}

/// A single-precision number: its bits, the text it is shown as, and the JSON
/// number it is sent as.
#[derive(Debug)]
pub struct Single {
    pub bits: u32,
    pub text: String,
    pub json: Json,
}

/// A call of a tool.
#[derive(Debug)]
pub struct ToolCall {
    pub id: String,
    pub name: String,
    pub arguments: Json,
}

/// A tool that a model may call.
#[derive(Debug)]
pub struct ToolDef {
    pub name: String,
    pub description: String,
    pub parameters: Json,
}

/// One message of a conversation.
#[derive(Debug)]
pub struct Message {
    pub role: Role,
    pub content: String,
    pub tool_call_id: Option<String>,
    pub tool_is_error: Option<bool>,
    pub tool_calls: Vec<ToolCall>,
}

/// A request, whatever the protocol it came in or goes out by.
#[derive(Debug)]
pub struct IntermediateRequest {
    pub messages: Vec<Message>,
    pub max_tokens: u32,
    pub temperature: Option<Single>,
    pub top_p: Option<Single>,
    pub stop: Vec<String>,
    pub api_key: Option<String>,
    pub tools: Vec<ToolDef>,
    pub tool_choice: Option<Json>,
    pub parallel_tool_calls: Option<bool>,
    pub thinking: Option<ThinkingConfig>,
    pub session_id: Option<String>,
    pub system: Option<String>,
    pub stream: bool,
    pub metadata: JsonMap,
    pub native: JsonMap,
}

/// A response, whatever the protocol it came in or goes out by.
#[derive(Debug)]
pub struct IntermediateResponse {
    pub id: Option<String>,
    pub content: String,
    pub status: Option<String>,
    pub finish_reason: String,
    pub usage: Usage,
    pub cost_usd: Usd,
    pub duration_ms: u64,
    pub model: String,
    pub tool_calls: Vec<ToolCall>,
    pub thinking: Option<String>,
    pub metadata: JsonMap,
    pub native: JsonMap,
}

/// What a worker came back with.
#[derive(Debug)]
pub struct WorkerResult {
    pub model: String,
    pub name: String,
    pub api: String,
    pub success: bool,
    pub response: Option<IntermediateResponse>,
    pub error: Option<String>,
}

/// One event of a streamed response.
#[derive(Debug)]
pub enum StreamEvent {
    Delta(String),
    ThinkingDelta(String),
    ToolCallDelta { index: u32, id: String, name: String, arguments: String },
    Done(IntermediateResponse),
}

// ---------------------------------------------------------------------------
// Models
// ---------------------------------------------------------------------------

#[verifier::ext_equal]
pub struct SingleView {
    pub bits: u32,
    pub text: Seq<char>,
    pub json: JsonView,
}

#[verifier::ext_equal]
pub struct ToolCallView {
    pub id: Seq<char>,
    pub name: Seq<char>,
    pub arguments: JsonView,
}

#[verifier::ext_equal]
pub struct ToolDefView {
    pub name: Seq<char>,
    pub description: Seq<char>,
    pub parameters: JsonView,
}

#[verifier::ext_equal]
pub struct MessageView {
    pub role: Role,
    pub content: Seq<char>,
    pub tool_call_id: Option<Seq<char>>,
    pub tool_is_error: Option<bool>,
    pub tool_calls: Seq<ToolCallView>,
}

#[verifier::ext_equal]
pub struct RequestView {
    pub messages: Seq<MessageView>,
    pub max_tokens: u32,
    pub temperature: Option<SingleView>,
    pub top_p: Option<SingleView>,
    pub stop: Seq<Seq<char>>,
    pub api_key: Option<Seq<char>>,
    pub tools: Seq<ToolDefView>,
    pub tool_choice: Option<JsonView>,
    pub parallel_tool_calls: Option<bool>,
    pub thinking: Option<ThinkingConfig>,
    pub session_id: Option<Seq<char>>,
    pub system: Option<Seq<char>>,
    pub stream: bool,
    pub metadata: Map<Seq<char>, JsonView>,
    pub native: Map<Seq<char>, JsonView>,
}

#[verifier::ext_equal]
pub struct ResponseView {
    pub id: Option<Seq<char>>,
    pub content: Seq<char>,
    pub status: Option<Seq<char>>,
    pub finish_reason: Seq<char>,
    pub usage: Usage,
    pub cost_usd: Usd,
    pub duration_ms: u64,
    pub model: Seq<char>,
    pub tool_calls: Seq<ToolCallView>,
    pub thinking: Option<Seq<char>>,
    pub metadata: Map<Seq<char>, JsonView>,
    pub native: Map<Seq<char>, JsonView>,
}

#[verifier::ext_equal]
pub struct WorkerResultView {
    pub model: Seq<char>,
    pub name: Seq<char>,
    pub api: Seq<char>,
    pub success: bool,
    pub response: Option<ResponseView>,
    pub error: Option<Seq<char>>,
}

#[verifier::ext_equal]
pub enum StreamEventView {
    Delta(Seq<char>),
    ThinkingDelta(Seq<char>),
    ToolCallDelta { index: u32, id: Seq<char>, name: Seq<char>, arguments: Seq<char> },
    Done(ResponseView),
}

impl DeepView for ThinkingConfig {
    type V = ThinkingConfig;

    open spec fn deep_view(&self) -> ThinkingConfig {
        *self
    }
}

impl DeepView for Single {
    type V = SingleView;

    open spec fn deep_view(&self) -> SingleView {
        SingleView { bits: self.bits, text: self.text@, json: self.json.deep_view() }
    }
}

impl DeepView for ToolCall {
    type V = ToolCallView;

    open spec fn deep_view(&self) -> ToolCallView {
        ToolCallView { id: self.id@, name: self.name@, arguments: self.arguments.deep_view() }
    }
}

impl DeepView for ToolDef {
    type V = ToolDefView;

    open spec fn deep_view(&self) -> ToolDefView {
        ToolDefView {
            name: self.name@,
            description: self.description@,
            parameters: self.parameters.deep_view(),
        }
    }
}

impl DeepView for Message {
    type V = MessageView;

    open spec fn deep_view(&self) -> MessageView {
        MessageView {
            role: self.role,
            content: self.content@,
            tool_call_id: self.tool_call_id.deep_view(),
            tool_is_error: self.tool_is_error,
            tool_calls: self.tool_calls.deep_view(),
        }
    }
}

impl DeepView for IntermediateRequest {
    type V = RequestView;

    open spec fn deep_view(&self) -> RequestView {
        RequestView {
            messages: self.messages.deep_view(),
            max_tokens: self.max_tokens,
            temperature: self.temperature.deep_view(),
            top_p: self.top_p.deep_view(),
            stop: self.stop.deep_view(),
            api_key: self.api_key.deep_view(),
            tools: self.tools.deep_view(),
            tool_choice: self.tool_choice.deep_view(),
            parallel_tool_calls: self.parallel_tool_calls,
            thinking: self.thinking,
            session_id: self.session_id.deep_view(),
            system: self.system.deep_view(),
            stream: self.stream,
            metadata: self.metadata.deep_view(),
            native: self.native.deep_view(),
        }
    }
}

impl DeepView for IntermediateResponse {
    type V = ResponseView;

    open spec fn deep_view(&self) -> ResponseView {
        ResponseView {
            id: self.id.deep_view(),
            content: self.content@,
            status: self.status.deep_view(),
            finish_reason: self.finish_reason@,
            usage: self.usage,
            cost_usd: self.cost_usd,
            duration_ms: self.duration_ms,
            model: self.model@,
            tool_calls: self.tool_calls.deep_view(),
            thinking: self.thinking.deep_view(),
            metadata: self.metadata.deep_view(),
            native: self.native.deep_view(),
        }
    }
}

impl DeepView for WorkerResult {
    type V = WorkerResultView;

    open spec fn deep_view(&self) -> WorkerResultView {
        WorkerResultView {
            model: self.model@,
            name: self.name@,
            api: self.api@,
            success: self.success,
            response: self.response.deep_view(),
            error: self.error.deep_view(),
        }
    }
}

impl DeepView for StreamEvent {
    type V = StreamEventView;

    open spec fn deep_view(&self) -> StreamEventView {
        match *self {
            StreamEvent::Delta(s) => StreamEventView::Delta(s@),
            StreamEvent::ThinkingDelta(s) => StreamEventView::ThinkingDelta(s@),
            StreamEvent::ToolCallDelta { index, id, name, arguments } =>
                StreamEventView::ToolCallDelta {
                    index,
                    id: id@,
                    name: name@,
                    arguments: arguments@,
                },
            StreamEvent::Done(r) => StreamEventView::Done(r.deep_view()),
        }
    }
}

// ---------------------------------------------------------------------------
// Copies
// ---------------------------------------------------------------------------

/// A copy of a vector whose items copy faithfully.
pub fn copy_vec<T: DeepView + Clone>(items: &Vec<T>) -> (r: Vec<T>)
    requires
        forall|a: T, b: T| #[trigger] call_ensures(T::clone, (&a,), b) ==> a.deep_view() == b.deep_view(),
    ensures
        r.deep_view() == items.deep_view(),
{
    let r = items.clone();
    assert forall|i: int| 0 <= i < items@.len() implies (#[trigger] r@[i]).deep_view()
        == items@[i].deep_view() by {
        assert(cloned::<T>(items@[i], r@[i]));
    }
    assert(r.deep_view() =~= items.deep_view());
    r
}

impl Clone for Single {
    fn clone(&self) -> (r: Self)
        ensures
            r.deep_view() == self.deep_view(),
    {
        Single { bits: self.bits, text: self.text.clone(), json: self.json.clone() }
    }
}

impl Clone for ToolCall {
    fn clone(&self) -> (r: Self)
        ensures
            r.deep_view() == self.deep_view(),
    {
        ToolCall {
            id: self.id.clone(),
            name: self.name.clone(),
            arguments: self.arguments.clone(),
        }
    }
}

impl Clone for ToolDef {
    fn clone(&self) -> (r: Self)
        ensures
            r.deep_view() == self.deep_view(),
    {
        ToolDef {
            name: self.name.clone(),
            description: self.description.clone(),
            parameters: self.parameters.clone(),
        }
    }
}

impl Clone for Message {
    fn clone(&self) -> (r: Self)
        ensures
            r.deep_view() == self.deep_view(),
    {
        Message {
            role: self.role,
            content: self.content.clone(),
            tool_call_id: self.tool_call_id.clone(),
            tool_is_error: self.tool_is_error,
            tool_calls: copy_vec(&self.tool_calls),
        }
    }
}

impl Clone for IntermediateRequest {
    fn clone(&self) -> (r: Self)
        ensures
            r.deep_view() == self.deep_view(),
    {
        IntermediateRequest {
            messages: copy_vec(&self.messages),
            max_tokens: self.max_tokens,
            temperature: self.temperature.clone(),
            top_p: self.top_p.clone(),
            stop: copy_vec(&self.stop),
            api_key: self.api_key.clone(),
            tools: copy_vec(&self.tools),
            tool_choice: self.tool_choice.clone(),
            parallel_tool_calls: self.parallel_tool_calls,
            thinking: self.thinking,
            session_id: self.session_id.clone(),
            system: self.system.clone(),
            stream: self.stream,
            metadata: self.metadata.clone(),
            native: self.native.clone(),
        }
    }
}

impl Clone for IntermediateResponse {
    fn clone(&self) -> (r: Self)
        ensures
            r.deep_view() == self.deep_view(),
    {
        IntermediateResponse {
            id: self.id.clone(),
            content: self.content.clone(),
            status: self.status.clone(),
            finish_reason: self.finish_reason.clone(),
            usage: self.usage,
            cost_usd: self.cost_usd,
            duration_ms: self.duration_ms,
            model: self.model.clone(),
            tool_calls: copy_vec(&self.tool_calls),
            thinking: self.thinking.clone(),
            metadata: self.metadata.clone(),
            native: self.native.clone(),
        }
    }
}

impl Clone for WorkerResult {
    fn clone(&self) -> (r: Self)
        ensures
            r.deep_view() == self.deep_view(),
    {
        WorkerResult {
            model: self.model.clone(),
            name: self.name.clone(),
            api: self.api.clone(),
            success: self.success,
            response: self.response.clone(),
            error: self.error.clone(),
        }
    }
}

// ---------------------------------------------------------------------------
// What every protocol checks and reads
// ---------------------------------------------------------------------------

/// Whether the bits are those of a single-precision number from zero to two.
pub open spec fn from_zero_to_two(bits: u32) -> bool {
    bits <= 0x4000_0000 || bits == 0x8000_0000
}

/// What is wrong with a request, if anything.
pub open spec fn fault_of(
    message_count: nat,
    max_tokens: u32,
    temperature: Option<SingleView>,
) -> Option<Seq<char>> {
    if message_count == 0 {
        Some("messages must not be empty"@)
    } else if max_tokens == 0 {
        Some("max_tokens must be > 0"@)
    } else {
        temperature_fault_of(temperature)
    }
}

/// What is wrong with a temperature, if anything.
pub open spec fn temperature_fault_of(temperature: Option<SingleView>) -> Option<Seq<char>> {
    match temperature {
        Some(t) => if from_zero_to_two(t.bits) {
            None
        } else {
            Some("temperature must be 0.0..=2.0, got "@ + t.text)
        },
        None => None,
    }
}

/// What is wrong with a request, if anything.
pub fn request_fault(
    message_count: usize,
    max_tokens: u32,
    temperature: &Option<Single>,
) -> (r: Option<String>)
    ensures
        r.deep_view() == fault_of(message_count as nat, max_tokens, temperature.deep_view()),
{
    if message_count == 0 {
        return Some("messages must not be empty".to_owned());
    }
    if max_tokens == 0 {
        return Some("max_tokens must be > 0".to_owned());
    }
    temperature_fault(temperature)
}

/// What is wrong with a temperature, if anything.
pub fn temperature_fault(temperature: &Option<Single>) -> (r: Option<String>)
    ensures
        r.deep_view() == temperature_fault_of(temperature.deep_view()),
{
    match temperature {
        Some(t) => {
            if t.bits <= 0x4000_0000 || t.bits == 0x8000_0000 {
                None
            } else {
                Some(text::concat("temperature must be 0.0..=2.0, got ", t.text.as_str()))
            }
        },
        None => None,
    }
}

/// The low 32 bits of a count; zero where there is none.
pub open spec fn count_of(v: JsonView) -> u32 {
    match v.as_u64() {
        Some(n) => (n % 0x1_0000_0000) as u32,
        None => 0,
    }
}

/// The low 32 bits of a count; zero where there is none.
pub fn count(j: &Json) -> (r: u32)
    ensures
        r == count_of(j.deep_view()),
{
    match j.as_u64() {
        Some(n) => (n % 0x1_0000_0000) as u32,
        None => 0,
    }
}

/// The low 32 bits of a position.
pub open spec fn low_u32_of(n: nat) -> u32 {
    (n % 0x1_0000_0000) as u32
}

/// The low 32 bits of a position.
pub fn low_u32(n: usize) -> (r: u32)
    ensures
        r == low_u32_of(n as nat),
{
    (n as u64 % 0x1_0000_0000) as u32
}

/// The low 32 bits of a number, read with a sign.
pub open spec fn low_i32_of(n: i64) -> i32 {
    let m = n as int % 0x1_0000_0000;
    if m < 0x8000_0000 {
        m as i32
    } else {
        (m - 0x1_0000_0000) as i32
    }
}

/// The low 32 bits of a number, read with a sign.
pub fn low_i32(n: i64) -> (r: i32)
    ensures
        r == low_i32_of(n),
{
    let m: i128 = (n as i128 + 0x8000_0000_0000_0000) % 0x1_0000_0000;
    if m < 0x8000_0000 {
        m as i32
    } else {
        (m - 0x1_0000_0000) as i32
    }
}

/// The text of a string, or `default` for anything else.
pub open spec fn text_or(v: JsonView, default: Seq<char>) -> Seq<char> {
    match v.as_str() {
        Some(s) => s,
        None => default,
    }
}

/// The text of a string, or `default` for anything else.
pub fn str_or(j: &Json, default: &str) -> (r: String)
    ensures
        r@ == text_or(j.deep_view(), default@),
{
    match j.as_str() {
        Some(s) => s.to_owned(),
        None => default.to_owned(),
    }
}

/// The text of a string, if it is one.
pub fn str_of(j: &Json) -> (r: Option<String>)
    ensures
        r.deep_view() == j.deep_view().as_str(),
{
    match j.as_str() {
        Some(s) => Some(s.to_owned()),
        None => None,
    }
}

/// A text, or nothing in its place.
pub open spec fn or_empty(s: Option<Seq<char>>) -> Seq<char> {
    match s {
        Some(s) => s,
        None => Seq::empty(),
    }
}

/// A text, or the empty text.
pub fn unwrap_text(s: &Option<String>) -> (r: String)
    ensures
        r@ == or_empty(s.deep_view()),
{
    match s {
        Some(s) => s.clone(),
        None => String::new(),
    }
}

/// A text, unless it is empty.
pub open spec fn unless_empty(s: Seq<char>) -> Option<Seq<char>> {
    if s.len() == 0 {
        None
    } else {
        Some(s)
    }
}

/// A text or null.
pub open spec fn nullable_text(s: Option<Seq<char>>) -> JsonView {
    match s {
        Some(s) => JsonView::Str(s),
        None => JsonView::Null,
    }
}

/// A text, if there is one.
pub open spec fn optional_text(s: Option<Seq<char>>) -> Option<JsonView> {
    match s {
        Some(s) => Some(JsonView::Str(s)),
        None => None,
    }
}

/// A text that is there and not empty.
pub open spec fn filled_text(v: JsonView) -> Option<Seq<char>> {
    match v.as_str() {
        Some(s) => unless_empty(s),
        None => None,
    }
}

/// A text that is there and not empty.
pub fn filled_str(j: &Json) -> (r: Option<String>)
    ensures
        r.deep_view() == filled_text(j.deep_view()),
{
    match j.as_str() {
        Some(s) => {
            if s.is_empty() {
                None
            } else {
                Some(s.to_owned())
            }
        },
        None => None,
    }
}

/// The tree of a text, or an empty object where the text is not JSON.
pub open spec fn parsed_or_empty(s: Seq<char>) -> JsonView {
    match parsed_json(s) {
        Some(v) => v,
        None => empty_object(),
    }
}

/// The tree of a text, or an empty object where the text is not JSON.
pub fn parse_or_empty(s: &str) -> (r: Json)
    ensures
        r.deep_view() == parsed_or_empty(s@),
{
    match json::parse(s) {
        Some(j) => j,
        None => Json::Object(JsonMap::new()),
    }
}

/// The arguments that the text of a call holds: an object, or an object that was
/// written into a string once more; an empty object for anything else.
pub open spec fn call_arguments_of(s: Seq<char>) -> JsonView {
    match parsed_json(s) {
        Some(JsonView::Object(m)) => JsonView::Object(m),
        Some(JsonView::Str(inner)) => parsed_or_empty(inner),
        _ => empty_object(),
    }
}

/// The arguments that the text of a call holds.
pub fn call_arguments(s: &str) -> (r: Json)
    ensures
        r.deep_view() == call_arguments_of(s@),
{
    match json::parse(s) {
        Some(Json::Object(m)) => Json::Object(m),
        Some(Json::Str(inner)) => parse_or_empty(inner.as_str()),
        _ => Json::Object(JsonMap::new()),
    }
}

/// The input of a tool call: its arguments, if they are an object, or if they are
/// the text of a JSON value; else nothing.
pub open spec fn call_input(arguments: JsonView) -> JsonView {
    match arguments {
        JsonView::Object(m) => JsonView::Object(m),
        JsonView::Str(s) => parsed_or_empty(s),
        _ => empty_object(),
    }
}

/// The input of a tool call.
pub fn input_of_call(arguments: &Json) -> (r: Json)
    ensures
        r.deep_view() == call_input(arguments.deep_view()),
{
    match arguments {
        Json::Object(m) => Json::Object(m.clone()),
        Json::Str(s) => parse_or_empty(s.as_str()),
        _ => Json::Object(JsonMap::new()),
    }
}

/// A message without tools.
pub open spec fn plain_message(role: Role, content: Seq<char>) -> MessageView {
    MessageView {
        role,
        content,
        tool_call_id: None,
        tool_is_error: None,
        tool_calls: Seq::empty(),
    }
}

/// A message without tools.
pub fn message_of(role: Role, content: String) -> (r: Message)
    ensures
        r.deep_view() == plain_message(role, content@),
{
    Message {
        role,
        content,
        tool_call_id: None,
        tool_is_error: None,
        tool_calls: seqs::none(),
    }
}

/// Texts put together, if there are any.
pub open spec fn joined(parts: Seq<Seq<char>>) -> Option<Seq<char>> {
    if parts.len() == 0 {
        None
    } else {
        Some(text::join_of(parts, ""@))
    }
}

/// Texts put together, if there are any.
pub fn join_some(parts: &Vec<String>) -> (r: Option<String>)
    ensures
        r.deep_view() == joined(parts.deep_view()),
{
    if parts.len() == 0 {
        None
    } else {
        Some(text::join(parts, ""))
    }
}

/// Whether a block is of the given type.
pub fn has_type(b: &Json, kind: &str) -> (r: bool)
    ensures
        r == (b.deep_view().at("type"@).as_str() == Some(kind@)),
{
    match b.at("type").as_str() {
        Some(s) => text::same(s, kind),
        None => false,
    }
}

/// An empty object.
pub open spec fn empty_object() -> JsonView {
    JsonView::Object(Map::empty())
}

/// The dollars of a cost that may be unknown.
pub open spec fn cost_or_zero(cost: Option<Usd>) -> Usd {
    match cost {
        Some(c) => c,
        None => Usd { bits: 0 },
    }
}

/// The dollars of a cost that may be unknown.
pub fn unwrap_cost(cost: Option<Usd>) -> (r: Usd)
    ensures
        r == cost_or_zero(cost),
{
    match cost {
        Some(c) => c,
        None => Usd { bits: 0 },
    }
}

/// The JSON number of a setting that may be unset.
pub open spec fn single_json(s: Option<SingleView>) -> Option<JsonView> {
    match s {
        Some(s) => Some(s.json),
        None => None,
    }
}

/// The JSON number of a setting that may be unset.
pub fn json_of_single(s: &Option<Single>) -> (r: Option<Json>)
    ensures
        r.deep_view() == single_json(s.deep_view()),
{
    match s {
        Some(s) => Some(s.json.clone()),
        None => None,
    }
}

/// A truth value, if there is one.
pub open spec fn bool_json(b: Option<bool>) -> Option<JsonView> {
    match b {
        Some(b) => Some(JsonView::Bool(b)),
        None => None,
    }
}

/// A truth value, if there is one.
pub fn json_of_bool(b: Option<bool>) -> (r: Option<Json>)
    ensures
        r.deep_view() == bool_json(b),
{
    match b {
        Some(b) => Some(Json::Bool(b)),
        None => None,
    }
}

/// The mark of a request that asks for a stream.
pub open spec fn stream_json(stream: bool) -> Option<JsonView> {
    if stream {
        Some(JsonView::Bool(true))
    } else {
        None
    }
}

/// The mark of a request that asks for a stream.
pub fn json_of_stream(stream: bool) -> (r: Option<Json>)
    ensures
        r.deep_view() == stream_json(stream),
{
    if stream {
        Some(Json::Bool(true))
    } else {
        None
    }
}

/// The metadata of a request that has any.
pub open spec fn metadata_json(metadata: Map<Seq<char>, JsonView>) -> Option<JsonView> {
    if metadata == Map::<Seq<char>, JsonView>::empty() {
        None
    } else {
        Some(JsonView::Object(metadata))
    }
}

/// The metadata of a request that has any.
pub fn json_of_metadata(metadata: &JsonMap) -> (r: Option<Json>)
    ensures
        r.deep_view() == metadata_json(metadata.deep_view()),
{
    if metadata.is_empty() {
        None
    } else {
        Some(Json::object(metadata.clone()))
    }
}

/// The stop texts of a request that has any.
pub open spec fn stop_json(stop: Seq<Seq<char>>) -> Option<JsonView> {
    if stop.len() == 0 {
        None
    } else {
        Some(texts_view(stop))
    }
}

/// The stop texts of a request that has any.
pub fn json_of_stop(stop: &Vec<String>) -> (r: Option<Json>)
    ensures
        r.deep_view() == stop_json(stop.deep_view()),
{
    if stop.len() == 0 {
        None
    } else {
        Some(Json::texts(stop))
    }
}

// ---------------------------------------------------------------------------
// Fields that only one protocol knows
// ---------------------------------------------------------------------------

/// Fields kept under the name of a protocol; nothing where there are none.
pub open spec fn kept_under(key: Seq<char>, fields: Map<Seq<char>, JsonView>) -> Map<
    Seq<char>,
    JsonView,
> {
    if fields == Map::<Seq<char>, JsonView>::empty() {
        Map::empty()
    } else {
        Map::<Seq<char>, JsonView>::empty().insert(key, JsonView::Object(fields))
    }
}

/// A body with the fields kept under `key`; a field that the body has stays.
pub open spec fn with_native(
    body: Map<Seq<char>, JsonView>,
    native: Map<Seq<char>, JsonView>,
    key: Seq<char>,
) -> Map<Seq<char>, JsonView> {
    match JsonView::Object(native).at(key) {
        JsonView::Object(fields) => fields.union_prefer_right(body),
        _ => body,
    }
}

/// The fields of a body but for those in `known`, kept under `key`.
pub open spec fn native_of_body(
    key: Seq<char>,
    body: JsonView,
    known: Seq<Seq<char>>,
) -> Map<Seq<char>, JsonView> {
    match body {
        JsonView::Object(fields) => kept_under(key, fields.remove_keys(known.to_set())),
        _ => Map::empty(),
    }
}

/// Keeps the fields of a request that no common field stands for.
pub fn native_from_extra(key: &str, extra: JsonMap) -> (r: JsonMap)
    ensures
        r.deep_view() == kept_under(key@, extra.deep_view()),
{
    let mut r = JsonMap::new();
    if !extra.is_empty() {
        r.insert(key, Json::object(extra));
    }
    r
}

/// Adds the fields kept under `key` to a body; a field that the body has stays.
pub fn merge_native_object(body: &mut JsonMap, native: &JsonMap, key: &str)
    ensures
        final(body).deep_view() == with_native(old(body).deep_view(), native.deep_view(), key@),
{
    if let Some(Json::Object(fields)) = native.get(key) {
        let merged = body.with_defaults(fields);
        *body = merged;
    }
}

/// Keeps the fields of a response body that no common field stands for.
pub fn native_from_body_excluding(key: &str, body: &Json, known: &Vec<&str>) -> (r: JsonMap)
    ensures
        r.deep_view() == native_of_body(key@, body.deep_view(), names_view(known@)),
{
    match body {
        Json::Object(fields) => native_from_extra(key, fields.without(known)),
        _ => JsonMap::new(),
    }
}

/// A field that a body has is not changed by the fields kept for a protocol.
pub proof fn native_fields_do_not_override(
    body: Map<Seq<char>, JsonView>,
    native: Map<Seq<char>, JsonView>,
    key: Seq<char>,
    field: Seq<char>,
)
    requires
        body.dom().contains(field),
    ensures
        with_native(body, native, key).dom().contains(field),
        with_native(body, native, key)[field] == body[field],
{
}

/// Fields kept from a request come back when a body for the same protocol is
/// built, as far as the body does not have them itself.
pub proof fn native_fields_come_back(
    extra: Map<Seq<char>, JsonView>,
    body: Map<Seq<char>, JsonView>,
    key: Seq<char>,
)
    ensures
        with_native(body, kept_under(key, extra), key) == extra.union_prefer_right(body),
{
    if extra == Map::<Seq<char>, JsonView>::empty() {
        assert(extra.union_prefer_right(body) =~= body);
    }
}

} // verus!
