//! Google's generative AI protocol (Gemini).
//!
//! A request holds `contents`, each with a role and `parts`; a part is a text, a
//! function call or a function response. Gemini may leave out the identifier of a
//! function call: then one is made up here, which is never sent back to Gemini.

use vstd::prelude::*;

use crate::error::{ErrorView, OpenFusionError};
use crate::ids;
use crate::json;
use crate::json::{int_view, json_text, names_view, no_members, with_some, Json, JsonMap, JsonView};
use crate::lookup::Lookup;
use crate::protocol;
use crate::protocol::gemini_shadow::{
    GeminiAssistantTurn, GeminiToolCallMeta, ToolCallMetaView, TurnView,
};
use crate::protocol::{
    cost_or_zero, count_of, filled_text, plain_message, text_or, IntermediateRequest,
    IntermediateResponse, Message, MessageView, RequestView, ResponseView, Role, Single,
    SingleView, ThinkingConfig, ThinkingEffort, ToolCall, ToolCallView, ToolDef, ToolDefView,
    Usage, Usd, WorkerResult, WorkerResultView,
};
use crate::seqs;
use crate::text;

verus! {

// ---------------------------------------------------------------------------
// Identifiers that are made up here
// ---------------------------------------------------------------------------

/// The beginning of an identifier that is made up for a function call without one.
/// Such identifiers are for clients only: Gemini does not know them.
pub const SYNTHESIZED_ID_PREFIX: &'static str = "gemini_synth_";

/// Whether an identifier is one that was made up.
pub open spec fn is_synthesized(id: Seq<char>) -> bool {
    text::starts_with_of(id, SYNTHESIZED_ID_PREFIX@)
}

/// Whether an identifier is of the form that made-up ones have.
pub open spec fn is_fresh_id(id: Seq<char>) -> bool {
    exists|u: Seq<char>| #[trigger]
        ids::is_simple_uuid_text(u) && id == SYNTHESIZED_ID_PREFIX@ + u
}

/// A fresh identifier is recognised as made up, and is not empty.
pub proof fn fresh_id_is_synthesized(id: Seq<char>)
    requires
        is_fresh_id(id),
    ensures
        is_synthesized(id),
        id.len() > 0,
{
    let u = choose|u: Seq<char>| #[trigger]
        ids::is_simple_uuid_text(u) && id == SYNTHESIZED_ID_PREFIX@ + u;
    let p = SYNTHESIZED_ID_PREFIX@;
    assert(id.subrange(0, p.len() as int) =~= p);
}

/// A fresh identifier for a function call that has none.
pub fn synthesize_tool_call_id() -> (r: String)
    ensures
        is_fresh_id(r@),
        is_synthesized(r@),
{
    let u = ids::simple_uuid_text();
    let r = text::concat(SYNTHESIZED_ID_PREFIX, u.as_str());
    assert(is_fresh_id(r@)) by {
        assert(ids::is_simple_uuid_text(u@));
    }
    proof {
        fresh_id_is_synthesized(r@);
    }
    r
}

/// Whether an identifier is one that was made up.
pub fn is_synthesized_tool_call_id(id: &str) -> (r: bool)
    ensures
        r == is_synthesized(id@),
{
    text::starts_with(id, SYNTHESIZED_ID_PREFIX)
}

/// Fresh identifiers, one for each of some parts.
pub open spec fn are_fresh(fresh: Seq<Seq<char>>, n: nat) -> bool {
    fresh.len() == n && forall|i: int| 0 <= i < n ==> is_fresh_id(#[trigger] fresh[i])
}

/// There are fresh identifiers for any number of parts.
pub proof fn fresh_ids_exist(n: nat)
    ensures
        exists|fresh: Seq<Seq<char>>| are_fresh(fresh, n),
{
    let u = Seq::new(
        32,
        |i: int|
            if i == 12 {
                '4'
            } else if i == 16 {
                '8'
            } else {
                '0'
            },
    );
    let id = SYNTHESIZED_ID_PREFIX@ + u;
    assert(ids::is_simple_uuid_text(u));
    assert(is_fresh_id(id));
    assert(are_fresh(Seq::new(n, |i: int| id), n));
}

fn fresh_ids(n: usize) -> (r: Vec<String>)
    ensures
        are_fresh(r.deep_view(), n as nat),
{
    let mut r: Vec<String> = Vec::new();
    let mut i: usize = 0;
    while i < n
        invariant
            i <= n,
            r@.len() == i,
            forall|k: int| 0 <= k < i ==> is_fresh_id((#[trigger] r@[k])@),
        decreases n - i,
    {
        r.push(synthesize_tool_call_id());
        i += 1;
    }
    r
}

// ---------------------------------------------------------------------------
// Requests as they come in
// ---------------------------------------------------------------------------

/// A generate content request.
#[derive(Debug)]
pub struct GenAiRequest {
    pub contents: Vec<GenAiContent>,
    pub system_instruction: Option<GenAiSystemInstruction>,
    pub generation_config: Option<GenAiConfig>,
    pub api_key: Option<String>,
    pub stream: bool,
    pub tools: Vec<GenAiTool>,
    pub tool_config: Option<Json>,
    pub extra: JsonMap,
}

#[derive(Debug)]
pub struct GenAiTool {
    pub function_declarations: Vec<GenAiFunctionDeclaration>,
}

#[derive(Debug)]
pub struct GenAiFunctionDeclaration {
    pub name: String,
    pub description: String,
    pub parameters: Json,
}

#[derive(Debug)]
pub struct GenAiContent {
    pub role: Option<String>,
    pub parts: Vec<GenAiPart>,
}

#[derive(Debug)]
pub struct GenAiPart {
    pub text: Option<String>,
    pub function_call: Option<GenAiFunctionCall>,
    pub function_response: Option<GenAiFunctionResponse>,
}

#[derive(Debug)]
pub struct GenAiFunctionCall {
    pub id: Option<String>,
    pub name: String,
    pub args: Json,
}

#[derive(Debug)]
pub struct GenAiFunctionResponse {
    pub id: Option<String>,
    pub name: String,
    pub response: Json,
}

#[derive(Debug)]
pub struct GenAiSystemInstruction {
    pub parts: Vec<GenAiPart>,
}

#[derive(Debug)]
pub struct GenAiConfig {
    pub max_output_tokens: u32,
    pub temperature: Option<Single>,
    pub top_p: Option<Single>,
    pub stop_sequences: Vec<String>,
    pub thinking_config: Option<GenAiThinkingConfig>,
}

#[derive(Debug)]
pub struct GenAiThinkingConfig {
    pub include_thoughts: Option<bool>,
    pub thinking_budget: Option<i32>,
    pub thinking_level: Option<String>,
}

#[verifier::ext_equal]
pub struct GenAiRequestView {
    pub contents: Seq<ContentView>,
    pub system_instruction: Option<Seq<PartView>>,
    pub generation_config: Option<ConfigView>,
    pub api_key: Option<Seq<char>>,
    pub stream: bool,
    pub tools: Seq<Seq<ToolDefView>>,
    pub tool_config: Option<JsonView>,
    pub extra: Map<Seq<char>, JsonView>,
}

#[verifier::ext_equal]
pub struct ContentView {
    pub role: Option<Seq<char>>,
    pub parts: Seq<PartView>,
}

#[verifier::ext_equal]
pub struct PartView {
    pub text: Option<Seq<char>>,
    pub function_call: Option<FunctionCallView>,
    pub function_response: Option<FunctionResponseView>,
}

#[verifier::ext_equal]
pub struct FunctionCallView {
    pub id: Option<Seq<char>>,
    pub name: Seq<char>,
    pub args: JsonView,
}

#[verifier::ext_equal]
pub struct FunctionResponseView {
    pub id: Option<Seq<char>>,
    pub name: Seq<char>,
    pub response: JsonView,
}

#[verifier::ext_equal]
pub struct ConfigView {
    pub max_output_tokens: u32,
    pub temperature: Option<SingleView>,
    pub top_p: Option<SingleView>,
    pub stop_sequences: Seq<Seq<char>>,
    pub thinking_config: Option<ThinkingConfigView>,
}

#[verifier::ext_equal]
pub struct ThinkingConfigView {
    pub include_thoughts: Option<bool>,
    pub thinking_budget: Option<i32>,
    pub thinking_level: Option<Seq<char>>,
}

impl DeepView for GenAiFunctionCall {
    type V = FunctionCallView;

    open spec fn deep_view(&self) -> FunctionCallView {
        FunctionCallView {
            id: self.id.deep_view(),
            name: self.name@,
            args: self.args.deep_view(),
        }
    }
}

impl DeepView for GenAiFunctionResponse {
    type V = FunctionResponseView;

    open spec fn deep_view(&self) -> FunctionResponseView {
        FunctionResponseView {
            id: self.id.deep_view(),
            name: self.name@,
            response: self.response.deep_view(),
        }
    }
}

impl DeepView for GenAiPart {
    type V = PartView;

    open spec fn deep_view(&self) -> PartView {
        PartView {
            text: self.text.deep_view(),
            function_call: self.function_call.deep_view(),
            function_response: self.function_response.deep_view(),
        }
    }
}

impl DeepView for GenAiContent {
    type V = ContentView;

    open spec fn deep_view(&self) -> ContentView {
        ContentView { role: self.role.deep_view(), parts: self.parts.deep_view() }
    }
}

impl DeepView for GenAiSystemInstruction {
    type V = Seq<PartView>;

    open spec fn deep_view(&self) -> Seq<PartView> {
        self.parts.deep_view()
    }
}

impl DeepView for GenAiThinkingConfig {
    type V = ThinkingConfigView;

    open spec fn deep_view(&self) -> ThinkingConfigView {
        ThinkingConfigView {
            include_thoughts: self.include_thoughts,
            thinking_budget: self.thinking_budget,
            thinking_level: self.thinking_level.deep_view(),
        }
    }
}

impl DeepView for GenAiConfig {
    type V = ConfigView;

    open spec fn deep_view(&self) -> ConfigView {
        ConfigView {
            max_output_tokens: self.max_output_tokens,
            temperature: self.temperature.deep_view(),
            top_p: self.top_p.deep_view(),
            stop_sequences: self.stop_sequences.deep_view(),
            thinking_config: self.thinking_config.deep_view(),
        }
    }
}

impl DeepView for GenAiFunctionDeclaration {
    type V = ToolDefView;

    open spec fn deep_view(&self) -> ToolDefView {
        ToolDefView {
            name: self.name@,
            description: self.description@,
            parameters: self.parameters.deep_view(),
        }
    }
}

impl DeepView for GenAiTool {
    type V = Seq<ToolDefView>;

    open spec fn deep_view(&self) -> Seq<ToolDefView> {
        self.function_declarations.deep_view()
    }
}

impl DeepView for GenAiRequest {
    type V = GenAiRequestView;

    open spec fn deep_view(&self) -> GenAiRequestView {
        GenAiRequestView {
            contents: self.contents.deep_view(),
            system_instruction: self.system_instruction.deep_view(),
            generation_config: self.generation_config.deep_view(),
            api_key: self.api_key.deep_view(),
            stream: self.stream,
            tools: self.tools.deep_view(),
            tool_config: self.tool_config.deep_view(),
            extra: self.extra.deep_view(),
        }
    }
}

/// The token limit of a request that names none.
pub fn default_max_output_tokens() -> (r: u32)
    ensures
        r == 2048,
{
    2048
}

// ---------------------------------------------------------------------------
// Thinking and tool choice
// ---------------------------------------------------------------------------

/// The effort that a thinking configuration asks for: by its level, else by its
/// budget, else by whether thoughts are wanted.
pub open spec fn effort_in(t: ThinkingConfigView) -> ThinkingEffort {
    match t.thinking_level {
        Some(level) => if level == "LOW"@ || level == "low"@ {
            ThinkingEffort::Low
        } else if level == "MEDIUM"@ || level == "medium"@ {
            ThinkingEffort::Medium
        } else if level == "HIGH"@ || level == "high"@ {
            ThinkingEffort::High
        } else {
            ThinkingEffort::Adaptive
        },
        None => if t.thinking_budget == Some(0i32) {
            ThinkingEffort::Disabled
        } else if t.thinking_budget is Some && t.thinking_budget->0 > 0 {
            ThinkingEffort::High
        } else if t.include_thoughts == Some(false) {
            ThinkingEffort::Disabled
        } else {
            ThinkingEffort::Adaptive
        },
    }
}

/// The thinking that the generation configuration of a request asks for.
pub open spec fn thinking_in(config: Option<ConfigView>) -> Option<ThinkingConfig> {
    match config {
        Some(c) => match c.thinking_config {
            Some(t) => Some(
                ThinkingConfig {
                    effort: effort_in(t),
                    budget_tokens: t.thinking_budget,
                    summary: false,
                },
            ),
            None => None,
        },
        None => None,
    }
}

/// The thinking that the generation configuration of a request asks for.
pub fn parse_gemini_thinking_config(config: Option<&GenAiConfig>) -> (r: Option<ThinkingConfig>)
    ensures
        r == thinking_in(config.deep_view()),
{
    let t = match config {
        Some(c) => match &c.thinking_config {
            Some(t) => t,
            None => {
                return None;
            },
        },
        None => {
            return None;
        },
    };
    let effort = match &t.thinking_level {
        Some(level) => {
            let level = level.as_str();
            if text::same(level, "LOW") || text::same(level, "low") {
                ThinkingEffort::Low
            } else if text::same(level, "MEDIUM") || text::same(level, "medium") {
                ThinkingEffort::Medium
            } else if text::same(level, "HIGH") || text::same(level, "high") {
                ThinkingEffort::High
            } else {
                ThinkingEffort::Adaptive
            }
        },
        None => {
            let unsaid = match t.include_thoughts {
                Some(false) => ThinkingEffort::Disabled,
                _ => ThinkingEffort::Adaptive,
            };
            match t.thinking_budget {
                Some(n) => {
                    if n == 0 {
                        ThinkingEffort::Disabled
                    } else if n > 0 {
                        ThinkingEffort::High
                    } else {
                        unsaid
                    }
                },
                None => unsaid,
            }
        },
    };
    Some(ThinkingConfig { effort, budget_tokens: t.thinking_budget, summary: false })
}

/// A tool configuration with a calling mode.
pub open spec fn calling_mode(mode: Seq<char>) -> JsonView {
    JsonView::Object(
        no_members().insert(
            "functionCallingConfig"@,
            JsonView::Object(no_members().insert("mode"@, JsonView::Str(mode))),
        ),
    )
}

/// A tool configuration that allows one function only.
pub open spec fn only_function(name: Seq<char>) -> JsonView {
    JsonView::Object(
        no_members().insert(
            "functionCallingConfig"@,
            JsonView::Object(
                no_members().insert("mode"@, JsonView::Str("ANY"@)).insert(
                    "allowedFunctionNames"@,
                    JsonView::Array(seq![JsonView::Str(name)]),
                ),
            ),
        ),
    )
}

/// The name of the function that a choice asks for; empty where it asks for none.
pub open spec fn chosen_name(choice: JsonView) -> Seq<char> {
    text_or(
        match choice.get("name"@) {
            Some(name) => name,
            None => choice.at("function"@).at("name"@),
        },
        ""@,
    )
}

/// A tool choice in this protocol's form.
pub open spec fn choice_out(choice: JsonView) -> JsonView {
    match choice {
        JsonView::Str(s) => if s == "none"@ {
            calling_mode("NONE"@)
        } else if s == "required"@ || s == "any"@ {
            calling_mode("ANY"@)
        } else {
            calling_mode("AUTO"@)
        },
        JsonView::Object(_) => {
            let kind = text_or(choice.at("type"@), "auto"@);
            if choice.get("functionCallingConfig"@) is Some {
                choice
            } else if kind == "none"@ {
                calling_mode("NONE"@)
            } else if kind == "any"@ || kind == "required"@ {
                calling_mode("ANY"@)
            } else if kind == "tool"@ || kind == "function"@ {
                only_function(chosen_name(choice))
            } else {
                calling_mode("AUTO"@)
            }
        },
        _ => calling_mode("AUTO"@),
    }
}

fn json_of_mode(mode: &str) -> (r: Json)
    ensures
        r.deep_view() == calling_mode(mode@),
{
    let mut config = JsonMap::new();
    config.insert_text("mode", mode);
    let mut m = JsonMap::new();
    m.insert("functionCallingConfig", Json::object(config));
    Json::object(m)
}

/// A tool choice in this protocol's form.
pub fn map_tool_choice_to_gemini(tool_choice: &Json) -> (r: Json)
    ensures
        r.deep_view() == choice_out(tool_choice.deep_view()),
{
    match tool_choice {
        Json::Str(s) => {
            if text::same(s.as_str(), "none") {
                json_of_mode("NONE")
            } else if text::same(s.as_str(), "required") || text::same(s.as_str(), "any") {
                json_of_mode("ANY")
            } else {
                json_of_mode("AUTO")
            }
        },
        Json::Object(_) => {
            if tool_choice.get("functionCallingConfig").is_some() {
                return tool_choice.clone();
            }
            let kind = protocol::str_or(tool_choice.at("type"), "auto");
            let kind = kind.as_str();
            if text::same(kind, "none") {
                json_of_mode("NONE")
            } else if text::same(kind, "any") || text::same(kind, "required") {
                json_of_mode("ANY")
            } else if text::same(kind, "tool") || text::same(kind, "function") {
                let name = match tool_choice.get("name") {
                    Some(name) => protocol::str_or(name, ""),
                    None => protocol::str_or(tool_choice.at("function").at("name"), ""),
                };
                let mut config = JsonMap::new();
                config.insert_text("mode", "ANY");
                config.insert("allowedFunctionNames", Json::array(seqs::one(Json::Str(name))));
                let mut m = JsonMap::new();
                m.insert("functionCallingConfig", Json::object(config));
                Json::object(m)
            } else {
                json_of_mode("AUTO")
            }
        },
        _ => json_of_mode("AUTO"),
    }
}

/// The member `a` of an object, or else the member `b`.
pub open spec fn either(v: JsonView, a: Seq<char>, b: Seq<char>) -> Option<JsonView> {
    match v.get(a) {
        Some(x) => Some(x),
        None => v.get(b),
    }
}

fn either_of<'a>(v: &'a Json, a: &str, b: &str) -> (r: Option<&'a Json>)
    ensures
        r.deep_view() == either(v.deep_view(), a@, b@),
{
    match v.get(a) {
        Some(x) => Some(x),
        None => v.get(b),
    }
}

/// The first function that a calling configuration allows, if it names any.
pub open spec fn allowed_name(config: JsonView) -> Option<Seq<char>> {
    match either(config, "allowedFunctionNames"@, "allowed_function_names"@) {
        Some(names) => names.item(0).as_str(),
        None => None,
    }
}

/// The tool choice that a tool configuration stands for.
pub open spec fn choice_in(tool_config: JsonView) -> JsonView {
    match either(tool_config, "functionCallingConfig"@, "function_calling_config"@) {
        None => JsonView::Str("auto"@),
        Some(config) => {
            let mode = text_or(config.at("mode"@), "AUTO"@);
            if mode == "NONE"@ {
                JsonView::Str("none"@)
            } else if mode == "ANY"@ {
                match allowed_name(config) {
                    Some(name) => JsonView::Object(
                        no_members().insert("type"@, JsonView::Str("function"@)).insert(
                            "function"@,
                            JsonView::Object(
                                no_members().insert("name"@, JsonView::Str(name)),
                            ),
                        ),
                    ),
                    None => JsonView::Str("required"@),
                }
            } else {
                JsonView::Str("auto"@)
            }
        },
    }
}

/// The tool choice that a tool configuration stands for.
pub fn map_gemini_tool_config_to_common(tool_config: Json) -> (r: Json)
    ensures
        r.deep_view() == choice_in(tool_config.deep_view()),
{
    let config = match either_of(
        &tool_config,
        "functionCallingConfig",
        "function_calling_config",
    ) {
        Some(config) => config,
        None => {
            return Json::text("auto");
        },
    };
    let mode = protocol::str_or(config.at("mode"), "AUTO");
    if text::same(mode.as_str(), "NONE") {
        return Json::text("none");
    }
    if text::same(mode.as_str(), "ANY") {
        let name = match either_of(config, "allowedFunctionNames", "allowed_function_names") {
            Some(names) => names.item(0).as_str(),
            None => None,
        };
        return match name {
            Some(name) => {
                let mut function = JsonMap::new();
                function.insert_text("name", name);
                let mut m = JsonMap::new();
                m.insert_text("type", "function");
                m.insert("function", Json::object(function));
                Json::object(m)
            },
            None => Json::text("required"),
        };
    }
    Json::text("auto")
}

/// Whether a model is told how to think by a level rather than by a budget.
pub open spec fn uses_level(model: Seq<char>) -> bool {
    text::starts_with_of(model, "gemini-3"@)
}

/// Whether a model is told how to think by a level rather than by a budget.
pub fn gemini_uses_thinking_level(model: &str) -> (r: bool)
    ensures
        r == uses_level(model@),
{
    text::starts_with(model, "gemini-3")
}

/// The level for an effort.
pub open spec fn level_of(effort: ThinkingEffort) -> Seq<char> {
    match effort {
        ThinkingEffort::Disabled => "LOW"@,
        ThinkingEffort::Low => "LOW"@,
        ThinkingEffort::Medium => "MEDIUM"@,
        ThinkingEffort::Adaptive => "MEDIUM"@,
        ThinkingEffort::High => "HIGH"@,
        ThinkingEffort::Max => "HIGH"@,
    }
}

/// The level for an effort.
pub fn thinking_effort_to_gemini_level(effort: ThinkingEffort) -> (r: &'static str)
    ensures
        r@ == level_of(effort),
{
    match effort {
        ThinkingEffort::Disabled => "LOW",
        ThinkingEffort::Low => "LOW",
        ThinkingEffort::Medium => "MEDIUM",
        ThinkingEffort::Adaptive => "MEDIUM",
        ThinkingEffort::High => "HIGH",
        ThinkingEffort::Max => "HIGH",
    }
}

// ---------------------------------------------------------------------------
// From a request to the common form
// ---------------------------------------------------------------------------

/// The text of a part.
pub open spec fn part_text() -> spec_fn(PartView) -> Option<Seq<char>> {
    |p: PartView| p.text
}

/// The function calls of some parts; one without an identifier gets one from its name
/// and its position among the calls.
pub open spec fn calls_in(parts: Seq<PartView>) -> Seq<ToolCallView>
    decreases parts.len(),
{
    if parts.len() == 0 {
        Seq::empty()
    } else {
        let before = calls_in(parts.drop_last());
        match parts.last().function_call {
            Some(c) => before.push(
                ToolCallView {
                    id: match c.id {
                        Some(id) => id,
                        None => c.name + "_"@ + text::decimal_of(before.len()),
                    },
                    name: c.name,
                    arguments: c.args,
                },
            ),
            None => before,
        }
    }
}

/// The message for a function response.
pub open spec fn result_in() -> spec_fn(PartView) -> Option<MessageView> {
    |p: PartView|
        match p.function_response {
            Some(f) => Some(
                MessageView {
                    role: Role::Tool,
                    content: match f.response.at("content"@).as_str() {
                        Some(s) => s,
                        None => json_text(f.response),
                    },
                    tool_call_id: Some(
                        match f.id {
                            Some(id) => id,
                            None => f.name,
                        },
                    ),
                    tool_is_error: None,
                    tool_calls: Seq::empty(),
                },
            ),
            None => None,
        }
}

/// The messages that a content stands for: each function response is one of its own;
/// where there is none, the text and the function calls make one message.
pub open spec fn content_in(c: ContentView) -> Seq<MessageView> {
    let results = c.parts.filter_map(result_in());
    if results.len() > 0 {
        results
    } else {
        seq![
            MessageView {
                role: if c.role == Some("model"@) {
                    Role::Assistant
                } else {
                    Role::User
                },
                content: text::join_of(c.parts.filter_map(part_text()), "\n"@),
                tool_call_id: None,
                tool_is_error: None,
                tool_calls: calls_in(c.parts),
            },
        ]
    }
}

/// The messages that some contents stand for.
pub open spec fn contents_in(contents: Seq<ContentView>) -> Seq<MessageView>
    decreases contents.len(),
{
    if contents.len() == 0 {
        Seq::empty()
    } else {
        contents_in(contents.drop_last()) + content_in(contents.last())
    }
}

/// The system prompt of a request, if there is one.
pub open spec fn system_in(system: Option<Seq<PartView>>) -> Option<Seq<char>> {
    match system {
        Some(parts) => protocol::unless_empty(
            text::join_of(parts.filter_map(part_text()), "\n"@),
        ),
        None => None,
    }
}

/// The message that carries the system prompt, if there is one.
pub open spec fn system_messages(system: Option<Seq<char>>) -> Seq<MessageView> {
    match system {
        Some(s) => seq![plain_message(Role::System, s)],
        None => Seq::empty(),
    }
}

/// The functions that some tools declare.
pub open spec fn tools_in(tools: Seq<Seq<ToolDefView>>) -> Seq<ToolDefView>
    decreases tools.len(),
{
    if tools.len() == 0 {
        Seq::empty()
    } else {
        tools_in(tools.drop_last()) + tools.last()
    }
}

/// What is wrong with a request, if anything.
pub open spec fn fault_of(req: GenAiRequestView) -> Option<Seq<char>> {
    if req.contents.len() == 0 {
        Some("contents must not be empty"@)
    } else {
        match req.generation_config {
            Some(c) => if c.max_output_tokens == 0 {
                Some("max_output_tokens must be > 0"@)
            } else {
                protocol::temperature_fault_of(c.temperature)
            },
            None => None,
        }
    }
}

/// The settings of a request that has no generation configuration.
pub open spec fn default_config() -> ConfigView {
    ConfigView {
        max_output_tokens: 2048,
        temperature: None,
        top_p: None,
        stop_sequences: Seq::empty(),
        thinking_config: None,
    }
}

/// A request in the common form.
pub open spec fn request_in(req: GenAiRequestView) -> RequestView {
    let config = match req.generation_config {
        Some(c) => c,
        None => default_config(),
    };
    let system = system_in(req.system_instruction);
    RequestView {
        messages: system_messages(system) + contents_in(req.contents),
        max_tokens: config.max_output_tokens,
        temperature: config.temperature,
        top_p: config.top_p,
        stop: config.stop_sequences,
        api_key: req.api_key,
        tools: tools_in(req.tools),
        tool_choice: match req.tool_config {
            Some(c) => Some(choice_in(c)),
            None => None,
        },
        parallel_tool_calls: None,
        thinking: thinking_in(req.generation_config),
        session_id: None,
        system,
        stream: req.stream,
        metadata: Map::empty(),
        native: protocol::kept_under(protocol::NATIVE_GEMINI@, req.extra),
    }
}

fn text_of_part(p: &GenAiPart) -> (r: Option<String>)
    ensures
        r.deep_view() == part_text()(p.deep_view()),
{
    p.text.clone()
}

fn text_of_parts(parts: &Vec<GenAiPart>) -> (r: String)
    ensures
        r@ == text::join_of(parts.deep_view().filter_map(part_text()), "\n"@),
{
    text::join(&seqs::pick_all(parts, text_of_part, Ghost(part_text())), "\n")
}

fn calls_of_parts(parts: &Vec<GenAiPart>) -> (r: Vec<ToolCall>)
    ensures
        r.deep_view() == calls_in(parts.deep_view()),
{
    let mut calls: Vec<ToolCall> = seqs::none();
    let ghost all = parts.deep_view();
    let mut i: usize = 0;
    proof {
        seqs::take_ends(all);
    }
    while i < parts.len()
        invariant
            i <= parts@.len(),
            all == parts.deep_view(),
            all.len() == parts@.len(),
            calls.deep_view() == calls_in(all.take(i as int)),
        decreases parts.len() - i,
    {
        proof {
            seqs::take_step(all, i as int);
        }
        if let Some(c) = &parts[i].function_call {
            let id = match &c.id {
                Some(id) => id.clone(),
                None => {
                    let mut id = text::concat(c.name.as_str(), "_");
                    id.append(text::decimal(calls.len() as u64).as_str());
                    id
                },
            };
            seqs::put(
                &mut calls,
                ToolCall { id, name: c.name.clone(), arguments: c.args.clone() },
            );
        }
        i += 1;
    }
    calls
}

fn result_of_part(p: &GenAiPart) -> (r: Option<Message>)
    ensures
        r.deep_view() == result_in()(p.deep_view()),
{
    match &p.function_response {
        Some(f) => {
            let content = match f.response.at("content").as_str() {
                Some(s) => s.to_owned(),
                None => json::to_text(&f.response),
            };
            let id = match &f.id {
                Some(id) => id.clone(),
                None => f.name.clone(),
            };
            Some(
                Message {
                    role: Role::Tool,
                    content,
                    tool_call_id: Some(id),
                    tool_is_error: None,
                    tool_calls: seqs::none(),
                },
            )
        },
        None => None,
    }
}

fn messages_of_content(c: &GenAiContent) -> (r: Vec<Message>)
    ensures
        r.deep_view() == content_in(c.deep_view()),
{
    let results = seqs::pick_all(&c.parts, result_of_part, Ghost(result_in()));
    if results.len() > 0 {
        return results;
    }
    let role = match &c.role {
        Some(role) => {
            if text::same(role.as_str(), "model") {
                Role::Assistant
            } else {
                Role::User
            }
        },
        None => Role::User,
    };
    seqs::one(
        Message {
            role,
            content: text_of_parts(&c.parts),
            tool_call_id: None,
            tool_is_error: None,
            tool_calls: calls_of_parts(&c.parts),
        },
    )
}

fn messages_of_contents(contents: &Vec<GenAiContent>) -> (r: Vec<Message>)
    ensures
        r.deep_view() == contents_in(contents.deep_view()),
{
    let mut messages: Vec<Message> = seqs::none();
    let ghost all = contents.deep_view();
    let mut i: usize = 0;
    proof {
        seqs::take_ends(all);
    }
    while i < contents.len()
        invariant
            i <= contents@.len(),
            all == contents.deep_view(),
            all.len() == contents@.len(),
            messages.deep_view() == contents_in(all.take(i as int)),
        decreases contents.len() - i,
    {
        proof {
            seqs::take_step(all, i as int);
        }
        seqs::extend(&mut messages, messages_of_content(&contents[i]));
        i += 1;
    }
    messages
}

/// A declared function.
pub open spec fn same_def() -> spec_fn(ToolDefView) -> ToolDefView {
    |d: ToolDefView| d
}

fn tool_of_declaration(d: &GenAiFunctionDeclaration) -> (r: ToolDef)
    ensures
        r.deep_view() == same_def()(d.deep_view()),
{
    ToolDef {
        name: d.name.clone(),
        description: d.description.clone(),
        parameters: d.parameters.clone(),
    }
}

fn tools_of_request(tools: &Vec<GenAiTool>) -> (r: Vec<ToolDef>)
    ensures
        r.deep_view() == tools_in(tools.deep_view()),
{
    let mut defs: Vec<ToolDef> = seqs::none();
    let ghost all = tools.deep_view();
    let mut i: usize = 0;
    proof {
        seqs::take_ends(all);
    }
    while i < tools.len()
        invariant
            i <= tools@.len(),
            all == tools.deep_view(),
            all.len() == tools@.len(),
            defs.deep_view() == tools_in(all.take(i as int)),
        decreases tools.len() - i,
    {
        proof {
            seqs::take_step(all, i as int);
        }
        let more = seqs::map_all(
            &tools[i].function_declarations,
            tool_of_declaration,
            Ghost(same_def()),
        );
        assert(more.deep_view() =~= all[i as int]);
        seqs::extend(&mut defs, more);
        i += 1;
    }
    defs
}

/// A request in the common form, or what is wrong with it. The model is named in the
/// path of the request and has no influence.
pub fn to_intermediate(req: GenAiRequest, _model: &str) -> (r: Result<
    IntermediateRequest,
    OpenFusionError,
>)
    ensures
        match fault_of(req.deep_view()) {
            Some(fault) => r matches Err(e) && e.deep_view() == ErrorView::Protocol(fault),
            None => r matches Ok(ir) && ir.deep_view() == request_in(req.deep_view()),
        },
{
    if req.contents.len() == 0 {
        return Err(OpenFusionError::Protocol("contents must not be empty".to_owned()));
    }
    if let Some(c) = &req.generation_config {
        if c.max_output_tokens == 0 {
            return Err(OpenFusionError::Protocol("max_output_tokens must be > 0".to_owned()));
        }
        if let Some(fault) = protocol::temperature_fault(&c.temperature) {
            return Err(OpenFusionError::Protocol(fault));
        }
    }
    let mut messages: Vec<Message> = seqs::none();
    let mut system: Option<String> = None;
    if let Some(s) = &req.system_instruction {
        let content = text_of_parts(&s.parts);
        if !content.as_str().is_empty() {
            system = Some(content.clone());
            messages = seqs::one(protocol::message_of(Role::System, content));
        }
    }
    seqs::extend(&mut messages, messages_of_contents(&req.contents));
    let thinking = parse_gemini_thinking_config(req.generation_config.as_ref());
    let tools = tools_of_request(&req.tools);
    let tool_choice = match req.tool_config {
        Some(c) => Some(map_gemini_tool_config_to_common(c)),
        None => None,
    };
    let config = match req.generation_config {
        Some(c) => c,
        None => GenAiConfig {
            max_output_tokens: 2048,
            temperature: None,
            top_p: None,
            stop_sequences: seqs::none(),
            thinking_config: None,
        },
    };
    Ok(
        IntermediateRequest {
            messages,
            max_tokens: config.max_output_tokens,
            temperature: config.temperature,
            top_p: config.top_p,
            stop: config.stop_sequences,
            api_key: req.api_key,
            tools,
            tool_choice,
            parallel_tool_calls: None,
            thinking,
            session_id: None,
            system,
            stream: req.stream,
            metadata: JsonMap::new(),
            native: protocol::native_from_extra(protocol::NATIVE_GEMINI, req.extra),
        },
    )
}

// ---------------------------------------------------------------------------
// Responses as they go out
// ---------------------------------------------------------------------------

/// The identifier of a call as it is shown: only one that is there and was not made
/// up.
pub open spec fn shown_id(id: Seq<char>) -> Option<JsonView> {
    if id.len() > 0 && !is_synthesized(id) {
        Some(JsonView::Str(id))
    } else {
        None
    }
}

/// A function call with the given signature of a thought.
pub open spec fn call_part(c: ToolCallView, signature: Option<Seq<char>>) -> JsonView {
    JsonView::Object(
        no_members().insert(
            "functionCall"@,
            JsonView::Object(
                with_some(
                    with_some(
                        no_members().insert("name"@, JsonView::Str(c.name)).insert(
                            "args"@,
                            c.arguments,
                        ),
                        "id"@,
                        shown_id(c.id),
                    ),
                    "thoughtSignature"@,
                    protocol::optional_text(signature),
                ),
            ),
        ),
    )
}

/// A function call.
pub open spec fn call_out() -> spec_fn(ToolCallView) -> JsonView {
    |c: ToolCallView| call_part(c, None)
}

/// A part that holds text.
pub open spec fn text_part(s: Seq<char>) -> JsonView {
    JsonView::Object(no_members().insert("text"@, JsonView::Str(s)))
}

/// The parts before the function calls: thoughts, then text, if there are any.
pub open spec fn leading_parts(ir: ResponseView) -> Seq<JsonView> {
    let thoughts = match ir.thinking {
        Some(s) => if s.len() > 0 {
            seq![
                JsonView::Object(
                    no_members().insert("text"@, JsonView::Str(s)).insert(
                        "thought"@,
                        JsonView::Bool(true),
                    ),
                ),
            ]
        } else {
            Seq::empty()
        },
        None => Seq::empty(),
    };
    if ir.content.len() > 0 {
        thoughts.push(text_part(ir.content))
    } else {
        thoughts
    }
}

/// The generate content response for a response.
pub open spec fn response_out(ir: ResponseView) -> JsonView {
    JsonView::Object(
        no_members().insert(
            "candidates"@,
            JsonView::Array(
                seq![
                    JsonView::Object(
                        no_members().insert(
                            "content"@,
                            role_and_parts(
                                "model"@,
                                leading_parts(ir) + ir.tool_calls.map_values(call_out()),
                            ),
                        ).insert("finishReason"@, JsonView::Str(ir.finish_reason)),
                    ),
                ],
            ),
        ).insert(
            "usageMetadata"@,
            JsonView::Object(
                no_members().insert(
                    "promptTokenCount"@,
                    int_view(ir.usage.prompt_tokens as int),
                ).insert(
                    "candidatesTokenCount"@,
                    int_view(ir.usage.completion_tokens as int),
                ).insert("totalTokenCount"@, int_view(ir.usage.total_tokens as int)),
            ),
        ),
    )
}

/// A content with a role and parts.
pub open spec fn role_and_parts(role: Seq<char>, parts: Seq<JsonView>) -> JsonView {
    JsonView::Object(
        no_members().insert("role"@, JsonView::Str(role)).insert("parts"@, JsonView::Array(parts)),
    )
}

pub(crate) fn json_of_role_and_parts(role: &str, parts: Vec<Json>) -> (r: Json)
    ensures
        r.deep_view() == role_and_parts(role@, parts.deep_view()),
{
    let mut m = JsonMap::new();
    m.insert_text("role", role);
    m.insert("parts", Json::array(parts));
    Json::object(m)
}

pub(crate) fn json_of_text_part(s: &str) -> (r: Json)
    ensures
        r.deep_view() == text_part(s@),
{
    let mut m = JsonMap::new();
    m.insert_text("text", s);
    Json::object(m)
}

fn json_of_call(c: &ToolCall, signature: Option<&String>) -> (r: Json)
    ensures
        r.deep_view() == call_part(c.deep_view(), signature.deep_view()),
{
    let mut call = JsonMap::new();
    call.insert_text("name", c.name.as_str());
    call.insert("args", c.arguments.clone());
    if !c.id.as_str().is_empty() && !is_synthesized_tool_call_id(c.id.as_str()) {
        call.insert_text("id", c.id.as_str());
    }
    if let Some(s) = signature {
        call.insert_text("thoughtSignature", s.as_str());
    }
    let mut m = JsonMap::new();
    m.insert("functionCall", Json::object(call));
    Json::object(m)
}

pub(crate) fn json_of_plain_call(c: &ToolCall) -> (r: Json)
    ensures
        r.deep_view() == call_out()(c.deep_view()),
{
    json_of_call(c, None)
}

/// The generate content response for a response.
pub fn from_intermediate(ir: IntermediateResponse) -> (r: Json)
    ensures
        r.deep_view() == response_out(ir.deep_view()),
{
    let mut parts: Vec<Json> = seqs::none();
    if let Some(thinking) = &ir.thinking {
        if !thinking.as_str().is_empty() {
            let mut thought = JsonMap::new();
            thought.insert_text("text", thinking.as_str());
            thought.insert("thought", Json::Bool(true));
            seqs::put(&mut parts, Json::object(thought));
        }
    }
    if !ir.content.as_str().is_empty() {
        seqs::put(&mut parts, json_of_text_part(ir.content.as_str()));
    }
    assert(parts.deep_view() =~= leading_parts(ir.deep_view()));
    seqs::extend(
        &mut parts,
        seqs::map_all(&ir.tool_calls, json_of_plain_call, Ghost(call_out())),
    );
    let mut candidate = JsonMap::new();
    candidate.insert("content", json_of_role_and_parts("model", parts));
    candidate.insert_text("finishReason", ir.finish_reason.as_str());
    let mut usage = JsonMap::new();
    usage.insert("promptTokenCount", Json::of_u64(ir.usage.prompt_tokens as u64));
    usage.insert("candidatesTokenCount", Json::of_u64(ir.usage.completion_tokens as u64));
    usage.insert("totalTokenCount", Json::of_u64(ir.usage.total_tokens as u64));
    let mut m = JsonMap::new();
    m.insert("candidates", Json::array(seqs::one(Json::object(candidate))));
    m.insert("usageMetadata", Json::object(usage));
    Json::object(m)
}

// ---------------------------------------------------------------------------
// Kept turns
// ---------------------------------------------------------------------------

/// A part of a kept turn as it is sent back: without the identifier of its function
/// call, if that is missing, empty or made up.
pub open spec fn replayed_part() -> spec_fn(JsonView) -> JsonView {
    |part: JsonView|
        match part {
            JsonView::Object(p) => match part.at("functionCall"@) {
                JsonView::Object(c) => if keeps_id(part.at("functionCall"@)) {
                    part
                } else {
                    JsonView::Object(
                        p.insert("functionCall"@, JsonView::Object(c.remove("id"@))),
                    )
                },
                _ => part,
            },
            _ => part,
        }
}

/// Whether the identifier of a function call is known to Gemini.
pub open spec fn keeps_id(call: JsonView) -> bool {
    match call.at("id"@).as_str() {
        Some(id) => id.len() > 0 && !is_synthesized(id),
        None => false,
    }
}

/// The parts of a kept turn as they are sent back.
pub open spec fn replayed_parts(content: JsonView) -> Option<Seq<JsonView>> {
    match content.at("parts"@).as_array() {
        Some(parts) => Some(parts.map_values(replayed_part())),
        None => match content.as_array() {
            Some(parts) => Some(parts.map_values(replayed_part())),
            None => None,
        },
    }
}

fn replay_part(part: &Json) -> (r: Json)
    ensures
        r.deep_view() == replayed_part()(part.deep_view()),
{
    if let Json::Object(p) = part {
        if let Some(Json::Object(c)) = p.get("functionCall") {
            let keep = match c.get("id") {
                Some(Json::Str(id)) => !id.as_str().is_empty() && !is_synthesized_tool_call_id(
                    id.as_str(),
                ),
                _ => false,
            };
            if !keep {
                let mut q = p.clone();
                q.insert("functionCall", Json::Object(c.minus("id")));
                return Json::Object(q);
            }
        }
    }
    part.clone()
}

/// The parts of a kept turn as they are sent back.
pub fn shadow_parts(content: &Json) -> (r: Option<Vec<Json>>)
    ensures
        r.deep_view() == replayed_parts(content.deep_view()),
{
    match content.at("parts").as_array() {
        Some(parts) => Some(seqs::map_all(parts, replay_part, Ghost(replayed_part()))),
        None => match content.as_array() {
            Some(parts) => Some(seqs::map_all(parts, replay_part, Ghost(replayed_part()))),
            None => None,
        },
    }
}

/// The names after those of one part: the function call of the part names the tool of
/// its identifier.
pub open spec fn with_part_name(names: Map<Seq<char>, Seq<char>>, part: JsonView) -> Map<
    Seq<char>,
    Seq<char>,
> {
    match (
        filled_text(part.at("functionCall"@).at("id"@)),
        filled_text(part.at("functionCall"@).at("name"@)),
    ) {
        (Some(id), Some(name)) => names.insert(id, name),
        _ => names,
    }
}

/// The names after those of some parts.
pub open spec fn with_part_names(names: Map<Seq<char>, Seq<char>>, parts: Seq<JsonView>) -> Map<
    Seq<char>,
    Seq<char>,
>
    decreases parts.len(),
{
    if parts.len() == 0 {
        names
    } else {
        with_part_name(with_part_names(names, parts.drop_last()), parts.last())
    }
}

/// The names after those of some tool calls.
pub open spec fn with_call_names(
    names: Map<Seq<char>, Seq<char>>,
    calls: Seq<ToolCallMetaView>,
) -> Map<Seq<char>, Seq<char>>
    decreases calls.len(),
{
    if calls.len() == 0 {
        names
    } else {
        let before = with_call_names(names, calls.drop_last());
        match calls.last().id {
            Some(id) => before.insert(id, calls.last().name),
            None => before,
        }
    }
}

/// The names after those of a kept turn.
pub open spec fn with_turn_names(names: Map<Seq<char>, Seq<char>>, turn: TurnView) -> Map<
    Seq<char>,
    Seq<char>,
> {
    let named = with_call_names(names, turn.tool_calls);
    match replayed_parts(turn.assistant_content) {
        Some(parts) => with_part_names(named, parts),
        None => named,
    }
}

/// The names of the tools of the calls in kept turns, by identifier.
pub open spec fn names_of_turns(turns: Seq<TurnView>) -> Map<Seq<char>, Seq<char>>
    decreases turns.len(),
{
    if turns.len() == 0 {
        Map::empty()
    } else {
        with_turn_names(names_of_turns(turns.drop_last()), turns.last())
    }
}

/// The signatures after those of some tool calls.
pub open spec fn with_call_signatures(
    signatures: Map<Seq<char>, Seq<char>>,
    calls: Seq<ToolCallMetaView>,
) -> Map<Seq<char>, Seq<char>>
    decreases calls.len(),
{
    if calls.len() == 0 {
        signatures
    } else {
        let before = with_call_signatures(signatures, calls.drop_last());
        match (calls.last().id, calls.last().thought_signature) {
            (Some(id), Some(signature)) => before.insert(id, signature),
            _ => before,
        }
    }
}

/// The signatures of the thoughts behind the calls in kept turns, by identifier.
pub open spec fn signatures_of_turns(turns: Seq<TurnView>) -> Map<Seq<char>, Seq<char>>
    decreases turns.len(),
{
    if turns.len() == 0 {
        Map::empty()
    } else {
        with_call_signatures(signatures_of_turns(turns.drop_last()), turns.last().tool_calls)
    }
}

/// Adds the names of the tools that some parts call.
pub fn merge_tool_names_from_parts(parts: &Vec<Json>, tool_name_by_id: &mut Lookup<String>)
    ensures
        final(tool_name_by_id)@ == with_part_names(old(tool_name_by_id)@, parts.deep_view()),
{
    let ghost start = tool_name_by_id@;
    let ghost all = parts.deep_view();
    let mut i: usize = 0;
    proof {
        seqs::take_ends(all);
    }
    while i < parts.len()
        invariant
            i <= parts@.len(),
            all == parts.deep_view(),
            all.len() == parts@.len(),
            tool_name_by_id@ == with_part_names(start, all.take(i as int)),
        decreases parts.len() - i,
    {
        proof {
            seqs::take_step(all, i as int);
        }
        let call = parts[i].at("functionCall");
        if let Some(id) = protocol::filled_str(call.at("id")) {
            if let Some(name) = protocol::filled_str(call.at("name")) {
                tool_name_by_id.insert(id.as_str(), name);
            }
        }
        i += 1;
    }
}

/// Adds the names of the tools that a kept turn calls.
pub fn merge_tool_names_from_shadow(turn: &GeminiAssistantTurn, tool_name_by_id: &mut Lookup<String>)
    ensures
        final(tool_name_by_id)@ == with_turn_names(old(tool_name_by_id)@, turn.deep_view()),
{
    let ghost start = tool_name_by_id@;
    let ghost all = turn.tool_calls.deep_view();
    let mut i: usize = 0;
    proof {
        seqs::take_ends(all);
    }
    while i < turn.tool_calls.len()
        invariant
            i <= turn.tool_calls@.len(),
            all == turn.tool_calls.deep_view(),
            all.len() == turn.tool_calls@.len(),
            tool_name_by_id@ == with_call_names(start, all.take(i as int)),
        decreases turn.tool_calls.len() - i,
    {
        proof {
            seqs::take_step(all, i as int);
        }
        if let Some(id) = &turn.tool_calls[i].id {
            tool_name_by_id.insert(id.as_str(), turn.tool_calls[i].name.clone());
        }
        i += 1;
    }
    if let Some(parts) = shadow_parts(&turn.assistant_content) {
        merge_tool_names_from_parts(&parts, tool_name_by_id);
    }
}

/// The names of the tools of the calls in kept turns, by identifier.
pub fn build_tool_name_map_from_shadow_turns(shadow_turns: &[GeminiAssistantTurn]) -> (r: Lookup<String>)
    ensures
        r@ == names_of_turns(shadow_turns.deep_view()),
{
    let mut names = Lookup::<String>::new();
    let ghost all = shadow_turns.deep_view();
    let mut i: usize = 0;
    proof {
        seqs::take_ends(all);
    }
    while i < shadow_turns.len()
        invariant
            i <= shadow_turns@.len(),
            all == shadow_turns.deep_view(),
            all.len() == shadow_turns@.len(),
            names@ == names_of_turns(all.take(i as int)),
        decreases shadow_turns.len() - i,
    {
        proof {
            seqs::take_step(all, i as int);
        }
        merge_tool_names_from_shadow(&shadow_turns[i], &mut names);
        i += 1;
    }
    names
}

/// Adds the signatures of the thoughts behind the calls of a kept turn.
pub fn merge_thought_signatures_from_shadow(
    turn: &GeminiAssistantTurn,
    thought_signature_by_id: &mut Lookup<String>,
)
    ensures
        final(thought_signature_by_id)@ == with_call_signatures(
            old(thought_signature_by_id)@,
            turn.deep_view().tool_calls,
        ),
{
    let ghost start = thought_signature_by_id@;
    let ghost all = turn.tool_calls.deep_view();
    let mut i: usize = 0;
    proof {
        seqs::take_ends(all);
    }
    while i < turn.tool_calls.len()
        invariant
            i <= turn.tool_calls@.len(),
            all == turn.tool_calls.deep_view(),
            all.len() == turn.tool_calls@.len(),
            thought_signature_by_id@ == with_call_signatures(start, all.take(i as int)),
        decreases turn.tool_calls.len() - i,
    {
        proof {
            seqs::take_step(all, i as int);
        }
        let call = &turn.tool_calls[i];
        if let Some(id) = &call.id {
            if let Some(signature) = &call.thought_signature {
                thought_signature_by_id.insert(id.as_str(), signature.clone());
            }
        }
        i += 1;
    }
}

/// The signatures of the thoughts behind the calls in kept turns, by identifier.
pub fn build_thought_signature_map_from_shadow_turns(
    shadow_turns: &[GeminiAssistantTurn],
) -> (r: Lookup<String>)
    ensures
        r@ == signatures_of_turns(shadow_turns.deep_view()),
{
    let mut signatures = Lookup::<String>::new();
    let ghost all = shadow_turns.deep_view();
    let mut i: usize = 0;
    proof {
        seqs::take_ends(all);
    }
    while i < shadow_turns.len()
        invariant
            i <= shadow_turns@.len(),
            all == shadow_turns.deep_view(),
            all.len() == shadow_turns@.len(),
            signatures@ == signatures_of_turns(all.take(i as int)),
        decreases shadow_turns.len() - i,
    {
        proof {
            seqs::take_step(all, i as int);
        }
        merge_thought_signatures_from_shadow(&shadow_turns[i], &mut signatures);
        i += 1;
    }
    signatures
}

/// Whether a kept call and a call of a message are the same: by identifier, or by the
/// name of the tool.
pub open spec fn same_call(kept: ToolCallMetaView, call: ToolCallView) -> bool {
    kept.id == Some(call.id) || kept.name == call.name
}

/// Whether a kept turn makes one of the calls of a message.
pub open spec fn turn_matches(turn: TurnView, message: MessageView) -> bool {
    exists|i: int, j: int|
        0 <= i < turn.tool_calls.len() && 0 <= j < message.tool_calls.len() && same_call(
            #[trigger] turn.tool_calls[i],
            #[trigger] message.tool_calls[j],
        )
}

/// The last kept turn that makes one of the calls of a message.
pub open spec fn matching_turn(message: MessageView, turns: Seq<TurnView>) -> Option<TurnView>
    decreases turns.len(),
{
    if turns.len() == 0 {
        None
    } else if turn_matches(turns.last(), message) {
        Some(turns.last())
    } else {
        matching_turn(message, turns.drop_last())
    }
}

fn matches_message(turn: &GeminiAssistantTurn, message: &Message) -> (r: bool)
    ensures
        r == turn_matches(turn.deep_view(), message.deep_view()),
{
    let ghost t = turn.deep_view();
    let ghost m = message.deep_view();
    let mut i: usize = 0;
    while i < turn.tool_calls.len()
        invariant
            i <= turn.tool_calls@.len(),
            t == turn.deep_view(),
            m == message.deep_view(),
            forall|a: int, b: int|
                0 <= a < i && 0 <= b < m.tool_calls.len() ==> !same_call(
                    #[trigger] t.tool_calls[a],
                    #[trigger] m.tool_calls[b],
                ),
        decreases turn.tool_calls.len() - i,
    {
        let kept = &turn.tool_calls[i];
        assert(t.tool_calls[i as int] == kept.deep_view());
        let mut j: usize = 0;
        while j < message.tool_calls.len()
            invariant
                i < turn.tool_calls@.len(),
                j <= message.tool_calls@.len(),
                t == turn.deep_view(),
                m == message.deep_view(),
                kept == turn.tool_calls@[i as int],
                t.tool_calls[i as int] == kept.deep_view(),
                forall|b: int|
                    0 <= b < j ==> !same_call(t.tool_calls[i as int], #[trigger] m.tool_calls[b]),
            decreases message.tool_calls.len() - j,
        {
            let call = &message.tool_calls[j];
            assert(m.tool_calls[j as int] == call.deep_view());
            let same_id = match &kept.id {
                Some(id) => text::same(id.as_str(), call.id.as_str()),
                None => false,
            };
            if same_id || text::same(kept.name.as_str(), call.name.as_str()) {
                assert(same_call(t.tool_calls[i as int], m.tool_calls[j as int]));
                return true;
            }
            j += 1;
        }
        i += 1;
    }
    false
}

/// The last kept turn that makes one of the calls of a message.
pub fn find_matching_shadow_turn_for_message<'a>(
    message: &Message,
    shadow_turns: &'a [GeminiAssistantTurn],
) -> (r: Option<&'a GeminiAssistantTurn>)
    ensures
        r.deep_view() == matching_turn(message.deep_view(), shadow_turns.deep_view()),
{
    let ghost all = shadow_turns.deep_view();
    let mut i: usize = shadow_turns.len();
    proof {
        seqs::take_ends(all);
    }
    while i > 0
        invariant
            i <= shadow_turns@.len(),
            all == shadow_turns.deep_view(),
            all.len() == shadow_turns@.len(),
            matching_turn(message.deep_view(), all) == matching_turn(
                message.deep_view(),
                all.take(i as int),
            ),
        decreases i,
    {
        proof {
            seqs::take_step(all, i - 1);
        }
        if matches_message(&shadow_turns[i - 1], message) {
            return Some(&shadow_turns[i - 1]);
        }
        i -= 1;
    }
    proof {
        seqs::take_ends(all);
    }
    None
}

// ---------------------------------------------------------------------------
// Bodies for workers
// ---------------------------------------------------------------------------

/// What is known while the messages of a request are put into a body.
#[verifier::ext_equal]
pub struct BodyView {
    pub contents: Seq<JsonView>,
    pub system: Seq<JsonView>,
    pub names: Map<Seq<char>, Seq<char>>,
}

/// The signature for a call, if one is known.
pub open spec fn signature_of(signatures: Map<Seq<char>, Seq<char>>, id: Seq<char>) -> Option<
    Seq<char>,
> {
    if signatures.dom().contains(id) {
        Some(signatures[id])
    } else {
        None
    }
}

/// The function calls of a message, each with its signature.
pub open spec fn signed_calls(
    calls: Seq<ToolCallView>,
    signatures: Map<Seq<char>, Seq<char>>,
) -> Seq<JsonView> {
    Seq::new(calls.len(), |i: int| call_part(calls[i], signature_of(signatures, calls[i].id)))
}

/// The names after those of the calls of a message.
pub open spec fn with_message_names(
    names: Map<Seq<char>, Seq<char>>,
    calls: Seq<ToolCallView>,
) -> Map<Seq<char>, Seq<char>>
    decreases calls.len(),
{
    if calls.len() == 0 {
        names
    } else {
        with_message_names(names, calls.drop_last()).insert(calls.last().id, calls.last().name)
    }
}

/// The parts of a message that calls tools, if no kept turn makes its calls.
pub open spec fn own_parts(m: MessageView, signatures: Map<Seq<char>, Seq<char>>) -> Seq<JsonView> {
    (if m.content.len() > 0 {
        seq![text_part(m.content)]
    } else {
        Seq::empty()
    }) + signed_calls(m.tool_calls, signatures)
}

/// The parts of the kept turn for a message, if there is one.
pub open spec fn kept_parts(m: MessageView, turns: Seq<TurnView>) -> Option<Seq<JsonView>> {
    match matching_turn(m, turns) {
        Some(turn) => replayed_parts(turn.assistant_content),
        None => None,
    }
}

/// The name of the tool whose result a message holds.
pub open spec fn result_name(m: MessageView, names: Map<Seq<char>, Seq<char>>) -> Seq<char> {
    match m.tool_call_id {
        Some(id) => if names.dom().contains(id) {
            names[id]
        } else {
            id
        },
        None => "unknown"@,
    }
}

/// The identifier of the call whose result a message holds, if Gemini knows it.
pub open spec fn result_id(m: MessageView, names: Map<Seq<char>, Seq<char>>) -> Option<JsonView> {
    match m.tool_call_id {
        Some(id) => if id != result_name(m, names) && !is_synthesized(id) {
            Some(JsonView::Str(id))
        } else {
            None
        },
        None => None,
    }
}

/// A tool result as a worker is shown it.
pub open spec fn body_result(m: MessageView, names: Map<Seq<char>, Seq<char>>) -> JsonView {
    JsonView::Object(
        no_members().insert(
            "functionResponse"@,
            JsonView::Object(
                with_some(
                    no_members().insert("name"@, JsonView::Str(result_name(m, names))).insert(
                        "response"@,
                        JsonView::Object(
                            no_members().insert("content"@, JsonView::Str(m.content)),
                        ),
                    ),
                    "id"@,
                    result_id(m, names),
                ),
            ),
        ),
    )
}

/// The body after one more message.
pub open spec fn with_message(
    b: BodyView,
    m: MessageView,
    turns: Seq<TurnView>,
    signatures: Map<Seq<char>, Seq<char>>,
) -> BodyView {
    match m.role {
        Role::System => BodyView { system: b.system.push(text_part(m.content)), ..b },
        Role::User => BodyView {
            contents: b.contents.push(role_and_parts("user"@, seq![text_part(m.content)])),
            ..b
        },
        Role::Assistant => if m.tool_calls.len() > 0 {
            let (parts, names) = match kept_parts(m, turns) {
                Some(parts) => (parts, b.names),
                None => (own_parts(m, signatures), with_message_names(b.names, m.tool_calls)),
            };
            BodyView {
                contents: b.contents.push(role_and_parts("model"@, parts)),
                names: with_part_names(names, parts),
                ..b
            }
        } else {
            BodyView {
                contents: b.contents.push(role_and_parts("model"@, seq![text_part(m.content)])),
                ..b
            }
        },
        Role::Tool => BodyView {
            contents: b.contents.push(role_and_parts("user"@, seq![body_result(m, b.names)])),
            ..b
        },
    }
}

/// The body after some messages.
pub open spec fn body_of(messages: Seq<MessageView>, turns: Seq<TurnView>) -> BodyView
    decreases messages.len(),
{
    if messages.len() == 0 {
        BodyView { contents: Seq::empty(), system: Seq::empty(), names: names_of_turns(turns) }
    } else {
        with_message(
            body_of(messages.drop_last(), turns),
            messages.last(),
            turns,
            signatures_of_turns(turns),
        )
    }
}

/// The thinking that a worker is asked for: by level or by budget, as the model wants
/// it.
pub open spec fn body_thinking(t: ThinkingConfig, model: Seq<char>) -> JsonView {
    let m = no_members().insert("includeThoughts"@, JsonView::Bool(!(t.effort is Disabled)));
    JsonView::Object(
        if uses_level(model) {
            m.insert("thinkingLevel"@, JsonView::Str(level_of(t.effort)))
        } else {
            m.insert(
                "thinkingBudget"@,
                int_view(
                    if t.effort is Disabled {
                        0
                    } else {
                        match t.budget_tokens {
                            Some(n) => n as int,
                            None => -1,
                        }
                    },
                ),
            )
        },
    )
}

/// The generation configuration of a body.
pub open spec fn body_config(ir: RequestView, model: Seq<char>) -> JsonView {
    let c = no_members().insert("maxOutputTokens"@, int_view(ir.max_tokens as int));
    let c = with_some(c, "temperature"@, protocol::single_json(ir.temperature));
    let c = with_some(c, "topP"@, protocol::single_json(ir.top_p));
    let c = with_some(c, "stopSequences"@, protocol::stop_json(ir.stop));
    JsonView::Object(
        with_some(
            c,
            "thinkingConfig"@,
            match ir.thinking {
                Some(t) => Some(body_thinking(t, model)),
                None => None,
            },
        ),
    )
}

/// A tool as a worker is shown it.
pub open spec fn body_tool() -> spec_fn(ToolDefView) -> JsonView {
    |t: ToolDefView|
        JsonView::Object(
            no_members().insert("name"@, JsonView::Str(t.name)).insert(
                "description"@,
                JsonView::Str(t.description),
            ).insert("parameters"@, t.parameters),
        )
}

/// The tools as a worker is shown them, if there are any.
pub open spec fn body_tools(tools: Seq<ToolDefView>) -> Option<JsonView> {
    if tools.len() == 0 {
        None
    } else {
        Some(
            JsonView::Array(
                seq![
                    JsonView::Object(
                        no_members().insert(
                            "functionDeclarations"@,
                            JsonView::Array(tools.map_values(body_tool())),
                        ),
                    ),
                ],
            ),
        )
    }
}

/// The system prompt of a body, if there is one.
pub open spec fn body_system(parts: Seq<JsonView>) -> Option<JsonView> {
    if parts.len() == 0 {
        None
    } else {
        Some(JsonView::Object(no_members().insert("parts"@, JsonView::Array(parts))))
    }
}

/// The members of a body that the common form of a request decides.
pub open spec fn body_members(
    ir: RequestView,
    model: Seq<char>,
    turns: Seq<TurnView>,
) -> Map<Seq<char>, JsonView> {
    let body = body_of(ir.messages, turns);
    let b = no_members().insert("contents"@, JsonView::Array(body.contents)).insert(
        "generationConfig"@,
        body_config(ir, model),
    );
    let b = with_some(b, "systemInstruction"@, body_system(body.system));
    let b = with_some(b, "tools"@, body_tools(ir.tools));
    let b = with_some(
        b,
        "toolConfig"@,
        match ir.tool_choice {
            Some(c) => Some(choice_out(c)),
            None => None,
        },
    );
    with_some(b, "stream"@, protocol::stream_json(ir.stream))
}

/// The body of a request to a worker.
pub open spec fn worker_body(ir: RequestView, model: Seq<char>, turns: Seq<TurnView>) -> JsonView {
    JsonView::Object(
        protocol::with_native(
            body_members(ir, model, turns),
            ir.native,
            protocol::NATIVE_GEMINI@,
        ),
    )
}

/// The body of a request to a worker, without kept turns.
pub fn build_worker_body(ir: &IntermediateRequest, model: &str) -> (r: Json)
    ensures
        r.deep_view() == worker_body(ir.deep_view(), model@, Seq::empty()),
{
    let none: [GeminiAssistantTurn; 0] = [];
    assert(none.deep_view() =~= Seq::<TurnView>::empty());
    build_worker_body_with_shadow(ir, model, &none)
}

fn parts_of_calls(m: &Message, signatures: &Lookup<String>) -> (r: Vec<Json>)
    ensures
        r.deep_view() == own_parts(m.deep_view(), signatures@),
{
    let ghost mv = m.deep_view();
    let ghost calls = signed_calls(mv.tool_calls, signatures@);
    let mut parts: Vec<Json> = seqs::none();
    if !m.content.as_str().is_empty() {
        parts = seqs::one(json_of_text_part(m.content.as_str()));
    }
    let ghost start = parts.deep_view();
    let mut i: usize = 0;
    proof {
        seqs::take_ends(calls);
        assert(start + calls.take(0) =~= start);
    }
    while i < m.tool_calls.len()
        invariant
            i <= m.tool_calls@.len(),
            mv == m.deep_view(),
            calls == signed_calls(mv.tool_calls, signatures@),
            parts.deep_view() == start + calls.take(i as int),
        decreases m.tool_calls.len() - i,
    {
        let c = &m.tool_calls[i];
        let part = json_of_call(c, signatures.get(c.id.as_str()));
        proof {
            seqs::take_step(calls, i as int);
            assert(mv.tool_calls[i as int] == c.deep_view());
            assert(start + calls.take(i + 1) =~= (start + calls.take(i as int)).push(
                part.deep_view(),
            ));
        }
        seqs::put(&mut parts, part);
        i += 1;
    }
    parts
}

fn merge_message_names(calls: &Vec<ToolCall>, names: &mut Lookup<String>)
    ensures
        final(names)@ == with_message_names(old(names)@, calls.deep_view()),
{
    let ghost start = names@;
    let ghost all = calls.deep_view();
    let mut i: usize = 0;
    proof {
        seqs::take_ends(all);
    }
    while i < calls.len()
        invariant
            i <= calls@.len(),
            all == calls.deep_view(),
            all.len() == calls@.len(),
            names@ == with_message_names(start, all.take(i as int)),
        decreases calls.len() - i,
    {
        proof {
            seqs::take_step(all, i as int);
        }
        names.insert(calls[i].id.as_str(), calls[i].name.clone());
        i += 1;
    }
}

fn json_of_result(m: &Message, names: &Lookup<String>) -> (r: Json)
    ensures
        r.deep_view() == body_result(m.deep_view(), names@),
{
    let name = match &m.tool_call_id {
        Some(id) => match names.get(id.as_str()) {
            Some(name) => name.clone(),
            None => id.clone(),
        },
        None => "unknown".to_owned(),
    };
    let mut content = JsonMap::new();
    content.insert_text("content", m.content.as_str());
    let mut response = JsonMap::new();
    response.insert_text("name", name.as_str());
    response.insert("response", Json::object(content));
    if let Some(id) = &m.tool_call_id {
        if !text::same(id.as_str(), name.as_str()) && !is_synthesized_tool_call_id(id.as_str()) {
            response.insert_text("id", id.as_str());
        }
    }
    let mut part = JsonMap::new();
    part.insert("functionResponse", Json::object(response));
    Json::object(part)
}

/// The messages of a request while they are put into a body.
struct Body {
    contents: Vec<Json>,
    system: Vec<Json>,
    names: Lookup<String>,
}

impl DeepView for Body {
    type V = BodyView;

    closed spec fn deep_view(&self) -> BodyView {
        BodyView {
            contents: self.contents.deep_view(),
            system: self.system.deep_view(),
            names: self.names@,
        }
    }
}

fn add_message(b: &mut Body, m: &Message, turns: &[GeminiAssistantTurn], signatures: &Lookup<String>)
    ensures
        final(b).deep_view() == with_message(
            old(b).deep_view(),
            m.deep_view(),
            turns.deep_view(),
            signatures@,
        ),
{
    match m.role {
        Role::System => {
            seqs::put(&mut b.system, json_of_text_part(m.content.as_str()));
        },
        Role::User => {
            let parts = seqs::one(json_of_text_part(m.content.as_str()));
            seqs::put(&mut b.contents, json_of_role_and_parts("user", parts));
        },
        Role::Assistant => {
            if m.tool_calls.len() > 0 {
                let kept = match find_matching_shadow_turn_for_message(m, turns) {
                    Some(turn) => shadow_parts(&turn.assistant_content),
                    None => None,
                };
                let parts = match kept {
                    Some(parts) => parts,
                    None => {
                        merge_message_names(&m.tool_calls, &mut b.names);
                        parts_of_calls(m, signatures)
                    },
                };
                merge_tool_names_from_parts(&parts, &mut b.names);
                seqs::put(&mut b.contents, json_of_role_and_parts("model", parts));
            } else {
                let parts = seqs::one(json_of_text_part(m.content.as_str()));
                seqs::put(&mut b.contents, json_of_role_and_parts("model", parts));
            }
        },
        Role::Tool => {
            let parts = seqs::one(json_of_result(m, &b.names));
            seqs::put(&mut b.contents, json_of_role_and_parts("user", parts));
        },
    }
}

fn json_of_thinking(t: &ThinkingConfig, model: &str) -> (r: Json)
    ensures
        r.deep_view() == body_thinking(*t, model@),
{
    let disabled = matches!(t.effort, ThinkingEffort::Disabled);
    let mut m = JsonMap::new();
    m.insert("includeThoughts", Json::Bool(!disabled));
    if gemini_uses_thinking_level(model) {
        m.insert_text("thinkingLevel", thinking_effort_to_gemini_level(t.effort));
    } else {
        let budget: i32 = if disabled {
            0
        } else {
            match t.budget_tokens {
                Some(n) => n,
                None => -1,
            }
        };
        m.insert("thinkingBudget", Json::of_i64(budget as i64));
    }
    Json::object(m)
}

fn json_of_config(ir: &IntermediateRequest, model: &str) -> (r: Json)
    ensures
        r.deep_view() == body_config(ir.deep_view(), model@),
{
    let mut c = JsonMap::new();
    c.insert("maxOutputTokens", Json::of_u64(ir.max_tokens as u64));
    c.insert_some("temperature", protocol::json_of_single(&ir.temperature));
    c.insert_some("topP", protocol::json_of_single(&ir.top_p));
    c.insert_some("stopSequences", protocol::json_of_stop(&ir.stop));
    if let Some(t) = &ir.thinking {
        c.insert("thinkingConfig", json_of_thinking(t, model));
    }
    Json::object(c)
}

fn json_of_tool(t: &ToolDef) -> (r: Json)
    ensures
        r.deep_view() == body_tool()(t.deep_view()),
{
    let mut m = JsonMap::new();
    m.insert_text("name", t.name.as_str());
    m.insert_text("description", t.description.as_str());
    m.insert("parameters", t.parameters.clone());
    Json::object(m)
}

/// The body of a request to a worker. Where a kept turn makes one of the calls of a
/// message, it is sent in the place of the message.
pub fn build_worker_body_with_shadow(
    ir: &IntermediateRequest,
    model: &str,
    shadow_turns: &[GeminiAssistantTurn],
) -> (r: Json)
    ensures
        r.deep_view() == worker_body(ir.deep_view(), model@, shadow_turns.deep_view()),
{
    let signatures = build_thought_signature_map_from_shadow_turns(shadow_turns);
    let mut b = Body {
        contents: seqs::none(),
        system: seqs::none(),
        names: build_tool_name_map_from_shadow_turns(shadow_turns),
    };
    let ghost turns = shadow_turns.deep_view();
    let ghost all = ir.messages.deep_view();
    let mut i: usize = 0;
    proof {
        seqs::take_ends(all);
    }
    while i < ir.messages.len()
        invariant
            i <= ir.messages@.len(),
            all == ir.messages.deep_view(),
            all.len() == ir.messages@.len(),
            turns == shadow_turns.deep_view(),
            signatures@ == signatures_of_turns(turns),
            b.deep_view() == body_of(all.take(i as int), turns),
        decreases ir.messages.len() - i,
    {
        proof {
            seqs::take_step(all, i as int);
        }
        add_message(&mut b, &ir.messages[i], shadow_turns, &signatures);
        i += 1;
    }
    assert(b.deep_view() == body_of(all, turns));
    let mut body = JsonMap::new();
    let has_system = b.system.len() > 0;
    body.insert("contents", Json::array(b.contents));
    body.insert("generationConfig", json_of_config(ir, model));
    if has_system {
        let mut system = JsonMap::new();
        system.insert("parts", Json::array(b.system));
        body.insert("systemInstruction", Json::object(system));
    }
    if ir.tools.len() > 0 {
        let mut tools = JsonMap::new();
        tools.insert(
            "functionDeclarations",
            Json::array(seqs::map_all(&ir.tools, json_of_tool, Ghost(body_tool()))),
        );
        body.insert("tools", Json::array(seqs::one(Json::object(tools))));
    }
    if let Some(choice) = &ir.tool_choice {
        body.insert("toolConfig", map_tool_choice_to_gemini(choice));
    }
    body.insert_some("stream", protocol::json_of_stream(ir.stream));
    assert(body.deep_view() == body_members(ir.deep_view(), model@, turns));
    protocol::merge_native_object(&mut body, &ir.native, protocol::NATIVE_GEMINI);
    Json::object(body)
}

// ---------------------------------------------------------------------------
// Responses of workers
// ---------------------------------------------------------------------------

/// The fields of a response body that the common form stands for.
pub open spec fn known_fields() -> Seq<Seq<char>> {
    seq!["responseId"@, "candidates"@, "usageMetadata"@, "modelVersion"@]
}

/// The first candidate of a response body.
pub open spec fn first_candidate(body: JsonView) -> Option<JsonView> {
    match body.at("candidates"@).as_array() {
        Some(candidates) => if candidates.len() > 0 {
            Some(candidates[0])
        } else {
            None
        },
        None => None,
    }
}

/// The parts of a candidate.
pub open spec fn candidate_parts(candidate: JsonView) -> Seq<JsonView> {
    match candidate.at("content"@).at("parts"@).as_array() {
        Some(parts) => parts,
        None => Seq::empty(),
    }
}

/// The text of a part of a worker.
pub open spec fn worker_text() -> spec_fn(JsonView) -> Option<Seq<char>> {
    |p: JsonView| p.at("text"@).as_str()
}

/// The thoughts of a part of a worker.
pub open spec fn worker_thought() -> spec_fn(JsonView) -> Option<Seq<char>> {
    |p: JsonView|
        if p.at("thought"@).as_bool() == Some(true) {
            p.at("text"@).as_str()
        } else {
            None
        }
}

/// The identifier of a function call: its own, if it has one, else the given one.
pub open spec fn call_id(call: JsonView, fresh: Seq<char>) -> Seq<char> {
    match filled_text(call.at("id"@)) {
        Some(id) => id,
        None => fresh,
    }
}

/// The function calls of some parts; a call without an identifier gets the fresh one
/// at its position.
pub open spec fn worker_calls(parts: Seq<JsonView>, fresh: Seq<Seq<char>>) -> Seq<ToolCallView>
    decreases parts.len(),
{
    if parts.len() == 0 {
        Seq::empty()
    } else {
        let before = worker_calls(parts.drop_last(), fresh);
        match parts.last().get("functionCall"@) {
            Some(call) => before.push(
                ToolCallView {
                    id: call_id(call, fresh[parts.len() - 1]),
                    name: text_or(call.at("name"@), ""@),
                    arguments: call.at("args"@),
                },
            ),
            None => before,
        }
    }
}

/// What a worker's first candidate says, in the common form.
pub open spec fn worker_result(
    body: JsonView,
    candidate: JsonView,
    model: Seq<char>,
    duration_ms: u64,
    cost_usd: Option<Usd>,
    fresh: Seq<Seq<char>>,
) -> WorkerResultView {
    let parts = candidate_parts(candidate);
    let usage = body.at("usageMetadata"@);
    WorkerResultView {
        model,
        name: ""@,
        api: "google-generative-ai"@,
        success: true,
        response: Some(
            ResponseView {
                id: body.at("responseId"@).as_str(),
                content: text::join_of(parts.filter_map(worker_text()), ""@),
                status: None,
                finish_reason: text_or(candidate.at("finishReason"@), "STOP"@),
                usage: Usage {
                    prompt_tokens: count_of(usage.at("promptTokenCount"@)),
                    completion_tokens: count_of(usage.at("candidatesTokenCount"@)),
                    total_tokens: count_of(usage.at("totalTokenCount"@)),
                    reasoning_tokens: 0,
                },
                cost_usd: cost_or_zero(cost_usd),
                duration_ms,
                model,
                tool_calls: worker_calls(parts, fresh),
                thinking: protocol::joined(parts.filter_map(worker_thought())),
                metadata: Map::empty(),
                native: protocol::native_of_body(protocol::NATIVE_GEMINI@, body, known_fields()),
            },
        ),
        error: None,
    }
}

fn text_of_worker(p: &Json) -> (r: Option<String>)
    ensures
        r.deep_view() == worker_text()(p.deep_view()),
{
    protocol::str_of(p.at("text"))
}

fn thought_of_worker(p: &Json) -> (r: Option<String>)
    ensures
        r.deep_view() == worker_thought()(p.deep_view()),
{
    match p.at("thought").as_bool() {
        Some(true) => protocol::str_of(p.at("text")),
        _ => None,
    }
}

pub(crate) fn id_of_call(call: &Json, fresh: &str) -> (r: String)
    ensures
        r@ == call_id(call.deep_view(), fresh@),
{
    match protocol::filled_str(call.at("id")) {
        Some(id) => id,
        None => fresh.to_owned(),
    }
}

fn calls_of_worker(parts: &Vec<Json>, fresh: &Vec<String>) -> (r: Vec<ToolCall>)
    requires
        fresh@.len() == parts@.len(),
    ensures
        r.deep_view() == worker_calls(parts.deep_view(), fresh.deep_view()),
{
    let mut calls: Vec<ToolCall> = seqs::none();
    let ghost all = parts.deep_view();
    let mut i: usize = 0;
    proof {
        seqs::take_ends(all);
    }
    while i < parts.len()
        invariant
            i <= parts@.len(),
            fresh@.len() == parts@.len(),
            all == parts.deep_view(),
            all.len() == parts@.len(),
            calls.deep_view() == worker_calls(all.take(i as int), fresh.deep_view()),
        decreases parts.len() - i,
    {
        proof {
            seqs::take_step(all, i as int);
        }
        if let Some(call) = parts[i].get("functionCall") {
            seqs::put(
                &mut calls,
                ToolCall {
                    id: id_of_call(call, fresh[i].as_str()),
                    name: protocol::str_or(call.at("name"), ""),
                    arguments: call.at("args").clone(),
                },
            );
        }
        i += 1;
    }
    calls
}

/// What a worker's first candidate says, in the common form; a function call without
/// an identifier gets the fresh one at its position among the parts.
pub fn worker_response_with_ids(
    body: &Json,
    candidate: &Json,
    model: &str,
    duration_ms: u64,
    cost_usd: Option<Usd>,
    fresh: &Vec<String>,
) -> (r: WorkerResult)
    requires
        fresh@.len() == candidate_parts(candidate.deep_view()).len(),
    ensures
        r.deep_view() == worker_result(
            body.deep_view(),
            candidate.deep_view(),
            model@,
            duration_ms,
            cost_usd,
            fresh.deep_view(),
        ),
{
    let empty: Vec<Json> = seqs::none();
    let parts: &Vec<Json> = match candidate.at("content").at("parts").as_array() {
        Some(parts) => parts,
        None => &empty,
    };
    assert(parts.deep_view() =~= candidate_parts(candidate.deep_view()));
    let texts = seqs::pick_all(parts, text_of_worker, Ghost(worker_text()));
    let thoughts = seqs::pick_all(parts, thought_of_worker, Ghost(worker_thought()));
    let tool_calls = calls_of_worker(parts, fresh);
    let usage = body.at("usageMetadata");
    let known: Vec<&str> = vec!["responseId", "candidates", "usageMetadata", "modelVersion"];
    assert(names_view(known@) =~= known_fields());
    WorkerResult {
        model: model.to_owned(),
        name: "".to_owned(),
        api: "google-generative-ai".to_owned(),
        success: true,
        response: Some(
            IntermediateResponse {
                id: protocol::str_of(body.at("responseId")),
                content: text::join(&texts, ""),
                status: None,
                finish_reason: protocol::str_or(candidate.at("finishReason"), "STOP"),
                usage: Usage {
                    prompt_tokens: protocol::count(usage.at("promptTokenCount")),
                    completion_tokens: protocol::count(usage.at("candidatesTokenCount")),
                    total_tokens: protocol::count(usage.at("totalTokenCount")),
                    reasoning_tokens: 0,
                },
                cost_usd: protocol::unwrap_cost(cost_usd),
                duration_ms,
                model: model.to_owned(),
                tool_calls,
                thinking: protocol::join_some(&thoughts),
                metadata: JsonMap::new(),
                native: protocol::native_from_body_excluding(
                    protocol::NATIVE_GEMINI,
                    body,
                    &known,
                ),
            },
        ),
        error: None,
    }
}

fn candidate_of(body: &Json) -> (r: Option<&Json>)
    ensures
        r.deep_view() == first_candidate(body.deep_view()),
{
    match body.at("candidates").as_array() {
        Some(candidates) => {
            if candidates.len() > 0 {
                Some(&candidates[0])
            } else {
                None
            }
        },
        None => None,
    }
}

fn count_parts(candidate: &Json) -> (r: usize)
    ensures
        r == candidate_parts(candidate.deep_view()).len(),
{
    match candidate.at("content").at("parts").as_array() {
        Some(parts) => parts.len(),
        None => 0,
    }
}

/// What a worker's response body says, in the common form. A function call without an
/// identifier gets a fresh one.
pub fn parse_worker_response(
    body: &Json,
    model: &str,
    duration_ms: u64,
    cost_usd: Option<Usd>,
) -> (r: Result<WorkerResult, OpenFusionError>)
    ensures
        match first_candidate(body.deep_view()) {
            Some(candidate) => r matches Ok(wr) && exists|fresh: Seq<Seq<char>>| #[trigger]
                are_fresh(fresh, candidate_parts(candidate).len()) && wr.deep_view()
                    == worker_result(
                    body.deep_view(),
                    candidate,
                    model@,
                    duration_ms,
                    cost_usd,
                    fresh,
                ),
            None => r matches Err(e) && e.deep_view() == ErrorView::Protocol(
                "missing candidates[0]"@,
            ),
        },
{
    match candidate_of(body) {
        Some(candidate) => {
            let fresh = fresh_ids(count_parts(candidate));
            Ok(worker_response_with_ids(body, candidate, model, duration_ms, cost_usd, &fresh))
        },
        None => Err(OpenFusionError::Protocol("missing candidates[0]".to_owned())),
    }
}

// ---------------------------------------------------------------------------
// Function calls without an identifier
// ---------------------------------------------------------------------------

/// A part whose function call, if it has one, has an identifier: its own or the given
/// one.
pub open spec fn rectified_part(part: JsonView, fresh: Seq<char>) -> JsonView {
    match part {
        JsonView::Object(p) => match part.at("functionCall"@) {
            JsonView::Object(c) => if filled_text(part.at("functionCall"@).at("id"@)) is None {
                JsonView::Object(
                    p.insert(
                        "functionCall"@,
                        JsonView::Object(c.insert("id"@, JsonView::Str(fresh))),
                    ),
                )
            } else {
                part
            },
            _ => part,
        },
        _ => part,
    }
}

/// Parts whose function calls have identifiers.
pub open spec fn rectified_parts(parts: Seq<JsonView>, fresh: Seq<Seq<char>>) -> Seq<JsonView> {
    Seq::new(parts.len(), |i: int| rectified_part(parts[i], fresh[i]))
}

/// A candidate whose function calls have identifiers.
pub open spec fn rectified_candidate(candidate: JsonView, fresh: Seq<Seq<char>>) -> JsonView {
    match (candidate, candidate.at("content"@), candidate.at("content"@).at("parts"@)) {
        (JsonView::Object(c), JsonView::Object(content), JsonView::Array(parts)) =>
            JsonView::Object(
                c.insert(
                    "content"@,
                    JsonView::Object(
                        content.insert("parts"@, JsonView::Array(rectified_parts(parts, fresh))),
                    ),
                ),
            ),
        _ => candidate,
    }
}

/// A body whose first candidate has identifiers for its function calls. A body without
/// candidates gets a `candidates` field that is null.
pub open spec fn rectified_body(body: JsonView, fresh: Seq<Seq<char>>) -> JsonView {
    let members = match body {
        JsonView::Object(m) => m,
        _ => no_members(),
    };
    JsonView::Object(
        members.insert(
            "candidates"@,
            match body.at("candidates"@) {
                JsonView::Array(candidates) => JsonView::Array(
                    if candidates.len() > 0 {
                        candidates.update(0, rectified_candidate(candidates[0], fresh))
                    } else {
                        candidates
                    },
                ),
                other => other,
            },
        ),
    )
}

/// The number of parts in the first candidate of a body.
pub open spec fn body_parts(body: JsonView) -> nat {
    match first_candidate(body) {
        Some(candidate) => candidate_parts(candidate).len(),
        None => 0,
    }
}

fn rectify_part(part: &Json, fresh: &str) -> (r: Json)
    ensures
        r.deep_view() == rectified_part(part.deep_view(), fresh@),
{
    if let Json::Object(p) = part {
        if let Some(Json::Object(c)) = p.get("functionCall") {
            let missing = match c.get("id") {
                Some(Json::Str(id)) => id.as_str().is_empty(),
                _ => true,
            };
            if missing {
                let mut call = c.clone();
                call.insert_text("id", fresh);
                let mut q = p.clone();
                q.insert("functionCall", Json::Object(call));
                return Json::Object(q);
            }
        }
    }
    part.clone()
}

/// Gives each function call without an identifier the fresh one at its position.
pub fn rectify_missing_function_call_ids(parts: &Vec<Json>, fresh: &Vec<String>) -> (r: Vec<Json>)
    requires
        fresh@.len() == parts@.len(),
    ensures
        r.deep_view() == rectified_parts(parts.deep_view(), fresh.deep_view()),
{
    let mut r: Vec<Json> = Vec::new();
    let mut i: usize = 0;
    while i < parts.len()
        invariant
            i <= parts@.len(),
            r@.len() == i,
            fresh@.len() == parts@.len(),
            forall|k: int|
                0 <= k < i ==> (#[trigger] r@[k]).deep_view() == rectified_part(
                    parts@[k].deep_view(),
                    fresh@[k]@,
                ),
        decreases parts.len() - i,
    {
        r.push(rectify_part(&parts[i], fresh[i].as_str()));
        i += 1;
    }
    assert(r.deep_view() =~= rectified_parts(parts.deep_view(), fresh.deep_view()));
    r
}

fn rectify_candidate(candidate: &Json, fresh: &Vec<String>) -> (r: Json)
    requires
        fresh@.len() == candidate_parts(candidate.deep_view()).len(),
    ensures
        r.deep_view() == rectified_candidate(candidate.deep_view(), fresh.deep_view()),
{
    broadcast use json::array_view;

    if let Json::Object(c) = candidate {
        if let Some(Json::Object(content)) = c.get("content") {
            if let Some(Json::Array(parts)) = content.get("parts") {
                let mut new_content = content.clone();
                new_content.insert(
                    "parts",
                    Json::array(rectify_missing_function_call_ids(parts, fresh)),
                );
                let mut new_candidate = c.clone();
                new_candidate.insert("content", Json::Object(new_content));
                return Json::Object(new_candidate);
            }
        }
    }
    candidate.clone()
}

/// Gives each function call of the first candidate that has no identifier the fresh
/// one at its position.
pub fn rectify_response_with_ids(body: &mut Json, fresh: &Vec<String>)
    requires
        old(body).deep_view() is Null || old(body).deep_view() is Object,
        fresh@.len() == body_parts(old(body).deep_view()),
    ensures
        final(body).deep_view() == rectified_body(old(body).deep_view(), fresh.deep_view()),
{
    broadcast use json::array_view;

    let ghost before = body.deep_view();
    let mut members = match &*body {
        Json::Object(m) => m.clone(),
        _ => JsonMap::new(),
    };
    let candidates = match body.at("candidates") {
        Json::Array(candidates) => {
            let mut r: Vec<Json> = protocol::copy_vec(candidates);
            if r.len() > 0 {
                let first = rectify_candidate(&r[0], fresh);
                let ghost all = r.deep_view();
                r.set(0, first);
                assert(r.deep_view() =~= all.update(0, first.deep_view()));
            }
            Json::array(r)
        },
        other => other.clone(),
    };
    members.insert("candidates", candidates);
    *body = Json::Object(members);
}

/// Gives each function call of the first candidate that has no identifier a fresh one.
pub fn rectify_response_missing_function_call_ids(body: &mut Json)
    requires
        old(body).deep_view() is Null || old(body).deep_view() is Object,
    ensures
        exists|fresh: Seq<Seq<char>>| #[trigger]
            are_fresh(fresh, body_parts(old(body).deep_view())) && final(body).deep_view()
                == rectified_body(old(body).deep_view(), fresh),
{
    let n = match candidate_of(body) {
        Some(candidate) => count_parts(candidate),
        None => 0,
    };
    let fresh = fresh_ids(n);
    rectify_response_with_ids(body, &fresh);
    assert(are_fresh(fresh.deep_view(), body_parts(old(body).deep_view())));
}

// ---------------------------------------------------------------------------
// Turns to keep
// ---------------------------------------------------------------------------

/// The function calls of some parts as they are kept; a call without an identifier
/// gets the fresh one at its position.
pub open spec fn metas_of(parts: Seq<JsonView>, fresh: Seq<Seq<char>>) -> Seq<ToolCallMetaView>
    decreases parts.len(),
{
    if parts.len() == 0 {
        Seq::empty()
    } else {
        let before = metas_of(parts.drop_last(), fresh);
        match parts.last().get("functionCall"@) {
            Some(call) => before.push(
                ToolCallMetaView {
                    id: Some(call_id(call, fresh[parts.len() - 1])),
                    name: text_or(call.at("name"@), ""@),
                    args: match call.get("args"@) {
                        Some(args) => args,
                        None => protocol::empty_object(),
                    },
                    thought_signature: match either(
                        parts.last(),
                        "thoughtSignature"@,
                        "thought_signature"@,
                    ) {
                        Some(s) => s.as_str(),
                        None => None,
                    },
                },
            ),
            None => before,
        }
    }
}

/// The content of a response body that is kept, with its parts.
pub open spec fn kept_content(body: JsonView) -> Option<(JsonView, Seq<JsonView>)> {
    match first_candidate(body) {
        Some(candidate) => match candidate.get("content"@) {
            Some(content) => match content.at("parts"@).as_array() {
                Some(parts) => Some((content, parts)),
                None => None,
            },
            None => None,
        },
        None => None,
    }
}

/// Whether a turn is that of a content with some parts, but for identifiers that are
/// missing there.
pub open spec fn is_turn_of(turn: TurnView, content: JsonView, parts: Seq<JsonView>) -> bool {
    exists|fresh: Seq<Seq<char>>| #[trigger]
        are_fresh(fresh, parts.len()) && turn == (TurnView {
            assistant_content: content,
            tool_calls: metas_of(parts, fresh),
        })
}

/// Whether one of some parts is a function call.
pub open spec fn calls_tools(parts: Seq<JsonView>) -> bool {
    exists|i: int| 0 <= i < parts.len() && (#[trigger] parts[i]).get("functionCall"@) is Some
}

/// A kept turn has tool calls exactly when one of its parts is a function call.
pub proof fn turn_has_calls(turn: TurnView, content: JsonView, parts: Seq<JsonView>)
    requires
        is_turn_of(turn, content, parts),
    ensures
        turn.tool_calls.len() > 0 <==> calls_tools(parts),
{
    let fresh = choose|fresh: Seq<Seq<char>>| #[trigger]
        are_fresh(fresh, parts.len()) && turn == (TurnView {
            assistant_content: content,
            tool_calls: metas_of(parts, fresh),
        });
    metas_are_calls(parts, fresh);
}

proof fn metas_are_calls(parts: Seq<JsonView>, fresh: Seq<Seq<char>>)
    ensures
        metas_of(parts, fresh).len() > 0 <==> calls_tools(parts),
    decreases parts.len(),
{
    if parts.len() > 0 {
        let rest = parts.drop_last();
        metas_are_calls(rest, fresh);
        if calls_tools(parts) {
            let i = choose|i: int|
                0 <= i < parts.len() && (#[trigger] parts[i]).get("functionCall"@) is Some;
            if i < rest.len() {
                assert(rest[i].get("functionCall"@) is Some);
            }
        }
        if calls_tools(rest) {
            let i = choose|i: int|
                0 <= i < rest.len() && (#[trigger] rest[i]).get("functionCall"@) is Some;
            assert(parts[i].get("functionCall"@) is Some);
        }
        if parts.last().get("functionCall"@) is Some {
            assert(parts[parts.len() - 1].get("functionCall"@) is Some);
        }
    }
}

/// The function calls of some parts as they are kept; a call without an identifier
/// gets the fresh one at its position.
pub fn extract_tool_call_meta(parts: &Vec<Json>, fresh: &Vec<String>) -> (r: Vec<
    GeminiToolCallMeta,
>)
    requires
        fresh@.len() == parts@.len(),
    ensures
        r.deep_view() == metas_of(parts.deep_view(), fresh.deep_view()),
{
    let mut metas: Vec<GeminiToolCallMeta> = seqs::none();
    let ghost all = parts.deep_view();
    let mut i: usize = 0;
    proof {
        seqs::take_ends(all);
    }
    while i < parts.len()
        invariant
            i <= parts@.len(),
            fresh@.len() == parts@.len(),
            all == parts.deep_view(),
            all.len() == parts@.len(),
            metas.deep_view() == metas_of(all.take(i as int), fresh.deep_view()),
        decreases parts.len() - i,
    {
        proof {
            seqs::take_step(all, i as int);
        }
        if let Some(call) = parts[i].get("functionCall") {
            let args = match call.get("args") {
                Some(args) => args.clone(),
                None => Json::Object(JsonMap::new()),
            };
            let signature = match either_of(&parts[i], "thoughtSignature", "thought_signature") {
                Some(s) => protocol::str_of(s),
                None => None,
            };
            seqs::put(
                &mut metas,
                GeminiToolCallMeta::new(
                    Some(id_of_call(call, fresh[i].as_str())),
                    protocol::str_or(call.at("name"), "").as_str(),
                    args,
                    signature,
                ),
            );
        }
        i += 1;
    }
    metas
}

/// The turn of a response body, to be kept. A function call without an identifier is
/// kept under a fresh one.
pub fn extract_assistant_shadow_turn(body: &Json) -> (r: Option<GeminiAssistantTurn>)
    ensures
        match kept_content(body.deep_view()) {
            Some((content, parts)) => r matches Some(turn) && is_turn_of(
                turn.deep_view(),
                content,
                parts,
            ),
            None => r is None,
        },
{
    match candidate_of(body) {
        Some(candidate) => match candidate.get("content") {
            Some(content) => match content.at("parts").as_array() {
                Some(parts) => {
                    let fresh = fresh_ids(parts.len());
                    let metas = extract_tool_call_meta(parts, &fresh);
                    let turn = GeminiAssistantTurn::new(content.clone(), metas);
                    assert(is_turn_of(turn.deep_view(), content.deep_view(), parts.deep_view())) by {
                        assert(are_fresh(fresh.deep_view(), parts.deep_view().len()));
                    }
                    Some(turn)
                },
                None => None,
            },
            None => None,
        },
        None => None,
    }
}

} // verus!
