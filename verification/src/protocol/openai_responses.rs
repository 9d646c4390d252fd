//! OpenAI's responses protocol.
//!
//! A request holds `input`, a text or a list of items: messages, function calls and
//! their outputs. The system prompt travels as `instructions`. A response holds a list
//! of `output` items.

use vstd::prelude::*;

use crate::error::{ErrorView, OpenFusionError};
use crate::ids;
use crate::json;
use crate::json::{int_view, json_text, names_view, no_members, with_some, Json, JsonMap, JsonView};
use crate::protocol;
use crate::protocol::openai_completions;
use crate::protocol::openai_completions::{effort_of_word, effort_word};
use crate::protocol::{
    cost_or_zero, count_of, plain_message, text_or, IntermediateRequest, IntermediateResponse,
    Message, MessageView, RequestView, ResponseView, Role, Single, SingleView, ThinkingConfig,
    ThinkingEffort, ToolCall, ToolCallView, ToolDef, ToolDefView, Usage, Usd, WorkerResult,
    WorkerResultView,
};
use crate::seqs;
use crate::text;

verus! {

// ---------------------------------------------------------------------------
// Requests as they come in
// ---------------------------------------------------------------------------

/// A responses request.
#[derive(Debug)]
pub struct ResponsesRequest {
    pub model: String,
    pub input: ResponsesInput,
    pub instructions: Option<String>,
    pub max_output_tokens: u32,
    pub temperature: Option<Single>,
    pub top_p: Option<Single>,
    pub api_key: Option<String>,
    pub stream: bool,
    pub previous_response_id: Option<String>,
    pub tools: Vec<ResponsesTool>,
    pub tool_choice: Option<Json>,
    pub parallel_tool_calls: Option<bool>,
    pub reasoning: Option<ResponsesReasoning>,
    pub metadata: JsonMap,
    pub extra: JsonMap,
}

#[derive(Debug)]
pub struct ResponsesReasoning {
    pub effort: Option<String>,
    pub summary: Option<Json>,
}

/// A tool. Clients write its fields directly, or in `function`, and its parameters
/// as `parameters` or as `input_schema`.
#[derive(Debug)]
pub struct ResponsesTool {
    pub kind: String,
    pub name: String,
    pub description: String,
    pub parameters: Json,
    pub input_schema: Json,
    pub function: Option<ResponsesToolFunction>,
}

#[derive(Debug)]
pub struct ResponsesToolFunction {
    pub name: String,
    pub description: String,
    pub parameters: Json,
}

#[derive(Debug)]
pub enum ResponsesInput {
    Text(String),
    Items(Vec<ResponsesInputItem>),
}

#[derive(Debug)]
pub enum ResponsesInputItem {
    Message { role: String, content: ResponsesMessageContent },
    FunctionCall { call_id: String, name: String, arguments: String },
    FunctionCallOutput { call_id: String, output: String },
}

#[derive(Debug)]
pub enum ResponsesMessageContent {
    Text(String),
    Blocks(Vec<ResponsesContentBlock>),
}

#[derive(Debug)]
pub struct ResponsesContentBlock {
    pub kind: Option<String>,
    pub text: Option<String>,
}

#[verifier::ext_equal]
pub struct ResponsesRequestView {
    pub model: Seq<char>,
    pub input: InputView,
    pub instructions: Option<Seq<char>>,
    pub max_output_tokens: u32,
    pub temperature: Option<SingleView>,
    pub top_p: Option<SingleView>,
    pub api_key: Option<Seq<char>>,
    pub stream: bool,
    pub previous_response_id: Option<Seq<char>>,
    pub tools: Seq<InToolView>,
    pub tool_choice: Option<JsonView>,
    pub parallel_tool_calls: Option<bool>,
    pub reasoning: Option<ReasoningView>,
    pub metadata: Map<Seq<char>, JsonView>,
    pub extra: Map<Seq<char>, JsonView>,
}

#[verifier::ext_equal]
pub struct ReasoningView {
    pub effort: Option<Seq<char>>,
    pub summary: Option<JsonView>,
}

#[verifier::ext_equal]
pub struct InToolView {
    pub kind: Seq<char>,
    pub name: Seq<char>,
    pub description: Seq<char>,
    pub parameters: JsonView,
    pub input_schema: JsonView,
    pub function: Option<ToolDefView>,
}

#[verifier::ext_equal]
pub enum InputView {
    Text(Seq<char>),
    Items(Seq<InputItemView>),
}

#[verifier::ext_equal]
pub enum InputItemView {
    Message { role: Seq<char>, content: ContentView },
    FunctionCall { call_id: Seq<char>, name: Seq<char>, arguments: Seq<char> },
    FunctionCallOutput { call_id: Seq<char>, output: Seq<char> },
}

#[verifier::ext_equal]
pub enum ContentView {
    Text(Seq<char>),
    Blocks(Seq<BlockView>),
}

#[verifier::ext_equal]
pub struct BlockView {
    pub kind: Option<Seq<char>>,
    pub text: Option<Seq<char>>,
}

impl DeepView for ResponsesReasoning {
    type V = ReasoningView;

    open spec fn deep_view(&self) -> ReasoningView {
        ReasoningView { effort: self.effort.deep_view(), summary: self.summary.deep_view() }
    }
}

impl DeepView for ResponsesToolFunction {
    type V = ToolDefView;

    open spec fn deep_view(&self) -> ToolDefView {
        ToolDefView {
            name: self.name@,
            description: self.description@,
            parameters: self.parameters.deep_view(),
        }
    }
}

impl DeepView for ResponsesTool {
    type V = InToolView;

    open spec fn deep_view(&self) -> InToolView {
        InToolView {
            kind: self.kind@,
            name: self.name@,
            description: self.description@,
            parameters: self.parameters.deep_view(),
            input_schema: self.input_schema.deep_view(),
            function: self.function.deep_view(),
        }
    }
}

impl DeepView for ResponsesContentBlock {
    type V = BlockView;

    open spec fn deep_view(&self) -> BlockView {
        BlockView { kind: self.kind.deep_view(), text: self.text.deep_view() }
    }
}

impl DeepView for ResponsesMessageContent {
    type V = ContentView;

    open spec fn deep_view(&self) -> ContentView {
        match *self {
            ResponsesMessageContent::Text(s) => ContentView::Text(s@),
            ResponsesMessageContent::Blocks(blocks) => ContentView::Blocks(blocks.deep_view()),
        }
    }
}

impl DeepView for ResponsesInputItem {
    type V = InputItemView;

    open spec fn deep_view(&self) -> InputItemView {
        match *self {
            ResponsesInputItem::Message { role, content } => InputItemView::Message {
                role: role@,
                content: content.deep_view(),
            },
            ResponsesInputItem::FunctionCall { call_id, name, arguments } =>
                InputItemView::FunctionCall {
                    call_id: call_id@,
                    name: name@,
                    arguments: arguments@,
                },
            ResponsesInputItem::FunctionCallOutput { call_id, output } =>
                InputItemView::FunctionCallOutput { call_id: call_id@, output: output@ },
        }
    }
}

impl DeepView for ResponsesInput {
    type V = InputView;

    open spec fn deep_view(&self) -> InputView {
        match *self {
            ResponsesInput::Text(s) => InputView::Text(s@),
            ResponsesInput::Items(items) => InputView::Items(items.deep_view()),
        }
    }
}

impl DeepView for ResponsesRequest {
    type V = ResponsesRequestView;

    open spec fn deep_view(&self) -> ResponsesRequestView {
        ResponsesRequestView {
            model: self.model@,
            input: self.input.deep_view(),
            instructions: self.instructions.deep_view(),
            max_output_tokens: self.max_output_tokens,
            temperature: self.temperature.deep_view(),
            top_p: self.top_p.deep_view(),
            api_key: self.api_key.deep_view(),
            stream: self.stream,
            previous_response_id: self.previous_response_id.deep_view(),
            tools: self.tools.deep_view(),
            tool_choice: self.tool_choice.deep_view(),
            parallel_tool_calls: self.parallel_tool_calls,
            reasoning: self.reasoning.deep_view(),
            metadata: self.metadata.deep_view(),
            extra: self.extra.deep_view(),
        }
    }
}

impl Default for ResponsesMessageContent {
    fn default() -> (r: Self)
        ensures
            r.deep_view() == ContentView::Text(Seq::empty()),
    {
        ResponsesMessageContent::Text(String::new())
    }
}

/// The token limit of a request that names none.
pub fn default_max_tokens() -> (r: u32)
    ensures
        r == 2048,
{
    2048
}

/// The word for an effort.
pub fn effort_to_openai_str(effort: ThinkingEffort) -> (r: &'static str)
    ensures
        r@ == effort_word(effort),
{
    openai_completions::effort_to_openai_str(effort)
}

// ---------------------------------------------------------------------------
// From a request to the common form
// ---------------------------------------------------------------------------

/// Whether a `summary` field asks for a summary.
pub open spec fn wants_summary(summary: Option<JsonView>) -> bool {
    match summary {
        None => false,
        Some(JsonView::Null) => false,
        Some(JsonView::Str(s)) => s != "none"@ && s != "off"@ && s != "disabled"@,
        Some(JsonView::Bool(b)) => b,
        Some(_) => true,
    }
}

/// The thinking that the `reasoning` field of a request asks for.
pub open spec fn thinking_in(reasoning: Option<ReasoningView>) -> Option<ThinkingConfig> {
    match reasoning {
        Some(r) => Some(
            ThinkingConfig {
                effort: effort_of_word(r.effort),
                budget_tokens: None,
                summary: wants_summary(r.summary),
            },
        ),
        None => None,
    }
}

/// The thinking that the `reasoning` field of a request asks for.
pub fn parse_openai_reasoning(reasoning: Option<ResponsesReasoning>) -> (r: Option<ThinkingConfig>)
    ensures
        r == thinking_in(reasoning.deep_view()),
{
    match reasoning {
        Some(reasoning) => {
            let summary = match &reasoning.summary {
                None => false,
                Some(Json::Null) => false,
                Some(Json::Str(s)) => !text::same(s.as_str(), "none") && !text::same(
                    s.as_str(),
                    "off",
                ) && !text::same(s.as_str(), "disabled"),
                Some(Json::Bool(b)) => *b,
                Some(_) => true,
            };
            Some(
                ThinkingConfig {
                    effort: openai_completions::effort_from_word(&reasoning.effort),
                    budget_tokens: None,
                    summary,
                },
            )
        },
        None => None,
    }
}

/// Whether a text is a description of the client's environment.
pub open spec fn is_environment(content: Seq<char>) -> bool {
    text::starts_with_of(text::trim_start_of(content), "<environment_context>"@)
}

/// Whether a message is of a sort that clients repeat: a system message, or a
/// description of the environment.
pub open spec fn is_context(m: MessageView) -> bool {
    m.role is System || (m.role is User && is_environment(m.content))
}

/// Whether a context message was said before.
pub open spec fn said_before(before: Seq<MessageView>, m: MessageView) -> bool {
    is_context(m) && exists|j: int|
        0 <= j < before.len() && (#[trigger] before[j]).role == m.role && before[j].content
            == m.content
}

/// The messages but for repetitions of context messages.
pub open spec fn deduped(messages: Seq<MessageView>) -> Seq<MessageView>
    decreases messages.len(),
{
    if messages.len() == 0 {
        Seq::empty()
    } else {
        let before = messages.drop_last();
        if said_before(before, messages.last()) {
            deduped(before)
        } else {
            deduped(before).push(messages.last())
        }
    }
}

/// Whether no context message was said before.
pub open spec fn says_nothing_twice(messages: Seq<MessageView>) -> bool {
    forall|i: int| #![trigger messages[i]]
        0 <= i < messages.len() ==> !said_before(messages.take(i), messages[i])
}

/// Once repetitions are left out, no context message is said twice, and whatever was
/// said is still said.
pub proof fn deduped_says_everything_once(messages: Seq<MessageView>)
    ensures
        says_nothing_twice(deduped(messages)),
        deduped(messages).len() <= messages.len(),
        forall|m: MessageView| #[trigger]
            deduped(messages).contains(m) ==> messages.contains(m),
        forall|i: int|
            0 <= i < messages.len() ==> exists|j: int|
                0 <= j < deduped(messages).len() && (#[trigger] deduped(messages)[j]).role == (
                #[trigger] messages[i]).role && deduped(messages)[j].content
                    == messages[i].content,
        forall|i: int|
            0 <= i < messages.len() && !is_context(#[trigger] messages[i]) ==> deduped(
                messages,
            ).contains(messages[i]),
    decreases messages.len(),
{
    let r = deduped(messages);
    if messages.len() > 0 {
        let before = messages.drop_last();
        let last = messages.last();
        let kept = deduped(before);
        deduped_says_everything_once(before);
        let said = said_before(before, last);
        if !said {
            assert(r =~= kept.push(last));
            assert forall|i: int| #![trigger r[i]] 0 <= i < r.len() implies !said_before(
                r.take(i),
                r[i],
            ) by {
                if i < kept.len() {
                    assert(r.take(i) =~= kept.take(i));
                    assert(r[i] == kept[i]);
                } else {
                    assert(r.take(i) =~= kept);
                    if said_before(kept, last) {
                        let j = choose|j: int|
                            0 <= j < kept.len() && (#[trigger] kept[j]).role == last.role
                                && kept[j].content == last.content;
                        assert(kept.contains(kept[j]));
                        let k = before.index_of(kept[j]);
                        assert(before[k].role == last.role && before[k].content == last.content);
                    }
                }
            }
        }
        assert forall|m: MessageView| #[trigger] r.contains(m) implies messages.contains(m) by {
            let i = r.index_of(m);
            if i < kept.len() {
                assert(kept[i] == m);
                assert(kept.contains(m));
                let k = before.index_of(m);
                assert(messages[k] == m);
            } else {
                assert(messages[messages.len() - 1] == m);
            }
        }
        assert forall|i: int| 0 <= i < messages.len() implies exists|j: int|
            0 <= j < r.len() && (#[trigger] r[j]).role == (#[trigger] messages[i]).role
                && r[j].content == messages[i].content by {
            let k = if i < before.len() {
                i
            } else if said {
                choose|j: int|
                    0 <= j < before.len() && (#[trigger] before[j]).role == last.role
                        && before[j].content == last.content
            } else {
                i
            };
            if k < before.len() {
                assert(before[k].role == messages[i].role && before[k].content
                    == messages[i].content);
                let j = choose|j: int|
                    0 <= j < kept.len() && (#[trigger] kept[j]).role == before[k].role
                        && kept[j].content == before[k].content;
                assert(r[j] == kept[j]);
            } else {
                assert(r[r.len() - 1] == last);
            }
        }
        assert forall|i: int| 0 <= i < messages.len() && !is_context(
            #[trigger] messages[i],
        ) implies r.contains(messages[i]) by {
            if i < before.len() {
                assert(before[i] == messages[i]);
                let j = kept.index_of(messages[i]);
                assert(r[j] == messages[i]);
            } else {
                assert(r[r.len() - 1] == last);
            }
        }
    }
}

/// Messages without repetitions stay as they are; so leaving repetitions out twice is
/// the same as leaving them out once.
pub proof fn deduping_twice_is_once(messages: Seq<MessageView>)
    ensures
        says_nothing_twice(messages) ==> deduped(messages) == messages,
        deduped(deduped(messages)) == deduped(messages),
{
    if says_nothing_twice(messages) {
        single_messages_stay(messages);
    }
    deduped_says_everything_once(messages);
    single_messages_stay(deduped(messages));
}

proof fn single_messages_stay(messages: Seq<MessageView>)
    requires
        says_nothing_twice(messages),
    ensures
        deduped(messages) == messages,
    decreases messages.len(),
{
    if messages.len() > 0 {
        let before = messages.drop_last();
        assert forall|i: int| #![trigger before[i]] 0 <= i < before.len() implies !said_before(
            before.take(i),
            before[i],
        ) by {
            assert(before.take(i) =~= messages.take(i));
            assert(before[i] == messages[i]);
        }
        single_messages_stay(before);
        assert(messages.take(messages.len() - 1) =~= before);
        assert(messages[messages.len() - 1] == messages.last());
        assert(messages =~= before.push(messages.last()));
    }
}

fn was_said_before(messages: &Vec<Message>, i: usize) -> (r: bool)
    requires
        i < messages@.len(),
    ensures
        r == said_before(messages.deep_view().take(i as int), messages.deep_view()[i as int]),
{
    let m = &messages[i];
    let ghost before = messages.deep_view().take(i as int);
    let context = match m.role {
        Role::System => true,
        Role::User => text::starts_with(
            text::trim_start(m.content.as_str()).as_str(),
            "<environment_context>",
        ),
        _ => false,
    };
    if !context {
        return false;
    }
    let mut j: usize = 0;
    while j < i
        invariant
            j <= i < messages@.len(),
            before == messages.deep_view().take(i as int),
            m == messages@[i as int],
            is_context(m.deep_view()),
            forall|k: int|
                0 <= k < j ==> !((#[trigger] before[k]).role == m.role && before[k].content
                    == m.content@),
        decreases i - j,
    {
        assert(before[j as int] == messages@[j as int].deep_view());
        if messages[j].role == m.role && text::same(
            messages[j].content.as_str(),
            m.content.as_str(),
        ) {
            return true;
        }
        j += 1;
    }
    false
}

/// The messages but for repetitions of context messages.
pub fn dedupe_repeated_context_messages(messages: Vec<Message>) -> (r: Vec<Message>)
    ensures
        r.deep_view() == deduped(messages.deep_view()),
{
    let mut r: Vec<Message> = seqs::none();
    let ghost all = messages.deep_view();
    let mut i: usize = 0;
    proof {
        seqs::take_ends(all);
    }
    while i < messages.len()
        invariant
            i <= messages@.len(),
            all == messages.deep_view(),
            all.len() == messages@.len(),
            r.deep_view() == deduped(all.take(i as int)),
        decreases messages.len() - i,
    {
        proof {
            seqs::take_step(all, i as int);
        }
        if !was_said_before(&messages, i) {
            seqs::put(&mut r, messages[i].clone());
        }
        i += 1;
    }
    r
}

/// The role that a word names.
pub open spec fn role_of_word(word: Seq<char>) -> Role {
    if word == "system"@ || word == "developer"@ {
        Role::System
    } else if word == "assistant"@ {
        Role::Assistant
    } else {
        Role::User
    }
}

/// The text of a block that holds text.
pub open spec fn block_text() -> spec_fn(BlockView) -> Option<Seq<char>> {
    |b: BlockView|
        if b.kind == Some("text"@) || b.kind == Some("input_text"@) || b.kind == Some(
            "output_text"@,
        ) {
            b.text
        } else {
            None
        }
}

/// The text of a message.
pub open spec fn content_text(content: ContentView) -> Seq<char> {
    match content {
        ContentView::Text(s) => s,
        ContentView::Blocks(blocks) => text::join_of(blocks.filter_map(block_text()), "\n"@),
    }
}

/// A message of an assistant that makes one tool call.
pub open spec fn calling_message(call: ToolCallView) -> MessageView {
    MessageView {
        role: Role::Assistant,
        content: Seq::empty(),
        tool_call_id: None,
        tool_is_error: None,
        tool_calls: seq![call],
    }
}

/// The messages after one more input item. A function call joins the message of the
/// assistant that it follows.
pub open spec fn with_item(messages: Seq<MessageView>, item: InputItemView) -> Seq<MessageView> {
    match item {
        InputItemView::Message { role, content } => messages.push(
            plain_message(role_of_word(role), content_text(content)),
        ),
        InputItemView::FunctionCall { call_id, name, arguments } => {
            let call = ToolCallView {
                id: call_id,
                name,
                arguments: protocol::parsed_or_empty(arguments),
            };
            if messages.len() > 0 && messages.last().role is Assistant {
                let last = messages.last();
                messages.drop_last().push(
                    MessageView { tool_calls: last.tool_calls.push(call), ..last },
                )
            } else {
                messages.push(calling_message(call))
            }
        },
        InputItemView::FunctionCallOutput { call_id, output } => messages.push(
            MessageView {
                role: Role::Tool,
                content: output,
                tool_call_id: Some(call_id),
                tool_is_error: None,
                tool_calls: Seq::empty(),
            },
        ),
    }
}

/// The messages after some more input items.
pub open spec fn with_items(messages: Seq<MessageView>, items: Seq<InputItemView>) -> Seq<
    MessageView,
>
    decreases items.len(),
{
    if items.len() == 0 {
        messages
    } else {
        with_item(with_items(messages, items.drop_last()), items.last())
    }
}

/// The messages of a request, repetitions included.
pub open spec fn messages_in(instructions: Option<Seq<char>>, input: InputView) -> Seq<
    MessageView,
> {
    let start = match instructions {
        Some(s) => seq![plain_message(Role::System, s)],
        None => Seq::empty(),
    };
    match input {
        InputView::Text(s) => start.push(plain_message(Role::User, s)),
        InputView::Items(items) => with_items(start, items),
    }
}

/// A tool in the common form; only functions with a name are tools.
pub open spec fn tool_in() -> spec_fn(InToolView) -> Option<ToolDefView> {
    |t: InToolView|
        {
            let def = match t.function {
                Some(function) => function,
                None => ToolDefView {
                    name: t.name,
                    description: t.description,
                    parameters: if t.parameters is Null {
                        t.input_schema
                    } else {
                        t.parameters
                    },
                },
            };
            if t.kind == "function"@ && def.name.len() > 0 {
                Some(def)
            } else {
                None
            }
        }
}

/// What is wrong with a request, if anything.
pub open spec fn fault_of(max_output_tokens: u32, temperature: Option<SingleView>) -> Option<
    Seq<char>,
> {
    if max_output_tokens == 0 {
        Some("max_output_tokens must be > 0"@)
    } else {
        protocol::temperature_fault_of(temperature)
    }
}

/// A request in the common form.
pub open spec fn request_in(req: ResponsesRequestView) -> RequestView {
    RequestView {
        messages: deduped(messages_in(req.instructions, req.input)),
        max_tokens: req.max_output_tokens,
        temperature: req.temperature,
        top_p: req.top_p,
        stop: Seq::empty(),
        api_key: req.api_key,
        tools: req.tools.filter_map(tool_in()),
        tool_choice: req.tool_choice,
        parallel_tool_calls: req.parallel_tool_calls,
        thinking: thinking_in(req.reasoning),
        session_id: req.previous_response_id,
        system: req.instructions,
        stream: req.stream,
        metadata: req.metadata,
        native: protocol::kept_under(protocol::NATIVE_OPENAI_RESPONSES@, req.extra),
    }
}

fn role_from_word(word: &str) -> (r: Role)
    ensures
        r == role_of_word(word@),
{
    if text::same(word, "system") || text::same(word, "developer") {
        Role::System
    } else if text::same(word, "assistant") {
        Role::Assistant
    } else {
        Role::User
    }
}

fn text_of_block(b: &ResponsesContentBlock) -> (r: Option<String>)
    ensures
        r.deep_view() == block_text()(b.deep_view()),
{
    match &b.kind {
        Some(kind) => {
            if text::same(kind.as_str(), "text") || text::same(kind.as_str(), "input_text")
                || text::same(kind.as_str(), "output_text") {
                b.text.clone()
            } else {
                None
            }
        },
        None => None,
    }
}

fn text_of_content(content: &ResponsesMessageContent) -> (r: String)
    ensures
        r@ == content_text(content.deep_view()),
{
    match content {
        ResponsesMessageContent::Text(s) => s.clone(),
        ResponsesMessageContent::Blocks(blocks) => text::join(
            &seqs::pick_all(blocks, text_of_block, Ghost(block_text())),
            "\n",
        ),
    }
}

fn add_call(messages: &mut Vec<Message>, call: ToolCall)
    ensures
        final(messages).deep_view() == (if old(messages)@.len() > 0
            && old(messages).deep_view().last().role is Assistant {
            let last = old(messages).deep_view().last();
            old(messages).deep_view().drop_last().push(
                MessageView { tool_calls: last.tool_calls.push(call.deep_view()), ..last },
            )
        } else {
            old(messages).deep_view().push(calling_message(call.deep_view()))
        }),
{
    let ghost before = messages.deep_view();
    if messages.len() > 0 {
        if let Some(mut last) = messages.pop() {
            assert(before.last() == last.deep_view());
            assert(messages.deep_view() =~= before.drop_last());
            if matches!(last.role, Role::Assistant) {
                seqs::put(&mut last.tool_calls, call);
                seqs::put(messages, last);
                return;
            }
            seqs::put(messages, last);
            assert(messages.deep_view() =~= before);
        }
    }
    let message = Message {
        role: Role::Assistant,
        content: String::new(),
        tool_call_id: None,
        tool_is_error: None,
        tool_calls: seqs::one(call),
    };
    seqs::put(messages, message);
}

fn add_item(messages: &mut Vec<Message>, item: &ResponsesInputItem)
    ensures
        final(messages).deep_view() == with_item(old(messages).deep_view(), item.deep_view()),
{
    match item {
        ResponsesInputItem::Message { role, content } => {
            seqs::put(
                messages,
                protocol::message_of(role_from_word(role.as_str()), text_of_content(content)),
            );
        },
        ResponsesInputItem::FunctionCall { call_id, name, arguments } => {
            let call = ToolCall {
                id: call_id.clone(),
                name: name.clone(),
                arguments: protocol::parse_or_empty(arguments.as_str()),
            };
            add_call(messages, call);
        },
        ResponsesInputItem::FunctionCallOutput { call_id, output } => {
            seqs::put(
                messages,
                Message {
                    role: Role::Tool,
                    content: output.clone(),
                    tool_call_id: Some(call_id.clone()),
                    tool_is_error: None,
                    tool_calls: seqs::none(),
                },
            );
        },
    }
}

fn messages_of(instructions: &Option<String>, input: &ResponsesInput) -> (r: Vec<Message>)
    ensures
        r.deep_view() == messages_in(instructions.deep_view(), input.deep_view()),
{
    let mut messages: Vec<Message> = seqs::none();
    if let Some(s) = instructions {
        messages = seqs::one(protocol::message_of(Role::System, s.clone()));
    }
    let ghost start = messages.deep_view();
    match input {
        ResponsesInput::Text(s) => {
            seqs::put(&mut messages, protocol::message_of(Role::User, s.clone()));
        },
        ResponsesInput::Items(items) => {
            let ghost all = items.deep_view();
            let mut i: usize = 0;
            proof {
                seqs::take_ends(all);
            }
            while i < items.len()
                invariant
                    i <= items@.len(),
                    all == items.deep_view(),
                    all.len() == items@.len(),
                    messages.deep_view() == with_items(start, all.take(i as int)),
                decreases items.len() - i,
            {
                proof {
                    seqs::take_step(all, i as int);
                }
                add_item(&mut messages, &items[i]);
                i += 1;
            }
        },
    }
    messages
}

fn tool_from_request(t: &ResponsesTool) -> (r: Option<ToolDef>)
    ensures
        r.deep_view() == tool_in()(t.deep_view()),
{
    if !text::same(t.kind.as_str(), "function") {
        return None;
    }
    let def = match &t.function {
        Some(function) => ToolDef {
            name: function.name.clone(),
            description: function.description.clone(),
            parameters: function.parameters.clone(),
        },
        None => ToolDef {
            name: t.name.clone(),
            description: t.description.clone(),
            parameters: if t.parameters.is_null() {
                t.input_schema.clone()
            } else {
                t.parameters.clone()
            },
        },
    };
    if def.name.as_str().is_empty() {
        None
    } else {
        Some(def)
    }
}

/// A request in the common form, or what is wrong with it.
pub fn to_intermediate(req: ResponsesRequest) -> (r: Result<IntermediateRequest, OpenFusionError>)
    ensures
        match fault_of(req.max_output_tokens, req.temperature.deep_view()) {
            Some(fault) => r matches Err(e) && e.deep_view() == ErrorView::Protocol(fault),
            None => r matches Ok(ir) && ir.deep_view() == request_in(req.deep_view()),
        },
{
    if req.max_output_tokens == 0 {
        return Err(OpenFusionError::Protocol("max_output_tokens must be > 0".to_owned()));
    }
    if let Some(fault) = protocol::temperature_fault(&req.temperature) {
        return Err(OpenFusionError::Protocol(fault));
    }
    let thinking = parse_openai_reasoning(req.reasoning);
    let messages = messages_of(&req.instructions, &req.input);
    let tools = seqs::pick_all(&req.tools, tool_from_request, Ghost(tool_in()));
    Ok(
        IntermediateRequest {
            messages: dedupe_repeated_context_messages(messages),
            max_tokens: req.max_output_tokens,
            temperature: req.temperature,
            top_p: req.top_p,
            stop: seqs::none(),
            api_key: req.api_key,
            tools,
            tool_choice: req.tool_choice,
            parallel_tool_calls: req.parallel_tool_calls,
            thinking,
            session_id: req.previous_response_id,
            system: req.instructions,
            stream: req.stream,
            metadata: req.metadata,
            native: protocol::native_from_extra(protocol::NATIVE_OPENAI_RESPONSES, req.extra),
        },
    )
}

// ---------------------------------------------------------------------------
// Responses as they go out
// ---------------------------------------------------------------------------

/// A responses response.
#[derive(Debug)]
pub struct ResponsesOut {
    pub id: String,
    pub object: &'static str,
    pub created_at: i64,
    pub model: String,
    pub status: String,
    pub output: Vec<ResponsesOutputItem>,
    pub usage: ResponsesUsage,
}

#[derive(Debug)]
pub struct ResponsesOutputItem {
    pub id: String,
    pub kind: &'static str,
    pub status: String,
    pub role: Option<&'static str>,
    pub content: Vec<ResponsesContent>,
    pub call_id: Option<String>,
    pub name: Option<String>,
    pub arguments: Option<String>,
}

#[derive(Debug)]
pub struct ResponsesContent {
    pub kind: &'static str,
    pub text: Option<String>,
    pub summary: Option<Vec<Json>>,
}

#[derive(Clone, Copy, Debug, PartialEq, Eq, Structural)]
pub struct ResponsesUsage {
    pub input_tokens: u32,
    pub output_tokens: u32,
    pub total_tokens: u32,
}

/// The identifiers that a response shows: its own, and one for each item.
#[derive(Debug)]
pub struct OutputIds {
    pub response: String,
    pub reasoning: String,
    pub calls: Vec<String>,
    pub message: String,
}

#[verifier::ext_equal]
pub struct ResponsesOutView {
    pub id: Seq<char>,
    pub object: Seq<char>,
    pub created_at: i64,
    pub model: Seq<char>,
    pub status: Seq<char>,
    pub output: Seq<OutputItemView>,
    pub usage: ResponsesUsage,
}

#[verifier::ext_equal]
pub struct OutputItemView {
    pub id: Seq<char>,
    pub kind: Seq<char>,
    pub status: Seq<char>,
    pub role: Option<Seq<char>>,
    pub content: Seq<OutputContentView>,
    pub call_id: Option<Seq<char>>,
    pub name: Option<Seq<char>>,
    pub arguments: Option<Seq<char>>,
}

#[verifier::ext_equal]
pub struct OutputContentView {
    pub kind: Seq<char>,
    pub text: Option<Seq<char>>,
    pub summary: Option<Seq<JsonView>>,
}

#[verifier::ext_equal]
pub struct OutputIdsView {
    pub response: Seq<char>,
    pub reasoning: Seq<char>,
    pub calls: Seq<Seq<char>>,
    pub message: Seq<char>,
}

/// The text of a string that may be missing.
pub open spec fn static_view(s: Option<&'static str>) -> Option<Seq<char>> {
    match s {
        Some(s) => Some(s@),
        None => None,
    }
}

impl DeepView for ResponsesContent {
    type V = OutputContentView;

    open spec fn deep_view(&self) -> OutputContentView {
        OutputContentView {
            kind: self.kind@,
            text: self.text.deep_view(),
            summary: self.summary.deep_view(),
        }
    }
}

impl DeepView for ResponsesOutputItem {
    type V = OutputItemView;

    open spec fn deep_view(&self) -> OutputItemView {
        OutputItemView {
            id: self.id@,
            kind: self.kind@,
            status: self.status@,
            role: static_view(self.role),
            content: self.content.deep_view(),
            call_id: self.call_id.deep_view(),
            name: self.name.deep_view(),
            arguments: self.arguments.deep_view(),
        }
    }
}

impl DeepView for ResponsesOut {
    type V = ResponsesOutView;

    open spec fn deep_view(&self) -> ResponsesOutView {
        ResponsesOutView {
            id: self.id@,
            object: self.object@,
            created_at: self.created_at,
            model: self.model@,
            status: self.status@,
            output: self.output.deep_view(),
            usage: self.usage,
        }
    }
}

impl DeepView for OutputIds {
    type V = OutputIdsView;

    open spec fn deep_view(&self) -> OutputIdsView {
        OutputIdsView {
            response: self.response@,
            reasoning: self.reasoning@,
            calls: self.calls.deep_view(),
            message: self.message@,
        }
    }
}

/// A random identifier behind a prefix.
pub open spec fn is_prefixed_id(s: Seq<char>, prefix: Seq<char>) -> bool {
    exists|u: Seq<char>| #[trigger] ids::is_uuid_text(u) && s == prefix + u
}

/// Whether the identifiers are of the form that responses show, for `n` calls.
pub open spec fn proper_ids(ids: OutputIdsView, n: nat) -> bool {
    &&& is_prefixed_id(ids.response, "resp_"@)
    &&& is_prefixed_id(ids.reasoning, "rs_"@)
    &&& is_prefixed_id(ids.message, "msg_"@)
    &&& ids.calls.len() == n
    &&& forall|i: int| 0 <= i < n ==> is_prefixed_id(#[trigger] ids.calls[i], "fc_"@)
}

/// An item that holds text.
pub open spec fn text_item(
    id: Seq<char>,
    kind: Seq<char>,
    role: Option<Seq<char>>,
    text_kind: Seq<char>,
    s: Seq<char>,
) -> OutputItemView {
    OutputItemView {
        id,
        kind,
        status: "completed"@,
        role,
        content: seq![OutputContentView { kind: text_kind, text: Some(s), summary: None }],
        call_id: None,
        name: None,
        arguments: None,
    }
}

/// An item that holds a function call.
pub open spec fn call_item(id: Seq<char>, c: ToolCallView) -> OutputItemView {
    OutputItemView {
        id,
        kind: "function_call"@,
        status: "completed"@,
        role: None,
        content: Seq::empty(),
        call_id: Some(c.id),
        name: Some(c.name),
        arguments: Some(json_text(c.arguments)),
    }
}

/// The items of a response: the thoughts, if there are any, then the calls, then the
/// message.
pub open spec fn items_out(ir: ResponseView, ids: OutputIdsView) -> Seq<OutputItemView> {
    let thoughts = match ir.thinking {
        Some(s) => if s.len() > 0 {
            seq![text_item(ids.reasoning, "reasoning"@, None, "reasoning_text"@, s)]
        } else {
            Seq::empty()
        },
        None => Seq::empty(),
    };
    let calls = Seq::new(
        ir.tool_calls.len(),
        |i: int| call_item(ids.calls[i], ir.tool_calls[i]),
    );
    (thoughts + calls).push(
        text_item(ids.message, "message"@, Some("assistant"@), "output_text"@, ir.content),
    )
}

/// The responses response for a response.
pub open spec fn response_out(
    ir: ResponseView,
    model: Seq<char>,
    ids: OutputIdsView,
    created_at: i64,
) -> ResponsesOutView {
    ResponsesOutView {
        id: ids.response,
        object: "response"@,
        created_at,
        model,
        status: "completed"@,
        output: items_out(ir, ids),
        usage: ResponsesUsage {
            input_tokens: ir.usage.prompt_tokens,
            output_tokens: ir.usage.completion_tokens,
            total_tokens: ir.usage.total_tokens,
        },
    }
}

fn item_with_text(
    id: String,
    kind: &'static str,
    role: Option<&'static str>,
    text_kind: &'static str,
    s: String,
) -> (r: ResponsesOutputItem)
    ensures
        r.deep_view() == text_item(id@, kind@, static_view(role), text_kind@, s@),
{
    ResponsesOutputItem {
        id,
        kind,
        status: "completed".to_owned(),
        role,
        content: seqs::one(ResponsesContent { kind: text_kind, text: Some(s), summary: None }),
        call_id: None,
        name: None,
        arguments: None,
    }
}

/// The responses response for a response, with its identifiers and a time of creation.
pub fn response_with_ids(
    ir: IntermediateResponse,
    model_name: &str,
    ids: OutputIds,
    created_at: i64,
) -> (r: ResponsesOut)
    requires
        ids.calls@.len() == ir.tool_calls@.len(),
    ensures
        r.deep_view() == response_out(ir.deep_view(), model_name@, ids.deep_view(), created_at),
{
    let ghost irv = ir.deep_view();
    let ghost idv = ids.deep_view();
    let mut output: Vec<ResponsesOutputItem> = seqs::none();
    if let Some(thinking) = &ir.thinking {
        if !thinking.as_str().is_empty() {
            output = seqs::one(
                item_with_text(
                    ids.reasoning.clone(),
                    "reasoning",
                    None,
                    "reasoning_text",
                    thinking.clone(),
                ),
            );
        }
    }
    let ghost start = output.deep_view();
    let ghost calls = Seq::new(
        irv.tool_calls.len(),
        |i: int| call_item(idv.calls[i], irv.tool_calls[i]),
    );
    let mut i: usize = 0;
    proof {
        seqs::take_ends(calls);
        assert(start + calls.take(0) =~= start);
    }
    while i < ir.tool_calls.len()
        invariant
            i <= ir.tool_calls@.len(),
            ids.calls@.len() == ir.tool_calls@.len(),
            irv == ir.deep_view(),
            idv == ids.deep_view(),
            calls == Seq::new(
                irv.tool_calls.len(),
                |i: int| call_item(idv.calls[i], irv.tool_calls[i]),
            ),
            output.deep_view() == start + calls.take(i as int),
        decreases ir.tool_calls.len() - i,
    {
        let c = &ir.tool_calls[i];
        let item = ResponsesOutputItem {
            id: ids.calls[i].clone(),
            kind: "function_call",
            status: "completed".to_owned(),
            role: None,
            content: seqs::none(),
            call_id: Some(c.id.clone()),
            name: Some(c.name.clone()),
            arguments: Some(json::to_text(&c.arguments)),
        };
        proof {
            seqs::take_step(calls, i as int);
            assert(item.deep_view() == call_item(idv.calls[i as int], irv.tool_calls[i as int]));
            assert(start + calls.take(i + 1) =~= (start + calls.take(i as int)).push(
                item.deep_view(),
            ));
        }
        seqs::put(&mut output, item);
        i += 1;
    }
    seqs::put(
        &mut output,
        item_with_text(ids.message, "message", Some("assistant"), "output_text", ir.content),
    );
    ResponsesOut {
        id: ids.response,
        object: "response",
        created_at,
        model: model_name.to_owned(),
        status: "completed".to_owned(),
        output,
        usage: ResponsesUsage {
            input_tokens: ir.usage.prompt_tokens,
            output_tokens: ir.usage.completion_tokens,
            total_tokens: ir.usage.total_tokens,
        },
    }
}

fn prefixed_id(prefix: &str) -> (r: String)
    ensures
        is_prefixed_id(r@, prefix@),
{
    let u = ids::uuid_text();
    text::concat(prefix, u.as_str())
}

/// New identifiers for a response with `n` calls.
fn new_ids(n: usize) -> (r: OutputIds)
    ensures
        proper_ids(r.deep_view(), n as nat),
{
    let mut calls: Vec<String> = Vec::new();
    let mut i: usize = 0;
    while i < n
        invariant
            i <= n,
            calls@.len() == i,
            forall|k: int| 0 <= k < i ==> is_prefixed_id((#[trigger] calls@[k])@, "fc_"@),
        decreases n - i,
    {
        calls.push(prefixed_id("fc_"));
        i += 1;
    }
    OutputIds {
        response: prefixed_id("resp_"),
        reasoning: prefixed_id("rs_"),
        calls,
        message: prefixed_id("msg_"),
    }
}

/// The responses response for a response, with new identifiers and created now.
pub fn from_intermediate(ir: IntermediateResponse, model_name: &str) -> (r: ResponsesOut)
    ensures
        exists|ids: OutputIdsView| #[trigger]
            proper_ids(ids, ir.deep_view().tool_calls.len()) && r.deep_view() == response_out(
                ir.deep_view(),
                model_name@,
                ids,
                r.created_at,
            ),
{
    let ids = new_ids(ir.tool_calls.len());
    let created_at = ids::now_seconds();
    response_with_ids(ir, model_name, ids, created_at)
}

// ---------------------------------------------------------------------------
// Responses as JSON
// ---------------------------------------------------------------------------

/// The content of an item as JSON.
pub open spec fn out_content_json() -> spec_fn(OutputContentView) -> JsonView {
    |c: OutputContentView|
        JsonView::Object(
            with_some(
                with_some(
                    no_members().insert("type"@, JsonView::Str(c.kind)),
                    "text"@,
                    protocol::optional_text(c.text),
                ),
                "summary"@,
                match c.summary {
                    Some(items) => Some(JsonView::Array(items)),
                    None => None,
                },
            ),
        )
}

/// An item as JSON.
pub open spec fn out_item_json() -> spec_fn(OutputItemView) -> JsonView {
    |item: OutputItemView|
        {
            let m = no_members().insert("id"@, JsonView::Str(item.id)).insert(
                "type"@,
                JsonView::Str(item.kind),
            ).insert("status"@, JsonView::Str(item.status));
            let m = with_some(m, "role"@, protocol::optional_text(item.role)).insert(
                "content"@,
                JsonView::Array(item.content.map_values(out_content_json())),
            );
            let m = with_some(m, "call_id"@, protocol::optional_text(item.call_id));
            let m = with_some(m, "name"@, protocol::optional_text(item.name));
            JsonView::Object(
                with_some(m, "arguments"@, protocol::optional_text(item.arguments)),
            )
        }
}

/// A response as JSON.
pub open spec fn response_json(r: ResponsesOutView) -> JsonView {
    JsonView::Object(
        no_members().insert("id"@, JsonView::Str(r.id)).insert(
            "object"@,
            JsonView::Str(r.object),
        ).insert("created_at"@, int_view(r.created_at as int)).insert(
            "model"@,
            JsonView::Str(r.model),
        ).insert("status"@, JsonView::Str(r.status)).insert(
            "output"@,
            JsonView::Array(r.output.map_values(out_item_json())),
        ).insert(
            "usage"@,
            JsonView::Object(
                no_members().insert("input_tokens"@, int_view(r.usage.input_tokens as int)).insert(
                    "output_tokens"@,
                    int_view(r.usage.output_tokens as int),
                ).insert("total_tokens"@, int_view(r.usage.total_tokens as int)),
            ),
        ),
    )
}

fn json_of_out_content(c: &ResponsesContent) -> (r: Json)
    ensures
        r.deep_view() == out_content_json()(c.deep_view()),
{
    let mut m = JsonMap::new();
    m.insert_text("type", c.kind);
    if let Some(s) = &c.text {
        m.insert_text("text", s.as_str());
    }
    if let Some(items) = &c.summary {
        m.insert("summary", Json::array(protocol::copy_vec(items)));
    }
    Json::object(m)
}

fn json_of_out_item(item: &ResponsesOutputItem) -> (r: Json)
    ensures
        r.deep_view() == out_item_json()(item.deep_view()),
{
    let mut m = JsonMap::new();
    m.insert_text("id", item.id.as_str());
    m.insert_text("type", item.kind);
    m.insert_text("status", item.status.as_str());
    if let Some(s) = item.role {
        m.insert_text("role", s);
    }
    m.insert(
        "content",
        Json::array(seqs::map_all(&item.content, json_of_out_content, Ghost(out_content_json()))),
    );
    if let Some(s) = &item.call_id {
        m.insert_text("call_id", s.as_str());
    }
    if let Some(s) = &item.name {
        m.insert_text("name", s.as_str());
    }
    if let Some(s) = &item.arguments {
        m.insert_text("arguments", s.as_str());
    }
    Json::object(m)
}

impl ResponsesOut {
    /// The response as JSON.
    pub fn to_json(&self) -> (r: Json)
        ensures
            r.deep_view() == response_json(self.deep_view()),
    {
        let mut usage = JsonMap::new();
        usage.insert("input_tokens", Json::of_u64(self.usage.input_tokens as u64));
        usage.insert("output_tokens", Json::of_u64(self.usage.output_tokens as u64));
        usage.insert("total_tokens", Json::of_u64(self.usage.total_tokens as u64));
        let mut m = JsonMap::new();
        m.insert_text("id", self.id.as_str());
        m.insert_text("object", self.object);
        m.insert("created_at", Json::of_i64(self.created_at));
        m.insert_text("model", self.model.as_str());
        m.insert_text("status", self.status.as_str());
        m.insert(
            "output",
            Json::array(seqs::map_all(&self.output, json_of_out_item, Ghost(out_item_json()))),
        );
        m.insert("usage", Json::object(usage));
        Json::object(m)
    }
}

// ---------------------------------------------------------------------------
// Bodies for workers
// ---------------------------------------------------------------------------

/// Whether a text holds anything but white space.
pub open spec fn has_text(s: Seq<char>) -> bool {
    text::trim_of(s).len() > 0
}

/// The instructions of a body: the system prompt, then each system message that is
/// not among them yet; those without text are left out.
pub open spec fn instructions_of(system: Option<Seq<char>>, messages: Seq<MessageView>) -> Seq<
    Seq<char>,
>
    decreases messages.len(),
{
    if messages.len() == 0 {
        match system {
            Some(s) => if has_text(s) {
                seq![s]
            } else {
                Seq::empty()
            },
            None => Seq::empty(),
        }
    } else {
        let before = instructions_of(system, messages.drop_last());
        let m = messages.last();
        if m.role is System && has_text(m.content) && !before.contains(m.content) {
            before.push(m.content)
        } else {
            before
        }
    }
}

/// The instructions of a body in one text, if there are any.
pub open spec fn body_instructions(parts: Seq<Seq<char>>) -> Option<JsonView> {
    if parts.len() == 0 {
        None
    } else {
        Some(JsonView::Str(text::join_of(parts, "\n\n"@)))
    }
}

/// A message as a worker is shown it.
pub open spec fn message_item(role: Seq<char>, content: Seq<char>) -> JsonView {
    JsonView::Object(
        no_members().insert("type"@, JsonView::Str("message"@)).insert(
            "role"@,
            JsonView::Str(role),
        ).insert("content"@, JsonView::Str(content)),
    )
}

/// A function call as a worker is shown it.
pub open spec fn body_call() -> spec_fn(ToolCallView) -> JsonView {
    |c: ToolCallView|
        JsonView::Object(
            no_members().insert("type"@, JsonView::Str("function_call"@)).insert(
                "call_id"@,
                JsonView::Str(c.id),
            ).insert("name"@, JsonView::Str(c.name)).insert(
                "arguments"@,
                JsonView::Str(json_text(c.arguments)),
            ),
        )
}

/// The items for a message: a message with tool calls is a message and the calls.
pub open spec fn body_items(m: MessageView) -> Seq<JsonView> {
    match m.role {
        Role::System => Seq::empty(),
        Role::Tool => seq![
            JsonView::Object(
                with_some(
                    no_members().insert("type"@, JsonView::Str("function_call_output"@)).insert(
                        "output"@,
                        JsonView::Str(m.content),
                    ),
                    "call_id"@,
                    protocol::optional_text(m.tool_call_id),
                ),
            ),
        ],
        Role::Assistant => (if m.content.len() > 0 {
            seq![message_item("assistant"@, m.content)]
        } else {
            Seq::empty()
        }) + m.tool_calls.map_values(body_call()),
        Role::User => seq![message_item("user"@, m.content)],
    }
}

/// The items for some messages.
pub open spec fn body_input(messages: Seq<MessageView>) -> Seq<JsonView>
    decreases messages.len(),
{
    if messages.len() == 0 {
        Seq::empty()
    } else {
        body_input(messages.drop_last()) + body_items(messages.last())
    }
}

/// A tool as a worker is shown it.
pub open spec fn body_tool() -> spec_fn(ToolDefView) -> JsonView {
    |t: ToolDefView|
        JsonView::Object(
            no_members().insert("type"@, JsonView::Str("function"@)).insert(
                "name"@,
                JsonView::Str(t.name),
            ).insert("description"@, JsonView::Str(t.description)).insert(
                "parameters"@,
                t.parameters,
            ),
        )
}

/// The tools as a worker is shown them, if there are any.
pub open spec fn body_tools(tools: Seq<ToolDefView>) -> Option<JsonView> {
    if tools.len() == 0 {
        None
    } else {
        Some(JsonView::Array(tools.map_values(body_tool())))
    }
}

/// The reasoning that a worker is asked for, if any.
pub open spec fn body_reasoning(thinking: Option<ThinkingConfig>) -> Option<JsonView> {
    match thinking {
        Some(t) => {
            let m = no_members().insert("effort"@, JsonView::Str(effort_word(t.effort)));
            Some(
                JsonView::Object(
                    if t.summary {
                        m.insert("summary"@, JsonView::Str("auto"@))
                    } else {
                        m
                    },
                ),
            )
        },
        None => None,
    }
}

/// The members of a body that the common form of a request decides.
pub open spec fn body_members(ir: RequestView, model: Seq<char>) -> Map<Seq<char>, JsonView> {
    let b = no_members().insert("model"@, JsonView::Str(model)).insert(
        "input"@,
        JsonView::Array(body_input(ir.messages)),
    );
    let b = with_some(
        b,
        "instructions"@,
        body_instructions(instructions_of(ir.system, ir.messages)),
    );
    let b = with_some(b, "temperature"@, protocol::single_json(ir.temperature));
    let b = with_some(b, "top_p"@, protocol::single_json(ir.top_p));
    let b = with_some(b, "tools"@, body_tools(ir.tools));
    let b = with_some(b, "tool_choice"@, ir.tool_choice);
    let b = with_some(b, "parallel_tool_calls"@, protocol::bool_json(ir.parallel_tool_calls));
    let b = with_some(b, "metadata"@, protocol::metadata_json(ir.metadata));
    let b = with_some(b, "reasoning"@, body_reasoning(ir.thinking));
    with_some(b, "stream"@, protocol::stream_json(ir.stream))
}

/// The body of a request to a worker.
pub open spec fn worker_body(ir: RequestView, model: Seq<char>) -> JsonView {
    JsonView::Object(
        protocol::with_native(
            body_members(ir, model),
            ir.native,
            protocol::NATIVE_OPENAI_RESPONSES@,
        ),
    )
}

fn holds_text(s: &str) -> (r: bool)
    ensures
        r == has_text(s@),
{
    !text::trim(s).as_str().is_empty()
}

fn is_among(list: &Vec<String>, s: &str) -> (r: bool)
    ensures
        r == list.deep_view().contains(s@),
{
    let mut i: usize = 0;
    while i < list.len()
        invariant
            i <= list@.len(),
            forall|k: int| 0 <= k < i ==> list.deep_view()[k] != s@,
        decreases list.len() - i,
    {
        if text::same(list[i].as_str(), s) {
            assert(list.deep_view()[i as int] == s@);
            return true;
        }
        i += 1;
    }
    false
}

fn instructions_of_body(ir: &IntermediateRequest) -> (r: Vec<String>)
    ensures
        r.deep_view() == instructions_of(ir.deep_view().system, ir.deep_view().messages),
{
    let mut parts: Vec<String> = seqs::none();
    if let Some(s) = &ir.system {
        if holds_text(s.as_str()) {
            parts = seqs::one(s.clone());
        }
    }
    let ghost system = ir.system.deep_view();
    let ghost all = ir.messages.deep_view();
    let mut i: usize = 0;
    proof {
        seqs::take_ends(all);
    }
    while i < ir.messages.len()
        invariant
            i <= ir.messages@.len(),
            all == ir.messages.deep_view(),
            all.len() == ir.messages@.len(),
            parts.deep_view() == instructions_of(system, all.take(i as int)),
        decreases ir.messages.len() - i,
    {
        proof {
            seqs::take_step(all, i as int);
        }
        let m = &ir.messages[i];
        if matches!(m.role, Role::System) && holds_text(m.content.as_str()) && !is_among(
            &parts,
            m.content.as_str(),
        ) {
            seqs::put(&mut parts, m.content.clone());
        }
        i += 1;
    }
    parts
}

fn json_of_message_item(role: &str, content: &str) -> (r: Json)
    ensures
        r.deep_view() == message_item(role@, content@),
{
    let mut m = JsonMap::new();
    m.insert_text("type", "message");
    m.insert_text("role", role);
    m.insert_text("content", content);
    Json::object(m)
}

fn json_of_call(c: &ToolCall) -> (r: Json)
    ensures
        r.deep_view() == body_call()(c.deep_view()),
{
    let mut m = JsonMap::new();
    m.insert_text("type", "function_call");
    m.insert_text("call_id", c.id.as_str());
    m.insert_text("name", c.name.as_str());
    m.insert("arguments", Json::Str(json::to_text(&c.arguments)));
    Json::object(m)
}

fn items_of_message(m: &Message) -> (r: Vec<Json>)
    ensures
        r.deep_view() == body_items(m.deep_view()),
{
    match m.role {
        Role::System => seqs::none(),
        Role::Tool => {
            let mut item = JsonMap::new();
            item.insert_text("type", "function_call_output");
            item.insert_text("output", m.content.as_str());
            if let Some(id) = &m.tool_call_id {
                item.insert_text("call_id", id.as_str());
            }
            seqs::one(Json::object(item))
        },
        Role::Assistant => {
            let mut items: Vec<Json> = seqs::none();
            if !m.content.as_str().is_empty() {
                items = seqs::one(json_of_message_item("assistant", m.content.as_str()));
            }
            seqs::extend(
                &mut items,
                seqs::map_all(&m.tool_calls, json_of_call, Ghost(body_call())),
            );
            items
        },
        Role::User => seqs::one(json_of_message_item("user", m.content.as_str())),
    }
}

fn input_of_body(messages: &Vec<Message>) -> (r: Vec<Json>)
    ensures
        r.deep_view() == body_input(messages.deep_view()),
{
    let mut input: Vec<Json> = seqs::none();
    let ghost all = messages.deep_view();
    let mut i: usize = 0;
    proof {
        seqs::take_ends(all);
    }
    while i < messages.len()
        invariant
            i <= messages@.len(),
            all == messages.deep_view(),
            all.len() == messages@.len(),
            input.deep_view() == body_input(all.take(i as int)),
        decreases messages.len() - i,
    {
        proof {
            seqs::take_step(all, i as int);
        }
        seqs::extend(&mut input, items_of_message(&messages[i]));
        i += 1;
    }
    input
}

fn json_of_tool(t: &ToolDef) -> (r: Json)
    ensures
        r.deep_view() == body_tool()(t.deep_view()),
{
    let mut m = JsonMap::new();
    m.insert_text("type", "function");
    m.insert_text("name", t.name.as_str());
    m.insert_text("description", t.description.as_str());
    m.insert("parameters", t.parameters.clone());
    Json::object(m)
}

/// The body of a request to a worker.
pub fn build_worker_body(ir: &IntermediateRequest, model: &str) -> (r: Json)
    ensures
        r.deep_view() == worker_body(ir.deep_view(), model@),
{
    let input = input_of_body(&ir.messages);
    let instructions = instructions_of_body(ir);
    let mut body = JsonMap::new();
    body.insert_text("model", model);
    body.insert("input", Json::array(input));
    if instructions.len() > 0 {
        body.insert("instructions", Json::Str(text::join(&instructions, "\n\n")));
    }
    body.insert_some("temperature", protocol::json_of_single(&ir.temperature));
    body.insert_some("top_p", protocol::json_of_single(&ir.top_p));
    if ir.tools.len() > 0 {
        let tools = seqs::map_all(&ir.tools, json_of_tool, Ghost(body_tool()));
        body.insert("tools", Json::array(tools));
    }
    body.insert_some("tool_choice", ir.tool_choice.clone());
    body.insert_some("parallel_tool_calls", protocol::json_of_bool(ir.parallel_tool_calls));
    body.insert_some("metadata", protocol::json_of_metadata(&ir.metadata));
    if let Some(thinking) = &ir.thinking {
        let mut reasoning = JsonMap::new();
        reasoning.insert_text("effort", effort_to_openai_str(thinking.effort));
        if thinking.summary {
            reasoning.insert_text("summary", "auto");
        }
        body.insert("reasoning", Json::object(reasoning));
    }
    body.insert_some("stream", protocol::json_of_stream(ir.stream));
    assert(body.deep_view() == body_members(ir.deep_view(), model@));
    protocol::merge_native_object(&mut body, &ir.native, protocol::NATIVE_OPENAI_RESPONSES);
    Json::object(body)
}

// ---------------------------------------------------------------------------
// Responses of workers
// ---------------------------------------------------------------------------

/// The fields of a response body that the common form stands for.
pub open spec fn known_fields() -> Seq<Seq<char>> {
    seq!["id"@, "object"@, "created_at"@, "model"@, "status"@, "output"@, "usage"@]
}

/// The text of a piece of content.
pub open spec fn piece_text() -> spec_fn(JsonView) -> Option<Seq<char>> {
    |c: JsonView| c.at("text"@).as_str()
}

/// The text of an item that has content.
pub open spec fn item_text() -> spec_fn(JsonView) -> Option<Seq<char>> {
    |item: JsonView|
        match item.at("content"@).as_array() {
            Some(contents) => Some(text::join_of(contents.filter_map(piece_text()), ""@)),
            None => None,
        }
}

/// The function call of an item that holds one.
pub open spec fn worker_call() -> spec_fn(JsonView) -> Option<ToolCallView> {
    |item: JsonView|
        if item.at("type"@).as_str() == Some("function_call"@) {
            Some(
                ToolCallView {
                    id: text_or(item.at("call_id"@), ""@),
                    name: text_or(item.at("name"@), ""@),
                    arguments: protocol::call_input(item.at("arguments"@)),
                },
            )
        } else {
            None
        }
}

/// The thoughts of an item that holds some.
pub open spec fn item_thoughts(item: JsonView) -> Seq<Seq<char>> {
    if item.at("type"@).as_str() == Some("reasoning"@) {
        match item.at("summary"@).as_array() {
            Some(summary) => summary.filter_map(piece_text()),
            None => Seq::empty(),
        }
    } else {
        Seq::empty()
    }
}

/// The thoughts of some items.
pub open spec fn thoughts_of(items: Seq<JsonView>) -> Seq<Seq<char>>
    decreases items.len(),
{
    if items.len() == 0 {
        Seq::empty()
    } else {
        thoughts_of(items.drop_last()) + item_thoughts(items.last())
    }
}

/// What a worker's output items say, in the common form.
pub open spec fn worker_result(
    body: JsonView,
    items: Seq<JsonView>,
    model: Seq<char>,
    duration_ms: u64,
    cost_usd: Option<Usd>,
) -> WorkerResultView {
    let usage = body.at("usage"@);
    WorkerResultView {
        model,
        name: ""@,
        api: "openai-responses"@,
        success: true,
        response: Some(
            ResponseView {
                id: body.at("id"@).as_str(),
                content: text::join_of(items.filter_map(item_text()), "\n"@),
                status: body.at("status"@).as_str(),
                finish_reason: "stop"@,
                usage: Usage {
                    prompt_tokens: count_of(usage.at("input_tokens"@)),
                    completion_tokens: count_of(usage.at("output_tokens"@)),
                    total_tokens: count_of(usage.at("total_tokens"@)),
                    reasoning_tokens: 0,
                },
                cost_usd: cost_or_zero(cost_usd),
                duration_ms,
                model,
                tool_calls: items.filter_map(worker_call()),
                thinking: protocol::joined(thoughts_of(items)),
                metadata: Map::empty(),
                native: protocol::native_of_body(
                    protocol::NATIVE_OPENAI_RESPONSES@,
                    body,
                    known_fields(),
                ),
            },
        ),
        error: None,
    }
}

fn text_of_piece(c: &Json) -> (r: Option<String>)
    ensures
        r.deep_view() == piece_text()(c.deep_view()),
{
    protocol::str_of(c.at("text"))
}

fn text_of_item(item: &Json) -> (r: Option<String>)
    ensures
        r.deep_view() == item_text()(item.deep_view()),
{
    match item.at("content").as_array() {
        Some(contents) => Some(
            text::join(&seqs::pick_all(contents, text_of_piece, Ghost(piece_text())), ""),
        ),
        None => None,
    }
}

fn call_of_item(item: &Json) -> (r: Option<ToolCall>)
    ensures
        r.deep_view() == worker_call()(item.deep_view()),
{
    if protocol::has_type(item, "function_call") {
        Some(
            ToolCall {
                id: protocol::str_or(item.at("call_id"), ""),
                name: protocol::str_or(item.at("name"), ""),
                arguments: protocol::input_of_call(item.at("arguments")),
            },
        )
    } else {
        None
    }
}

fn thoughts_of_items(items: &Vec<Json>) -> (r: Vec<String>)
    ensures
        r.deep_view() == thoughts_of(items.deep_view()),
{
    let mut r: Vec<String> = seqs::none();
    let ghost all = items.deep_view();
    let mut i: usize = 0;
    proof {
        seqs::take_ends(all);
    }
    while i < items.len()
        invariant
            i <= items@.len(),
            all == items.deep_view(),
            all.len() == items@.len(),
            r.deep_view() == thoughts_of(all.take(i as int)),
        decreases items.len() - i,
    {
        proof {
            seqs::take_step(all, i as int);
        }
        let item = &items[i];
        let mut more: Vec<String> = seqs::none();
        if protocol::has_type(item, "reasoning") {
            if let Some(summary) = item.at("summary").as_array() {
                more = seqs::pick_all(summary, text_of_piece, Ghost(piece_text()));
            }
        }
        seqs::extend(&mut r, more);
        i += 1;
    }
    r
}

/// What a worker's response body says, in the common form.
pub fn parse_worker_response(
    body: &Json,
    model: &str,
    duration_ms: u64,
    cost_usd: Option<Usd>,
) -> (r: Result<WorkerResult, OpenFusionError>)
    ensures
        match body.deep_view().at("output"@).as_array() {
            Some(items) => r matches Ok(wr) && wr.deep_view() == worker_result(
                body.deep_view(),
                items,
                model@,
                duration_ms,
                cost_usd,
            ),
            None => r matches Err(e) && e.deep_view() == ErrorView::Protocol(
                "missing output array"@,
            ),
        },
{
    let items = match body.at("output").as_array() {
        Some(items) => items,
        None => {
            return Err(OpenFusionError::Protocol("missing output array".to_owned()));
        },
    };
    let texts = seqs::pick_all(items, text_of_item, Ghost(item_text()));
    let tool_calls = seqs::pick_all(items, call_of_item, Ghost(worker_call()));
    let thoughts = thoughts_of_items(items);
    let usage = body.at("usage");
    let known: Vec<&str> = vec![
        "id",
        "object",
        "created_at",
        "model",
        "status",
        "output",
        "usage",
    ];
    assert(names_view(known@) =~= known_fields());
    Ok(
        WorkerResult {
            model: model.to_owned(),
            name: "".to_owned(),
            api: "openai-responses".to_owned(),
            success: true,
            response: Some(
                IntermediateResponse {
                    id: protocol::str_of(body.at("id")),
                    content: text::join(&texts, "\n"),
                    status: protocol::str_of(body.at("status")),
                    finish_reason: "stop".to_owned(),
                    usage: Usage {
                        prompt_tokens: protocol::count(usage.at("input_tokens")),
                        completion_tokens: protocol::count(usage.at("output_tokens")),
                        total_tokens: protocol::count(usage.at("total_tokens")),
                        reasoning_tokens: 0,
                    },
                    cost_usd: protocol::unwrap_cost(cost_usd),
                    duration_ms,
                    model: model.to_owned(),
                    tool_calls,
                    thinking: protocol::join_some(&thoughts),
                    metadata: JsonMap::new(),
                    native: protocol::native_from_body_excluding(
                        protocol::NATIVE_OPENAI_RESPONSES,
                        body,
                        &known,
                    ),
                },
            ),
            error: None,
        },
    )
}

} // verus!
