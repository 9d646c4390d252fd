//! Streamed responses.
//!
//! For each protocol there is an accumulator, which takes the payloads of a stream one
//! by one, says which event each one is, and puts the response together; and a
//! formatter, which writes an event as a payload.

use vstd::prelude::*;

use crate::ids;
use crate::json;
use crate::json::{
    int_view, json_text, names_view, no_members, parsed_json, plain_to_depth, with_some, Json, JsonMap, JsonView,
};
use crate::lookup::Lookup;
use crate::protocol;
use crate::protocol::google_genai;
use crate::protocol::openai_responses;
use crate::protocol::words::words_differ;
use crate::protocol::{
    count_of, filled_text, low_u32_of, no_usage, parsed_or_empty, text_or, unless_empty,
    IntermediateResponse, ResponseView, StreamEvent, StreamEventView, ToolCall, ToolCallView,
    Usage, Usd,
};
use crate::seqs;
use crate::text;

verus! {

// ---------------------------------------------------------------------------
// Payloads
// ---------------------------------------------------------------------------

/// The payload of a line of a stream, if it has one.
pub open spec fn line_payload() -> spec_fn(Seq<char>) -> Option<Seq<char>> {
    |line: Seq<char>|
        match text::strip_prefix_of(line, "data: "@) {
            Some(rest) => {
                let data = text::trim_of(rest);
                if data.len() > 0 && data != "[DONE]"@ {
                    Some(data)
                } else {
                    None
                }
            },
            None => None,
        }
}

/// The payloads of a piece of a stream.
pub open spec fn payloads_of(chunk: Seq<char>) -> Seq<Seq<char>> {
    text::lines_of(chunk).filter_map(line_payload())
}

/// Where the payload of the line `v[from..to]` stands, if it has one.
fn payload_span(v: &Vec<char>, from: usize, to: usize) -> (r: Option<(usize, usize)>)
    requires
        from <= to <= v@.len(),
    ensures
        match r {
            Some((a, b)) => from <= a <= b <= to && line_payload()(
                v@.subrange(from as int, to as int),
            ) == Some(v@.subrange(a as int, b as int)),
            None => line_payload()(v@.subrange(from as int, to as int)) is None,
        },
{
    let ghost line = v@.subrange(from as int, to as int);
    let prefix = text::chars("data: ");
    if prefix.len() > to - from {
        return None;
    }
    if !text::occurs(v, &prefix, from) {
        proof {
            assert(v@.subrange(from as int, from + prefix@.len()) =~= line.subrange(
                0,
                prefix@.len() as int,
            ));
        }
        return None;
    }
    proof {
        assert(v@.subrange(from as int, from + prefix@.len()) =~= line.subrange(
            0,
            prefix@.len() as int,
        ));
        assert(line.skip(prefix@.len() as int) =~= v@.subrange(from + prefix@.len(), to as int));
    }
    let a = text::skip_spaces(v, from + prefix.len(), to);
    let b = text::drop_spaces(v, a, to);
    if a == b || text::same(text::slice(v, a, b).as_str(), "[DONE]") {
        None
    } else {
        Some((a, b))
    }
}

/// The payloads of a piece of a stream.
pub fn parse_sse_lines(chunk: &str) -> (r: Vec<&str>)
    ensures
        names_view(r@) == payloads_of(chunk@),
{
    let v = text::chars(chunk);
    let spans = text::line_spans(&v);
    let ghost all = text::lines_of(chunk@);
    let mut r: Vec<&str> = Vec::new();
    let mut i: usize = 0;
    proof {
        seqs::take_ends(all);
        assert(names_view(r@) =~= Seq::<Seq<char>>::empty());
    }
    while i < spans.len()
        invariant
            i <= spans@.len(),
            v@ == chunk@,
            all == text::spans_view(v@, spans@),
            all.len() == spans@.len(),
            forall|k: int|
                0 <= k < spans@.len() ==> (#[trigger] spans@[k]).0 <= spans@[k].1 <= v@.len(),
            names_view(r@) == all.take(i as int).filter_map(line_payload()),
        decreases spans.len() - i,
    {
        let ghost before = r@;
        proof {
            all.lemma_filter_map_take_succ(line_payload(), i as int);
        }
        if let Some((a, b)) = payload_span(&v, spans[i].0, spans[i].1) {
            r.push(chunk.substring_char(a, b));
            assert(names_view(r@) =~= names_view(before) + seq![
                chunk@.subrange(a as int, b as int),
            ]);
        }
        assert(names_view(r@) =~= all.take(i + 1).filter_map(line_payload()));
        i += 1;
    }
    r
}

// ---------------------------------------------------------------------------
// What the accumulators share
// ---------------------------------------------------------------------------

/// A count, if there is a new one, else the old one.
pub open spec fn updated(old_count: u32, v: JsonView) -> u32 {
    match v.as_u64() {
        Some(_) => count_of(v),
        None => old_count,
    }
}

fn update_count(n: u32, j: &Json) -> (r: u32)
    ensures
        r == updated(n, j.deep_view()),
{
    match j.as_u64() {
        Some(_) => protocol::count(j),
        None => n,
    }
}

/// A tool call whose arguments are read, if they are still text.
pub open spec fn settled_call() -> spec_fn(ToolCallView) -> ToolCallView {
    |c: ToolCallView|
        ToolCallView {
            arguments: match c.arguments {
                JsonView::Str(s) => parsed_or_empty(s),
                other => other,
            },
            ..c
        }
}

fn settle_call(c: &ToolCall) -> (r: ToolCall)
    ensures
        r.deep_view() == settled_call()(c.deep_view()),
{
    let arguments = match &c.arguments {
        Json::Str(s) => protocol::parse_or_empty(s.as_str()),
        other => other.clone(),
    };
    ToolCall { id: c.id.clone(), name: c.name.clone(), arguments }
}

/// A response that was put together from a stream.
pub open spec fn streamed_response(
    content: Seq<char>,
    thinking: Option<Seq<char>>,
    finish_reason: Seq<char>,
    usage: Usage,
    tool_calls: Seq<ToolCallView>,
    model: Seq<char>,
    duration_ms: u64,
) -> ResponseView {
    ResponseView {
        id: None,
        content,
        status: None,
        finish_reason,
        usage,
        cost_usd: Usd { bits: 0 },
        duration_ms,
        model,
        tool_calls,
        thinking,
        metadata: Map::empty(),
        native: Map::empty(),
    }
}

fn response_of_stream(
    content: String,
    thinking: Option<String>,
    finish_reason: String,
    usage: Usage,
    tool_calls: Vec<ToolCall>,
    model: &str,
    duration_ms: u64,
) -> (r: IntermediateResponse)
    ensures
        r.deep_view() == streamed_response(
            content@,
            thinking.deep_view(),
            finish_reason@,
            usage,
            tool_calls.deep_view(),
            model@,
            duration_ms,
        ),
{
    IntermediateResponse {
        id: None,
        content,
        status: None,
        finish_reason,
        usage,
        cost_usd: Usd { bits: 0 },
        duration_ms,
        model: model.to_owned(),
        tool_calls,
        thinking,
        metadata: JsonMap::new(),
        native: JsonMap::new(),
    }
}

fn some_unless_empty(s: String) -> (r: Option<String>)
    ensures
        r.deep_view() == unless_empty(s@),
{
    if s.as_str().is_empty() {
        None
    } else {
        Some(s)
    }
}

/// The event for a piece of text, if there is any.
pub open spec fn delta_event(s: Seq<char>) -> Option<StreamEventView> {
    if s.len() == 0 {
        None
    } else {
        Some(StreamEventView::Delta(s))
    }
}

/// The event for a piece of thought, if there is any.
pub open spec fn thinking_event(s: Seq<char>) -> Option<StreamEventView> {
    if s.len() == 0 {
        None
    } else {
        Some(StreamEventView::ThinkingDelta(s))
    }
}

fn delta(s: String) -> (r: Option<StreamEvent>)
    ensures
        r.deep_view() == delta_event(s@),
{
    if s.as_str().is_empty() {
        None
    } else {
        Some(StreamEvent::Delta(s))
    }
}

fn thinking_delta(s: String) -> (r: Option<StreamEvent>)
    ensures
        r.deep_view() == thinking_event(s@),
{
    if s.as_str().is_empty() {
        None
    } else {
        Some(StreamEvent::ThinkingDelta(s))
    }
}

/// The arguments of a call after a further piece of their text.
pub open spec fn grown_arguments(arguments: JsonView, piece: Seq<char>) -> JsonView {
    match arguments {
        JsonView::Str(s) => JsonView::Str(s + piece),
        _ => JsonView::Str(piece),
    }
}

fn grow_arguments(arguments: &Json, piece: &str) -> (r: Json)
    ensures
        r.deep_view() == grown_arguments(arguments.deep_view(), piece@),
{
    match arguments {
        Json::Str(s) => Json::Str(text::concat(s.as_str(), piece)),
        _ => Json::text(piece),
    }
}

fn set_call(calls: &mut Vec<ToolCall>, i: usize, call: ToolCall)
    requires
        i < old(calls)@.len(),
    ensures
        final(calls).deep_view() == old(calls).deep_view().update(i as int, call.deep_view()),
{
    let ghost before = calls.deep_view();
    calls.set(i, call);
    assert(calls.deep_view() =~= before.update(i as int, call.deep_view()));
}

// ---------------------------------------------------------------------------
// Anthropic messages
// ---------------------------------------------------------------------------

/// The payload for an event.
pub open spec fn anthropic_payload(event: StreamEventView) -> JsonView {
    JsonView::Object(
        match event {
            StreamEventView::Delta(s) => no_members().insert(
                "type"@,
                JsonView::Str("content_block_delta"@),
            ).insert("index"@, int_view(0)).insert(
                "delta"@,
                JsonView::Object(
                    no_members().insert("type"@, JsonView::Str("text_delta"@)).insert(
                        "text"@,
                        JsonView::Str(s),
                    ),
                ),
            ),
            StreamEventView::ThinkingDelta(s) => no_members().insert(
                "type"@,
                JsonView::Str("content_block_delta"@),
            ).insert("index"@, int_view(0)).insert(
                "delta"@,
                JsonView::Object(
                    no_members().insert("type"@, JsonView::Str("thinking_delta"@)).insert(
                        "thinking"@,
                        JsonView::Str(s),
                    ),
                ),
            ),
            StreamEventView::ToolCallDelta { index, id, name, arguments } => if arguments.len()
                == 0 {
                no_members().insert("type"@, JsonView::Str("content_block_start"@)).insert(
                    "index"@,
                    int_view(index as int),
                ).insert(
                    "content_block"@,
                    JsonView::Object(
                        no_members().insert("type"@, JsonView::Str("tool_use"@)).insert(
                            "id"@,
                            JsonView::Str(id),
                        ).insert("name"@, JsonView::Str(name)),
                    ),
                )
            } else {
                no_members().insert("type"@, JsonView::Str("content_block_delta"@)).insert(
                    "index"@,
                    int_view(index as int),
                ).insert(
                    "delta"@,
                    JsonView::Object(
                        no_members().insert("type"@, JsonView::Str("input_json_delta"@)).insert(
                            "partial_json"@,
                            JsonView::Str(arguments),
                        ),
                    ),
                )
            },
            StreamEventView::Done(ir) => no_members().insert(
                "type"@,
                JsonView::Str("message_delta"@),
            ).insert(
                "delta"@,
                JsonView::Object(
                    no_members().insert("stop_reason"@, JsonView::Str(ir.finish_reason)),
                ),
            ).insert(
                "usage"@,
                JsonView::Object(
                    no_members().insert(
                        "output_tokens"@,
                        int_view(ir.usage.completion_tokens as int),
                    ),
                ),
            ),
        },
    )
}

/// The payload for an event, as a tree.
pub fn anthropic_event_json(event: &StreamEvent) -> (r: Json)
    ensures
        r.deep_view() == anthropic_payload(event.deep_view()),
{
    let mut m = JsonMap::new();
    match event {
        StreamEvent::Delta(s) => {
            let mut d = JsonMap::new();
            d.insert_text("type", "text_delta");
            d.insert_text("text", s.as_str());
            m.insert_text("type", "content_block_delta");
            m.insert("index", Json::of_u64(0));
            m.insert("delta", Json::object(d));
        },
        StreamEvent::ThinkingDelta(s) => {
            let mut d = JsonMap::new();
            d.insert_text("type", "thinking_delta");
            d.insert_text("thinking", s.as_str());
            m.insert_text("type", "content_block_delta");
            m.insert("index", Json::of_u64(0));
            m.insert("delta", Json::object(d));
        },
        StreamEvent::ToolCallDelta { index, id, name, arguments } => {
            if arguments.as_str().is_empty() {
                let mut b = JsonMap::new();
                b.insert_text("type", "tool_use");
                b.insert_text("id", id.as_str());
                b.insert_text("name", name.as_str());
                m.insert_text("type", "content_block_start");
                m.insert("index", Json::of_u64(*index as u64));
                m.insert("content_block", Json::object(b));
            } else {
                let mut d = JsonMap::new();
                d.insert_text("type", "input_json_delta");
                d.insert_text("partial_json", arguments.as_str());
                m.insert_text("type", "content_block_delta");
                m.insert("index", Json::of_u64(*index as u64));
                m.insert("delta", Json::object(d));
            }
        },
        StreamEvent::Done(ir) => {
            let mut d = JsonMap::new();
            d.insert_text("stop_reason", ir.finish_reason.as_str());
            let mut u = JsonMap::new();
            u.insert("output_tokens", Json::of_u64(ir.usage.completion_tokens as u64));
            m.insert_text("type", "message_delta");
            m.insert("delta", Json::object(d));
            m.insert("usage", Json::object(u));
        },
    }
    Json::object(m)
}

proof fn anthropic_payload_is_plain(event: StreamEventView)
    ensures
        plain_to_depth(anthropic_payload(event), 127),
{
    words_differ();
    reveal_with_fuel(plain_to_depth, 4);
}

/// The payload for an event, as text, which is read back to the payload.
pub fn anthropic_format_sse(event: &StreamEvent, _model: &str) -> (r: Option<String>)
    ensures
        r matches Some(s) && s@ == json_text(anthropic_payload(event.deep_view())) && parsed_json(
            s@,
        ) == Some(anthropic_payload(event.deep_view())),
{
    proof {
        anthropic_payload_is_plain(event.deep_view());
    }
    Some(json::to_text(&anthropic_event_json(event)))
}

/// Puts an Anthropic stream together.
#[derive(Debug)]
pub struct AnthropicAccumulator {
    pub content: String,
    pub thinking: String,
    pub tool_calls: Vec<ToolCall>,
    pub tool_call_indices: Vec<u32>,
    pub stop_reason: String,
    pub usage: Usage,
}

#[verifier::ext_equal]
pub struct AnthropicStreamView {
    pub content: Seq<char>,
    pub thinking: Seq<char>,
    pub tool_calls: Seq<ToolCallView>,
    pub tool_call_indices: Seq<u32>,
    pub stop_reason: Seq<char>,
    pub usage: Usage,
}

impl DeepView for AnthropicAccumulator {
    type V = AnthropicStreamView;

    open spec fn deep_view(&self) -> AnthropicStreamView {
        AnthropicStreamView {
            content: self.content@,
            thinking: self.thinking@,
            tool_calls: self.tool_calls.deep_view(),
            tool_call_indices: self.tool_call_indices@,
            stop_reason: self.stop_reason@,
            usage: self.usage,
        }
    }
}

/// The state before any payload.
pub open spec fn anthropic_start() -> AnthropicStreamView {
    AnthropicStreamView {
        content: Seq::empty(),
        thinking: Seq::empty(),
        tool_calls: Seq::empty(),
        tool_call_indices: Seq::empty(),
        stop_reason: "end_turn"@,
        usage: no_usage(),
    }
}

/// What the beginning of a block does: a tool call begins.
pub open spec fn anthropic_block_start(a: AnthropicStreamView, v: JsonView) -> (
    AnthropicStreamView,
    Option<StreamEventView>,
) {
    let block = v.at("content_block"@);
    if block.at("type"@).as_str() == Some("tool_use"@) {
        let index = count_of(v.at("index"@));
        let id = text_or(block.at("id"@), ""@);
        let name = text_or(block.at("name"@), ""@);
        (
            AnthropicStreamView {
                tool_calls: a.tool_calls.push(
                    ToolCallView { id, name, arguments: JsonView::Str(Seq::empty()) },
                ),
                tool_call_indices: a.tool_call_indices.push(index),
                ..a
            },
            Some(
                StreamEventView::ToolCallDelta { index, id, name, arguments: Seq::empty() },
            ),
        )
    } else {
        (a, None)
    }
}

/// What a further piece of the arguments of the last tool call does.
pub open spec fn anthropic_arguments(a: AnthropicStreamView, index: u32, piece: Seq<char>) -> (
    AnthropicStreamView,
    Option<StreamEventView>,
) {
    if a.tool_calls.len() > 0 {
        let last = a.tool_calls.last();
        (
            AnthropicStreamView {
                tool_calls: a.tool_calls.update(
                    a.tool_calls.len() - 1,
                    ToolCallView {
                        arguments: match last.arguments {
                            JsonView::Str(s) => JsonView::Str(s + piece),
                            other => other,
                        },
                        ..last
                    },
                ),
                ..a
            },
            if piece.len() > 0 {
                Some(
                    StreamEventView::ToolCallDelta {
                        index,
                        id: last.id,
                        name: last.name,
                        arguments: piece,
                    },
                )
            } else {
                None
            },
        )
    } else {
        (a, None)
    }
}

/// What a further piece of a block does.
pub open spec fn anthropic_block_delta(a: AnthropicStreamView, v: JsonView) -> (
    AnthropicStreamView,
    Option<StreamEventView>,
) {
    let d = v.at("delta"@);
    let kind = text_or(d.at("type"@), ""@);
    if kind == "text_delta"@ {
        let s = text_or(d.at("text"@), ""@);
        (AnthropicStreamView { content: a.content + s, ..a }, delta_event(s))
    } else if kind == "thinking_delta"@ {
        let s = text_or(d.at("thinking"@), ""@);
        (AnthropicStreamView { thinking: a.thinking + s, ..a }, thinking_event(s))
    } else if kind == "input_json_delta"@ {
        anthropic_arguments(a, count_of(v.at("index"@)), text_or(d.at("partial_json"@), ""@))
    } else {
        (a, None)
    }
}

/// What a payload does: the state after it, and its event.
pub open spec fn anthropic_step(a: AnthropicStreamView, v: JsonView) -> (
    AnthropicStreamView,
    Option<StreamEventView>,
) {
    let kind = text_or(v.at("type"@), ""@);
    if kind == "content_block_start"@ {
        anthropic_block_start(a, v)
    } else if kind == "content_block_delta"@ {
        anthropic_block_delta(a, v)
    } else if kind == "message_delta"@ {
        (
            AnthropicStreamView {
                stop_reason: text_or(v.at("delta"@).at("stop_reason"@), "end_turn"@),
                usage: Usage {
                    completion_tokens: updated(
                        a.usage.completion_tokens,
                        v.at("usage"@).at("output_tokens"@),
                    ),
                    ..a.usage
                },
                ..a
            },
            None,
        )
    } else {
        (a, None)
    }
}

/// The response that a state stands for.
pub open spec fn anthropic_response(
    a: AnthropicStreamView,
    model: Seq<char>,
    duration_ms: u64,
) -> ResponseView {
    streamed_response(
        a.content,
        unless_empty(a.thinking),
        a.stop_reason,
        a.usage,
        a.tool_calls.map_values(settled_call()),
        model,
        duration_ms,
    )
}

impl AnthropicAccumulator {
    /// The state before any payload.
    pub fn new() -> (r: Self)
        ensures
            r.deep_view() == anthropic_start(),
    {
        AnthropicAccumulator {
            content: String::new(),
            thinking: String::new(),
            tool_calls: seqs::none(),
            tool_call_indices: Vec::new(),
            stop_reason: "end_turn".to_owned(),
            usage: Usage {
                prompt_tokens: 0,
                completion_tokens: 0,
                total_tokens: 0,
                reasoning_tokens: 0,
            },
        }
    }

    fn start_block(&mut self, v: &Json) -> (r: Option<StreamEvent>)
        ensures
            (final(self).deep_view(), r.deep_view()) == anthropic_block_start(
                old(self).deep_view(),
                v.deep_view(),
            ),
    {
        let block = v.at("content_block");
        if protocol::has_type(block, "tool_use") {
            let index = protocol::count(v.at("index"));
            let id = protocol::str_or(block.at("id"), "");
            let name = protocol::str_or(block.at("name"), "");
            seqs::put(
                &mut self.tool_calls,
                ToolCall {
                    id: id.clone(),
                    name: name.clone(),
                    arguments: Json::Str(String::new()),
                },
            );
            self.tool_call_indices.push(index);
            Some(StreamEvent::ToolCallDelta { index, id, name, arguments: String::new() })
        } else {
            None
        }
    }

    fn grow_call(&mut self, index: u32, piece: String) -> (r: Option<StreamEvent>)
        ensures
            (final(self).deep_view(), r.deep_view()) == anthropic_arguments(
                old(self).deep_view(),
                index,
                piece@,
            ),
    {
        let n = self.tool_calls.len();
        if n == 0 {
            return None;
        }
        let last = self.tool_calls[n - 1].clone();
        assert(last.deep_view() == self.deep_view().tool_calls.last());
        let arguments = match &last.arguments {
            Json::Str(s) => Json::Str(text::concat(s.as_str(), piece.as_str())),
            other => other.clone(),
        };
        set_call(
            &mut self.tool_calls,
            n - 1,
            ToolCall { id: last.id.clone(), name: last.name.clone(), arguments },
        );
        if piece.as_str().is_empty() {
            None
        } else {
            Some(
                StreamEvent::ToolCallDelta {
                    index,
                    id: last.id,
                    name: last.name,
                    arguments: piece,
                },
            )
        }
    }

    fn grow_block(&mut self, v: &Json) -> (r: Option<StreamEvent>)
        ensures
            (final(self).deep_view(), r.deep_view()) == anthropic_block_delta(
                old(self).deep_view(),
                v.deep_view(),
            ),
    {
        let d = v.at("delta");
        let kind = protocol::str_or(d.at("type"), "");
        if text::same(kind.as_str(), "text_delta") {
            let s = protocol::str_or(d.at("text"), "");
            self.content.append(s.as_str());
            delta(s)
        } else if text::same(kind.as_str(), "thinking_delta") {
            let s = protocol::str_or(d.at("thinking"), "");
            self.thinking.append(s.as_str());
            thinking_delta(s)
        } else if text::same(kind.as_str(), "input_json_delta") {
            self.grow_call(
                protocol::count(v.at("index")),
                protocol::str_or(d.at("partial_json"), ""),
            )
        } else {
            None
        }
    }

    /// Takes a payload that was read already, and says which event it is.
    pub fn feed_value(&mut self, v: &Json) -> (r: Option<StreamEvent>)
        ensures
            (final(self).deep_view(), r.deep_view()) == anthropic_step(
                old(self).deep_view(),
                v.deep_view(),
            ),
    {
        let kind = protocol::str_or(v.at("type"), "");
        if text::same(kind.as_str(), "content_block_start") {
            self.start_block(v)
        } else if text::same(kind.as_str(), "content_block_delta") {
            self.grow_block(v)
        } else if text::same(kind.as_str(), "message_delta") {
            self.stop_reason = protocol::str_or(v.at("delta").at("stop_reason"), "end_turn");
            self.usage.completion_tokens = update_count(
                self.usage.completion_tokens,
                v.at("usage").at("output_tokens"),
            );
            None
        } else {
            None
        }
    }

    /// Takes a payload and says which event it is; what is not JSON does nothing.
    pub fn feed(&mut self, json: &str) -> (r: Option<StreamEvent>)
        ensures
            (final(self).deep_view(), r.deep_view()) == (match parsed_json(json@) {
                Some(v) => anthropic_step(old(self).deep_view(), v),
                None => (old(self).deep_view(), None),
            }),
    {
        match json::parse(json) {
            Some(v) => self.feed_value(&v),
            None => None,
        }
    }

    /// The response that was put together.
    pub fn into_response(self, model: &str, duration_ms: u64) -> (r: IntermediateResponse)
        ensures
            r.deep_view() == anthropic_response(self.deep_view(), model@, duration_ms),
    {
        let tool_calls = seqs::map_all(&self.tool_calls, settle_call, Ghost(settled_call()));
        response_of_stream(
            self.content,
            some_unless_empty(self.thinking),
            self.stop_reason,
            self.usage,
            tool_calls,
            model,
            duration_ms,
        )
    }
}

// ---------------------------------------------------------------------------
// OpenAI chat completions
// ---------------------------------------------------------------------------

/// A chunk with one choice.
pub open spec fn chat_chunk(
    model: Seq<char>,
    delta: Map<Seq<char>, JsonView>,
    finish_reason: JsonView,
) -> Map<Seq<char>, JsonView> {
    no_members().insert("object"@, JsonView::Str("chat.completion.chunk"@)).insert(
        "model"@,
        JsonView::Str(model),
    ).insert(
        "choices"@,
        JsonView::Array(
            seq![
                JsonView::Object(
                    no_members().insert("index"@, int_view(0)).insert(
                        "delta"@,
                        JsonView::Object(delta),
                    ).insert("finish_reason"@, finish_reason),
                ),
            ],
        ),
    )
}

/// The payload for an event.
pub open spec fn chat_payload(event: StreamEventView, model: Seq<char>) -> JsonView {
    JsonView::Object(
        match event {
            StreamEventView::Delta(s) => chat_chunk(
                model,
                no_members().insert("content"@, JsonView::Str(s)),
                JsonView::Null,
            ),
            StreamEventView::ThinkingDelta(s) => chat_chunk(
                model,
                no_members().insert("reasoning"@, JsonView::Str(s)),
                JsonView::Null,
            ),
            StreamEventView::ToolCallDelta { index, id, name, arguments } => chat_chunk(
                model,
                no_members().insert(
                    "tool_calls"@,
                    JsonView::Array(
                        seq![
                            JsonView::Object(
                                no_members().insert("index"@, int_view(index as int)).insert(
                                    "id"@,
                                    JsonView::Str(id),
                                ).insert("type"@, JsonView::Str("function"@)).insert(
                                    "function"@,
                                    JsonView::Object(
                                        no_members().insert("name"@, JsonView::Str(name)).insert(
                                            "arguments"@,
                                            JsonView::Str(arguments),
                                        ),
                                    ),
                                ),
                            ),
                        ],
                    ),
                ),
                JsonView::Null,
            ),
            StreamEventView::Done(ir) => chat_chunk(
                model,
                no_members(),
                JsonView::Str(ir.finish_reason),
            ).insert(
                "usage"@,
                JsonView::Object(
                    no_members().insert(
                        "prompt_tokens"@,
                        int_view(ir.usage.prompt_tokens as int),
                    ).insert(
                        "completion_tokens"@,
                        int_view(ir.usage.completion_tokens as int),
                    ).insert("total_tokens"@, int_view(ir.usage.total_tokens as int)),
                ),
            ),
        },
    )
}

fn chunk(model: &str, delta: JsonMap, finish_reason: Json) -> (r: JsonMap)
    ensures
        r.deep_view() == chat_chunk(model@, delta.deep_view(), finish_reason.deep_view()),
{
    let mut choice = JsonMap::new();
    choice.insert("index", Json::of_u64(0));
    choice.insert("delta", Json::object(delta));
    choice.insert("finish_reason", finish_reason);
    let mut m = JsonMap::new();
    m.insert_text("object", "chat.completion.chunk");
    m.insert_text("model", model);
    m.insert("choices", Json::array(seqs::one(Json::object(choice))));
    m
}

/// The payload for an event, as a tree.
pub fn openai_event_json(event: &StreamEvent, model: &str) -> (r: Json)
    ensures
        r.deep_view() == chat_payload(event.deep_view(), model@),
{
    let mut d = JsonMap::new();
    match event {
        StreamEvent::Delta(s) => {
            d.insert_text("content", s.as_str());
            Json::object(chunk(model, d, Json::Null))
        },
        StreamEvent::ThinkingDelta(s) => {
            d.insert_text("reasoning", s.as_str());
            Json::object(chunk(model, d, Json::Null))
        },
        StreamEvent::ToolCallDelta { index, id, name, arguments } => {
            let mut function = JsonMap::new();
            function.insert_text("name", name.as_str());
            function.insert_text("arguments", arguments.as_str());
            let mut call = JsonMap::new();
            call.insert("index", Json::of_u64(*index as u64));
            call.insert_text("id", id.as_str());
            call.insert_text("type", "function");
            call.insert("function", Json::object(function));
            d.insert("tool_calls", Json::array(seqs::one(Json::object(call))));
            Json::object(chunk(model, d, Json::Null))
        },
        StreamEvent::Done(ir) => {
            let mut usage = JsonMap::new();
            usage.insert("prompt_tokens", Json::of_u64(ir.usage.prompt_tokens as u64));
            usage.insert("completion_tokens", Json::of_u64(ir.usage.completion_tokens as u64));
            usage.insert("total_tokens", Json::of_u64(ir.usage.total_tokens as u64));
            let mut m = chunk(model, d, Json::text(ir.finish_reason.as_str()));
            m.insert("usage", Json::object(usage));
            Json::object(m)
        },
    }
}

proof fn chat_payload_is_plain(event: StreamEventView, model: Seq<char>)
    ensures
        plain_to_depth(chat_payload(event, model), 127),
{
    words_differ();
    reveal_with_fuel(plain_to_depth, 8);
}

/// The payload for an event, as text, which is read back to the payload.
pub fn openai_format_sse(event: &StreamEvent, model: &str) -> (r: Option<String>)
    ensures
        r matches Some(s) && s@ == json_text(chat_payload(event.deep_view(), model@))
            && parsed_json(s@) == Some(chat_payload(event.deep_view(), model@)),
{
    proof {
        chat_payload_is_plain(event.deep_view(), model@);
    }
    Some(json::to_text(&openai_event_json(event, model)))
}

/// Puts a chat completion stream together.
#[derive(Debug)]
pub struct OpenAiAccumulator {
    pub content: String,
    pub reasoning: String,
    pub finish_reason: String,
    pub usage: Usage,
    pub tool_calls: Vec<ToolCall>,
}

#[verifier::ext_equal]
pub struct ChatStreamView {
    pub content: Seq<char>,
    pub reasoning: Seq<char>,
    pub finish_reason: Seq<char>,
    pub usage: Usage,
    pub tool_calls: Seq<ToolCallView>,
}

impl DeepView for OpenAiAccumulator {
    type V = ChatStreamView;

    open spec fn deep_view(&self) -> ChatStreamView {
        ChatStreamView {
            content: self.content@,
            reasoning: self.reasoning@,
            finish_reason: self.finish_reason@,
            usage: self.usage,
            tool_calls: self.tool_calls.deep_view(),
        }
    }
}

/// The state before any payload.
pub open spec fn chat_start() -> ChatStreamView {
    ChatStreamView {
        content: Seq::empty(),
        reasoning: Seq::empty(),
        finish_reason: "stop"@,
        usage: no_usage(),
        tool_calls: Seq::empty(),
    }
}

/// A call of which nothing is known yet.
pub open spec fn blank_call() -> ToolCallView {
    ToolCallView { id: Seq::empty(), name: Seq::empty(), arguments: protocol::empty_object() }
}

/// The calls, with blank ones added until there is one at position `n`.
pub open spec fn padded(calls: Seq<ToolCallView>, n: nat) -> Seq<ToolCallView>
    decreases n + 1 - calls.len(),
{
    if calls.len() > n {
        calls
    } else {
        padded(calls.push(blank_call()), n)
    }
}

/// What one piece of a tool call does: the calls after it, and its event, if it has
/// one. A piece that names the tool is the beginning of a call.
pub open spec fn chat_call_step(calls: Seq<ToolCallView>, piece: JsonView) -> (
    Seq<ToolCallView>,
    Option<StreamEventView>,
) {
    let index = count_of(piece.at("index"@));
    let calls = padded(calls, index as nat);
    let entry = calls[index as int];
    let entry = ToolCallView { id: text_or(piece.at("id"@), entry.id), ..entry };
    let function = piece.at("function"@);
    match function.at("name"@).as_str() {
        Some(name) => (
            calls.update(index as int, ToolCallView { name, ..entry }),
            Some(
                StreamEventView::ToolCallDelta {
                    index,
                    id: entry.id,
                    name,
                    arguments: Seq::empty(),
                },
            ),
        ),
        None => match function.at("arguments"@).as_str() {
            Some(arguments) => (
                calls.update(
                    index as int,
                    ToolCallView {
                        arguments: grown_arguments(entry.arguments, arguments),
                        ..entry
                    },
                ),
                Some(
                    StreamEventView::ToolCallDelta {
                        index,
                        id: entry.id,
                        name: entry.name,
                        arguments,
                    },
                ),
            ),
            None => (calls.update(index as int, entry), None),
        },
    }
}

/// What the pieces from position `i` on do; the first one with an event is the last
/// one that counts.
pub open spec fn chat_calls_step(calls: Seq<ToolCallView>, pieces: Seq<JsonView>, i: int) -> (
    Seq<ToolCallView>,
    Option<StreamEventView>,
)
    decreases pieces.len() - i,
{
    if i < 0 || i >= pieces.len() {
        (calls, None)
    } else {
        let (after, event) = chat_call_step(calls, pieces[i]);
        if event is Some {
            (after, event)
        } else {
            chat_calls_step(after, pieces, i + 1)
        }
    }
}

/// What a payload does to the end of a stream: the reason for the end and the counts.
pub open spec fn chat_finish(a: ChatStreamView, v: JsonView) -> ChatStreamView {
    let usage = v.at("usage"@);
    ChatStreamView {
        finish_reason: text_or(v.at("choices"@).item(0).at("finish_reason"@), a.finish_reason),
        usage: Usage {
            prompt_tokens: updated(a.usage.prompt_tokens, usage.at("prompt_tokens"@)),
            completion_tokens: updated(
                a.usage.completion_tokens,
                usage.at("completion_tokens"@),
            ),
            total_tokens: updated(a.usage.total_tokens, usage.at("total_tokens"@)),
            ..a.usage
        },
        ..a
    }
}

/// What a payload does: the state after it, and its event.
pub open spec fn chat_step(a: ChatStreamView, v: JsonView) -> (
    ChatStreamView,
    Option<StreamEventView>,
) {
    let d = v.at("choices"@).item(0).at("delta"@);
    let (calls, event) = match d.at("tool_calls"@).as_array() {
        Some(pieces) => chat_calls_step(a.tool_calls, pieces, 0),
        None => (a.tool_calls, None),
    };
    let a = ChatStreamView { tool_calls: calls, ..a };
    if event is Some {
        (a, event)
    } else {
        match d.at("content"@).as_str() {
            Some(s) => (ChatStreamView { content: a.content + s, ..a }, delta_event(s)),
            None => match d.at("reasoning"@).as_str() {
                Some(s) => (
                    ChatStreamView { reasoning: a.reasoning + s, ..a },
                    thinking_event(s),
                ),
                None => (chat_finish(a, v), None),
            },
        }
    }
}

/// The response that a state stands for.
pub open spec fn chat_response(a: ChatStreamView, model: Seq<char>, duration_ms: u64) -> ResponseView {
    streamed_response(
        a.content,
        unless_empty(a.reasoning),
        a.finish_reason,
        a.usage,
        a.tool_calls.map_values(settled_call()),
        model,
        duration_ms,
    )
}

/// Padding reaches the position and keeps the calls that were there.
pub proof fn padded_reaches(calls: Seq<ToolCallView>, n: nat)
    ensures
        padded(calls, n).len() > n,
        padded(calls, n).len() >= calls.len(),
        forall|i: int| 0 <= i < calls.len() ==> padded(calls, n)[i] == calls[i],
        forall|i: int| calls.len() <= i < padded(calls, n).len() ==> padded(calls, n)[i] == blank_call(),
    decreases n + 1 - calls.len(),
{
    if calls.len() <= n {
        padded_reaches(calls.push(blank_call()), n);
        assert forall|i: int| 0 <= i < calls.len() implies padded(calls, n)[i] == calls[i] by {
            assert(calls.push(blank_call())[i] == calls[i]);
        }
        assert forall|i: int| calls.len() <= i < padded(calls, n).len() implies padded(calls, n)[i]
            == blank_call() by {
            if i == calls.len() {
                assert(calls.push(blank_call())[i] == blank_call());
            }
        }
    }
}

fn pad_calls(calls: &mut Vec<ToolCall>, n: u32)
    ensures
        final(calls).deep_view() == padded(old(calls).deep_view(), n as nat),
        final(calls)@.len() > n,
{
    let ghost start = calls.deep_view();
    while calls.len() as u64 <= n as u64
        invariant
            padded(start, n as nat) == padded(calls.deep_view(), n as nat),
        decreases n + 1 - calls@.len(),
    {
        let blank = ToolCall {
            id: String::new(),
            name: String::new(),
            arguments: Json::Object(JsonMap::new()),
        };
        seqs::put(calls, blank);
    }
}

fn feed_call(calls: &mut Vec<ToolCall>, piece: &Json) -> (r: Option<StreamEvent>)
    ensures
        (final(calls).deep_view(), r.deep_view()) == chat_call_step(
            old(calls).deep_view(),
            piece.deep_view(),
        ),
{
    let index = protocol::count(piece.at("index"));
    pad_calls(calls, index);
    let i = index as usize;
    let mut entry = calls[i].clone();
    assert(entry.deep_view() == calls.deep_view()[i as int]);
    if let Some(id) = piece.at("id").as_str() {
        entry.id = id.to_owned();
    }
    let function = piece.at("function");
    if let Some(name) = function.at("name").as_str() {
        let event = StreamEvent::ToolCallDelta {
            index,
            id: entry.id.clone(),
            name: name.to_owned(),
            arguments: String::new(),
        };
        entry.name = name.to_owned();
        set_call(calls, i, entry);
        return Some(event);
    }
    if let Some(arguments) = function.at("arguments").as_str() {
        let event = StreamEvent::ToolCallDelta {
            index,
            id: entry.id.clone(),
            name: entry.name.clone(),
            arguments: arguments.to_owned(),
        };
        entry.arguments = grow_arguments(&entry.arguments, arguments);
        set_call(calls, i, entry);
        return Some(event);
    }
    set_call(calls, i, entry);
    None
}

fn feed_calls(calls: &mut Vec<ToolCall>, pieces: &Vec<Json>) -> (r: Option<StreamEvent>)
    ensures
        (final(calls).deep_view(), r.deep_view()) == chat_calls_step(
            old(calls).deep_view(),
            pieces.deep_view(),
            0,
        ),
{
    let ghost start = calls.deep_view();
    let mut i: usize = 0;
    while i < pieces.len()
        invariant
            i <= pieces@.len(),
            start == old(calls).deep_view(),
            chat_calls_step(start, pieces.deep_view(), 0) == chat_calls_step(
                calls.deep_view(),
                pieces.deep_view(),
                i as int,
            ),
        decreases pieces.len() - i,
    {
        let event = feed_call(calls, &pieces[i]);
        if event.is_some() {
            return event;
        }
        i += 1;
    }
    None
}

impl OpenAiAccumulator {
    /// The state before any payload.
    pub fn new() -> (r: Self)
        ensures
            r.deep_view() == chat_start(),
    {
        OpenAiAccumulator {
            content: String::new(),
            reasoning: String::new(),
            finish_reason: "stop".to_owned(),
            usage: Usage {
                prompt_tokens: 0,
                completion_tokens: 0,
                total_tokens: 0,
                reasoning_tokens: 0,
            },
            tool_calls: seqs::none(),
        }
    }

    /// Takes a payload that was read already, and says which event it is.
    pub fn feed_value(&mut self, v: &Json) -> (r: Option<StreamEvent>)
        ensures
            (final(self).deep_view(), r.deep_view()) == chat_step(
                old(self).deep_view(),
                v.deep_view(),
            ),
    {
        let choice = v.at("choices").item(0);
        let d = choice.at("delta");
        if let Some(pieces) = d.at("tool_calls").as_array() {
            let event = feed_calls(&mut self.tool_calls, pieces);
            if event.is_some() {
                return event;
            }
        }
        if let Some(s) = d.at("content").as_str() {
            self.content.append(s);
            return delta(s.to_owned());
        }
        if let Some(s) = d.at("reasoning").as_str() {
            self.reasoning.append(s);
            return thinking_delta(s.to_owned());
        }
        if let Some(s) = choice.at("finish_reason").as_str() {
            self.finish_reason = s.to_owned();
        }
        let usage = v.at("usage");
        self.usage.prompt_tokens = update_count(
            self.usage.prompt_tokens,
            usage.at("prompt_tokens"),
        );
        self.usage.completion_tokens = update_count(
            self.usage.completion_tokens,
            usage.at("completion_tokens"),
        );
        self.usage.total_tokens = update_count(self.usage.total_tokens, usage.at("total_tokens"));
        None
    }

    /// Takes a payload and says which event it is; what is not JSON does nothing.
    pub fn feed(&mut self, json: &str) -> (r: Option<StreamEvent>)
        ensures
            (final(self).deep_view(), r.deep_view()) == (match parsed_json(json@) {
                Some(v) => chat_step(old(self).deep_view(), v),
                None => (old(self).deep_view(), None),
            }),
    {
        match json::parse(json) {
            Some(v) => self.feed_value(&v),
            None => None,
        }
    }

    /// The response that was put together.
    pub fn into_response(self, model: &str, duration_ms: u64) -> (r: IntermediateResponse)
        ensures
            r.deep_view() == chat_response(self.deep_view(), model@, duration_ms),
    {
        let tool_calls = seqs::map_all(&self.tool_calls, settle_call, Ghost(settled_call()));
        response_of_stream(
            self.content,
            some_unless_empty(self.reasoning),
            self.finish_reason,
            self.usage,
            tool_calls,
            model,
            duration_ms,
        )
    }
}

// ---------------------------------------------------------------------------
// OpenAI responses
// ---------------------------------------------------------------------------

/// The identifier of the item for the call at a position.
pub open spec fn item_id(index: u32) -> Seq<char> {
    "fc_"@ + text::decimal_of(index as nat)
}

/// A finished call.
pub open spec fn finished_call() -> spec_fn(ToolCallView) -> JsonView {
    |c: ToolCallView|
        JsonView::Object(
            no_members().insert("type"@, JsonView::Str("function_call"@)).insert(
                "status"@,
                JsonView::Str("completed"@),
            ).insert("call_id"@, JsonView::Str(c.id)).insert(
                "name"@,
                JsonView::Str(c.name),
            ).insert("arguments"@, JsonView::Str(json_text(c.arguments))),
        )
}

/// A finished message.
pub open spec fn finished_message(content: Seq<char>) -> JsonView {
    JsonView::Object(
        no_members().insert("type"@, JsonView::Str("message"@)).insert(
            "role"@,
            JsonView::Str("assistant"@),
        ).insert("status"@, JsonView::Str("completed"@)).insert(
            "content"@,
            JsonView::Array(
                seq![
                    JsonView::Object(
                        no_members().insert("type"@, JsonView::Str("output_text"@)).insert(
                            "text"@,
                            JsonView::Str(content),
                        ),
                    ),
                ],
            ),
        ),
    )
}

/// A finished response.
pub open spec fn finished_response(ir: ResponseView, model: Seq<char>, id: Seq<char>) -> JsonView {
    JsonView::Object(
        no_members().insert("id"@, JsonView::Str(id)).insert(
            "object"@,
            JsonView::Str("response"@),
        ).insert(
            "status"@,
            JsonView::Str(
                match ir.status {
                    Some(s) => s,
                    None => "completed"@,
                },
            ),
        ).insert("model"@, JsonView::Str(model)).insert(
            "output"@,
            JsonView::Array(
                ir.tool_calls.map_values(finished_call()).push(finished_message(ir.content)),
            ),
        ).insert(
            "usage"@,
            JsonView::Object(
                no_members().insert(
                    "input_tokens"@,
                    int_view(ir.usage.prompt_tokens as int),
                ).insert(
                    "output_tokens"@,
                    int_view(ir.usage.completion_tokens as int),
                ).insert("total_tokens"@, int_view(ir.usage.total_tokens as int)),
            ),
        ),
    )
}

/// The identifier of a response: its own, or else the given one.
pub open spec fn response_id_or(ir: ResponseView, fresh: Seq<char>) -> Seq<char> {
    match ir.id {
        Some(id) => id,
        None => fresh,
    }
}

/// The payload for an event; a finished response without an identifier gets the given
/// one.
pub open spec fn responses_payload(
    event: StreamEventView,
    model: Seq<char>,
    fresh: Seq<char>,
) -> JsonView {
    JsonView::Object(
        match event {
            StreamEventView::Delta(s) => no_members().insert(
                "type"@,
                JsonView::Str("response.output_text.delta"@),
            ).insert("delta"@, JsonView::Str(s)),
            StreamEventView::ThinkingDelta(s) => no_members().insert(
                "type"@,
                JsonView::Str("response.reasoning_summary_text.delta"@),
            ).insert("delta"@, JsonView::Str(s)),
            StreamEventView::ToolCallDelta { index, id, name, arguments } => if name.len() > 0
                && arguments.len() == 0 {
                no_members().insert(
                    "type"@,
                    JsonView::Str("response.output_item.added"@),
                ).insert("output_index"@, int_view(index as int)).insert(
                    "item"@,
                    JsonView::Object(
                        no_members().insert("id"@, JsonView::Str(item_id(index))).insert(
                            "type"@,
                            JsonView::Str("function_call"@),
                        ).insert("status"@, JsonView::Str("in_progress"@)).insert(
                            "call_id"@,
                            JsonView::Str(id),
                        ).insert("name"@, JsonView::Str(name)).insert(
                            "arguments"@,
                            JsonView::Str(""@),
                        ),
                    ),
                )
            } else {
                no_members().insert(
                    "type"@,
                    JsonView::Str("response.function_call_arguments.delta"@),
                ).insert("item_id"@, JsonView::Str(item_id(index))).insert(
                    "output_index"@,
                    int_view(index as int),
                ).insert("delta"@, JsonView::Str(arguments))
            },
            StreamEventView::Done(ir) => no_members().insert(
                "type"@,
                JsonView::Str("response.completed"@),
            ).insert("response"@, finished_response(ir, model, response_id_or(ir, fresh))),
        },
    )
}

fn json_of_finished_call(c: &ToolCall) -> (r: Json)
    ensures
        r.deep_view() == finished_call()(c.deep_view()),
{
    let mut m = JsonMap::new();
    m.insert_text("type", "function_call");
    m.insert_text("status", "completed");
    m.insert_text("call_id", c.id.as_str());
    m.insert_text("name", c.name.as_str());
    m.insert("arguments", Json::Str(json::to_text(&c.arguments)));
    Json::object(m)
}

fn json_of_finished_message(content: &str) -> (r: Json)
    ensures
        r.deep_view() == finished_message(content@),
{
    let mut piece = JsonMap::new();
    piece.insert_text("type", "output_text");
    piece.insert_text("text", content);
    let mut m = JsonMap::new();
    m.insert_text("type", "message");
    m.insert_text("role", "assistant");
    m.insert_text("status", "completed");
    m.insert("content", Json::array(seqs::one(Json::object(piece))));
    Json::object(m)
}

fn json_of_finished_response(ir: &IntermediateResponse, model: &str, id: &str) -> (r: Json)
    ensures
        r.deep_view() == finished_response(ir.deep_view(), model@, id@),
{
    let mut output = seqs::map_all(&ir.tool_calls, json_of_finished_call, Ghost(finished_call()));
    seqs::put(&mut output, json_of_finished_message(ir.content.as_str()));
    let mut usage = JsonMap::new();
    usage.insert("input_tokens", Json::of_u64(ir.usage.prompt_tokens as u64));
    usage.insert("output_tokens", Json::of_u64(ir.usage.completion_tokens as u64));
    usage.insert("total_tokens", Json::of_u64(ir.usage.total_tokens as u64));
    let mut m = JsonMap::new();
    m.insert_text("id", id);
    m.insert_text("object", "response");
    match &ir.status {
        Some(s) => m.insert_text("status", s.as_str()),
        None => m.insert_text("status", "completed"),
    }
    m.insert_text("model", model);
    m.insert("output", Json::array(output));
    m.insert("usage", Json::object(usage));
    Json::object(m)
}

fn text_of_item_id(index: u32) -> (r: String)
    ensures
        r@ == item_id(index),
{
    text::concat("fc_", text::decimal(index as u64).as_str())
}

/// The payload for an event, as a tree; a finished response without an identifier gets
/// the given one.
pub fn responses_event_json(event: &StreamEvent, model: &str, fresh: &str) -> (r: Json)
    ensures
        r.deep_view() == responses_payload(event.deep_view(), model@, fresh@),
{
    let mut m = JsonMap::new();
    match event {
        StreamEvent::Delta(s) => {
            m.insert_text("type", "response.output_text.delta");
            m.insert_text("delta", s.as_str());
        },
        StreamEvent::ThinkingDelta(s) => {
            m.insert_text("type", "response.reasoning_summary_text.delta");
            m.insert_text("delta", s.as_str());
        },
        StreamEvent::ToolCallDelta { index, id, name, arguments } => {
            if !name.as_str().is_empty() && arguments.as_str().is_empty() {
                let mut item = JsonMap::new();
                item.insert_text("id", text_of_item_id(*index).as_str());
                item.insert_text("type", "function_call");
                item.insert_text("status", "in_progress");
                item.insert_text("call_id", id.as_str());
                item.insert_text("name", name.as_str());
                item.insert_text("arguments", "");
                m.insert_text("type", "response.output_item.added");
                m.insert("output_index", Json::of_u64(*index as u64));
                m.insert("item", Json::object(item));
            } else {
                m.insert_text("type", "response.function_call_arguments.delta");
                m.insert_text("item_id", text_of_item_id(*index).as_str());
                m.insert("output_index", Json::of_u64(*index as u64));
                m.insert_text("delta", arguments.as_str());
            }
        },
        StreamEvent::Done(ir) => {
            let response = match &ir.id {
                Some(id) => json_of_finished_response(ir, model, id.as_str()),
                None => json_of_finished_response(ir, model, fresh),
            };
            m.insert_text("type", "response.completed");
            m.insert("response", response);
        },
    }
    Json::object(m)
}

proof fn responses_payload_is_plain(event: StreamEventView, model: Seq<char>, fresh: Seq<char>)
    ensures
        plain_to_depth(responses_payload(event, model, fresh), 127),
{
    words_differ();
    reveal_with_fuel(plain_to_depth, 8);
}

/// Whether a text is the payload for an event, with a new identifier where one is
/// needed, and is read back to the payload.
pub open spec fn is_responses_payload(
    s: Seq<char>,
    event: StreamEventView,
    model: Seq<char>,
) -> bool {
    exists|fresh: Seq<char>| #[trigger]
        openai_responses::is_prefixed_id(fresh, "resp_"@) && s == json_text(
            responses_payload(event, model, fresh),
        ) && parsed_json(s) == Some(responses_payload(event, model, fresh))
}

/// The payload for an event, as text; a finished response without an identifier gets a
/// new one.
pub fn responses_format_sse(event: &StreamEvent, model: &str) -> (r: Option<String>)
    ensures
        r matches Some(s) && is_responses_payload(s@, event.deep_view(), model@),
{
    let u = ids::uuid_text();
    let fresh = text::concat("resp_", u.as_str());
    proof {
        responses_payload_is_plain(event.deep_view(), model@, fresh@);
    }
    let s = json::to_text(&responses_event_json(event, model, fresh.as_str()));
    assert(openai_responses::is_prefixed_id(fresh@, "resp_"@)) by {
        assert(ids::is_uuid_text(u@));
    }
    Some(s)
}

/// Puts a responses stream together. Pieces of calls are told apart by the identifier
/// of their item.
pub struct OpenAiResponsesAccumulator {
    pub content: String,
    pub reasoning: String,
    pub usage: Usage,
    pub tool_calls: Vec<ToolCall>,
    pub tool_call_by_item_id: Lookup<usize>,
}

#[verifier::ext_equal]
pub struct ResponsesStreamView {
    pub content: Seq<char>,
    pub reasoning: Seq<char>,
    pub usage: Usage,
    pub tool_calls: Seq<ToolCallView>,
    pub by_item: Map<Seq<char>, usize>,
}

impl DeepView for OpenAiResponsesAccumulator {
    type V = ResponsesStreamView;

    open spec fn deep_view(&self) -> ResponsesStreamView {
        ResponsesStreamView {
            content: self.content@,
            reasoning: self.reasoning@,
            usage: self.usage,
            tool_calls: self.tool_calls.deep_view(),
            by_item: self.tool_call_by_item_id@,
        }
    }
}

/// Whether each known item is the item of a call.
pub open spec fn items_are_known(a: ResponsesStreamView) -> bool {
    &&& a.tool_calls.len() <= usize::MAX
    &&& forall|id: Seq<char>|
        a.by_item.dom().contains(id) ==> (#[trigger] a.by_item[id]) < a.tool_calls.len()
}

/// The state before any payload.
pub open spec fn responses_start() -> ResponsesStreamView {
    ResponsesStreamView {
        content: Seq::empty(),
        reasoning: Seq::empty(),
        usage: no_usage(),
        tool_calls: Seq::empty(),
        by_item: Map::empty(),
    }
}

/// The state after a new call, with the identifier of its item, if it has one.
pub open spec fn with_call(a: ResponsesStreamView, item: Seq<char>, call: ToolCallView) -> ResponsesStreamView {
    ResponsesStreamView {
        tool_calls: a.tool_calls.push(call),
        by_item: if item.len() > 0 {
            a.by_item.insert(item, a.tool_calls.len() as usize)
        } else {
            a.by_item
        },
        ..a
    }
}

/// What a new item does: a call begins.
pub open spec fn responses_item_added(a: ResponsesStreamView, item: JsonView) -> (
    ResponsesStreamView,
    Option<StreamEventView>,
) {
    if item.at("type"@).as_str() == Some("function_call"@) {
        let id = text_or(item.at("call_id"@), ""@);
        let name = text_or(item.at("name"@), ""@);
        (
            with_call(
                a,
                text_or(item.at("id"@), ""@),
                ToolCallView {
                    id,
                    name,
                    arguments: JsonView::Str(text_or(item.at("arguments"@), ""@)),
                },
            ),
            Some(
                StreamEventView::ToolCallDelta {
                    index: low_u32_of(a.tool_calls.len()),
                    id,
                    name,
                    arguments: Seq::empty(),
                },
            ),
        )
    } else {
        (a, None)
    }
}

/// What a further piece of the arguments of a call does. A piece for an item that is
/// not known begins a call.
pub open spec fn responses_arguments(
    a: ResponsesStreamView,
    item: Seq<char>,
    call_id: Seq<char>,
    piece: Seq<char>,
) -> (ResponsesStreamView, Option<StreamEventView>) {
    if piece.len() == 0 {
        (a, None)
    } else {
        let known = a.by_item.dom().contains(item);
        let index: int = if known {
            a.by_item[item] as int
        } else {
            a.tool_calls.len() as int
        };
        let b = if known {
            a
        } else {
            with_call(
                a,
                item,
                ToolCallView {
                    id: call_id,
                    name: Seq::empty(),
                    arguments: JsonView::Str(Seq::empty()),
                },
            )
        };
        let entry = b.tool_calls[index];
        let id = if entry.id.len() == 0 {
            call_id
        } else {
            entry.id
        };
        (
            ResponsesStreamView {
                tool_calls: b.tool_calls.update(
                    index,
                    ToolCallView {
                        id,
                        arguments: grown_arguments(entry.arguments, piece),
                        ..entry
                    },
                ),
                ..b
            },
            Some(
                StreamEventView::ToolCallDelta {
                    index: low_u32_of(index as nat),
                    id,
                    name: entry.name,
                    arguments: piece,
                },
            ),
        )
    }
}

/// What the end of the arguments of a call does: they are read.
pub open spec fn responses_arguments_done(a: ResponsesStreamView, v: JsonView) -> ResponsesStreamView {
    let item = text_or(v.at("item_id"@), ""@);
    if a.by_item.dom().contains(item) {
        let index = a.by_item[item] as int;
        let entry = a.tool_calls[index];
        let full = ToolCallView {
            arguments: match v.at("arguments"@).as_str() {
                Some(s) => JsonView::Str(s),
                None => entry.arguments,
            },
            ..entry
        };
        ResponsesStreamView {
            tool_calls: a.tool_calls.update(index, settled_call()(full)),
            ..a
        }
    } else {
        a
    }
}

/// A text, or another one where it is empty.
pub open spec fn or_else_text(s: Seq<char>, other: Seq<char>) -> Seq<char> {
    if s.len() == 0 {
        other
    } else {
        s
    }
}

/// What the end of an item does: what was missing of its call is filled in; an item
/// that is not known is a call of its own.
pub open spec fn responses_item_done(a: ResponsesStreamView, item: JsonView) -> (
    ResponsesStreamView,
    Option<StreamEventView>,
) {
    let key = text_or(item.at("id"@), ""@);
    let id = text_or(item.at("call_id"@), ""@);
    let name = text_or(item.at("name"@), ""@);
    let arguments = text_or(item.at("arguments"@), ""@);
    if item.at("type"@).as_str() != Some("function_call"@) {
        (a, None)
    } else if a.by_item.dom().contains(key) {
        let index = a.by_item[key] as int;
        let entry = a.tool_calls[index];
        (
            ResponsesStreamView {
                tool_calls: a.tool_calls.update(
                    index,
                    ToolCallView {
                        id: or_else_text(entry.id, id),
                        name: or_else_text(entry.name, name),
                        arguments: if arguments.len() > 0 {
                            parsed_or_empty(arguments)
                        } else {
                            entry.arguments
                        },
                    },
                ),
                ..a
            },
            None,
        )
    } else {
        (
            ResponsesStreamView {
                tool_calls: a.tool_calls.push(
                    ToolCallView { id, name, arguments: parsed_or_empty(arguments) },
                ),
                ..a
            },
            Some(
                StreamEventView::ToolCallDelta {
                    index: low_u32_of(a.tool_calls.len()),
                    id,
                    name,
                    arguments,
                },
            ),
        )
    }
}

/// What a payload does: the state after it, and its event.
pub open spec fn responses_step(a: ResponsesStreamView, v: JsonView) -> (
    ResponsesStreamView,
    Option<StreamEventView>,
) {
    let kind = text_or(v.at("type"@), ""@);
    if kind == "response.output_item.added"@ {
        responses_item_added(a, v.at("item"@))
    } else if kind == "response.output_text.delta"@ {
        let s = text_or(v.at("delta"@), ""@);
        (ResponsesStreamView { content: a.content + s, ..a }, delta_event(s))
    } else if kind == "response.reasoning_text.delta"@ || kind == "response.reasoning.delta"@ {
        let s = text_or(v.at("delta"@), ""@);
        (ResponsesStreamView { reasoning: a.reasoning + s, ..a }, thinking_event(s))
    } else if kind == "response.function_call_arguments.delta"@ {
        responses_arguments(
            a,
            text_or(v.at("item_id"@), ""@),
            text_or(v.at("call_id"@), ""@),
            text_or(v.at("delta"@), ""@),
        )
    } else if kind == "response.function_call_arguments.done"@ {
        (responses_arguments_done(a, v), None)
    } else if kind == "response.output_item.done"@ {
        responses_item_done(a, v.at("item"@))
    } else if kind == "response.completed"@ {
        let usage = v.at("response"@).at("usage"@);
        (
            ResponsesStreamView {
                usage: Usage {
                    prompt_tokens: updated(a.usage.prompt_tokens, usage.at("input_tokens"@)),
                    completion_tokens: updated(
                        a.usage.completion_tokens,
                        usage.at("output_tokens"@),
                    ),
                    total_tokens: updated(a.usage.total_tokens, usage.at("total_tokens"@)),
                    ..a.usage
                },
                ..a
            },
            None,
        )
    } else {
        (a, None)
    }
}

/// The response that a state stands for.
pub open spec fn responses_response(
    a: ResponsesStreamView,
    model: Seq<char>,
    duration_ms: u64,
) -> ResponseView {
    streamed_response(
        a.content,
        unless_empty(a.reasoning),
        "stop"@,
        a.usage,
        a.tool_calls.map_values(settled_call()),
        model,
        duration_ms,
    )
}

impl OpenAiResponsesAccumulator {
    /// The state before any payload.
    pub fn new() -> (r: Self)
        ensures
            r.deep_view() == responses_start(),
            items_are_known(r.deep_view()),
    {
        OpenAiResponsesAccumulator {
            content: String::new(),
            reasoning: String::new(),
            usage: Usage {
                prompt_tokens: 0,
                completion_tokens: 0,
                total_tokens: 0,
                reasoning_tokens: 0,
            },
            tool_calls: seqs::none(),
            tool_call_by_item_id: Lookup::new(),
        }
    }

    fn push_call(&mut self, item: &str, call: ToolCall)
        requires
            items_are_known(old(self).deep_view()),
        ensures
            final(self).deep_view() == with_call(old(self).deep_view(), item@, call.deep_view()),
            items_are_known(final(self).deep_view()),
    {
        let index = self.tool_calls.len();
        seqs::put(&mut self.tool_calls, call);
        if !item.is_empty() {
            self.tool_call_by_item_id.insert(item, index);
        }
        assert(self.tool_calls.len() <= usize::MAX);
        proof {
            let before = old(self).deep_view();
            let after = self.deep_view();
            assert forall|id: Seq<char>| after.by_item.dom().contains(id) implies (
            #[trigger] after.by_item[id]) < after.tool_calls.len() by {
                if before.by_item.dom().contains(id) {
                    assert(before.by_item[id] < before.tool_calls.len());
                }
            }
        }
    }

    fn add_item(&mut self, item: &Json) -> (r: Option<StreamEvent>)
        requires
            items_are_known(old(self).deep_view()),
        ensures
            (final(self).deep_view(), r.deep_view()) == responses_item_added(
                old(self).deep_view(),
                item.deep_view(),
            ),
            items_are_known(final(self).deep_view()),
    {
        if protocol::has_type(item, "function_call") {
            let id = protocol::str_or(item.at("call_id"), "");
            let name = protocol::str_or(item.at("name"), "");
            let index = protocol::low_u32(self.tool_calls.len());
            let key = protocol::str_or(item.at("id"), "");
            let call = ToolCall {
                id: id.clone(),
                name: name.clone(),
                arguments: Json::Str(protocol::str_or(item.at("arguments"), "")),
            };
            self.push_call(key.as_str(), call);
            Some(StreamEvent::ToolCallDelta { index, id, name, arguments: String::new() })
        } else {
            None
        }
    }

    fn position(&self, item: &str) -> (r: Option<usize>)
        requires
            items_are_known(self.deep_view()),
        ensures
            match r {
                Some(i) => self.deep_view().by_item.dom().contains(item@)
                    && self.deep_view().by_item[item@] == i && i
                    < self.deep_view().tool_calls.len(),
                None => !self.deep_view().by_item.dom().contains(item@),
            },
    {
        match self.tool_call_by_item_id.get(item) {
            Some(i) => {
                assert(self.deep_view().by_item[item@] == *i);
                Some(*i)
            },
            None => None,
        }
    }

    fn grow_call(&mut self, item: &str, call_id: &str, piece: String) -> (r: Option<StreamEvent>)
        requires
            items_are_known(old(self).deep_view()),
        ensures
            (final(self).deep_view(), r.deep_view()) == responses_arguments(
                old(self).deep_view(),
                item@,
                call_id@,
                piece@,
            ),
            items_are_known(final(self).deep_view()),
    {
        if piece.as_str().is_empty() {
            return None;
        }
        let index = match self.position(item) {
            Some(i) => i,
            None => {
                let i = self.tool_calls.len();
                let call = ToolCall {
                    id: call_id.to_owned(),
                    name: String::new(),
                    arguments: Json::Str(String::new()),
                };
                self.push_call(item, call);
                i
            },
        };
        let mut entry = self.tool_calls[index].clone();
        assert(entry.deep_view() == self.deep_view().tool_calls[index as int]);
        if entry.id.as_str().is_empty() {
            entry.id = call_id.to_owned();
        }
        entry.arguments = grow_arguments(&entry.arguments, piece.as_str());
        let event = StreamEvent::ToolCallDelta {
            index: protocol::low_u32(index),
            id: entry.id.clone(),
            name: entry.name.clone(),
            arguments: piece,
        };
        set_call(&mut self.tool_calls, index, entry);
        Some(event)
    }

    fn finish_arguments(&mut self, v: &Json)
        requires
            items_are_known(old(self).deep_view()),
        ensures
            final(self).deep_view() == responses_arguments_done(
                old(self).deep_view(),
                v.deep_view(),
            ),
            items_are_known(final(self).deep_view()),
    {
        let item = protocol::str_or(v.at("item_id"), "");
        if let Some(index) = self.position(item.as_str()) {
            let mut entry = self.tool_calls[index].clone();
            assert(entry.deep_view() == self.deep_view().tool_calls[index as int]);
            if let Some(s) = v.at("arguments").as_str() {
                entry.arguments = Json::text(s);
            }
            set_call(&mut self.tool_calls, index, settle_call(&entry));
        }
    }

    fn finish_item(&mut self, item: &Json) -> (r: Option<StreamEvent>)
        requires
            items_are_known(old(self).deep_view()),
        ensures
            (final(self).deep_view(), r.deep_view()) == responses_item_done(
                old(self).deep_view(),
                item.deep_view(),
            ),
            items_are_known(final(self).deep_view()),
    {
        if !protocol::has_type(item, "function_call") {
            return None;
        }
        let key = protocol::str_or(item.at("id"), "");
        let id = protocol::str_or(item.at("call_id"), "");
        let name = protocol::str_or(item.at("name"), "");
        let arguments = protocol::str_or(item.at("arguments"), "");
        if let Some(index) = self.position(key.as_str()) {
            let mut entry = self.tool_calls[index].clone();
            assert(entry.deep_view() == self.deep_view().tool_calls[index as int]);
            if entry.id.as_str().is_empty() {
                entry.id = id;
            }
            if entry.name.as_str().is_empty() {
                entry.name = name;
            }
            if !arguments.as_str().is_empty() {
                entry.arguments = protocol::parse_or_empty(arguments.as_str());
            }
            set_call(&mut self.tool_calls, index, entry);
            return None;
        }
        let index = protocol::low_u32(self.tool_calls.len());
        seqs::put(
            &mut self.tool_calls,
            ToolCall {
                id: id.clone(),
                name: name.clone(),
                arguments: protocol::parse_or_empty(arguments.as_str()),
            },
        );
        assert(self.tool_calls.len() <= usize::MAX);
        Some(StreamEvent::ToolCallDelta { index, id, name, arguments })
    }

    /// Takes a payload that was read already, and says which event it is.
    pub fn feed_value(&mut self, v: &Json) -> (r: Option<StreamEvent>)
        requires
            items_are_known(old(self).deep_view()),
        ensures
            (final(self).deep_view(), r.deep_view()) == responses_step(
                old(self).deep_view(),
                v.deep_view(),
            ),
            items_are_known(final(self).deep_view()),
    {
        let kind = protocol::str_or(v.at("type"), "");
        let kind = kind.as_str();
        if text::same(kind, "response.output_item.added") {
            self.add_item(v.at("item"))
        } else if text::same(kind, "response.output_text.delta") {
            let s = protocol::str_or(v.at("delta"), "");
            self.content.append(s.as_str());
            delta(s)
        } else if text::same(kind, "response.reasoning_text.delta") || text::same(
            kind,
            "response.reasoning.delta",
        ) {
            let s = protocol::str_or(v.at("delta"), "");
            self.reasoning.append(s.as_str());
            thinking_delta(s)
        } else if text::same(kind, "response.function_call_arguments.delta") {
            let item = protocol::str_or(v.at("item_id"), "");
            let call_id = protocol::str_or(v.at("call_id"), "");
            self.grow_call(
                item.as_str(),
                call_id.as_str(),
                protocol::str_or(v.at("delta"), ""),
            )
        } else if text::same(kind, "response.function_call_arguments.done") {
            self.finish_arguments(v);
            None
        } else if text::same(kind, "response.output_item.done") {
            self.finish_item(v.at("item"))
        } else if text::same(kind, "response.completed") {
            let usage = v.at("response").at("usage");
            self.usage.prompt_tokens = update_count(
                self.usage.prompt_tokens,
                usage.at("input_tokens"),
            );
            self.usage.completion_tokens = update_count(
                self.usage.completion_tokens,
                usage.at("output_tokens"),
            );
            self.usage.total_tokens = update_count(
                self.usage.total_tokens,
                usage.at("total_tokens"),
            );
            None
        } else {
            None
        }
    }

    /// Takes a payload and says which event it is; what is not JSON does nothing.
    pub fn feed(&mut self, json: &str) -> (r: Option<StreamEvent>)
        requires
            items_are_known(old(self).deep_view()),
        ensures
            (final(self).deep_view(), r.deep_view()) == (match parsed_json(json@) {
                Some(v) => responses_step(old(self).deep_view(), v),
                None => (old(self).deep_view(), None),
            }),
            items_are_known(final(self).deep_view()),
    {
        match json::parse(json) {
            Some(v) => self.feed_value(&v),
            None => None,
        }
    }

    /// The response that was put together.
    pub fn into_response(self, model: &str, duration_ms: u64) -> (r: IntermediateResponse)
        ensures
            r.deep_view() == responses_response(self.deep_view(), model@, duration_ms),
    {
        let tool_calls = seqs::map_all(&self.tool_calls, settle_call, Ghost(settled_call()));
        response_of_stream(
            self.content,
            some_unless_empty(self.reasoning),
            "stop".to_owned(),
            self.usage,
            tool_calls,
            model,
            duration_ms,
        )
    }
}

// ---------------------------------------------------------------------------
// Gemini
// ---------------------------------------------------------------------------

/// A chunk with one content of the model.
pub open spec fn gemini_chunk(parts: Seq<JsonView>, finish_reason: Option<JsonView>) -> Map<
    Seq<char>,
    JsonView,
> {
    no_members().insert(
        "candidates"@,
        JsonView::Array(
            seq![
                JsonView::Object(
                    with_some(
                        no_members().insert(
                            "content"@,
                            google_genai::role_and_parts("model"@, parts),
                        ),
                        "finishReason"@,
                        finish_reason,
                    ),
                ),
            ],
        ),
    )
}

/// The arguments that a text holds, or the text itself where it is not JSON.
pub open spec fn arguments_or_text(s: Seq<char>) -> JsonView {
    match parsed_json(s) {
        Some(v) => v,
        None => JsonView::Str(s),
    }
}

/// The payload for an event; thoughts have none.
pub open spec fn gemini_payload(event: StreamEventView) -> Option<JsonView> {
    match event {
        StreamEventView::Delta(s) => Some(
            JsonView::Object(gemini_chunk(seq![google_genai::text_part(s)], None)),
        ),
        StreamEventView::ThinkingDelta(_) => None,
        StreamEventView::ToolCallDelta { id, name, arguments, .. } => Some(
            JsonView::Object(
                gemini_chunk(
                    seq![
                        JsonView::Object(
                            no_members().insert(
                                "functionCall"@,
                                JsonView::Object(
                                    no_members().insert("id"@, JsonView::Str(id)).insert(
                                        "name"@,
                                        JsonView::Str(name),
                                    ).insert("args"@, arguments_or_text(arguments)),
                                ),
                            ),
                        ),
                    ],
                    None,
                ),
            ),
        ),
        StreamEventView::Done(ir) => Some(
            JsonView::Object(
                gemini_chunk(
                    (if ir.content.len() > 0 {
                        seq![google_genai::text_part(ir.content)]
                    } else {
                        Seq::empty()
                    }) + ir.tool_calls.map_values(google_genai::call_out()),
                    Some(JsonView::Str(ir.finish_reason)),
                ).insert(
                    "usageMetadata"@,
                    JsonView::Object(
                        no_members().insert(
                            "promptTokenCount"@,
                            int_view(ir.usage.prompt_tokens as int),
                        ).insert(
                            "candidatesTokenCount"@,
                            int_view(ir.usage.completion_tokens as int),
                        ).insert("totalTokenCount"@, int_view(ir.usage.total_tokens as int)),
                    ),
                ),
            ),
        ),
    }
}

fn chunk_of_parts(parts: Vec<Json>, finish_reason: Option<Json>) -> (r: JsonMap)
    ensures
        r.deep_view() == gemini_chunk(parts.deep_view(), finish_reason.deep_view()),
{
    let mut candidate = JsonMap::new();
    candidate.insert("content", google_genai::json_of_role_and_parts("model", parts));
    candidate.insert_some("finishReason", finish_reason);
    let mut m = JsonMap::new();
    m.insert("candidates", Json::array(seqs::one(Json::object(candidate))));
    m
}

/// The payload for an event, as a tree; thoughts have none.
pub fn google_event_json(event: &StreamEvent) -> (r: Option<Json>)
    ensures
        r.deep_view() == gemini_payload(event.deep_view()),
{
    match event {
        StreamEvent::Delta(s) => {
            let parts = seqs::one(google_genai::json_of_text_part(s.as_str()));
            Some(Json::object(chunk_of_parts(parts, None)))
        },
        StreamEvent::ThinkingDelta(_) => None,
        StreamEvent::ToolCallDelta { id, name, arguments, .. } => {
            let args = match json::parse(arguments.as_str()) {
                Some(v) => v,
                None => Json::text(arguments.as_str()),
            };
            let mut call = JsonMap::new();
            call.insert_text("id", id.as_str());
            call.insert_text("name", name.as_str());
            call.insert("args", args);
            let mut part = JsonMap::new();
            part.insert("functionCall", Json::object(call));
            let parts = seqs::one(Json::object(part));
            Some(Json::object(chunk_of_parts(parts, None)))
        },
        StreamEvent::Done(ir) => {
            let mut parts: Vec<Json> = seqs::none();
            if !ir.content.as_str().is_empty() {
                parts = seqs::one(google_genai::json_of_text_part(ir.content.as_str()));
            }
            seqs::extend(
                &mut parts,
                seqs::map_all(
                    &ir.tool_calls,
                    google_genai::json_of_plain_call,
                    Ghost(google_genai::call_out()),
                ),
            );
            let mut usage = JsonMap::new();
            usage.insert("promptTokenCount", Json::of_u64(ir.usage.prompt_tokens as u64));
            usage.insert("candidatesTokenCount", Json::of_u64(ir.usage.completion_tokens as u64));
            usage.insert("totalTokenCount", Json::of_u64(ir.usage.total_tokens as u64));
            let mut m = chunk_of_parts(parts, Some(Json::text(ir.finish_reason.as_str())));
            m.insert("usageMetadata", Json::object(usage));
            Some(Json::object(m))
        },
    }
}

/// The payload for an event, as text; that for thoughts is empty. What holds no
/// double-precision number and no reserved member name and is not nested too deep is read
/// back to the payload.
pub fn google_format_sse(event: &StreamEvent, _model: &str) -> (r: Option<String>)
    ensures
        r.deep_view() == Some(
            match gemini_payload(event.deep_view()) {
                Some(payload) => json_text(payload),
                None => Seq::empty(),
            },
        ),
        gemini_payload(event.deep_view()) matches Some(payload) ==> plain_to_depth(payload, 127)
            ==> parsed_json(r->0@) == Some(payload),
{
    match google_event_json(event) {
        Some(payload) => Some(json::to_text(&payload)),
        None => Some(String::new()),
    }
}

/// Puts a Gemini stream together.
#[derive(Debug)]
pub struct GoogleAccumulator {
    pub content: String,
    pub finish_reason: String,
    pub usage: Usage,
    pub tool_calls: Vec<ToolCall>,
}

#[verifier::ext_equal]
pub struct GeminiStreamView {
    pub content: Seq<char>,
    pub finish_reason: Seq<char>,
    pub usage: Usage,
    pub tool_calls: Seq<ToolCallView>,
}

impl DeepView for GoogleAccumulator {
    type V = GeminiStreamView;

    open spec fn deep_view(&self) -> GeminiStreamView {
        GeminiStreamView {
            content: self.content@,
            finish_reason: self.finish_reason@,
            usage: self.usage,
            tool_calls: self.tool_calls.deep_view(),
        }
    }
}

/// The state before any payload.
pub open spec fn gemini_start() -> GeminiStreamView {
    GeminiStreamView {
        content: Seq::empty(),
        finish_reason: "STOP"@,
        usage: no_usage(),
        tool_calls: Seq::empty(),
    }
}

/// What a payload does to the end of a stream: the reason for the end and the counts.
pub open spec fn gemini_finish(a: GeminiStreamView, v: JsonView) -> GeminiStreamView {
    let usage = v.at("usageMetadata"@);
    GeminiStreamView {
        finish_reason: text_or(v.at("candidates"@).item(0).at("finishReason"@), a.finish_reason),
        usage: Usage {
            prompt_tokens: updated(a.usage.prompt_tokens, usage.at("promptTokenCount"@)),
            completion_tokens: updated(
                a.usage.completion_tokens,
                usage.at("candidatesTokenCount"@),
            ),
            total_tokens: updated(a.usage.total_tokens, usage.at("totalTokenCount"@)),
            ..a.usage
        },
        ..a
    }
}

/// What a payload does: the state after it, and its event. A function call without an
/// identifier gets the given one.
pub open spec fn gemini_step(a: GeminiStreamView, v: JsonView, fresh: Seq<char>) -> (
    GeminiStreamView,
    Option<StreamEventView>,
) {
    let part = v.at("candidates"@).item(0).at("content"@).at("parts"@).item(0);
    let call = part.at("functionCall"@);
    match filled_text(call.at("name"@)) {
        Some(name) => {
            let id = google_genai::call_id(call, fresh);
            (
                GeminiStreamView {
                    tool_calls: a.tool_calls.push(
                        ToolCallView { id, name, arguments: call.at("args"@) },
                    ),
                    ..a
                },
                Some(
                    StreamEventView::ToolCallDelta {
                        index: low_u32_of(a.tool_calls.len()),
                        id,
                        name,
                        arguments: json_text(call.at("args"@)),
                    },
                ),
            )
        },
        None => match part.at("text"@).as_str() {
            Some(s) => (GeminiStreamView { content: a.content + s, ..a }, delta_event(s)),
            None => (gemini_finish(a, v), None),
        },
    }
}

/// Whether a state and an event are those after a payload, with a fresh identifier
/// where one is needed.
pub open spec fn is_gemini_step(
    a: GeminiStreamView,
    v: JsonView,
    after: GeminiStreamView,
    event: Option<StreamEventView>,
) -> bool {
    exists|fresh: Seq<char>| #[trigger]
        google_genai::is_fresh_id(fresh) && (after, event) == gemini_step(a, v, fresh)
}

/// The response that a state stands for.
pub open spec fn gemini_response(
    a: GeminiStreamView,
    model: Seq<char>,
    duration_ms: u64,
) -> ResponseView {
    streamed_response(
        a.content,
        None,
        a.finish_reason,
        a.usage,
        a.tool_calls,
        model,
        duration_ms,
    )
}

impl GoogleAccumulator {
    /// The state before any payload.
    pub fn new() -> (r: Self)
        ensures
            r.deep_view() == gemini_start(),
    {
        GoogleAccumulator {
            content: String::new(),
            finish_reason: "STOP".to_owned(),
            usage: Usage {
                prompt_tokens: 0,
                completion_tokens: 0,
                total_tokens: 0,
                reasoning_tokens: 0,
            },
            tool_calls: seqs::none(),
        }
    }

    /// Takes a payload that was read already, and says which event it is. A function
    /// call without an identifier gets the given one.
    pub fn feed_value(&mut self, v: &Json, fresh: &str) -> (r: Option<StreamEvent>)
        ensures
            (final(self).deep_view(), r.deep_view()) == gemini_step(
                old(self).deep_view(),
                v.deep_view(),
                fresh@,
            ),
    {
        let candidate = v.at("candidates").item(0);
        let part = candidate.at("content").at("parts").item(0);
        let call = part.at("functionCall");
        if let Some(name) = protocol::filled_str(call.at("name")) {
            let id = google_genai::id_of_call(call, fresh);
            let index = protocol::low_u32(self.tool_calls.len());
            let args = call.at("args").clone();
            let arguments = json::to_text(&args);
            seqs::put(
                &mut self.tool_calls,
                ToolCall { id: id.clone(), name: name.clone(), arguments: args },
            );
            return Some(StreamEvent::ToolCallDelta { index, id, name, arguments });
        }
        if let Some(s) = part.at("text").as_str() {
            self.content.append(s);
            return delta(s.to_owned());
        }
        if let Some(s) = candidate.at("finishReason").as_str() {
            self.finish_reason = s.to_owned();
        }
        let usage = v.at("usageMetadata");
        self.usage.prompt_tokens = update_count(
            self.usage.prompt_tokens,
            usage.at("promptTokenCount"),
        );
        self.usage.completion_tokens = update_count(
            self.usage.completion_tokens,
            usage.at("candidatesTokenCount"),
        );
        self.usage.total_tokens = update_count(
            self.usage.total_tokens,
            usage.at("totalTokenCount"),
        );
        None
    }

    /// Takes a payload and says which event it is; what is not JSON does nothing. A
    /// function call without an identifier gets a fresh one.
    pub fn feed(&mut self, json: &str) -> (r: Option<StreamEvent>)
        ensures
            match parsed_json(json@) {
                Some(v) => is_gemini_step(
                    old(self).deep_view(),
                    v,
                    final(self).deep_view(),
                    r.deep_view(),
                ),
                None => final(self).deep_view() == old(self).deep_view() && r is None,
            },
    {
        match json::parse(json) {
            Some(v) => {
                let fresh = google_genai::synthesize_tool_call_id();
                let r = self.feed_value(&v, fresh.as_str());
                assert(google_genai::is_fresh_id(fresh@));
                r
            },
            None => None,
        }
    }

    /// The response that was put together.
    pub fn into_response(self, model: &str, duration_ms: u64) -> (r: IntermediateResponse)
        ensures
            r.deep_view() == gemini_response(self.deep_view(), model@, duration_ms),
    {
        response_of_stream(
            self.content,
            None,
            self.finish_reason,
            self.usage,
            self.tool_calls,
            model,
            duration_ms,
        )
    }
}

} // verus!
