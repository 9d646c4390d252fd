//! The tools that the panel offers to its clients.

pub mod bench;
pub mod diff;
pub mod fusion;
pub mod laws;
pub mod session;

use vstd::prelude::*;

use crate::json::{no_members, texts_view, Json, JsonMap, JsonView};
use crate::protocol;
use crate::protocol::{IntermediateRequest, RequestView, Role, Single, SingleView};
use crate::seqs;
use crate::text;

verus! {

// ---------------------------------------------------------------------------
// Requests
// ---------------------------------------------------------------------------

/// A prompt with its framing, if the framing says something.
pub open spec fn framed(prompt: Seq<char>, system: Option<Seq<char>>) -> Seq<char> {
    match system {
        Some(s) => if text::trim_of(s).len() > 0 {
            "# Domain Framing\n"@ + text::trim_of(s) + "\n\n# Task\n"@ + prompt
        } else {
            prompt
        },
        None => prompt,
    }
}

/// A prompt with its framing, if the framing says something.
pub fn frame_prompt(prompt: &str, system: &Option<String>) -> (r: String)
    ensures
        r@ == framed(prompt@, system.deep_view()),
{
    if let Some(s) = system {
        let s = text::trim(s.as_str());
        if !s.as_str().is_empty() {
            let mut r = text::concat("# Domain Framing\n", s.as_str());
            r.append("\n\n# Task\n");
            r.append(prompt);
            return r;
        }
    }
    prompt.to_owned()
}

/// The request that asks the panel for an answer to a text.
pub open spec fn panel_request(content: Seq<char>, temperature: SingleView) -> RequestView {
    RequestView {
        messages: seq![protocol::plain_message(Role::User, content)],
        max_tokens: 2048,
        temperature: Some(temperature),
        top_p: None,
        stop: Seq::empty(),
        api_key: None,
        tools: Seq::empty(),
        tool_choice: None,
        parallel_tool_calls: None,
        thinking: None,
        session_id: None,
        system: None,
        stream: false,
        metadata: Map::empty(),
        native: Map::empty(),
    }
}

/// The request that asks the panel for an answer to a text.
pub fn request_for(content: String, temperature: Single) -> (r: IntermediateRequest)
    ensures
        r.deep_view() == panel_request(content@, temperature.deep_view()),
{
    IntermediateRequest {
        messages: seqs::one(protocol::message_of(Role::User, content)),
        max_tokens: 2048,
        temperature: Some(temperature),
        top_p: None,
        stop: seqs::none(),
        api_key: None,
        tools: seqs::none(),
        tool_choice: None,
        parallel_tool_calls: None,
        thinking: None,
        session_id: None,
        system: None,
        stream: false,
        metadata: JsonMap::new(),
        native: JsonMap::new(),
    }
}

// ---------------------------------------------------------------------------
// Tools
// ---------------------------------------------------------------------------

/// The tools.
#[derive(Clone, Copy, Debug, PartialEq, Eq, Structural)]
pub enum PanelTool {
    Fusion,
    Diff,
    Bench,
    Session,
}

/// The tool of a name.
pub open spec fn tool_of(name: Seq<char>) -> Option<PanelTool> {
    if name == "fusion"@ {
        Some(PanelTool::Fusion)
    } else if name == "fusion_diff"@ {
        Some(PanelTool::Diff)
    } else if name == "fusion_bench"@ {
        Some(PanelTool::Bench)
    } else if name == "fusion_session"@ {
        Some(PanelTool::Session)
    } else {
        None
    }
}

/// The tool of a name, or what is wrong with the name.
pub fn tool_named(name: &str) -> (r: Result<PanelTool, String>)
    ensures
        match tool_of(name@) {
            Some(tool) => r == Ok::<PanelTool, String>(tool),
            None => r matches Err(fault) && fault@ == "Unknown tool: "@ + name@,
        },
{
    if text::same(name, "fusion") {
        Ok(PanelTool::Fusion)
    } else if text::same(name, "fusion_diff") {
        Ok(PanelTool::Diff)
    } else if text::same(name, "fusion_bench") {
        Ok(PanelTool::Bench)
    } else if text::same(name, "fusion_session") {
        Ok(PanelTool::Session)
    } else {
        Err(text::concat("Unknown tool: ", name))
    }
}

/// What clients are told about the panel.
pub fn instructions() -> (r: &'static str)
    ensures
        r@
            == "OpenFusion is an MCP-first multi-model advisory panel. Use fusion for normal work: first abstract the concrete repository or file-tree problem into a self-contained, project-independent prompt, then send that prompt to OpenFusion workers. Do not pass raw repo dumps, local file trees, or client tool instructions. judge_mode=false returns raw worker opinions for the calling AI client to synthesize and implement; judge_mode=true lets OpenFusion run its configured judge and return a concise synthesis. fusion_diff returns raw worker outputs only; fusion_bench reports measurable success, latency, and cost only."@,
{
    "OpenFusion is an MCP-first multi-model advisory panel. Use fusion for normal work: first abstract the concrete repository or file-tree problem into a self-contained, project-independent prompt, then send that prompt to OpenFusion workers. Do not pass raw repo dumps, local file trees, or client tool instructions. judge_mode=false returns raw worker opinions for the calling AI client to synthesize and implement; judge_mode=true lets OpenFusion run its configured judge and return a concise synthesis. fusion_diff returns raw worker outputs only; fusion_bench reports measurable success, latency, and cost only."
}

/// What clients are told about a tool.
#[derive(Debug)]
pub struct ToolInfo {
    pub name: &'static str,
    pub description: &'static str,
    pub schema: JsonMap,
}

#[verifier::ext_equal]
pub struct ToolInfoView {
    pub name: Seq<char>,
    pub description: Seq<char>,
    pub schema: Map<Seq<char>, JsonView>,
}

impl DeepView for ToolInfo {
    type V = ToolInfoView;

    open spec fn deep_view(&self) -> ToolInfoView {
        ToolInfoView {
            name: self.name@,
            description: self.description@,
            schema: self.schema.deep_view(),
        }
    }
}

/// A field of a type.
pub open spec fn typed(kind: Seq<char>) -> JsonView {
    JsonView::Object(no_members().insert("type"@, JsonView::Str(kind)))
}

/// A field of a type, with a description.
pub open spec fn field(kind: Seq<char>, description: Seq<char>) -> JsonView {
    JsonView::Object(
        no_members().insert("type"@, JsonView::Str(kind)).insert(
            "description"@,
            JsonView::Str(description),
        ),
    )
}

/// A field that holds a list of items, with a description.
pub open spec fn list_field(description: Seq<char>, items: JsonView) -> JsonView {
    JsonView::Object(
        no_members().insert("type"@, JsonView::Str("array"@)).insert(
            "description"@,
            JsonView::Str(description),
        ).insert("items"@, items),
    )
}

/// A field that holds a list of texts, with a description.
pub open spec fn texts_field(description: Seq<char>) -> JsonView {
    list_field(description, typed("string"@))
}

/// The schema of an object with some fields, of which some are required.
pub open spec fn schema_with(fields: Map<Seq<char>, JsonView>, required: Seq<Seq<char>>) -> Map<
    Seq<char>,
    JsonView,
> {
    no_members().insert("type"@, JsonView::Str("object"@)).insert(
        "properties"@,
        JsonView::Object(fields),
    ).insert("required"@, texts_view(required))
}

/// The fields of a profile.
pub open spec fn profile_fields() -> Map<Seq<char>, JsonView> {
    no_members().insert("label"@, typed("string"@)).insert(
        "workers"@,
        texts_field("Worker names or model ids. Empty or omitted means all configured workers."@),
    ).insert(
        "judge_mode"@,
        field("boolean"@, "Whether this profile includes judge synthesis."@),
    )
}

/// A field that holds a list of profiles, with a description.
pub open spec fn profiles_field(description: Seq<char>) -> JsonView {
    list_field(description, JsonView::Object(schema_with(profile_fields(), seq!["label"@])))
}

/// The fields that `fusion` takes.
pub open spec fn fusion_fields() -> Map<Seq<char>, JsonView> {
    no_members().insert(
        "prompt"@,
        field("string"@, "Required. A self-contained abstract problem statement. Do not include raw file trees, large repo dumps, local paths as required context, or AI-client tool instructions."@),
    ).insert(
        "system"@,
        field("string"@, "Optional project-independent domain framing, prepended to the worker-visible prompt."@),
    ).insert(
        "judge_mode"@,
        field("boolean"@, "false: return raw worker outputs for the calling AI client to synthesize. true: run OpenFusion's judge and return a concise synthesis."@),
    ).insert(
        "panel_override"@,
        texts_field("Optional worker names or model ids to use instead of all configured workers."@),
    ).insert(
        "save_session"@,
        field("boolean"@, "Whether to archive this run."@),
    )
}

/// The fields that `fusion_diff` takes.
pub open spec fn fusion_diff_fields() -> Map<Seq<char>, JsonView> {
    no_members().insert(
        "prompt"@,
        field("string"@, "The abstract prompt to analyze."@),
    ).insert(
        "system"@,
        field("string"@, "Optional project-independent domain framing, prepended to the worker-visible prompt."@),
    ).insert(
        "panel_override"@,
        texts_field("Optional worker names or model ids to use instead of all configured workers."@),
    ).insert(
        "save_session"@,
        field("boolean"@, "Whether to archive this run."@),
    )
}

/// The fields that `fusion_bench` takes.
pub open spec fn fusion_bench_fields() -> Map<Seq<char>, JsonView> {
    no_members().insert(
        "prompt"@,
        field("string"@, "The abstract prompt to benchmark."@),
    ).insert(
        "system"@,
        field("string"@, "Optional project-independent domain framing, prepended to the prompt."@),
    ).insert(
        "runs"@,
        field("integer"@, "Runs per config. Defaults to 1."@),
    ).insert(
        "configs"@,
        profiles_field("Fusion profiles to test."@),
    )
}

/// The fields that `fusion_session` takes.
pub open spec fn fusion_session_fields() -> Map<Seq<char>, JsonView> {
    no_members().insert(
        "action"@,
        field("string"@, "list | get | export | delete | replay"@),
    ).insert(
        "session_id"@,
        field("string"@, "Required for get/export/delete/replay."@),
    ).insert(
        "query"@,
        field("string"@, "Search query for list action."@),
    ).insert(
        "limit"@,
        field("integer"@, "Max results for list. Defaults to 20."@),
    ).insert(
        "export_format"@,
        field("string"@, "json or markdown. Defaults to markdown."@),
    )
}

/// What clients are told about the tools.
pub open spec fn catalog() -> Seq<ToolInfoView> {
    seq![
        ToolInfoView {
            name: "fusion"@,
            description: "Primary OpenFusion tool. Send an abstract, self-contained, project-independent problem statement to multiple advisory workers. judge_mode=false returns raw worker outputs; judge_mode=true runs OpenFusion's configured judge."@,
            schema: schema_with(fusion_fields(), seq!["prompt"@]),
        },
        ToolInfoView {
            name: "fusion_diff"@,
            description: "Send a prompt to workers and return raw model outputs plus measurable metadata only. No semantic consensus, disagreement, or quality inference is performed."@,
            schema: schema_with(fusion_diff_fields(), seq!["prompt"@]),
        },
        ToolInfoView {
            name: "fusion_bench"@,
            description: "Run the same prompt through multiple fusion profiles, returning measurable success, latency, and reported cost. It does not claim to score answer quality."@,
            schema: schema_with(fusion_bench_fields(), seq!["prompt"@, "configs"@]),
        },
        ToolInfoView {
            name: "fusion_session"@,
            description: "Manage fusion session archives. Actions: list, get, export, delete, replay. Replay reruns the archived prompt with the original judge_mode and archived worker panel when possible."@,
            schema: schema_with(fusion_session_fields(), seq!["action"@]),
        },
    ]
}

fn json_of_type(kind: &str) -> (r: Json)
    ensures
        r.deep_view() == typed(kind@),
{
    let mut m = JsonMap::new();
    m.insert_text("type", kind);
    Json::object(m)
}

fn json_of_field(kind: &str, description: &str) -> (r: Json)
    ensures
        r.deep_view() == field(kind@, description@),
{
    let mut m = JsonMap::new();
    m.insert_text("type", kind);
    m.insert_text("description", description);
    Json::object(m)
}

fn json_of_list_field(description: &str, items: Json) -> (r: Json)
    ensures
        r.deep_view() == list_field(description@, items.deep_view()),
{
    let mut m = JsonMap::new();
    m.insert_text("type", "array");
    m.insert_text("description", description);
    m.insert("items", items);
    Json::object(m)
}

fn json_of_texts_field(description: &str) -> (r: Json)
    ensures
        r.deep_view() == texts_field(description@),
{
    json_of_list_field(description, json_of_type("string"))
}

fn object_schema(fields: JsonMap, required: &Vec<String>) -> (r: JsonMap)
    ensures
        r.deep_view() == schema_with(fields.deep_view(), required.deep_view()),
{
    let mut m = JsonMap::new();
    m.insert_text("type", "object");
    m.insert("properties", Json::object(fields));
    m.insert("required", Json::texts(required));
    m
}

fn json_of_profiles_field(description: &str) -> (r: Json)
    ensures
        r.deep_view() == profiles_field(description@),
{
    let mut m = JsonMap::new();
    m.insert("label", json_of_type("string"));
    m.insert(
        "workers",
        json_of_texts_field(
            "Worker names or model ids. Empty or omitted means all configured workers.",
        ),
    );
    m.insert(
        "judge_mode",
        json_of_field("boolean", "Whether this profile includes judge synthesis."),
    );
    let required: Vec<String> = seqs::one("label".to_owned());
    json_of_list_field(description, Json::object(object_schema(m, &required)))
}

fn json_of_fusion_fields() -> (m: JsonMap)
    ensures
        m.deep_view() == fusion_fields(),
{
    let mut m = JsonMap::new();
    m.insert(
        "prompt",
        json_of_field("string", "Required. A self-contained abstract problem statement. Do not include raw file trees, large repo dumps, local paths as required context, or AI-client tool instructions."),
    );
    m.insert(
        "system",
        json_of_field("string", "Optional project-independent domain framing, prepended to the worker-visible prompt."),
    );
    m.insert(
        "judge_mode",
        json_of_field("boolean", "false: return raw worker outputs for the calling AI client to synthesize. true: run OpenFusion's judge and return a concise synthesis."),
    );
    m.insert(
        "panel_override",
        json_of_texts_field("Optional worker names or model ids to use instead of all configured workers."),
    );
    m.insert(
        "save_session",
        json_of_field("boolean", "Whether to archive this run."),
    );
    m
}

fn json_of_fusion_diff_fields() -> (m: JsonMap)
    ensures
        m.deep_view() == fusion_diff_fields(),
{
    let mut m = JsonMap::new();
    m.insert(
        "prompt",
        json_of_field("string", "The abstract prompt to analyze."),
    );
    m.insert(
        "system",
        json_of_field("string", "Optional project-independent domain framing, prepended to the worker-visible prompt."),
    );
    m.insert(
        "panel_override",
        json_of_texts_field("Optional worker names or model ids to use instead of all configured workers."),
    );
    m.insert(
        "save_session",
        json_of_field("boolean", "Whether to archive this run."),
    );
    m
}

fn json_of_fusion_bench_fields() -> (m: JsonMap)
    ensures
        m.deep_view() == fusion_bench_fields(),
{
    let mut m = JsonMap::new();
    m.insert(
        "prompt",
        json_of_field("string", "The abstract prompt to benchmark."),
    );
    m.insert(
        "system",
        json_of_field("string", "Optional project-independent domain framing, prepended to the prompt."),
    );
    m.insert(
        "runs",
        json_of_field("integer", "Runs per config. Defaults to 1."),
    );
    m.insert(
        "configs",
        json_of_profiles_field("Fusion profiles to test."),
    );
    m
}

fn json_of_fusion_session_fields() -> (m: JsonMap)
    ensures
        m.deep_view() == fusion_session_fields(),
{
    let mut m = JsonMap::new();
    m.insert(
        "action",
        json_of_field("string", "list | get | export | delete | replay"),
    );
    m.insert(
        "session_id",
        json_of_field("string", "Required for get/export/delete/replay."),
    );
    m.insert(
        "query",
        json_of_field("string", "Search query for list action."),
    );
    m.insert(
        "limit",
        json_of_field("integer", "Max results for list. Defaults to 20."),
    );
    m.insert(
        "export_format",
        json_of_field("string", "json or markdown. Defaults to markdown."),
    );
    m
}

/// What clients are told about the tools.
pub fn tool_catalog() -> (tools: Vec<ToolInfo>)
    ensures
        tools.deep_view() == catalog(),
{
    let mut tools: Vec<ToolInfo> = seqs::none();
    let required: Vec<String> = seqs::one("prompt".to_owned());
    seqs::put(
        &mut tools,
        ToolInfo {
            name: "fusion",
            description: "Primary OpenFusion tool. Send an abstract, self-contained, project-independent problem statement to multiple advisory workers. judge_mode=false returns raw worker outputs; judge_mode=true runs OpenFusion's configured judge.",
            schema: object_schema(json_of_fusion_fields(), &required),
        },
    );
    let required: Vec<String> = seqs::one("prompt".to_owned());
    seqs::put(
        &mut tools,
        ToolInfo {
            name: "fusion_diff",
            description: "Send a prompt to workers and return raw model outputs plus measurable metadata only. No semantic consensus, disagreement, or quality inference is performed.",
            schema: object_schema(json_of_fusion_diff_fields(), &required),
        },
    );
    let mut required: Vec<String> = seqs::one("prompt".to_owned());
    seqs::put(&mut required, "configs".to_owned());
    assert(required.deep_view() =~= seq!["prompt"@, "configs"@]);
    seqs::put(
        &mut tools,
        ToolInfo {
            name: "fusion_bench",
            description: "Run the same prompt through multiple fusion profiles, returning measurable success, latency, and reported cost. It does not claim to score answer quality.",
            schema: object_schema(json_of_fusion_bench_fields(), &required),
        },
    );
    let required: Vec<String> = seqs::one("action".to_owned());
    seqs::put(
        &mut tools,
        ToolInfo {
            name: "fusion_session",
            description: "Manage fusion session archives. Actions: list, get, export, delete, replay. Replay reruns the archived prompt with the original judge_mode and archived worker panel when possible.",
            schema: object_schema(json_of_fusion_session_fields(), &required),
        },
    );
    assert(tools.deep_view() =~= catalog());
    tools
}

/// Whether clients are told about a tool.
pub open spec fn is_offered(tool: PanelTool) -> bool {
    exists|i: int|
        0 <= i < catalog().len() && #[trigger] tool_of(catalog()[i].name) == Some(tool)
}

/// Every tool that clients are told about can be called, and each tool is one of those.
pub proof fn catalog_is_complete()
    ensures
        forall|i: int|
            0 <= i < catalog().len() ==> tool_of((#[trigger] catalog()[i]).name) is Some,
        forall|tool: PanelTool| #[trigger] is_offered(tool),
{
    reveal_strlit("fusion");
    reveal_strlit("fusion_diff");
    reveal_strlit("fusion_bench");
    reveal_strlit("fusion_session");
    assert("fusion"@.len() == 6 && "fusion_diff"@.len() == 11);
    assert("fusion_bench"@.len() == 12 && "fusion_session"@.len() == 14);
    assert forall|tool: PanelTool| #[trigger] is_offered(tool) by {
        let i: int = match tool {
            PanelTool::Fusion => 0,
            PanelTool::Diff => 1,
            PanelTool::Bench => 2,
            PanelTool::Session => 3,
        };
        assert(tool_of(catalog()[i].name) == Some(tool));
    }
}

} // verus!
