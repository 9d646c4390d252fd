//! The HTTP side: what is read from paths, and what is answered.

use vstd::prelude::*;

use crate::config::Config;
use crate::json::{int_view, no_members, Json, JsonMap, JsonView};
use crate::protocol::{no_usage, IntermediateResponse, ResponseView, Usage, Usd};
use crate::seqs;
use crate::text;

verus! {

/// The model that the path of a Gemini request names.
pub open spec fn model_in_path(path: Seq<char>) -> Option<Seq<char>> {
    match text::strip_prefix_of(path, "models/"@) {
        Some(rest) => match text::strip_suffix_of(rest, ":generateContent"@) {
            Some(model) => Some(model),
            None => text::strip_suffix_of(rest, ":streamGenerateContent"@),
        },
        None => None,
    }
}

/// The model that the path of a Gemini request names, or what is wrong with the path.
pub fn google_model(path: &str) -> (r: Result<String, String>)
    ensures
        match model_in_path(path@) {
            Some(model) => r matches Ok(s) && s@ == model,
            None => r matches Err(fault) && fault@ == "Invalid Google GenAI path: "@ + path@,
        },
{
    if let Some(rest) = text::strip_prefix(path, "models/") {
        if let Some(model) = text::strip_suffix(rest.as_str(), ":generateContent") {
            return Ok(model);
        }
        if let Some(model) = text::strip_suffix(rest.as_str(), ":streamGenerateContent") {
            return Ok(model);
        }
    }
    Err(text::concat("Invalid Google GenAI path: ", path))
}

/// The path of a model is read back to the model.
pub proof fn model_path_is_read_back(model: Seq<char>)
    ensures
        model_in_path("models/"@ + model + ":generateContent"@) == Some(model),
{
    let p = "models/"@;
    let q = ":generateContent"@;
    let path = p + model + q;
    assert(path.subrange(0, p.len() as int) =~= p);
    let rest = path.skip(p.len() as int);
    assert(rest =~= model + q);
    assert(rest.subrange(rest.len() - q.len(), rest.len() as int) =~= q);
    assert(rest.take(rest.len() - q.len()) =~= model);
}

/// The response that a synthesis is sent as.
pub open spec fn synthesis_response(
    synthesis: Option<Seq<char>>,
    finish_reason: Seq<char>,
    cost_usd: Usd,
    duration_ms: u64,
    model: Seq<char>,
) -> ResponseView {
    ResponseView {
        id: None,
        content: match synthesis {
            Some(s) => s,
            None => Seq::empty(),
        },
        status: None,
        finish_reason,
        usage: no_usage(),
        cost_usd,
        duration_ms,
        model,
        tool_calls: Seq::empty(),
        thinking: None,
        metadata: Map::empty(),
        native: Map::empty(),
    }
}

/// The response that a synthesis is sent as.
pub fn response_of_synthesis(
    synthesis: Option<String>,
    finish_reason: &str,
    cost_usd: Usd,
    duration_ms: u64,
    model: &str,
) -> (r: IntermediateResponse)
    ensures
        r.deep_view() == synthesis_response(
            synthesis.deep_view(),
            finish_reason@,
            cost_usd,
            duration_ms,
            model@,
        ),
{
    let content = match synthesis {
        Some(s) => s,
        None => String::new(),
    };
    IntermediateResponse {
        id: None,
        content,
        status: None,
        finish_reason: finish_reason.to_owned(),
        usage: Usage {
            prompt_tokens: 0,
            completion_tokens: 0,
            total_tokens: 0,
            reasoning_tokens: 0,
        },
        cost_usd,
        duration_ms,
        model: model.to_owned(),
        tool_calls: seqs::none(),
        thinking: None,
        metadata: JsonMap::new(),
        native: JsonMap::new(),
    }
}

/// What is answered when someone asks whether the server is well.
#[derive(Clone, Copy, Debug)]
pub struct HealthResponse {
    pub status: &'static str,
    pub version: &'static str,
    pub name: &'static str,
}

/// What is answered when someone asks whether the server is well.
pub fn health_check(version: &'static str) -> (r: HealthResponse)
    ensures
        r.status@ == "ok"@,
        r.version@ == version@,
        r.name@ == "openfusion"@,
{
    HealthResponse { status: "ok", version, name: "openfusion" }
}

impl HealthResponse {
    /// The answer as JSON.
    pub fn to_json(&self) -> (r: Json)
        ensures
            r.deep_view() == JsonView::Object(
                no_members().insert("status"@, JsonView::Str(self.status@)).insert(
                    "version"@,
                    JsonView::Str(self.version@),
                ).insert("name"@, JsonView::Str(self.name@)),
            ),
    {
        let mut m = JsonMap::new();
        m.insert_text("status", self.status);
        m.insert_text("version", self.version);
        m.insert_text("name", self.name);
        Json::object(m)
    }
}

/// What is answered when someone asks what the server has done.
#[derive(Debug)]
pub struct MetricsResponse {
    pub uptime_secs: u64,
    pub request_count: u64,
    pub fusion_name: String,
    pub worker_count: usize,
    pub judge_model: String,
}

/// What is answered when someone asks what the server has done.
pub fn metrics(config: &Config, uptime_secs: u64, request_count: u64) -> (r: MetricsResponse)
    ensures
        r.uptime_secs == uptime_secs,
        r.request_count == request_count,
        r.fusion_name@ == config.fusion.name@,
        r.worker_count == config.workers@.len(),
        r.judge_model@ == config.judge.model@,
{
    MetricsResponse {
        uptime_secs,
        request_count,
        fusion_name: config.fusion.name.clone(),
        worker_count: config.workers.len(),
        judge_model: config.judge.model.clone(),
    }
}

impl MetricsResponse {
    /// The answer as JSON.
    pub fn to_json(&self) -> (r: Json)
        ensures
            r.deep_view() == JsonView::Object(
                no_members().insert("uptime_secs"@, int_view(self.uptime_secs as int)).insert(
                    "request_count"@,
                    int_view(self.request_count as int),
                ).insert("fusion_name"@, JsonView::Str(self.fusion_name@)).insert(
                    "worker_count"@,
                    int_view(self.worker_count as int),
                ).insert("judge_model"@, JsonView::Str(self.judge_model@)),
            ),
    {
        let mut m = JsonMap::new();
        m.insert("uptime_secs", Json::of_u64(self.uptime_secs));
        m.insert("request_count", Json::of_u64(self.request_count));
        m.insert_text("fusion_name", self.fusion_name.as_str());
        m.insert("worker_count", Json::of_u64(self.worker_count as u64));
        m.insert_text("judge_model", self.judge_model.as_str());
        Json::object(m)
    }
}

/// The path of a model that is to be streamed is read back to the model, too; a path that
/// is of no model names none.
pub proof fn model_paths_name_the_model(model: Seq<char>, path: Seq<char>)
    ensures
        model_in_path("models/"@ + model + ":streamGenerateContent"@) == Some(model),
        !text::starts_with_of(path, "models/"@) ==> model_in_path(path) is None,
        model_in_path(path) matches Some(m) ==> path == "models/"@ + m + ":generateContent"@
            || path == "models/"@ + m + ":streamGenerateContent"@,
{
    let p = "models/"@;
    let q = ":streamGenerateContent"@;
    let all = p + model + q;
    assert(all.subrange(0, p.len() as int) =~= p);
    let rest = all.skip(p.len() as int);
    assert(rest =~= model + q);
    assert(rest.subrange(rest.len() - q.len(), rest.len() as int) =~= q);
    assert(rest.take(rest.len() - q.len()) =~= model);
    reveal_strlit(":streamGenerateContent");
    reveal_strlit(":generateContent");
    if text::ends_with_of(rest, ":generateContent"@) {
        let tail = rest.subrange(rest.len() - 16, rest.len() as int);
        assert(tail[0] == q[6]);
        assert(":generateContent"@[0] == ':');
        assert(q[6] == 'm');
    }
    if let Some(m) = model_in_path(path) {
        let tail = path.skip(p.len() as int);
        assert(path =~= p + tail);
        let g = ":generateContent"@;
        if text::ends_with_of(tail, g) {
            assert(tail =~= m + g);
            assert(p + (m + g) =~= p + m + g);
        } else {
            assert(tail =~= m + q);
            assert(p + (m + q) =~= p + m + q);
        }
    }
}

/// A synthesis is sent as the text of a response, under the model, with the reason for its
/// end, its cost and its duration; without one the text is empty.
pub proof fn synthesis_is_the_answer(
    synthesis: Option<Seq<char>>,
    finish_reason: Seq<char>,
    cost_usd: Usd,
    duration_ms: u64,
    model: Seq<char>,
)
    ensures
        ({
            let r = synthesis_response(synthesis, finish_reason, cost_usd, duration_ms, model);
            &&& synthesis matches Some(s) ==> r.content == s
            &&& synthesis is None ==> r.content.len() == 0
            &&& r.finish_reason == finish_reason
            &&& r.cost_usd == cost_usd
            &&& r.duration_ms == duration_ms
            &&& r.model == model
            &&& r.id is None
            &&& r.status is None
            &&& r.tool_calls.len() == 0
            &&& r.thinking is None
            &&& r.usage.prompt_tokens == 0 && r.usage.completion_tokens == 0
                && r.usage.total_tokens == 0
        }),
{
}

} // verus!
