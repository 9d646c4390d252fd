//! What holds of the tools: the panel is asked what the caller asks, with what the caller
//! says about it, and the caller is answered what the workers said.

use vstd::prelude::*;

use crate::engine;
use crate::engine::session::SessionView;
use crate::engine::FusionResultView;
use crate::error::ErrorView;
use crate::json::JsonView;
use crate::mcp;
use crate::mcp::bench;
use crate::mcp::diff;
use crate::mcp::fusion;
use crate::mcp::session;
use crate::mcp::session::StepView;
use crate::protocol::request_laws::{is_plain, picks_grow};
use crate::protocol::{RequestView, Role, SingleView, Usd, WorkerResultView};
use crate::text;
use crate::text_laws::{occurs_in_itself, occurs_in_more};

verus! {

// ---------------------------------------------------------------------------
// What the panel is asked
// ---------------------------------------------------------------------------

/// Whether a request asks the panel for an answer to a text: as the one message of a
/// user, with the temperature of the panel and its limit, and with nothing else.
pub open spec fn asks(ir: RequestView, content: Seq<char>, temperature: SingleView) -> bool {
    &&& ir.messages.len() == 1
    &&& is_plain(ir.messages[0], Role::User, content)
    &&& ir.max_tokens == 2048
    &&& ir.temperature == Some(temperature)
    &&& ir.top_p is None
    &&& ir.stop.len() == 0
    &&& ir.api_key is None
    &&& ir.tools.len() == 0
    &&& ir.tool_choice is None
    &&& ir.parallel_tool_calls is None
    &&& ir.thinking is None
    &&& ir.session_id is None
    &&& ir.system is None
    &&& !ir.stream
    &&& ir.metadata == Map::<Seq<char>, JsonView>::empty()
    &&& ir.native == Map::<Seq<char>, JsonView>::empty()
}

/// A prompt is asked as it is, or, where there is a framing that says something, after
/// that framing.
pub proof fn framing_comes_before_the_prompt(prompt: Seq<char>, system: Option<Seq<char>>)
    ensures
        ({
            let framed = mcp::framed(prompt, system);
            &&& system is None || text::trim_of(system->0).len() == 0 ==> framed == prompt
            &&& system is Some && text::trim_of(system->0).len() > 0 ==> {
                &&& text::contains_of(framed, text::trim_of(system->0))
                &&& text::starts_with_of(framed, "# Domain Framing\n"@)
                &&& framed.len() > prompt.len() + text::trim_of(system->0).len()
                &&& framed.skip(framed.len() - prompt.len()) == prompt
            }
        }),
{
    let framed = mcp::framed(prompt, system);
    if system is Some && text::trim_of(system->0).len() > 0 {
        let s = text::trim_of(system->0);
        reveal_strlit("# Domain Framing\n");
        let a = "# Domain Framing\n"@;
        let b = "\n\n# Task\n"@;
        occurs_in_itself(s);
        occurs_in_more(a, s, b + prompt, s);
        assert(a + s + (b + prompt) =~= framed);
        assert(framed.skip(framed.len() - prompt.len()) =~= prompt);
        assert(framed.subrange(0, a.len() as int) =~= a);
    }
}

/// The tools run the panel as they are asked to: with the prompt and its framing, the
/// workers that the caller names or else all, the judge only where one is wanted and
/// never for a comparison, and kept only where that is wanted.
pub proof fn panel_is_run_as_asked(
    p: fusion::FusionParamsView,
    d: diff::DiffParamsModel,
    temperature: SingleView,
)
    ensures
        ({
            let plan = fusion::plan_of(p, temperature);
            &&& asks(plan.request, mcp::framed(p.prompt, p.system), temperature)
            &&& p.panel_override matches Some(list) ==> plan.model_filter == list
            &&& p.panel_override is None ==> plan.model_filter.len() == 0
            &&& plan.judge_mode <==> p.judge_mode == Some(true)
            &&& plan.save_session <==> p.save_session == Some(true)
        }),
        ({
            let plan = diff::plan_of(d, temperature);
            &&& asks(plan.request, mcp::framed(d.prompt, d.system), temperature)
            &&& d.panel_override matches Some(list) ==> plan.model_filter == list
            &&& d.panel_override is None ==> plan.model_filter.len() == 0
            &&& !plan.judge_mode
            &&& plan.save_session <==> d.save_session == Some(true)
        }),
{
}

/// A session is run again with its prompt, with each of its workers by its name, or else
/// by its model, in its place, with the judge if it was asked, and the new run is kept.
pub proof fn session_is_run_again(s: SessionView, temperature: SingleView)
    ensures
        ({
            let plan = session::replay_of(s, temperature);
            &&& asks(plan.request, s.meta.original_prompt, temperature)
            &&& plan.model_filter.len() == s.full.worker_results.len()
            &&& forall|i: int|
                0 <= i < s.full.worker_results.len() ==> #[trigger] plan.model_filter[i] == (
                if s.full.worker_results[i].name.len() > 0 {
                    s.full.worker_results[i].name
                } else {
                    s.full.worker_results[i].model
                })
            &&& plan.judge_mode == s.full.enhanced_prompt_used
            &&& plan.save_session
        }),
{
}

// ---------------------------------------------------------------------------
// Comparing
// ---------------------------------------------------------------------------

/// The comparison shows every worker's answer in its place: its text, its tokens, its
/// duration and its cost, under the name, the model and the protocol of the worker, or
/// its error.
pub proof fn every_answer_is_shown(
    session_id: Seq<char>,
    results: Seq<WorkerResultView>,
    cost_usd: Usd,
    duration_ms: u64,
    i: int,
)
    requires
        0 <= i < results.len(),
    ensures
        ({
            let r = diff::comparison(session_id, results, cost_usd, duration_ms);
            let shown = r.responses[i];
            let w = results[i];
            &&& r.session_id == session_id
            &&& r.cost_usd == cost_usd
            &&& r.duration_ms == duration_ms
            &&& r.responses.len() == results.len()
            &&& shown.name == w.name
            &&& shown.model == w.model
            &&& shown.api == w.api
            &&& shown.error == w.error
            &&& w.response matches Some(a) ==> {
                &&& shown.content == a.content
                &&& shown.token_count == a.usage.total_tokens
                &&& shown.duration_ms == a.duration_ms
                &&& shown.cost_usd == a.cost_usd
            }
            &&& w.response is None ==> {
                &&& shown.content.len() == 0
                &&& shown.token_count == 0
                &&& shown.duration_ms == 0
                &&& shown.cost_usd.bits == 0
            }
        }),
{
}

proof fn answered_is_bounded(results: Seq<WorkerResultView>)
    ensures
        diff::answered(results) <= results.len(),
    decreases results.len(),
{
    if results.len() > 0 {
        answered_is_bounded(results.drop_last());
    }
}

/// The comparison counts the answers without an error, and the others: one more result is
/// one more of either.
pub proof fn answers_are_counted(
    session_id: Seq<char>,
    results: Seq<WorkerResultView>,
    w: WorkerResultView,
    cost_usd: Usd,
    duration_ms: u64,
)
    requires
        results.len() < usize::MAX,
    ensures
        ({
            let none = diff::comparison(session_id, Seq::empty(), cost_usd, duration_ms).summary;
            let few = diff::comparison(session_id, results, cost_usd, duration_ms).summary;
            let more = diff::comparison(session_id, results.push(w), cost_usd, duration_ms).summary;
            &&& none.models_succeeded == 0 && none.models_failed == 0
            &&& few.models_succeeded + few.models_failed == results.len()
            &&& w.error is None ==> more.models_succeeded == few.models_succeeded + 1
                && more.models_failed == few.models_failed
            &&& w.error is Some ==> more.models_succeeded == few.models_succeeded
                && more.models_failed == few.models_failed + 1
            &&& few.mode == "raw-worker-comparison"@
        }),
{
    assert(results.push(w).drop_last() =~= results);
    answered_is_bounded(results);
    answered_is_bounded(results.push(w));
}

/// What is kept of a comparison: every result, the question of the user, and what its
/// caller knows of it; no judge was asked, and nothing was synthesised.
pub proof fn comparison_is_kept(
    session_id: Seq<char>,
    ir: RequestView,
    results: Seq<WorkerResultView>,
    cost_usd: Usd,
    duration_ms: u64,
    timestamp: Seq<char>,
)
    requires
        results.len() <= usize::MAX,
    ensures
        ({
            let r = diff::archive(session_id, ir, results, cost_usd, duration_ms, timestamp);
            let shown = diff::comparison(session_id, results, cost_usd, duration_ms);
            &&& r.session_id == session_id
            &&& r.worker_results == results
            &&& r.judge_response is None
            &&& !r.enhanced_prompt_used
            &&& r.synthesis is None
            &&& r.judge_output_raw is None
            &&& r.consensus.len() == 0
            &&& r.contradictions.len() == 0
            &&& r.blind_spots.len() == 0
            &&& r.passthrough_tool_calls.len() == 0
            &&& r.total_cost_usd == cost_usd
            &&& r.duration_ms == duration_ms
            &&& r.timestamp == timestamp
            &&& r.original_prompt == engine::said_by(ir.messages, Role::User)
            &&& r.models_succeeded == shown.summary.models_succeeded
            &&& r.models_failed == shown.summary.models_failed
            &&& r.models_succeeded + r.models_failed == results.len()
        }),
{
    answered_is_bounded(results);
}

// ---------------------------------------------------------------------------
// Measuring
// ---------------------------------------------------------------------------

/// Each profile is run as often as is asked, and at least once.
pub proof fn profiles_are_run_as_often_as_asked(runs: Option<u32>)
    ensures
        bench::runs_of(runs) >= 1,
        runs matches Some(n) ==> n >= 1 ==> bench::runs_of(runs) == n,
        runs is None ==> bench::runs_of(runs) == 1,
{
}

/// One more run is counted: its duration and its successes are added, its workers are
/// those that count, and the first run is the sample.
pub proof fn runs_are_counted(t: bench::TallyView, r: FusionResultView)
    requires
        bench::has_room(t, r),
        r.worker_results.len() <= usize::MAX,
    ensures
        ({
            let none = bench::empty_tally();
            let more = bench::with_run(t, r);
            &&& none.runs == 0 && none.total_duration_ms == 0 && none.total_success_count == 0
                && none.worker_count == 0
            &&& none.sample_synthesis is None && none.sample_worker_outputs.len() == 0
            &&& more.runs == t.runs + 1
            &&& more.total_duration_ms == t.total_duration_ms + r.duration_ms
            &&& more.total_success_count == t.total_success_count + r.models_succeeded
            &&& more.worker_count == r.worker_results.len()
            &&& t.runs > 0 ==> more.sample_synthesis == t.sample_synthesis
                && more.sample_worker_outputs == t.sample_worker_outputs
            &&& t.runs == 0 ==> more.sample_synthesis == r.synthesis
        }),
{
}

/// The samples of the first run are what each of its workers answered, in order, at most
/// five hundred characters of it; a worker without an answer gives none.
pub proof fn samples_are_what_workers_answered(
    r: FusionResultView,
    results: Seq<WorkerResultView>,
    w: WorkerResultView,
)
    ensures
        ({
            let t = bench::empty_tally();
            let none = bench::with_run(
                t,
                FusionResultView { worker_results: Seq::empty(), ..r },
            ).sample_worker_outputs;
            let few = bench::with_run(
                t,
                FusionResultView { worker_results: results, ..r },
            ).sample_worker_outputs;
            let more = bench::with_run(
                t,
                FusionResultView { worker_results: results.push(w), ..r },
            ).sample_worker_outputs;
            &&& none.len() == 0
            &&& w.response is None ==> more == few
            &&& w.response matches Some(a) ==> more == few.push(
                if a.content.len() <= 500 {
                    a.content
                } else {
                    a.content.take(500)
                },
            )
        }),
{
    picks_grow(results, w, bench::sample_of());
}

/// As many answers are asked for as there are workers in all runs, as far as that can be
/// counted, and at least one.
pub proof fn answers_asked_for_are_counted(worker_count: usize, runs: u32)
    ensures
        bench::attempts_of(worker_count, runs) >= 1,
        worker_count > 0 && runs > 0 && worker_count <= 1000 && runs <= 1000
            ==> bench::attempts_of(worker_count, runs) == worker_count * runs,
        worker_count == 0 || runs == 0 ==> bench::attempts_of(worker_count, runs) == 1,
{
    let w = worker_count as nat % 0x1_0000_0000;
    if worker_count > 0 && runs > 0 && worker_count <= 1000 && runs <= 1000 {
        assert(0 < worker_count * runs <= 1_000_000) by (nonlinear_arith)
            requires
                0 < worker_count <= 1000,
                0 < runs <= 1000,
        ;
        assert(w == worker_count);
    }
    if worker_count == 0 || runs == 0 {
        assert(w * runs as nat == 0) by (nonlinear_arith)
            requires
                w == 0 || runs == 0,
        ;
    }
}

// ---------------------------------------------------------------------------
// Sessions
// ---------------------------------------------------------------------------

/// Whether a step is for the session that is named.
pub open spec fn is_for(step: StepView, session_id: Seq<char>) -> bool {
    match step {
        StepView::List { .. } => false,
        StepView::Get { id, .. } => id == session_id,
        StepView::Export { id, .. } => id == session_id,
        StepView::Delete { id } => id == session_id,
        StepView::Replay { id } => id == session_id,
    }
}

proof fn action_words_differ()
    ensures
        "list"@ != "get"@,
        "list"@ != "export"@,
        "list"@ != "delete"@,
        "list"@ != "replay"@,
        "get"@ != "export"@,
        "get"@ != "delete"@,
        "get"@ != "replay"@,
        "export"@ != "delete"@,
        "export"@ != "replay"@,
        "delete"@ != "replay"@,
{
    reveal_strlit("list");
    reveal_strlit("get");
    reveal_strlit("export");
    reveal_strlit("delete");
    reveal_strlit("replay");
    assert("list"@.len() == 4 && "get"@.len() == 3);
    assert("export"@[0] == 'e' && "delete"@[0] == 'd' && "replay"@[0] == 'r');
    assert("export"@.len() == 6 && "delete"@.len() == 6 && "replay"@.len() == 6);
}

/// The action that is asked for is done, for the session that is named; a list has the
/// query and the limit that are given, and twenty at most where none is. What is shown or
/// exported is JSON only where that is asked for. An action that needs a session fails
/// without one, and so does an unknown action.
pub proof fn actions_are_done(p: session::SessionParamsView)
    ensures
        ({
            let r = session::step_of(p);
            let a = p.action;
            let known = a == "get"@ || a == "export"@ || a == "delete"@ || a == "replay"@;
            let as_json = p.export_format == Some("json"@);
            &&& a == "list"@ ==> r == Ok::<StepView, ErrorView>(
                StepView::List {
                    query: p.query,
                    limit: Some(
                        match p.limit {
                            Some(n) => n,
                            None => 20usize,
                        },
                    ),
                },
            )
            &&& known && p.session_id is Some ==> r is Ok && is_for(r->Ok_0, p.session_id->0)
            &&& known && p.session_id is None ==> r == Err::<StepView, ErrorView>(
                ErrorView::Config("session_id required for "@ + a),
            )
            &&& !known && a != "list"@ ==> r is Err && r->Err_0 is Config && text::contains_of(
                r->Err_0->Config_0,
                a,
            )
            &&& r matches Ok(StepView::Get { as_json: j, .. }) ==> a == "get"@ && j == as_json
            &&& r matches Ok(StepView::Export { as_json: j, .. }) ==> a == "export"@ && j == as_json
            &&& r matches Ok(StepView::Delete { .. }) ==> a == "delete"@
            &&& r matches Ok(StepView::Replay { .. }) ==> a == "replay"@
            &&& r matches Ok(StepView::List { .. }) ==> a == "list"@
        }),
{
    action_words_differ();
    let before = "Unknown action '"@;
    let after = "'. Valid: list, get, export, delete, replay"@;
    occurs_in_itself(p.action);
    occurs_in_more(before, p.action, after, p.action);
}

// ---------------------------------------------------------------------------
// What clients are told
// ---------------------------------------------------------------------------

/// The type of a field that a schema describes.
pub open spec fn field_type(schema: Map<Seq<char>, JsonView>, name: Seq<char>) -> JsonView {
    JsonView::Object(schema).at("properties"@).at(name).at("type"@)
}

/// Whether a schema requires exactly some fields.
pub open spec fn needs(schema: Map<Seq<char>, JsonView>, names: Seq<Seq<char>>) -> bool {
    &&& JsonView::Object(schema).at("type"@) == JsonView::Str("object"@)
    &&& crate::protocol::body_laws::holds_texts(JsonView::Object(schema).at("required"@), names)
}

/// Clients are told which fields each tool takes, of which types, and which it needs.
pub proof fn clients_are_told_the_fields()
    ensures
        mcp::catalog().len() == 4,
        ({
            let s = mcp::catalog()[0].schema;
            &&& mcp::catalog()[0].name == "fusion"@
            &&& needs(s, seq!["prompt"@])
            &&& field_type(s, "prompt"@) == JsonView::Str("string"@)
            &&& field_type(s, "system"@) == JsonView::Str("string"@)
            &&& field_type(s, "judge_mode"@) == JsonView::Str("boolean"@)
            &&& field_type(s, "panel_override"@) == JsonView::Str("array"@)
            &&& field_type(s, "save_session"@) == JsonView::Str("boolean"@)
        }),
        ({
            let s = mcp::catalog()[1].schema;
            &&& mcp::catalog()[1].name == "fusion_diff"@
            &&& needs(s, seq!["prompt"@])
            &&& field_type(s, "prompt"@) == JsonView::Str("string"@)
            &&& field_type(s, "system"@) == JsonView::Str("string"@)
            &&& field_type(s, "panel_override"@) == JsonView::Str("array"@)
            &&& field_type(s, "save_session"@) == JsonView::Str("boolean"@)
        }),
        ({
            let s = mcp::catalog()[2].schema;
            &&& mcp::catalog()[2].name == "fusion_bench"@
            &&& needs(s, seq!["prompt"@, "configs"@])
            &&& field_type(s, "prompt"@) == JsonView::Str("string"@)
            &&& field_type(s, "system"@) == JsonView::Str("string"@)
            &&& field_type(s, "runs"@) == JsonView::Str("integer"@)
            &&& field_type(s, "configs"@) == JsonView::Str("array"@)
        }),
        ({
            let s = mcp::catalog()[3].schema;
            &&& mcp::catalog()[3].name == "fusion_session"@
            &&& needs(s, seq!["action"@])
            &&& field_type(s, "action"@) == JsonView::Str("string"@)
            &&& field_type(s, "session_id"@) == JsonView::Str("string"@)
            &&& field_type(s, "query"@) == JsonView::Str("string"@)
            &&& field_type(s, "limit"@) == JsonView::Str("integer"@)
            &&& field_type(s, "export_format"@) == JsonView::Str("string"@)
        }),
{
    reveal_strlit("type");
    reveal_strlit("properties");
    reveal_strlit("required");
    reveal_strlit("description");
    reveal_strlit("items");
    assert("type"@.len() == 4 && "properties"@.len() == 10 && "required"@.len() == 8);
    assert("description"@.len() == 11 && "items"@.len() == 5);
    reveal_strlit("prompt");
    reveal_strlit("system");
    reveal_strlit("judge_mode");
    reveal_strlit("panel_override");
    reveal_strlit("save_session");
    reveal_strlit("runs");
    reveal_strlit("configs");
    reveal_strlit("action");
    reveal_strlit("session_id");
    reveal_strlit("query");
    reveal_strlit("limit");
    reveal_strlit("export_format");
    assert("prompt"@.len() == 6 && "prompt"@[0] == 'p');
    assert("system"@.len() == 6 && "system"@[0] == 's');
    assert("action"@.len() == 6 && "action"@[0] == 'a');
    assert("judge_mode"@.len() == 10 && "judge_mode"@[0] == 'j');
    assert("session_id"@.len() == 10 && "session_id"@[0] == 's');
    assert("panel_override"@.len() == 14 && "save_session"@.len() == 12);
    assert("runs"@.len() == 4 && "configs"@.len() == 7 && "export_format"@.len() == 13);
    assert("query"@.len() == 5 && "query"@[0] == 'q');
    assert("limit"@.len() == 5 && "limit"@[0] == 'l');
}

/// The name of each tool calls that tool, and no other name calls any.
pub proof fn names_call_their_tools(name: Seq<char>)
    ensures
        mcp::tool_of(name) == Some(mcp::PanelTool::Fusion) <==> name == "fusion"@,
        mcp::tool_of(name) == Some(mcp::PanelTool::Diff) <==> name == "fusion_diff"@,
        mcp::tool_of(name) == Some(mcp::PanelTool::Bench) <==> name == "fusion_bench"@,
        mcp::tool_of(name) == Some(mcp::PanelTool::Session) <==> name == "fusion_session"@,
{
    reveal_strlit("fusion");
    reveal_strlit("fusion_diff");
    reveal_strlit("fusion_bench");
    reveal_strlit("fusion_session");
    assert("fusion"@.len() == 6 && "fusion_diff"@.len() == 11);
    assert("fusion_bench"@.len() == 12 && "fusion_session"@.len() == 14);
}

} // verus!
