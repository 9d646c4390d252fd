//! The tool `fusion_session`: kept sessions are listed, shown, exported, deleted and run
//! again.

use vstd::prelude::*;

use crate::engine::session::{FusionSession, SessionMeta, SessionView};
use crate::engine::FusionResult;
use crate::error::{ErrorView, OpenFusionError};
use crate::mcp;
use crate::mcp::fusion::{RunPlan, RunPlanView};
use crate::protocol::{Single, SingleView, WorkerResult, WorkerResultView};
use crate::seqs;
use crate::text;

verus! {

/// What the tool is asked.
#[derive(Debug)]
pub struct SessionParams {
    pub action: String,
    pub session_id: Option<String>,
    pub query: Option<String>,
    pub limit: Option<usize>,
    pub export_format: Option<String>,
}

/// What the tool answers.
#[derive(Debug)]
pub enum SessionResult {
    List(SessionListResult),
    Get(SessionGetResult),
    Export(SessionExportResult),
    Delete(SessionDeleteResult),
    Replay(SessionReplayResult),
}

#[derive(Debug)]
pub struct SessionListResult {
    pub action: String,
    pub sessions: Vec<SessionMeta>,
    pub total: usize,
}

#[derive(Debug)]
pub struct SessionGetResult {
    pub action: String,
    pub session: Option<FusionSession>,
    pub raw_json: Option<String>,
}

#[derive(Debug)]
pub struct SessionExportResult {
    pub action: String,
    pub file_path: String,
}

#[derive(Debug)]
pub struct SessionDeleteResult {
    pub action: String,
    pub deleted: bool,
}

#[derive(Debug)]
pub struct SessionReplayResult {
    pub action: String,
    pub session_id: String,
    pub judge_mode: bool,
    pub panel_override: Vec<String>,
    pub fresh_result: Option<FusionResult>,
}

#[verifier::ext_equal]
pub struct SessionParamsView {
    pub action: Seq<char>,
    pub session_id: Option<Seq<char>>,
    pub query: Option<Seq<char>>,
    pub limit: Option<usize>,
    pub export_format: Option<Seq<char>>,
}

impl DeepView for SessionParams {
    type V = SessionParamsView;

    open spec fn deep_view(&self) -> SessionParamsView {
        SessionParamsView {
            action: self.action@,
            session_id: self.session_id.deep_view(),
            query: self.query.deep_view(),
            limit: self.limit,
            export_format: self.export_format.deep_view(),
        }
    }
}

impl Default for SessionParams {
    fn default() -> (r: Self)
        ensures
            r.deep_view() == (SessionParamsView {
                action: Seq::empty(),
                session_id: None,
                query: None,
                limit: None,
                export_format: None,
            }),
    {
        SessionParams {
            action: String::new(),
            session_id: None,
            query: None,
            limit: None,
            export_format: None,
        }
    }
}

/// What is to be done with the kept sessions.
#[derive(Debug)]
pub enum SessionStep {
    List { query: Option<String>, limit: Option<usize> },
    Get { id: String, as_json: bool },
    Export { id: String, as_json: bool },
    Delete { id: String },
    Replay { id: String },
}

#[verifier::ext_equal]
pub enum StepView {
    List { query: Option<Seq<char>>, limit: Option<usize> },
    Get { id: Seq<char>, as_json: bool },
    Export { id: Seq<char>, as_json: bool },
    Delete { id: Seq<char> },
    Replay { id: Seq<char> },
}

impl DeepView for SessionStep {
    type V = StepView;

    open spec fn deep_view(&self) -> StepView {
        match *self {
            SessionStep::List { query, limit } => StepView::List {
                query: query.deep_view(),
                limit,
            },
            SessionStep::Get { id, as_json } => StepView::Get { id: id@, as_json },
            SessionStep::Export { id, as_json } => StepView::Export { id: id@, as_json },
            SessionStep::Delete { id } => StepView::Delete { id: id@ },
            SessionStep::Replay { id } => StepView::Replay { id: id@ },
        }
    }
}

/// The identifier of a session that an action needs.
pub open spec fn needed_id(id: Option<Seq<char>>, action: Seq<char>) -> Result<Seq<char>, ErrorView> {
    match id {
        Some(id) => Ok(id),
        None => Err(ErrorView::Config("session_id required for "@ + action)),
    }
}

/// Whether a format asks for JSON; Markdown is the format where nothing is said.
pub open spec fn wants_json(format: Option<Seq<char>>) -> bool {
    format == Some("json"@)
}

/// What is to be done for what the tool is asked.
pub open spec fn step_of(p: SessionParamsView) -> Result<StepView, ErrorView> {
    if p.action == "list"@ {
        Ok(
            StepView::List {
                query: p.query,
                limit: match p.limit {
                    Some(n) => Some(n),
                    None => Some(20usize),
                },
            },
        )
    } else if p.action == "get"@ {
        match needed_id(p.session_id, "get"@) {
            Ok(id) => Ok(StepView::Get { id, as_json: wants_json(p.export_format) }),
            Err(e) => Err(e),
        }
    } else if p.action == "export"@ {
        match needed_id(p.session_id, "export"@) {
            Ok(id) => Ok(StepView::Export { id, as_json: wants_json(p.export_format) }),
            Err(e) => Err(e),
        }
    } else if p.action == "delete"@ {
        match needed_id(p.session_id, "delete"@) {
            Ok(id) => Ok(StepView::Delete { id }),
            Err(e) => Err(e),
        }
    } else if p.action == "replay"@ {
        match needed_id(p.session_id, "replay"@) {
            Ok(id) => Ok(StepView::Replay { id }),
            Err(e) => Err(e),
        }
    } else {
        Err(
            ErrorView::Config(
                "Unknown action '"@ + p.action
                    + "'. Valid: list, get, export, delete, replay"@,
            ),
        )
    }
}

/// The identifier of a session that an action needs.
pub fn required_session_id(id: Option<String>, action: &str) -> (r: Result<
    String,
    OpenFusionError,
>)
    ensures
        match needed_id(id.deep_view(), action@) {
            Ok(v) => r matches Ok(s) && s@ == v,
            Err(fault) => r matches Err(e) && e.deep_view() == fault,
        },
{
    match id {
        Some(id) => Ok(id),
        None => Err(OpenFusionError::Config(text::concat("session_id required for ", action))),
    }
}

/// What is to be done for what the tool is asked.
pub fn decide(params: SessionParams) -> (r: Result<SessionStep, OpenFusionError>)
    ensures
        match step_of(params.deep_view()) {
            Ok(step) => r matches Ok(s) && s.deep_view() == step,
            Err(fault) => r matches Err(e) && e.deep_view() == fault,
        },
{
    let action = params.action.as_str();
    if text::same(action, "list") {
        let limit = match params.limit {
            Some(n) => Some(n),
            None => Some(20),
        };
        return Ok(SessionStep::List { query: params.query, limit });
    }
    let as_json = match &params.export_format {
        Some(f) => text::same(f.as_str(), "json"),
        None => false,
    };
    if text::same(action, "get") {
        return match required_session_id(params.session_id, "get") {
            Ok(id) => Ok(SessionStep::Get { id, as_json }),
            Err(e) => Err(e),
        };
    }
    if text::same(action, "export") {
        return match required_session_id(params.session_id, "export") {
            Ok(id) => Ok(SessionStep::Export { id, as_json }),
            Err(e) => Err(e),
        };
    }
    if text::same(action, "delete") {
        return match required_session_id(params.session_id, "delete") {
            Ok(id) => Ok(SessionStep::Delete { id }),
            Err(e) => Err(e),
        };
    }
    if text::same(action, "replay") {
        return match required_session_id(params.session_id, "replay") {
            Ok(id) => Ok(SessionStep::Replay { id }),
            Err(e) => Err(e),
        };
    }
    let mut m = text::concat("Unknown action '", action);
    m.append("'. Valid: list, get, export, delete, replay");
    Err(OpenFusionError::Config(m))
}

/// The name by which a worker is asked for again: its name, or else its model.
pub open spec fn panel_name() -> spec_fn(WorkerResultView) -> Seq<char> {
    |w: WorkerResultView|
        if w.name.len() == 0 {
            w.model
        } else {
            w.name
        }
}

/// How the panel is run to run a session again: the same prompt, the same workers, and
/// the judge if it was asked. The new run is kept.
pub open spec fn replay_of(s: SessionView, temperature: SingleView) -> RunPlanView {
    RunPlanView {
        request: mcp::panel_request(s.meta.original_prompt, temperature),
        model_filter: s.full.worker_results.map_values(panel_name()),
        judge_mode: s.full.enhanced_prompt_used,
        save_session: true,
    }
}

fn name_on_panel(w: &WorkerResult) -> (r: String)
    ensures
        r@ == panel_name()(w.deep_view()),
{
    if w.name.as_str().is_empty() {
        w.model.clone()
    } else {
        w.name.clone()
    }
}

/// How the panel is run to run a session again.
pub fn plan_replay(session: &FusionSession, temperature: Single) -> (r: RunPlan)
    ensures
        r.deep_view() == replay_of(session.deep_view(), temperature.deep_view()),
{
    RunPlan {
        request: mcp::request_for(session.meta.original_prompt.clone(), temperature),
        model_filter: seqs::map_all(
            &session.full.worker_results,
            name_on_panel,
            Ghost(panel_name()),
        ),
        judge_mode: session.full.enhanced_prompt_used,
        save_session: true,
    }
}

/// Whether an answer shows some sessions, and how many there are.
pub open spec fn shows_list(r: SessionResult, sessions: Vec<SessionMeta>) -> bool {
    r matches SessionResult::List(l) && l.action@ == "list"@ && l.sessions == sessions && l.total
        == sessions@.len()
}

/// Whether an answer shows a session, unless only its JSON is wanted, and its JSON.
pub open spec fn shows_session(
    r: SessionResult,
    session: FusionSession,
    raw_json: Option<String>,
    as_json: bool,
) -> bool {
    r matches SessionResult::Get(g) && g.action@ == "get"@ && g.raw_json == raw_json && g.session
        == (if as_json {
        None
    } else {
        Some(session)
    })
}

/// Whether an answer says what was done: where an export is, whether a session was
/// deleted, or what a new run came to.
pub open spec fn says_what_was_done(
    r: SessionResult,
    file_path: Option<String>,
    was_there: Option<bool>,
    replay: Option<(String, bool, Vec<String>, FusionResult)>,
) -> bool {
    match r {
        SessionResult::Export(x) => x.action@ == "export"@ && file_path == Some(x.file_path),
        SessionResult::Delete(d) => d.action@ == "delete"@ && was_there == Some(d.deleted),
        SessionResult::Replay(p) => p.action@ == "replay"@ && p.fresh_result is Some && replay
            == Some((p.session_id, p.judge_mode, p.panel_override, p.fresh_result->0)),
        _ => false,
    }
}

/// The answer to a list.
pub fn listed(sessions: Vec<SessionMeta>) -> (r: SessionResult)
    ensures
        r matches SessionResult::List(l) && l.action@ == "list"@ && l.sessions == sessions
            && l.total == sessions@.len(),
        shows_list(r, sessions),
{
    let total = sessions.len();
    SessionResult::List(SessionListResult { action: "list".to_owned(), sessions, total })
}

/// The answer to a get: the session, unless only its JSON is wanted, and its JSON.
pub fn shown(session: FusionSession, raw_json: Option<String>, as_json: bool) -> (r: SessionResult)
    ensures
        r matches SessionResult::Get(g) && g.action@ == "get"@ && g.raw_json == raw_json
            && g.session == (if as_json {
            None
        } else {
            Some(session)
        }),
        shows_session(r, session, raw_json, as_json),
{
    let session = if as_json {
        None
    } else {
        Some(session)
    };
    SessionResult::Get(SessionGetResult { action: "get".to_owned(), session, raw_json })
}

/// The answer to an export.
pub fn exported(file_path: String) -> (r: SessionResult)
    ensures
        r matches SessionResult::Export(x) && x.action@ == "export"@ && x.file_path == file_path,
        says_what_was_done(r, Some(file_path), None, None),
{
    SessionResult::Export(SessionExportResult { action: "export".to_owned(), file_path })
}

/// The answer to a delete.
pub fn deleted(was_there: bool) -> (r: SessionResult)
    ensures
        r matches SessionResult::Delete(d) && d.action@ == "delete"@ && d.deleted == was_there,
        says_what_was_done(r, None, Some(was_there), None),
{
    SessionResult::Delete(
        SessionDeleteResult { action: "delete".to_owned(), deleted: was_there },
    )
}

/// The answer to a replay.
pub fn replayed(
    session_id: String,
    judge_mode: bool,
    panel_override: Vec<String>,
    fresh: FusionResult,
) -> (r: SessionResult)
    ensures
        r matches SessionResult::Replay(p) && p.action@ == "replay"@ && p.session_id == session_id
            && p.judge_mode == judge_mode && p.panel_override == panel_override
            && p.fresh_result == Some(fresh),
        says_what_was_done(r, None, None, Some((session_id, judge_mode, panel_override, fresh))),
{
    SessionResult::Replay(
        SessionReplayResult {
            action: "replay".to_owned(),
            session_id,
            judge_mode,
            panel_override,
            fresh_result: Some(fresh),
        },
    )
}

/// A replay asks the same question with the same use of the judge, and asks as many
/// workers as answered before.
pub proof fn replay_repeats_the_run(s: SessionView, temperature: SingleView)
    ensures
        replay_of(s, temperature).judge_mode == s.full.enhanced_prompt_used,
        replay_of(s, temperature).model_filter.len() == s.full.worker_results.len(),
        replay_of(s, temperature).request.messages.len() == 1,
        replay_of(s, temperature).request.messages[0].content == s.meta.original_prompt,
{
}

/// A list holds every session that is to be shown, in order, and their number; a session
/// is shown unless only its JSON is wanted; and what was done is told as it was done.
pub proof fn answers_hold_what_was_found(
    r: SessionResult,
    sessions: Vec<SessionMeta>,
    session: FusionSession,
    raw_json: Option<String>,
    as_json: bool,
    file_path: String,
    was_there: bool,
    fresh: (String, bool, Vec<String>, FusionResult),
)
    ensures
        shows_list(r, sessions) ==> r is List && r->List_0.sessions@ == sessions@
            && r->List_0.total == sessions@.len(),
        shows_session(r, session, raw_json, as_json) ==> r is Get && r->Get_0.raw_json == raw_json
            && (as_json ==> r->Get_0.session is None) && (!as_json ==> r->Get_0.session == Some(
            session,
        )),
        says_what_was_done(r, Some(file_path), None, None) ==> r is Export
            && r->Export_0.file_path == file_path,
        says_what_was_done(r, None, Some(was_there), None) ==> r is Delete && r->Delete_0.deleted
            == was_there,
        says_what_was_done(r, None, None, Some(fresh)) ==> r is Replay && r->Replay_0.session_id
            == fresh.0 && r->Replay_0.judge_mode == fresh.1 && r->Replay_0.panel_override
            == fresh.2 && r->Replay_0.fresh_result == Some(fresh.3),
{
}

} // verus!
