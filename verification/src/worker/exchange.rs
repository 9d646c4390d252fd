//! One exchange with a worker: what it is sent, and what is made of its answer.
//!
//! Gemini is shown its own turns again, so an exchange in a session begins with the
//! turns that are kept of the session and may end with one more.

use vstd::prelude::*;

use crate::error::{ErrorView, OpenFusionError};
use crate::json::{Json, JsonView};
use crate::protocol::gemini_shadow;
use crate::protocol::gemini_shadow::{
    turns_of, with_turn, GeminiAssistantTurn, GeminiShadowStore, SessionView, StoreView, TurnView,
};
use crate::protocol::google_genai;
use crate::protocol::{IntermediateRequest, RequestView, Usd, WorkerResult, WorkerResultView};
use crate::seqs;
use crate::worker::{
    api_name, body_for, completed_body, is_response_of, is_turn_to_keep, is_workable, outcome,
    prepared, url_of, Worker, WorkerView,
};

verus! {

/// What a worker is sent, and the session under which its turn is kept.
#[derive(Debug)]
pub struct Errand {
    pub url: String,
    pub authorization: String,
    pub body: Json,
    pub provider_id: String,
    pub session_id: Option<String>,
}

#[verifier::ext_equal]
pub struct ErrandView {
    pub url: Seq<char>,
    pub authorization: Seq<char>,
    pub body: JsonView,
    pub provider_id: Seq<char>,
    pub session_id: Option<Seq<char>>,
}

impl DeepView for Errand {
    type V = ErrandView;

    open spec fn deep_view(&self) -> ErrandView {
        ErrandView {
            url: self.url@,
            authorization: self.authorization@,
            body: self.body.deep_view(),
            provider_id: self.provider_id@,
            session_id: self.session_id.deep_view(),
        }
    }
}

/// The name under which the turns of a worker are kept.
pub open spec fn provider_of(w: WorkerView) -> Seq<char> {
    api_name(w.api) + ":"@ + w.model
}

/// The turns that are kept of the session of a request.
pub open spec fn kept_turns(
    sessions: Seq<SessionView>,
    provider: Seq<char>,
    session_id: Option<Seq<char>>,
) -> Seq<TurnView> {
    match session_id {
        Some(id) => turns_of(sessions, provider, id),
        None => Seq::empty(),
    }
}

/// What a worker is sent for a request.
pub open spec fn errand_for(w: WorkerView, ir: RequestView, sessions: Seq<SessionView>) -> ErrandView {
    let request = prepared(w, ir);
    ErrandView {
        url: url_of(w),
        authorization: "Bearer "@ + w.api_key,
        body: body_for(w, request, kept_turns(sessions, provider_of(w), request.session_id)),
        provider_id: provider_of(w),
        session_id: request.session_id,
    }
}

/// The store after a turn, if there is one and it belongs to a session.
pub open spec fn after_kept_turn(
    store: StoreView,
    provider: Seq<char>,
    session_id: Option<Seq<char>>,
    turn: Option<TurnView>,
) -> StoreView {
    match (turn, session_id) {
        (Some(t), Some(id)) => with_turn(store, provider, id, t),
        _ => store,
    }
}

/// Whether a store is the one after an answer whose function calls have identifiers.
pub open spec fn is_store_after(
    w: WorkerView,
    e: ErrandView,
    full: JsonView,
    before: StoreView,
    after: StoreView,
) -> bool {
    exists|turn: Option<TurnView>| #[trigger]
        is_turn_to_keep(w.api, full, turn) && after == after_kept_turn(
            before,
            e.provider_id,
            e.session_id,
            turn,
        )
}

/// Whether an outcome and a store are those after an answer: its function calls get
/// identifiers, it is read, the result gets the name of the worker, and the turn is kept
/// if it calls tools. An answer that cannot be read leaves the store as it is.
pub open spec fn is_settlement(
    r: Result<WorkerResultView, ErrorView>,
    w: WorkerView,
    e: ErrandView,
    body: JsonView,
    duration_ms: u64,
    cost_usd: Option<Usd>,
    before: StoreView,
    after: StoreView,
) -> bool {
    exists|fresh: Seq<Seq<char>>| #[trigger]
        google_genai::are_fresh(fresh, google_genai::body_parts(body)) && {
            let full = completed_body(w.api, body, fresh);
            match r {
                Ok(result) => {
                    &&& result.name == w.name
                    &&& is_response_of(
                        Ok(WorkerResultView { name: ""@, ..result }),
                        w,
                        full,
                        duration_ms,
                        cost_usd,
                    )
                    &&& is_store_after(w, e, full, before, after)
                },
                Err(error) => is_response_of(Err(error), w, full, duration_ms, cost_usd) && after
                    == before,
            }
        }
}

impl Worker {
    /// What the worker is sent for a request.
    pub fn errand(&self, ir: &IntermediateRequest, kept: &GeminiShadowStore) -> (r: Errand)
        ensures
            r.deep_view() == errand_for(
                self.deep_view(),
                ir.deep_view(),
                kept.deep_view().sessions,
            ),
    {
        let request = self.prepare_request(ir);
        let provider_id = self.provider_id();
        let turns: Vec<GeminiAssistantTurn> = match &request.session_id {
            Some(id) => match kept.get_session(provider_id.as_str(), id.as_str()) {
                Some(session) => session.turns,
                None => seqs::none(),
            },
            None => seqs::none(),
        };
        Errand {
            url: self.request_url(),
            authorization: self.authorization(),
            body: self.build_request_body_with_gemini_shadow(&request, turns.as_slice()),
            provider_id,
            session_id: request.session_id,
        }
    }

    /// What is made of the answer to an errand.
    pub fn settle(
        &self,
        errand: &Errand,
        body: Json,
        duration_ms: u64,
        cost_usd: Option<Usd>,
        kept: &mut GeminiShadowStore,
    ) -> (r: Result<WorkerResult, OpenFusionError>)
        requires
            is_workable(self.api, body.deep_view()),
        ensures
            is_settlement(
                outcome(r),
                self.deep_view(),
                errand.deep_view(),
                body.deep_view(),
                duration_ms,
                cost_usd,
                old(kept).deep_view(),
                final(kept).deep_view(),
            ),
    {
        let ghost before = kept.deep_view();
        let mut full = body;
        self.complete_body(&mut full);
        let received = match self.receive(&full, duration_ms, cost_usd) {
            Ok(received) => received,
            Err(e) => {
                return Err(e);
            },
        };
        let ghost turn = received.turn.deep_view();
        assert(is_turn_to_keep(self.api, full.deep_view(), turn));
        if let Some(t) = received.turn {
            if let Some(id) = &errand.session_id {
                kept.record_assistant_turn(
                    errand.provider_id.as_str(),
                    id.as_str(),
                    t.assistant_content,
                    t.tool_calls,
                );
            }
        }
        assert(kept.deep_view() == after_kept_turn(
            before,
            errand.provider_id@,
            errand.session_id.deep_view(),
            turn,
        ));
        Ok(received.result)
    }
}

/// A turn of Gemini that calls tools is at hand for the next request of its session.
pub proof fn turn_with_calls_is_at_hand(
    w: WorkerView,
    e: ErrandView,
    id: Seq<char>,
    full: JsonView,
    content: JsonView,
    parts: Seq<JsonView>,
    before: StoreView,
    after: StoreView,
)
    requires
        before.max_sessions > 0,
        before.max_turns > 0,
        w.api is GoogleGenerativeAi,
        e.session_id == Some(id),
        google_genai::kept_content(full) == Some((content, parts)),
        google_genai::calls_tools(parts),
        is_store_after(w, e, full, before, after),
    ensures
        kept_turns(after.sessions, e.provider_id, Some(id)).len() > 0,
        google_genai::is_turn_of(
            kept_turns(after.sessions, e.provider_id, Some(id)).last(),
            content,
            parts,
        ),
        after.max_sessions == before.max_sessions,
        after.max_turns == before.max_turns,
{
    let turn = choose|turn: Option<TurnView>| #[trigger]
        is_turn_to_keep(w.api, full, turn) && after == after_kept_turn(
            before,
            e.provider_id,
            e.session_id,
            turn,
        );
    gemini_shadow::recorded_turn_is_kept(
        before.sessions,
        before.max_sessions as nat,
        before.max_turns as nat,
        e.provider_id,
        id,
        turn->0,
    );
}

/// An answer from a worker that is not Gemini, or outside any session, leaves the store
/// as it is.
pub proof fn other_answers_keep_nothing(
    w: WorkerView,
    e: ErrandView,
    full: JsonView,
    before: StoreView,
    after: StoreView,
)
    requires
        !(w.api is GoogleGenerativeAi) || e.session_id is None,
        is_store_after(w, e, full, before, after),
    ensures
        after == before,
{
}

} // verus!
