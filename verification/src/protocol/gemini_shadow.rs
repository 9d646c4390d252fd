//! What Gemini said in a session, kept so that it can be said again.
//!
//! Gemini expects its own turns back word for word, with the signatures of its
//! thoughts, which the other protocols do not carry. The store keeps the last turns
//! of the sessions that were used last.

use vstd::prelude::*;

use crate::json::{Json, JsonView};
use crate::protocol::copy_vec;
use crate::seqs;
use crate::text;

verus! {

/// A tool call of a kept turn.
#[derive(Debug)]
pub struct GeminiToolCallMeta {
    pub id: Option<String>,
    pub name: String,
    pub args: Json,
    pub thought_signature: Option<String>,
}

/// A kept turn: the content as Gemini sent it, and its tool calls.
#[derive(Debug)]
pub struct GeminiAssistantTurn {
    pub assistant_content: Json,
    pub tool_calls: Vec<GeminiToolCallMeta>,
}

/// The kept turns of one session of one provider, oldest first.
#[derive(Debug)]
pub struct GeminiShadowSession {
    pub provider: String,
    pub session_id: String,
    pub turns: Vec<GeminiAssistantTurn>,
}

/// The kept turns of the sessions used last, the one used least recently first.
#[derive(Debug)]
pub struct GeminiShadowStore {
    pub sessions: Vec<GeminiShadowSession>,
    pub max_sessions: usize,
    pub max_turns: usize,
}

#[verifier::ext_equal]
pub struct ToolCallMetaView {
    pub id: Option<Seq<char>>,
    pub name: Seq<char>,
    pub args: JsonView,
    pub thought_signature: Option<Seq<char>>,
}

#[verifier::ext_equal]
pub struct TurnView {
    pub assistant_content: JsonView,
    pub tool_calls: Seq<ToolCallMetaView>,
}

#[verifier::ext_equal]
pub struct SessionView {
    pub provider: Seq<char>,
    pub session_id: Seq<char>,
    pub turns: Seq<TurnView>,
}

#[verifier::ext_equal]
pub struct StoreView {
    pub sessions: Seq<SessionView>,
    pub max_sessions: usize,
    pub max_turns: usize,
}

impl DeepView for GeminiToolCallMeta {
    type V = ToolCallMetaView;

    open spec fn deep_view(&self) -> ToolCallMetaView {
        ToolCallMetaView {
            id: self.id.deep_view(),
            name: self.name@,
            args: self.args.deep_view(),
            thought_signature: self.thought_signature.deep_view(),
        }
    }
}

impl DeepView for GeminiAssistantTurn {
    type V = TurnView;

    open spec fn deep_view(&self) -> TurnView {
        TurnView {
            assistant_content: self.assistant_content.deep_view(),
            tool_calls: self.tool_calls.deep_view(),
        }
    }
}

impl DeepView for GeminiShadowSession {
    type V = SessionView;

    open spec fn deep_view(&self) -> SessionView {
        SessionView {
            provider: self.provider@,
            session_id: self.session_id@,
            turns: self.turns.deep_view(),
        }
    }
}

impl DeepView for GeminiShadowStore {
    type V = StoreView;

    open spec fn deep_view(&self) -> StoreView {
        StoreView {
            sessions: self.sessions.deep_view(),
            max_sessions: self.max_sessions,
            max_turns: self.max_turns,
        }
    }
}

impl Clone for GeminiToolCallMeta {
    fn clone(&self) -> (r: Self)
        ensures
            r.deep_view() == self.deep_view(),
    {
        GeminiToolCallMeta {
            id: self.id.clone(),
            name: self.name.clone(),
            args: self.args.clone(),
            thought_signature: self.thought_signature.clone(),
        }
    }
}

impl Clone for GeminiAssistantTurn {
    fn clone(&self) -> (r: Self)
        ensures
            r.deep_view() == self.deep_view(),
    {
        GeminiAssistantTurn {
            assistant_content: self.assistant_content.clone(),
            tool_calls: copy_vec(&self.tool_calls),
        }
    }
}

impl Clone for GeminiShadowSession {
    fn clone(&self) -> (r: Self)
        ensures
            r.deep_view() == self.deep_view(),
    {
        GeminiShadowSession {
            provider: self.provider.clone(),
            session_id: self.session_id.clone(),
            turns: copy_vec(&self.turns),
        }
    }
}

impl GeminiToolCallMeta {
    /// A tool call.
    pub fn new(
        id: Option<String>,
        name: &str,
        args: Json,
        thought_signature: Option<String>,
    ) -> (r: Self)
        ensures
            r.deep_view() == (ToolCallMetaView {
                id: id.deep_view(),
                name: name@,
                args: args.deep_view(),
                thought_signature: thought_signature.deep_view(),
            }),
    {
        GeminiToolCallMeta { id, name: name.to_owned(), args, thought_signature }
    }
}

impl GeminiAssistantTurn {
    /// A turn.
    pub fn new(assistant_content: Json, tool_calls: Vec<GeminiToolCallMeta>) -> (r: Self)
        ensures
            r.deep_view() == (TurnView {
                assistant_content: assistant_content.deep_view(),
                tool_calls: tool_calls.deep_view(),
            }),
    {
        GeminiAssistantTurn { assistant_content, tool_calls }
    }
}

/// Whether a session is that of a provider under an identifier.
pub open spec fn is_session(s: SessionView, provider: Seq<char>, session_id: Seq<char>) -> bool {
    s.provider == provider && s.session_id == session_id
}

/// The session of a provider under an identifier; the one used last, if there are
/// several.
pub open spec fn session_of(
    sessions: Seq<SessionView>,
    provider: Seq<char>,
    session_id: Seq<char>,
) -> Option<SessionView>
    decreases sessions.len(),
{
    if sessions.len() == 0 {
        None
    } else if is_session(sessions.last(), provider, session_id) {
        Some(sessions.last())
    } else {
        session_of(sessions.drop_last(), provider, session_id)
    }
}

/// The sessions of others.
pub open spec fn other_sessions(
    sessions: Seq<SessionView>,
    provider: Seq<char>,
    session_id: Seq<char>,
) -> Seq<SessionView>
    decreases sessions.len(),
{
    if sessions.len() == 0 {
        Seq::empty()
    } else {
        let rest = other_sessions(sessions.drop_last(), provider, session_id);
        if is_session(sessions.last(), provider, session_id) {
            rest
        } else {
            rest.push(sessions.last())
        }
    }
}

/// At most the last `n` items.
pub open spec fn last_of<A>(s: Seq<A>, n: nat) -> Seq<A> {
    if s.len() <= n {
        s
    } else {
        s.skip(s.len() - n)
    }
}

/// The kept turns of a session; none where the session is not kept.
pub open spec fn turns_of(
    sessions: Seq<SessionView>,
    provider: Seq<char>,
    session_id: Seq<char>,
) -> Seq<TurnView> {
    match session_of(sessions, provider, session_id) {
        Some(s) => s.turns,
        None => Seq::empty(),
    }
}

/// The sessions after one more turn: the turn joins its session, which is now the one
/// used last; turns and sessions beyond the limits are dropped, the oldest first.
pub open spec fn after_turn(
    sessions: Seq<SessionView>,
    max_sessions: nat,
    max_turns: nat,
    provider: Seq<char>,
    session_id: Seq<char>,
    turn: TurnView,
) -> Seq<SessionView> {
    let turns = turns_of(sessions, provider, session_id).push(turn);
    last_of(
        other_sessions(sessions, provider, session_id).push(
            SessionView { provider, session_id, turns: last_of(turns, max_turns) },
        ),
        max_sessions,
    )
}

/// The store after one more turn.
pub open spec fn with_turn(
    store: StoreView,
    provider: Seq<char>,
    session_id: Seq<char>,
    turn: TurnView,
) -> StoreView {
    StoreView {
        sessions: after_turn(
            store.sessions,
            store.max_sessions as nat,
            store.max_turns as nat,
            provider,
            session_id,
            turn,
        ),
        ..store
    }
}

fn is_that(s: &GeminiShadowSession, provider: &str, session_id: &str) -> (r: bool)
    ensures
        r == is_session(s.deep_view(), provider@, session_id@),
{
    text::same(s.provider.as_str(), provider) && text::same(s.session_id.as_str(), session_id)
}

/// Drops items from the front until at most `n` are left.
fn keep_last<T: DeepView>(items: &mut Vec<T>, n: usize)
    ensures
        final(items).deep_view() == last_of(old(items).deep_view(), n as nat),
{
    let ghost all = items.deep_view();
    let len = items.len();
    if len > n {
        let tail = items.split_off(len - n);
        assert(tail.deep_view() =~= all.skip(len - n));
        *items = tail;
    }
}

impl GeminiShadowStore {
    /// An empty store that keeps at most `max_sessions` sessions and of each at most
    /// `max_turns` turns.
    pub fn with_limits(max_sessions: usize, max_turns: usize) -> (r: Self)
        ensures
            r.deep_view() == (StoreView { sessions: Seq::empty(), max_sessions, max_turns }),
    {
        GeminiShadowStore { sessions: seqs::none(), max_sessions, max_turns }
    }

    /// The kept turns of a session.
    pub fn get_session(&self, provider: &str, session_id: &str) -> (r: Option<GeminiShadowSession>)
        ensures
            r.deep_view() == session_of(self.deep_view().sessions, provider@, session_id@),
    {
        let ghost all = self.deep_view().sessions;
        let mut i: usize = self.sessions.len();
        proof {
            seqs::take_ends(all);
        }
        while i > 0
            invariant
                i <= self.sessions@.len(),
                all == self.deep_view().sessions,
                all.len() == self.sessions@.len(),
                session_of(all, provider@, session_id@) == session_of(
                    all.take(i as int),
                    provider@,
                    session_id@,
                ),
            decreases i,
        {
            proof {
                seqs::take_step(all, i - 1);
            }
            if is_that(&self.sessions[i - 1], provider, session_id) {
                return Some(self.sessions[i - 1].clone());
            }
            i -= 1;
        }
        proof {
            seqs::take_ends(all);
        }
        None
    }

    /// Keeps one more turn of a session.
    pub fn record_assistant_turn(
        &mut self,
        provider: &str,
        session_id: &str,
        assistant_content: Json,
        tool_calls: Vec<GeminiToolCallMeta>,
    )
        ensures
            final(self).deep_view() == with_turn(
                old(self).deep_view(),
                provider@,
                session_id@,
                (TurnView {
                    assistant_content: assistant_content.deep_view(),
                    tool_calls: tool_calls.deep_view(),
                }),
            ),
    {
        let ghost all = self.deep_view().sessions;
        let mut turns: Vec<GeminiAssistantTurn> = match self.get_session(provider, session_id) {
            Some(s) => s.turns,
            None => seqs::none(),
        };
        assert(turns.deep_view() =~= turns_of(all, provider@, session_id@));
        seqs::put(&mut turns, GeminiAssistantTurn::new(assistant_content, tool_calls));
        keep_last(&mut turns, self.max_turns);
        let mut sessions: Vec<GeminiShadowSession> = seqs::none();
        let mut i: usize = 0;
        proof {
            seqs::take_ends(all);
        }
        while i < self.sessions.len()
            invariant
                i <= self.sessions@.len(),
                all == self.deep_view().sessions,
                all.len() == self.sessions@.len(),
                sessions.deep_view() == other_sessions(
                    all.take(i as int),
                    provider@,
                    session_id@,
                ),
            decreases self.sessions.len() - i,
        {
            proof {
                seqs::take_step(all, i as int);
            }
            if !is_that(&self.sessions[i], provider, session_id) {
                seqs::put(&mut sessions, self.sessions[i].clone());
            }
            i += 1;
        }
        proof {
            seqs::take_ends(all);
        }
        seqs::put(
            &mut sessions,
            GeminiShadowSession {
                provider: provider.to_owned(),
                session_id: session_id.to_owned(),
                turns,
            },
        );
        keep_last(&mut sessions, self.max_sessions);
        self.sessions = sessions;
    }
}

impl Default for GeminiShadowStore {
    fn default() -> (r: Self)
        ensures
            r.deep_view() == (StoreView {
                sessions: Seq::empty(),
                max_sessions: 256,
                max_turns: 64,
            }),
    {
        GeminiShadowStore::with_limits(256, 64)
    }
}

/// The turn recorded last is the last kept turn of its session.
pub proof fn recorded_turn_is_kept(
    sessions: Seq<SessionView>,
    max_sessions: nat,
    max_turns: nat,
    provider: Seq<char>,
    session_id: Seq<char>,
    turn: TurnView,
)
    requires
        max_sessions > 0,
        max_turns > 0,
    ensures
        turns_of(
            after_turn(sessions, max_sessions, max_turns, provider, session_id, turn),
            provider,
            session_id,
        ) == last_of(turns_of(sessions, provider, session_id).push(turn), max_turns),
        turns_of(
            after_turn(sessions, max_sessions, max_turns, provider, session_id, turn),
            provider,
            session_id,
        ).last() == turn,
{
}

/// The store stays within its limits: no more sessions than allowed, and no more
/// turns of any session, if that held before.
pub proof fn recording_keeps_limits(
    sessions: Seq<SessionView>,
    max_sessions: nat,
    max_turns: nat,
    provider: Seq<char>,
    session_id: Seq<char>,
    turn: TurnView,
)
    requires
        forall|i: int| 0 <= i < sessions.len() ==> (#[trigger] sessions[i]).turns.len() <= max_turns,
    ensures
        after_turn(sessions, max_sessions, max_turns, provider, session_id, turn).len()
            <= max_sessions,
        forall|i: int|
            0 <= i < after_turn(
                sessions,
                max_sessions,
                max_turns,
                provider,
                session_id,
                turn,
            ).len() ==> (#[trigger] after_turn(
                sessions,
                max_sessions,
                max_turns,
                provider,
                session_id,
                turn,
            )[i]).turns.len() <= max_turns,
{
    others_are_short(sessions, max_turns, provider, session_id);
}

proof fn others_are_short(
    sessions: Seq<SessionView>,
    max_turns: nat,
    provider: Seq<char>,
    session_id: Seq<char>,
)
    requires
        forall|i: int| 0 <= i < sessions.len() ==> (#[trigger] sessions[i]).turns.len() <= max_turns,
    ensures
        forall|i: int|
            0 <= i < other_sessions(sessions, provider, session_id).len() ==> (
            #[trigger] other_sessions(sessions, provider, session_id)[i]).turns.len() <= max_turns,
    decreases sessions.len(),
{
    if sessions.len() > 0 {
        others_are_short(sessions.drop_last(), max_turns, provider, session_id);
        assert(sessions[sessions.len() - 1].turns.len() <= max_turns);
        let rest = other_sessions(sessions.drop_last(), provider, session_id);
        let all = other_sessions(sessions, provider, session_id);
        assert forall|i: int| 0 <= i < all.len() implies (#[trigger] all[i]).turns.len()
            <= max_turns by {
            if i < rest.len() {
                assert(all[i] == rest[i]);
            }
        }
    }
}

/// What is kept of other sessions does not change while they stay within the limit.
pub proof fn other_sessions_are_kept(
    sessions: Seq<SessionView>,
    max_sessions: nat,
    max_turns: nat,
    provider: Seq<char>,
    session_id: Seq<char>,
    turn: TurnView,
    other_provider: Seq<char>,
    other_id: Seq<char>,
)
    requires
        sessions.len() < max_sessions,
        other_provider != provider || other_id != session_id,
    ensures
        session_of(
            after_turn(sessions, max_sessions, max_turns, provider, session_id, turn),
            other_provider,
            other_id,
        ) == session_of(sessions, other_provider, other_id),
{
    others_stay(sessions, provider, session_id, other_provider, other_id);
    let others = other_sessions(sessions, provider, session_id);
    let all = after_turn(sessions, max_sessions, max_turns, provider, session_id, turn);
    assert(all.drop_last() =~= others);
}

proof fn others_stay(
    sessions: Seq<SessionView>,
    provider: Seq<char>,
    session_id: Seq<char>,
    other_provider: Seq<char>,
    other_id: Seq<char>,
)
    requires
        other_provider != provider || other_id != session_id,
    ensures
        session_of(other_sessions(sessions, provider, session_id), other_provider, other_id)
            == session_of(sessions, other_provider, other_id),
        other_sessions(sessions, provider, session_id).len() <= sessions.len(),
    decreases sessions.len(),
{
    if sessions.len() > 0 {
        others_stay(sessions.drop_last(), provider, session_id, other_provider, other_id);
        let rest = other_sessions(sessions.drop_last(), provider, session_id);
        assert(rest.push(sessions.last()).drop_last() =~= rest);
    }
}

} // verus!
