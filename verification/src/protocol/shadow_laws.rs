//! What holds of the kept turns of Gemini: what is kept of an answer, which turns stay,
//! and how they are sent again.

use vstd::prelude::*;

use crate::json::JsonView;
use crate::protocol;
use crate::protocol::body_laws::{count, spoken};
use crate::protocol::gemini_body_laws::{body_counts, body_stays, gemini_members};
use crate::protocol::gemini_shadow::{
    after_turn, is_session, other_sessions, session_of, turns_of, SessionView, ToolCallMetaView,
    TurnView,
};
use crate::protocol::google_genai;
use crate::protocol::words::words_differ;
use crate::protocol::{MessageView, RequestView, ToolCallView};
use crate::seqs;
use crate::text;

verus! {

// ---------------------------------------------------------------------------
// What is kept of an answer
// ---------------------------------------------------------------------------

/// Of the parts of an answer every function call is kept, in order: under its own
/// identifier or a fresh one, with its name, its arguments and the signature of its
/// thought; other parts give none.
pub proof fn kept_calls_are_those_of_the_parts(
    parts: Seq<JsonView>,
    p: JsonView,
    fresh: Seq<Seq<char>>,
)
    ensures
        google_genai::metas_of(Seq::empty(), fresh).len() == 0,
        p.get("functionCall"@) is None ==> google_genai::metas_of(parts.push(p), fresh)
            == google_genai::metas_of(parts, fresh),
        p.get("functionCall"@) matches Some(call) ==> {
            let before = google_genai::metas_of(parts, fresh);
            let after = google_genai::metas_of(parts.push(p), fresh);
            let c = after.last();
            &&& after.len() == before.len() + 1
            &&& after.drop_last() == before
            &&& c.id == Some(
                match call.at("id"@) {
                    JsonView::Str(id) => if id.len() > 0 {
                        id
                    } else {
                        fresh[parts.len() as int]
                    },
                    _ => fresh[parts.len() as int],
                },
            )
            &&& call.at("name"@) is Str ==> JsonView::Str(c.name) == call.at("name"@)
            &&& call.get("args"@) matches Some(args) ==> c.args == args
            &&& call.get("args"@) is None ==> c.args == JsonView::Object(Map::empty())
            &&& p.get("thoughtSignature"@) matches Some(JsonView::Str(s)) ==> c.thought_signature
                == Some(s)
            &&& p.get("thoughtSignature"@) is None && p.at("thought_signature"@) is Str
                ==> c.thought_signature is Some && JsonView::Str(c.thought_signature->0) == p.at(
                "thought_signature"@,
            )
            &&& p.get("thoughtSignature"@) is None && p.get("thought_signature"@) is None
                ==> c.thought_signature is None
        },
{
    assert(parts.push(p).drop_last() =~= parts);
    if let Some(call) = p.get("functionCall"@) {
        assert(google_genai::metas_of(parts.push(p), fresh).drop_last() =~= google_genai::metas_of(
            parts,
            fresh,
        ));
    }
}

/// What is kept of an answer is the content of its first candidate, if that has parts.
pub proof fn kept_content_is_that_of_the_answer(body: JsonView)
    ensures
        ({
            let candidate = body.at("candidates"@).item(0);
            let content = candidate.at("content"@);
            match google_genai::kept_content(body) {
                Some((c, parts)) => c == content && content.at("parts"@) == JsonView::Array(parts),
                None => !(content.at("parts"@) is Array),
            }
        }),
{
}

/// Function calls that get identifiers change nothing else of an answer: there are as many
/// candidates and parts as before, each part in its place, and every other field stays.
pub proof fn completed_answer_is_the_answer(
    body: Map<Seq<char>, JsonView>,
    fresh: Seq<Seq<char>>,
    name: Seq<char>,
    i: int,
)
    requires
        JsonView::Object(body).at("candidates"@).item(0).at("content"@).at("parts"@) is Array,
        0 <= i < count(
            JsonView::Object(body).at("candidates"@).item(0).at("content"@).at("parts"@),
        ),
    ensures
        ({
            let before = JsonView::Object(body);
            let after = google_genai::rectified_body(before, fresh);
            let a = before.at("candidates"@).item(0);
            let b = after.at("candidates"@).item(0);
            let p = a.at("content"@).at("parts"@).item(i);
            let q = b.at("content"@).at("parts"@).item(i);
            &&& name != "candidates"@ ==> after.at(name) == before.at(name)
            &&& count(after.at("candidates"@)) == count(before.at("candidates"@))
            &&& name != "content"@ ==> b.at(name) == a.at(name)
            &&& name != "parts"@ ==> b.at("content"@).at(name) == a.at("content"@).at(name)
            &&& count(b.at("content"@).at("parts"@)) == count(a.at("content"@).at("parts"@))
            &&& p is Object && name != "functionCall"@ ==> q.at(name) == p.at(name)
            &&& name != "id"@ ==> q.at("functionCall"@).at(name) == p.at("functionCall"@).at(name)
            &&& p.at("functionCall"@) is Object ==> (match p.at("functionCall"@).at("id"@) {
                JsonView::Str(id) => if id.len() > 0 {
                    q == p
                } else {
                    q.at("functionCall"@).at("id"@) == JsonView::Str(fresh[i])
                },
                _ => q.at("functionCall"@).at("id"@) == JsonView::Str(fresh[i]),
            })
            &&& !(p.at("functionCall"@) is Object) ==> q == p
        }),
{
    words_differ();
    let before = JsonView::Object(body);
    let after = google_genai::rectified_body(before, fresh);
    let candidates = before.at("candidates"@)->Array_0;
    let a = candidates[0];
    assert(before.at("candidates"@).item(0) == a);
    assert(after.at("candidates"@) == JsonView::Array(
        candidates.update(0, google_genai::rectified_candidate(a, fresh)),
    ));
    let b = after.at("candidates"@).item(0);
    assert(b == google_genai::rectified_candidate(a, fresh));
    let parts = a.at("content"@).at("parts"@)->Array_0;
    assert(b.at("content"@).at("parts"@) == JsonView::Array(
        google_genai::rectified_parts(parts, fresh),
    ));
    assert(b.at("content"@).at("parts"@).item(i) == google_genai::rectified_part(
        parts[i],
        fresh[i],
    ));
}

// ---------------------------------------------------------------------------
// Which turns stay
// ---------------------------------------------------------------------------

proof fn strangers_stay(sessions: Seq<SessionView>, provider: Seq<char>, session_id: Seq<char>)
    requires
        forall|i: int|
            0 <= i < sessions.len() ==> !is_session(#[trigger] sessions[i], provider, session_id),
    ensures
        other_sessions(sessions, provider, session_id) == sessions,
        session_of(sessions, provider, session_id) is None,
    decreases sessions.len(),
{
    if sessions.len() > 0 {
        let rest = sessions.drop_last();
        assert forall|i: int| 0 <= i < rest.len() implies !is_session(
            #[trigger] rest[i],
            provider,
            session_id,
        ) by {
            assert(rest[i] == sessions[i]);
        }
        strangers_stay(rest, provider, session_id);
        assert(!is_session(sessions[sessions.len() - 1], provider, session_id));
        assert(rest.push(sessions.last()) =~= sessions);
    }
}

/// The first turn of a new session makes it the session that was used last; where there is
/// no room for it, the one that was used longest ago goes, and the others stay in order.
pub proof fn new_sessions_are_kept(
    sessions: Seq<SessionView>,
    max_sessions: nat,
    max_turns: nat,
    provider: Seq<char>,
    session_id: Seq<char>,
    turn: TurnView,
)
    requires
        forall|i: int|
            0 <= i < sessions.len() ==> (#[trigger] sessions[i]).provider != provider
                || sessions[i].session_id != session_id,
        0 < max_sessions,
        0 < max_turns,
        sessions.len() <= max_sessions,
    ensures
        ({
            let after = after_turn(sessions, max_sessions, max_turns, provider, session_id, turn);
            &&& after.len() > 0
            &&& after.last().provider == provider
            &&& after.last().session_id == session_id
            &&& after.last().turns == seq![turn]
            &&& after.drop_last() == (if sessions.len() < max_sessions {
                sessions
            } else {
                sessions.skip(1)
            })
        }),
{
    strangers_stay(sessions, provider, session_id);
    let after = after_turn(sessions, max_sessions, max_turns, provider, session_id, turn);
    assert(after.last().turns =~= seq![turn]);
    assert(after.drop_last() =~= (if sessions.len() < max_sessions {
        sessions
    } else {
        sessions.skip(1)
    }));
}

/// A further turn of a session comes after its others; where there is no room for it, the
/// oldest goes. The session is then the one that was used last, and the others stay.
pub proof fn further_turns_are_kept(
    sessions: Seq<SessionView>,
    kept: SessionView,
    max_sessions: nat,
    max_turns: nat,
    turn: TurnView,
)
    requires
        forall|i: int|
            0 <= i < sessions.len() ==> (#[trigger] sessions[i]).provider != kept.provider
                || sessions[i].session_id != kept.session_id,
        0 < max_turns,
        sessions.len() < max_sessions,
        kept.turns.len() <= max_turns,
    ensures
        ({
            let after = after_turn(
                sessions.push(kept),
                max_sessions,
                max_turns,
                kept.provider,
                kept.session_id,
                turn,
            );
            &&& after.len() == sessions.len() + 1
            &&& after.drop_last() == sessions
            &&& after.last().provider == kept.provider
            &&& after.last().session_id == kept.session_id
            &&& after.last().turns == (if kept.turns.len() < max_turns {
                kept.turns.push(turn)
            } else {
                kept.turns.skip(1).push(turn)
            })
        }),
{
    strangers_stay(sessions, kept.provider, kept.session_id);
    let all = sessions.push(kept);
    assert(all.drop_last() =~= sessions);
    let after = after_turn(
        all,
        max_sessions,
        max_turns,
        kept.provider,
        kept.session_id,
        turn,
    );
    assert(after.drop_last() =~= sessions);
    if kept.turns.len() >= max_turns {
        assert(after.last().turns =~= kept.turns.skip(1).push(turn));
    }
}

/// The turns of a session are those of the session under that name of that provider.
pub proof fn turns_are_those_of_the_session(
    sessions: Seq<SessionView>,
    s: SessionView,
    provider: Seq<char>,
    session_id: Seq<char>,
)
    ensures
        turns_of(Seq::empty(), provider, session_id).len() == 0,
        turns_of(sessions.push(s), provider, session_id) == (if s.provider == provider
            && s.session_id == session_id {
            s.turns
        } else {
            turns_of(sessions, provider, session_id)
        }),
{
    assert(sessions.push(s).drop_last() =~= sessions);
}

// ---------------------------------------------------------------------------
// How turns are sent again
// ---------------------------------------------------------------------------

/// Where the last kept turn makes a call of a message, under its identifier or its name,
/// that turn is sent in place of the message: as many parts as it has, in order, each
/// with its text, its signature, and the name and the arguments of its function call.
/// A turn that makes none of its calls is passed over.
pub proof fn kept_turns_are_sent_again(
    ir: RequestView,
    model: Seq<char>,
    turns: Seq<TurnView>,
    t: TurnView,
    i: int,
    a: int,
    b: int,
    p: int,
)
    requires
        0 <= i < ir.messages.len(),
        ir.messages[i].role is Assistant,
        0 <= a < t.tool_calls.len(),
        0 <= b < ir.messages[i].tool_calls.len(),
        t.tool_calls[a].id == Some(ir.messages[i].tool_calls[b].id) || t.tool_calls[a].name
            == ir.messages[i].tool_calls[b].name,
        t.assistant_content.at("parts"@) is Array,
        0 <= p < count(t.assistant_content.at("parts"@)),
    ensures
        ({
            let shown = google_genai::worker_body(ir, model, turns.push(t)).at("contents"@).item(
                spoken(ir.messages.take(i)) as int,
            );
            let part = t.assistant_content.at("parts"@).item(p);
            let sent = shown.at("parts"@).item(p);
            &&& shown.at("role"@) == JsonView::Str("model"@)
            &&& count(shown.at("parts"@)) == count(t.assistant_content.at("parts"@))
            &&& sent.at("text"@) == part.at("text"@)
            &&& sent.at("thoughtSignature"@) == part.at("thoughtSignature"@)
            &&& sent.at("functionCall"@).at("name"@) == part.at("functionCall"@).at("name"@)
            &&& sent.at("functionCall"@).at("args"@) == part.at("functionCall"@).at("args"@)
        }),
{
    words_differ();
    let all = turns.push(t);
    let m = ir.messages[i];
    gemini_members(ir, model, all);
    assert(google_genai::same_call(t.tool_calls[a], m.tool_calls[b]));
    assert(google_genai::turn_matches(t, m));
    assert(all.last() == t);
    assert(google_genai::matching_turn(m, all) == Some(t));
    let parts = t.assistant_content.at("parts"@)->Array_0;
    let sent = parts.map_values(google_genai::replayed_part());
    assert(google_genai::kept_parts(m, all) == Some(sent));
    seqs::take_step(ir.messages, i);
    let before = google_genai::body_of(ir.messages.take(i), all);
    let after = google_genai::body_of(ir.messages.take(i + 1), all);
    body_counts(ir.messages.take(i), all);
    body_stays(ir.messages, all, i + 1);
    let k = before.contents.len() as int;
    let shown = google_genai::worker_body(ir, model, all).at("contents"@).item(k);
    assert(shown == after.contents[k]);
    assert(shown == google_genai::role_and_parts("model"@, sent));
    assert(shown.at("parts"@).item(p) == google_genai::replayed_part()(parts[p]));
    protocol::gemini_laws::replayed_part_keeps_its_signature(parts[p]);
}

/// A turn that makes none of the calls of a message does not stand for it: the message is
/// sent as it would be without the turn, or with an earlier one.
pub proof fn other_turns_are_passed_over(m: MessageView, turns: Seq<TurnView>, t: TurnView)
    requires
        forall|a: int, b: int|
            #![trigger t.tool_calls[a], m.tool_calls[b]]
            0 <= a < t.tool_calls.len() && 0 <= b < m.tool_calls.len() ==> t.tool_calls[a].id
                != Some(m.tool_calls[b].id) && t.tool_calls[a].name != m.tool_calls[b].name,
    ensures
        google_genai::kept_parts(m, turns.push(t)) == google_genai::kept_parts(m, turns),
        google_genai::kept_parts(m, Seq::empty()) is None,
{
    assert(turns.push(t).drop_last() =~= turns);
    assert(turns.push(t).last() == t);
    assert(!google_genai::turn_matches(t, m));
}

/// The signature of a thought behind a call is known from the last kept turn that has one
/// for its identifier.
pub proof fn signatures_are_those_of_the_turns(
    turns: Seq<TurnView>,
    content: JsonView,
    calls: Seq<ToolCallMetaView>,
    c: ToolCallMetaView,
    id: Seq<char>,
)
    ensures
        google_genai::signature_of(
            google_genai::signatures_of_turns(Seq::empty()),
            id,
        ) is None,
        google_genai::signatures_of_turns(
            turns.push(TurnView { assistant_content: content, tool_calls: Seq::empty() }),
        ) == google_genai::signatures_of_turns(turns),
        ({
            let few = google_genai::signatures_of_turns(
                turns.push(TurnView { assistant_content: content, tool_calls: calls }),
            );
            let more = google_genai::signatures_of_turns(
                turns.push(TurnView { assistant_content: content, tool_calls: calls.push(c) }),
            );
            google_genai::signature_of(more, id) == (if c.id == Some(id)
                && c.thought_signature is Some {
                c.thought_signature
            } else {
                google_genai::signature_of(few, id)
            })
        }),
{
    let none = turns.push(TurnView { assistant_content: content, tool_calls: Seq::empty() });
    let few = turns.push(TurnView { assistant_content: content, tool_calls: calls });
    let more = turns.push(TurnView { assistant_content: content, tool_calls: calls.push(c) });
    assert(none.drop_last() =~= turns);
    assert(few.drop_last() =~= turns);
    assert(more.drop_last() =~= turns);
    assert(calls.push(c).drop_last() =~= calls);
}

/// A result is sent under the name of the tool that was called with its identifier, if one
/// is known, or else under its identifier; the identifier is sent too, unless it was made
/// up here or is the name.
pub proof fn results_are_sent_under_their_names(
    m: MessageView,
    names: Map<Seq<char>, Seq<char>>,
    id: Seq<char>,
)
    requires
        m.tool_call_id == Some(id),
    ensures
        ({
            let f = google_genai::body_result(m, names).at("functionResponse"@);
            let name = if names.dom().contains(id) {
                names[id]
            } else {
                id
            };
            &&& f.at("name"@) == JsonView::Str(name)
            &&& f.at("response"@).at("content"@) == JsonView::Str(m.content)
            &&& f.get("id"@) == (if id != name && !google_genai::is_synthesized(id) {
                Some(JsonView::Str(id))
            } else {
                None
            })
        }),
{
    words_differ();
}

/// Whether an assistant calls a tool under an identifier.
pub open spec fn is_called(messages: Seq<MessageView>, id: Seq<char>) -> bool {
    exists|j: int, k: int|
        #![trigger messages[j].tool_calls[k]]
        0 <= j < messages.len() && messages[j].role is Assistant && 0 <= k
            < messages[j].tool_calls.len() && messages[j].tool_calls[k].id == id
}

/// Whether every call of an assistant under an identifier is one of the tool of a name.
pub open spec fn is_only_for(messages: Seq<MessageView>, id: Seq<char>, name: Seq<char>) -> bool {
    forall|j: int, k: int|
        #![trigger messages[j].tool_calls[k]]
        0 <= j < messages.len() && messages[j].role is Assistant && 0 <= k
            < messages[j].tool_calls.len() && messages[j].tool_calls[k].id == id
            ==> messages[j].tool_calls[k].name == name
}

proof fn call_names_join(
    names: Map<Seq<char>, Seq<char>>,
    calls: Seq<ToolCallView>,
    id: Seq<char>,
    name: Seq<char>,
)
    requires
        forall|k: int| 0 <= k < calls.len() && (#[trigger] calls[k]).id == id ==> calls[k].name
            == name,
    ensures
        ({
            let after = google_genai::with_message_names(names, calls);
            let called = exists|k: int| 0 <= k < calls.len() && (#[trigger] calls[k]).id == id;
            &&& called ==> after.dom().contains(id) && after[id] == name
            &&& !called ==> (after.dom().contains(id) <==> names.dom().contains(id)) && (
            names.dom().contains(id) ==> after[id] == names[id])
        }),
    decreases calls.len(),
{
    if calls.len() > 0 {
        let rest = calls.drop_last();
        assert forall|k: int| 0 <= k < rest.len() && (#[trigger] rest[k]).id == id implies rest[k].name
            == name by {
            assert(calls[k] == rest[k]);
        }
        call_names_join(names, rest, id, name);
        assert(calls.last() == calls[calls.len() - 1]);
        if exists|k: int| 0 <= k < calls.len() && (#[trigger] calls[k]).id == id {
            let k = choose|k: int| 0 <= k < calls.len() && (#[trigger] calls[k]).id == id;
            if k < rest.len() {
                assert(rest[k].id == id);
            }
        }
        if exists|k: int| 0 <= k < rest.len() && (#[trigger] rest[k]).id == id {
            let k = choose|k: int| 0 <= k < rest.len() && (#[trigger] rest[k]).id == id;
            assert(calls[k].id == id);
        }
    }
}

proof fn part_names_stay(
    names: Map<Seq<char>, Seq<char>>,
    parts: Seq<JsonView>,
    id: Seq<char>,
    name: Seq<char>,
)
    requires
        names.dom().contains(id) ==> names[id] == name,
        forall|p: int|
            0 <= p < parts.len() && (#[trigger] parts[p]).at("functionCall"@).at("id"@)
                == JsonView::Str(id) ==> parts[p].at("functionCall"@).at("name"@) == JsonView::Str(
                name,
            ) && names.dom().contains(id),
    ensures
        ({
            let after = google_genai::with_part_names(names, parts);
            &&& after.dom().contains(id) <==> names.dom().contains(id)
            &&& names.dom().contains(id) ==> after[id] == name
        }),
    decreases parts.len(),
{
    if parts.len() > 0 {
        let rest = parts.drop_last();
        assert forall|p: int|
            0 <= p < rest.len() && (#[trigger] rest[p]).at("functionCall"@).at("id"@)
                == JsonView::Str(id) implies rest[p].at("functionCall"@).at("name"@)
            == JsonView::Str(name) && names.dom().contains(id) by {
            assert(parts[p] == rest[p]);
        }
        part_names_stay(names, rest, id, name);
        assert(parts.last() == parts[parts.len() - 1]);
    }
}

proof fn known_names_are_those_of_the_calls(
    messages: Seq<MessageView>,
    id: Seq<char>,
    name: Seq<char>,
)
    requires
        is_only_for(messages, id, name),
    ensures
        ({
            let names = google_genai::body_of(messages, Seq::empty()).names;
            &&& is_called(messages, id) ==> names.dom().contains(id) && names[id] == name
            &&& !is_called(messages, id) ==> !names.dom().contains(id)
        }),
    decreases messages.len(),
{
    if messages.len() > 0 {
        words_differ();
        let turns = Seq::<TurnView>::empty();
        let rest = messages.drop_last();
        let m = messages.last();
        assert(m == messages[messages.len() - 1]);
        assert(is_only_for(rest, id, name)) by {
            assert forall|j: int, k: int|
                #![trigger rest[j].tool_calls[k]]
                0 <= j < rest.len() && rest[j].role is Assistant && 0 <= k
                    < rest[j].tool_calls.len() && rest[j].tool_calls[k].id == id
                implies rest[j].tool_calls[k].name == name by {
                assert(messages[j].tool_calls[k] == rest[j].tool_calls[k]);
            }
        }
        known_names_are_those_of_the_calls(rest, id, name);
        let b = google_genai::body_of(rest, turns);
        let calls = m.tool_calls;
        let called = m.role is Assistant && exists|k: int|
            0 <= k < calls.len() && (#[trigger] calls[k]).id == id;
        if is_called(rest, id) {
            let (j, k) = choose|j: int, k: int|
                #![trigger rest[j].tool_calls[k]]
                0 <= j < rest.len() && rest[j].role is Assistant && 0 <= k
                    < rest[j].tool_calls.len() && rest[j].tool_calls[k].id == id;
            assert(messages[j].tool_calls[k].id == id);
        }
        if called {
            let k = choose|k: int| 0 <= k < calls.len() && (#[trigger] calls[k]).id == id;
            assert(messages[messages.len() - 1].tool_calls[k].id == id);
        }
        if is_called(messages, id) && !is_called(rest, id) {
            let (j, k) = choose|j: int, k: int|
                #![trigger messages[j].tool_calls[k]]
                0 <= j < messages.len() && messages[j].role is Assistant && 0 <= k
                    < messages[j].tool_calls.len() && messages[j].tool_calls[k].id == id;
            if j < rest.len() {
                assert(rest[j].tool_calls[k].id == id);
            } else {
                assert(calls[k].id == id);
            }
        }
        if m.role is Assistant && calls.len() > 0 {
            let signatures = google_genai::signatures_of_turns(turns);
            let parts = google_genai::own_parts(m, signatures);
            let joined = google_genai::with_message_names(b.names, calls);
            assert(google_genai::kept_parts(m, turns) is None);
            assert forall|k: int| 0 <= k < calls.len() && (#[trigger] calls[k]).id
                == id implies calls[k].name == name by {
                assert(messages[messages.len() - 1].tool_calls[k].name == name);
            }
            call_names_join(b.names, calls, id, name);
            assert forall|p: int|
                0 <= p < parts.len() && (#[trigger] parts[p]).at("functionCall"@).at("id"@)
                    == JsonView::Str(id) implies parts[p].at("functionCall"@).at("name"@)
                == JsonView::Str(name) && joined.dom().contains(id) by {
                let lead = parts.len() - calls.len();
                if p >= lead {
                    let c = calls[p - lead];
                    assert(parts[p] == google_genai::call_part(
                        c,
                        google_genai::signature_of(signatures, c.id),
                    ));
                    assert(c.id == id);
                }
            }
            part_names_stay(joined, parts, id, name);
        }
    }
}

/// Where no turns are kept, a result is sent under the name of the tool that was called
/// with its identifier before it, or under its identifier where no call has it.
pub proof fn results_have_the_names_of_their_calls(
    ir: RequestView,
    model: Seq<char>,
    i: int,
    id: Seq<char>,
    name: Seq<char>,
)
    requires
        0 <= i < ir.messages.len(),
        ir.messages[i].role is Tool,
        ir.messages[i].tool_call_id == Some(id),
        is_only_for(ir.messages.take(i), id, name),
    ensures
        ({
            let f = google_genai::worker_body(ir, model, Seq::empty()).at("contents"@).item(
                spoken(ir.messages.take(i)) as int,
            ).at("parts"@).item(0).at("functionResponse"@);
            &&& f.at("response"@).at("content"@) == JsonView::Str(ir.messages[i].content)
            &&& f.at("name"@) == JsonView::Str(
                if is_called(ir.messages.take(i), id) {
                    name
                } else {
                    id
                },
            )
        }),
{
    words_differ();
    let turns = Seq::<TurnView>::empty();
    gemini_members(ir, model, turns);
    let m = ir.messages[i];
    seqs::take_step(ir.messages, i);
    let before = google_genai::body_of(ir.messages.take(i), turns);
    let after = google_genai::body_of(ir.messages.take(i + 1), turns);
    body_counts(ir.messages.take(i), turns);
    body_stays(ir.messages, turns, i + 1);
    let k = before.contents.len() as int;
    let shown = google_genai::worker_body(ir, model, turns).at("contents"@).item(k);
    assert(shown == after.contents[k]);
    assert(shown.at("parts"@).item(0) == google_genai::body_result(m, before.names));
    known_names_are_those_of_the_calls(ir.messages.take(i), id, name);
    results_are_sent_under_their_names(m, before.names, id);
}

/// An identifier was made up here exactly if it begins with the mark of those.
pub proof fn made_up_ids_are_marked(id: Seq<char>)
    ensures
        google_genai::is_synthesized(id) <==> text::starts_with_of(id, "gemini_synth_"@),
        google_genai::is_fresh_id(id) ==> text::starts_with_of(id, "gemini_synth_"@),
{
    if google_genai::is_fresh_id(id) {
        google_genai::fresh_id_is_synthesized(id);
    }
}

/// A call that no kept turn stands for is sent with the signature of its thought, if one
/// is known for its identifier.
pub proof fn signatures_are_sent(
    ir: RequestView,
    model: Seq<char>,
    turns: Seq<TurnView>,
    i: int,
    j: int,
)
    requires
        0 <= i < ir.messages.len(),
        ir.messages[i].role is Assistant,
        0 <= j < ir.messages[i].tool_calls.len(),
        google_genai::kept_parts(ir.messages[i], turns) is None,
    ensures
        ({
            let m = ir.messages[i];
            let c = m.tool_calls[j];
            let lead: int = if m.content.len() > 0 {
                1
            } else {
                0
            };
            let f = google_genai::worker_body(ir, model, turns).at("contents"@).item(
                spoken(ir.messages.take(i)) as int,
            ).at("parts"@).item(lead + j).at("functionCall"@);
            &&& f.at("name"@) == JsonView::Str(c.name)
            &&& f.at("args"@) == c.arguments
            &&& f.at("id"@).as_str() == (if c.id.len() > 0 && !text::starts_with_of(
                c.id,
                "gemini_synth_"@,
            ) {
                Some(c.id)
            } else {
                None
            })
            &&& f.at("thoughtSignature"@).as_str() == google_genai::signature_of(
                google_genai::signatures_of_turns(turns),
                c.id,
            )
        }),
{
    words_differ();
    gemini_members(ir, model, turns);
    let m = ir.messages[i];
    let signatures = google_genai::signatures_of_turns(turns);
    let own = google_genai::own_parts(m, signatures);
    seqs::take_step(ir.messages, i);
    let before = google_genai::body_of(ir.messages.take(i), turns);
    let after = google_genai::body_of(ir.messages.take(i + 1), turns);
    body_counts(ir.messages.take(i), turns);
    body_stays(ir.messages, turns, i + 1);
    let k = before.contents.len() as int;
    let shown = google_genai::worker_body(ir, model, turns).at("contents"@).item(k);
    assert(shown == after.contents[k]);
    assert(shown == google_genai::role_and_parts("model"@, own));
    let lead = own.len() - m.tool_calls.len();
    assert(own[lead + j] == google_genai::signed_calls(m.tool_calls, signatures)[j]);
    assert(shown.at("parts"@).item(lead + j) == google_genai::call_part(
        m.tool_calls[j],
        google_genai::signature_of(signatures, m.tool_calls[j].id),
    ));
}

/// The name of the tool of a kept call is known by its identifier.
pub proof fn kept_calls_are_known_by_name(
    turns: Seq<TurnView>,
    content: JsonView,
    calls: Seq<ToolCallMetaView>,
    c: ToolCallMetaView,
    id: Seq<char>,
)
    requires
        !(content.at("parts"@) is Array),
        !(content is Array),
    ensures
        ({
            let few = google_genai::names_of_turns(
                turns.push(TurnView { assistant_content: content, tool_calls: calls }),
            );
            let more = google_genai::names_of_turns(
                turns.push(TurnView { assistant_content: content, tool_calls: calls.push(c) }),
            );
            &&& c.id == Some(id) ==> more.dom().contains(id) && more[id] == c.name
            &&& c.id != Some(id) ==> (more.dom().contains(id) <==> few.dom().contains(id)) && (
            few.dom().contains(id) ==> more[id] == few[id])
        }),
        google_genai::names_of_turns(Seq::empty()) == Map::<Seq<char>, Seq<char>>::empty(),
{
    let few = turns.push(TurnView { assistant_content: content, tool_calls: calls });
    let more = turns.push(TurnView { assistant_content: content, tool_calls: calls.push(c) });
    assert(few.drop_last() =~= turns);
    assert(more.drop_last() =~= turns);
    assert(calls.push(c).drop_last() =~= calls);
}

/// The function calls among the parts of a kept turn name their tools, too: one more part
/// names the tool of its identifier, and any other changes nothing.
pub proof fn kept_parts_are_known_by_name(
    names: Map<Seq<char>, Seq<char>>,
    parts: Seq<JsonView>,
    p: JsonView,
    id: Seq<char>,
    name: Seq<char>,
)
    ensures
        google_genai::with_part_names(names, Seq::empty()) == names,
        ({
            let f = p.at("functionCall"@);
            let before = google_genai::with_part_names(names, parts);
            let after = google_genai::with_part_names(names, parts.push(p));
            &&& f.at("id"@) == JsonView::Str(id) && f.at("name"@) == JsonView::Str(name)
                && id.len() > 0 && name.len() > 0 ==> after == before.insert(id, name)
            &&& !(f.at("id"@) is Str) || !(f.at("name"@) is Str) ==> after == before
        }),
{
    assert(parts.push(p).drop_last() =~= parts);
}

} // verus!
