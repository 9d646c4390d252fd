//! What holds of the judge: it is shown everything, and what it writes in the form that it
//! is asked for is read.

use vstd::prelude::*;

use crate::engine::judge::{
    answer_section, answer_sections, bullet_text, bullets_of, contradictions_of, instructions,
    is_trimmed, judge_output, judge_prompt, reading_of, section_of, stated_position_is_read,
    stated_topic_is_read, trimmed_text_stays, with_line,
};
use crate::engine::said_by;
use crate::protocol::{RequestView, Role, WorkerResultView};
use crate::seqs;
use crate::text;
use crate::text_laws::{
    finding_is_first, lines_are_read_in_order, occurs_in_itself, occurs_in_more,
};

verus! {

// ---------------------------------------------------------------------------
// What the judge is shown
// ---------------------------------------------------------------------------

proof fn sections_have(results: Seq<WorkerResultView>, i: int, p: Seq<char>)
    requires
        0 <= i < results.len(),
        text::contains_of(answer_section(results[i], (i + 1) as nat), p),
    ensures
        text::contains_of(answer_sections(results), p),
    decreases results.len(),
{
    let rest = answer_sections(results.drop_last());
    let last = answer_section(results.last(), results.len());
    if i == results.len() - 1 {
        occurs_in_more(rest, last, Seq::empty(), p);
        assert(rest + last + Seq::<char>::empty() =~= rest + last);
    } else {
        sections_have(results.drop_last(), i, p);
        occurs_in_more(Seq::empty(), rest, last, p);
        assert(Seq::<char>::empty() + rest + last =~= rest + last);
    }
}

/// The prompt of the judge shows what the user asks, what the system says, and, for every
/// worker that answered, its number, its model and its answer.
pub proof fn judge_is_shown_everything(
    ir: RequestView,
    results: Seq<WorkerResultView>,
    i: int,
)
    ensures
        ({
            let prompt = judge_prompt(ir, results);
            &&& text::contains_of(prompt, said_by(ir.messages, Role::User))
            &&& text::contains_of(prompt, said_by(ir.messages, Role::System))
            &&& 0 <= i < results.len() && results[i].response is Some ==> {
                &&& text::contains_of(prompt, results[i].response->0.content)
                &&& text::contains_of(
                    prompt,
                    "### Model "@ + text::decimal_of((i + 1) as nat) + ": "@ + results[i].model,
                )
            }
        }),
{
    let prompt = judge_prompt(ir, results);
    let a =
        "You are a synthesis judge. Analyze the following responses from multiple AI models to the same question, then produce a structured analysis.\n\n## User Question\n"@;
    let user = said_by(ir.messages, Role::User);
    let b = "\n\n## System Context (if any)\n"@;
    let system = said_by(ir.messages, Role::System);
    let c = "\n\n## Model Responses\n"@;
    let shown = answer_sections(results);
    let end = instructions();
    occurs_in_itself(user);
    occurs_in_more(a, user, b + system + c + shown + end, user);
    assert(a + user + (b + system + c + shown + end) =~= prompt);
    occurs_in_itself(system);
    occurs_in_more(a + user + b, system, c + shown + end, system);
    assert((a + user + b) + system + (c + shown + end) =~= prompt);
    if 0 <= i < results.len() && results[i].response is Some {
        let w = results[i];
        let content = w.response->0.content;
        let n = (i + 1) as nat;
        let title = "### Model "@ + text::decimal_of(n) + ": "@ + w.model;
        let one = answer_section(w, n);
        let none = Seq::<char>::empty();
        occurs_in_itself(title);
        occurs_in_more(none, title, "\n\n"@ + content + "\n\n"@, title);
        assert(none + title + ("\n\n"@ + content + "\n\n"@) =~= one);
        sections_have(results, i, title);
        occurs_in_more(a + user + b + system + c, shown, end, title);
        occurs_in_itself(content);
        occurs_in_more(title + "\n\n"@, content, "\n\n"@, content);
        assert((title + "\n\n"@) + content + "\n\n"@ =~= one);
        sections_have(results, i, content);
        occurs_in_more(a + user + b + system + c, shown, end, content);
    }
}

// ---------------------------------------------------------------------------
// What is read of its answer
// ---------------------------------------------------------------------------

/// Whether a text can stand under a heading: it says something, has no white space at its
/// ends, and no heading begins in it.
pub open spec fn can_be_section(body: Seq<char>) -> bool {
    is_trimmed(body) && !text::contains_of("\n"@ + body + "\n###"@, "\n### "@)
}

/// An answer in which a section stands under a heading: after something in which that
/// heading does not begin, and before nothing or another heading.
pub open spec fn with_section(
    head: Seq<char>,
    marker: Seq<char>,
    body: Seq<char>,
    rest: Seq<char>,
) -> Seq<char> {
    head + ("### "@ + marker) + "\n"@ + body + rest
}

/// Whether the heading stands first where it is put, and the section ends where the rest
/// begins.
pub open spec fn is_under_heading(
    head: Seq<char>,
    marker: Seq<char>,
    body: Seq<char>,
    rest: Seq<char>,
) -> bool {
    &&& can_be_section(body)
    &&& rest.len() == 0 || text::starts_with_of(rest, "\n### "@)
    &&& forall|k: int|
        0 <= k < head.len() ==> !#[trigger] text::occurs_at(
            with_section(head, marker, body, rest),
            "### "@ + marker,
            k,
        )
}

/// A section that stands under its heading is read as it is.
pub proof fn stated_section_is_read(
    head: Seq<char>,
    marker: Seq<char>,
    body: Seq<char>,
    rest: Seq<char>,
)
    requires
        is_under_heading(head, marker, body, rest),
    ensures
        section_of(with_section(head, marker, body, rest), marker) == body,
{
    reveal_strlit("\n");
    reveal_strlit("\n### ");
    reveal_strlit("\n###");
    let heading = "### "@ + marker;
    let raw = with_section(head, marker, body, rest);
    let n = head.len() as int;
    assert(raw.subrange(n, n + heading.len()) =~= heading);
    assert(text::occurs_at(raw, heading, n));
    finding_is_first(raw, heading, n);
    let after = raw.skip(n + heading.len());
    let line = "\n"@ + body;
    assert(after =~= line + rest);
    let mark = "\n### "@;
    let closed = line + "\n###"@;
    let m = line.len() as int;
    assert forall|k: int| 0 <= k < m implies !text::occurs_at(after, mark, k) by {
        if text::occurs_at(after, mark, k) {
            assert(after.subrange(k, k + 5) == mark);
            assert forall|j: int| 0 <= j < 5 implies closed[k + j] == mark[j] by {
                assert(after.subrange(k, k + 5)[j] == after[k + j]);
                if k + j >= m {
                    assert(rest.subrange(0, 5) == mark);
                    assert(rest[k + j - m] == rest.subrange(0, 5)[k + j - m]);
                    assert("\n###"@[k + j - m] == mark[k + j - m]);
                }
            }
            assert(closed.subrange(k, k + 5) =~= mark);
            assert(text::occurs_at(closed, mark, k));
        }
    }
    if rest.len() > 0 {
        assert(rest.subrange(0, 5) == mark);
        assert(after.subrange(m, m + 5) =~= mark);
        assert(text::occurs_at(after, mark, m));
        finding_is_first(after, mark, m);
        assert(after.take(m) =~= line);
    } else {
        assert(after =~= line);
        if text::contains_of(after, mark) {
            let k = choose|k: int| text::occurs_at(after, mark, k);
            assert(!text::occurs_at(after, mark, k));
        }
        finding_is_first(after, mark, 0);
    }
    assert(line.drop_first() =~= body);
    assert(line[0] == '\n');
    trimmed_text_stays(body);
    reveal_with_fuel(text::trim_start_of, 2);
}

/// The synthesis that stands under its heading is the synthesis, and so are the points of
/// agreement, the contradictions and the blind spots those under theirs.
pub proof fn stated_sections_are_the_output(
    head: Seq<char>,
    body: Seq<char>,
    rest: Seq<char>,
)
    ensures
        is_under_heading(head, "SYNTHESIS"@, body, rest) ==> judge_output(
            with_section(head, "SYNTHESIS"@, body, rest),
        ).synthesis == body,
        is_under_heading(head, "CONSENSUS"@, body, rest) ==> judge_output(
            with_section(head, "CONSENSUS"@, body, rest),
        ).consensus == bullets_of(body),
        is_under_heading(head, "CONTRADICTIONS"@, body, rest) ==> judge_output(
            with_section(head, "CONTRADICTIONS"@, body, rest),
        ).contradictions == contradictions_of(body),
        is_under_heading(head, "BLIND SPOTS"@, body, rest) ==> judge_output(
            with_section(head, "BLIND SPOTS"@, body, rest),
        ).blind_spots == bullets_of(body),
{
    if is_under_heading(head, "SYNTHESIS"@, body, rest) {
        stated_section_is_read(head, "SYNTHESIS"@, body, rest);
        trimmed_text_stays(body);
    }
    if is_under_heading(head, "CONSENSUS"@, body, rest) {
        stated_section_is_read(head, "CONSENSUS"@, body, rest);
    }
    if is_under_heading(head, "CONTRADICTIONS"@, body, rest) {
        stated_section_is_read(head, "CONTRADICTIONS"@, body, rest);
    }
    if is_under_heading(head, "BLIND SPOTS"@, body, rest) {
        stated_section_is_read(head, "BLIND SPOTS"@, body, rest);
    }
}

/// A list is read point by point: a line with a point gives the point, without its dash,
/// before those of the other lines; a line that is no point gives none.
pub proof fn stated_points_are_read(p: Seq<char>, line: Seq<char>, rest: Seq<char>)
    requires
        is_trimmed(p),
        !p.contains('\n'),
        line.len() > 0,
        !line.contains('\n'),
        text::trim_start_of(line).len() > 0,
        text::trim_start_of(line)[0] != '-',
        line.last() != '\r',
    ensures
        bullets_of("- "@ + p + "\n"@ + rest) == seq![p] + bullets_of(rest),
        bullets_of("- "@ + p) == seq![p],
        bullets_of(line + "\n"@ + rest) == bullets_of(rest),
        bullets_of(Seq::empty()).len() == 0,
{
    reveal_strlit("- ");
    reveal_strlit("-");
    reveal_strlit(" ");
    let f = bullet_text();
    let bullet = "- "@ + p;
    assert(!bullet.contains('\n')) by {
        if bullet.contains('\n') {
            let k = bullet.index_of('\n');
            assert(p[k - 2] == '\n');
            assert(p.contains('\n'));
        }
    }
    assert(bullet.last() == p.last());
    lines_are_read_in_order(bullet, rest);
    assert(p.last() != '\r');
    assert(f(bullet) == Some(p)) by {
        assert(bullet[0] == '-' && bullet[1] == ' ');
        assert(text::trim_start_of(bullet) == bullet);
        assert(bullet.subrange(0, 1) =~= "-"@);
        assert(bullet.drop_first() =~= " "@ + p);
        reveal_with_fuel(text::trim_start_char_of, 2);
        assert((" "@ + p)[0] == ' ');
        trimmed_text_stays(p);
    }
    let all = text::lines_of(rest);
    seqs::picks_concat(seq![bullet], all, f);
    seqs::picks_all(seq![bullet], f, seq![p]);
    lines_are_read_in_order(line, rest);
    assert(f(line) is None) by {
        let t = text::trim_start_of(line);
        if text::starts_with_of(t, "-"@) {
            assert(t.subrange(0, 1)[0] == t[0]);
            assert("-"@[0] == '-');
        }
    }
    seqs::picks_concat(seq![line], all, f);
    seqs::picks_none(seq![line], f);
    assert(Seq::<Seq<char>>::empty() + all.filter_map(f) =~= all.filter_map(f));
    assert(text::lines_of(Seq::empty()) =~= Seq::empty());
}

/// A list of contradictions is read line by line: a further topic is a further
/// contradiction without positions, and a position under it is added to its positions;
/// the others stay.
pub proof fn stated_contradictions_are_read(
    few: Seq<char>,
    more: Seq<char>,
    line: Seq<char>,
    name: Seq<char>,
    said: Seq<char>,
)
    requires
        text::lines_of(more) == text::lines_of(few).push(line),
        is_trimmed(name),
        is_trimmed(said),
        contradictions_of(few).len() == 0 ==> reading_of(text::lines_of(few)).topic is None,
        contradictions_of(few).len() > 0 ==> reading_of(text::lines_of(few)).topic is Some
            && reading_of(text::lines_of(few)).topic->0.len() > 0,
    ensures
        line == "- **"@ + name + "**: "@ + said && !text::contains_of(name.push('*'), "**"@) ==> {
            let before = contradictions_of(few);
            let after = contradictions_of(more);
            &&& after.len() == before.len() + 1
            &&& after.drop_last() == before
            &&& after.last().topic == name
            &&& after.last().views.len() == 0
        },
        line == "  - "@ + name + ": "@ + said && !name.contains(':') && name[0] != '*'
            && contradictions_of(few).len() > 0 ==> {
            let before = contradictions_of(few);
            let after = contradictions_of(more);
            &&& after.len() == before.len()
            &&& after.drop_last() == before.drop_last()
            &&& after.last().topic == before.last().topic
            &&& after.last().views.len() == before.last().views.len() + 1
            &&& after.last().views.drop_last() == before.last().views
            &&& after.last().views.last().model == name
            &&& after.last().views.last().position == said
        },
{
    let a = reading_of(text::lines_of(few));
    assert(text::lines_of(more).drop_last() =~= text::lines_of(few));
    no_views_without_topic(text::lines_of(few));
    if line == "- **"@ + name + "**: "@ + said && !text::contains_of(name.push('*'), "**"@) {
        stated_topic_is_read(a, name, said);
        assert(contradictions_of(more).drop_last() =~= contradictions_of(few));
    }
    if line == "  - "@ + name + ": "@ + said && !name.contains(':') && name[0] != '*'
        && contradictions_of(few).len() > 0 {
        stated_position_is_read(a, name, said);
        let b = with_line(a, line);
        assert(contradictions_of(more).drop_last() =~= contradictions_of(few).drop_last());
        assert(b.views.drop_last() =~= a.views);
    }
}

proof fn no_views_without_topic(lines: Seq<Seq<char>>)
    ensures
        reading_of(lines).topic is None ==> reading_of(lines).views.len() == 0 && reading_of(
            lines,
        ).done.len() == 0,
    decreases lines.len(),
{
    if lines.len() > 0 {
        no_views_without_topic(lines.drop_last());
    }
}

/// The judge is told to write its answer under the headings under which it is read, with
/// topics and positions in the form in which they are read.
pub proof fn judge_is_told_the_form()
    ensures
        text::contains_of(instructions(), "### CONSENSUS"@),
        text::contains_of(instructions(), "### CONTRADICTIONS"@),
        text::contains_of(instructions(), "### BLIND SPOTS"@),
        text::contains_of(instructions(), "### SYNTHESIS"@),
        text::contains_of(instructions(), "- **Topic**"@),
        text::contains_of(instructions(), "  - Model A: "@),
{
    let all = instructions();
    reveal_strlit("\n\n## Instructions\n\nAnalyze all responses and output the following sections using EXACTLY the markers shown:\n\n### CONSENSUS\nList all points where the models agree. One bullet per point.\n- Point 1\n- Point 2\n\n### CONTRADICTIONS\nList topics where models disagree. For each, note which model said what.\n- **Topic**: description\n  - Model A: its position\n  - Model B: its position\n\n### BLIND SPOTS\nList important angles, risks, or caveats that NO model addressed.\n- Blind spot 1\n- Blind spot 2\n\n### SYNTHESIS\nWrite the best possible unified answer, combining the strongest reasoning from all models. This should read as a single polished response. Do NOT mention individual model names in the synthesis.\n");
    reveal_strlit("### CONSENSUS");
    assert(all.subrange(109, 122) =~= "### CONSENSUS"@);
    assert(text::occurs_at(all, "### CONSENSUS"@, 109));
    reveal_strlit("### CONTRADICTIONS");
    assert(all.subrange(206, 224) =~= "### CONTRADICTIONS"@);
    assert(text::occurs_at(all, "### CONTRADICTIONS"@, 206));
    reveal_strlit("### BLIND SPOTS");
    assert(all.subrange(376, 391) =~= "### BLIND SPOTS"@);
    assert(text::occurs_at(all, "### BLIND SPOTS"@, 376));
    reveal_strlit("### SYNTHESIS");
    assert(all.subrange(489, 502) =~= "### SYNTHESIS"@);
    assert(text::occurs_at(all, "### SYNTHESIS"@, 489));
    reveal_strlit("- **Topic**");
    assert(all.subrange(298, 309) =~= "- **Topic**"@);
    assert(text::occurs_at(all, "- **Topic**"@, 298));
    reveal_strlit("  - Model A: ");
    assert(all.subrange(323, 336) =~= "  - Model A: "@);
    assert(text::occurs_at(all, "  - Model A: "@, 323));
}

} // verus!
