//! What the judge is asked when it compares answers, and how its answer is read.

use vstd::prelude::*;

use crate::engine;
use crate::engine::{said_by, Contradiction, ContradictionModel, ContradictionView, PositionModel};
use crate::error::OpenFusionError;
use crate::protocol::{IntermediateRequest, RequestView, Role, WorkerResult, WorkerResultView};
use crate::seqs;
use crate::text;

verus! {

/// What a judge finds.
#[derive(Debug)]
pub struct JudgeOutput {
    pub synthesis: String,
    pub consensus: Vec<String>,
    pub contradictions: Vec<Contradiction>,
    pub blind_spots: Vec<String>,
}

#[verifier::ext_equal]
pub struct JudgeOutputView {
    pub synthesis: Seq<char>,
    pub consensus: Seq<Seq<char>>,
    pub contradictions: Seq<ContradictionModel>,
    pub blind_spots: Seq<Seq<char>>,
}

impl DeepView for JudgeOutput {
    type V = JudgeOutputView;

    open spec fn deep_view(&self) -> JudgeOutputView {
        JudgeOutputView {
            synthesis: self.synthesis@,
            consensus: self.consensus.deep_view(),
            contradictions: self.contradictions.deep_view(),
            blind_spots: self.blind_spots.deep_view(),
        }
    }
}

// ---------------------------------------------------------------------------
// The prompt
// ---------------------------------------------------------------------------

/// What the judge is shown of one answer; nothing, if there is none.
pub open spec fn answer_section(w: WorkerResultView, number: nat) -> Seq<char> {
    match w.response {
        Some(r) => "### Model "@ + text::decimal_of(number) + ": "@ + w.model + "\n\n"@ + r.content
            + "\n\n"@,
        None => Seq::empty(),
    }
}

/// What the judge is shown of some answers.
pub open spec fn answer_sections(results: Seq<WorkerResultView>) -> Seq<char>
    decreases results.len(),
{
    if results.len() == 0 {
        Seq::empty()
    } else {
        answer_sections(results.drop_last()) + answer_section(results.last(), results.len())
    }
}

/// What the judge is told to do with the answers.
pub open spec fn instructions() -> Seq<char> {
    "\n\n## Instructions\n\nAnalyze all responses and output the following sections using EXACTLY the markers shown:\n\n### CONSENSUS\nList all points where the models agree. One bullet per point.\n- Point 1\n- Point 2\n\n### CONTRADICTIONS\nList topics where models disagree. For each, note which model said what.\n- **Topic**: description\n  - Model A: its position\n  - Model B: its position\n\n### BLIND SPOTS\nList important angles, risks, or caveats that NO model addressed.\n- Blind spot 1\n- Blind spot 2\n\n### SYNTHESIS\nWrite the best possible unified answer, combining the strongest reasoning from all models. This should read as a single polished response. Do NOT mention individual model names in the synthesis.\n"@
}

/// The prompt of the judge.
pub open spec fn judge_prompt(ir: RequestView, results: Seq<WorkerResultView>) -> Seq<char> {
    "You are a synthesis judge. Analyze the following responses from multiple AI models to the same question, then produce a structured analysis.\n\n## User Question\n"@
        + said_by(ir.messages, Role::User) + "\n\n## System Context (if any)\n"@ + said_by(
        ir.messages,
        Role::System,
    ) + "\n\n## Model Responses\n"@ + answer_sections(results) + instructions()
}

/// The models of some results.
pub open spec fn results_view(results: Seq<&WorkerResult>) -> Seq<WorkerResultView> {
    Seq::new(results.len(), |i: int| results[i].deep_view())
}

/// The prompt of the judge.
pub fn build_judge_prompt(request: &IntermediateRequest, worker_results: &[&WorkerResult]) -> (r:
    String)
    ensures
        r@ == judge_prompt(request.deep_view(), results_view(worker_results@)),
{
    let ghost all = results_view(worker_results@);
    let mut answers = String::new();
    let mut i: usize = 0;
    proof {
        seqs::take_ends(all);
    }
    while i < worker_results.len()
        invariant
            i <= worker_results@.len(),
            all == results_view(worker_results@),
            answers@ == answer_sections(all.take(i as int)),
        decreases worker_results.len() - i,
    {
        proof {
            seqs::take_step(all, i as int);
        }
        let ghost before = answers@;
        let wr: &WorkerResult = worker_results[i];
        if let Some(resp) = &wr.response {
            let mut part = text::concat("### Model ", text::decimal(i as u64 + 1).as_str());
            part.append(": ");
            part.append(wr.model.as_str());
            part.append("\n\n");
            part.append(resp.content.as_str());
            part.append("\n\n");
            answers.append(part.as_str());
        } else {
            assert(before + Seq::<char>::empty() =~= before);
        }
        i += 1;
    }
    proof {
        seqs::take_ends(all);
    }
    let mut prompt = text::concat(
        "You are a synthesis judge. Analyze the following responses from multiple AI models to the same question, then produce a structured analysis.\n\n## User Question\n",
        engine::original_prompt(request).as_str(),
    );
    prompt.append("\n\n## System Context (if any)\n");
    prompt.append(engine::system_context(request).as_str());
    prompt.append("\n\n## Model Responses\n");
    prompt.append(answers.as_str());
    prompt.append(
        "\n\n## Instructions\n\nAnalyze all responses and output the following sections using EXACTLY the markers shown:\n\n### CONSENSUS\nList all points where the models agree. One bullet per point.\n- Point 1\n- Point 2\n\n### CONTRADICTIONS\nList topics where models disagree. For each, note which model said what.\n- **Topic**: description\n  - Model A: its position\n  - Model B: its position\n\n### BLIND SPOTS\nList important angles, risks, or caveats that NO model addressed.\n- Blind spot 1\n- Blind spot 2\n\n### SYNTHESIS\nWrite the best possible unified answer, combining the strongest reasoning from all models. This should read as a single polished response. Do NOT mention individual model names in the synthesis.\n",
    );
    prompt
}

// ---------------------------------------------------------------------------
// The answer
// ---------------------------------------------------------------------------

/// The text up to the next heading, without white space around it.
pub open spec fn until_heading(s: Seq<char>) -> Seq<char> {
    text::trim_of(
        match text::find_of(s, "\n### "@) {
            Some(i) => s.take(i),
            None => s,
        },
    )
}

/// The section under a marker: that of the heading with the marker, or else what follows
/// the marker itself; empty where neither is there.
pub open spec fn section_of(s: Seq<char>, marker: Seq<char>) -> Seq<char> {
    let heading = "### "@ + marker;
    match text::find_of(s, heading) {
        Some(i) => until_heading(s.skip(i + heading.len())),
        None => match text::find_of(s, marker) {
            Some(i) => until_heading(s.skip(i + marker.len())),
            None => Seq::empty(),
        },
    }
}

/// The text of a line that is a bullet and says something.
pub open spec fn bullet_text() -> spec_fn(Seq<char>) -> Option<Seq<char>> {
    |line: Seq<char>|
        {
            let point = text::trim_of(text::trim_start_char_of(line, '-'));
            if text::starts_with_of(text::trim_start_of(line), "-"@) && point.len() > 0 {
                Some(point)
            } else {
                None
            }
        }
}

/// The points of a list.
pub open spec fn bullets_of(s: Seq<char>) -> Seq<Seq<char>> {
    text::lines_of(s).filter_map(bullet_text())
}

/// What is known while a list of contradictions is read: those that are complete, the
/// topic of the current one, and the positions on it.
#[verifier::ext_equal]
pub struct ReadingView {
    pub done: Seq<ContradictionModel>,
    pub topic: Option<Seq<char>>,
    pub views: Seq<PositionModel>,
}

/// The text before the first colon, or all of it, without white space around it.
pub open spec fn before_colon(s: Seq<char>) -> Seq<char> {
    text::trim_of(
        match text::find_of(s, ":"@) {
            Some(i) => s.take(i),
            None => s,
        },
    )
}

/// The topic that a line states: what stands before the asterisks that close it. Where
/// nothing closes it, it ends at the first colon.
pub open spec fn topic_of(s: Seq<char>) -> Seq<char> {
    match text::find_of(s, "**"@) {
        Some(i) => text::trim_of(s.take(i)),
        None => before_colon(s),
    }
}

/// The position that a line states, if it names a model.
pub open spec fn position_of(content: Seq<char>) -> Option<PositionModel> {
    match text::find_of(content, ":"@) {
        Some(i) => Some(
            PositionModel {
                model: text::trim_of(content.take(i)),
                position: text::trim_of(content.skip(i + 1)),
            },
        ),
        None => None,
    }
}

/// What is known after one more line: a topic begins with a dash and two asterisks, and a
/// position on it is indented by two blanks.
pub open spec fn with_line(a: ReadingView, line: Seq<char>) -> ReadingView {
    let trimmed = text::trim_of(line);
    if text::starts_with_of(trimmed, "- **"@) {
        ReadingView {
            done: match a.topic {
                Some(topic) => a.done.push(ContradictionModel { topic, views: a.views }),
                None => a.done,
            },
            topic: Some(topic_of(trimmed.skip(4))),
            views: match a.topic {
                Some(_) => Seq::empty(),
                None => a.views,
            },
        }
    } else if text::starts_with_of(line, "  - "@) && a.topic is Some {
        match position_of(text::trim_of(line.skip(4))) {
            Some(p) => ReadingView { views: a.views.push(p), ..a },
            None => a,
        }
    } else {
        a
    }
}

/// What is known after some lines.
pub open spec fn reading_of(lines: Seq<Seq<char>>) -> ReadingView
    decreases lines.len(),
{
    if lines.len() == 0 {
        ReadingView { done: Seq::empty(), topic: None, views: Seq::empty() }
    } else {
        with_line(reading_of(lines.drop_last()), lines.last())
    }
}

/// The contradictions of a list.
pub open spec fn contradictions_of(s: Seq<char>) -> Seq<ContradictionModel> {
    let a = reading_of(text::lines_of(s));
    match a.topic {
        Some(topic) => if topic.len() > 0 {
            a.done.push(ContradictionModel { topic, views: a.views })
        } else {
            a.done
        },
        None => a.done,
    }
}

/// What the answer of a judge says. Sections that are missing are empty; an answer
/// without a synthesis is one as a whole.
pub open spec fn judge_output(raw: Seq<char>) -> JudgeOutputView {
    let synthesis = section_of(raw, "SYNTHESIS"@);
    JudgeOutputView {
        synthesis: if text::trim_of(synthesis).len() == 0 {
            raw
        } else {
            synthesis
        },
        consensus: bullets_of(section_of(raw, "CONSENSUS"@)),
        contradictions: contradictions_of(section_of(raw, "CONTRADICTIONS"@)),
        blind_spots: bullets_of(section_of(raw, "BLIND SPOTS"@)),
    }
}

/// The section that begins at position `from` of `v`.
fn section_from(v: &Vec<char>, from: usize) -> (r: String)
    requires
        from <= v@.len(),
    ensures
        r@ == until_heading(v@.skip(from as int)),
{
    let rest = text::slice(v, from, v.len());
    assert(rest@ =~= v@.skip(from as int));
    let w = text::chars(rest.as_str());
    match text::find_chars(&w, &text::chars("\n### "), 0) {
        Some(i) => {
            assert(w@.subrange(0, i as int) =~= w@.take(i as int));
            text::trim(text::slice(&w, 0, i).as_str())
        },
        None => text::trim(rest.as_str()),
    }
}

/// The section under a marker.
pub fn extract_section(text: &str, marker: &str) -> (r: String)
    ensures
        r@ == section_of(text@, marker@),
{
    let v = text::chars(text);
    let heading = text::chars(text::concat("### ", marker).as_str());
    if let Some(i) = text::find_chars(&v, &heading, 0) {
        return section_from(&v, i + heading.len());
    }
    let alone = text::chars(marker);
    if let Some(i) = text::find_chars(&v, &alone, 0) {
        return section_from(&v, i + alone.len());
    }
    String::new()
}

fn text_of_bullet(line: &String) -> (r: Option<String>)
    ensures
        r.deep_view() == bullet_text()(line@),
{
    if !text::starts_with(text::trim_start(line.as_str()).as_str(), "-") {
        return None;
    }
    let point = text::trim(text::trim_start_char(line.as_str(), '-').as_str());
    if point.as_str().is_empty() {
        None
    } else {
        Some(point)
    }
}

/// The points of a list.
pub fn parse_bullets(text: &str) -> (r: Vec<String>)
    ensures
        r.deep_view() == bullets_of(text@),
{
    seqs::pick_all(&text::lines(text), text_of_bullet, Ghost(bullet_text()))
}

fn text_before_colon(s: &str) -> (r: String)
    ensures
        r@ == before_colon(s@),
{
    let v = text::chars(s);
    match text::find_chars(&v, &text::chars(":"), 0) {
        Some(i) => {
            assert(v@.subrange(0, i as int) =~= s@.take(i as int));
            text::trim(text::slice(&v, 0, i).as_str())
        },
        None => text::trim(s),
    }
}

fn topic_in(s: &str) -> (r: String)
    ensures
        r@ == topic_of(s@),
{
    let v = text::chars(s);
    match text::find_chars(&v, &text::chars("**"), 0) {
        Some(i) => {
            assert(v@.subrange(0, i as int) =~= s@.take(i as int));
            text::trim(text::slice(&v, 0, i).as_str())
        },
        None => text_before_colon(s),
    }
}

fn position_in(content: &str) -> (r: Option<ContradictionView>)
    ensures
        r.deep_view() == position_of(content@),
{
    let v = text::chars(content);
    proof {
        reveal_strlit(":");
    }
    match text::find_chars(&v, &text::chars(":"), 0) {
        Some(i) => {
            assert(v@.subrange(0, i as int) =~= content@.take(i as int));
            assert(v@.subrange(i + 1, v@.len() as int) =~= content@.skip(i + 1));
            Some(
                ContradictionView {
                    model: text::trim(text::slice(&v, 0, i).as_str()),
                    position: text::trim(text::slice(&v, i + 1, v.len()).as_str()),
                },
            )
        },
        None => None,
    }
}

/// A list of contradictions while it is read.
struct Reading {
    done: Vec<Contradiction>,
    topic: Option<String>,
    views: Vec<ContradictionView>,
}

impl DeepView for Reading {
    type V = ReadingView;

    closed spec fn deep_view(&self) -> ReadingView {
        ReadingView {
            done: self.done.deep_view(),
            topic: self.topic.deep_view(),
            views: self.views.deep_view(),
        }
    }
}

fn read_line(a: Reading, line: &str) -> (r: Reading)
    ensures
        r.deep_view() == with_line(a.deep_view(), line@),
{
    let trimmed = text::trim(line);
    let v = text::chars(trimmed.as_str());
    proof {
        reveal_strlit("- **");
        reveal_strlit("  - ");
    }
    if text::starts_with(trimmed.as_str(), "- **") {
        let rest = text::slice(&v, 4, v.len());
        assert(rest@ =~= trimmed@.skip(4));
        let mut done = a.done;
        let views = match a.topic {
            Some(topic) => {
                seqs::put(&mut done, Contradiction { topic, views: a.views });
                seqs::none()
            },
            None => a.views,
        };
        return Reading { done, topic: Some(topic_in(rest.as_str())), views };
    }
    if text::starts_with(line, "  - ") && a.topic.is_some() {
        let w = text::chars(line);
        let rest = text::slice(&w, 4, w.len());
        assert(rest@ =~= line@.skip(4));
        if let Some(p) = position_in(text::trim(rest.as_str()).as_str()) {
            let mut views = a.views;
            seqs::put(&mut views, p);
            return Reading { done: a.done, topic: a.topic, views };
        }
    }
    a
}

/// The contradictions of a list.
pub fn parse_contradictions(text: &str) -> (r: Vec<Contradiction>)
    ensures
        r.deep_view() == contradictions_of(text@),
{
    let lines = text::lines(text);
    let ghost all = lines.deep_view();
    let mut a = Reading { done: seqs::none(), topic: None, views: seqs::none() };
    let mut i: usize = 0;
    proof {
        seqs::take_ends(all);
    }
    while i < lines.len()
        invariant
            i <= lines@.len(),
            all == lines.deep_view(),
            all.len() == lines@.len(),
            a.deep_view() == reading_of(all.take(i as int)),
        decreases lines.len() - i,
    {
        proof {
            seqs::take_step(all, i as int);
        }
        a = read_line(a, lines[i].as_str());
        i += 1;
    }
    proof {
        seqs::take_ends(all);
    }
    let mut done = a.done;
    if let Some(topic) = a.topic {
        if !topic.as_str().is_empty() {
            seqs::put(&mut done, Contradiction { topic, views: a.views });
        }
    }
    done
}

/// What the answer of a judge says.
pub fn parse_judge_output(raw: &str) -> (r: Result<JudgeOutput, OpenFusionError>)
    ensures
        r matches Ok(output) && output.deep_view() == judge_output(raw@),
{
    let section = extract_section(raw, "SYNTHESIS");
    let consensus = parse_bullets(extract_section(raw, "CONSENSUS").as_str());
    let contradictions = parse_contradictions(extract_section(raw, "CONTRADICTIONS").as_str());
    let blind_spots = parse_bullets(extract_section(raw, "BLIND SPOTS").as_str());
    let synthesis = if text::trim(section.as_str()).as_str().is_empty() {
        raw.to_owned()
    } else {
        section
    };
    Ok(JudgeOutput { synthesis, consensus, contradictions, blind_spots })
}

/// A point that was read says something.
pub proof fn bullets_say_something(s: Seq<char>, i: int)
    requires
        0 <= i < bullets_of(s).len(),
    ensures
        bullets_of(s)[i].len() > 0,
{
    picked_bullets_say_something(text::lines_of(s), i);
}

proof fn picked_bullets_say_something(lines: Seq<Seq<char>>, i: int)
    requires
        0 <= i < lines.filter_map(bullet_text()).len(),
    ensures
        lines.filter_map(bullet_text())[i].len() > 0,
    decreases lines.len(),
{
    if lines.len() > 0 {
        let rest = lines.drop_last().filter_map(bullet_text());
        if i < rest.len() {
            picked_bullets_say_something(lines.drop_last(), i);
        }
    }
}

/// Whether a text says something and has no white space at either end.
pub open spec fn is_trimmed(s: Seq<char>) -> bool {
    s.len() > 0 && !text::is_space(s[0]) && !text::is_space(s.last())
}

/// A text that has no white space at its end loses only what stands before it.
pub proof fn trimmed_text_stays(s: Seq<char>)
    requires
        is_trimmed(s),
    ensures
        text::trim_of(s) == s,
        text::trim_of(" "@ + s) == s,
{
    reveal_strlit(" ");
    let t = " "@ + s;
    assert(t.drop_first() =~= s);
    assert(t[0] == ' ');
    reveal_with_fuel(text::trim_start_of, 2);
}

/// What a judge states of a topic in the form that it is asked for is read: the topic
/// begins a new contradiction, without its asterisks.
pub proof fn stated_topic_is_read(a: ReadingView, topic: Seq<char>, description: Seq<char>)
    requires
        is_trimmed(topic),
        is_trimmed(description),
        !text::contains_of(topic.push('*'), "**"@),
    ensures
        with_line(a, "- **"@ + topic + "**: "@ + description).topic == Some(topic),
        with_line(a, "- **"@ + topic + "**: "@ + description).done == (match a.topic {
            Some(t) => a.done.push(ContradictionModel { topic: t, views: a.views }),
            None => a.done,
        }),
        a.topic is Some ==> with_line(
            a,
            "- **"@ + topic + "**: "@ + description,
        ).views.len() == 0,
{
    reveal_strlit("- **");
    reveal_strlit("**");
    reveal_strlit("**: ");
    let line = "- **"@ + topic + "**: "@ + description;
    assert(line[0] == '-');
    assert(line.last() == description.last());
    trimmed_text_stays(line);
    assert(line.subrange(0, 4) =~= "- **"@);
    let rest = line.skip(4);
    assert(rest =~= topic + "**: "@ + description);
    text::find_from_is_least(rest, "**"@, 0);
    let n = topic.len() as int;
    assert(rest.subrange(n, n + 2) =~= "**"@);
    assert(text::occurs_at(rest, "**"@, n));
    let i = text::find_of(rest, "**"@)->0;
    if i < n {
        assert(topic.push('*').subrange(i, i + 2) =~= rest.subrange(i, i + 2));
        assert(text::occurs_at(topic.push('*'), "**"@, i));
    }
    assert(rest.take(n) =~= topic);
    trimmed_text_stays(topic);
}

/// What a judge states of a position in the form that it is asked for is read: the model
/// and its position are added to the topic.
pub proof fn stated_position_is_read(a: ReadingView, model: Seq<char>, position: Seq<char>)
    requires
        a.topic is Some,
        is_trimmed(model),
        is_trimmed(position),
        !model.contains(':'),
        model[0] != '*',
    ensures
        with_line(a, "  - "@ + model + ": "@ + position) == (ReadingView {
            views: a.views.push(PositionModel { model, position }),
            ..a
        }),
{
    reveal_strlit("  - ");
    reveal_strlit("- **");
    reveal_strlit(": ");
    reveal_strlit(":");
    reveal_strlit(" ");
    let line = "  - "@ + model + ": "@ + position;
    let content = model + ": "@ + position;
    assert(line.subrange(0, 4) =~= "  - "@);
    assert(line.skip(4) =~= content);
    let bullet = "- "@ + content;
    reveal_strlit("- ");
    assert(line.drop_first().drop_first() =~= bullet);
    assert(line[0] == ' ' && line.drop_first()[0] == ' ');
    assert(bullet[0] == '-' && bullet.last() == position.last());
    reveal_with_fuel(text::trim_start_of, 3);
    assert(text::trim_start_of(line) == bullet);
    assert(text::trim_of(line) == bullet);
    if text::starts_with_of(bullet, "- **"@) {
        assert(bullet.subrange(0, 4)[2] == '*');
        assert(bullet[2] == model[0]);
    }
    assert(content[0] == model[0] && content.last() == position.last());
    trimmed_text_stays(content);
    text::find_from_is_least(content, ":"@, 0);
    let n = model.len() as int;
    assert(content.subrange(n, n + 1) =~= ":"@);
    assert(text::occurs_at(content, ":"@, n));
    let i = text::find_of(content, ":"@)->0;
    if i < n {
        assert(content.subrange(i, i + 1)[0] == model[i]);
        assert(":"@[0] == ':');
        assert(model.contains(model[i]));
    }
    assert(content.take(n) =~= model);
    assert(content.skip(n + 1) =~= " "@ + position);
    trimmed_text_stays(model);
    trimmed_text_stays(position);
}

/// An answer that has none of the markers is a synthesis as a whole, and nothing else.
pub proof fn unmarked_answer_is_synthesis(raw: Seq<char>)
    requires
        !text::contains_of(raw, "SYNTHESIS"@),
        !text::contains_of(raw, "CONSENSUS"@),
        !text::contains_of(raw, "CONTRADICTIONS"@),
        !text::contains_of(raw, "BLIND SPOTS"@),
    ensures
        judge_output(raw) == (JudgeOutputView {
            synthesis: raw,
            consensus: Seq::empty(),
            contradictions: Seq::empty(),
            blind_spots: Seq::empty(),
        }),
{
    missing_section_is_empty(raw, "SYNTHESIS"@);
    missing_section_is_empty(raw, "CONSENSUS"@);
    missing_section_is_empty(raw, "CONTRADICTIONS"@);
    missing_section_is_empty(raw, "BLIND SPOTS"@);
    let none = Seq::<char>::empty();
    assert(text::lines_of(none) =~= Seq::<Seq<char>>::empty());
    assert(bullets_of(none) =~= Seq::<Seq<char>>::empty());
    assert(contradictions_of(none) =~= Seq::<ContradictionModel>::empty());
    assert(text::trim_of(none) =~= none);
}

/// A marker that is not there has an empty section.
pub proof fn missing_section_is_empty(s: Seq<char>, marker: Seq<char>)
    requires
        !text::contains_of(s, marker),
    ensures
        section_of(s, marker) == Seq::<char>::empty(),
{
    let heading = "### "@ + marker;
    text::find_from_is_least(s, heading, 0);
    text::find_from_is_least(s, marker, 0);
    if let Some(i) = text::find_of(s, heading) {
        let p = "### "@.len() as int;
        assert(s.subrange(i + p, i + p + marker.len()) =~= s.subrange(
            i,
            i + heading.len(),
        ).subrange(p, p + marker.len()));
        assert(heading.subrange(p, p + marker.len()) =~= marker);
        assert(text::occurs_at(s, marker, i + p));
    }
}

} // verus!
