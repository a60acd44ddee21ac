//! What is told to people and to programs.

use vstd::prelude::*;
use crate::agent::runner::{LoopConfig, TurnEvent, TurnOutcome, TurnResult};
use crate::cli;
use crate::cli::{GateOverrides, Record};
use crate::content::evidence;
use crate::content::model;
use crate::content::model::{Artifact, Session, Turn, TurnStatus, Video};
use crate::ingest::url;
use crate::json;
use crate::json::{NumTree, Tree};
use crate::laws::runs;
use crate::laws::texts;
use crate::text;
use crate::wire;

verus! {

/// Whether an object says something under a name.
pub open spec fn tells(t: Tree, key: Seq<char>, v: Tree) -> bool {
    json::field(t, key) == Some(v)
}

/// Whether an object says a number under a name.
pub open spec fn counts(t: Tree, key: Seq<char>, n: int) -> bool {
    tells(t, key, Tree::Number(NumTree::Int(n)))
}

/// Whether an object says a text under a name.
pub open spec fn words(t: Tree, key: Seq<char>, s: Seq<char>) -> bool {
    tells(t, key, Tree::Str(s))
}


/// What is told of what a turn came to names each count by its own name.
pub proof fn law_usage_names_each_count(res: TurnResult, cost: Tree)
    ensures
        ({
            let t = wire::usage_tree(res, cost);
            &&& words(t, "t"@, "usage"@)
            &&& counts(t, "iterations"@, res.iterations as int)
            &&& counts(t, "external_calls"@, res.tool_calls_made as int)
            &&& counts(t, "credits"@, res.credits_charged as int)
            &&& counts(t, "context_tokens"@, res.context_tokens as int)
            &&& counts(t, "compactions"@, res.compactions as int)
            &&& counts(t, "video_analyses"@, res.video_analyses as int)
            &&& counts(t, "video_tokens"@, res.video_tokens as int)
            &&& counts(t, "input_tokens"@, res.input_tokens as int)
            &&& counts(t, "cached_input_tokens"@, res.cached_input_tokens as int)
            &&& counts(t, "output_tokens"@, res.output_tokens as int)
            &&& tells(t, "cost_usd"@, cost)
        }),
{
    lemma_usage_names();
    reveal_with_fuel(json::field_from, 13);
}

proof fn lemma_usage_names()
    ensures
        "t"@ != "iterations"@,
        "t"@ != "external_calls"@,
        "iterations"@ != "external_calls"@,
        "t"@ != "credits"@,
        "iterations"@ != "credits"@,
        "external_calls"@ != "credits"@,
        "t"@ != "context_tokens"@,
        "iterations"@ != "context_tokens"@,
        "external_calls"@ != "context_tokens"@,
        "credits"@ != "context_tokens"@,
        "t"@ != "compactions"@,
        "iterations"@ != "compactions"@,
        "external_calls"@ != "compactions"@,
        "credits"@ != "compactions"@,
        "context_tokens"@ != "compactions"@,
        "t"@ != "video_analyses"@,
        "iterations"@ != "video_analyses"@,
        "external_calls"@ != "video_analyses"@,
        "credits"@ != "video_analyses"@,
        "context_tokens"@ != "video_analyses"@,
        "compactions"@ != "video_analyses"@,
        "t"@ != "video_tokens"@,
        "iterations"@ != "video_tokens"@,
        "external_calls"@ != "video_tokens"@,
        "credits"@ != "video_tokens"@,
        "context_tokens"@ != "video_tokens"@,
        "compactions"@ != "video_tokens"@,
        "video_analyses"@ != "video_tokens"@,
        "t"@ != "input_tokens"@,
        "iterations"@ != "input_tokens"@,
        "external_calls"@ != "input_tokens"@,
        "credits"@ != "input_tokens"@,
        "context_tokens"@ != "input_tokens"@,
        "compactions"@ != "input_tokens"@,
        "video_analyses"@ != "input_tokens"@,
        "video_tokens"@ != "input_tokens"@,
        "t"@ != "cached_input_tokens"@,
        "iterations"@ != "cached_input_tokens"@,
        "external_calls"@ != "cached_input_tokens"@,
        "credits"@ != "cached_input_tokens"@,
        "context_tokens"@ != "cached_input_tokens"@,
        "compactions"@ != "cached_input_tokens"@,
        "video_analyses"@ != "cached_input_tokens"@,
        "video_tokens"@ != "cached_input_tokens"@,
        "input_tokens"@ != "cached_input_tokens"@,
        "t"@ != "output_tokens"@,
        "iterations"@ != "output_tokens"@,
        "external_calls"@ != "output_tokens"@,
        "credits"@ != "output_tokens"@,
        "context_tokens"@ != "output_tokens"@,
        "compactions"@ != "output_tokens"@,
        "video_analyses"@ != "output_tokens"@,
        "video_tokens"@ != "output_tokens"@,
        "input_tokens"@ != "output_tokens"@,
        "cached_input_tokens"@ != "output_tokens"@,
        "t"@ != "cost_usd"@,
        "iterations"@ != "cost_usd"@,
        "external_calls"@ != "cost_usd"@,
        "credits"@ != "cost_usd"@,
        "context_tokens"@ != "cost_usd"@,
        "compactions"@ != "cost_usd"@,
        "video_analyses"@ != "cost_usd"@,
        "video_tokens"@ != "cost_usd"@,
        "input_tokens"@ != "cost_usd"@,
        "cached_input_tokens"@ != "cost_usd"@,
        "output_tokens"@ != "cost_usd"@,
{
    reveal_strlit("cached_input_tokens");
    reveal_strlit("compactions");
    reveal_strlit("context_tokens");
    reveal_strlit("cost_usd");
    reveal_strlit("credits");
    reveal_strlit("external_calls");
    reveal_strlit("input_tokens");
    reveal_strlit("iterations");
    reveal_strlit("output_tokens");
    reveal_strlit("t");
    reveal_strlit("video_analyses");
    reveal_strlit("video_tokens");
    assert("t"@.len() != "iterations"@.len());
    assert("t"@.len() != "external_calls"@.len());
    assert("iterations"@.len() != "external_calls"@.len());
    assert("t"@.len() != "credits"@.len());
    assert("iterations"@.len() != "credits"@.len());
    assert("external_calls"@.len() != "credits"@.len());
    assert("t"@.len() != "context_tokens"@.len());
    assert("iterations"@.len() != "context_tokens"@.len());
    assert("external_calls"@[0] != "context_tokens"@[0]);
    assert("credits"@.len() != "context_tokens"@.len());
    assert("t"@.len() != "compactions"@.len());
    assert("iterations"@.len() != "compactions"@.len());
    assert("external_calls"@.len() != "compactions"@.len());
    assert("credits"@.len() != "compactions"@.len());
    assert("context_tokens"@.len() != "compactions"@.len());
    assert("t"@.len() != "video_analyses"@.len());
    assert("iterations"@.len() != "video_analyses"@.len());
    assert("external_calls"@[0] != "video_analyses"@[0]);
    assert("credits"@.len() != "video_analyses"@.len());
    assert("context_tokens"@[0] != "video_analyses"@[0]);
    assert("compactions"@.len() != "video_analyses"@.len());
    assert("t"@.len() != "video_tokens"@.len());
    assert("iterations"@.len() != "video_tokens"@.len());
    assert("external_calls"@.len() != "video_tokens"@.len());
    assert("credits"@.len() != "video_tokens"@.len());
    assert("context_tokens"@.len() != "video_tokens"@.len());
    assert("compactions"@.len() != "video_tokens"@.len());
    assert("video_analyses"@.len() != "video_tokens"@.len());
    assert("t"@.len() != "input_tokens"@.len());
    assert("iterations"@.len() != "input_tokens"@.len());
    assert("external_calls"@.len() != "input_tokens"@.len());
    assert("credits"@.len() != "input_tokens"@.len());
    assert("context_tokens"@.len() != "input_tokens"@.len());
    assert("compactions"@.len() != "input_tokens"@.len());
    assert("video_analyses"@.len() != "input_tokens"@.len());
    assert("video_tokens"@[0] != "input_tokens"@[0]);
    assert("t"@.len() != "cached_input_tokens"@.len());
    assert("iterations"@.len() != "cached_input_tokens"@.len());
    assert("external_calls"@.len() != "cached_input_tokens"@.len());
    assert("credits"@.len() != "cached_input_tokens"@.len());
    assert("context_tokens"@.len() != "cached_input_tokens"@.len());
    assert("compactions"@.len() != "cached_input_tokens"@.len());
    assert("video_analyses"@.len() != "cached_input_tokens"@.len());
    assert("video_tokens"@.len() != "cached_input_tokens"@.len());
    assert("input_tokens"@.len() != "cached_input_tokens"@.len());
    assert("t"@.len() != "output_tokens"@.len());
    assert("iterations"@.len() != "output_tokens"@.len());
    assert("external_calls"@.len() != "output_tokens"@.len());
    assert("credits"@.len() != "output_tokens"@.len());
    assert("context_tokens"@.len() != "output_tokens"@.len());
    assert("compactions"@.len() != "output_tokens"@.len());
    assert("video_analyses"@.len() != "output_tokens"@.len());
    assert("video_tokens"@.len() != "output_tokens"@.len());
    assert("input_tokens"@.len() != "output_tokens"@.len());
    assert("cached_input_tokens"@.len() != "output_tokens"@.len());
    assert("t"@.len() != "cost_usd"@.len());
    assert("iterations"@.len() != "cost_usd"@.len());
    assert("external_calls"@.len() != "cost_usd"@.len());
    assert("credits"@.len() != "cost_usd"@.len());
    assert("context_tokens"@.len() != "cost_usd"@.len());
    assert("compactions"@.len() != "cost_usd"@.len());
    assert("video_analyses"@.len() != "cost_usd"@.len());
    assert("video_tokens"@.len() != "cost_usd"@.len());
    assert("input_tokens"@.len() != "cost_usd"@.len());
    assert("cached_input_tokens"@.len() != "cost_usd"@.len());
    assert("output_tokens"@.len() != "cost_usd"@.len());
}

/// What is told first says who answers, in which conversation and in which version of the
/// protocol; without a model that looks at videos it says that there is none.
pub proof fn law_hello_says_who_answers(session: Seq<char>, model: Seq<char>, vision: Option<Seq<char>>)
    ensures
        ({
            let t = wire::hello_tree(session, model, vision);
            &&& words(t, "t"@, "hello"@)
            &&& counts(t, "protocol"@, 1)
            &&& words(t, "session"@, session)
            &&& words(t, "model"@, model)
            &&& vision matches Some(v) ==> words(t, "vision"@, v)
            &&& vision is None ==> tells(t, "vision"@, Tree::Null)
        }),
{
    lemma_hello_names();
    reveal_with_fuel(json::field_from, 6);
}

proof fn lemma_hello_names()
    ensures
        "t"@ != "protocol"@,
        "t"@ != "session"@,
        "protocol"@ != "session"@,
        "t"@ != "model"@,
        "protocol"@ != "model"@,
        "session"@ != "model"@,
        "t"@ != "vision"@,
        "protocol"@ != "vision"@,
        "session"@ != "vision"@,
        "model"@ != "vision"@,
        "t"@ != "outcome"@,
        "t"@ != "note"@,
        "outcome"@ != "note"@,
        "t"@ != "message"@,
{
    reveal_strlit("message");
    reveal_strlit("model");
    reveal_strlit("note");
    reveal_strlit("outcome");
    reveal_strlit("protocol");
    reveal_strlit("session");
    reveal_strlit("t");
    reveal_strlit("vision");
    assert("t"@.len() != "protocol"@.len());
    assert("t"@.len() != "session"@.len());
    assert("protocol"@.len() != "session"@.len());
    assert("t"@.len() != "model"@.len());
    assert("protocol"@.len() != "model"@.len());
    assert("session"@.len() != "model"@.len());
    assert("t"@.len() != "vision"@.len());
    assert("protocol"@.len() != "vision"@.len());
    assert("session"@.len() != "vision"@.len());
    assert("model"@.len() != "vision"@.len());
    assert("t"@.len() != "outcome"@.len());
    assert("t"@.len() != "note"@.len());
    assert("outcome"@.len() != "note"@.len());
    assert("t"@.len() != "message"@.len());
}

/// What is told last says how the turn ended and what to make of it; and where a turn could
/// not begin, why.
pub proof fn law_the_end_is_told(o: TurnOutcome, note: Seq<char>)
    ensures
        ({
            let t = wire::done_tree(o, note);
            &&& words(t, "t"@, "done"@)
            &&& words(t, "outcome"@, wire::tag_of(o))
            &&& words(t, "note"@, note)
        }),
        words(wire::error_tree(note), "t"@, "error"@),
        words(wire::error_tree(note), "message"@, note),
{
    lemma_hello_names();
    reveal_with_fuel(json::field_from, 4);
}

/// What is told of an event says what the event says, under its own names; only under a
/// whole answer stands the signature.
pub proof fn law_events_are_told(ev: TurnEvent)
    ensures
        ({
            let t = wire::event_tree(ev);
            match ev {
                TurnEvent::Compacted { summary_chars, upto_seq } => {
                    &&& words(t, "t"@, "compacted"@)
                    &&& counts(t, "summary_chars"@, summary_chars as int)
                    &&& counts(t, "upto_seq"@, upto_seq as int)
                },
                TurnEvent::Iteration { n } => words(t, "t"@, "iteration"@) && counts(
                    t,
                    "n"@,
                    n as int,
                ),
                TurnEvent::ToolCall { id, name, args } => {
                    &&& words(t, "t"@, "tool_call"@)
                    &&& words(t, "id"@, id@)
                    &&& words(t, "name"@, name@)
                    &&& tells(t, "args"@, args@)
                },
                TurnEvent::ToolResult {
                    id,
                    name,
                    is_error,
                    external_calls,
                    credits,
                    vision_calls,
                    preview,
                } => {
                    &&& words(t, "t"@, "tool_result"@)
                    &&& words(t, "id"@, id@)
                    &&& words(t, "name"@, name@)
                    &&& tells(t, "is_error"@, Tree::Bool(is_error))
                    &&& counts(t, "external_calls"@, external_calls as int)
                    &&& counts(t, "credits"@, credits as int)
                    &&& counts(t, "vision_calls"@, vision_calls as int)
                    &&& words(t, "preview"@, preview@)
                },
                TurnEvent::Token { text } => words(t, "t"@, "token"@) && words(t, "text"@, text@),
                TurnEvent::Answer { text } => words(t, "t"@, "answer"@) && words(
                    t,
                    "text"@,
                    evidence::signed(text@),
                ),
            }
        }),
{
    lemma_event_names();
    reveal_with_fuel(json::field_from, 9);
}

proof fn lemma_event_names()
    ensures
        "t"@ != "summary_chars"@,
        "t"@ != "upto_seq"@,
        "summary_chars"@ != "upto_seq"@,
        "t"@ != "n"@,
        "t"@ != "id"@,
        "t"@ != "name"@,
        "id"@ != "name"@,
        "t"@ != "args"@,
        "id"@ != "args"@,
        "name"@ != "args"@,
        "t"@ != "is_error"@,
        "id"@ != "is_error"@,
        "name"@ != "is_error"@,
        "t"@ != "external_calls"@,
        "id"@ != "external_calls"@,
        "name"@ != "external_calls"@,
        "is_error"@ != "external_calls"@,
        "t"@ != "credits"@,
        "id"@ != "credits"@,
        "name"@ != "credits"@,
        "is_error"@ != "credits"@,
        "external_calls"@ != "credits"@,
        "t"@ != "vision_calls"@,
        "id"@ != "vision_calls"@,
        "name"@ != "vision_calls"@,
        "is_error"@ != "vision_calls"@,
        "external_calls"@ != "vision_calls"@,
        "credits"@ != "vision_calls"@,
        "t"@ != "preview"@,
        "id"@ != "preview"@,
        "name"@ != "preview"@,
        "is_error"@ != "preview"@,
        "external_calls"@ != "preview"@,
        "credits"@ != "preview"@,
        "vision_calls"@ != "preview"@,
        "t"@ != "text"@,
{
    reveal_strlit("args");
    reveal_strlit("credits");
    reveal_strlit("external_calls");
    reveal_strlit("id");
    reveal_strlit("is_error");
    reveal_strlit("n");
    reveal_strlit("name");
    reveal_strlit("preview");
    reveal_strlit("summary_chars");
    reveal_strlit("t");
    reveal_strlit("text");
    reveal_strlit("upto_seq");
    reveal_strlit("vision_calls");
    assert("t"@.len() != "summary_chars"@.len());
    assert("t"@.len() != "upto_seq"@.len());
    assert("summary_chars"@.len() != "upto_seq"@.len());
    assert("t"@[0] != "n"@[0]);
    assert("t"@.len() != "id"@.len());
    assert("t"@.len() != "name"@.len());
    assert("id"@.len() != "name"@.len());
    assert("t"@.len() != "args"@.len());
    assert("id"@.len() != "args"@.len());
    assert("name"@[0] != "args"@[0]);
    assert("t"@.len() != "is_error"@.len());
    assert("id"@.len() != "is_error"@.len());
    assert("name"@.len() != "is_error"@.len());
    assert("t"@.len() != "external_calls"@.len());
    assert("id"@.len() != "external_calls"@.len());
    assert("name"@.len() != "external_calls"@.len());
    assert("is_error"@.len() != "external_calls"@.len());
    assert("t"@.len() != "credits"@.len());
    assert("id"@.len() != "credits"@.len());
    assert("name"@.len() != "credits"@.len());
    assert("is_error"@.len() != "credits"@.len());
    assert("external_calls"@.len() != "credits"@.len());
    assert("t"@.len() != "vision_calls"@.len());
    assert("id"@.len() != "vision_calls"@.len());
    assert("name"@.len() != "vision_calls"@.len());
    assert("is_error"@.len() != "vision_calls"@.len());
    assert("external_calls"@.len() != "vision_calls"@.len());
    assert("credits"@.len() != "vision_calls"@.len());
    assert("t"@.len() != "preview"@.len());
    assert("id"@.len() != "preview"@.len());
    assert("name"@.len() != "preview"@.len());
    assert("is_error"@.len() != "preview"@.len());
    assert("external_calls"@.len() != "preview"@.len());
    assert("credits"@[0] != "preview"@[0]);
    assert("vision_calls"@.len() != "preview"@.len());
    assert("t"@.len() != "text"@.len());
}

/// Under an answer stands the signature, at its end, and nothing of the answer is lost but
/// the white space behind it; what is blank stays as it is.
pub proof fn law_answers_are_signed(answer: Seq<char>)
    ensures
        text::blank(answer) ==> evidence::signed(answer) == answer,
        !text::blank(answer) ==> {
            let t = evidence::signed(answer);
            &&& text::occurs_at(t, text::trim_end(answer), 0)
            &&& text::occurs_at(
                t,
                evidence::ANSWER_SIGNATURE@,
                t.len() - evidence::ANSWER_SIGNATURE@.len(),
            )
            &&& t.len() == text::trim_end(answer).len() + 2 + evidence::ANSWER_SIGNATURE@.len()
        },
{
    let t = evidence::signed(answer);
    let a = text::trim_end(answer);
    let s = evidence::ANSWER_SIGNATURE@;
    reveal_strlit("\n\n");
    if !text::blank(answer) {
        assert(t.subrange(0, a.len() as int) =~= a);
        assert(t.subrange(t.len() - s.len(), t.len() as int) =~= s);
    }
}

/// A limit that is given holds; of the others the usual ones hold, and the model is told to
/// come to an end at eight tenths of how often it may be asked, but not before the first
/// time.
pub proof fn law_given_limits_hold(o: GateOverrides)
    ensures
        ({
            let c = cli::overridden(o);
            &&& o.max_iterations matches Some(n) ==> c.max_iterations == n
            &&& o.max_iterations is None ==> c.max_iterations == 20
            &&& o.convergence_iteration matches Some(n) ==> c.convergence_iteration == n
            &&& o.convergence_iteration is None ==> {
                &&& c.convergence_iteration >= 1
                &&& c.max_iterations >= 2 ==> 10 * c.convergence_iteration <= 8 * c.max_iterations
                    < 10 * c.convergence_iteration + 10
            }
            &&& o.max_tool_calls matches Some(n) ==> c.max_tool_calls == n
            &&& o.max_tool_calls is None ==> c.max_tool_calls == 25
            &&& o.max_video_analyses matches Some(n) ==> c.max_video_analyses == n
            &&& o.max_video_analyses is None ==> c.max_video_analyses == 5
            &&& o.context_budget matches Some(n) ==> c.context_budget_tokens == n
            &&& o.context_budget is None ==> c.context_budget_tokens == 940_000
            &&& o.compaction_threshold matches Some(n) ==> c.compaction_threshold == n
            &&& o.compaction_threshold is None ==> c.compaction_threshold == 400_000
            &&& o.compaction_target matches Some(n) ==> c.compaction_target_tokens == n
            &&& o.compaction_target is None ==> c.compaction_target_tokens == 150_000
        }),
{
}

/// An objection to limits names the two that do not go together, the smaller first.
pub proof fn law_objections_name_the_limits(c: LoopConfig)
    requires
        c.max_iterations > 0,
    ensures
        c.convergence_iteration >= c.max_iterations ==> (cli::objection(c) matches Some(t)
            && text::contains(
            t,
            "convergence-iteration("@ + text::int_text(c.convergence_iteration as int),
        ) && text::contains(t, "max-iterations("@ + text::int_text(c.max_iterations as int))),
        c.convergence_iteration < c.max_iterations && c.max_video_analyses >= c.max_tool_calls ==> (
        cli::objection(c) matches Some(t) && text::contains(
            t,
            "max-video-analyses("@ + text::int_text(c.max_video_analyses as int),
        ) && text::contains(t, "max-tool-calls("@ + text::int_text(c.max_tool_calls as int))),
        c.convergence_iteration < c.max_iterations && c.max_video_analyses < c.max_tool_calls
            && c.compaction_target_tokens >= c.compaction_threshold ==> (cli::objection(
            c,
        ) matches Some(t) && text::contains(
            t,
            "compaction-target("@ + text::int_text(c.compaction_target_tokens as int),
        ) && text::contains(
            t,
            "compaction-threshold("@ + text::int_text(c.compaction_threshold as int),
        )),
{
    if c.convergence_iteration >= c.max_iterations {
        lemma_objection(
            "convergence-iteration("@,
            text::int_text(c.convergence_iteration as int),
            ") 必须小于 max-iterations("@,
            "max-iterations("@,
            text::int_text(c.max_iterations as int),
            ")——否则收敛提示永远插不进去"@,
        );
    } else if c.max_video_analyses >= c.max_tool_calls {
        lemma_objection(
            "max-video-analyses("@,
            text::int_text(c.max_video_analyses as int),
            ") 必须小于 max-tool-calls("@,
            "max-tool-calls("@,
            text::int_text(c.max_tool_calls as int),
            ")——否则视觉闸门永远不会先触发，等于形同虚设"@,
        );
    } else if c.compaction_target_tokens >= c.compaction_threshold {
        lemma_objection(
            "compaction-target("@,
            text::int_text(c.compaction_target_tokens as int),
            ") 必须小于 compaction-threshold("@,
            "compaction-threshold("@,
            text::int_text(c.compaction_threshold as int),
            ")——否则压完还在阈值以上，等于没压"@,
        );
    }
}

proof fn lemma_objection(
    a: Seq<char>,
    m: Seq<char>,
    mid: Seq<char>,
    b: Seq<char>,
    n: Seq<char>,
    end: Seq<char>,
)
    requires
        mid == ") 必须小于 max-iterations("@ && b == "max-iterations("@ || mid
            == ") 必须小于 max-tool-calls("@ && b == "max-tool-calls("@ || mid
            == ") 必须小于 compaction-threshold("@ && b == "compaction-threshold("@,
    ensures
        text::contains(a + m + mid + n + end, a + m),
        text::contains(a + m + mid + n + end, b + n),
{
    runs::lemma_run_5(a, m, mid, n, end);
    reveal_strlit(") 必须小于 max-iterations(");
    reveal_strlit("max-iterations(");
    reveal_strlit(") 必须小于 max-tool-calls(");
    reveal_strlit("max-tool-calls(");
    reveal_strlit(") 必须小于 compaction-threshold(");
    reveal_strlit("compaction-threshold(");
    let pre = mid.take(7);
    assert(mid =~= pre + b);
    assert(mid + n =~= pre + (b + n));
    texts::lemma_contains_parts(pre, b + n, b + n);
    texts::lemma_contains_parts(a + m + mid + n + end, mid + n, b + n);
}

/// A text that is filled up begins with the text, and has spaces behind it up to the width.
pub proof fn law_texts_are_filled_up(t: Seq<char>, width: int)
    ensures
        cli::filled(t, width).len() == (if width > t.len() {
            width
        } else {
            t.len() as int
        }),
        forall|i: int| 0 <= i < t.len() ==> cli::filled(t, width)[i] == t[i],
        forall|i: int| t.len() <= i < cli::filled(t, width).len() ==> cli::filled(t, width)[i] == ' ',
{
    lemma_spaces(width - t.len());
}

proof fn lemma_spaces(n: int)
    ensures
        cli::spaces(n).len() == (if n > 0 {
            n
        } else {
            0
        }),
        forall|i: int| 0 <= i < cli::spaces(n).len() ==> cli::spaces(n)[i] == ' ',
    decreases n,
{
    if n > 0 {
        lemma_spaces(n - 1);
    }
}

proof fn lemma_filled(t: Seq<char>, width: int)
    ensures
        text::contains(cli::filled(t, width), t),
{
    texts::lemma_contains_parts(t, cli::spaces(width - t.len()), t);
}

/// Of turns, those that did not succeed are counted as failures.
pub proof fn law_failures_are_counted(v: Seq<Turn>, x: Turn)
    ensures
        cli::failures(Seq::<Turn>::empty(), 0) == 0,
        cli::failures(v.push(x), v.len() + 1int) == cli::failures(v, v.len() as int) + (
        if x.status is Done {
            0int
        } else {
            1int
        }),
{
    lemma_failures(v, v.push(x), v.len() as int);
}

proof fn lemma_failures(a: Seq<Turn>, b: Seq<Turn>, n: int)
    requires
        0 <= n <= a.len() <= b.len(),
        forall|i: int| 0 <= i < n ==> a[i] == b[i],
    ensures
        cli::failures(a, n) == cli::failures(b, n),
    decreases n,
{
    if n > 0 {
        lemma_failures(a, b, n - 1);
    }
}

/// The line for a conversation names its day, the beginning of its title, how many
/// questions there were, and how many of them failed where any did.
pub proof fn law_conversations_are_listed(s: Session, turns: Seq<Turn>, date: Seq<char>)
    ensures
        ({
            let t = cli::session_text(s, turns, date);
            let failed = cli::failures(turns, turns.len() as int);
            &&& text::contains(t, date)
            &&& s.title matches Some(x) ==> text::contains(t, text::head(x@, 40))
            &&& text::contains(t, text::int_text(turns.len() as int) + " 次提问"@)
            &&& failed > 0 ==> text::contains(t, text::int_text(failed) + " 次失败"@)
            &&& failed <= 0 ==> text::occurs_at(t, " 次提问"@, t.len() - " 次提问"@.len())
        }),
{
    let t = cli::session_text(s, turns, date);
    let title = match s.title {
        Some(x) => x@,
        None => "(无标题)"@,
    };
    let f = cli::filled(text::head(title, 40), 40);
    let n = text::int_text(turns.len() as int);
    let failed = cli::failures(turns, turns.len() as int);
    let end = if failed > 0 {
        "（"@ + text::int_text(failed) + " 次失败）"@
    } else {
        seq![]
    };
    runs::lemma_run_7(date, "  "@, f, " "@, n, " 次提问"@, end);
    assert(t == date + "  "@ + f + " "@ + n + " 次提问"@ + end);
    texts::lemma_contains_parts(date, "  "@, date);
    texts::lemma_contains_parts(t, date + "  "@, date);
    lemma_filled(text::head(title, 40), 40);
    texts::lemma_contains_parts("  "@, f, f);
    texts::lemma_contains_parts(t, "  "@ + f, f);
    texts::lemma_contains_parts(t, f, text::head(title, 40));
    if failed > 0 {
        let d = text::int_text(failed);
        reveal_strlit(" 次失败");
        reveal_strlit(" 次失败）");
        assert(end =~= "（"@ + (d + " 次失败"@) + seq!['）']);
        texts::lemma_contains_middle("（"@, d + " 次失败"@, seq!['）']);
        texts::lemma_contains_parts(" 次提问"@, end, end);
        texts::lemma_contains_parts(t, " 次提问"@ + end, end);
        texts::lemma_contains_parts(t, end, d + " 次失败"@);
    } else {
        let q = " 次提问"@;
        assert(t.subrange(t.len() - q.len(), t.len() as int) =~= q);
    }
}

/// The lines for a video name its platform, its length, its title, its link and the day on
/// which it was fetched.
pub proof fn law_videos_are_listed(v: Video, date: Seq<char>)
    ensures
        ({
            let t = cli::listed_text(v, date);
            &&& text::contains(t, url::platform_name(v.platform))
            &&& v.duration_sec matches Some(n) ==> text::contains(
                t,
                evidence::duration_text(n as int),
            )
            &&& v.title matches Some(x) ==> text::contains(t, x@)
            &&& text::contains(t, v.url@)
            &&& text::contains(t, "抓取于 "@ + date)
        }),
{
    let t = cli::listed_text(v, date);
    let p = cli::filled(url::platform_name(v.platform), 10);
    let d = match v.duration_sec {
        Some(n) => evidence::duration_text(n as int),
        None => "-"@,
    };
    let e = cli::filled(d, 8);
    let title = match v.title {
        Some(x) => x@,
        None => "(无标题)"@,
    };
    let gap = "\n           "@;
    runs::lemma_run_8(p, " "@, e, " "@, title, gap, v.url@, "  抓取于 "@ + date);
    assert(t =~= p + " "@ + e + " "@ + title + gap + v.url@ + ("  抓取于 "@ + date));
    lemma_filled(url::platform_name(v.platform), 10);
    lemma_filled(d, 8);
    texts::lemma_contains_parts(p, " "@, p);
    texts::lemma_contains_parts(t, p + " "@, p);
    texts::lemma_contains_parts(t, p, url::platform_name(v.platform));
    texts::lemma_contains_parts(e, " "@, e);
    texts::lemma_contains_parts(t, e + " "@, e);
    texts::lemma_contains_parts(t, e, d);
    texts::lemma_contains_parts(" "@, title, title);
    texts::lemma_contains_parts(t, " "@ + title, title);
    texts::lemma_contains_parts(gap, v.url@, v.url@);
    texts::lemma_contains_parts(t, gap + v.url@, v.url@);
    reveal_strlit("  抓取于 ");
    reveal_strlit("抓取于 ");
    let day = "抓取于 "@ + date;
    assert("  抓取于 "@ =~= seq![' ', ' '] + "抓取于 "@);
    assert("  抓取于 "@ + date =~= seq![' ', ' '] + day);
    texts::lemma_contains_parts(seq![' ', ' '], day, day);
    texts::lemma_contains_parts(v.url@, "  抓取于 "@ + date, "  抓取于 "@ + date);
    texts::lemma_contains_parts(t, v.url@ + ("  抓取于 "@ + date), "  抓取于 "@ + date);
    texts::lemma_contains_parts(t, "  抓取于 "@ + date, day);
}

/// What an endpoint answered is shown as it came, under what was asked and how that went;
/// where it did not answer, why.
pub proof fn law_answers_are_shown(a: Artifact)
    ensures
        ({
            let t = cli::raw_text(a);
            &&& text::contains(
                t,
                model::artifact_kind_label(a.kind) + " ["@ + model::fetch_status_name(a.status)
                    + "]"@,
            )
            &&& a.raw_json matches Some(j) ==> text::contains(t, j@)
            &&& a.raw_json is None ==> (a.error matches Some(e) ==> text::contains(t, e@))
        }),
{
    let t = cli::raw_text(a);
    let k = model::artifact_kind_label(a.kind);
    let s = model::fetch_status_name(a.status);
    let body = match (a.raw_json, a.error) {
        (Some(j), _) => j@,
        (None, Some(e)) => "(抓取失败："@ + e@ + ")"@,
        (None, None) => "(没有内容)"@,
    };
    let h = "=== 原始响应："@;
    reveal_strlit("] ===\n");
    reveal_strlit("]");
    let head = k + " ["@ + s + "]"@;
    let rest = "] ===\n"@.skip(1) + body + "\n"@;
    assert("] ===\n"@ =~= "]"@ + "] ===\n"@.skip(1));
    assert(t =~= h + head + rest);
    texts::lemma_contains_middle(h, head, rest);
    let pre = h + k + " ["@ + s + "] ===\n"@;
    assert(t == pre + body + "\n"@);
    texts::lemma_contains_middle(pre, body, "\n"@);
    if a.raw_json is None {
        if let Some(e) = a.error {
            texts::lemma_contains_middle("(抓取失败："@, e@, ")"@);
            texts::lemma_contains_parts(t, body, e@);
        }
    }
}

/// What is said of the costs of a turn says each count with what it counts.
pub proof fn law_costs_are_told(res: TurnResult, seen: Seq<char>, cost: Seq<char>)
    ensures
        ({
            let t = cli::cost_text(res, seen, cost);
            &&& text::contains(t, text::int_text(res.iterations as int) + " 轮 · "@)
            &&& text::contains(
                t,
                text::int_text(res.tool_calls_made as int) + " 次工具调用（扣 "@,
            )
            &&& text::contains(t, text::int_text(res.credits_charged as int) + " credit）"@)
            &&& text::contains(t, " · 输入 "@ + text::int_text(res.input_tokens as int))
            &&& text::contains(
                t,
                text::int_text(res.cached_input_tokens as int) + " 命中缓存）/ 输出 "@,
            )
            &&& text::contains(t, " 命中缓存）/ 输出 "@ + text::int_text(res.output_tokens as int))
            &&& text::contains(t, " token · 约 $"@ + cost)
            &&& res.video_analyses == 0 ==> text::contains(t, " credit）"@ + " · 输入 "@)
            &&& res.video_analyses > 0 ==> {
                &&& text::contains(t, " · 画面 "@ + text::int_text(res.video_analyses as int))
                &&& text::contains(
                    t,
                    text::int_text(res.video_tokens as int) + " token（约 ¥"@,
                )
                &&& text::contains(t, " token（约 ¥"@ + seen)
            }
        }),
{
    let t = cli::cost_text(res, seen, cost);
    let look = if res.video_analyses > 0 {
        " · 画面 "@ + text::int_text(res.video_analyses as int) + " 条 / "@ + text::int_text(
            res.video_tokens as int,
        ) + " token（约 ¥"@ + seen + "）"@
    } else {
        seq![]
    };
    runs::lemma_run_16(
        "\n— "@,
        text::int_text(res.iterations as int),
        " 轮 · "@,
        text::int_text(res.tool_calls_made as int),
        " 次工具调用（扣 "@,
        text::int_text(res.credits_charged as int),
        " credit）"@,
        look,
        " · 输入 "@,
        text::int_text(res.input_tokens as int),
        "（其中 "@,
        text::int_text(res.cached_input_tokens as int),
        " 命中缓存）/ 输出 "@,
        text::int_text(res.output_tokens as int),
        " token · 约 $"@,
        cost,
    );
    if res.video_analyses == 0 {
        lemma_nothing_between(res, seen, cost);
    }
    if res.video_analyses > 0 {
        runs::lemma_run_7(
            " · 画面 "@,
            text::int_text(res.video_analyses as int),
            " 条 / "@,
            text::int_text(res.video_tokens as int),
            " token（约 ¥"@,
            seen,
            "）"@,
        );
        texts::lemma_contains_parts(" credit）"@, look, look);
        texts::lemma_contains_parts(t, " credit）"@ + look, look);
        texts::lemma_contains_parts(
            t,
            look,
            " · 画面 "@ + text::int_text(res.video_analyses as int),
        );
        texts::lemma_contains_parts(
            t,
            look,
            text::int_text(res.video_tokens as int) + " token（约 ¥"@,
        );
        texts::lemma_contains_parts(t, look, " token（约 ¥"@ + seen);
    }
}

proof fn lemma_nothing_between(res: TurnResult, seen: Seq<char>, cost: Seq<char>)
    requires
        res.video_analyses == 0,
    ensures
        text::contains(cli::cost_text(res, seen, cost), " credit）"@ + " · 输入 "@),
{
    let pre = "\n— "@ + text::int_text(res.iterations as int) + " 轮 · "@ + text::int_text(
        res.tool_calls_made as int,
    ) + " 次工具调用（扣 "@ + text::int_text(res.credits_charged as int);
    let a = " credit）"@;
    let b = " · 输入 "@;
    assert(pre + a + seq![] + b =~= pre + (a + b));
    texts::lemma_contains_parts(pre, a + b, a + b);
    let t1 = pre + (a + b);
    let x1 = text::int_text(res.input_tokens as int);
    let x2 = "（其中 "@;
    let x3 = text::int_text(res.cached_input_tokens as int);
    let x4 = " 命中缓存）/ 输出 "@;
    let x5 = text::int_text(res.output_tokens as int);
    let x6 = " token · 约 $"@;
    texts::lemma_contains_parts(t1, x1, a + b);
    texts::lemma_contains_parts(t1 + x1, x2, a + b);
    texts::lemma_contains_parts(t1 + x1 + x2, x3, a + b);
    texts::lemma_contains_parts(t1 + x1 + x2 + x3, x4, a + b);
    texts::lemma_contains_parts(t1 + x1 + x2 + x3 + x4, x5, a + b);
    texts::lemma_contains_parts(t1 + x1 + x2 + x3 + x4 + x5, x6, a + b);
    texts::lemma_contains_parts(t1 + x1 + x2 + x3 + x4 + x5 + x6, cost, a + b);
}

/// Somebody is warned exactly where more than nine tenths of what a request may have are
/// used, and is told how much that is.
pub proof fn law_warnings(used: int, limit: int)
    ensures
        cli::warning(used, limit) is Some <==> 10 * used > 9 * limit,
        cli::warning(used, limit) matches Some(t) ==> text::contains(
            t,
            text::int_text(used) + " / "@ + text::int_text(limit),
        ),
{
    if let Some(t) = cli::warning(used, limit) {
        let pre = "\n(提示：会话历史已用约 "@;
        let post = " token，接近上限，建议 /new 开新会话)"@;
        let mid = text::int_text(used) + " / "@ + text::int_text(limit);
        assert(t =~= pre + mid + post);
        texts::lemma_contains_middle(pre, mid, post);
    }
}

/// What a turn says on a terminal holds its answer, where there is one, and otherwise why
/// there is none.
pub proof fn law_turns_are_told(res: TurnResult)
    ensures
        ({
            let t = cli::turn_text(res);
            match res.outcome {
                TurnOutcome::Done => text::contains(t, evidence::signed(res.answer@)),
                TurnOutcome::IterationCap => text::contains(
                    t,
                    text::int_text(res.iterations as int) + " 轮"@,
                ),
                TurnOutcome::ContextBudget { used, limit } => text::contains(
                    t,
                    "约 "@ + text::int_text(used as int) + " token，上限 "@ + text::int_text(
                        limit as int,
                    ),
                ),
                TurnOutcome::Truncated => text::contains(t, res.answer@),
                TurnOutcome::ProtocolError(e) => text::contains(t, e@) && text::contains(
                    t,
                    res.answer@,
                ),
                TurnOutcome::ModelError(e) => text::contains(t, e@),
            }
        }),
{
    let t = cli::turn_text(res);
    match res.outcome {
        TurnOutcome::Done => {
            texts::lemma_contains_parts("\n"@, evidence::signed(res.answer@), evidence::signed(res.answer@));
        },
        TurnOutcome::IterationCap => {
            let n = text::int_text(res.iterations as int);
            let post = " 轮还没收敛，已停下。已经查到的都在库里，可以换个更具体的问法)"@;
            reveal_strlit(" 轮还没收敛，已停下。已经查到的都在库里，可以换个更具体的问法)");
            reveal_strlit(" 轮");
            assert(post =~= " 轮"@ + post.skip(2));
            assert(t =~= "\n(跑了 "@ + (n + " 轮"@) + post.skip(2));
            texts::lemma_contains_middle("\n(跑了 "@, n + " 轮"@, post.skip(2));
        },
        TurnOutcome::ContextBudget { used, limit } => {
            let pre = "\n⚠ 这个会话的历史太长了（约 "@;
            reveal_strlit("\n⚠ 这个会话的历史太长了（约 ");
            reveal_strlit("约 ");
            let mid = "约 "@ + text::int_text(used as int) + " token，上限 "@ + text::int_text(
                limit as int,
            );
            let post =
                "）。\n  继续问会被模型拒掉。输入 /new 开新会话（当前会话已存好，随时 `--continue` 回来），或用 `clipknow ask <链接> \"...\"` 问单个视频。"@;
            let cut = pre.len() - 2;
            assert(pre =~= pre.take(cut) + "约 "@);
            assert(t =~= pre.take(cut) + mid + post);
            texts::lemma_contains_middle(pre.take(cut), mid, post);
        },
        TurnOutcome::Truncated => {
            texts::lemma_contains_middle(
                "\n"@,
                res.answer@,
                "\n\n⚠ 回答达到长度上限被截断了，上面这段是残缺的。\n  这个 turn 已标记为失败，`--continue` 不会带上它。换个更聚焦的问法再试。"@,
            );
        },
        TurnOutcome::ProtocolError(e) => {
            let a = "\n模型返回了没见过的结束原因: "@;
            let b = "\n（已拿到的内容："@;
            let x = if res.answer@.len() == 0 {
                "无"@
            } else {
                res.answer@
            };
            texts::lemma_contains_middle(a, e@, b);
            texts::lemma_contains_parts(a + e@ + b, x, e@);
            texts::lemma_contains_parts(a + e@ + b + x, "）"@, e@);
            texts::lemma_contains_middle(a + e@ + b, x, "）"@);
            if res.answer@.len() == 0 {
                assert(t.subrange(0, 0) =~= res.answer@);
                assert(text::occurs_at(t, res.answer@, 0));
            }
        },
        TurnOutcome::ModelError(e) => {
            texts::lemma_contains_parts("\n模型调用失败: "@, e@, e@);
        },
    }
}

/// What is said at the end of a turn: nothing where it went well with room left, and
/// otherwise the numbers or the reason.
pub proof fn law_notes_say_why(res: TurnResult, cfg: LoopConfig)
    ensures
        ({
            let t = cli::note_on(res, cfg);
            match res.outcome {
                TurnOutcome::Done => if 10 * res.context_tokens > 9 * cfg.context_budget_tokens {
                    text::contains(
                        t,
                        text::int_text(res.context_tokens as int) + " / "@ + text::int_text(
                            cfg.context_budget_tokens as int,
                        ),
                    )
                } else {
                    t.len() == 0
                },
                TurnOutcome::IterationCap => text::contains(
                    t,
                    text::int_text(res.iterations as int),
                ),
                TurnOutcome::Truncated => t == cli::TRUNCATED_NOTE@,
                TurnOutcome::ProtocolError(e) => text::contains(t, e@),
                TurnOutcome::ContextBudget { used, limit } => text::contains(
                    t,
                    text::int_text(used as int) + " / "@ + text::int_text(limit as int),
                ),
                TurnOutcome::ModelError(e) => if text::contains(e@, "Content Exists Risk"@) {
                    t == cli::CONTENT_RISK_NOTE@
                } else {
                    text::occurs_at(t, e@, 0) && (t != e@ ==> text::contains(e@, "rate limit"@)
                        || text::contains(e@, "429"@))
                },
            }
        }),
{
    let t = cli::note_on(res, cfg);
    match res.outcome {
        TurnOutcome::Done => {
            if 10 * res.context_tokens > 9 * cfg.context_budget_tokens {
                let pre = "会话历史已用约 "@;
                let post = " token，接近上限，建议开新会话。"@;
                let mid = text::int_text(res.context_tokens as int) + " / "@ + text::int_text(
                    cfg.context_budget_tokens as int,
                );
                assert(t =~= pre + mid + post);
                texts::lemma_contains_middle(pre, mid, post);
            }
        },
        TurnOutcome::IterationCap => {
            texts::lemma_contains_middle(
                "跑了 "@,
                text::int_text(res.iterations as int),
                " 轮还没收敛，已停下。已经查到的都在库里，可以换个更具体的问法。"@,
            );
        },
        TurnOutcome::ProtocolError(e) => {
            texts::lemma_contains_parts("模型返回了没见过的结束原因："@, e@, e@);
        },
        TurnOutcome::ContextBudget { used, limit } => {
            let pre = "这个会话的历史太长了（约 "@;
            let post = " token）。继续问会被模型拒掉，请开一个新会话——当前会话已存好，随时能回去。"@;
            let mid = text::int_text(used as int) + " / "@ + text::int_text(limit as int);
            assert(t =~= pre + mid + post);
            texts::lemma_contains_middle(pre, mid, post);
        },
        TurnOutcome::ModelError(e) => {
            if !text::contains(e@, "Content Exists Risk"@) {
                assert(t.subrange(0, e@.len() as int) =~= e@);
            }
        },
        _ => {},
    }
}

/// The first question of a conversation gives it its title, no more than forty characters
/// of it; a later one gives none. A turn that did not succeed is stored with the reason.
pub proof fn law_records(x: Record, res: TurnResult, question: Seq<char>, is_first: bool)
    requires
        cli::is_record(x, res, question, is_first),
    ensures
        x.title is Some <==> is_first,
        x.title matches Some(t) ==> t@.len() <= 40 && text::occurs_at(question, t@, 0) && (
        question.len() <= 40 ==> t@ == question),
        match res.outcome {
            TurnOutcome::Done => x.status is Done,
            TurnOutcome::ProtocolError(e) => x.status matches TurnStatus::Failed(m)
                && text::contains(m@, e@),
            TurnOutcome::ModelError(e) => x.status matches TurnStatus::Failed(m) && text::contains(
                m@,
                e@,
            ),
            _ => x.status is Failed,
        },
{
    if is_first {
        let t = x.title->Some_0@;
        assert(t == text::head(question, 40));
        assert(question.subrange(0, t.len() as int) =~= t);
    }
    match res.outcome {
        TurnOutcome::ProtocolError(e) => {
            texts::lemma_contains_parts("协议异常: "@, e@, e@);
        },
        TurnOutcome::ModelError(e) => {
            texts::lemma_contains_parts("模型调用失败: "@, e@, e@);
        },
        _ => {},
    }
}

} // verus!
