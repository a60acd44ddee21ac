//! What is told to another program while a question is answered: one value on
//! each line.
//!
//! The field `t` says what a line is about. A line is complete as soon as it is
//! there, so it can be passed on before the next one is made.

use vstd::prelude::*;
use crate::agent::runner::{TurnEvent, TurnOutcome, TurnResult};
use crate::content::evidence;
use crate::content::evidence::with_signature;
use crate::json;
use crate::json::{boolean, entry, integer, natural, null, object, string, Json, NumTree, Tree};
use crate::outside;
use crate::text;

verus! {

/// The version of what is told. It changes with the meaning of what is told, and
/// not where something is added.
pub const PROTOCOL_VERSION: u32 = 1;

/// The word for how a turn ended.
pub open spec fn tag_of(o: TurnOutcome) -> Seq<char> {
    match o {
        TurnOutcome::Done => "done"@,
        TurnOutcome::IterationCap => "iteration_cap"@,
        TurnOutcome::Truncated => "truncated"@,
        TurnOutcome::ProtocolError(_) => "protocol_error"@,
        TurnOutcome::ContextBudget { used, limit } => "context_budget"@,
        TurnOutcome::ModelError(_) => "model_error"@,
    }
}

/// The word for how a turn ended. Others rely on these words.
pub fn outcome_tag(o: &TurnOutcome) -> (r: &'static str)
    ensures
        r@ == tag_of(*o),
{
    match o {
        TurnOutcome::Done => "done",
        TurnOutcome::IterationCap => "iteration_cap",
        TurnOutcome::Truncated => "truncated",
        TurnOutcome::ProtocolError(_) => "protocol_error",
        TurnOutcome::ContextBudget { .. } => "context_budget",
        TurnOutcome::ModelError(_) => "model_error",
    }
}

/// Whether two turns ended in the same way.
pub open spec fn same_end(a: TurnOutcome, b: TurnOutcome) -> bool {
    match a {
        TurnOutcome::Done => b is Done,
        TurnOutcome::IterationCap => b is IterationCap,
        TurnOutcome::Truncated => b is Truncated,
        TurnOutcome::ProtocolError(_) => b is ProtocolError,
        TurnOutcome::ContextBudget { used, limit } => b is ContextBudget,
        TurnOutcome::ModelError(_) => b is ModelError,
    }
}

/// Turns that ended in different ways have different words for it.
pub proof fn law_outcome_tags_differ(a: TurnOutcome, b: TurnOutcome)
    requires
        tag_of(a) == tag_of(b),
    ensures
        same_end(a, b),
{
    reveal_strlit("done");
    reveal_strlit("iteration_cap");
    reveal_strlit("truncated");
    reveal_strlit("protocol_error");
    reveal_strlit("context_budget");
    reveal_strlit("model_error");
    assert("protocol_error"@[0] == 'p');
    assert("context_budget"@[0] == 'c');
    assert("done"@.len() == 4);
    assert("iteration_cap"@.len() == 13);
    assert("truncated"@.len() == 9);
    assert("protocol_error"@.len() == 14);
    assert("context_budget"@.len() == 14);
    assert("model_error"@.len() == 11);
}

/// A number as a value.
pub open spec fn number(n: int) -> Tree {
    Tree::Number(NumTree::Int(n))
}

/// What is told of an event. The signature stands under an answer, and not under
/// the pieces of one.
pub open spec fn event_tree(ev: TurnEvent<'_>) -> Tree {
    Tree::Object(
        match ev {
            TurnEvent::Compacted { summary_chars, upto_seq } => seq![
                ("t"@, Tree::Str("compacted"@)),
                ("summary_chars"@, number(summary_chars as int)),
                ("upto_seq"@, number(upto_seq as int)),
            ],
            TurnEvent::Iteration { n } => seq![
                ("t"@, Tree::Str("iteration"@)),
                ("n"@, number(n as int)),
            ],
            TurnEvent::ToolCall { id, name, args } => seq![
                ("t"@, Tree::Str("tool_call"@)),
                ("id"@, Tree::Str(id@)),
                ("name"@, Tree::Str(name@)),
                ("args"@, args@),
            ],
            TurnEvent::ToolResult {
                id,
                name,
                is_error,
                external_calls,
                credits,
                vision_calls,
                preview,
            } => seq![
                ("t"@, Tree::Str("tool_result"@)),
                ("id"@, Tree::Str(id@)),
                ("name"@, Tree::Str(name@)),
                ("is_error"@, Tree::Bool(is_error)),
                ("external_calls"@, number(external_calls as int)),
                ("credits"@, number(credits as int)),
                ("vision_calls"@, number(vision_calls as int)),
                ("preview"@, Tree::Str(preview@)),
            ],
            TurnEvent::Token { text } => seq![
                ("t"@, Tree::Str("token"@)),
                ("text"@, Tree::Str(text@)),
            ],
            TurnEvent::Answer { text } => seq![
                ("t"@, Tree::Str("answer"@)),
                ("text"@, Tree::Str(evidence::signed(text@))),
            ],
        },
    )
}

fn result_json(
    id: &str,
    name: &str,
    is_error: bool,
    external_calls: usize,
    credits: i64,
    vision_calls: usize,
    preview: &str,
) -> (r: Json)
    ensures
        r@ == event_tree(
            TurnEvent::ToolResult {
                id,
                name,
                is_error,
                external_calls,
                credits,
                vision_calls,
                preview,
            },
        ),
{
    let r = object(
        vec![
            entry("t", string("tool_result")),
            entry("id", string(id)),
            entry("name", string(name)),
            entry("is_error", boolean(is_error)),
            entry("external_calls", natural(external_calls as u64)),
            entry("credits", integer(credits)),
            entry("vision_calls", natural(vision_calls as u64)),
            entry("preview", string(preview)),
        ],
    );
    assert(r@->Object_0 =~= event_tree(
        TurnEvent::ToolResult {
            id,
            name,
            is_error,
            external_calls,
            credits,
            vision_calls,
            preview,
        },
    )->Object_0);
    r
}

/// What is told of an event.
pub fn event_json(ev: &TurnEvent<'_>) -> (r: Json)
    ensures
        r@ == event_tree(*ev),
{
    let r = match ev {
        TurnEvent::Compacted { summary_chars, upto_seq } => object(
            vec![
                entry("t", string("compacted")),
                entry("summary_chars", natural(*summary_chars as u64)),
                entry("upto_seq", integer(*upto_seq)),
            ],
        ),
        TurnEvent::Iteration { n } => object(
            vec![entry("t", string("iteration")), entry("n", natural(*n as u64))],
        ),
        TurnEvent::ToolCall { id, name, args } => object(
            vec![
                entry("t", string("tool_call")),
                entry("id", string(id)),
                entry("name", string(name)),
                entry("args", args.copy()),
            ],
        ),
        TurnEvent::ToolResult {
            id,
            name,
            is_error,
            external_calls,
            credits,
            vision_calls,
            preview,
        } => {
            return result_json(
                id,
                name,
                *is_error,
                *external_calls,
                *credits,
                *vision_calls,
                preview,
            );
        },
        TurnEvent::Token { text } => object(
            vec![entry("t", string("token")), entry("text", string(text))],
        ),
        TurnEvent::Answer { text } => object(
            vec![
                entry("t", string("answer")),
                entry("text", string(with_signature(text).as_str())),
            ],
        ),
    };
    assert(r@->Object_0 =~= event_tree(*ev)->Object_0);
    r
}

/// What is told first: who answers. Without a model that looks at videos there is
/// no name for it.
pub open spec fn hello_tree(session: Seq<char>, model: Seq<char>, vision: Option<Seq<char>>) -> Tree {
    Tree::Object(
        seq![
            ("t"@, Tree::Str("hello"@)),
            ("protocol"@, number(PROTOCOL_VERSION as int)),
            ("session"@, Tree::Str(session)),
            ("model"@, Tree::Str(model)),
            ("vision"@, json::opt_str(vision)),
        ],
    )
}

/// What is told first: who answers.
pub fn hello_json(session_id: &str, model: &str, vision_model: Option<&str>) -> (r: Json)
    ensures
        r@ == hello_tree(
            session_id@,
            model@,
            match vision_model {
                Some(v) => Some(v@),
                None => None,
            },
        ),
{
    let ghost want = hello_tree(
        session_id@,
        model@,
        match vision_model {
            Some(v) => Some(v@),
            None => None,
        },
    );
    let vision = match vision_model {
        Some(v) => string(v),
        None => null(),
    };
    let r = object(
        vec![
            entry("t", string("hello")),
            entry("protocol", natural(1)),
            entry("session", string(session_id)),
            entry("model", string(model)),
            entry("vision", vision),
        ],
    );
    assert(r@->Object_0 =~= want->Object_0);
    r
}

/// What a turn came to, in all; `cost` is a number of dollars.
pub open spec fn usage_tree(res: TurnResult, cost: Tree) -> Tree {
    Tree::Object(
        seq![
            ("t"@, Tree::Str("usage"@)),
            ("iterations"@, number(res.iterations as int)),
            ("external_calls"@, number(res.tool_calls_made as int)),
            ("credits"@, number(res.credits_charged as int)),
            ("context_tokens"@, number(res.context_tokens as int)),
            ("compactions"@, number(res.compactions as int)),
            ("video_analyses"@, number(res.video_analyses as int)),
            ("video_tokens"@, number(res.video_tokens as int)),
            ("input_tokens"@, number(res.input_tokens as int)),
            ("cached_input_tokens"@, number(res.cached_input_tokens as int)),
            ("output_tokens"@, number(res.output_tokens as int)),
            ("cost_usd"@, cost),
        ],
    )
}

/// What a turn came to, in all; `cost_usd` is a number.
pub fn usage_json(res: &TurnResult, cost_usd: Json) -> (r: Json)
    ensures
        r@ == usage_tree(*res, cost_usd@),
{
    let ghost want = usage_tree(*res, cost_usd@);
    let r = object(
        vec![
            entry("t", string("usage")),
            entry("iterations", natural(res.iterations as u64)),
            entry("external_calls", natural(res.tool_calls_made as u64)),
            entry("credits", integer(res.credits_charged)),
            entry("context_tokens", natural(res.context_tokens as u64)),
            entry("compactions", natural(res.compactions as u64)),
            entry("video_analyses", natural(res.video_analyses as u64)),
            entry("video_tokens", natural(res.video_tokens as u64)),
            entry("input_tokens", natural(res.input_tokens as u64)),
            entry("cached_input_tokens", natural(res.cached_input_tokens as u64)),
            entry("output_tokens", natural(res.output_tokens as u64)),
            entry("cost_usd", cost_usd),
        ],
    );
    assert(r@->Object_0 =~= want->Object_0);
    r
}

/// What is told last: how the turn ended, and a sentence about it.
pub open spec fn done_tree(o: TurnOutcome, note: Seq<char>) -> Tree {
    Tree::Object(
        seq![
            ("t"@, Tree::Str("done"@)),
            ("outcome"@, Tree::Str(tag_of(o))),
            ("note"@, Tree::Str(note)),
        ],
    )
}

/// What is told last: how the turn ended, and a sentence about it.
pub fn done_json(o: &TurnOutcome, note: &str) -> (r: Json)
    ensures
        r@ == done_tree(*o, note@),
{
    let r = object(
        vec![
            entry("t", string("done")),
            entry("outcome", string(outcome_tag(o))),
            entry("note", string(note)),
        ],
    );
    assert(r@->Object_0 =~= done_tree(*o, note@)->Object_0);
    r
}

/// What is told where a turn could not begin.
pub open spec fn error_tree(message: Seq<char>) -> Tree {
    Tree::Object(seq![("t"@, Tree::Str("error"@)), ("message"@, Tree::Str(message))])
}

/// What is told where a turn could not begin.
pub fn error_json(message: &str) -> (r: Json)
    ensures
        r@ == error_tree(message@),
{
    let r = object(vec![entry("t", string("error")), entry("message", string(message))]);
    assert(r@->Object_0 =~= error_tree(message@)->Object_0);
    r
}

/// Whether `t` is one line: it ends with the end of the line, and there is no
/// other.
pub open spec fn one_line(t: Seq<char>) -> bool {
    t.len() > 0 && t.last() == '\n' && forall|i: int| 0 <= i < t.len() - 1 ==> t[i] != '\n'
}

/// The line for a value. Ends of lines inside of it are written otherwise.
pub fn ndjson_line(v: &Json) -> (r: String)
    ensures
        r@ == outside::json_text(v@) + "\n"@,
        one_line(r@),
        outside::written_back(v@) ==> outside::json_tree(r@.drop_last()) == Some(v@),
{
    let s = v.text();
    proof {
        reveal_strlit("\n");
        assert(!text::has_char(s@, '\n'));
        assert((s@ + "\n"@).drop_last() =~= s@);
        assert forall|i: int| 0 <= i < s@.len() implies s@[i] != '\n' by {}
    }
    s.concat("\n")
}

/// Where the lines go.
#[derive(Debug)]
pub struct NdjsonSink<W> {
    pub out: W,
}

impl<W> NdjsonSink<W> {
    pub fn new(out: W) -> (r: Self)
        ensures
            r.out == out,
    {
        NdjsonSink { out }
    }
}

} // verus!
