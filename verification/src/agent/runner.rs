//! One turn of a conversation: its limits, how it can end, and what it reports
//! on its way.

use vstd::prelude::*;
use crate::content::model::Item;
use crate::json::{Json, Tree};
use crate::text::to_chars;

verus! {

/// How many characters of `t`, among the first `n`, are ASCII.
pub open spec fn ascii_chars(t: Seq<char>, n: int) -> nat
    decreases n,
{
    if n <= 0 || n > t.len() {
        0
    } else if t[n - 1] <= '\u{7f}' {
        ascii_chars(t, n - 1) + 1
    } else {
        ascii_chars(t, n - 1)
    }
}

/// About how many tokens a text is, on the high side: one for each 1.68
/// characters of ASCII, and one for each 1.85 others.
pub open spec fn estimated_tokens(t: Seq<char>) -> nat {
    let a = ascii_chars(t, t.len() as int);
    let b = t.len() - a;
    ((a * 100 + 167) / 168 + (b * 100 + 184) / 185) as nat
}

proof fn lemma_ascii_chars(t: Seq<char>, n: int)
    requires
        0 <= n <= t.len(),
    ensures
        ascii_chars(t, n) <= n,
    decreases n,
{
    if n > 0 {
        lemma_ascii_chars(t, n - 1);
    }
}

/// About how many tokens a text is, on the high side.
pub fn est_tokens_of(s: &str) -> (r: u128)
    ensures
        r == estimated_tokens(s@),
        r <= 0x2_0000_0000_0000_0000,
{
    let t = to_chars(s);
    let mut ascii: usize = 0;
    let mut i: usize = 0;
    while i < t.len()
        invariant
            i <= t@.len(),
            ascii <= i,
            t@ == s@,
            ascii == ascii_chars(s@, i as int),
        decreases t@.len() - i,
    {
        if t[i] <= '\u{7f}' {
            ascii = ascii + 1;
        }
        i = i + 1;
    }
    let a: u128 = ascii as u128;
    let b: u128 = (t.len() - ascii) as u128;
    (a * 100 + 167) / 168 + (b * 100 + 184) / 185
}

/// The limits of one turn.
#[derive(Debug, Clone, Copy, PartialEq, Eq, Structural)]
pub struct LoopConfig {
    /// How often the model may be asked.
    pub max_iterations: usize,
    /// When the model is told to come to an end.
    pub convergence_iteration: usize,
    /// How many endpoints may be asked.
    pub max_tool_calls: usize,
    /// How many videos may be looked at.
    pub max_video_analyses: usize,
    /// How many tokens a request may have.
    pub context_budget_tokens: usize,
    /// From how many tokens on the history is made shorter.
    pub compaction_threshold: usize,
    /// How short the history is made.
    pub compaction_target_tokens: usize,
}

/// The limits of a turn unless others are given.
pub open spec fn default_limits() -> LoopConfig {
    LoopConfig {
        max_iterations: 20,
        convergence_iteration: 16,
        max_tool_calls: 25,
        max_video_analyses: 5,
        context_budget_tokens: 940_000,
        compaction_threshold: 400_000,
        compaction_target_tokens: 150_000,
    }
}

impl Default for LoopConfig {
    fn default() -> (r: LoopConfig)
        ensures
            r == default_limits(),
    {
        LoopConfig {
            max_iterations: 20,
            convergence_iteration: 16,
            max_tool_calls: 25,
            max_video_analyses: 5,
            context_budget_tokens: 940_000,
            compaction_threshold: 400_000,
            compaction_target_tokens: 150_000,
        }
    }
}

/// Whether limits make sense together: the model is told to come to an end
/// before it is stopped, the limit on videos can be met before the one on
/// endpoints, and a history that was made shorter is below the line.
pub open spec fn consistent(c: LoopConfig) -> bool {
    &&& c.max_iterations > 0
    &&& c.convergence_iteration < c.max_iterations
    &&& c.max_video_analyses < c.max_tool_calls
    &&& c.compaction_target_tokens < c.compaction_threshold
}

/// How a turn ended.
#[derive(Debug, Clone, PartialEq)]
pub enum TurnOutcome {
    /// With an answer.
    Done,
    /// The model was asked as often as it may be.
    IterationCap,
    /// The answer was cut off.
    Truncated,
    /// The model stopped for a reason that nobody knows.
    ProtocolError(String),
    /// The history is too long; nothing was sent.
    ContextBudget { used: usize, limit: usize },
    /// The model could not be asked.
    ModelError(String),
}

/// What happens on the way.
#[derive(Debug)]
pub enum TurnEvent<'a> {
    Compacted { summary_chars: usize, upto_seq: i64 },
    Iteration { n: usize },
    ToolCall { id: &'a str, name: &'a str, args: &'a Json },
    ToolResult {
        id: &'a str,
        name: &'a str,
        is_error: bool,
        external_calls: usize,
        credits: i64,
        vision_calls: usize,
        preview: &'a str,
    },
    Token { text: &'a str },
    Answer { text: &'a str },
}

/// Somebody who is told what happens on the way. Nothing depends on what they
/// make of it.
pub trait TurnObserver {
    fn on(&self, ev: &TurnEvent<'_>);
}

/// What an event says.
pub enum EventView {
    Compacted { summary_chars: int, upto_seq: int },
    Iteration { n: int },
    ToolCall { id: Seq<char>, name: Seq<char>, args: Tree },
    ToolResult {
        id: Seq<char>,
        name: Seq<char>,
        is_error: bool,
        external_calls: int,
        credits: int,
        vision_calls: int,
        preview: Seq<char>,
    },
    Token { text: Seq<char> },
    Answer { text: Seq<char> },
}

/// What an event says.
pub open spec fn event_view(ev: TurnEvent<'_>) -> EventView {
    match ev {
        TurnEvent::Compacted { summary_chars, upto_seq } => EventView::Compacted {
            summary_chars: summary_chars as int,
            upto_seq: upto_seq as int,
        },
        TurnEvent::Iteration { n } => EventView::Iteration { n: n as int },
        TurnEvent::ToolCall { id, name, args } => EventView::ToolCall {
            id: id@,
            name: name@,
            args: args@,
        },
        TurnEvent::ToolResult {
            id,
            name,
            is_error,
            external_calls,
            credits,
            vision_calls,
            preview,
        } => EventView::ToolResult {
            id: id@,
            name: name@,
            is_error,
            external_calls: external_calls as int,
            credits: credits as int,
            vision_calls: vision_calls as int,
            preview: preview@,
        },
        TurnEvent::Token { text } => EventView::Token { text: text@ },
        TurnEvent::Answer { text } => EventView::Answer { text: text@ },
    }
}

/// Whether an observer was told of an event.
pub open spec fn was_told<O: TurnObserver>(observer: &O, v: EventView) -> bool {
    exists|ev: TurnEvent|
        event_view(ev) == v && #[trigger] call_ensures(O::on, (observer, &ev), ())
}

/// What came of a turn, and what it cost.
#[derive(Debug)]
pub struct TurnResult {
    pub outcome: TurnOutcome,
    pub answer: String,
    pub items: Vec<Item>,
    /// A summary of the history, with the last turn that it covers.
    pub pending_summary: Option<(String, i64)>,
    pub iterations: usize,
    pub tool_calls_made: usize,
    pub credits_charged: i64,
    pub context_tokens: usize,
    pub compactions: usize,
    pub video_analyses: usize,
    pub video_tokens: u32,
    pub input_tokens: u32,
    pub cached_input_tokens: u32,
    pub output_tokens: u32,
}

} // verus!
