//! Answering one question: the model is asked, runs the tools it asks for, and
//! is asked again, until it answers or a limit is met.
//!
//! Four limits hold. The model is asked so many times, and told beforehand to
//! come to an end. The scraping service is asked so many times; then tools are
//! not run any more. So many videos are looked at. And no request is sent that is
//! longer than it may be. Every tool that the model asks for is answered, for a
//! history in which one is not is refused.

use vstd::prelude::*;
use crate::agent::compaction;
use crate::agent::compaction::{
    pick_split, render_raw_fallback, CompactionSummary, History, SummaryReader, TurnItems,
    SUMMARIZE_PROMPT,
};
use crate::agent::context;
use crate::agent::context::{to_messages, to_transcript};
use crate::agent::execute;
use crate::agent::execute::run_tool;
use crate::agent::llm;
use crate::agent::llm::{LlmClient, ModelRequest, ModelResponse, Msg, StopReason, ToolCall};
use crate::agent::runner;
use crate::agent::runner::{
    est_tokens_of, EventView, LoopConfig, TurnEvent, TurnObserver, TurnOutcome, TurnResult,
};
use crate::agent::tools;
use crate::agent::tools::{tool_defs, OutcomeView, ToolOutcome};
use crate::agent::vision::VisionClient;
use crate::content::evidence::DISCOVERY_SYSTEM_PROMPT;
use crate::content::model;
use crate::content::model::{Item, ItemKind, ItemView};
use crate::error;
use crate::error::{ClipKnowError, Result};
use crate::ingest::discovery::DiscoveryApi;
use crate::json;
use crate::json::Tree;
use crate::store::{DossierStore, Store};
use crate::text;
use crate::text::{head_of, to_chars, usize_text};

verus! {

/// What the model is told when it should come to an end.
pub const CONVERGENCE_HINT: &'static str =
    "该收敛了：请根据已经查到的材料给出答案，没有查到的部分明说。";

/// How much of what a tool answered is reported.
pub const PREVIEW_CHARS: usize = 200;

/// What a question is shown as when it was received, before anything is sent.
pub fn echo_received(question: &str) -> (r: String)
    ensures
        r@ == "· 收到问题（"@ + text::int_text(question@.len() as int) + " 字）："@ + question@,
{
    let n: usize = to_chars(question).len();
    "· 收到问题（".to_owned().concat(usize_text(n).as_str()).concat(" 字）：").concat(question)
}

// ---------------------------------------------------------------------------
// What an answer means
// ---------------------------------------------------------------------------

/// What follows an answer of the model.
#[derive(Debug)]
pub enum Next {
    /// Nothing: it is the answer to the question.
    Finish,
    /// Tools are run.
    UseTools,
    /// It was cut off.
    CutOff,
    /// The model refused.
    Refused,
    /// The model stopped for a reason that nobody knows.
    Odd(String),
}

/// What follows an answer of the model. That it was cut off comes first: half an
/// answer is not to be taken for a whole one, nor half a wish for a whole one.
pub fn decide(resp: &ModelResponse) -> (r: Next)
    ensures
        match resp.stop_reason {
            StopReason::MaxTokens => r is CutOff,
            StopReason::Refusal => r is Refused,
            StopReason::Other(s) => r matches Next::Odd(t) && t@ == s@,
            _ => if resp.tool_calls@.len() > 0 {
                r is UseTools
            } else {
                r is Finish
            },
        },
{
    match &resp.stop_reason {
        StopReason::MaxTokens => Next::CutOff,
        StopReason::Refusal => Next::Refused,
        StopReason::Other(s) => Next::Odd(s.clone()),
        _ => if resp.tool_calls.len() > 0 {
            Next::UseTools
        } else {
            Next::Finish
        },
    }
}

/// Whether the model may be asked again: not where it was asked as often as it
/// may be, and not where the request would be longer than it may be.
pub fn stopped(asked: usize, used: usize, cfg: &LoopConfig) -> (r: Option<TurnOutcome>)
    ensures
        r == (if asked >= cfg.max_iterations {
            Some(TurnOutcome::IterationCap)
        } else if used > cfg.context_budget_tokens {
            Some(TurnOutcome::ContextBudget { used, limit: cfg.context_budget_tokens })
        } else {
            None
        }),
{
    if asked >= cfg.max_iterations {
        Some(TurnOutcome::IterationCap)
    } else if used > cfg.context_budget_tokens {
        Some(TurnOutcome::ContextBudget { used, limit: cfg.context_budget_tokens })
    } else {
        None
    }
}

/// What an answer of the model comes to.
#[derive(Debug)]
pub enum Answered {
    /// The turn is over. `said` is whether the text becomes a part of the history.
    Over { outcome: TurnOutcome, text: String, said: bool },
    /// The turn goes on with tools.
    Tools { text: String, calls: Vec<ToolCall> },
}

/// Whether `r` is what an answer of the model comes to: a whole answer ends the
/// turn; one that was cut off is kept, but is no success; a refusal has no text;
/// and only where tools are to be run the turn goes on.
pub open spec fn is_answered(resp: ModelResponse, r: Answered) -> bool {
    match resp.stop_reason {
        StopReason::MaxTokens => r matches Answered::Over { outcome, text, said } && outcome
            == TurnOutcome::Truncated && text@ == resp.text@ && said,
        StopReason::Refusal => r matches Answered::Over { outcome, text, said } && (
        outcome matches TurnOutcome::ModelError(m) && m@ == error::error_text(
            ClipKnowError::LlmRefusal,
        )) && text@.len() == 0 && !said,
        StopReason::Other(s) => r matches Answered::Over { outcome, text, said } && (
        outcome matches TurnOutcome::ProtocolError(m) && m@ == s@) && text@ == resp.text@ && !said,
        _ => if resp.tool_calls@.len() > 0 {
            r matches Answered::Tools { text, calls } && text@ == resp.text@ && calls
                == resp.tool_calls
        } else {
            r matches Answered::Over { outcome, text, said } && outcome == TurnOutcome::Done
                && text@ == resp.text@ && said
        },
    }
}

/// What an answer of the model comes to.
pub fn answered(resp: ModelResponse) -> (r: Answered)
    ensures
        is_answered(resp, r),
{
    match decide(&resp) {
        Next::Finish => Answered::Over { outcome: TurnOutcome::Done, text: resp.text, said: true },
        Next::CutOff => Answered::Over {
            outcome: TurnOutcome::Truncated,
            text: resp.text,
            said: true,
        },
        Next::Refused => Answered::Over {
            outcome: TurnOutcome::ModelError(ClipKnowError::LlmRefusal.message()),
            text: String::new(),
            said: false,
        },
        Next::Odd(why) => Answered::Over {
            outcome: TurnOutcome::ProtocolError(why),
            text: resp.text,
            said: false,
        },
        Next::UseTools => Answered::Tools { text: resp.text, calls: resp.tool_calls },
    }
}

/// What comes of a tool that is not run because the scraping service may not be asked
/// any more.
pub open spec fn no_calls_left(call_id: Seq<char>, limit: int) -> OutcomeView {
    tools::refused(
        call_id,
        "本次提问的外部调用预算已用尽（上限 "@ + text::int_text(limit)
            + " 次），请根据已有材料作答。"@,
    )
}

/// What a model is told of a tool that was not run because the scraping service
/// may not be asked any more.
pub fn out_of_calls(call_id: &str, limit: usize) -> (r: ToolOutcome)
    ensures
        r@ == no_calls_left(call_id@, limit as int),
{
    ToolOutcome::err(
        call_id,
        "本次提问的外部调用预算已用尽（上限 ".to_owned().concat(usize_text(limit).as_str()).concat(
            " 次），请根据已有材料作答。",
        ),
    )
}

// ---------------------------------------------------------------------------
// Calls and answers in a history
// ---------------------------------------------------------------------------

/// The identifiers of the entries of a kind, among the first `n`.
pub open spec fn ids(v: Seq<ItemView>, kind: ItemKind, n: int) -> Seq<Option<Seq<char>>>
    decreases n,
{
    if n <= 0 || n > v.len() {
        seq![]
    } else if v[n - 1].kind == kind {
        ids(v, kind, n - 1).push(v[n - 1].call_id)
    } else {
        ids(v, kind, n - 1)
    }
}

/// Whether the calls in a history were answered, each one, in their order.
pub open spec fn paired(v: Seq<ItemView>) -> bool {
    ids(v, ItemKind::FunctionCall, v.len() as int) == ids(
        v,
        ItemKind::FunctionCallOutput,
        v.len() as int,
    )
}

proof fn lemma_ids(v: Seq<ItemView>, w: Seq<ItemView>, kind: ItemKind, n: int)
    requires
        0 <= n <= v.len(),
        n <= w.len(),
        forall|i: int| 0 <= i < n ==> v[i] == w[i],
    ensures
        ids(v, kind, n) == ids(w, kind, n),
    decreases n,
{
    if n > 0 {
        lemma_ids(v, w, kind, n - 1);
    }
}

proof fn lemma_push(v: Seq<ItemView>, x: ItemView, kind: ItemKind)
    ensures
        ids(v.push(x), kind, v.push(x).len() as int) == (if x.kind == kind {
            ids(v, kind, v.len() as int).push(x.call_id)
        } else {
            ids(v, kind, v.len() as int)
        }),
{
    lemma_ids(v, v.push(x), kind, v.len() as int);
}

/// The identifiers of calls.
pub open spec fn call_ids(v: Seq<ToolCall>) -> Seq<Option<Seq<char>>> {
    Seq::new(v.len(), |i: int| Some(v[i].id@))
}

/// The number under which something is noted; no more than can be noted.
pub open spec fn place_of(n: int) -> i64 {
    if n <= i64::MAX {
        n as i64
    } else {
        i64::MAX
    }
}

fn place(n: usize) -> (r: i64)
    ensures
        r == place_of(n as int),
{
    if n as u64 <= i64::MAX as u64 {
        n as i64
    } else {
        i64::MAX
    }
}

fn place_after(v: &Vec<Item>) -> (r: i64)
    ensures
        v@.len() < i64::MAX ==> r == v@.len() + 1,
{
    let n: i64 = place(v.len());
    if n < i64::MAX {
        n + 1
    } else {
        n
    }
}

/// Whether entries are numbered in their order, from one on.
pub open spec fn numbered(v: Seq<Item>) -> bool {
    forall|k: int| 0 <= k < v.len() && k < i64::MAX ==> (#[trigger] v[k]).idx == k + 1
}

/// The identifiers of the calls among entries.
pub open spec fn asks(v: Seq<Item>) -> Seq<Option<Seq<char>>> {
    ids(model::items_view(v), ItemKind::FunctionCall, v.len() as int)
}

/// The identifiers of the answers among entries.
pub open spec fn replies(v: Seq<Item>) -> Seq<Option<Seq<char>>> {
    ids(model::items_view(v), ItemKind::FunctionCallOutput, v.len() as int)
}

/// What an entry says, wherever it stands. `iteration` is how often the model was
/// asked until it was noted.
pub struct Entry {
    pub kind: ItemKind,
    pub iteration: Option<i64>,
    pub call_id: Option<Seq<char>>,
    pub payload: Tree,
    pub raw_json: Option<Seq<char>>,
}

/// What an entry says.
pub open spec fn entry_of(it: ItemView) -> Entry {
    Entry {
        kind: it.kind,
        iteration: it.iteration,
        call_id: it.call_id,
        payload: it.payload,
        raw_json: it.raw_json,
    }
}

/// What entries say.
pub open spec fn entries(v: Seq<Item>) -> Seq<Entry> {
    Seq::new(v.len(), |i: int| entry_of(v[i]@))
}

/// What is noted of something that was said.
pub open spec fn said_entry(kind: ItemKind, iteration: Option<i64>, said: Seq<char>) -> Entry {
    Entry {
        kind,
        iteration,
        call_id: None,
        payload: Tree::Object(seq![("text"@, Tree::Str(said))]),
        raw_json: None,
    }
}

/// What is noted of a question.
pub open spec fn question_entry(question: Seq<char>) -> Entry {
    said_entry(ItemKind::UserMessage, None, question)
}

/// What is noted of what the model said when it was asked for the `n`-th time.
pub open spec fn answer_entry(said: Seq<char>, n: int) -> Entry {
    said_entry(ItemKind::AssistantMessage, Some(place_of(n)), said)
}

/// What is noted of a wish.
pub open spec fn call_entry(c: ToolCall, n: int) -> Entry {
    Entry {
        kind: ItemKind::FunctionCall,
        iteration: Some(place_of(n)),
        call_id: Some(c.id@),
        payload: Tree::Object(seq![("name"@, Tree::Str(c.name@)), ("args"@, c.args@)]),
        raw_json: None,
    }
}

/// What is noted of what came of a tool, with what it cost where that is known.
pub open spec fn outcome_entry(o: ToolOutcome, n: int) -> Entry {
    Entry {
        kind: ItemKind::FunctionCallOutput,
        iteration: Some(place_of(n)),
        call_id: Some(o@.call_id),
        payload: model::with_cost(
            Tree::Object(
                seq![("content"@, Tree::Str(o@.content)), ("is_error"@, Tree::Bool(o@.is_error))],
            ),
            o@.credits_charged,
        ),
        raw_json: o@.raw_json,
    }
}

/// What is noted of wishes.
pub open spec fn call_entries(v: Seq<ToolCall>, n: int) -> Seq<Entry> {
    Seq::new(v.len(), |i: int| call_entry(v[i], n))
}

/// What is noted of what came of tools.
pub open spec fn outcome_entries(v: Seq<ToolOutcome>, n: int) -> Seq<Entry> {
    Seq::new(v.len(), |i: int| outcome_entry(v[i], n))
}

fn note(items: &mut Vec<Item>, x: Item)
    ensures
        entries(final(items)@) == entries(old(items)@).push(entry_of(x@)),
        final(items)@ == old(items)@.push(x),
        asks(final(items)@) == (if x.kind == ItemKind::FunctionCall {
            asks(old(items)@).push(text::opt(x.call_id))
        } else {
            asks(old(items)@)
        }),
        replies(final(items)@) == (if x.kind == ItemKind::FunctionCallOutput {
            replies(old(items)@).push(text::opt(x.call_id))
        } else {
            replies(old(items)@)
        }),
{
    let ghost before = model::items_view(items@);
    let ghost (said, y) = (entries(items@), x@);
    items.push(x);
    proof {
        assert(entries(items@) =~= said.push(entry_of(y)));
        assert(model::items_view(items@) =~= before.push(y));
        lemma_push(before, y, ItemKind::FunctionCall);
        lemma_push(before, y, ItemKind::FunctionCallOutput);
    }
}

// ---------------------------------------------------------------------------
// Tools
// ---------------------------------------------------------------------------

/// What a turn came to so far.
#[derive(Debug, Clone, Copy)]
pub struct Tally {
    pub external_calls: usize,
    pub credits: i64,
    pub video_analyses: usize,
    pub video_tokens: u32,
    pub input_tokens: u32,
    pub output_tokens: u32,
}

/// Nothing but what was spent on a summary.
pub open spec fn no_costs(input_tokens: u32, output_tokens: u32) -> Tally {
    Tally {
        external_calls: 0,
        credits: 0,
        video_analyses: 0,
        video_tokens: 0,
        input_tokens,
        output_tokens,
    }
}

fn nothing_yet() -> (r: Tally)
    ensures
        r == no_costs(0, 0),
{
    Tally {
        external_calls: 0,
        credits: 0,
        video_analyses: 0,
        video_tokens: 0,
        input_tokens: 0,
        output_tokens: 0,
    }
}

fn more_u32(a: u32, b: u32) -> (r: u32)
    ensures
        r == sum_u32(a, b),
{
    if b > u32::MAX - a {
        u32::MAX
    } else {
        a + b
    }
}

fn more_usize(a: usize, b: usize) -> (r: usize)
    ensures
        r == sum_usize(a, b),
{
    if b > usize::MAX - a {
        usize::MAX
    } else {
        a + b
    }
}

fn more_i64(a: i64, b: i64) -> (r: i64)
    ensures
        r as int == json::cut(a + b),
{
    let n: i128 = a as i128 + b as i128;
    if n < i64::MIN as i128 {
        i64::MIN
    } else if n > i64::MAX as i128 {
        i64::MAX
    } else {
        n as i64
    }
}

/// The sum of two numbers, or the largest number that there is.
pub open spec fn sum_u32(a: u32, b: u32) -> u32 {
    if a + b > u32::MAX {
        u32::MAX
    } else {
        (a + b) as u32
    }
}

/// The sum of two numbers, or the largest number that there is.
pub open spec fn sum_usize(a: usize, b: usize) -> usize {
    if a + b > usize::MAX {
        usize::MAX
    } else {
        (a + b) as usize
    }
}

/// What was counted, with what came of a tool: every endpoint that was asked, what
/// it charged, and every video that was looked at.
pub open spec fn tallied(t: Tally, o: ToolOutcome) -> Tally {
    Tally {
        external_calls: sum_usize(t.external_calls, o.external_calls),
        credits: json::cut(
            t.credits + (match o.credits_charged {
                Some(n) => n as int,
                None => 0,
            }),
        ) as i64,
        video_analyses: sum_usize(t.video_analyses, o.vision_calls),
        video_tokens: sum_u32(t.video_tokens, o.video_tokens),
        input_tokens: t.input_tokens,
        output_tokens: t.output_tokens,
    }
}

/// What was counted, with what came of the first `n` tools.
pub open spec fn tallied_all(t: Tally, v: Seq<ToolOutcome>, n: int) -> Tally
    decreases n,
{
    if n <= 0 || n > v.len() {
        t
    } else {
        tallied(tallied_all(t, v, n - 1), v[n - 1])
    }
}

/// What was counted, with an answer of the model.
pub open spec fn tallied_answer(t: Tally, resp: ModelResponse) -> Tally {
    Tally {
        input_tokens: sum_u32(t.input_tokens, resp.input_tokens),
        output_tokens: sum_u32(t.output_tokens, resp.output_tokens),
        ..t
    }
}

fn tally_answer(t: Tally, resp: &ModelResponse) -> (r: Tally)
    ensures
        r == tallied_answer(t, *resp),
{
    Tally {
        input_tokens: more_u32(t.input_tokens, resp.input_tokens),
        output_tokens: more_u32(t.output_tokens, resp.output_tokens),
        ..t
    }
}

/// Counts what came of a tool.
pub fn tally_up(t: Tally, o: &ToolOutcome) -> (r: Tally)
    ensures
        r == tallied(t, *o),
{
    let charged: i64 = match o.credits_charged {
        Some(n) => n,
        None => 0,
    };
    Tally {
        external_calls: more_usize(t.external_calls, o.external_calls),
        credits: more_i64(t.credits, charged),
        video_analyses: more_usize(t.video_analyses, o.vision_calls),
        video_tokens: more_u32(t.video_tokens, o.video_tokens),
        input_tokens: t.input_tokens,
        output_tokens: t.output_tokens,
    }
}

/// All that a turn needs.
pub struct TurnDeps<'a, L, A, S, V> {
    pub llm: &'a L,
    pub api: &'a A,
    pub store: &'a mut S,
    pub vision: Option<&'a V>,
}

/// Whether a call was answered when a turn had come to `t`: the tool was run, or else
/// the scraping service may not be asked any more.
pub open spec fn was_run<A: DiscoveryApi, S: Store + DossierStore, V: VisionClient>(
    api: &A,
    vision: Option<&V>,
    cfg: LoopConfig,
    t: Tally,
    c: ToolCall,
    o: ToolOutcome,
    before: S,
    after: S,
) -> bool {
    if t.external_calls >= cfg.max_tool_calls {
        o@ == no_calls_left(c.id@, cfg.max_tool_calls as int) && after == before
    } else {
        execute::was_executed(
            api,
            vision,
            cfg.max_video_analyses - t.video_analyses,
            c@,
            before,
            after,
            o@,
        )
    }
}

fn run_one<A: DiscoveryApi, S: Store + DossierStore, V: VisionClient>(
    api: &A,
    store: &mut S,
    vision: Option<&V>,
    call: &ToolCall,
    t: Tally,
    cfg: &LoopConfig,
) -> (r: ToolOutcome)
    requires
        t.video_analyses <= cfg.max_video_analyses,
    ensures
        r@.call_id == call.id@,
        was_run(api, vision, *cfg, t, *call, r, *old(store), *final(store)),
        t.video_analyses + r.vision_calls <= cfg.max_video_analyses,
{
    if t.external_calls >= cfg.max_tool_calls {
        return out_of_calls(call.id.as_str(), cfg.max_tool_calls);
    }
    run_tool(api, store, vision, cfg.max_video_analyses - t.video_analyses, call)
}

fn tell<O: TurnObserver>(observer: &O, ev: TurnEvent<'_>)
    ensures
        runner::was_told(observer, runner::event_view(ev)),
{
    observer.on(&ev);
    assert(call_ensures(O::on, (observer, &ev), ()));
}

/// What is told of a wish.
pub open spec fn wish_event(c: ToolCall) -> EventView {
    EventView::ToolCall { id: c.id@, name: c.name@, args: c.args@ }
}

/// What is told of what came of a tool: what it cost as far as that is known, and the
/// beginning of what it answered.
pub open spec fn outcome_event(c: ToolCall, o: ToolOutcome) -> EventView {
    EventView::ToolResult {
        id: c.id@,
        name: c.name@,
        is_error: o@.is_error,
        external_calls: o@.external_calls,
        credits: match o@.credits_charged {
            Some(n) => n,
            None => 0,
        },
        vision_calls: o@.vision_calls,
        preview: text::head(o@.content, PREVIEW_CHARS as int),
    }
}

/// Whether an observer was told of the `i`-th call, and of what came of it.
pub open spec fn was_call_told<O: TurnObserver>(
    observer: &O,
    calls: Seq<ToolCall>,
    outcomes: Seq<ToolOutcome>,
    i: int,
) -> bool {
    &&& runner::was_told(observer, wish_event(calls[i]))
    &&& runner::was_told(observer, outcome_event(calls[i], outcomes[i]))
}

/// Whether an observer was told of every call, and of what came of each.
pub open spec fn were_told<O: TurnObserver>(
    observer: &O,
    calls: Seq<ToolCall>,
    outcomes: Seq<ToolOutcome>,
) -> bool {
    forall|i: int|
        0 <= i < calls.len() ==> #[trigger] was_call_told(observer, calls, outcomes, i)
}

fn report<O: TurnObserver>(observer: &O, call: &ToolCall, o: &ToolOutcome)
    ensures
        runner::was_told(observer, outcome_event(*call, *o)),
{
    let credits: i64 = match o.credits_charged {
        Some(n) => n,
        None => 0,
    };
    let preview = head_of(o.result.content.as_str(), PREVIEW_CHARS);
    tell(
        observer,
        TurnEvent::ToolResult {
            id: call.id.as_str(),
            name: call.name.as_str(),
            is_error: o.result.is_error,
            external_calls: o.external_calls,
            credits,
            vision_calls: o.vision_calls,
            preview: preview.as_str(),
        },
    );
}

/// Whether the `i`-th call was answered when a turn had come to `t` and then to what
/// the calls before it cost, with the store as they left it.
pub open spec fn was_call_run<A: DiscoveryApi, S: Store + DossierStore, V: VisionClient>(
    api: &A,
    vision: Option<&V>,
    cfg: LoopConfig,
    t: Tally,
    calls: Seq<ToolCall>,
    outcomes: Seq<ToolOutcome>,
    stores: Seq<S>,
    i: int,
) -> bool {
    &&& outcomes[i]@.call_id == calls[i].id@
    &&& was_run(
        api,
        vision,
        cfg,
        tallied_all(t, outcomes, i),
        calls[i],
        outcomes[i],
        stores[i],
        stores[i + 1],
    )
}

/// Whether the tools were run that the model asked for, each of them once and in
/// order. `stores` is the store before each of them, and after the last.
pub open spec fn were_run<A: DiscoveryApi, S: Store + DossierStore, V: VisionClient>(
    api: &A,
    vision: Option<&V>,
    cfg: LoopConfig,
    t: Tally,
    calls: Seq<ToolCall>,
    outcomes: Seq<ToolOutcome>,
    stores: Seq<S>,
) -> bool {
    &&& outcomes.len() == calls.len()
    &&& stores.len() == calls.len() + 1
    &&& forall|i: int|
        0 <= i < calls.len() ==> #[trigger] was_call_run(
            api,
            vision,
            cfg,
            t,
            calls,
            outcomes,
            stores,
            i,
        )
}

proof fn lemma_tallied(t: Tally, v: Seq<ToolOutcome>, w: Seq<ToolOutcome>, n: int)
    requires
        n <= v.len(),
        n <= w.len(),
        forall|i: int| 0 <= i < n ==> v[i] == w[i],
    ensures
        tallied_all(t, v, n) == tallied_all(t, w, n),
    decreases n,
{
    if n > 0 {
        lemma_tallied(t, v, w, n - 1);
    }
}

/// Runs the tools that the model asked for, one after another, and notes each
/// wish and each answer.
fn run_calls<A: DiscoveryApi, S: Store + DossierStore, V: VisionClient, O: TurnObserver>(
    api: &A,
    store: &mut S,
    vision: Option<&V>,
    observer: &O,
    calls: &Vec<ToolCall>,
    iteration: usize,
    cfg: &LoopConfig,
    before: Tally,
    items: &mut Vec<Item>,
) -> (r: Tally)
    requires
        before.video_analyses <= cfg.max_video_analyses,
        numbered(old(items)@),
    ensures
        exists|outcomes: Seq<ToolOutcome>, stores: Seq<S>| #[trigger]
            were_run(api, vision, *cfg, before, calls@, outcomes, stores) && stores[0] == *old(
                store,
            ) && stores.last() == *final(store) && entries(final(items)@) == entries(old(items)@)
                + call_entries(calls@, iteration as int) + outcome_entries(
                outcomes,
                iteration as int,
            ) && r == tallied_all(before, outcomes, outcomes.len() as int) && were_told(
                observer,
                calls@,
                outcomes,
            ),
        numbered(final(items)@),
        asks(final(items)@) == asks(old(items)@) + call_ids(calls@),
        replies(final(items)@) == replies(old(items)@) + call_ids(calls@),
        final(items)@.len() >= old(items)@.len(),
        forall|k: int| 0 <= k < old(items)@.len() ==> final(items)@[k] == old(items)@[k],
        r.video_analyses <= cfg.max_video_analyses,
{
    let ghost first = items@;
    let ghost all = call_ids(calls@);
    let ghost wishes = call_entries(calls@, iteration as int);
    assert(entries(items@) =~= entries(first) + wishes.take(0));
    let mut i: usize = 0;
    assert(asks(items@) =~= asks(first) + all.take(0));
    while i < calls.len()
        invariant
            i <= calls@.len(),
            numbered(items@),
            all == call_ids(calls@),
            wishes == call_entries(calls@, iteration as int),
            entries(items@) == entries(first) + wishes.take(i as int),
            asks(items@) == asks(first) + all.take(i as int),
            replies(items@) == replies(first),
            items@.len() >= first.len(),
            forall|k: int| 0 <= k < first.len() ==> items@[k] == first[k],
        decreases calls@.len() - i,
    {
        let c = &calls[i];
        let x = Item::function_call(
            place_after(items),
            place(iteration),
            c.id.as_str(),
            c.name.as_str(),
            &c.args,
        );
        let ghost id = text::opt(x.call_id);
        assert(id == x@.call_id && x.kind == x@.kind);
        note(items, x);
        i = i + 1;
        assert(all.take(i as int) =~= all.take(i - 1).push(all[i - 1]));
        assert(asks(items@) =~= asks(first) + all.take(i as int));
        assert(wishes.take(i as int) =~= wishes.take(i - 1).push(wishes[i - 1]));
        assert(entries(items@) =~= entries(first) + wishes.take(i as int));
    }
    assert(wishes.take(i as int) =~= wishes);
    assert(all.take(i as int) =~= all);
    let mut tally = before;
    let ghost mut outcomes: Seq<ToolOutcome> = seq![];
    let ghost mut stores: Seq<S> = seq![*store];
    i = 0;
    assert(entries(items@) =~= entries(first) + wishes + outcome_entries(
        outcomes,
        iteration as int,
    ));
    assert(replies(items@) =~= replies(first) + all.take(0));
    while i < calls.len()
        invariant
            i <= calls@.len(),
            numbered(items@),
            all == call_ids(calls@),
            outcomes.len() == i,
            stores.len() == i + 1,
            stores[0] == *old(store),
            stores.last() == *store,
            forall|k: int|
                0 <= k < i ==> #[trigger] was_call_run(
                    api,
                    vision,
                    *cfg,
                    before,
                    calls@,
                    outcomes,
                    stores,
                    k,
                ),
            forall|k: int|
                0 <= k < i ==> #[trigger] was_call_told(observer, calls@, outcomes, k),
            entries(items@) == entries(first) + wishes + outcome_entries(outcomes, iteration as int),
            tally == tallied_all(before, outcomes, i as int),
            asks(items@) == asks(first) + all,
            replies(items@) == replies(first) + all.take(i as int),
            items@.len() >= first.len(),
            forall|k: int| 0 <= k < first.len() ==> items@[k] == first[k],
            tally.video_analyses <= cfg.max_video_analyses,
        decreases calls@.len() - i,
    {
        let c = &calls[i];
        tell(
            observer,
            TurnEvent::ToolCall { id: c.id.as_str(), name: c.name.as_str(), args: &c.args },
        );
        let o = run_one(api, store, vision, c, tally, cfg);
        tally = tally_up(tally, &o);
        report(observer, c, &o);
        let ghost (earlier, stood, so_far) = (outcomes, stores, entries(items@));
        let ghost noted = outcome_entry(o, iteration as int);
        proof {
            outcomes = earlier.push(o);
            stores = stood.push(*store);
            lemma_tallied(before, earlier, outcomes, i as int);
            assert forall|k: int| 0 <= k <= i implies #[trigger] was_call_run(
                api,
                vision,
                *cfg,
                before,
                calls@,
                outcomes,
                stores,
                k,
            ) by {
                if k < i {
                    assert(was_call_run(api, vision, *cfg, before, calls@, earlier, stood, k));
                    lemma_tallied(before, earlier, outcomes, k);
                }
            }
            assert forall|k: int| 0 <= k <= i implies #[trigger] was_call_told(
                observer,
                calls@,
                outcomes,
                k,
            ) by {
                if k < i {
                    assert(was_call_told(observer, calls@, earlier, k));
                }
            }
        }
        let x = Item::function_call_output(
            place_after(items),
            place(iteration),
            o.result.call_id.as_str(),
            o.result.content.as_str(),
            o.result.is_error,
            o.raw_json,
        ).with_credits(o.credits_charged);
        assert(text::opt(x.call_id) == x@.call_id && x.kind == x@.kind);
        note(items, x);
        i = i + 1;
        assert(all.take(i as int) =~= all.take(i - 1).push(all[i - 1]));
        assert(replies(items@) =~= replies(first) + all.take(i as int));
        assert(outcome_entries(outcomes, iteration as int) =~= outcome_entries(
            earlier,
            iteration as int,
        ).push(noted));
        assert(entries(items@) =~= so_far.push(noted));
        assert(entries(items@) =~= entries(first) + wishes + outcome_entries(
            outcomes,
            iteration as int,
        ));
    }
    assert(all.take(i as int) =~= all);
    assert(were_run(api, vision, *cfg, before, calls@, outcomes, stores));
    assert(were_told(observer, calls@, outcomes));
    tally
}

// ---------------------------------------------------------------------------
// How long a request is
// ---------------------------------------------------------------------------

/// About how many tokens the entries from the `k`-th on are.
pub open spec fn tokens_from(v: Seq<Item>, k: int) -> nat
    decreases v.len() - k,
{
    if k < 0 || k >= v.len() {
        0
    } else {
        compaction::item_tokens(v[k]@) + tokens_from(v, k + 1)
    }
}

fn count_from(v: &Vec<Item>, k: usize) -> (r: usize)
    requires
        k <= v@.len(),
    ensures
        r == compaction::capped(tokens_from(v@, k as int), usize::MAX as nat),
{
    let cap: u128 = usize::MAX as u128;
    let mut sum: u128 = 0;
    let mut i: usize = v.len();
    while i > k
        invariant
            k <= i <= v@.len(),
            cap == usize::MAX as u128,
            sum == compaction::capped(tokens_from(v@, i as int), cap as nat),
        decreases i,
    {
        let n: u128 = est_tokens_of(v[i - 1].payload.text().as_str());
        sum = if sum + n <= cap { sum + n } else { cap };
        i = i - 1;
    }
    sum as usize
}

/// How many tokens the next request has: what the model counted in the last one,
/// where there was one, and an estimate of what was added since. `seen` are the
/// tokens of the last request and the entries of this turn that were in it.
pub open spec fn request_tokens(history: nat, seen: Option<(u32, usize)>, items: Seq<Item>) -> nat {
    match seen {
        Some(x) => x.0 as nat + tokens_from(items, x.1 as int),
        None => history + tokens_from(items, 0),
    }
}

/// How many tokens the next request is taken to have; no more than can be counted.
pub open spec fn request_count(h: History, seen: Option<(u32, usize)>, items: Seq<Item>) -> nat {
    compaction::capped(
        request_tokens(compaction::history_tokens(h), seen, items),
        usize::MAX as nat,
    )
}

fn request_size(history: &History, seen: Option<(u32, usize)>, items: &Vec<Item>) -> (r: usize)
    requires
        seen matches Some(x) ==> x.1 <= items@.len(),
    ensures
        r == request_count(*history, seen, items@),
{
    match seen {
        Some(x) => more_usize(x.0 as usize, count_from(items, x.1)),
        None => more_usize(history.est_tokens(), count_from(items, 0)),
    }
}

// ---------------------------------------------------------------------------
// Making the history shorter
// ---------------------------------------------------------------------------

/// Whether a history is made shorter before a turn, and up to which turn.
pub open spec fn is_too_long(h: History, cfg: LoopConfig) -> bool {
    compaction::capped(compaction::history_tokens(h), usize::MAX as nat) >= cfg.compaction_threshold
}

/// The entries of the turns up to `upto`, among the first `n`.
pub open spec fn covered(turns: Seq<TurnItems>, upto: int, n: int) -> Seq<ItemView>
    decreases n,
{
    if n <= 0 || n > turns.len() {
        seq![]
    } else if turns[n - 1].seq <= upto {
        covered(turns, upto, n - 1) + model::items_view(turns[n - 1].items@)
    } else {
        covered(turns, upto, n - 1)
    }
}

/// What is to be summarized: the summary that there is, and the turns after it.
pub open spec fn old_text(h: History, upto: int) -> Seq<char> {
    let old = covered(h.turns@, upto, h.turns@.len() as int);
    let said = context::transcript(old, old.len() as int);
    match h.summary {
        Some(s) => s@ + "\n"@ + said,
        None => said,
    }
}

fn append_copies(out: &mut Vec<Item>, more: &Vec<Item>)
    ensures
        model::items_view(final(out)@) == model::items_view(old(out)@) + model::items_view(more@),
{
    let ghost first = model::items_view(out@);
    let mut k: usize = 0;
    assert(model::items_view(out@) =~= first + model::items_view(more@).take(0));
    while k < more.len()
        invariant
            k <= more@.len(),
            model::items_view(out@) == first + model::items_view(more@).take(k as int),
        decreases more@.len() - k,
    {
        let ghost before = model::items_view(out@);
        let x = more[k].copy();
        out.push(x);
        k = k + 1;
        assert(model::items_view(out@) =~= before.push(x@));
        assert(model::items_view(out@) =~= first + model::items_view(more@).take(k as int));
    }
    assert(model::items_view(more@).take(k as int) =~= model::items_view(more@));
}

fn old_part(h: &History, upto: i64) -> (r: String)
    ensures
        r@ == old_text(*h, upto as int),
{
    let mut old_items: Vec<Item> = Vec::new();
    let mut i: usize = 0;
    assert(model::items_view(old_items@) =~= covered(h.turns@, upto as int, 0));
    while i < h.turns.len()
        invariant
            i <= h.turns@.len(),
            model::items_view(old_items@) == covered(h.turns@, upto as int, i as int),
        decreases h.turns@.len() - i,
    {
        if h.turns[i].seq <= upto {
            append_copies(&mut old_items, &h.turns[i].items);
        }
        i = i + 1;
    }
    let said = to_transcript(&old_items);
    match &h.summary {
        Some(s) => s.clone().concat("\n").concat(said.as_str()),
        None => said,
    }
}

/// The turns after `upto`, among the first `n`.
pub open spec fn later(turns: Seq<TurnItems>, upto: int, n: int) -> Seq<TurnItems>
    decreases n,
{
    if n <= 0 || n > turns.len() {
        seq![]
    } else if turns[n - 1].seq <= upto {
        later(turns, upto, n - 1)
    } else {
        later(turns, upto, n - 1).push(turns[n - 1])
    }
}

fn keep_later(turns: Vec<TurnItems>, upto: i64) -> (r: Vec<TurnItems>)
    ensures
        r@ == later(turns@, upto as int, turns@.len() as int),
{
    let ghost all = turns@;
    let mut rest = turns;
    let mut r: Vec<TurnItems> = Vec::new();
    let ghost mut n: int = 0;
    while rest.len() > 0
        invariant
            0 <= n <= all.len(),
            rest@ == all.skip(n),
            r@ == later(all, upto as int, n),
        decreases rest@.len(),
    {
        let t = rest.remove(0);
        assert(t == all[n]);
        if t.seq > upto {
            r.push(t);
        }
        proof {
            n = n + 1;
        }
        assert(rest@ =~= all.skip(n));
    }
    r
}

/// A history whose older part was summarized in a text.
pub open spec fn is_shortened(h: History, summary: Seq<char>, upto: int, r: History) -> bool {
    text::opt(r.summary) == Some(summary) && r.summary_upto as int == upto && r.turns@ == later(
        h.turns@,
        upto,
        h.turns@.len() as int,
    )
}

/// Puts a summary in the place of the turns that it covers.
pub fn shorten(h: History, summary: &str, upto: i64) -> (r: History)
    ensures
        is_shortened(h, summary@, upto as int, r),
{
    History {
        summary: Some(summary.to_owned()),
        summary_upto: upto,
        turns: keep_later(h.turns, upto),
    }
}

/// Up to which turn a history is summarized: where it is too long, and there is
/// something to summarize.
pub open spec fn cut_of(h: History, cfg: LoopConfig) -> Option<int> {
    if is_too_long(h, cfg) {
        match compaction::cut_at(
            compaction::turn_sizes(h.turns@),
            cfg.compaction_target_tokens as nat,
        ) {
            Some(i) => Some(h.turns@[i].seq as int),
            None => None,
        }
    } else {
        None
    }
}

/// Whether `summary` is made of what the model wrote: of its parts where it kept to
/// the form, and else of the text as it stands.
pub open spec fn is_summary<R: SummaryReader>(
    reader: &R,
    wrote: Seq<char>,
    upto: int,
    summary: Seq<char>,
) -> bool {
    exists|t: &str, parsed: Option<CompactionSummary>|
        t@ == wrote && #[trigger] call_ensures(R::read_summary, (reader, t), parsed) && summary == (
        match parsed {
            Some(x) => compaction::summary_text(x, upto),
            None => compaction::raw_summary_text(wrote, upto),
        })
}

/// Whether a request asks the model for a summary of the history up to a turn.
pub open spec fn is_summary_request<L: LlmClient>(
    llm: &L,
    h: History,
    upto: int,
    req: ModelRequest,
) -> bool {
    &&& req.system@ == SUMMARIZE_PROMPT@
    &&& context::msgs_view(req.messages@) == seq![context::MsgView::User(old_text(h, upto))]
    &&& call_ensures(L::max_tokens_limit, (llm,), req.max_tokens)
    &&& req.tools@.len() == 0
}

/// Whether `r` is the history for a turn, with the summary that was made for it and
/// with what was spent on that. One that is too long is summarized wherever the
/// model answers; every other one stays as it is.
pub open spec fn is_prepared<L: LlmClient, R: SummaryReader>(
    llm: &L,
    reader: &R,
    h: History,
    cfg: LoopConfig,
    t: Tally,
    r: History,
    summary: Option<(String, i64)>,
    spent: Tally,
) -> bool {
    match cut_of(h, cfg) {
        None => r == h && summary is None && spent == t,
        Some(upto) => exists|req: ModelRequest, reply: Result<ModelResponse>|
            is_summary_request(llm, h, upto, req) && #[trigger] call_ensures(
                L::complete,
                (llm, &req),
                reply,
            ) && match reply {
                Err(_) => r == h && summary is None && spent == t,
                Ok(resp) => spent == tallied_answer(t, resp) && (summary matches Some(x) && x.1
                    == upto && is_summary(reader, resp.text@, upto, x.0@) && is_shortened(
                    h,
                    x.0@,
                    upto,
                    r,
                )),
            },
    }
}

/// What is told of a summary: how long it is, and up to which turn it goes.
pub open spec fn summary_event(summary: (String, i64)) -> EventView {
    EventView::Compacted {
        summary_chars: summary.0@.len() as int,
        upto_seq: summary.1 as int,
    }
}

/// The history for a turn. One that is too long is made shorter, once; where that
/// fails it stays as it is. With it comes the summary, where one was made.
fn prepare<L: LlmClient, R: SummaryReader, O: TurnObserver>(
    llm: &L,
    reader: &R,
    observer: &O,
    h: History,
    cfg: &LoopConfig,
    t: Tally,
) -> (r: (History, Option<(String, i64)>, Tally))
    ensures
        is_prepared(llm, reader, h, *cfg, t, r.0, r.1, r.2),
        r.2 == (Tally {
            input_tokens: r.2.input_tokens,
            output_tokens: r.2.output_tokens,
            ..t
        }),
        r.1 matches Some(x) ==> runner::was_told(observer, summary_event(x)),
{
    if h.est_tokens() < cfg.compaction_threshold {
        return (h, None, t);
    }
    let upto: i64 = match pick_split(&h.turns, cfg.compaction_target_tokens) {
        Some(n) => n,
        None => return (h, None, t),
    };
    let limit: u32 = llm.max_tokens_limit();
    let asked = Msg::user(old_part(&h, upto).as_str());
    let req = ModelRequest {
        system: SUMMARIZE_PROMPT.to_owned(),
        messages: vec![asked],
        max_tokens: limit,
        tools: Vec::new(),
    };
    assert(context::msgs_view(req.messages@) =~= seq![
        context::MsgView::User(old_text(h, upto as int)),
    ]);
    assert(call_ensures(L::max_tokens_limit, (llm,), limit));
    assert(is_summary_request(llm, h, upto as int, req));
    let reply = llm.complete(&req);
    assert(call_ensures(L::complete, (llm, &req), reply));
    match reply {
        Err(_) => (h, None, t),
        Ok(resp) => {
            let wrote = resp.text.as_str();
            let parsed = reader.read_summary(wrote);
            assert(call_ensures(R::read_summary, (reader, wrote), parsed));
            let summary = match &parsed {
                Some(s) => s.render(upto),
                None => render_raw_fallback(wrote, upto),
            };
            assert(is_summary(reader, wrote@, upto as int, summary@));
            let spent = tally_answer(t, &resp);
            tell(
                observer,
                TurnEvent::Compacted {
                    summary_chars: to_chars(summary.as_str()).len(),
                    upto_seq: upto,
                },
            );
            let shorter = shorten(h, summary.as_str(), upto);
            (shorter, Some((summary, upto)), spent)
        },
    }
}

// ---------------------------------------------------------------------------
// The turn
// ---------------------------------------------------------------------------

/// One time that the model was asked and wanted tools, with what came of them and the
/// store before each of them and after the last.
pub struct Round<S> {
    pub resp: ModelResponse,
    pub outcomes: Seq<ToolOutcome>,
    pub stores: Seq<S>,
}

/// What is noted of what the model says on the way; nothing where it says nothing.
pub open spec fn remark(said: Seq<char>, n: int) -> Seq<Entry> {
    if said.len() == 0 {
        seq![]
    } else {
        seq![answer_entry(said, n)]
    }
}

/// What is noted of the first `n` rounds.
pub open spec fn round_entries<S>(v: Seq<Round<S>>, n: int) -> Seq<Entry>
    decreases n,
{
    if n <= 0 || n > v.len() {
        seq![]
    } else {
        let r = v[n - 1];
        round_entries(v, n - 1) + remark(r.resp.text@, n) + call_entries(r.resp.tool_calls@, n)
            + outcome_entries(r.outcomes, n)
    }
}

/// What was counted in the first `n` rounds.
pub open spec fn tallied_rounds<S>(t: Tally, v: Seq<Round<S>>, n: int) -> Tally
    decreases n,
{
    if n <= 0 || n > v.len() {
        t
    } else {
        let r = v[n - 1];
        tallied_all(
            tallied_answer(tallied_rounds(t, v, n - 1), r.resp),
            r.outcomes,
            r.outcomes.len() as int,
        )
    }
}

proof fn lemma_rounds<S>(t: Tally, v: Seq<Round<S>>, w: Seq<Round<S>>, n: int)
    requires
        n <= v.len(),
        n <= w.len(),
        forall|i: int| 0 <= i < n ==> v[i] == w[i],
    ensures
        round_entries(v, n) == round_entries(w, n),
        tallied_rounds(t, v, n) == tallied_rounds(t, w, n),
    decreases n,
{
    if n > 0 {
        lemma_rounds(t, v, w, n - 1);
    }
}

/// How many entries there are before the round after the first `n`: the question, and
/// those of the rounds.
pub open spec fn noted_before<S>(v: Seq<Round<S>>, n: int) -> int {
    round_entries(v, n).len() + 1int
}

proof fn lemma_noted<S>(v: Seq<Round<S>>, i: int, n: int)
    requires
        0 <= i <= n <= v.len(),
    ensures
        noted_before(v, i) <= noted_before(v, n),
    decreases n,
{
    if i < n {
        lemma_noted(v, i, n - 1);
    }
}

/// The tokens of the last request, with the entries that were in it.
pub open spec fn seen_before<S>(v: Seq<Round<S>>, n: int) -> Option<(u32, usize)> {
    if n <= 0 {
        None
    } else {
        Some((v[n - 1].resp.input_tokens, noted_before(v, n - 1) as usize))
    }
}

/// The store after the first `n` rounds.
pub open spec fn store_after<S>(before: S, v: Seq<Round<S>>, n: int) -> S {
    if n <= 0 {
        before
    } else {
        v[n - 1].stores.last()
    }
}

/// Whether a request sends the model the history and the entries of a turn, with the
/// hint to come to an end where that is due.
pub open spec fn is_request<L: LlmClient>(
    llm: &L,
    history: History,
    items: Seq<Item>,
    hint: bool,
    req: ModelRequest,
) -> bool {
    &&& req.system@ == DISCOVERY_SYSTEM_PROMPT@
    &&& ({
        let all = compaction::history_entries(history) + model::items_view(items);
        let msgs = context::messages(all, all.len() as int);
        context::msgs_view(req.messages@) == (if hint {
            msgs.push(context::MsgView::User(CONVERGENCE_HINT@))
        } else {
            msgs
        })
    })
    &&& call_ensures(L::max_tokens_limit, (llm,), req.max_tokens)
    &&& tools::defs_view(req.tools@) == tools::tools()
}

/// Whether the model was asked once more, after `n` times, and `reply` came of it. It
/// was asked no more often than it may be, and the request is no longer than it may
/// be.
pub open spec fn was_asked<L: LlmClient>(
    llm: &L,
    history: History,
    cfg: LoopConfig,
    items: Seq<Item>,
    seen: Option<(u32, usize)>,
    n: int,
    reply: Result<ModelResponse>,
) -> bool {
    &&& n < cfg.max_iterations
    &&& request_count(history, seen, items) <= cfg.context_budget_tokens
    &&& exists|req: ModelRequest|
        is_request(llm, history, items, n + 1 == cfg.convergence_iteration, req)
            && #[trigger] call_ensures(L::complete, (llm, &req), reply)
}

/// Whether the `i`-th round is one of a turn: the model was asked with all that was
/// noted before, it wanted tools, and every one of them was answered, as far as the
/// limits that were left let it be.
pub open spec fn is_round<
    L: LlmClient,
    A: DiscoveryApi,
    S: Store + DossierStore,
    V: VisionClient,
>(
    llm: &L,
    api: &A,
    vision: Option<&V>,
    history: History,
    cfg: LoopConfig,
    spent: Tally,
    before: S,
    items: Seq<Item>,
    v: Seq<Round<S>>,
    i: int,
) -> bool {
    let r = v[i];
    &&& was_asked(
        llm,
        history,
        cfg,
        items.take(noted_before(v, i)),
        seen_before(v, i),
        i,
        Ok(r.resp),
    )
    &&& r.resp.stop_reason is EndTurn || r.resp.stop_reason is ToolUse
    &&& r.resp.tool_calls@.len() > 0
    &&& were_run(
        api,
        vision,
        cfg,
        tallied_answer(tallied_rounds(spent, v, i), r.resp),
        r.resp.tool_calls@,
        r.outcomes,
        r.stores,
    )
    &&& r.stores[0] == store_after(before, v, i)
}

proof fn lemma_round<L: LlmClient, A: DiscoveryApi, S: Store + DossierStore, V: VisionClient>(
    llm: &L,
    api: &A,
    vision: Option<&V>,
    history: History,
    cfg: LoopConfig,
    spent: Tally,
    before: S,
    items: Seq<Item>,
    more: Seq<Item>,
    v: Seq<Round<S>>,
    w: Seq<Round<S>>,
    i: int,
)
    requires
        0 <= i < v.len() <= w.len(),
        forall|k: int| 0 <= k < v.len() ==> v[k] == w[k],
        noted_before(v, i) <= items.len() <= more.len(),
        forall|k: int| 0 <= k < items.len() ==> items[k] == more[k],
        is_round(llm, api, vision, history, cfg, spent, before, items, v, i),
    ensures
        is_round(llm, api, vision, history, cfg, spent, before, more, w, i),
{
    lemma_rounds(spent, v, w, i);
    lemma_rounds(spent, v, w, i - 1);
    assert(items.take(noted_before(v, i)) =~= more.take(noted_before(w, i)));
}

/// Whether a turn reports what was counted. A model does not say what it had read
/// before, so nothing is taken to have been.
pub open spec fn reports(r: TurnResult, t: Tally) -> bool {
    &&& r.tool_calls_made == t.external_calls
    &&& r.credits_charged == t.credits
    &&& r.video_analyses == t.video_analyses
    &&& r.video_tokens == t.video_tokens
    &&& r.input_tokens == t.input_tokens
    &&& r.output_tokens == t.output_tokens
    &&& r.cached_input_tokens == 0
}

/// Whether a turn is made of these rounds and of the last answer of the model, where
/// there was one: its entries are the question, the rounds, and the answer; its
/// outcome is that of the answer, or else says which limit was met or why the model
/// could not be asked; and it reports what all of it cost. `spent` is what a summary
/// cost.
pub open spec fn is_course<
    L: LlmClient,
    A: DiscoveryApi,
    S: Store + DossierStore,
    V: VisionClient,
>(
    llm: &L,
    api: &A,
    vision: Option<&V>,
    history: History,
    question: Seq<char>,
    cfg: LoopConfig,
    spent: Tally,
    before: S,
    rounds: Seq<Round<S>>,
    last: Option<ModelResponse>,
    after: S,
    r: TurnResult,
) -> bool {
    let n = rounds.len() as int;
    let done = seq![question_entry(question)] + round_entries(rounds, n);
    let t = tallied_rounds(spent, rounds, n);
    let stood = r.items@.take(noted_before(rounds, n));
    let used = request_count(history, seen_before(rounds, n), stood);
    &&& forall|i: int|
        0 <= i < n ==> #[trigger] is_round(
            llm,
            api,
            vision,
            history,
            cfg,
            spent,
            before,
            r.items@,
            rounds,
            i,
        )
    &&& after == store_after(before, rounds, n)
    &&& match last {
        None => {
            &&& match r.outcome {
                TurnOutcome::IterationCap => n >= cfg.max_iterations && r.iterations == n,
                TurnOutcome::ContextBudget { used: u, limit } => n < cfg.max_iterations && u == used
                    && limit == cfg.context_budget_tokens && used > limit && r.iterations == n,
                TurnOutcome::ModelError(m) => r.iterations == n + 1 && exists|e: ClipKnowError|
                    m@ == error::error_text(e) && #[trigger] was_asked(
                        llm,
                        history,
                        cfg,
                        stood,
                        seen_before(rounds, n),
                        n,
                        Err(e),
                    ),
                _ => false,
            }
            &&& r.answer@.len() == 0
            &&& r.context_tokens == used
            &&& entries(r.items@) == done
            &&& reports(r, t)
        },
        Some(resp) => {
            &&& was_asked(
                llm,
                history,
                cfg,
                stood,
                seen_before(rounds, n),
                n,
                Ok(resp),
            )
            &&& exists|a: Answered| #[trigger]
                is_answered(resp, a) && (a matches Answered::Over { outcome, text, said } && {
                    &&& r.outcome == outcome
                    &&& r.answer@ == text@
                    &&& r.iterations == n + 1
                    &&& r.context_tokens == resp.input_tokens
                    &&& entries(r.items@) == (if said {
                        done.push(answer_entry(text@, n + 1))
                    } else {
                        done
                    })
                    &&& reports(r, tallied_answer(t, resp))
                })
        },
    }
}

/// What holds of every turn, whatever the model and the tools answer: the
/// turn is made of the question, of rounds and of an answer, the question stands
/// first, the entries are numbered, every tool that was asked for was answered, no
/// limit was passed, and a turn ends with the answer or says why it does not. A limit
/// that leaves no room for the first request is met before anything is sent.
pub open spec fn is_turn<
    L: LlmClient,
    A: DiscoveryApi,
    S: Store + DossierStore,
    V: VisionClient,
>(
    llm: &L,
    api: &A,
    vision: Option<&V>,
    history: History,
    question: Seq<char>,
    cfg: LoopConfig,
    spent: Tally,
    before: S,
    rounds: Seq<Round<S>>,
    last: Option<ModelResponse>,
    after: S,
    r: TurnResult,
) -> bool {
    &&& r.items@.len() > 0
    &&& r.items@[0]@.kind == ItemKind::UserMessage
    &&& r.items@[0]@.payload == Tree::Object(seq![("text"@, Tree::Str(question))])
    &&& is_course(
        llm,
        api,
        vision,
        history,
        question,
        cfg,
        spent,
        before,
        rounds,
        last,
        after,
        r,
    )
    &&& cfg.max_iterations == 0 <==> (r.outcome is IterationCap && r.iterations == 0)
    &&& cfg.max_iterations > 0 ==> (request_count(history, None, r.items@.take(1))
        > cfg.context_budget_tokens <==> (r.outcome is ContextBudget && r.iterations == 0))
    &&& numbered(r.items@)
    &&& paired(model::items_view(r.items@))
    &&& r.iterations <= cfg.max_iterations
    &&& r.video_analyses <= cfg.max_video_analyses
    &&& r.compactions == (if r.pending_summary is Some {
        1int
    } else {
        0int
    })
    &&& match r.outcome {
        TurnOutcome::Done => r.items@.last()@.kind == ItemKind::AssistantMessage
            && r.items@.last()@.payload == Tree::Object(seq![("text"@, Tree::Str(r.answer@))]),
        TurnOutcome::IterationCap => r.iterations == cfg.max_iterations,
        TurnOutcome::ContextBudget { used, limit } => used > limit && limit
            == cfg.context_budget_tokens,
        _ => true,
    }
}

/// Whether an observer was told of a turn: of the summary, where one was made; of every
/// time that the model was asked; of every tool that it wanted, and of what came of it;
/// and of the answer, where there is one. In which order it was told, and that it was told
/// of nothing else, is not said: an observer that is only read has no state to say it of.
pub open spec fn is_told<S, O: TurnObserver>(
    observer: &O,
    rounds: Seq<Round<S>>,
    r: TurnResult,
) -> bool {
    &&& r.pending_summary matches Some(x) ==> runner::was_told(observer, summary_event(x))
    &&& forall|n: int|
        1 <= n <= r.iterations ==> #[trigger] runner::was_told(observer, EventView::Iteration { n })
    &&& forall|i: int|
        0 <= i < rounds.len() ==> were_told(
            observer,
            (#[trigger] rounds[i]).resp.tool_calls@,
            rounds[i].outcomes,
        )
    &&& r.outcome is Done ==> runner::was_told(observer, EventView::Answer { text: r.answer@ })
}

/// A limit that leaves no room for the first request is met before anything is sent,
/// and is met so in no other case.
pub proof fn law_limits_hold_from_the_start<
    L: LlmClient,
    A: DiscoveryApi,
    S: Store + DossierStore,
    V: VisionClient,
>(
    llm: &L,
    api: &A,
    vision: Option<&V>,
    history: History,
    question: Seq<char>,
    cfg: LoopConfig,
    spent: Tally,
    before: S,
    rounds: Seq<Round<S>>,
    last: Option<ModelResponse>,
    after: S,
    r: TurnResult,
)
    requires
        is_course(
            llm,
            api,
            vision,
            history,
            question,
            cfg,
            spent,
            before,
            rounds,
            last,
            after,
            r,
        ),
    ensures
        cfg.max_iterations == 0 <==> (r.outcome is IterationCap && r.iterations == 0),
        cfg.max_iterations > 0 ==> (request_count(history, None, r.items@.take(1))
            > cfg.context_budget_tokens <==> (r.outcome is ContextBudget && r.iterations == 0)),
{
    if rounds.len() > 0 {
        assert(is_round(llm, api, vision, history, cfg, spent, before, r.items@, rounds, 0));
        assert(noted_before(rounds, 0) == 1);
    }
}

fn conclude(
    outcome: TurnOutcome,
    answer: String,
    items: Vec<Item>,
    pending_summary: Option<(String, i64)>,
    iterations: usize,
    context_tokens: usize,
    t: Tally,
) -> (r: TurnResult)
    ensures
        r.outcome == outcome,
        r.answer == answer,
        r.items == items,
        r.pending_summary == pending_summary,
        r.iterations == iterations,
        r.context_tokens == context_tokens,
        r.compactions == (if pending_summary is Some {
            1int
        } else {
            0int
        }),
        reports(r, t),
{
    let compactions: usize = if pending_summary.is_some() { 1 } else { 0 };
    TurnResult {
        outcome,
        answer,
        items,
        pending_summary,
        iterations,
        tool_calls_made: t.external_calls,
        credits_charged: t.credits,
        context_tokens,
        compactions,
        video_analyses: t.video_analyses,
        video_tokens: t.video_tokens,
        input_tokens: t.input_tokens,
        cached_input_tokens: 0,
        output_tokens: t.output_tokens,
    }
}

fn request<L: LlmClient>(llm: &L, history: &History, items: &Vec<Item>, hint: bool) -> (r: ModelRequest)
    ensures
        is_request(llm, *history, items@, hint, r),
{
    let mut all = history.to_items();
    append_copies(&mut all, items);
    let mut messages = to_messages(&all);
    if hint {
        let ghost before = context::msgs_view(messages@);
        let m = Msg::user(CONVERGENCE_HINT);
        messages.push(m);
        assert(context::msgs_view(messages@) =~= before.push(context::msg_view(m)));
    }
    let max_tokens: u32 = llm.max_tokens_limit();
    assert(call_ensures(L::max_tokens_limit, (llm,), max_tokens));
    ModelRequest {
        system: DISCOVERY_SYSTEM_PROMPT.to_owned(),
        messages,
        max_tokens,
        tools: tool_defs(),
    }
}

/// Answers a question. The observer is told what happens on the way.
#[verifier::rlimit(80)]
pub fn run_turn_observed<
    L: LlmClient,
    A: DiscoveryApi,
    S: Store + DossierStore,
    V: VisionClient,
    R: SummaryReader,
    O: TurnObserver,
>(
    deps: TurnDeps<'_, L, A, S, V>,
    reader: &R,
    history: History,
    question: &str,
    cfg: &LoopConfig,
    observer: &O,
) -> (r: TurnResult)
    ensures
        exists|
            past: History,
            spent: Tally,
            rounds: Seq<Round<S>>,
            last: Option<ModelResponse>,
        |
            is_prepared(
                deps.llm,
                reader,
                history,
                *cfg,
                no_costs(0, 0),
                past,
                r.pending_summary,
                spent,
            ) && #[trigger] is_turn(
                deps.llm,
                deps.api,
                deps.vision,
                past,
                question@,
                *cfg,
                spent,
                *old(deps.store),
                rounds,
                last,
                *final(deps.store),
                r,
            ) && is_told(observer, rounds, r),
{
    let ghost first_history = history;
    let TurnDeps { llm, api, store, vision } = deps;
    let ghost first_store = *store;
    let (past, pending, mut tally) = prepare(
        llm,
        reader,
        observer,
        history,
        cfg,
        nothing_yet(),
    );
    let mut items: Vec<Item> = Vec::new();
    assert(asks(items@) =~= replies(items@));
    let first = Item::user_message(1, question);
    assert(first.kind == first@.kind);
    note(&mut items, first);
    let mut n: usize = 0;
    let mut seen: Option<(u32, usize)> = None;
    let ghost spent = tally;
    let ghost asked = seq![question_entry(question@)];
    let ghost mut rounds: Seq<Round<S>> = seq![];
    assert(entries(items@) =~= asked + round_entries(rounds, 0));
    loop
        invariant
            asked == seq![question_entry(question@)],
            first_history == history,
            first_store == *deps.store,
            *llm == *deps.llm,
            *api == *deps.api,
            vision == deps.vision,
            *final(store) == *final(deps.store),
            is_prepared(
                llm,
                reader,
                first_history,
                *cfg,
                no_costs(0, 0),
                past,
                pending,
                spent,
            ),
            pending matches Some(x) ==> runner::was_told(observer, summary_event(x)),
            forall|m: int|
                1 <= m <= n ==> #[trigger] runner::was_told(
                    observer,
                    EventView::Iteration { n: m },
                ),
            forall|i: int|
                0 <= i < n ==> were_told(
                    observer,
                    (#[trigger] rounds[i]).resp.tool_calls@,
                    rounds[i].outcomes,
                ),
            rounds.len() == n,
            items@.len() == noted_before(rounds, n as int),
            seen == seen_before(rounds, n as int),
            *store == store_after(first_store, rounds, n as int),
            forall|i: int|
                0 <= i < n ==> #[trigger] is_round(
                    llm,
                    api,
                    vision,
                    past,
                    *cfg,
                    spent,
                    first_store,
                    items@,
                    rounds,
                    i,
                ),
            entries(items@) == asked + round_entries(rounds, n as int),
            tally == tallied_rounds(spent, rounds, n as int),
            items@.len() > 0,
            numbered(items@),
            items@[0]@.kind == ItemKind::UserMessage,
            items@[0]@.payload == Tree::Object(seq![("text"@, Tree::Str(question@))]),
            asks(items@) == replies(items@),
            n <= cfg.max_iterations,
            tally.video_analyses <= cfg.max_video_analyses,
            seen matches Some(x) ==> x.1 <= items@.len(),
        decreases cfg.max_iterations - n,
    {
        let used: usize = request_size(&past, seen, &items);
        assert(items@.take(noted_before(rounds, n as int)) =~= items@);
        if let Some(outcome) = stopped(n, used, cfg) {
            let r = conclude(outcome, String::new(), items, pending, n, used, tally);
            proof {
                assert(is_course(
                    llm,
                    api,
                    vision,
                    past,
                    question@,
                    *cfg,
                    spent,
                    first_store,
                    rounds,
                    None,
                    *store,
                    r,
                ));
                law_limits_hold_from_the_start(
                    llm,
                    api,
                    vision,
                    past,
                    question@,
                    *cfg,
                    spent,
                    first_store,
                    rounds,
                    None,
                    *store,
                    r,
                );
            }
            assert(is_told(observer, rounds, r));
            assert(is_turn(
                llm,
                api,
                vision,
                past,
                question@,
                *cfg,
                spent,
                first_store,
                rounds,
                None,
                *store,
                r,
            ));
            return r;
        }
        let ghost (done, stood) = (n as int, items@);
        n = n + 1;
        tell(observer, TurnEvent::Iteration { n });
        let req = request(llm, &past, &items, n == cfg.convergence_iteration);
        let reply = llm.complete(&req);
        assert(call_ensures(L::complete, (llm, &req), reply));
        assert(was_asked(llm, past, *cfg, stood, seen, done, reply));
        let resp = match reply {
            Ok(x) => x,
            Err(e) => {
                let outcome = TurnOutcome::ModelError(e.message());
                let r = conclude(outcome, String::new(), items, pending, n, used, tally);
                proof {
                    assert(is_course(
                        llm,
                        api,
                        vision,
                        past,
                        question@,
                        *cfg,
                        spent,
                        first_store,
                        rounds,
                        None,
                        *store,
                        r,
                    ));
                    law_limits_hold_from_the_start(
                        llm,
                        api,
                        vision,
                        past,
                        question@,
                        *cfg,
                        spent,
                        first_store,
                        rounds,
                        None,
                        *store,
                        r,
                    );
                }
                assert(is_told(observer, rounds, r));
                assert(is_turn(
                    llm,
                    api,
                    vision,
                    past,
                    question@,
                    *cfg,
                    spent,
                    first_store,
                    rounds,
                    None,
                    *store,
                    r,
                ));
                return r;
            },
        };
        seen = Some((resp.input_tokens, items.len()));
        let ghost (answer, so_far) = (resp, entries(items@));
        tally = tally_answer(tally, &resp);
        let size: usize = resp.input_tokens as usize;
        let came = answered(resp);
        let ghost what = came;
        match came {
            Answered::Over { outcome, text, said } => {
                if said {
                    let x = Item::assistant_message(place_after(&items), place(n), text.as_str());
                    assert(x.kind == x@.kind);
                    note(&mut items, x);
                }
                if let TurnOutcome::Done = &outcome {
                    tell(observer, TurnEvent::Answer { text: text.as_str() });
                }
                let r = conclude(outcome, text, items, pending, n, size, tally);
                proof {
                    assert(is_answered(answer, what));
                    assert(r.items@.take(noted_before(rounds, done)) =~= stood);
                    assert forall|i: int| 0 <= i < done implies #[trigger] is_round(
                        llm,
                        api,
                        vision,
                        past,
                        *cfg,
                        spent,
                        first_store,
                        r.items@,
                        rounds,
                        i,
                    ) by {
                        lemma_noted(rounds, i, done);
                        lemma_round(
                            llm,
                            api,
                            vision,
                            past,
                            *cfg,
                            spent,
                            first_store,
                            stood,
                            r.items@,
                            rounds,
                            rounds,
                            i,
                        );
                    }
                    assert(is_course(
                        llm,
                        api,
                        vision,
                        past,
                        question@,
                        *cfg,
                        spent,
                        first_store,
                        rounds,
                        Some(answer),
                        *store,
                        r,
                    ));
                    law_limits_hold_from_the_start(
                        llm,
                        api,
                        vision,
                        past,
                        question@,
                        *cfg,
                        spent,
                        first_store,
                        rounds,
                        Some(answer),
                        *store,
                        r,
                    );
                }
                assert(is_told(observer, rounds, r));
                assert(is_turn(
                    llm,
                    api,
                    vision,
                    past,
                    question@,
                    *cfg,
                    spent,
                    first_store,
                    rounds,
                    Some(answer),
                    *store,
                    r,
                ));
                return r;
            },
            Answered::Tools { text, calls } => {
                if !text.as_str().is_empty() {
                    let x = Item::assistant_message(place_after(&items), place(n), text.as_str());
                    assert(x.kind == x@.kind);
                    note(&mut items, x);
                }
                let ghost (counted, kept) = (tally, *store);
                let ghost noted = entries(items@);
                assert(noted =~= so_far + remark(text@, n as int));
                tally = run_calls(
                    api,
                    store,
                    vision,
                    observer,
                    &calls,
                    n,
                    cfg,
                    tally,
                    &mut items,
                );
                proof {
                    let (outcomes, stores) = choose|outcomes: Seq<ToolOutcome>, stores: Seq<S>|
                     #[trigger]
                        were_run(api, vision, *cfg, counted, calls@, outcomes, stores) && stores[0]
                            == kept && stores.last() == *store && entries(items@) == noted
                            + call_entries(calls@, n as int) + outcome_entries(outcomes, n as int)
                            && tally == tallied_all(counted, outcomes, outcomes.len() as int)
                            && were_told(observer, calls@, outcomes);
                    let round = Round { resp: answer, outcomes, stores };
                    let earlier = rounds;
                    rounds = earlier.push(round);
                    lemma_rounds(spent, earlier, rounds, done);
                    lemma_rounds(spent, earlier, rounds, done - 1);
                    assert(entries(items@) =~= asked + round_entries(rounds, n as int));
                    assert(entries(items@).len() == items@.len());
                    assert(items@.take(noted_before(rounds, done)) =~= stood);
                    assert forall|i: int| 0 <= i < n implies #[trigger] is_round(
                        llm,
                        api,
                        vision,
                        past,
                        *cfg,
                        spent,
                        first_store,
                        items@,
                        rounds,
                        i,
                    ) by {
                        if i < done {
                            assert(is_round(
                                llm,
                                api,
                                vision,
                                past,
                                *cfg,
                                spent,
                                first_store,
                                stood,
                                earlier,
                                i,
                            ));
                            lemma_noted(earlier, i, done);
                            lemma_round(
                                llm,
                                api,
                                vision,
                                past,
                                *cfg,
                                spent,
                                first_store,
                                stood,
                                items@,
                                earlier,
                                rounds,
                                i,
                            );
                        }
                    }
                }
            },
        }
    }
}

/// An observer that pays no attention.
#[derive(Debug)]
pub struct Unobserved;

impl TurnObserver for Unobserved {
    fn on(&self, ev: &TurnEvent<'_>) {
    }
}

/// Answers a question.
pub fn run_turn<
    L: LlmClient,
    A: DiscoveryApi,
    S: Store + DossierStore,
    V: VisionClient,
    R: SummaryReader,
>(
    deps: TurnDeps<'_, L, A, S, V>,
    reader: &R,
    history: History,
    question: &str,
    cfg: &LoopConfig,
) -> (r: TurnResult)
    ensures
        exists|
            past: History,
            spent: Tally,
            rounds: Seq<Round<S>>,
            last: Option<ModelResponse>,
        |
            is_prepared(
                deps.llm,
                reader,
                history,
                *cfg,
                no_costs(0, 0),
                past,
                r.pending_summary,
                spent,
            ) && #[trigger] is_turn(
                deps.llm,
                deps.api,
                deps.vision,
                past,
                question@,
                *cfg,
                spent,
                *old(deps.store),
                rounds,
                last,
                *final(deps.store),
                r,
            ),
{
    run_turn_observed(deps, reader, history, question, cfg, &Unobserved)
}

proof fn lemma_recorded_ids(v: Seq<ItemView>, n: int)
    requires
        0 <= n <= v.len(),
    ensures
        context::recorded_calls(v, n).len() == ids(v, ItemKind::FunctionCall, n).len(),
        context::recorded_results(v, n).len() == ids(v, ItemKind::FunctionCallOutput, n).len(),
        forall|i: int|
            0 <= i < context::recorded_calls(v, n).len() ==> (#[trigger] context::recorded_calls(
                v,
                n,
            )[i]).id == llm::or_empty(ids(v, ItemKind::FunctionCall, n)[i]),
        forall|i: int|
            0 <= i < context::recorded_results(v, n).len() ==> (
            #[trigger] context::recorded_results(v, n)[i]) is Tool && context::recorded_results(
                v,
                n,
            )[i]->call_id == llm::or_empty(ids(v, ItemKind::FunctionCallOutput, n)[i]),
    decreases n,
{
    if n > 0 {
        lemma_recorded_ids(v, n - 1);
    }
}

/// Where every call in a history was answered, a model that gets to read it finds
/// an answer to each of its calls, under the same identifier and in the same
/// order.
pub proof fn law_sent_calls_are_answered(v: Seq<ItemView>, i: int)
    requires
        paired(v),
    ensures
        ({
            let m = context::messages(v, v.len() as int);
            let calls = context::calls_in(m, m.len() as int);
            let results = context::results_in(m, m.len() as int);
            &&& calls.len() == results.len()
            &&& 0 <= i < calls.len() ==> results[i] is Tool && results[i]->call_id == calls[i].id
        }),
{
    context::law_calls_and_results_are_kept(v, v.len() as int);
    lemma_recorded_ids(v, v.len() as int);
    let m = context::messages(v, v.len() as int);
    if 0 <= i < context::calls_in(m, m.len() as int).len() {
        assert(context::recorded_calls(v, v.len() as int)[i].id == llm::or_empty(
            ids(v, ItemKind::FunctionCall, v.len() as int)[i],
        ));
        assert(context::recorded_results(v, v.len() as int)[i] is Tool);
    }
}

} // verus!
