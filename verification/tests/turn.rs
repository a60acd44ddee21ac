//! Answering a question, with a model that says what it was told to say.

use clipknow::agent::compaction::{CompactionSummary, History, SummaryReader, TurnItems};
use clipknow::agent::llm::{LlmClient, ModelRequest, ModelResponse, Msg, StopReason, ToolCall};
use clipknow::agent::runner::{LoopConfig, TurnEvent, TurnObserver, TurnOutcome, TurnResult};
use clipknow::agent::tools::ToolOutcome;
use clipknow::agent::turn::{
    answered, echo_received, out_of_calls, run_turn, run_turn_observed, stopped, tally_up, Answered,
    Tally, TurnDeps, CONVERGENCE_HINT,
};
use clipknow::agent::vision::{StagedVideo, VisionClient, VisionResult};
use clipknow::content::dossier::VideoDossier;
use clipknow::content::model::{FetchedVideo, Item, ItemKind};
use clipknow::error::{ClipKnowError, Result};
use clipknow::ingest::discovery::{DiscoveryApi, Endpoint, RawResponse};
use clipknow::ingest::url::{ParsedUrl, Platform};
use clipknow::json::Json;
use clipknow::store::memory::MemoryStore;
use clipknow::wire::event_json;
use std::cell::RefCell;

fn j(s: &str) -> Json {
    Json::parse(s).unwrap()
}

/// What was asked: the last message, how many there were, and whether there were
/// tools.
struct Asked {
    messages: usize,
    last: String,
    tools: usize,
}

struct Script {
    replies: RefCell<Vec<Result<ModelResponse>>>,
    asked: RefCell<Vec<Asked>>,
}

impl Script {
    fn of(mut replies: Vec<Result<ModelResponse>>) -> Script {
        replies.reverse();
        Script {
            replies: RefCell::new(replies),
            asked: RefCell::new(vec![]),
        }
    }
}

impl LlmClient for Script {
    fn complete(&self, req: &ModelRequest) -> Result<ModelResponse> {
        let last = match req.messages.last().unwrap() {
            Msg::User(t) => t.clone(),
            Msg::Assistant { text, .. } => text.clone(),
            Msg::Tool(r) => r.content.clone(),
        };
        self.asked.borrow_mut().push(Asked {
            messages: req.messages.len(),
            last,
            tools: req.tools.len(),
        });
        self.replies.borrow_mut().pop().expect("没有更多回答了")
    }

    fn model_name(&self) -> &str {
        "script"
    }

    fn max_tokens_limit(&self) -> u32 {
        1000
    }
}

fn says(text: &str) -> Result<ModelResponse> {
    Ok(ModelResponse {
        text: text.into(),
        tool_calls: vec![],
        stop_reason: StopReason::EndTurn,
        input_tokens: 100,
        output_tokens: 10,
    })
}

fn wants(text: &str, calls: &[(&str, &str)]) -> Result<ModelResponse> {
    Ok(ModelResponse {
        text: text.into(),
        tool_calls: calls
            .iter()
            .map(|(id, args)| ToolCall {
                id: id.to_string(),
                name: "search_videos".into(),
                args: j(args),
            })
            .collect(),
        stop_reason: StopReason::ToolUse,
        input_tokens: 100,
        output_tokens: 10,
    })
}

const YT: &str = r#"{"platform": "youtube", "query": "科普"}"#;

#[derive(Default)]
struct Videos {
    calls: RefCell<usize>,
    long: bool,
}

impl DiscoveryApi for Videos {
    fn call(&self, _ep: Endpoint, _p: Platform, _arg: &str) -> Result<RawResponse> {
        *self.calls.borrow_mut() += 1;
        let title = if self.long { "长".repeat(50) } else { "短".into() };
        let video = format!(r#"{{"id": "v", "title": "{title}", "channel": {{"handle": "h"}}}}"#);
        let n = if self.long { 200 } else { 1 };
        Ok(RawResponse {
            endpoint: "search_videos".into(),
            body: j(&format!(
                r#"{{"credits_charged": 1, "videos": [{}]}}"#,
                vec![video; n].join(",")
            )),
        })
    }

    fn fetch_video(&self, _parsed: &ParsedUrl, _raw_url: &str) -> Result<FetchedVideo> {
        Err(ClipKnowError::Http("不通".into()))
    }
}

struct Blind;

impl VisionClient for Blind {
    fn stage(&self, _url: &str) -> Result<StagedVideo> {
        unreachable!()
    }
    fn analyze(&self, _r: &str, _d: Option<i64>, _q: Option<&str>) -> Result<VisionResult> {
        unreachable!()
    }
    fn read_dossier(&self, _raw: &str) -> Option<VideoDossier> {
        unreachable!()
    }
    fn frames(&self, _fps: &str, _d: Option<i64>) -> Option<i64> {
        unreachable!()
    }
    fn model_name(&self) -> &str {
        "blind"
    }
    fn provider(&self) -> &str {
        "blind"
    }
}

struct Reader;

impl SummaryReader for Reader {
    fn read_summary(&self, raw: &str) -> Option<CompactionSummary> {
        if raw != "摘要" {
            return None;
        }
        Some(CompactionSummary {
            version: 1,
            user_requirements: vec!["找博主".into()],
            verified: vec![],
            open: vec![],
        })
    }
}

fn turn_after(llm: &Script, api: &Videos, history: History, cfg: &LoopConfig) -> TurnResult {
    let deps = TurnDeps {
        llm,
        api,
        store: &mut MemoryStore::new(),
        vision: None::<&Blind>,
    };
    run_turn(deps, &Reader, history, "找几个博主", cfg)
}

fn turn(llm: &Script, api: &Videos, cfg: &LoopConfig) -> TurnResult {
    turn_after(llm, api, History::default(), cfg)
}

fn kinds(r: &TurnResult) -> Vec<ItemKind> {
    r.items.iter().map(|x| x.kind).collect()
}

fn ids(r: &TurnResult, kind: ItemKind) -> Vec<&str> {
    r.items
        .iter()
        .filter(|x| x.kind == kind)
        .map(|x| x.call_id.as_deref().unwrap())
        .collect()
}

fn assert_paired(r: &TurnResult) {
    assert_eq!(ids(r, ItemKind::FunctionCall), ids(r, ItemKind::FunctionCallOutput));
}

#[test]
fn an_answer_ends_the_turn() {
    let llm = Script::of(vec![says("答案")]);
    let r = turn(&llm, &Videos::default(), &LoopConfig::default());
    assert_eq!(r.outcome, TurnOutcome::Done);
    assert_eq!(r.answer, "答案");
    assert_eq!(r.iterations, 1);
    assert_eq!((r.input_tokens, r.output_tokens), (100, 10));
    assert_eq!(r.context_tokens, 100);
    assert_eq!(kinds(&r), [ItemKind::UserMessage, ItemKind::AssistantMessage]);
    assert_eq!(r.items[0].payload.text(), r#"{"text":"找几个博主"}"#);
    assert_eq!(r.items.iter().map(|x| x.idx).collect::<Vec<_>>(), [1, 2]);
    assert_eq!(llm.asked.borrow()[0].tools, 5);
}

#[test]
fn tools_are_run_and_answered_in_their_order() {
    let llm = Script::of(vec![
        wants("我先搜一下。", &[("a", YT), ("b", r#"{"platform": "nowhere"}"#), ("c", YT)]),
        says("答案"),
    ]);
    let api = Videos::default();
    let r = turn(&llm, &api, &LoopConfig::default());
    assert_eq!(r.outcome, TurnOutcome::Done);
    assert_eq!(ids(&r, ItemKind::FunctionCall), ["a", "b", "c"]);
    assert_paired(&r);
    assert_eq!(r.tool_calls_made, 2, "参数不对的那次没有花钱");
    assert_eq!(r.credits_charged, 2);
    assert_eq!(*api.calls.borrow(), 2);
    assert_eq!(r.iterations, 2);
    assert_eq!((r.input_tokens, r.output_tokens), (200, 20));
    let idx: Vec<i64> = r.items.iter().map(|x| x.idx).collect();
    assert_eq!(idx, (1..=r.items.len() as i64).collect::<Vec<_>>());
}

#[test]
fn the_model_is_stopped_after_so_many_times() {
    let llm = Script::of(vec![wants("", &[("a", YT)]), wants("", &[("b", YT)])]);
    let cfg = LoopConfig { max_iterations: 2, ..LoopConfig::default() };
    let r = turn(&llm, &Videos::default(), &cfg);
    assert_eq!(r.outcome, TurnOutcome::IterationCap);
    assert_eq!(r.iterations, 2);
    assert_eq!(r.answer, "");
    assert_paired(&r);
}

#[test]
fn the_model_is_told_to_come_to_an_end_once() {
    let llm = Script::of(vec![
        wants("", &[("a", YT)]),
        wants("", &[("b", YT)]),
        wants("", &[("c", YT)]),
        says("答案"),
    ]);
    let cfg = LoopConfig { max_iterations: 5, convergence_iteration: 3, ..LoopConfig::default() };
    let r = turn(&llm, &Videos::default(), &cfg);
    assert_eq!(r.outcome, TurnOutcome::Done);
    let told: Vec<bool> = llm.asked.borrow().iter().map(|x| x.last == CONVERGENCE_HINT).collect();
    assert_eq!(told, [false, false, true, false]);
    assert!(!r.items.iter().any(|x| x.payload.text().contains(CONVERGENCE_HINT)), "提示不进历史");
}

#[test]
fn tools_are_not_run_when_the_calls_are_used_up() {
    let llm = Script::of(vec![wants("", &[("a", YT), ("b", YT), ("c", YT)]), says("答案")]);
    let cfg = LoopConfig { max_tool_calls: 2, max_video_analyses: 1, ..LoopConfig::default() };
    let api = Videos::default();
    let r = turn(&llm, &api, &cfg);
    assert_eq!(*api.calls.borrow(), 2);
    assert_eq!(r.tool_calls_made, 2);
    assert_paired(&r);
    let last = &llm.asked.borrow()[1].last;
    assert_eq!(last, "本次提问的外部调用预算已用尽（上限 2 次），请根据已有材料作答。");
}

#[test]
fn a_request_that_is_too_long_is_not_sent() {
    let llm = Script::of(vec![]);
    let cfg = LoopConfig { context_budget_tokens: 3, ..LoopConfig::default() };
    let r = turn(&llm, &Videos::default(), &cfg);
    assert!(matches!(r.outcome, TurnOutcome::ContextBudget { limit: 3, .. }));
    assert_eq!(r.iterations, 0);
    assert!(llm.asked.borrow().is_empty());
}

#[test]
fn the_length_is_looked_at_before_every_request() {
    // 最后一个工具返回了一大段：不能直接回到下一次模型调用。
    let llm = Script::of(vec![wants("", &[("a", YT)])]);
    let api = Videos { long: true, ..Videos::default() };
    let cfg = LoopConfig { context_budget_tokens: 1_000, ..LoopConfig::default() };
    let r = turn(&llm, &api, &cfg);
    assert!(matches!(r.outcome, TurnOutcome::ContextBudget { used, .. } if used > 1_000));
    assert_eq!(r.iterations, 1);
    assert_paired(&r);
}

#[test]
fn an_answer_that_was_cut_off_is_no_success() {
    let half = ModelResponse {
        stop_reason: StopReason::MaxTokens,
        ..wants("半句", &[("a", YT)]).unwrap()
    };
    let llm = Script::of(vec![Ok(half)]);
    let api = Videos::default();
    let r = turn(&llm, &api, &LoopConfig::default());
    assert_eq!(r.outcome, TurnOutcome::Truncated);
    assert_eq!(r.answer, "半句");
    assert_eq!(*api.calls.borrow(), 0, "残缺的工具请求不执行");
    assert_paired(&r);
}

#[test]
fn failures_of_the_model_are_outcomes() {
    let llm = Script::of(vec![Err(ClipKnowError::Llm("HTTP 500".into()))]);
    let r = turn(&llm, &Videos::default(), &LoopConfig::default());
    assert_eq!(r.outcome, TurnOutcome::ModelError("大模型调用失败: HTTP 500".into()));

    let odd = ModelResponse { stop_reason: StopReason::Other("pause".into()), ..says("一半").unwrap() };
    let r = turn(&Script::of(vec![Ok(odd)]), &Videos::default(), &LoopConfig::default());
    assert_eq!(r.outcome, TurnOutcome::ProtocolError("pause".into()));
    assert_eq!(r.answer, "一半");

    let no = ModelResponse { stop_reason: StopReason::Refusal, ..says("").unwrap() };
    let r = turn(&Script::of(vec![Ok(no)]), &Videos::default(), &LoopConfig::default());
    assert_eq!(
        r.outcome,
        TurnOutcome::ModelError("模型拒绝回答（stop_reason=refusal）".into())
    );
}

fn past(seq: i64) -> TurnItems {
    TurnItems {
        seq,
        items: vec![
            Item::user_message(1, &format!("问题 {seq}")),
            Item::assistant_message(2, 1, &"很长的回答。".repeat(100)),
        ],
    }
}

fn long_history() -> History {
    History {
        summary: None,
        summary_upto: 0,
        turns: vec![past(1), past(2), past(3)],
    }
}

fn short_limits() -> LoopConfig {
    LoopConfig {
        compaction_threshold: 500,
        compaction_target_tokens: 400,
        ..LoopConfig::default()
    }
}

#[test]
fn a_long_history_is_summarized_once() {
    let llm = Script::of(vec![says("摘要"), wants("", &[("a", YT)]), says("答案")]);
    let r = turn_after(&llm, &Videos::default(), long_history(), &short_limits());
    assert_eq!(r.outcome, TurnOutcome::Done);
    assert_eq!(r.compactions, 1);
    let (text, upto) = r.pending_summary.unwrap();
    assert_eq!(upto, 2);
    assert!(text.contains("找博主"));
    let asked = llm.asked.borrow();
    assert_eq!(asked[0].tools, 0);
    assert!(asked[0].last.contains("问题 1") && asked[0].last.contains("问题 2"));
    assert!(!asked[0].last.contains("问题 3"), "最新那个 turn 的原文永远保留");
    assert_eq!(asked[1].messages, 4, "摘要、第三个 turn 的两条、这次的问题");
    assert_eq!((r.input_tokens, r.output_tokens), (300, 30));
}

#[test]
fn a_summary_nobody_can_read_is_used_as_it_is() {
    let llm = Script::of(vec![says("随便写的一段"), says("答案")]);
    let r = turn_after(&llm, &Videos::default(), long_history(), &short_limits());
    assert!(r.pending_summary.unwrap().0.contains("随便写的一段"));
}

#[test]
fn without_a_summary_the_turn_goes_on() {
    let llm = Script::of(vec![Err(ClipKnowError::Http("断了".into())), says("答案")]);
    let r = turn_after(&llm, &Videos::default(), long_history(), &short_limits());
    assert_eq!(r.outcome, TurnOutcome::Done);
    assert_eq!(r.compactions, 0);
    assert!(r.pending_summary.is_none());
    assert_eq!(llm.asked.borrow()[1].messages, 7);
}

#[test]
fn a_short_history_is_sent_as_it_is() {
    let llm = Script::of(vec![says("答案")]);
    let r = turn_after(&llm, &Videos::default(), long_history(), &LoopConfig::default());
    assert_eq!(r.compactions, 0);
    assert_eq!(llm.asked.borrow()[0].messages, 7);
}

#[derive(Default)]
struct Notes(RefCell<Vec<String>>);

impl TurnObserver for Notes {
    fn on(&self, ev: &TurnEvent<'_>) {
        let v = event_json(ev);
        self.0.borrow_mut().push(v.get("t").unwrap().as_str().unwrap().to_string());
    }
}

#[test]
fn the_observer_is_told_what_happens() {
    let llm = Script::of(vec![says("摘要"), wants("", &[("a", YT)]), says("答案")]);
    let notes = Notes::default();
    let deps = TurnDeps {
        llm: &llm,
        api: &Videos::default(),
        store: &mut MemoryStore::new(),
        vision: None::<&Blind>,
    };
    run_turn_observed(deps, &Reader, long_history(), "问", &short_limits(), &notes);
    assert_eq!(
        *notes.0.borrow(),
        ["compacted", "iteration", "tool_call", "tool_result", "iteration", "answer"]
    );
}

/// Everything that is told, as it is written.
#[derive(Default)]
struct Protocol(RefCell<Vec<String>>);

impl TurnObserver for Protocol {
    fn on(&self, ev: &TurnEvent<'_>) {
        let said = match ev {
            TurnEvent::Compacted { summary_chars, upto_seq } => {
                format!("compacted {summary_chars} {upto_seq}")
            }
            TurnEvent::Iteration { n } => format!("iteration {n}"),
            TurnEvent::ToolCall { id, name, args } => format!("call {id} {name} {}", args.text()),
            TurnEvent::ToolResult {
                id,
                name,
                is_error,
                external_calls,
                credits,
                vision_calls,
                preview,
            } => format!(
                "result {id} {name} {is_error} {external_calls} {credits} {vision_calls} {}",
                preview.chars().count()
            ),
            TurnEvent::Token { text } => format!("token {text}"),
            TurnEvent::Answer { text } => format!("answer {text}"),
        };
        self.0.borrow_mut().push(said);
    }
}

#[test]
fn the_observer_is_told_the_answer_and_every_tool_with_its_costs() {
    let llm = Script::of(vec![wants("", &[("a", YT), ("b", "{}")]), says("答案")]);
    let told = Protocol::default();
    let deps = TurnDeps {
        llm: &llm,
        api: &Videos { long: true, ..Videos::default() },
        store: &mut MemoryStore::new(),
        vision: None::<&Blind>,
    };
    let cfg = LoopConfig::default();
    let r = run_turn_observed(deps, &Reader, History::default(), "问", &cfg, &told);
    assert_eq!(r.outcome, TurnOutcome::Done);
    let told = told.0.borrow();
    assert_eq!(told[0], "iteration 1");
    assert_eq!(told[1], r#"call a search_videos {"platform":"youtube","query":"科普"}"#);
    assert_eq!(told[2], "result a search_videos false 1 1 0 200");
    assert_eq!(told[3], "call b search_videos {}");
    assert!(told[4].starts_with("result b search_videos true 0 0 0 "), "{}", told[4]);
    assert_eq!(told[5..], ["iteration 2", "answer 答案"]);
}

#[test]
fn limits_stop_the_turn_in_their_order() {
    let cfg = LoopConfig { max_iterations: 2, context_budget_tokens: 10, ..LoopConfig::default() };
    assert_eq!(stopped(1, 10, &cfg), None);
    assert_eq!(stopped(2, 11, &cfg), Some(TurnOutcome::IterationCap));
    assert_eq!(stopped(1, 11, &cfg), Some(TurnOutcome::ContextBudget { used: 11, limit: 10 }));
}

#[test]
fn an_answer_with_wishes_goes_on() {
    match answered(wants("等等", &[("a", YT)]).unwrap()) {
        Answered::Tools { text, calls } => {
            assert_eq!(text, "等等");
            assert_eq!(calls[0].id, "a");
        }
        Answered::Over { .. } => panic!("不该结束"),
    }
    assert!(matches!(
        answered(says("完").unwrap()),
        Answered::Over { outcome: TurnOutcome::Done, said: true, .. }
    ));
}

#[test]
fn costs_are_counted_up() {
    let zero = Tally {
        external_calls: 1,
        credits: 2,
        video_analyses: 3,
        video_tokens: u32::MAX - 1,
        input_tokens: 5,
        output_tokens: 6,
    };
    let mut o: ToolOutcome = out_of_calls("a", 9);
    o.external_calls = 10;
    o.credits_charged = Some(20);
    o.vision_calls = 1;
    o.video_tokens = 40;
    let t = tally_up(zero, &o);
    assert_eq!((t.external_calls, t.credits, t.video_analyses), (11, 22, 4));
    assert_eq!((t.video_tokens, t.input_tokens, t.output_tokens), (u32::MAX, 5, 6));
}

#[test]
fn no_limit_leaves_room_for_a_first_request_by_accident() {
    let llm = Script::of(vec![]);
    let none = LoopConfig { max_iterations: 0, ..LoopConfig::default() };
    let r = turn(&llm, &Videos::default(), &none);
    assert_eq!((r.outcome, r.iterations), (TurnOutcome::IterationCap, 0));
    assert_eq!(r.items.len(), 1);
    let tight = LoopConfig { context_budget_tokens: 0, ..LoopConfig::default() };
    let r = turn(&llm, &Videos::default(), &tight);
    assert!(matches!(r.outcome, TurnOutcome::ContextBudget { limit: 0, .. }));
    assert_eq!(r.iterations, 0);
    assert!(llm.asked.borrow().is_empty());
}

#[test]
fn entries_say_in_which_round_they_were_noted() {
    let llm = Script::of(vec![
        wants("先搜", &[("a", YT), ("b", YT)]),
        wants("", &[("c", YT)]),
        says("完"),
    ]);
    let r = turn(&llm, &Videos::default(), &LoopConfig::default());
    let rounds: Vec<Option<i64>> = r.items.iter().map(|x| x.iteration).collect();
    let (one, two) = (Some(1), Some(2));
    assert_eq!(rounds, [None, one, one, one, one, one, two, two, Some(3)]);
}

#[test]
fn entries_say_what_their_calls_cost() {
    let llm = Script::of(vec![wants("", &[("a", YT), ("b", "{}")]), says("完")]);
    let r = turn(&llm, &Videos::default(), &LoopConfig::default());
    let costs: Vec<Option<i64>> = r
        .items
        .iter()
        .filter(|x| x.kind == ItemKind::FunctionCallOutput)
        .map(|x| x.payload.get("credits_charged").and_then(|n| n.as_i64()))
        .collect();
    assert_eq!(costs, [Some(1), Some(0)]);
    assert_eq!(r.credits_charged, 1);
}

#[test]
fn a_question_is_echoed() {
    assert_eq!(echo_received("找博主"), "· 收到问题（3 字）：找博主");
}
