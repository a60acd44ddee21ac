//! What the commands decide and say.
//!
//! Arguments are read and lines are printed elsewhere; here is what they mean and
//! what stands in them.

use vstd::prelude::*;
use crate::agent::llm;
use crate::agent::llm::Provider;
use crate::agent::runner;
use crate::agent::runner::{LoopConfig, TurnOutcome, TurnResult};
use crate::content::evidence;
use crate::content::evidence::{format_duration, with_signature, QUESTION_CLOSE, QUESTION_OPEN};
use crate::content::model;
use crate::content::model::{Artifact, Session, Turn, TurnStatus, Video};
use crate::error::{ClipKnowError, Result};
use crate::ingest::url;
use crate::ingest::url::Platform;
use crate::text;
use crate::text::{head_of, i64_text, includes, joined, same, to_chars, trimmed, usize_text};

verus! {

// ---------------------------------------------------------------------------
// Limits from the command line
// ---------------------------------------------------------------------------

/// The limits of a turn that were given on the command line.
#[derive(Debug, Default)]
pub struct GateOverrides {
    pub max_iterations: Option<usize>,
    pub convergence_iteration: Option<usize>,
    pub max_tool_calls: Option<usize>,
    pub max_video_analyses: Option<usize>,
    pub context_budget: Option<usize>,
    pub compaction_threshold: Option<usize>,
    pub compaction_target: Option<usize>,
}

/// A number that was given, or the one that holds otherwise.
pub open spec fn given(n: Option<usize>, other: usize) -> usize {
    match n {
        Some(k) => k,
        None => other,
    }
}

/// When the model is told to come to an end: at eight tenths of the limit, and
/// not before the first time.
pub open spec fn usual_convergence(max: int) -> int {
    if max * 8 / 10 < 1 {
        1
    } else {
        max * 8 / 10
    }
}

/// The limits with those that were given.
pub open spec fn overridden(o: GateOverrides) -> LoopConfig {
    let d = runner::default_limits();
    let max = given(o.max_iterations, d.max_iterations);
    LoopConfig {
        max_iterations: max,
        convergence_iteration: given(
            o.convergence_iteration,
            usual_convergence(max as int) as usize,
        ),
        max_tool_calls: given(o.max_tool_calls, d.max_tool_calls),
        max_video_analyses: given(o.max_video_analyses, d.max_video_analyses),
        context_budget_tokens: given(o.context_budget, d.context_budget_tokens),
        compaction_threshold: given(o.compaction_threshold, d.compaction_threshold),
        compaction_target_tokens: given(o.compaction_target, d.compaction_target_tokens),
    }
}

/// What does not make sense about limits, where something does not.
pub open spec fn objection(c: LoopConfig) -> Option<Seq<char>> {
    if c.max_iterations == 0 {
        Some("max-iterations 不能是 0"@)
    } else if c.convergence_iteration >= c.max_iterations {
        Some(
            "convergence-iteration("@ + text::int_text(c.convergence_iteration as int)
                + ") 必须小于 max-iterations("@ + text::int_text(c.max_iterations as int)
                + ")——否则收敛提示永远插不进去"@,
        )
    } else if c.max_video_analyses >= c.max_tool_calls {
        Some(
            "max-video-analyses("@ + text::int_text(c.max_video_analyses as int)
                + ") 必须小于 max-tool-calls("@ + text::int_text(c.max_tool_calls as int)
                + ")——否则视觉闸门永远不会先触发，等于形同虚设"@,
        )
    } else if c.compaction_target_tokens >= c.compaction_threshold {
        Some(
            "compaction-target("@ + text::int_text(c.compaction_target_tokens as int)
                + ") 必须小于 compaction-threshold("@ + text::int_text(
                c.compaction_threshold as int,
            ) + ")——否则压完还在阈值以上，等于没压"@,
        )
    } else {
        None
    }
}

/// There is nothing to object to limits exactly where they make sense together.
pub proof fn law_objections(c: LoopConfig)
    ensures
        objection(c) is None <==> runner::consistent(c),
{
}

fn or_other(n: Option<usize>, other: usize) -> (r: usize)
    ensures
        r == given(n, other),
{
    match n {
        Some(k) => k,
        None => other,
    }
}

fn compared(a: &str, n: usize, b: &str, m: usize, why: &str) -> (r: String)
    ensures
        r@ == a@ + text::int_text(n as int) + b@ + text::int_text(m as int) + why@,
{
    a.to_owned().concat(usize_text(n).as_str()).concat(b).concat(usize_text(m).as_str()).concat(why)
}

fn complaint(c: &LoopConfig) -> (r: Option<String>)
    ensures
        text::opt(r) == objection(*c),
{
    if c.max_iterations == 0 {
        return Some("max-iterations 不能是 0".to_owned());
    }
    if c.convergence_iteration >= c.max_iterations {
        return Some(
            compared(
                "convergence-iteration(",
                c.convergence_iteration,
                ") 必须小于 max-iterations(",
                c.max_iterations,
                ")——否则收敛提示永远插不进去",
            ),
        );
    }
    if c.max_video_analyses >= c.max_tool_calls {
        return Some(
            compared(
                "max-video-analyses(",
                c.max_video_analyses,
                ") 必须小于 max-tool-calls(",
                c.max_tool_calls,
                ")——否则视觉闸门永远不会先触发，等于形同虚设",
            ),
        );
    }
    if c.compaction_target_tokens >= c.compaction_threshold {
        return Some(
            compared(
                "compaction-target(",
                c.compaction_target_tokens,
                ") 必须小于 compaction-threshold(",
                c.compaction_threshold,
                ")——否则压完还在阈值以上，等于没压",
            ),
        );
    }
    None
}

impl GateOverrides {
    /// The limits of a turn with those that were given, as long as they make sense
    /// together.
    pub fn apply(&self) -> (r: Result<LoopConfig>)
        ensures
            match objection(overridden(*self)) {
                Some(t) => r matches Err(ClipKnowError::BadRequest(m)) && m@ == t,
                None => r matches Ok(c) && c == overridden(*self) && runner::consistent(c),
            },
    {
        let d = LoopConfig::default();
        let max: usize = or_other(self.max_iterations, d.max_iterations);
        let tenths: u128 = max as u128 * 8 / 10;
        let usual: usize = if tenths < 1 { 1 } else { tenths as usize };
        assert(usual == usual_convergence(max as int));
        let c = LoopConfig {
            max_iterations: max,
            convergence_iteration: or_other(self.convergence_iteration, usual),
            max_tool_calls: or_other(self.max_tool_calls, d.max_tool_calls),
            max_video_analyses: or_other(self.max_video_analyses, d.max_video_analyses),
            context_budget_tokens: or_other(self.context_budget, d.context_budget_tokens),
            compaction_threshold: or_other(self.compaction_threshold, d.compaction_threshold),
            compaction_target_tokens: or_other(self.compaction_target, d.compaction_target_tokens),
        };
        match complaint(&c) {
            Some(m) => Err(ClipKnowError::BadRequest(m)),
            None => Ok(c),
        }
    }
}

/// Without anything given, the usual limits hold.
pub proof fn law_usual_limits(o: GateOverrides)
    requires
        o.max_iterations is None,
        o.convergence_iteration is None,
        o.max_tool_calls is None,
        o.max_video_analyses is None,
        o.context_budget is None,
        o.compaction_threshold is None,
        o.compaction_target is None,
    ensures
        overridden(o) == runner::default_limits(),
        objection(overridden(o)) is None,
{
}

/// What is said of a supplier that nobody knows.
pub open spec fn unknown_provider(name: Seq<char>) -> Seq<char> {
    "不认识的 provider: "@ + name + "（可选 deepseek / anthropic）"@
}

/// The supplier that was asked for. A name that nobody knows is an error: to use
/// another supplier instead would go unnoticed.
pub fn parse_provider(s: Option<&str>) -> (r: Result<Option<Provider>>)
    ensures
        match s {
            None => r matches Ok(p) && p is None,
            Some(v) => match llm::provider_named(v@) {
                Some(p) => r matches Ok(q) && q == Some(p),
                None => r matches Err(ClipKnowError::BadRequest(m)) && m@ == unknown_provider(v@),
            },
        },
{
    match s {
        None => Ok(None),
        Some(v) => match Provider::parse(v) {
            Some(p) => Ok(Some(p)),
            None => Err(
                ClipKnowError::BadRequest(
                    "不认识的 provider: ".to_owned().concat(v).concat(
                        "（可选 deepseek / anthropic）",
                    ),
                ),
            ),
        },
    }
}

// ---------------------------------------------------------------------------
// Asking about one video
// ---------------------------------------------------------------------------

/// What a model is asked about a video: the material, and the question in tags of
/// its own.
pub fn ask_prompt(material: &str, question: &str) -> (r: String)
    ensures
        r@ == material@ + "\n"@ + QUESTION_OPEN@ + "\n"@ + question@ + "\n"@ + QUESTION_CLOSE@,
{
    material.to_owned().concat("\n").concat(QUESTION_OPEN).concat("\n").concat(question).concat(
        "\n",
    ).concat(QUESTION_CLOSE)
}

/// What is said once a video was fetched.
pub fn fetched_line(has_transcript: bool, comments: usize) -> (r: String)
    ensures
        r@ == "· 抓取完成：文字稿 "@ + (if has_transcript {
            "有"@
        } else {
            "无"@
        }) + " / 评论 "@ + text::int_text(comments as int) + " 条"@,
{
    "· 抓取完成：文字稿 ".to_owned().concat(
        if has_transcript {
            "有"
        } else {
            "无"
        },
    ).concat(" / 评论 ").concat(usize_text(comments).as_str()).concat(" 条")
}

/// Whether an error says that a video that was just stored is not there.
pub open spec fn says_lost(e: ClipKnowError, platform: Platform) -> bool {
    e matches ClipKnowError::Fetch { platform: p, message } && p@ == url::platform_name(platform)
        && message@ == "刚写进去却读不出来，数据库可能有问题"@
}

/// The error where a video that was just stored is not there.
pub fn lost_video(platform: Platform) -> (r: ClipKnowError)
    ensures
        says_lost(r, platform),
{
    ClipKnowError::Fetch {
        platform: platform.as_str().to_owned(),
        message: "刚写进去却读不出来，数据库可能有问题".to_owned(),
    }
}

/// What is said of the costs of one answer; `cost` are the dollars, as they are
/// written.
pub fn answer_cost_line(model: &str, input_tokens: u32, output_tokens: u32, cost: &str) -> (r:
    String)
    ensures
        r@ == "\n— "@ + model@ + " · "@ + text::int_text(input_tokens as int) + " 输入 / "@
            + text::int_text(output_tokens as int) + " 输出 token，约 $"@ + cost@,
{
    "\n— ".to_owned().concat(model).concat(" · ").concat(
        i64_text(input_tokens as i64).as_str(),
    ).concat(" 输入 / ").concat(i64_text(output_tokens as i64).as_str()).concat(
        " 输出 token，约 $",
    ).concat(cost)
}

// ---------------------------------------------------------------------------
// Conversations
// ---------------------------------------------------------------------------

/// The conversation to talk in.
#[derive(Debug)]
pub enum Choice {
    /// One that there is.
    Resume(Session),
    /// A new one, and whether it is said that there is no other.
    Begin { said: bool },
}

/// The conversation to talk in: the latest, where that was asked for and there is
/// one.
pub fn choose_session(go_on: bool, latest: Option<Session>) -> (r: Choice)
    ensures
        match latest {
            Some(s) => if go_on {
                r == Choice::Resume(s)
            } else {
                r == (Choice::Begin { said: false })
            },
            None => r == (Choice::Begin { said: go_on }),
        },
{
    match latest {
        Some(s) => if go_on {
            Choice::Resume(s)
        } else {
            Choice::Begin { said: false }
        },
        None => Choice::Begin { said: go_on },
    }
}

/// What is said of a conversation that is taken up again.
pub fn resumed_line(s: &Session, entries: i64) -> (r: String)
    ensures
        r@ == "· 接着聊："@ + (match s.title {
            Some(t) => t@,
            None => "(无标题)"@,
        }) + "（"@ + text::int_text(entries as int) + " 条历史）"@,
{
    "· 接着聊：".to_owned().concat(title_or(&s.title)).concat("（").concat(
        i64_text(entries).as_str(),
    ).concat(" 条历史）")
}

/// What is said where a conversation begins.
pub fn banner(model: &str, vision: Option<&str>) -> (r: String)
    ensures
        r@ == "· "@ + model@ + " · 画面 "@ + (match vision {
            Some(v) => v@,
            None => "未启用"@,
        }) + " · 输入问题回车；↑ 调历史；/new 开新会话，/quit 退出"@,
{
    "· ".to_owned().concat(model).concat(" · 画面 ").concat(
        match vision {
            Some(v) => v,
            None => "未启用",
        },
    ).concat(" · 输入问题回车；↑ 调历史；/new 开新会话，/quit 退出")
}

/// What was typed in a conversation.
#[derive(Debug, PartialEq, Eq)]
pub enum Input {
    Nothing,
    Quit,
    NewSession,
    Question(String),
}

/// What was typed in a conversation. The spaces around it do not count.
pub fn read_input(line: &str) -> (r: Input)
    ensures
        ({
            let t = text::trim(line@);
            if t.len() == 0 {
                r is Nothing
            } else if t == "/quit"@ || t == "/exit"@ {
                r is Quit
            } else if t == "/new"@ {
                r is NewSession
            } else {
                r matches Input::Question(q) && q@ == t
            }
        }),
{
    let t = trimmed(line);
    if t.as_str().is_empty() {
        Input::Nothing
    } else if same(t.as_str(), "/quit") || same(t.as_str(), "/exit") {
        Input::Quit
    } else if same(t.as_str(), "/new") {
        Input::NewSession
    } else {
        Input::Question(t)
    }
}

// ---------------------------------------------------------------------------
// What came of a turn
// ---------------------------------------------------------------------------

/// What is stored of how a turn ended.
pub open spec fn is_status(s: TurnStatus, o: TurnOutcome) -> bool {
    match o {
        TurnOutcome::Done => s is Done,
        TurnOutcome::IterationCap => s matches TurnStatus::Failed(m) && m@ == "超过迭代上限"@,
        TurnOutcome::Truncated => s matches TurnStatus::Failed(m) && m@ == "回答被长度上限截断"@,
        TurnOutcome::ProtocolError(e) => s matches TurnStatus::Failed(m) && m@ == "协议异常: "@ + e@,
        TurnOutcome::ContextBudget { used, limit } => s matches TurnStatus::Failed(m) && m@
            == "上下文预算不足"@,
        TurnOutcome::ModelError(e) => s matches TurnStatus::Failed(m) && m@ == "模型调用失败: "@ + e@,
    }
}

fn status(o: &TurnOutcome) -> (r: TurnStatus)
    ensures
        is_status(r, *o),
{
    match o {
        TurnOutcome::Done => TurnStatus::Done,
        TurnOutcome::IterationCap => TurnStatus::Failed("超过迭代上限".to_owned()),
        TurnOutcome::Truncated => TurnStatus::Failed("回答被长度上限截断".to_owned()),
        TurnOutcome::ProtocolError(e) => TurnStatus::Failed(
            "协议异常: ".to_owned().concat(e.as_str()),
        ),
        TurnOutcome::ContextBudget { .. } => TurnStatus::Failed("上下文预算不足".to_owned()),
        TurnOutcome::ModelError(e) => TurnStatus::Failed(
            "模型调用失败: ".to_owned().concat(e.as_str()),
        ),
    }
}

/// What has to be stored of a turn, beside its entries and, after them, its
/// summary.
#[derive(Debug)]
pub struct Record {
    pub status: TurnStatus,
    /// The title of the conversation, where the turn is the first.
    pub title: Option<String>,
}

/// Whether `x` is what has to be stored of a turn.
pub open spec fn is_record(x: Record, res: TurnResult, question: Seq<char>, is_first: bool) -> bool {
    is_status(x.status, res.outcome) && text::opt(x.title) == (if is_first {
        Some(text::head(question, 40))
    } else {
        None
    })
}

/// What has to be stored of a turn. A turn that failed is stored like any other;
/// one for which nothing was sent is not, for nothing happened. The first
/// question is the title of the conversation.
pub fn record_of(res: &TurnResult, question: &str, is_first_turn: bool) -> (r: Option<Record>)
    ensures
        if res.outcome is ContextBudget {
            r is None
        } else {
            r matches Some(x) && is_record(x, *res, question@, is_first_turn)
        },
{
    if let TurnOutcome::ContextBudget { .. } = &res.outcome {
        return None;
    }
    let title = if is_first_turn {
        Some(truncate_chars(question, 40))
    } else {
        None
    };
    Some(Record { status: status(&res.outcome), title })
}

/// Nothing but a whole answer is taken for a success.
pub proof fn law_only_whole_answers_succeed(s: TurnStatus, o: TurnOutcome)
    requires
        is_status(s, o),
    ensures
        s is Done <==> o is Done,
{
}

/// The first `n` characters of a text.
pub fn truncate_chars(s: &str, n: usize) -> (r: String)
    ensures
        r@ == text::head(s@, n as int),
{
    head_of(s, n)
}

/// Whether a history is nearly as long as it may be.
pub open spec fn nearly_full(used: int, limit: int) -> bool {
    used * 10 > limit * 9
}

/// Whether a history is nearly as long as it may be.
pub fn is_nearly_full(used: usize, limit: usize) -> (r: bool)
    ensures
        r == nearly_full(used as int, limit as int),
{
    used as u128 * 10 > limit as u128 * 9
}

/// What is said where a supplier refuses the content of a request. It checks all
/// that is sent, and what it objects to is rarely the question.
pub const CONTENT_RISK_NOTE: &'static str =
    "DeepSeek 的内容审查拒绝了这次请求。它审查的是**整个请求**，\
    包括这一轮抓回来的材料——触发点多半在搜索结果里，而不是你的问题。\
    \n这一轮已标记为失败，不会带进后续的历史，接着问别的没问题。\
    \n原样重问大概率还是同样的结果（同样的搜索会拿回同样的材料）。\
    换个更窄的问法能绕开：直接给视频链接让它只看那一条，\
    而不是让它去搜——搜索会把话题相关的一大堆东西都捞回来。";

/// What is said of an answer that was cut off.
pub const TRUNCATED_NOTE: &'static str =
    "回答达到长度上限被截断了，上面这段是残缺的。\
    这一轮已标记为失败，下次不会带上它。换个更聚焦的问法再试。";

/// What is said of a failure of a model. What is known to have a remedy is said
/// with it; all else is said as it is.
pub open spec fn failure_note(e: Seq<char>) -> Seq<char> {
    if text::contains(e, "Content Exists Risk"@) {
        CONTENT_RISK_NOTE@
    } else if text::contains(e, "rate limit"@) || text::contains(e, "429"@) {
        e + "\n（限流，等一会儿再试就行）"@
    } else {
        e
    }
}

/// What is said of a failure of a model.
pub fn model_error_note(e: &str) -> (r: String)
    ensures
        r@ == failure_note(e@),
{
    if includes(e, "Content Exists Risk") {
        CONTENT_RISK_NOTE.to_owned()
    } else if includes(e, "rate limit") || includes(e, "429") {
        e.to_owned().concat("\n（限流，等一会儿再试就行）")
    } else {
        e.to_owned()
    }
}

/// What is said at the end of a turn; nothing where it went well and there is
/// room left.
pub open spec fn note_on(res: TurnResult, cfg: LoopConfig) -> Seq<char> {
    match res.outcome {
        TurnOutcome::Done => if nearly_full(
            res.context_tokens as int,
            cfg.context_budget_tokens as int,
        ) {
            "会话历史已用约 "@ + text::int_text(res.context_tokens as int) + " / "@ + text::int_text(
                cfg.context_budget_tokens as int,
            ) + " token，接近上限，建议开新会话。"@
        } else {
            seq![]
        },
        TurnOutcome::IterationCap => "跑了 "@ + text::int_text(res.iterations as int)
            + " 轮还没收敛，已停下。已经查到的都在库里，可以换个更具体的问法。"@,
        TurnOutcome::Truncated => TRUNCATED_NOTE@,
        TurnOutcome::ProtocolError(e) => "模型返回了没见过的结束原因："@ + e@,
        TurnOutcome::ContextBudget { used, limit } => "这个会话的历史太长了（约 "@ + text::int_text(
            used as int,
        ) + " / "@ + text::int_text(limit as int)
            + " token）。继续问会被模型拒掉，请开一个新会话——当前会话已存好，随时能回去。"@,
        TurnOutcome::ModelError(e) => failure_note(e@),
    }
}

/// What is said at the end of a turn.
pub fn outcome_note(res: &TurnResult, cfg: &LoopConfig) -> (r: String)
    ensures
        r@ == note_on(*res, *cfg),
{
    match &res.outcome {
        TurnOutcome::Done => if is_nearly_full(res.context_tokens, cfg.context_budget_tokens) {
            compared(
                "会话历史已用约 ",
                res.context_tokens,
                " / ",
                cfg.context_budget_tokens,
                " token，接近上限，建议开新会话。",
            )
        } else {
            String::new()
        },
        TurnOutcome::IterationCap => "跑了 ".to_owned().concat(
            usize_text(res.iterations).as_str(),
        ).concat(" 轮还没收敛，已停下。已经查到的都在库里，可以换个更具体的问法。"),
        TurnOutcome::Truncated => TRUNCATED_NOTE.to_owned(),
        TurnOutcome::ProtocolError(e) => "模型返回了没见过的结束原因：".to_owned().concat(
            e.as_str(),
        ),
        TurnOutcome::ContextBudget { used, limit } => compared(
            "这个会话的历史太长了（约 ",
            *used,
            " / ",
            *limit,
            " token）。继续问会被模型拒掉，请开一个新会话——当前会话已存好，随时能回去。",
        ),
        TurnOutcome::ModelError(e) => model_error_note(e.as_str()),
    }
}

/// What a turn says on a terminal.
pub open spec fn turn_text(res: TurnResult) -> Seq<char> {
    match res.outcome {
        TurnOutcome::Done => "\n"@ + evidence::signed(res.answer@),
        TurnOutcome::IterationCap => "\n(跑了 "@ + text::int_text(res.iterations as int)
            + " 轮还没收敛，已停下。已经查到的都在库里，可以换个更具体的问法)"@,
        TurnOutcome::ContextBudget { used, limit } => "\n⚠ 这个会话的历史太长了（约 "@
            + text::int_text(used as int) + " token，上限 "@ + text::int_text(limit as int)
            + "）。\n  继续问会被模型拒掉。输入 /new 开新会话（当前会话已存好，随时 `--continue` 回来），或用 `clipknow ask <链接> \"...\"` 问单个视频。"@,
        TurnOutcome::Truncated => "\n"@ + res.answer@
            + "\n\n⚠ 回答达到长度上限被截断了，上面这段是残缺的。\n  这个 turn 已标记为失败，`--continue` 不会带上它。换个更聚焦的问法再试。"@,
        TurnOutcome::ProtocolError(e) => "\n模型返回了没见过的结束原因: "@ + e@ + "\n（已拿到的内容："@
            + (if res.answer@.len() == 0 {
            "无"@
        } else {
            res.answer@
        }) + "）"@,
        TurnOutcome::ModelError(e) => "\n模型调用失败: "@ + e@,
    }
}

/// What a turn says on a terminal.
pub fn turn_message(res: &TurnResult) -> (r: String)
    ensures
        r@ == turn_text(*res),
{
    match &res.outcome {
        TurnOutcome::Done => "\n".to_owned().concat(with_signature(res.answer.as_str()).as_str()),
        TurnOutcome::IterationCap => "\n(跑了 ".to_owned().concat(
            usize_text(res.iterations).as_str(),
        ).concat(" 轮还没收敛，已停下。已经查到的都在库里，可以换个更具体的问法)"),
        TurnOutcome::ContextBudget { used, limit } => compared(
            "\n⚠ 这个会话的历史太长了（约 ",
            *used,
            " token，上限 ",
            *limit,
            "）。\n  继续问会被模型拒掉。输入 /new 开新会话（当前会话已存好，随时 `--continue` 回来），或用 `clipknow ask <链接> \"...\"` 问单个视频。",
        ),
        TurnOutcome::Truncated => "\n".to_owned().concat(res.answer.as_str()).concat(
            "\n\n⚠ 回答达到长度上限被截断了，上面这段是残缺的。\n  这个 turn 已标记为失败，`--continue` 不会带上它。换个更聚焦的问法再试。",
        ),
        TurnOutcome::ProtocolError(e) => "\n模型返回了没见过的结束原因: ".to_owned().concat(
            e.as_str(),
        ).concat("\n（已拿到的内容：").concat(
            if res.answer.as_str().is_empty() {
                "无"
            } else {
                res.answer.as_str()
            },
        ).concat("）"),
        TurnOutcome::ModelError(e) => "\n模型调用失败: ".to_owned().concat(e.as_str()),
    }
}

/// The warning that a history is nearly as long as it may be.
pub open spec fn warning(used: int, limit: int) -> Option<Seq<char>> {
    if nearly_full(used, limit) {
        Some(
            "\n(提示：会话历史已用约 "@ + text::int_text(used) + " / "@ + text::int_text(limit)
                + " token，接近上限，建议 /new 开新会话)"@,
        )
    } else {
        None
    }
}

/// The warning that a history is nearly as long as it may be.
pub fn full_warning(used: usize, limit: usize) -> (r: Option<String>)
    ensures
        text::opt(r) == warning(used as int, limit as int),
{
    if is_nearly_full(used, limit) {
        Some(
            compared(
                "\n(提示：会话历史已用约 ",
                used,
                " / ",
                limit,
                " token，接近上限，建议 /new 开新会话)",
            ),
        )
    } else {
        None
    }
}

// ---------------------------------------------------------------------------
// Lists
// ---------------------------------------------------------------------------

/// `n` spaces.
pub open spec fn spaces(n: int) -> Seq<char>
    decreases n,
{
    if n <= 0 {
        seq![]
    } else {
        spaces(n - 1).push(' ')
    }
}

/// A text with as many spaces behind it as make it `width` characters wide.
pub open spec fn filled(t: Seq<char>, width: int) -> Seq<char> {
    t + spaces(width - t.len())
}

fn fill(s: &str, width: usize) -> (r: String)
    ensures
        r@ == filled(s@, width as int),
{
    let n: usize = to_chars(s).len();
    let mut r = s.to_owned();
    let mut i: usize = n;
    assert(r@ =~= s@ + spaces(0));
    while i < width
        invariant
            n == s@.len(),
            n <= i,
            i <= width || i == n,
            r@ == s@ + spaces(i - n),
        decreases width - i,
    {
        r.push(' ');
        i = i + 1;
        assert(r@ =~= s@ + spaces(i - n));
    }
    r
}

fn title_or<'a>(t: &'a Option<String>) -> (r: &'a str)
    ensures
        r@ == (match *t {
            Some(s) => s@,
            None => "(无标题)"@,
        }),
{
    match t {
        Some(s) => s.as_str(),
        None => "(无标题)",
    }
}

/// How many of the first `n` turns failed.
pub open spec fn failures(v: Seq<Turn>, n: int) -> int
    decreases n,
{
    if n <= 0 || n > v.len() {
        0
    } else {
        failures(v, n - 1) + if v[n - 1].status is Done {
            0int
        } else {
            1int
        }
    }
}

fn count_failures(v: &Vec<Turn>) -> (r: usize)
    ensures
        r == failures(v@, v@.len() as int),
{
    let mut n: usize = 0;
    let mut i: usize = 0;
    while i < v.len()
        invariant
            i <= v@.len(),
            n <= i,
            n == failures(v@, i as int),
        decreases v@.len() - i,
    {
        let failed = match &v[i].status {
            TurnStatus::Done => false,
            TurnStatus::Failed(_) => true,
        };
        if failed {
            n = n + 1;
        }
        i = i + 1;
    }
    n
}

/// The line for a conversation that began on the day `date`.
pub open spec fn session_text(s: Session, turns: Seq<Turn>, date: Seq<char>) -> Seq<char> {
    let title = match s.title {
        Some(t) => t@,
        None => "(无标题)"@,
    };
    let failed = failures(turns, turns.len() as int);
    date + "  "@ + filled(text::head(title, 40), 40) + " "@ + text::int_text(turns.len() as int)
        + " 次提问"@ + (if failed > 0 {
        "（"@ + text::int_text(failed) + " 次失败）"@
    } else {
        seq![]
    })
}

/// The line for a conversation that began on the day `date`.
pub fn session_line(s: &Session, turns: &Vec<Turn>, date: &str) -> (r: String)
    ensures
        r@ == session_text(*s, turns@, date@),
{
    let failed: usize = count_failures(turns);
    let title = truncate_chars(title_or(&s.title), 40);
    let end = if failed > 0 {
        "（".to_owned().concat(usize_text(failed).as_str()).concat(" 次失败）")
    } else {
        String::new()
    };
    date.to_owned().concat("  ").concat(fill(title.as_str(), 40).as_str()).concat(" ").concat(
        usize_text(turns.len()).as_str(),
    ).concat(" 次提问").concat(end.as_str())
}

/// The line under a list of conversations.
pub fn sessions_total(n: usize) -> (r: String)
    ensures
        r@ == "\n共 "@ + text::int_text(n as int)
            + " 个会话。`clipknow find --continue` 接着最近一个聊。"@,
{
    "\n共 ".to_owned().concat(usize_text(n).as_str()).concat(
        " 个会话。`clipknow find --continue` 接着最近一个聊。",
    )
}

/// The lines for a video that was fetched on the day `date`.
pub open spec fn listed_text(v: Video, date: Seq<char>) -> Seq<char> {
    filled(url::platform_name(v.platform), 10) + " "@ + filled(
        match v.duration_sec {
            Some(n) => evidence::duration_text(n as int),
            None => "-"@,
        },
        8,
    ) + " "@ + (match v.title {
        Some(t) => t@,
        None => "(无标题)"@,
    }) + "\n           "@ + v.url@ + "  抓取于 "@ + date
}

/// The lines for a video that was fetched on the day `date`.
pub fn video_listing(v: &Video, date: &str) -> (r: String)
    ensures
        r@ == listed_text(*v, date@),
{
    let length = match v.duration_sec {
        Some(n) => format_duration(n),
        None => "-".to_owned(),
    };
    fill(v.platform.as_str(), 10).concat(" ").concat(fill(length.as_str(), 8).as_str()).concat(
        " ",
    ).concat(title_or(&v.title)).concat("\n           ").concat(v.url.as_str()).concat(
        "  抓取于 ",
    ).concat(date)
}

/// The line under a list of videos.
pub fn videos_total(n: usize) -> (r: String)
    ensures
        r@ == "\n共 "@ + text::int_text(n as int) + " 条"@,
{
    "\n共 ".to_owned().concat(usize_text(n).as_str()).concat(" 条")
}

/// What an endpoint answered, with a line above it.
pub open spec fn raw_text(a: Artifact) -> Seq<char> {
    "=== 原始响应："@ + model::artifact_kind_label(a.kind) + " ["@ + model::fetch_status_name(
        a.status,
    ) + "] ===\n"@ + (match (a.raw_json, a.error) {
        (Some(j), _) => j@,
        (None, Some(e)) => "(抓取失败："@ + e@ + ")"@,
        (None, None) => "(没有内容)"@,
    }) + "\n"@
}

/// What an endpoint answered, with a line above it.
pub fn raw_section(a: &Artifact) -> (r: String)
    ensures
        r@ == raw_text(*a),
{
    let said = match (&a.raw_json, &a.error) {
        (Some(j), _) => j.clone(),
        (None, Some(e)) => "(抓取失败：".to_owned().concat(e.as_str()).concat(")"),
        (None, None) => "(没有内容)".to_owned(),
    };
    "=== 原始响应：".to_owned().concat(a.kind.label()).concat(" [").concat(a.status.as_str()).concat(
        "] ===\n",
    ).concat(said.as_str()).concat("\n")
}

/// How each of the endpoints answered.
pub open spec fn states(v: Seq<Artifact>) -> Seq<Seq<char>> {
    Seq::new(
        v.len(),
        |i: int|
            model::artifact_kind_label(v[i].kind) + "="@ + model::fetch_status_name(v[i].status),
    )
}

/// The line that says how the endpoints answered.
pub fn status_line(v: &Vec<Artifact>) -> (r: String)
    ensures
        r@ == "抓取状态: "@ + text::join(states(v@), "  "@),
{
    let mut parts: Vec<String> = Vec::new();
    let mut i: usize = 0;
    while i < v.len()
        invariant
            i <= v@.len(),
            parts@.len() == i,
            forall|k: int| 0 <= k < i ==> (#[trigger] parts@[k])@ == states(v@)[k],
        decreases v@.len() - i,
    {
        parts.push(v[i].kind.label().to_owned().concat("=").concat(v[i].status.as_str()));
        i = i + 1;
    }
    assert(text::texts(parts@) =~= states(v@));
    "抓取状态: ".to_owned().concat(joined(&parts, "  ").as_str())
}

/// What is said of the costs of a turn; `seen` are the yuan for what was looked
/// at, and `cost` the dollars for the rest, as they are written.
pub open spec fn cost_text(res: TurnResult, seen: Seq<char>, cost: Seq<char>) -> Seq<char> {
    "\n— "@ + text::int_text(res.iterations as int) + " 轮 · "@ + text::int_text(
        res.tool_calls_made as int,
    ) + " 次工具调用（扣 "@ + text::int_text(res.credits_charged as int) + " credit）"@ + (
    if res.video_analyses > 0 {
        " · 画面 "@ + text::int_text(res.video_analyses as int) + " 条 / "@ + text::int_text(
            res.video_tokens as int,
        ) + " token（约 ¥"@ + seen + "）"@
    } else {
        seq![]
    }) + " · 输入 "@ + text::int_text(res.input_tokens as int) + "（其中 "@ + text::int_text(
        res.cached_input_tokens as int,
    ) + " 命中缓存）/ 输出 "@ + text::int_text(res.output_tokens as int) + " token · 约 $"@ + cost
}

/// What is said of the costs of a turn.
pub fn cost_line(res: &TurnResult, seen_cny: &str, cost_usd: &str) -> (r: String)
    ensures
        r@ == cost_text(*res, seen_cny@, cost_usd@),
{
    let seen = if res.video_analyses > 0 {
        " · 画面 ".to_owned().concat(usize_text(res.video_analyses).as_str()).concat(" 条 / ").concat(
            i64_text(res.video_tokens as i64).as_str(),
        ).concat(" token（约 ¥").concat(seen_cny).concat("）")
    } else {
        String::new()
    };
    let s = "\n— ".to_owned().concat(usize_text(res.iterations).as_str()).concat(" 轮 · ").concat(
        usize_text(res.tool_calls_made).as_str(),
    ).concat(" 次工具调用（扣 ").concat(i64_text(res.credits_charged).as_str()).concat(" credit）");
    s.concat(seen.as_str()).concat(" · 输入 ").concat(
        i64_text(res.input_tokens as i64).as_str(),
    ).concat("（其中 ").concat(i64_text(res.cached_input_tokens as i64).as_str()).concat(
        " 命中缓存）/ 输出 ",
    ).concat(i64_text(res.output_tokens as i64).as_str()).concat(" token · 约 $").concat(cost_usd)
}

/// What a turn says at its end: on the terminal, and beside it.
#[derive(Debug)]
pub struct Report {
    pub said: String,
    pub notes: Vec<String>,
}

/// What is said beside the answer of a turn: that the history is nearly as long as
/// it may be, where it is, and what the turn cost. Where nothing was sent there is
/// nothing to say.
pub open spec fn side_notes(
    res: TurnResult,
    cfg: LoopConfig,
    seen: Seq<char>,
    cost: Seq<char>,
) -> Seq<Seq<char>> {
    if res.outcome is ContextBudget {
        seq![]
    } else {
        match warning(res.context_tokens as int, cfg.context_budget_tokens as int) {
            Some(w) => seq![w, cost_text(res, seen, cost)],
            None => seq![cost_text(res, seen, cost)],
        }
    }
}

/// What a turn says at its end.
pub fn turn_report(res: &TurnResult, cfg: &LoopConfig, seen_cny: &str, cost_usd: &str) -> (r:
    Report)
    ensures
        r.said@ == turn_text(*res),
        text::texts(r.notes@) == side_notes(*res, *cfg, seen_cny@, cost_usd@),
{
    let said = turn_message(res);
    let mut notes: Vec<String> = Vec::new();
    if let TurnOutcome::ContextBudget { .. } = &res.outcome {
        assert(text::texts(notes@) =~= seq![]);
        return Report { said, notes };
    }
    if let Some(w) = full_warning(res.context_tokens, cfg.context_budget_tokens) {
        notes.push(w);
    }
    notes.push(cost_line(res, seen_cny, cost_usd));
    assert(text::texts(notes@) =~= side_notes(*res, *cfg, seen_cny@, cost_usd@));
    Report { said, notes }
}

} // verus!
