//! What the commands decide and say.

use clipknow::agent::llm::Provider;
use clipknow::agent::runner::{LoopConfig, TurnOutcome, TurnResult};
use clipknow::cli::{
    answer_cost_line, ask_prompt, banner, choose_session, cost_line, fetched_line, full_warning,
    is_nearly_full, lost_video, model_error_note, outcome_note, parse_provider, raw_section,
    read_input, record_of, resumed_line, session_line, sessions_total, status_line, truncate_chars,
    turn_message, turn_report, video_listing, videos_total, Choice, GateOverrides, Input,
    CONTENT_RISK_NOTE, TRUNCATED_NOTE,
};
use clipknow::content::evidence::ANSWER_SIGNATURE;
use clipknow::content::model::{Artifact, ArtifactKind, Session, Turn, TurnStatus, Video};
use clipknow::ingest::url::Platform;

fn result(outcome: TurnOutcome) -> TurnResult {
    TurnResult {
        outcome,
        answer: "半句".into(),
        items: vec![],
        pending_summary: None,
        iterations: 7,
        tool_calls_made: 3,
        credits_charged: 4,
        context_tokens: 850_000,
        compactions: 0,
        video_analyses: 0,
        video_tokens: 0,
        input_tokens: 1000,
        cached_input_tokens: 200,
        output_tokens: 50,
    }
}

#[test]
fn without_overrides_the_usual_limits_hold() {
    assert_eq!(GateOverrides::default().apply().unwrap(), LoopConfig::default());
}

#[test]
fn the_hint_follows_the_limit() {
    let c = |n: usize| GateOverrides { max_iterations: Some(n), ..Default::default() }.apply();
    assert_eq!(c(3).unwrap().convergence_iteration, 2);
    assert_eq!(c(10).unwrap().convergence_iteration, 8);
    assert_eq!(c(2).unwrap().convergence_iteration, 1);
}

#[test]
fn limits_that_make_no_sense_are_refused() {
    let says = |o: GateOverrides| o.apply().unwrap_err().message();
    assert_eq!(
        says(GateOverrides { max_iterations: Some(0), ..Default::default() }),
        "max-iterations 不能是 0"
    );
    assert_eq!(
        says(GateOverrides { max_iterations: Some(1), ..Default::default() }),
        "convergence-iteration(1) 必须小于 max-iterations(1)——否则收敛提示永远插不进去"
    );
    assert_eq!(
        says(GateOverrides { max_tool_calls: Some(5), ..Default::default() }),
        "max-video-analyses(5) 必须小于 max-tool-calls(5)——否则视觉闸门永远不会先触发，等于形同虚设"
    );
    assert_eq!(
        says(GateOverrides { compaction_threshold: Some(5000), ..Default::default() }),
        "compaction-target(150000) 必须小于 compaction-threshold(5000)——否则压完还在阈值以上，等于没压"
    );
}

#[test]
fn an_unknown_supplier_is_an_error() {
    assert_eq!(parse_provider(None).unwrap(), None);
    assert_eq!(parse_provider(Some("DeepSeek")).unwrap(), Some(Provider::DeepSeek));
    assert_eq!(
        parse_provider(Some("openai")).unwrap_err().message(),
        "不认识的 provider: openai（可选 deepseek / anthropic）"
    );
}

#[test]
fn a_prompt_keeps_material_and_question_apart() {
    assert_eq!(
        ask_prompt("<video-material>x</video-material>", "讲什么？"),
        "<video-material>x</video-material>\n<user-question>\n讲什么？\n</user-question>"
    );
}

#[test]
fn what_was_fetched_is_said() {
    assert_eq!(fetched_line(true, 12), "· 抓取完成：文字稿 有 / 评论 12 条");
    assert_eq!(fetched_line(false, 0), "· 抓取完成：文字稿 无 / 评论 0 条");
    assert_eq!(
        lost_video(Platform::TikTok).message(),
        "抓取失败 (tiktok): 刚写进去却读不出来，数据库可能有问题"
    );
}

#[test]
fn what_is_typed_is_understood() {
    assert_eq!(read_input("  \t"), Input::Nothing);
    assert_eq!(read_input("/quit"), Input::Quit);
    assert_eq!(read_input(" /exit\n"), Input::Quit);
    assert_eq!(read_input("/new "), Input::NewSession);
    assert_eq!(read_input(" 他多久发一条 "), Input::Question("他多久发一条".into()));
}

#[test]
fn a_turn_is_stored_with_how_it_ended() {
    let status = |o: TurnOutcome| record_of(&result(o), "问", false).map(|r| r.status);
    let failed = |s: &str| Some(TurnStatus::Failed(s.into()));
    assert_eq!(status(TurnOutcome::Done), Some(TurnStatus::Done));
    assert_eq!(status(TurnOutcome::IterationCap), failed("超过迭代上限"));
    assert_eq!(status(TurnOutcome::Truncated), failed("回答被长度上限截断"));
    assert_eq!(status(TurnOutcome::ProtocolError("x".into())), failed("协议异常: x"));
    assert_eq!(status(TurnOutcome::ModelError("x".into())), failed("模型调用失败: x"));
    assert_eq!(status(TurnOutcome::ContextBudget { used: 2, limit: 1 }), None);
}

#[test]
fn the_first_question_is_the_title() {
    let q = "很".repeat(50);
    let r = record_of(&result(TurnOutcome::Done), &q, true).unwrap();
    assert_eq!(r.title, Some("很".repeat(40)));
    assert_eq!(record_of(&result(TurnOutcome::Done), &q, false).unwrap().title, None);
    assert_eq!(truncate_chars("抓取", 5), "抓取");
}

#[test]
fn a_warning_comes_above_nine_tenths() {
    assert!(!is_nearly_full(900, 1000));
    assert!(is_nearly_full(901, 1000));
    assert!(is_nearly_full(usize::MAX, usize::MAX));
    assert_eq!(full_warning(900, 1000), None);
    assert_eq!(
        full_warning(901, 1000).unwrap(),
        "\n(提示：会话历史已用约 901 / 1000 token，接近上限，建议 /new 开新会话)"
    );
}

#[test]
fn known_failures_come_with_advice() {
    assert_eq!(
        model_error_note("大模型调用失败: HTTP 400 Bad Request: Content Exists Risk"),
        CONTENT_RISK_NOTE
    );
    assert_eq!(model_error_note("HTTP 429"), "HTTP 429\n（限流，等一会儿再试就行）");
    assert_eq!(model_error_note("rate limit"), "rate limit\n（限流，等一会儿再试就行）");
    assert_eq!(model_error_note("别的"), "别的");
    assert!(!CONTENT_RISK_NOTE.contains("  "), "续行不能留下缩进");
}

#[test]
fn every_ending_has_a_note() {
    let cfg = LoopConfig::default();
    let note = |o: TurnOutcome| outcome_note(&result(o), &cfg);
    assert_eq!(
        note(TurnOutcome::Done),
        "会话历史已用约 850000 / 940000 token，接近上限，建议开新会话。"
    );
    let mut small = result(TurnOutcome::Done);
    small.context_tokens = 1;
    assert_eq!(outcome_note(&small, &cfg), "");
    assert_eq!(
        note(TurnOutcome::IterationCap),
        "跑了 7 轮还没收敛，已停下。已经查到的都在库里，可以换个更具体的问法。"
    );
    assert_eq!(note(TurnOutcome::Truncated), TRUNCATED_NOTE);
    assert_eq!(note(TurnOutcome::ProtocolError("x".into())), "模型返回了没见过的结束原因：x");
    assert_eq!(
        note(TurnOutcome::ContextBudget { used: 2, limit: 1 }),
        "这个会话的历史太长了（约 2 / 1 token）。继续问会被模型拒掉，请开一个新会话——当前会话已存好，随时能回去。"
    );
    assert_eq!(note(TurnOutcome::ModelError("x".into())), "x");
}

#[test]
fn every_ending_is_shown_on_a_terminal() {
    let shown = |o: TurnOutcome| turn_message(&result(o));
    let done = shown(TurnOutcome::Done);
    assert!(done.starts_with("\n半句") && done.contains(ANSWER_SIGNATURE.trim()));
    assert!(shown(TurnOutcome::IterationCap).starts_with("\n(跑了 7 轮还没收敛"));
    assert!(shown(TurnOutcome::Truncated).starts_with("\n半句\n\n⚠ 回答达到长度上限被截断了"));
    assert!(shown(TurnOutcome::ContextBudget { used: 2, limit: 1 }).contains("（约 2 token，上限 1）"));
    assert_eq!(
        shown(TurnOutcome::ProtocolError("x".into())),
        "\n模型返回了没见过的结束原因: x\n（已拿到的内容：半句）"
    );
    let mut empty = result(TurnOutcome::ProtocolError("x".into()));
    empty.answer = String::new();
    assert!(turn_message(&empty).ends_with("（已拿到的内容：无）"));
    assert_eq!(shown(TurnOutcome::ModelError("x".into())), "\n模型调用失败: x");
}

#[test]
fn the_costs_are_said() {
    let mut r = result(TurnOutcome::Done);
    assert_eq!(
        cost_line(&r, "0.071", "0.0012"),
        "\n— 7 轮 · 3 次工具调用（扣 4 credit） · 输入 1000（其中 200 命中缓存）/ 输出 50 token · 约 $0.0012"
    );
    r.video_analyses = 1;
    r.video_tokens = 23_762;
    assert!(cost_line(&r, "0.071", "0.0012").contains(" · 画面 1 条 / 23762 token（约 ¥0.071） · 输入"));
}

#[test]
fn conversations_are_listed() {
    let s = |title: Option<&str>| Session {
        id: "s".into(),
        title: title.map(str::to_string),
        created_at: 0,
    };
    let t = |status: TurnStatus| Turn {
        id: "t".into(),
        seq: 1,
        model: "m".into(),
        status,
        created_at: 0,
    };
    let turns = vec![t(TurnStatus::Done), t(TurnStatus::Failed("x".into()))];
    assert_eq!(
        session_line(&s(Some("找博主")), &turns, "2026-08-09"),
        format!("2026-08-09  {:<40} 2 次提问（1 次失败）", "找博主")
    );
    assert_eq!(
        session_line(&s(None), &vec![], "2026-08-09"),
        format!("2026-08-09  {:<40} 0 次提问", "(无标题)")
    );
    assert_eq!(sessions_total(2), "\n共 2 个会话。`clipknow find --continue` 接着最近一个聊。");
}

#[test]
fn videos_are_listed() {
    let v = Video {
        id: "v".into(),
        platform: Platform::YouTube,
        native_id: "n".into(),
        url: "https://youtu.be/n".into(),
        title: None,
        author_handle: None,
        author_name: None,
        duration_sec: Some(754),
        published_at: None,
        view_count: None,
        like_count: None,
        comment_count: None,
        description: None,
        fetched_at: 0,
    };
    assert_eq!(
        video_listing(&v, "2026-08-09"),
        format!(
            "{:<10} {:<8} (无标题)\n           https://youtu.be/n  抓取于 2026-08-09",
            "youtube", "12:34"
        )
    );
    assert_eq!(videos_total(1), "\n共 1 条");
}

#[test]
fn raw_answers_are_shown() {
    let a = Artifact::ok(ArtifactKind::Detail, "{}".into());
    let b = Artifact::failed(ArtifactKind::Comments, "HTTP 500".into());
    assert_eq!(
        raw_section(&a),
        format!("=== 原始响应：{} [ok] ===\n{{}}\n", ArtifactKind::Detail.label())
    );
    assert_eq!(
        raw_section(&b),
        format!("=== 原始响应：{} [failed] ===\n(抓取失败：HTTP 500)\n", ArtifactKind::Comments.label())
    );
    assert_eq!(
        status_line(&vec![a, b]),
        format!(
            "抓取状态: {}=ok  {}=failed",
            ArtifactKind::Detail.label(),
            ArtifactKind::Comments.label()
        )
    );
}

#[test]
fn a_conversation_is_chosen() {
    let s = || Session { id: "s".into(), title: Some("找博主".into()), created_at: 0 };
    assert!(matches!(choose_session(true, Some(s())), Choice::Resume(x) if x.id == "s"));
    assert!(matches!(choose_session(true, None), Choice::Begin { said: true }));
    assert!(matches!(choose_session(false, None), Choice::Begin { said: false }));
    assert_eq!(resumed_line(&s(), 8), "· 接着聊：找博主（8 条历史）");
    assert_eq!(
        banner("m", None),
        "· m · 画面 未启用 · 输入问题回车；↑ 调历史；/new 开新会话，/quit 退出"
    );
    assert!(banner("m", Some("v")).starts_with("· m · 画面 v · "));
    assert_eq!(answer_cost_line("m", 816, 20, "0.0003"), "\n— m · 816 输入 / 20 输出 token，约 $0.0003");
}

#[test]
fn a_turn_reports_at_its_end() {
    let cfg = LoopConfig::default();
    let r = turn_report(&result(TurnOutcome::Truncated), &cfg, "0.000", "0.0012");
    assert_eq!(r.said, turn_message(&result(TurnOutcome::Truncated)));
    assert_eq!(r.notes.len(), 2, "快满了要提醒，账单总要有");
    assert!(r.notes[0].contains("850000 / 940000") && r.notes[1].ends_with("约 $0.0012"));

    let none = result(TurnOutcome::ContextBudget { used: 2, limit: 1 });
    assert!(turn_report(&none, &cfg, "", "").notes.is_empty(), "什么都没发出去");
}
