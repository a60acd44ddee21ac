//! Making the history of a conversation shorter.

use clipknow::agent::compaction::{
    pick_cut, pick_split, plan_history, render_raw_fallback, summary_body, CompactionSummary,
    History, TurnItems, TurnMark, VerifiedCandidate,
};
use clipknow::agent::runner::est_tokens_of;
use clipknow::content::model::Item;

fn turn(seq: i64, chars: usize) -> TurnItems {
    TurnItems {
        seq,
        items: vec![Item::user_message(1, &"啊".repeat(chars))],
    }
}

#[test]
fn the_split_scans_from_the_oldest_turn_and_keeps_the_most_recent_history() {
    let turns: Vec<TurnItems> = (1..=10).map(|i| turn(i, 18_500)).collect();
    let split = pick_split(&turns, 35_000).unwrap();
    assert_eq!(split, 7, "该切在 turn 7 之后，保留 8/9/10 三个");
}

#[test]
fn there_is_no_fixed_number_of_retained_turns() {
    let big: Vec<TurnItems> = (1..=10).map(|i| turn(i, 18_500)).collect();
    let small: Vec<TurnItems> = (1..=10).map(|i| turn(i, 1_850)).collect();
    let a = pick_split(&big, 35_000).unwrap();
    let b = pick_split(&small, 35_000);
    assert_eq!(a, 7);
    assert!(b.is_none(), "全部加起来都没超目标，不用压");
}

#[test]
fn nothing_to_compact_when_the_whole_history_fits() {
    let turns = vec![turn(1, 100), turn(2, 100)];
    assert!(pick_split(&turns, 100_000).is_none());
}

#[test]
fn the_newest_turn_is_never_summarized() {
    let turns = vec![turn(1, 10_000), turn(2, 10_000), turn(3, 2_000_000)];
    let split = pick_split(&turns, 1000).unwrap();
    assert_eq!(split, 2, "只能切到倒数第二个之后");
}

#[test]
fn a_single_turn_history_cannot_be_compacted() {
    let turns = vec![turn(1, 2_000_000)];
    assert!(pick_split(&turns, 1000).is_none(), "没有可切的边界");
}

fn sample() -> CompactionSummary {
    CompactionSummary {
        version: 1,
        user_requirements: vec![
            "找 TikTok 上的美妆博主".into(),
            "粉丝 100 万以上，要个人号".into(),
        ],
        verified: vec![VerifiedCandidate {
            platform: "youtube".into(),
            handle: "thu4878".into(),
            name: "毕导THU".into(),
            followers: Some(184_000),
            evidence: "最近 30 条里 28 条是物理/化学实验演示，平均 18 天一条，最新 2026-08-17"
                .into(),
        }],
        open: vec!["Instagram 搜视频端点不可用（404）".into()],
    }
}

#[test]
fn the_rendered_summary_says_it_is_a_summary_and_what_it_covers() {
    let r = sample().render(7);
    assert!(r.contains("摘要"));
    assert!(r.contains('7'), "要说清覆盖到第几次提问: {r}");
}

#[test]
fn the_rendered_summary_keeps_the_evidence_verbatim() {
    let r = sample().render(7);
    assert!(r.contains("28 条是物理/化学实验"), "依据原文要在: {r}");
    assert!(
        r.contains("184000") || r.contains("18.4"),
        "粉丝数要在: {r}"
    );
    assert!(r.contains("thu4878"), "handle 要在——后续调用要用它");
}

#[test]
fn the_rendered_summary_tells_the_model_not_to_recheck_verified_candidates() {
    let r = sample().render(7);
    assert!(
        r.contains("不用") || r.contains("已核实"),
        "要明说这些不用重新查: {r}"
    );
}

#[test]
fn empty_sections_are_omitted_not_rendered_as_blank_headers() {
    let s = CompactionSummary {
        version: 1,
        user_requirements: vec!["找博主".into()],
        verified: vec![],
        open: vec![],
    };
    let r = s.render(3);
    assert!(r.contains("找博主"));
    assert!(!r.contains("已核实"), "空的段落别渲染: {r}");
}

#[test]
fn a_fence_around_a_summary_is_taken_off() {
    let raw = "```json\n{\"version\":1}\n```";
    assert_eq!(summary_body(raw), "{\"version\":1}");
    assert_eq!(summary_body("  {\"version\":1}\n"), "{\"version\":1}");
}

#[test]
fn a_summary_without_the_form_is_shown_as_it_is() {
    let r = render_raw_fallback("这是一段自由文本的摘要", 5);
    assert_eq!(
        r,
        "[历史摘要 —— 覆盖前 5 次提问，原文已省略]\n\n这是一段自由文本的摘要\n"
    );
}

#[test]
fn the_cut_leaves_as_much_as_fits() {
    assert_eq!(pick_cut(&vec![10, 10, 10], 20), Some(0));
    assert_eq!(pick_cut(&vec![10, 10, 10], 10), Some(1));
    assert_eq!(pick_cut(&vec![10, 10, 10], 30), None);
    assert_eq!(pick_cut(&vec![10, 10, 99], 5), Some(1));
    assert_eq!(pick_cut(&vec![99], 5), None);
}

#[test]
fn a_history_is_as_long_as_its_summary_and_its_turns() {
    let h = History {
        summary: Some("a".repeat(168)),
        summary_upto: 3,
        turns: vec![turn(4, 185)],
    };
    assert_eq!(est_tokens_of(&"a".repeat(168)), 100);
    assert_eq!(est_tokens_of(&"啊".repeat(185)), 100);
    assert_eq!(est_tokens_of(""), 0);
    assert!(h.est_tokens() > 200 && h.est_tokens() < 220, "{}", h.est_tokens());
    let items = h.to_items();
    assert_eq!(items.len(), 2);
    assert_eq!(items[0].payload.get("text").unwrap().as_str(), Some("a".repeat(168).as_str()));
    assert!(!h.is_empty());
    assert!(History::default().is_empty());
}

#[test]
fn a_history_is_what_went_well_after_the_latest_summary() {
    let mark = |seq: i64, done: bool, summary: Option<(&str, i64)>| TurnMark {
        seq,
        done,
        summary: summary.map(|(s, n)| (s.to_string(), n)),
    };
    let plan = plan_history(&vec![
        mark(1, true, None),
        mark(2, true, Some(("旧", 1))),
        mark(3, false, None),
        mark(4, true, Some(("新", 2))),
        mark(5, false, None),
        mark(6, true, None),
    ]);
    assert_eq!(plan.summary.as_deref(), Some("新"));
    assert_eq!(plan.summary_upto, 2);
    assert_eq!(plan.turns, [3, 5]);

    let plan = plan_history(&vec![mark(1, true, None), mark(2, false, None), mark(3, true, None)]);
    assert_eq!(plan.summary, None);
    assert_eq!(plan.summary_upto, 0);
    assert_eq!(plan.turns, [0, 2]);
    assert!(plan_history(&vec![]).turns.is_empty());
}
