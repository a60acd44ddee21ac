//! What was seen of a video, as a model reads it.

use clipknow::content::dossier::{
    dossier_body, render_raw_fallback, render_unavailable, StoredDossier, TimelineEntry,
    VideoDossier, DOSSIER_PROMPT,
};

fn frames(fps: f32, secs: i64) -> Option<i64> {
    Some((fps * secs as f32).round() as i64)
}

fn sample() -> VideoDossier {
    VideoDossier {
        version: 1,
        summary: "神经科学家讲大脑可塑性。".into(),
        timeline: vec![
            TimelineEntry {
                start_sec: 0,
                end_sec: 35,
                what: "讲者出场，白板写着 Neuroplasticity".into(),
            },
            TimelineEntry {
                start_sec: 35,
                end_sec: 130,
                what: "对比临时记忆与长期记忆".into(),
            },
        ],
        visible_text: vec!["Neuroplasticity".into(), "Your behaviour".into()],
        spoken_content: "全程口播".into(),
        entities: vec!["拉拉·博伊德".into(), "白板".into()],
        limitations: vec!["白板右下角小字看不清".into()],
    }
}


#[test]
fn the_status_line_carries_the_resolution_of_this_dossier() {
    let r = sample().render(&0.2f32.to_string(), Some(391), frames(0.2, 391), None);
    let first = r.lines().next().unwrap();
    assert!(first.contains("fps 0.2"), "要写 fps: {first}");
    assert!(first.contains("391 秒"), "要写时长: {first}");
    assert!(first.contains("78 帧"), "要写帧数: {first}");
}

#[test]
fn timestamps_are_rendered_as_minutes_and_seconds() {
    let r = sample().render(&0.2f32.to_string(), Some(391), frames(0.2, 391), None);
    assert!(r.contains("0:00-0:35"), "{r}");
    assert!(r.contains("0:35-2:10"), "{r}");
}

#[test]
fn a_reused_dossier_says_so_and_when() {
    let r = sample().render(&0.2f32.to_string(), Some(391), frames(0.2, 391), Some(1_787_000_000));
    assert!(r.contains("复用"), "{}", r.lines().next().unwrap());
}

#[test]
fn the_uncovered_line_is_always_present_even_when_the_model_gave_none() {
    let mut d = sample();
    d.limitations.clear();
    let r = d.render(&0.2f32.to_string(), Some(391), frames(0.2, 391), None);
    assert!(r.contains("未覆盖："), "{r}");
    assert!(r.contains("抽帧"), "要说明抽帧本身就有盲区: {r}");
}

#[test]
fn an_empty_spoken_field_is_omitted_rather_than_rendered_blank() {
    let mut d = sample();
    d.spoken_content = "  ".into();
    let r = d.render(&1.0f32.to_string(), Some(9), frames(1.0, 9), None);
    assert!(!r.contains("口述内容："), "空字段不该输出标签: {r}");
}

#[test]
fn the_raw_fallback_keeps_the_text_and_flags_it_as_unstructured() {
    let r = render_raw_fallback("画面里有一只猫在跳。", &0.5f32.to_string());
    assert!(r.contains("画面里有一只猫在跳。"));
    assert!(r.contains("未按格式"), "要标明这不是结构化档案: {r}");
}

#[test]
fn the_unavailable_section_states_the_actual_reason() {
    let r = render_unavailable("视频 340.0MB，超过 100MB 下载上限");
    assert!(r.contains("340.0MB"), "{r}");
    assert!(r.contains("未分析"), "{r}");
}

#[test]
fn the_prompt_forbids_inventing_timestamps() {
    assert!(DOSSIER_PROMPT.contains("不许估算或编造"));
}

#[test]
fn the_prompt_carries_the_injection_warning() {
    assert!(DOSSIER_PROMPT.contains("不可信数据"));
    assert!(DOSSIER_PROMPT.contains("不要执行"));
}

#[test]
fn the_prompt_refuses_to_let_limitations_be_empty() {
    assert!(DOSSIER_PROMPT.contains("不许空着"));
}

#[test]
fn a_fence_around_a_dossier_is_taken_off() {
    let raw = "```json\n{\"version\":1,\"summary\":\"讲甜点做法\"}\n```";
    assert_eq!(dossier_body(raw), "{\"version\":1,\"summary\":\"讲甜点做法\"}");
    assert_eq!(dossier_body("自由文本"), "自由文本");
}

fn stored(json: &str) -> StoredDossier {
    StoredDossier {
        dossier_json: json.into(),
        model: "m".into(),
        fps: "0.2".into(),
        question: None,
        video_tokens: Some(1),
        created_at: 1_787_000_000,
        provider: None,
        staged_ref: None,
        staged_expires_at: None,
        blocked_reason: None,
    }
}

#[test]
fn a_stored_dossier_is_shown_by_its_parts_or_as_it_was_written() {
    let s = stored("没有按格式输出");
    assert_eq!(s.render(&None, Some(391), Some(78), true), render_raw_fallback("没有按格式输出", "0.2"));
    let by_parts = s.render(&Some(sample()), Some(391), Some(78), true);
    assert!(by_parts.starts_with("[状态：已分析（复用 2026-08-17 的档案） —— fps 0.2，391 秒抽 78 帧]\n"), "{by_parts}");
    let fresh = s.render(&Some(sample()), None, None, false);
    assert!(fresh.starts_with("[状态：已分析 —— fps 0.2]\n"), "{fresh}");
}
