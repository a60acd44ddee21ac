//! Having a model look at a video.

use clipknow::agent::vision::{
    check_upload, estimate_secs_from_size, is_permanent_failure, parse_qwen_response, staged,
    targeted_prompt, upload_policy, vision_error, vision_request, vision_settings,
    QWEN_DEFAULT_MODEL, STAGE_TTL_SECS,
};
use clipknow::content::dossier::DOSSIER_PROMPT;
use clipknow::error::ClipKnowError;
use clipknow::ingest::scrapecreators::dig;
use clipknow::json::Json;

fn j(s: &str) -> Json {
    Json::parse(s).unwrap()
}

fn at<'a>(v: &'a Json, path: &str) -> &'a Json {
    dig(v, path).unwrap_or_else(|| panic!("{path} 不在 {}", v.text()))
}

#[test]
fn a_size_based_duration_estimate_lands_in_the_right_ballpark() {
    for (mb, real) in [
        (0.83, 9.0),
        (2.6, 14.7),
        (6.0, 15.5),
        (16.8, 96.3),
        (46.2, 391.0),
        (52.1, 487.4),
    ] {
        let est = estimate_secs_from_size((mb * 1_048_576.0) as usize) as f64;
        assert!(
            est >= real * 0.7,
            "{mb}MB 估成 {est}s，真实 {real}s —— 低估太多会让 fps 偏高、烧 token"
        );
        assert!(
            est <= real * 6.0,
            "{mb}MB 估成 {est}s，真实 {real}s —— 高得离谱"
        );
    }
}

fn real_response() -> Json {
    j(r#"{"choices": [{"message": {"content": "画面为热成像视角，显示一只动物正在雨林树冠层间跳跃穿行。", "reasoning_content": "", "role": "assistant"}, "finish_reason": "stop", "index": 0}], "usage": {"prompt_tokens": 2400, "completion_tokens": 52, "total_tokens": 2452, "prompt_tokens_details": {"text_tokens": 22, "video_tokens": 2378, "cached_tokens": 0}}, "model": "qwen3-vl-plus"}"#)
}

#[test]
fn the_real_response_shape_is_parsed() {
    let r = parse_qwen_response(&real_response(), &1.0f32.to_string()).unwrap();
    assert!(r.text.contains("热成像"));
    assert_eq!(r.usage.video_tokens, 2378);
    assert_eq!(r.usage.text_tokens, 22);
    assert_eq!(r.usage.output_tokens, 52);
    assert_eq!(r.fps, 1.0f32.to_string());
}

#[test]
fn video_tokens_are_read_separately_not_lumped_into_the_total() {
    let r = parse_qwen_response(&real_response(), &0.2f32.to_string()).unwrap();
    assert_eq!(r.usage.video_tokens, 2378);
    assert_ne!(r.usage.video_tokens, 2400, "不该是 prompt_tokens 整体");
}

#[test]
fn a_response_without_usage_details_still_parses() {
    let v = j(r#"{"choices": [{"message": {"content": "有内容"}}], "usage": {"prompt_tokens": 999, "completion_tokens": 10}}"#);
    let r = parse_qwen_response(&v, &0.5f32.to_string()).unwrap();
    assert_eq!(r.usage.text_tokens, 999);
    assert_eq!(r.usage.video_tokens, 0);
}

#[test]
fn an_empty_content_is_an_error_not_an_empty_dossier() {
    let v = j(r#"{"choices": [{"message": {"content": "   "}}]}"#);
    assert!(parse_qwen_response(&v, &0.2f32.to_string()).is_err());
}

#[test]
fn a_missing_content_field_is_an_error() {
    let v = j(r#"{"choices": [{"message": {"role": "assistant"}}]}"#);
    assert!(parse_qwen_response(&v, &0.2f32.to_string()).is_err());
}

#[test]
fn the_targeted_prompt_carries_the_question_and_the_guardrails() {
    let p = targeted_prompt("  白板右下角写的什么？  ");
    assert!(p.contains("白板右下角写的什么？"));
    assert!(p.contains("不要猜"), "看不清就得说看不清");
    assert!(p.contains("不可信数据"), "注入防御不能只在通用档案那条路上");
}

#[test]
fn the_estimate_is_a_second_for_each_100000_bytes() {
    for n in [0usize, 1, 49_999, 50_000, 149_999, 150_000, 250_000, 60_817_408] {
        let secs = (n as f64 * 8.0 / 800_000.0).round().max(1.0) as i64;
        assert_eq!(estimate_secs_from_size(n), secs, "{n}");
    }
}

const POLICY: &str = r#"{"data": {"policy": "p", "signature": "s", "upload_dir": "d/1", "upload_host": "https://h",
    "oss_access_key_id": "k", "x_oss_forbid_overwrite": true, "max_file_size_mb": 2}}"#;

#[test]
fn the_leave_to_upload_is_read() {
    let p = upload_policy(true, "200 OK", &j(POLICY)).unwrap();
    assert_eq!(p.policy, "p");
    assert_eq!(p.access_key_id, "k");
    assert_eq!(p.object_acl, "private", "没给就是 private");
    assert_eq!(p.forbid_overwrite, "true");
    assert_eq!(p.key(), "d/1/video.mp4");
    assert!(p.check_size(2 * 1_048_576).is_ok());
    assert_eq!(
        p.check_size(3 * 1_048_576).unwrap_err().message(),
        "抓取失败 (video-stage): 视频 3.0MB，超过上传上限 2MB"
    );
}

#[test]
fn a_leave_that_lacks_something_says_what() {
    let e = upload_policy(true, "200 OK", &j(r#"{"data": {"policy": "p"}}"#)).unwrap_err();
    assert_eq!(e.message(), "大模型调用失败: 上传凭证缺字段 signature");
    let e = upload_policy(true, "200 OK", &j("{}")).unwrap_err();
    assert_eq!(e.message(), "大模型调用失败: 上传凭证响应里没有 data");
    let e = upload_policy(false, "401 Unauthorized", &j(POLICY)).unwrap_err();
    assert_eq!(e.message(), "大模型调用失败: 拿上传凭证失败 HTTP 401 Unauthorized");
}

#[test]
fn an_upload_is_kept_for_two_days() {
    let s = staged("d/1/video.mp4", 1_000, 5);
    assert_eq!(s.reference, "oss://d/1/video.mp4");
    assert_eq!(s.expires_at, 1_000 + STAGE_TTL_SECS);
    assert_eq!(STAGE_TTL_SECS, 48 * 3600);
    assert!(check_upload(true, "200 OK", "").is_ok());
    let e = check_upload(false, "403 Forbidden", &"x".repeat(500)).unwrap_err().message();
    assert_eq!(
        e,
        format!("抓取失败 (video-stage): 上传失败 HTTP 403 Forbidden: {}", "x".repeat(200))
    );
}

#[test]
fn a_request_shows_the_upload_and_says_what_is_wanted() {
    let v = vision_request("m", "oss://x", j("0.5"), &None);
    assert_eq!(at(&v, "messages.0.content.0.type").as_str(), Some("video_url"));
    assert_eq!(at(&v, "messages.0.content.0.video_url.url").as_str(), Some("oss://x"));
    assert_eq!(at(&v, "messages.0.content.0.fps").text(), "0.5");
    assert_eq!(at(&v, "messages.0.content.1.text").as_str(), Some(DOSSIER_PROMPT));
    assert_eq!(at(&v, "max_tokens").as_i64(), Some(2048));
    let v = vision_request("m", "oss://x", j("0.5"), &Some("颜色？".into()));
    assert_eq!(
        at(&v, "messages.0.content.1.text").as_str(),
        Some(targeted_prompt("颜色？").as_str())
    );
}

#[test]
fn what_would_fail_again_is_told_from_what_would_not() {
    let e = vision_error(
        "400 Bad Request",
        &j(r#"{"error": {"message": "DataInspectionFailed: Input video data may contain inappropriate content"}}"#),
    );
    assert!(is_permanent_failure(&e), "{}", e.message());
    let e = vision_error("429 Too Many Requests", &j("{}"));
    assert_eq!(e.message(), "大模型调用失败: 视觉模型 HTTP 429 Too Many Requests: 未知错误");
    assert!(!is_permanent_failure(&e));
    assert!(!is_permanent_failure(&ClipKnowError::Http("timed out".into())));
}

#[test]
fn without_a_key_nobody_looks() {
    assert_eq!(vision_settings(None, Some("m".into())), None);
    assert_eq!(
        vision_settings(Some("k".into()), None),
        Some(("k".into(), QWEN_DEFAULT_MODEL.into()))
    );
}
