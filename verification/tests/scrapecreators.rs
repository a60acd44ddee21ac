//! What the scraping service says of one video.

use clipknow::content::model::{ArtifactKind, FetchStatus};
use clipknow::error::ClipKnowError;
use clipknow::ingest::scrapecreators::{
    check_reply, dig, extract_comments, extract_transcript, looks_like_transcription_failure, normalize,
    pick_i64, pick_str, strip_webvtt, truncate, Fetching, Progress, COMMENT_LIMIT,
};
use clipknow::ingest::url::{ParsedUrl, Platform};
use clipknow::json::{array, entry, object, string, Json};

fn j(s: &str) -> Json {
    Json::parse(s).unwrap()
}

fn parsed(platform: Platform, id: &str) -> ParsedUrl {
    ParsedUrl { platform, native_id: id.to_string() }
}

#[test]
fn dig_walks_nested_objects_and_arrays() {
    let v = j(r#"{"a": {"b": [{"c": 42}]}}"#);
    assert_eq!(dig(&v, "a.b.0.c").and_then(|x| x.as_i64()), Some(42));
    assert!(dig(&v, "a.b.9.c").is_none(), "越界应返回 None 而不是 panic");
    assert!(dig(&v, "nope").is_none());
}

#[test]
fn pick_i64_handles_numbers_in_strings() {
    let v = j(r#"{"a": 5, "b": "7", "c": 1.9, "d": null}"#);
    assert_eq!(pick_i64(&v, &["a"]), Some(5));
    assert_eq!(pick_i64(&v, &["b"]), Some(7));
    assert_eq!(pick_i64(&v, &["c"]), Some(1));
    assert_eq!(pick_i64(&v, &["d"]), None, "null 应视为缺失");
}

#[test]
fn first_present_falls_through_to_later_candidates() {
    let v = j(r#"{"second": "hit"}"#);
    assert_eq!(pick_str(&v, &["first", "second"]), Some("hit".into()));
}

#[test]
fn normalizes_real_youtube_response() {
    let v = j(r#"{"success": true, "id": "UZvJzKNJ3dY", "title": "Braun Whole Range 2026 – National Product Review", "description": "When life gets busy...", "likeCountInt": 1, "viewCountInt": 231, "commentCountInt": null, "publishDate": "2026-03-01T14:00:18-08:00", "durationMs": 57000, "channel": {"id": "UCpezCSL_alOva5WKM1MXH2Q", "handle": "nationalproductreview2267", "title": "National Product Review"}}"#);
    let got = normalize(&v, &parsed(Platform::YouTube, "UZvJzKNJ3dY"), "https://x", "id".into(), 1);

    assert_eq!(got.title.as_deref(), Some("Braun Whole Range 2026 – National Product Review"));
    assert_eq!(got.author_handle.as_deref(), Some("nationalproductreview2267"));
    assert_eq!(got.author_name.as_deref(), Some("National Product Review"));
    assert_eq!(got.duration_sec, Some(57), "毫秒要换算成秒");
    assert_eq!(got.view_count, Some(231));
    assert_eq!(got.like_count, Some(1));
    assert_eq!(got.comment_count, None, "SC 实测这个字段可能是 null");
    assert_eq!(got.published_at, Some(1772402418));
}

#[test]
fn normalizes_real_tiktok_response() {
    let v = j(r#"{"success": true, "aweme_detail": {"aweme_id": "7660954507282533662", "desc": "Mek me tell yuh dis", "create_time": 1783704990, "author": {"unique_id": "artistcraigkirkland", "nickname": "Amaziyah The Great Music"}, "statistics": {"play_count": 77, "digg_count": 9, "comment_count": 0}, "video": {"duration": 25067}}}"#);
    let got = normalize(&v, &parsed(Platform::TikTok, "7660954507282533662"), "https://x", "id".into(), 1);

    assert_eq!(got.title.as_deref(), Some("Mek me tell yuh dis"));
    assert_eq!(got.author_handle.as_deref(), Some("artistcraigkirkland"));
    assert_eq!(got.author_name.as_deref(), Some("Amaziyah The Great Music"));
    assert_eq!(got.duration_sec, Some(25), "25067ms → 25s");
    assert_eq!(got.published_at, Some(1783704990), "create_time 本来就是秒，不该再解析");
    assert_eq!(got.view_count, Some(77));
    assert_eq!(got.like_count, Some(9), "TikTok 的点赞是 digg_count");
}

#[test]
fn extracts_transcript_from_only_text_field() {
    let v = j(r#"{"transcript_only_text": "  We're no strangers to love  ", "language": "English"}"#);
    let t = extract_transcript(&v, "vid-1", 1).expect("应该有文字稿");
    assert_eq!(t.text, "We're no strangers to love", "首尾空白要去掉");
    assert_eq!(t.lang.as_deref(), Some("English"));
    assert_eq!(t.source, "sc");
}

#[test]
fn falls_back_to_joining_transcript_segments() {
    let v = j(r#"{"transcript": [{"text": "hello"}, {"text": "world"}]}"#);
    let t = extract_transcript(&v, "vid-1", 1).expect("应该能从分段拼出来");
    assert_eq!(t.text, "hello world");
}

#[test]
fn empty_transcript_is_none_not_empty_string() {
    assert!(extract_transcript(&j(r#"{"transcript_only_text": "   "}"#), "v", 1).is_none());
    assert!(extract_transcript(&j(r#"{}"#), "v", 1).is_none());
}

#[test]
fn parses_tiktok_webvtt_transcript() {
    let v = j(r#"{"transcript": "WEBVTT\n\n\n00:00:00.000 --> 00:00:01.460\nWell, if you know Tom,\n\n00:00:01.461 --> 00:00:04.181\nyou must know Jerry."}"#);
    let t = extract_transcript(&v, "vid-1", 1).expect("WEBVTT 也要能解析出文字稿");
    assert_eq!(t.text, "Well, if you know Tom, you must know Jerry.");
    assert!(!t.text.contains("-->"), "时间戳必须被剥掉");
    assert!(!t.text.contains("WEBVTT"), "头部标记必须被剥掉");
}

#[test]
fn strips_webvtt_cue_numbers() {
    let vtt = "WEBVTT\n\n1\n00:00:00.000 --> 00:00:01.000\n第一句\n\n2\n00:00:01.000 --> 00:00:02.000\n第二句";
    assert_eq!(strip_webvtt(vtt), "第一句 第二句", "序号行也要丢掉");
}

#[test]
fn parses_instagram_plural_transcripts_field() {
    let v = j(r#"{"transcripts": [{"id": "1", "shortcode": "ABC", "text": "先把锅烧热，然后下油。"}]}"#);
    let t = extract_transcript(&v, "vid-1", 1).expect("IG 的复数字段也要认");
    assert_eq!(t.text, "先把锅烧热，然后下油。");
}

#[test]
fn rejects_ai_transcription_failure_message() {
    let v = j(r#"{"transcripts": [{"text": "Please provide the audio or video file you would like me to transcribe."}]}"#);
    assert!(
        extract_transcript(&v, "vid-1", 1).is_none(),
        "AI 转录失败的回复必须当作「没有转录」"
    );
}

#[test]
fn failure_detection_does_not_eat_real_content() {
    let v = j(r#"{"transcript_only_text": "今天教大家怎么给视频配音。首先打开软件，导入 audio 文件，调整音量。然后我们来看第二步，这一步很关键，很多人都做错了。记得把降噪打开，不然背景里的杂音会很明显。最后导出的时候选择高质量。"}"#);
    assert!(
        extract_transcript(&v, "vid-1", 1).is_some(),
        "正常内容不能被误判成失败"
    );
}

#[test]
fn long_text_is_never_treated_as_failure() {
    let long = format!("please provide the audio{}", "内容".repeat(200));
    assert!(!looks_like_transcription_failure(&long));
}

#[test]
fn extracts_real_youtube_comments() {
    let v = j(r#"{"comments": [{"id": "Ugzge340dBgB75hWBm54AaABAg", "content": "can confirm: he never gave us up", "publishedTime": "2025-08-17T06:41:03.513Z", "author": {"name": "@YouTube"}, "engagement": {"likes": 301000, "replies": 962}}]}"#);
    let cs = extract_comments(&v, "vid-1");
    assert_eq!(cs.len(), 1);
    assert_eq!(cs[0].text, "can confirm: he never gave us up");
    assert_eq!(cs[0].author.as_deref(), Some("@YouTube"));
    assert_eq!(cs[0].like_count, Some(301000));
    assert_eq!(cs[0].published_at, Some(1755412863));
}

#[test]
fn comments_are_capped_and_blanks_dropped() {
    let mut list: Vec<Json> = (0..50)
        .map(|i| object(vec![entry("content", string(&format!("c{i}")))]))
        .collect();
    list.push(j(r#"{"content": "   "}"#));
    let v = object(vec![entry("comments", array(list))]);
    let cs = extract_comments(&v, "vid-1");
    assert_eq!(cs.len(), COMMENT_LIMIT, "应该截断到 {COMMENT_LIMIT} 条");
}

#[test]
fn missing_comments_field_yields_empty_not_panic() {
    assert!(extract_comments(&j(r#"{}"#), "v").is_empty());
}

#[test]
fn normalizes_an_instagram_post() {
    let v = j(r#"{"data": {"xdt_shortcode_media": {
        "shortcode": "ABC",
        "taken_at_timestamp": 1700000000,
        "video_duration": 65.9,
        "video_view_count": 10,
        "owner": {"username": "someone", "full_name": "Some One"}
    }}}"#);
    let got = normalize(&v, &parsed(Platform::Instagram, "ABC"), "https://x", "id".into(), 7);
    assert_eq!(got.platform, Platform::Instagram);
    assert_eq!(got.native_id, "ABC");
    assert_eq!(got.id, "id");
    assert_eq!(got.fetched_at, 7);
    assert_eq!(got.author_handle.as_deref(), Some("someone"));
    assert_eq!(got.published_at, Some(1_700_000_000));
}

#[test]
fn a_long_text_is_cut_by_characters() {
    assert_eq!(truncate("一二三四", 2), "一二…");
    assert_eq!(truncate("一二", 2), "一二");
}

fn ask(p: Progress) -> Fetching {
    match p {
        Progress::Ask(f) => f,
        other => panic!("{other:?}"),
    }
}

const GARBAGE: &str =
    r#"{"transcripts": [{"text": "Please provide the audio or video file you would like me to transcribe."}]}"#;

#[test]
fn a_video_is_fetched_from_three_endpoints() {
    let f = Fetching::start(parsed(Platform::TikTok, "1"), "https://x");
    assert_eq!(f.endpoint(), "/v2/tiktok/video");
    let f = ask(f.advance(Ok(j(r#"{"aweme_detail": {"desc": "文案"}}"#))));
    let f = ask(f.advance(Ok(j(r#"{"transcript": "字幕"}"#))));
    let done = match f.advance(Ok(j(r#"{"comments": [{"content": "好"}]}"#))) {
        Progress::Done(d) => d,
        other => panic!("{other:?}"),
    };
    assert_eq!(done.video.title.as_deref(), Some("文案"));
    assert_eq!(done.transcript.as_ref().unwrap().text, "字幕");
    assert_eq!(done.transcript.as_ref().unwrap().video_id, done.video.id);
    assert_eq!(done.comments.len(), 1);
    assert_eq!(done.artifacts.len(), 3);
    for k in [ArtifactKind::Detail, ArtifactKind::Transcript, ArtifactKind::Comments] {
        assert_eq!(done.status_of(k), FetchStatus::Success);
    }
}

#[test]
fn a_failed_transcription_is_tried_once_more_and_no_more() {
    let f = Fetching::start(parsed(Platform::Instagram, "1"), "https://x");
    let f = ask(f.advance(Ok(j("{}"))));
    let first = f.endpoint();
    let f = ask(f.advance(Ok(j(GARBAGE))));
    assert_eq!(f.endpoint(), first, "再问一次");
    let f = ask(f.advance(Ok(j(GARBAGE))));
    assert_ne!(f.endpoint(), first, "不再问第三次");
    let done = match f.advance(Err(ClipKnowError::Http("断了".into()))) {
        Progress::Done(d) => d,
        other => panic!("{other:?}"),
    };
    assert_eq!(done.status_of(ArtifactKind::Transcript), FetchStatus::Failed);
    assert_eq!(done.status_of(ArtifactKind::Comments), FetchStatus::Failed);
    assert_eq!(done.artifacts[2].error.as_deref(), Some("网络错误: 断了"));
}

#[test]
fn without_the_detail_there_is_nothing_to_store() {
    let f = Fetching::start(parsed(Platform::YouTube, "1"), "https://x");
    match f.advance(Err(ClipKnowError::Http("断了".into()))) {
        Progress::Failed(e) => assert_eq!(e.message(), "网络错误: 断了"),
        other => panic!("{other:?}"),
    }
}

#[test]
fn a_refresh_is_the_detail_alone() {
    let f = Fetching::start(parsed(Platform::TikTok, "1"), "https://x");
    let got = f.refreshed(Ok(j(r#"{"aweme_detail": {"desc": "文案"}}"#))).unwrap();
    assert_eq!(got.video.title.as_deref(), Some("文案"));
    assert_eq!(got.video.native_id, "1");
    assert!(got.transcript.is_none());
    assert!(got.comments.is_empty());
    assert_eq!(got.artifacts.len(), 1);
    assert_eq!(got.artifacts[0].kind, ArtifactKind::Detail);
    assert_eq!(got.artifacts[0].raw_json.as_deref(), Some(r#"{"aweme_detail":{"desc":"文案"}}"#));

    let f = Fetching::start(parsed(Platform::TikTok, "1"), "https://x");
    let e = f.refreshed(Err(ClipKnowError::Http("断了".into()))).unwrap_err();
    assert_eq!(e.message(), "网络错误: 断了");
}

#[test]
fn a_bad_status_is_an_error_with_its_reason() {
    assert!(check_reply("/v1/x", true, "200 OK", j(r#"{"success": true}"#)).is_ok());
    let e = check_reply("/v1/x", false, "402 Payment Required", j(r#"{"message":"no credits"}"#));
    assert_eq!(
        e.unwrap_err().message(),
        r#"抓取失败 (/v1/x): HTTP 402 Payment Required: {"message":"no credits"}"#
    );
    let e = check_reply("/v1/x", true, "200 OK", j(r#"{"success": false, "error": "not found"}"#));
    assert_eq!(e.unwrap_err().message(), "抓取失败 (/v1/x): not found");
}
