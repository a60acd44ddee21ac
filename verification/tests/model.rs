//! Times, identifiers and names.

use clipknow::content::model::{
    new_id, now_ts, parse_iso8601, Artifact, ArtifactKind, FetchStatus, FetchedVideo, ItemKind, TurnStatus,
    Video,
};
use clipknow::ingest::url::Platform;

#[test]
fn parses_offset_format() {
    let ts = parse_iso8601("2026-03-01T14:00:18-08:00").expect("应该能解析");
    assert_eq!(ts, 1772402418);
}

#[test]
fn parses_utc_millis_format() {
    let ts = parse_iso8601("2025-08-17T06:41:03.513Z").expect("应该能解析");
    assert_eq!(ts, 1755412863);
}

#[test]
fn returns_none_on_garbage_instead_of_failing() {
    assert_eq!(parse_iso8601("3 weeks ago"), None);
    assert_eq!(parse_iso8601(""), None);
}

#[test]
fn ids_are_unique_and_time_ordered() {
    let a = new_id();
    let b = new_id();
    assert_ne!(a, b, "两次生成的 id 不能相同");
    assert!(a < b, "v7 应该按时间有序: {a} vs {b}");
}

#[test]
fn the_clock_is_past_the_year_2020() {
    assert!(now_ts() > 1_577_836_800);
}

#[test]
fn names_are_read_back() {
    for k in [ArtifactKind::Detail, ArtifactKind::Transcript, ArtifactKind::Comments] {
        assert_eq!(ArtifactKind::from_db(k.as_str()), Some(k));
    }
    assert_eq!(ArtifactKind::from_db("x"), None);
    for k in [
        ItemKind::UserMessage,
        ItemKind::AssistantMessage,
        ItemKind::FunctionCall,
        ItemKind::FunctionCallOutput,
    ] {
        assert_eq!(ItemKind::from_db(k.as_str()), Some(k));
    }
    assert_eq!(ItemKind::from_db("message"), None);
    for s in [FetchStatus::Success, FetchStatus::Unavailable, FetchStatus::Failed] {
        assert_eq!(FetchStatus::from_db(s.as_str()), s);
    }
    assert_eq!(FetchStatus::from_db("???"), FetchStatus::Failed);
    assert_eq!(TurnStatus::Done.as_str(), "done");
    assert_eq!(TurnStatus::Failed("x".into()).as_str(), "failed");
}

#[test]
fn a_call_without_a_record_counts_as_failed() {
    let f = FetchedVideo {
        video: Video {
            id: "v".into(),
            platform: Platform::TikTok,
            native_id: "1".into(),
            url: "u".into(),
            title: None,
            author_handle: None,
            author_name: None,
            duration_sec: None,
            published_at: None,
            view_count: None,
            like_count: None,
            comment_count: None,
            description: None,
            fetched_at: 0,
        },
        transcript: None,
        comments: vec![],
        artifacts: vec![
            Artifact::ok(ArtifactKind::Detail, "{}".into()),
            Artifact::unavailable(ArtifactKind::Comments, "{}".into()),
        ],
    };
    assert_eq!(f.status_of(ArtifactKind::Detail), FetchStatus::Success);
    assert_eq!(f.status_of(ArtifactKind::Comments), FetchStatus::Unavailable);
    assert_eq!(f.status_of(ArtifactKind::Transcript), FetchStatus::Failed);
    assert!(FetchStatus::Unavailable.is_conclusive());
    assert!(!FetchStatus::Failed.is_conclusive());
}
