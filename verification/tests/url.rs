//! Links to videos.

use clipknow::error::ClipKnowError;
use clipknow::ingest::url::{parse, segment_after, Platform};

fn assert_parses(url: &str, platform: Platform, id: &str) {
    let got = parse(url).unwrap_or_else(|e| panic!("解析 {url} 失败: {}", e.message()));
    assert_eq!(got.platform, platform, "平台判断错了: {url}");
    assert_eq!(got.native_id, id, "视频 ID 抠错了: {url}");
}

#[test]
fn youtube_watch_url() {
    assert_parses(
        "https://www.youtube.com/watch?v=UZvJzKNJ3dY",
        Platform::YouTube,
        "UZvJzKNJ3dY",
    );
}

#[test]
fn youtube_watch_url_with_extra_params() {
    assert_parses(
        "https://www.youtube.com/watch?v=dQw4w9WgXcQ&t=42s",
        Platform::YouTube,
        "dQw4w9WgXcQ",
    );
}

#[test]
fn youtube_short_link() {
    assert_parses("https://youtu.be/dQw4w9WgXcQ", Platform::YouTube, "dQw4w9WgXcQ");
}

#[test]
fn youtube_shorts() {
    assert_parses(
        "https://www.youtube.com/shorts/abc123XYZ",
        Platform::YouTube,
        "abc123XYZ",
    );
}

#[test]
fn tiktok_standard_url() {
    assert_parses(
        "https://www.tiktok.com/@artistcraigkirkland/video/7660954507282533662",
        Platform::TikTok,
        "7660954507282533662",
    );
}

#[test]
fn tiktok_short_link() {
    assert_parses("https://vm.tiktok.com/ZMh1a2b3c/", Platform::TikTok, "ZMh1a2b3c");
}

#[test]
fn instagram_post() {
    assert_parses("https://www.instagram.com/p/C1a2B3c4D5e/", Platform::Instagram, "C1a2B3c4D5e");
}

#[test]
fn instagram_reel() {
    assert_parses(
        "https://www.instagram.com/reel/C9z8Y7x6W5v/",
        Platform::Instagram,
        "C9z8Y7x6W5v",
    );
}

#[test]
fn instagram_reels_plural() {
    assert_parses(
        "https://www.instagram.com/reels/AAbbCCdd11/",
        Platform::Instagram,
        "AAbbCCdd11",
    );
}

#[test]
fn accepts_url_without_scheme() {
    assert_parses("youtube.com/watch?v=abc", Platform::YouTube, "abc");
}

#[test]
fn rejects_unknown_platform() {
    let err = parse("https://www.bilibili.com/video/BV1xx").unwrap_err();
    assert!(
        matches!(err, ClipKnowError::UnsupportedUrl(_)),
        "应该报 UnsupportedUrl，实际是: {}",
        err.message()
    );
}

#[test]
fn rejects_youtube_url_without_video_id() {
    let err = parse("https://www.youtube.com/feed/subscriptions").unwrap_err();
    assert!(
        matches!(err, ClipKnowError::NoVideoId(_)),
        "应该报 NoVideoId，实际是: {}",
        err.message()
    );
}

#[test]
fn platform_string_roundtrip() {
    for p in [Platform::YouTube, Platform::TikTok, Platform::Instagram] {
        assert_eq!(Platform::from_str(p.as_str()), Some(p));
    }
}

#[test]
fn a_link_means_the_same_with_and_without_its_scheme() {
    for rest in ["youtube.com/watch?v=abc", "tiktok.com/@a/video/7", "instagram.com/p/C1/"] {
        let bare = parse(rest).unwrap();
        for start in ["https://", "http://", "https://www.", "  https://"] {
            let full = parse(&format!("{start}{rest}")).unwrap();
            assert_eq!(full.platform, bare.platform, "{start}{rest}");
            assert_eq!(full.native_id, bare.native_id, "{start}{rest}");
        }
    }
}

#[test]
fn a_segment_ends_at_what_ends_it() {
    assert_eq!(segment_after("a/video/123?x=1", "/video/").as_deref(), Some("123"));
    assert_eq!(segment_after("a/video/", "/video/"), None);
    assert_eq!(segment_after("a/b/c", "/video/"), None);
}

#[test]
fn an_unknown_link_says_what_is_supported() {
    let e = parse("https://www.bilibili.com/video/BV1xx").unwrap_err();
    assert_eq!(
        e.message(),
        "无法识别的链接: https://www.bilibili.com/video/BV1xx\n目前只支持 YouTube / TikTok / Instagram"
    );
    let e = parse("https://www.youtube.com/feed/subscriptions").unwrap_err();
    assert_eq!(
        e.message(),
        "链接里找不到视频 ID: https://www.youtube.com/feed/subscriptions"
    );
}
