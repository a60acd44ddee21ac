//! What the scraping service finds.

use clipknow::ingest::discovery::{
    cursor_param, first_number, next_cursor, no_route, parse_creator, parse_play_addr, parse_search_creators,
    parse_search_videos, route, url_still_valid, Endpoint, Route,
};
use clipknow::ingest::url::Platform;
use clipknow::json::Json;

fn j(s: &str) -> Json {
    Json::parse(s).unwrap()
}

#[test]
fn unknown_shape_returns_empty_instead_of_panicking() {
    let out = parse_search_videos(Platform::TikTok, &j(r#"{"nothing": true}"#));
    assert!(out.is_empty());
}

fn r(ep: Endpoint, p: Platform) -> Route {
    route(ep, p, "X").unwrap_or_else(|| panic!("{ep:?}/{} 没有路由", p.as_str()))
}

fn param(rt: &Route, k: &str) -> Option<String> {
    rt.params
        .iter()
        .find(|(n, _)| *n == k)
        .map(|(_, v)| v.clone())
}

#[test]
fn youtube_search_uses_one_endpoint_with_a_type_switch() {
    let v = r(Endpoint::SearchVideos, Platform::YouTube);
    let c = r(Endpoint::SearchCreators, Platform::YouTube);
    assert_eq!(v.path, "/v1/youtube/search");
    assert_eq!(c.path, "/v1/youtube/search");
    assert_eq!(param(&v, "type").as_deref(), Some("videos"));
    assert_eq!(param(&c, "type").as_deref(), Some("channels"));
}

#[test]
fn search_video_paths_match_what_was_verified() {
    assert_eq!(
        r(Endpoint::SearchVideos, Platform::TikTok).path,
        "/v1/tiktok/search/keyword"
    );
}

#[test]
fn instagram_video_search_has_no_route_because_the_endpoint_is_down() {
    assert!(route(Endpoint::SearchVideos, Platform::Instagram, "x").is_none());
}

#[test]
fn search_creator_paths_match_what_was_verified() {
    assert_eq!(
        r(Endpoint::SearchCreators, Platform::TikTok).path,
        "/v1/tiktok/search/users"
    );
    assert_eq!(
        r(Endpoint::SearchCreators, Platform::Instagram).path,
        "/v1/instagram/search/profiles",
        "试错过 /v1/instagram/profile/search 和 /v1/instagram/search/users，都是 Not Found"
    );
}

#[test]
fn get_creator_paths_match_what_was_verified() {
    assert_eq!(
        r(Endpoint::GetCreator, Platform::YouTube).path,
        "/v1/youtube/channel"
    );
    assert_eq!(
        r(Endpoint::GetCreator, Platform::TikTok).path,
        "/v1/tiktok/profile"
    );
    assert_eq!(
        r(Endpoint::GetCreator, Platform::Instagram).path,
        "/v1/instagram/profile"
    );
}

#[test]
fn get_creator_videos_paths_match_what_was_verified() {
    assert_eq!(
        r(Endpoint::GetCreatorVideos, Platform::YouTube).path,
        "/v1/youtube/channel-videos"
    );
    assert_eq!(
        r(Endpoint::GetCreatorVideos, Platform::TikTok).path,
        "/v3/tiktok/profile/videos",
        "是 v3 不是 v1"
    );
    assert_eq!(
        r(Endpoint::GetCreatorVideos, Platform::Instagram).path,
        "/v1/instagram/user/reels"
    );
}

#[test]
fn search_endpoints_send_query_and_creator_endpoints_send_handle() {
    assert_eq!(
        param(&r(Endpoint::SearchVideos, Platform::TikTok), "query").as_deref(),
        Some("X")
    );
    assert_eq!(
        param(&r(Endpoint::GetCreator, Platform::TikTok), "handle").as_deref(),
        Some("X")
    );
    assert!(param(&r(Endpoint::GetCreator, Platform::TikTok), "query").is_none());
}

#[test]
fn youtube_search_always_sets_include_extras() {
    let v = r(Endpoint::SearchVideos, Platform::YouTube);
    assert_eq!(param(&v, "includeExtras").as_deref(), Some("true"));
}

#[test]
fn a_youtube_search_gives_summaries() {
    let v = j(r#"{"videos": [{
        "id": "rCJX4pPz1_A",
        "url": "https://www.youtube.com/watch?v=rCJX4pPz1_A",
        "title": "生肉",
        "viewCountInt": 4780866,
        "publishedTime": "2026-07-18T00:00:00Z",
        "publishDate": "2026-06-29T00:00:00Z",
        "channel": {"id": "UC1", "handle": "laogao", "title": "老高與小茉 Mr & Mrs Gao"}
    }]}"#);
    let out = parse_search_videos(Platform::YouTube, &v);
    assert_eq!(out.len(), 1);
    assert_eq!(out[0].native_id, "rCJX4pPz1_A");
    assert!(out[0].url.contains("rCJX4pPz1_A"));
    assert_eq!(out[0].channel_name.as_deref(), Some("老高與小茉 Mr & Mrs Gao"));
    assert_eq!(out[0].channel_handle.as_deref(), Some("laogao"));
    assert_eq!(out[0].view_count, Some(4_780_866));
    assert_eq!(out[0].published_at, Some(1_782_691_200), "用 publishDate，不用 publishedTime");
}

#[test]
fn tiktok_has_two_shapes_for_a_list_of_videos() {
    let item = r#"{
        "aweme_id": "7673502248126663954",
        "desc": "文案",
        "create_time": 1786626474,
        "author": {"uid": "7644867114855760914", "unique_id": "unipopsci", "nickname": "科普新视野"},
        "statistics": {"play_count": 96872, "digg_count": 980, "comment_count": 20},
        "video": {"duration": 491519}
    }"#;
    let searched = j(&format!(r#"{{"search_item_list": [{{"aweme_info": {item}}}]}}"#));
    let listed = j(&format!(r#"{{"aweme_list": [{item}]}}"#));
    for v in [&searched, &listed] {
        let out = parse_search_videos(Platform::TikTok, v);
        assert_eq!(out.len(), 1);
        assert_eq!(out[0].native_id, "7673502248126663954");
        assert_eq!(out[0].title.as_deref(), Some("文案"));
        assert_eq!(out[0].channel_id.as_deref(), Some("7644867114855760914"), "用 uid");
        assert_eq!(out[0].channel_handle.as_deref(), Some("unipopsci"));
        assert_eq!(out[0].like_count, Some(980));
        assert_eq!(out[0].duration_sec, Some(491), "毫秒");
        assert_eq!(out[0].published_at, Some(1_786_626_474), "本来就是秒");
    }
}

#[test]
fn instagram_is_known_by_its_code_and_runs_for_a_fraction() {
    let v = j(r#"{"items": [{"media": {
        "code": "DWe9Hq_EgrR",
        "pk": "3863794338359282385",
        "taken_at": 1774820250,
        "video_duration": 65.33899688720703,
        "play_count": 37851,
        "like_count": 833,
        "user": {"pk": "2093326268", "username": "science", "full_name": "Science"}
    }}]}"#);
    let out = parse_search_videos(Platform::Instagram, &v);
    assert_eq!(out.len(), 1);
    assert_eq!(out[0].native_id, "DWe9Hq_EgrR");
    assert_eq!(out[0].duration_sec, Some(65));
    assert_eq!(out[0].channel_id.as_deref(), Some("2093326268"));
    assert_eq!(out[0].published_at, Some(1_774_820_250));
}

#[test]
fn handles_come_without_the_sign_before_them() {
    let c = parse_creator(
        Platform::YouTube,
        &j(r#"{"channelId": "UC1", "name": "Hafu Go", "handle": "@hafu", "subscriberCount": 19100000, "videoCountText": "507 videos"}"#),
    )
    .unwrap();
    assert_eq!(c.handle.as_deref(), Some("hafu"));
    assert_eq!(c.follower_count, Some(19_100_000));
    assert_eq!(c.video_count, Some(507));
    let listed = parse_search_creators(
        Platform::YouTube,
        &j(r#"{"channels": [{"id": "UC2", "channelName": "冷科普", "handle": "leng", "subscriberCountInt": 54500}]}"#),
    );
    assert_eq!(listed.len(), 1);
    assert_eq!(listed[0].handle.as_deref(), Some("leng"));
    assert_eq!(listed[0].follower_count, Some(54_500));
    assert!(parse_creator(Platform::YouTube, &j("{}")).is_none());
}

#[test]
fn tiktok_profiles_keep_their_numbers_beside_the_user() {
    let c = parse_creator(
        Platform::TikTok,
        &j(r#"{"user": {"id": "6600107989528985606", "uniqueId": "fallontonight"}, "stats": {"followerCount": 29900000, "videoCount": 5525}}"#),
    )
    .unwrap();
    assert_eq!(c.handle.as_deref(), Some("fallontonight"));
    assert_eq!(c.follower_count, Some(29_900_000));
    assert_eq!(c.video_count, Some(5_525));
}

#[test]
fn a_number_is_found_in_a_text() {
    assert_eq!(first_number("507 videos"), Some(507));
    assert_eq!(first_number("1,234 videos"), Some(1234));
    assert_eq!(first_number("none"), None);
}

#[test]
fn what_cannot_be_asked_says_so() {
    assert_eq!(
        no_route(Endpoint::SearchVideos, Platform::Instagram).message(),
        "抓取失败 (instagram): instagram 上没有可用的 SearchVideos 端点（SC 侧当前不支持）"
    );
}

#[test]
fn every_platform_has_its_own_cursor() {
    assert_eq!(cursor_param(Platform::YouTube), "continuationToken");
    assert_eq!(cursor_param(Platform::TikTok), "max_cursor");
    assert_eq!(cursor_param(Platform::Instagram), "max_id");
    assert_eq!(
        next_cursor(Platform::YouTube, &j(r#"{"continuationToken": "tok"}"#)).as_deref(),
        Some("tok")
    );
    assert_eq!(
        next_cursor(Platform::TikTok, &j(r#"{"max_cursor": 17}"#)).as_deref(),
        Some("17")
    );
    assert_eq!(
        next_cursor(Platform::Instagram, &j(r#"{"paging_info": {"max_id": "Q"}}"#)).as_deref(),
        Some("Q")
    );
    assert_eq!(next_cursor(Platform::YouTube, &j("{}")), None);
}

#[test]
fn an_address_works_until_the_time_in_it() {
    let raw = r#"{"aweme_detail":{"video":{"play_addr":{"url_list":["https://v45.tiktokcdn-eu.com/hash/6a000000/video/tos/x/y/"]}}}}"#;
    let a = parse_play_addr(Platform::TikTok, raw).unwrap();
    assert!(url_still_valid(&a, 0x69ff_0000));
    assert!(!url_still_valid(&a, 0x6a00_0001));
    assert_eq!(parse_play_addr(Platform::YouTube, raw), None);
    assert_eq!(parse_play_addr(Platform::TikTok, "not json"), None);
    assert_eq!(
        parse_play_addr(Platform::Instagram, r#"{"data":{"xdt_shortcode_media":{"video_url":"https://cdn/x"}}}"#)
            .as_deref(),
        Some("https://cdn/x")
    );
}
