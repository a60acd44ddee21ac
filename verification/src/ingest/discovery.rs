//! Searching: which endpoint to ask, and what its answers mean.
//!
//! Every platform and every endpoint has its own names and its own nesting.
//! What comes out is the same small records for all of them: an answer of a
//! few megabytes is no reading for a model.

use vstd::prelude::*;
use crate::content::model;
use crate::content::model::{Creator, CreatorView, FetchedVideo, SummaryView, VideoSummary, parse_iso8601};
use crate::error::{ClipKnowError, Result};
use crate::ingest::scrapecreators;
use crate::ingest::scrapecreators::{
    dig, first_present, pick_i64, pick_str, pick_whole, to_seconds, truncate_opt,
};
use crate::ingest::url;
use crate::ingest::url::{ParsedUrl, Platform};
use crate::json;
use crate::json::{Json, Tree};
use crate::outside;
use crate::text;
use crate::text::{i64_from, parts, to_chars, without_leading};

verus! {

/// A description is cut to this many characters.
pub const DESC_LIMIT_CHARS: usize = 120;

// ---------------------------------------------------------------------------
// Videos
// ---------------------------------------------------------------------------

/// What a list of videos can be called in an answer.
pub open spec fn video_list_names(p: Platform) -> Seq<Seq<char>> {
    match p {
        Platform::YouTube => seq!["videos"@],
        Platform::TikTok => seq!["search_item_list"@, "aweme_list"@],
        Platform::Instagram => seq!["reels"@, "items"@],
    }
}

/// What a list of creators can be called in an answer.
pub open spec fn creator_list_names(p: Platform) -> Seq<Seq<char>> {
    match p {
        Platform::YouTube => seq!["channels"@],
        Platform::TikTok => seq!["user_list"@],
        Platform::Instagram => seq!["profiles"@, "users"@],
    }
}

/// The first list, from the name `k` on, that an answer has.
pub open spec fn listed_from(t: Tree, names: Seq<Seq<char>>, k: int) -> Option<Seq<Tree>>
    decreases names.len() - k,
{
    if k < 0 || k >= names.len() {
        None
    } else {
        match json::then_array(json::field(t, names[k])) {
            Some(a) => Some(a),
            None => listed_from(t, names, k + 1),
        }
    }
}

/// The first list that an answer has; an empty one where it has none.
pub open spec fn listed(t: Tree, names: Seq<Seq<char>>) -> Seq<Tree> {
    match listed_from(t, names, 0) {
        Some(a) => a,
        None => seq![],
    }
}

fn video_list_key(p: Platform) -> (r: Vec<&'static str>)
    ensures
        text::strs(r@) == video_list_names(p),
{
    let r = match p {
        Platform::YouTube => vec!["videos"],
        Platform::TikTok => vec!["search_item_list", "aweme_list"],
        Platform::Instagram => vec!["reels", "items"],
    };
    assert(text::strs(r@) =~= video_list_names(p));
    r
}

fn creator_list_key(p: Platform) -> (r: Vec<&'static str>)
    ensures
        text::strs(r@) == creator_list_names(p),
{
    let r = match p {
        Platform::YouTube => vec!["channels"],
        Platform::TikTok => vec!["user_list"],
        Platform::Instagram => vec!["profiles", "users"],
    };
    assert(text::strs(r@) =~= creator_list_names(p));
    r
}

fn find_list<'a>(body: &'a Json, names: &Vec<&'static str>) -> (r: Option<&'a Vec<Json>>)
    ensures
        match r {
            Some(a) => listed_from(body@, text::strs(names@), 0) == Some(json::trees(a@)),
            None => listed_from(body@, text::strs(names@), 0) is None,
        },
{
    let mut k: usize = 0;
    while k < names.len()
        invariant
            k <= names@.len(),
            listed_from(body@, text::strs(names@), 0) == listed_from(
                body@,
                text::strs(names@),
                k as int,
            ),
        decreases names@.len() - k,
    {
        assert(text::strs(names@)[k as int] == names@[k as int]@);
        if let Some(j) = body.get(names[k]) {
            if let Some(a) = j.as_array() {
                return Some(a);
            }
        }
        k = k + 1;
    }
    None
}

/// What YouTube says of a video in a list, published at `published`.
pub open spec fn youtube_view(t: Tree, published: Option<int>) -> Option<SummaryView> {
    match scrapecreators::picked_text(t, ["id"]@) {
        Some(native_id) => Some(
            SummaryView {
                platform: Platform::YouTube,
                native_id,
                url: match scrapecreators::picked_text(t, ["url"]@) {
                    Some(u) => u,
                    None => "https://www.youtube.com/watch?v="@ + native_id,
                },
                title: scrapecreators::picked_text(t, ["title"]@),
                description: scrapecreators::opt_shortened(
                    scrapecreators::picked_text(t, ["description"]@),
                    DESC_LIMIT_CHARS as int,
                ),
                channel_name: scrapecreators::picked_text(t, ["channel.title", "channel.name"]@),
                channel_handle: scrapecreators::picked_text(t, ["channel.handle"]@),
                channel_id: scrapecreators::picked_text(t, ["channel.id", "channelId"]@),
                view_count: scrapecreators::picked_int(t, ["viewCountInt"]@),
                like_count: scrapecreators::picked_int(t, ["likeCountInt"]@),
                comment_count: scrapecreators::picked_int(t, ["commentCountInt"]@),
                duration_sec: scrapecreators::picked_int(t, ["lengthSeconds"]@),
                published_at: published,
            },
        ),
        None => None,
    }
}

/// The moment at which YouTube says that a video was published. It also gives
/// one that is guessed from words such as "1 month ago"; that one is not used.
pub open spec fn publish_date(t: Tree) -> Option<int> {
    scrapecreators::moment(json::then_str(scrapecreators::dug(t, "publishDate"@)))
}

/// What TikTok says of a video in a list. One endpoint wraps it once more than
/// the other.
pub open spec fn tiktok_view(t: Tree) -> Option<SummaryView> {
    let a = match json::field(t, "aweme_info"@) {
        Some(j) => j,
        None => t,
    };
    let handle = scrapecreators::picked_text(a, ["author.unique_id"]@);
    match scrapecreators::picked_text(a, ["aweme_id"]@) {
        Some(native_id) => Some(
            SummaryView {
                platform: Platform::TikTok,
                native_id,
                url: match scrapecreators::picked_text(a, ["share_url"]@) {
                    Some(u) => u,
                    None => "https://www.tiktok.com/@"@ + (match handle {
                        Some(h) => h,
                        None => "_"@,
                    }) + "/video/"@ + native_id,
                },
                title: scrapecreators::picked_text(a, ["desc"]@),
                description: scrapecreators::opt_shortened(
                    scrapecreators::picked_text(a, ["desc"]@),
                    DESC_LIMIT_CHARS as int,
                ),
                channel_name: scrapecreators::picked_text(a, ["author.nickname"]@),
                channel_handle: handle,
                channel_id: scrapecreators::picked_text(a, ["author.uid"]@),
                view_count: scrapecreators::picked_int(a, ["statistics.play_count"]@),
                like_count: scrapecreators::picked_int(a, ["statistics.digg_count"]@),
                comment_count: scrapecreators::picked_int(a, ["statistics.comment_count"]@),
                duration_sec: scrapecreators::seconds(
                    scrapecreators::picked_int(a, ["video.duration"]@),
                ),
                published_at: scrapecreators::picked_int(a, ["create_time"]@),
            },
        ),
        None => None,
    }
}

/// What Instagram says of a video in a list. The code is the identifier that
/// stands in links.
pub open spec fn instagram_view(t: Tree) -> Option<SummaryView> {
    let m = match json::field(t, "media"@) {
        Some(j) => j,
        None => t,
    };
    let caption = scrapecreators::opt_shortened(
        scrapecreators::picked_text(m, ["caption.text"]@),
        DESC_LIMIT_CHARS as int,
    );
    match scrapecreators::picked_text(m, ["code", "shortcode"]@) {
        Some(native_id) => Some(
            SummaryView {
                platform: Platform::Instagram,
                native_id,
                url: "https://www.instagram.com/reel/"@ + native_id + "/"@,
                title: caption,
                description: caption,
                channel_name: scrapecreators::picked_text(m, ["user.full_name", "owner.full_name"]@),
                channel_handle: scrapecreators::picked_text(m, ["user.username", "owner.username"]@),
                channel_id: scrapecreators::picked_text(m, ["user.pk", "user.id", "owner.id"]@),
                view_count: scrapecreators::picked_int(
                    m,
                    ["play_count", "video_play_count", "view_count"]@,
                ),
                like_count: scrapecreators::picked_int(m, ["like_count"]@),
                comment_count: scrapecreators::picked_int(m, ["comment_count"]@),
                duration_sec: scrapecreators::picked_whole(m, ["video_duration"]@),
                published_at: scrapecreators::picked_int(m, ["taken_at", "taken_at_timestamp"]@),
            },
        ),
        None => None,
    }
}

/// What a platform says of a video in a list; none where the video has no
/// identifier.
pub open spec fn summary_view(p: Platform, t: Tree) -> Option<SummaryView> {
    match p {
        Platform::YouTube => youtube_view(t, publish_date(t)),
        Platform::TikTok => tiktok_view(t),
        Platform::Instagram => instagram_view(t),
    }
}

/// The records of the videos among the first `n` of a list.
pub open spec fn summaries(p: Platform, a: Seq<Tree>, n: int) -> Seq<SummaryView>
    decreases n,
{
    if n <= 0 || n > a.len() {
        seq![]
    } else {
        match summary_view(p, a[n - 1]) {
            Some(v) => summaries(p, a, n - 1).push(v),
            None => summaries(p, a, n - 1),
        }
    }
}

/// The records of the videos in an answer.
pub open spec fn video_list(p: Platform, body: Tree) -> Seq<SummaryView> {
    let a = listed(body, video_list_names(p));
    summaries(p, a, a.len() as int)
}

/// Whether `r` is the record `v`.
pub open spec fn is_summary(r: Option<VideoSummary>, v: Option<SummaryView>) -> bool {
    match r {
        Some(x) => v == Some(x@),
        None => v is None,
    }
}

/// The record of a video on YouTube that was published at `published`.
pub fn youtube_summary(v: &Json, published: Option<i64>) -> (r: Option<VideoSummary>)
    ensures
        is_summary(r, youtube_view(v@, model::opt_int(published))),
{
    let native_id = match pick_str(v, &["id"]) {
        Some(s) => s,
        None => {
            return None;
        },
    };
    let url = match pick_str(v, &["url"]) {
        Some(u) => u,
        None => "https://www.youtube.com/watch?v=".to_owned().concat(native_id.as_str()),
    };
    Some(
        VideoSummary {
            platform: Platform::YouTube,
            native_id,
            url,
            title: pick_str(v, &["title"]),
            description: truncate_opt(pick_str(v, &["description"]), DESC_LIMIT_CHARS),
            channel_name: pick_str(v, &["channel.title", "channel.name"]),
            channel_handle: pick_str(v, &["channel.handle"]),
            channel_id: pick_str(v, &["channel.id", "channelId"]),
            view_count: pick_i64(v, &["viewCountInt"]),
            like_count: pick_i64(v, &["likeCountInt"]),
            comment_count: pick_i64(v, &["commentCountInt"]),
            duration_sec: pick_i64(v, &["lengthSeconds"]),
            published_at: published,
        },
    )
}

/// The record of a video on TikTok.
pub fn tiktok_summary(it: &Json) -> (r: Option<VideoSummary>)
    ensures
        is_summary(r, tiktok_view(it@)),
{
    let a = match it.get("aweme_info") {
        Some(j) => j,
        None => it,
    };
    let native_id = match pick_str(a, &["aweme_id"]) {
        Some(s) => s,
        None => {
            return None;
        },
    };
    let handle = pick_str(a, &["author.unique_id"]);
    let url = match pick_str(a, &["share_url"]) {
        Some(u) => u,
        None => {
            let h = match &handle {
                Some(h) => h.as_str(),
                None => "_",
            };
            "https://www.tiktok.com/@".to_owned().concat(h).concat("/video/").concat(
                native_id.as_str(),
            )
        },
    };
    Some(
        VideoSummary {
            platform: Platform::TikTok,
            native_id,
            url,
            title: pick_str(a, &["desc"]),
            description: truncate_opt(pick_str(a, &["desc"]), DESC_LIMIT_CHARS),
            channel_name: pick_str(a, &["author.nickname"]),
            channel_handle: handle,
            channel_id: pick_str(a, &["author.uid"]),
            view_count: pick_i64(a, &["statistics.play_count"]),
            like_count: pick_i64(a, &["statistics.digg_count"]),
            comment_count: pick_i64(a, &["statistics.comment_count"]),
            duration_sec: to_seconds(pick_i64(a, &["video.duration"])),
            published_at: pick_i64(a, &["create_time"]),
        },
    )
}

/// The record of a video on Instagram.
pub fn instagram_summary(it: &Json) -> (r: Option<VideoSummary>)
    ensures
        is_summary(r, instagram_view(it@)),
{
    let m = match it.get("media") {
        Some(j) => j,
        None => it,
    };
    let native_id = match pick_str(m, &["code", "shortcode"]) {
        Some(s) => s,
        None => {
            return None;
        },
    };
    let url = "https://www.instagram.com/reel/".to_owned().concat(native_id.as_str()).concat("/");
    Some(
        VideoSummary {
            platform: Platform::Instagram,
            native_id,
            url,
            title: truncate_opt(pick_str(m, &["caption.text"]), DESC_LIMIT_CHARS),
            description: truncate_opt(pick_str(m, &["caption.text"]), DESC_LIMIT_CHARS),
            channel_name: pick_str(m, &["user.full_name", "owner.full_name"]),
            channel_handle: pick_str(m, &["user.username", "owner.username"]),
            channel_id: pick_str(m, &["user.pk", "user.id", "owner.id"]),
            view_count: pick_i64(m, &["play_count", "video_play_count", "view_count"]),
            like_count: pick_i64(m, &["like_count"]),
            comment_count: pick_i64(m, &["comment_count"]),
            duration_sec: pick_whole(m, &["video_duration"]),
            published_at: pick_i64(m, &["taken_at", "taken_at_timestamp"]),
        },
    )
}

fn to_summary(p: Platform, it: &Json) -> (r: Option<VideoSummary>)
    ensures
        is_summary(r, summary_view(p, it@)),
{
    match p {
        Platform::YouTube => {
            let said = match dig(it, "publishDate") {
                Some(j) => j.as_str(),
                None => None,
            };
            let published = match said {
                Some(s) => parse_iso8601(s),
                None => None,
            };
            youtube_summary(it, published)
        },
        Platform::TikTok => tiktok_summary(it),
        Platform::Instagram => instagram_summary(it),
    }
}

/// The records of the videos in an answer. A list that is not there is empty.
pub fn parse_search_videos(p: Platform, body: &Json) -> (r: Vec<VideoSummary>)
    ensures
        model::summaries_view(r@) == video_list(p, body@),
{
    let mut out: Vec<VideoSummary> = Vec::new();
    assert(model::summaries_view(out@) =~= seq![]);
    match find_list(body, &video_list_key(p)) {
        None => out,
        Some(a) => {
            let ghost all = json::trees(a@);
            let mut i: usize = 0;
            while i < a.len()
                invariant
                    i <= a@.len(),
                    all == json::trees(a@),
                    model::summaries_view(out@) == summaries(p, all, i as int),
                decreases a@.len() - i,
            {
                assert(all[i as int] == a@[i as int]@);
                let ghost before = model::summaries_view(out@);
                if let Some(v) = to_summary(p, &a[i]) {
                    out.push(v);
                    assert(model::summaries_view(out@) =~= before.push(v@));
                }
                i = i + 1;
            }
            out
        },
    }
}

// ---------------------------------------------------------------------------
// Creators
// ---------------------------------------------------------------------------

/// The first position from `k` on that holds a digit, or the length.
pub open spec fn first_digit(t: Seq<char>, k: int) -> int
    decreases t.len() - k,
{
    if 0 <= k < t.len() && !text::is_digit(t[k]) {
        first_digit(t, k + 1)
    } else {
        k
    }
}

/// The digits from `k` on, up to the first character that is neither a digit
/// nor a comma, without the commas.
pub open spec fn digits_at(t: Seq<char>, k: int) -> Seq<char>
    decreases t.len() - k,
{
    if 0 <= k < t.len() && text::is_digit(t[k]) {
        seq![t[k]] + digits_at(t, k + 1)
    } else if 0 <= k < t.len() && t[k] == ',' {
        digits_at(t, k + 1)
    } else {
        seq![]
    }
}

/// The first number in a text such as `1,507 videos`.
pub open spec fn number_in(t: Seq<char>) -> Option<int> {
    text::read_i64(digits_at(t, first_digit(t, 0)))
}

fn is_digit(c: char) -> (r: bool)
    ensures
        r == text::is_digit(c),
{
    '0' <= c && c <= '9'
}

/// The first number in a text such as `1,507 videos`.
pub fn first_number(s: &str) -> (r: Option<i64>)
    ensures
        model::opt_int(r) == number_in(s@),
{
    let t = to_chars(s);
    let mut i: usize = 0;
    while i < t.len() && !is_digit(t[i])
        invariant
            i <= t@.len(),
            first_digit(t@, 0) == first_digit(t@, i as int),
        decreases t@.len() - i,
    {
        i = i + 1;
    }
    let ghost all = digits_at(t@, i as int);
    let mut digits = String::new();
    assert(digits@ + all =~= all);
    while i < t.len() && (is_digit(t[i]) || t[i] == ',')
        invariant
            i <= t@.len(),
            digits@ + digits_at(t@, i as int) == all,
        decreases t@.len() - i,
    {
        let ghost before = digits@;
        if t[i] != ',' {
            digits.push(t[i]);
            assert(before + (seq![t@[i as int]] + digits_at(t@, i + 1)) =~= digits@ + digits_at(
                t@,
                i + 1,
            ));
        }
        i = i + 1;
    }
    assert(digits@ + digits_at(t@, i as int) =~= digits@);
    i64_from(digits.as_str())
}

/// The creator in an answer. Endpoints put it at different depths.
pub open spec fn creator_node(t: Tree) -> Tree {
    match scrapecreators::present(t, ["user_info", "user", "data.user"]@) {
        Some(j) => j,
        None => t,
    }
}

/// A handle without the `@` that some endpoints put before it.
pub open spec fn bare_handle(h: Option<Seq<char>>) -> Option<Seq<char>> {
    match h {
        Some(s) => Some(text::drop_leading(s, '@')),
        None => None,
    }
}

/// The first of three truth values that is there.
pub open spec fn any_bool(a: Option<bool>, b: Option<bool>, c: Option<bool>) -> Option<bool> {
    match a {
        Some(x) => Some(x),
        None => match b {
            Some(x) => Some(x),
            None => c,
        },
    }
}

/// The number in a text, where there is one.
pub open spec fn opt_number_in(t: Option<Seq<char>>) -> Option<int> {
    match t {
        Some(s) => number_in(s),
        None => None,
    }
}

/// What a platform says of a creator; none where it gives neither an identifier
/// nor a handle.
pub open spec fn creator_view(p: Platform, t: Tree) -> Option<CreatorView> {
    let n = creator_node(t);
    let handle = bare_handle(
        scrapecreators::picked_text(
            n,
            ["handle", "unique_id", "uniqueId", "username", "channel"]@,
        ),
    );
    let id = scrapecreators::picked_text(n, ["id", "channelId", "uid", "pk"]@);
    if id is None && handle is None {
        None
    } else {
        Some(
            CreatorView {
                platform: p,
                id,
                handle,
                name: scrapecreators::picked_text(
                    n,
                    ["channelName", "name", "nickname", "full_name", "title"]@,
                ),
                bio: scrapecreators::opt_shortened(
                    scrapecreators::picked_text(n, ["description", "signature", "biography"]@),
                    DESC_LIMIT_CHARS as int,
                ),
                follower_count: scrapecreators::either(
                    scrapecreators::picked_int(
                        n,
                        [
                            "subscriberCountInt",
                            "subscriberCount",
                            "follower_count",
                            "edge_followed_by.count",
                        ]@,
                    ),
                    scrapecreators::picked_int(
                        t,
                        ["stats.followerCount", "statsV2.followerCount"]@,
                    ),
                ),
                video_count: scrapecreators::either(
                    scrapecreators::picked_int(
                        n,
                        ["media_count", "edge_owner_to_timeline_media.count"]@,
                    ),
                    scrapecreators::either(
                        scrapecreators::picked_int(t, ["stats.videoCount"]@),
                        opt_number_in(scrapecreators::picked_text(n, ["videoCountText"]@)),
                    ),
                ),
                verified: any_bool(
                    json::then_bool(json::field(n, "is_verified"@)),
                    json::then_bool(json::field(n, "isVerified"@)),
                    json::then_bool(json::field(n, "verified"@)),
                ),
            },
        )
    }
}

/// The records of the creators among the first `n` of a list.
pub open spec fn creators(p: Platform, a: Seq<Tree>, n: int) -> Seq<CreatorView>
    decreases n,
{
    if n <= 0 || n > a.len() {
        seq![]
    } else {
        match creator_view(p, a[n - 1]) {
            Some(v) => creators(p, a, n - 1).push(v),
            None => creators(p, a, n - 1),
        }
    }
}

/// The records of the creators in an answer.
pub open spec fn creator_list(p: Platform, body: Tree) -> Seq<CreatorView> {
    let a = listed(body, creator_list_names(p));
    creators(p, a, a.len() as int)
}

fn flag(v: &Json, key: &str) -> (r: Option<bool>)
    ensures
        r == json::then_bool(json::field(v@, key@)),
{
    match v.get(key) {
        Some(j) => j.as_bool(),
        None => None,
    }
}

fn followers(n: &Json, v: &Json) -> (r: Option<i64>)
    ensures
        model::opt_int(r) == scrapecreators::either(
            scrapecreators::picked_int(
                n@,
                [
                    "subscriberCountInt",
                    "subscriberCount",
                    "follower_count",
                    "edge_followed_by.count",
                ]@,
            ),
            scrapecreators::picked_int(v@, ["stats.followerCount", "statsV2.followerCount"]@),
        ),
{
    match pick_i64(
        n,
        &["subscriberCountInt", "subscriberCount", "follower_count", "edge_followed_by.count"],
    ) {
        Some(c) => Some(c),
        None => pick_i64(v, &["stats.followerCount", "statsV2.followerCount"]),
    }
}

fn video_total(n: &Json, v: &Json) -> (r: Option<i64>)
    ensures
        model::opt_int(r) == scrapecreators::either(
            scrapecreators::picked_int(
                n@,
                ["media_count", "edge_owner_to_timeline_media.count"]@,
            ),
            scrapecreators::either(
                scrapecreators::picked_int(v@, ["stats.videoCount"]@),
                opt_number_in(scrapecreators::picked_text(n@, ["videoCountText"]@)),
            ),
        ),
{
    if let Some(c) = pick_i64(n, &["media_count", "edge_owner_to_timeline_media.count"]) {
        return Some(c);
    }
    if let Some(c) = pick_i64(v, &["stats.videoCount"]) {
        return Some(c);
    }
    match pick_str(n, &["videoCountText"]) {
        Some(t) => first_number(t.as_str()),
        None => None,
    }
}

fn is_verified(n: &Json) -> (r: Option<bool>)
    ensures
        r == any_bool(
            json::then_bool(json::field(n@, "is_verified"@)),
            json::then_bool(json::field(n@, "isVerified"@)),
            json::then_bool(json::field(n@, "verified"@)),
        ),
{
    match flag(n, "is_verified") {
        Some(b) => Some(b),
        None => match flag(n, "isVerified") {
            Some(b) => Some(b),
            None => flag(n, "verified"),
        },
    }
}

/// The record of the creator in an answer, from a list or from a page of its
/// own.
pub fn parse_creator(p: Platform, v: &Json) -> (r: Option<Creator>)
    ensures
        match r {
            Some(c) => creator_view(p, v@) == Some(c@),
            None => creator_view(p, v@) is None,
        },
{
    let n = match first_present(v, &["user_info", "user", "data.user"]) {
        Some(j) => j,
        None => v,
    };
    let handle = match pick_str(n, &["handle", "unique_id", "uniqueId", "username", "channel"]) {
        Some(h) => Some(without_leading(h.as_str(), '@')),
        None => None,
    };
    let id = pick_str(n, &["id", "channelId", "uid", "pk"]);
    if id.is_none() && handle.is_none() {
        return None;
    }
    Some(
        Creator {
            platform: p,
            id,
            handle,
            name: pick_str(n, &["channelName", "name", "nickname", "full_name", "title"]),
            bio: truncate_opt(
                pick_str(n, &["description", "signature", "biography"]),
                DESC_LIMIT_CHARS,
            ),
            follower_count: followers(n, v),
            video_count: video_total(n, v),
            verified: is_verified(n),
        },
    )
}

/// The records of the creators in an answer. A list that is not there is empty.
pub fn parse_search_creators(p: Platform, body: &Json) -> (r: Vec<Creator>)
    ensures
        model::creators_view(r@) == creator_list(p, body@),
{
    let mut out: Vec<Creator> = Vec::new();
    assert(model::creators_view(out@) =~= seq![]);
    match find_list(body, &creator_list_key(p)) {
        None => out,
        Some(a) => {
            let ghost all = json::trees(a@);
            let mut i: usize = 0;
            while i < a.len()
                invariant
                    i <= a@.len(),
                    all == json::trees(a@),
                    model::creators_view(out@) == creators(p, all, i as int),
                decreases a@.len() - i,
            {
                assert(all[i as int] == a@[i as int]@);
                let ghost before = model::creators_view(out@);
                if let Some(c) = parse_creator(p, &a[i]) {
                    out.push(c);
                    assert(model::creators_view(out@) =~= before.push(c@));
                }
                i = i + 1;
            }
            out
        },
    }
}

/// The handle of a record never begins with `@`, so that one person found by
/// two endpoints is one person.
pub proof fn law_handles_are_bare(p: Platform, t: Tree)
    ensures
        creator_view(p, t) matches Some(c) ==> (c.handle matches Some(h) ==> h.len() > 0 ==> h[0]
            != '@'),
{
    let raw = scrapecreators::picked_text(
        creator_node(t),
        ["handle", "unique_id", "uniqueId", "username", "channel"]@,
    );
    if let Some(s) = raw {
        text::lemma_drop_leading(s, '@', 0);
    }
}

// ---------------------------------------------------------------------------
// Endpoints
// ---------------------------------------------------------------------------

/// What can be asked of the scraping service, besides a single video.
#[derive(Debug, Clone, Copy, PartialEq, Eq, Structural)]
pub enum Endpoint {
    SearchVideos,
    SearchCreators,
    GetCreator,
    GetCreatorVideos,
}

/// An answer of the scraping service, with the endpoint that gave it.
#[derive(Debug)]
pub struct RawResponse {
    pub endpoint: String,
    pub body: Json,
}

/// An endpoint with its parameters.
#[derive(Debug)]
pub struct Route {
    pub path: &'static str,
    pub params: Vec<(&'static str, String)>,
}

/// The path of an endpoint. There is none for searching videos on Instagram:
/// the service has no working endpoint for it.
pub open spec fn route_path(ep: Endpoint, p: Platform) -> Option<Seq<char>> {
    match (ep, p) {
        (Endpoint::SearchVideos, Platform::YouTube) => Some("/v1/youtube/search"@),
        (Endpoint::SearchCreators, Platform::YouTube) => Some("/v1/youtube/search"@),
        (Endpoint::SearchVideos, Platform::TikTok) => Some("/v1/tiktok/search/keyword"@),
        (Endpoint::SearchVideos, Platform::Instagram) => None,
        (Endpoint::SearchCreators, Platform::TikTok) => Some("/v1/tiktok/search/users"@),
        (Endpoint::SearchCreators, Platform::Instagram) => Some("/v1/instagram/search/profiles"@),
        (Endpoint::GetCreator, Platform::YouTube) => Some("/v1/youtube/channel"@),
        (Endpoint::GetCreator, Platform::TikTok) => Some("/v1/tiktok/profile"@),
        (Endpoint::GetCreator, Platform::Instagram) => Some("/v1/instagram/profile"@),
        (Endpoint::GetCreatorVideos, Platform::YouTube) => Some("/v1/youtube/channel-videos"@),
        (Endpoint::GetCreatorVideos, Platform::TikTok) => Some("/v3/tiktok/profile/videos"@),
        (Endpoint::GetCreatorVideos, Platform::Instagram) => Some("/v1/instagram/user/reels"@),
    }
}

/// The parameters of an endpoint.
pub open spec fn route_params(ep: Endpoint, p: Platform, arg: Seq<char>) -> Seq<
    (Seq<char>, Seq<char>),
> {
    match (ep, p) {
        (Endpoint::SearchVideos, Platform::YouTube) => seq![
            ("query"@, arg),
            ("type"@, "videos"@),
            ("sortBy"@, "popular"@),
            ("includeExtras"@, "true"@),
        ],
        (Endpoint::SearchCreators, Platform::YouTube) => seq![
            ("query"@, arg),
            ("type"@, "channels"@),
            ("includeExtras"@, "true"@),
        ],
        (Endpoint::SearchVideos, Platform::TikTok) => seq![
            ("query"@, arg),
            ("sort_by"@, "most-liked"@),
        ],
        (Endpoint::SearchVideos, Platform::Instagram) => seq![],
        (Endpoint::SearchCreators, _) => seq![("query"@, arg)],
        (Endpoint::GetCreator, _) => seq![("handle"@, arg)],
        (Endpoint::GetCreatorVideos, _) => seq![("handle"@, arg)],
    }
}

/// What a list of parameters says.
pub open spec fn params_view(v: Seq<(&'static str, String)>) -> Seq<(Seq<char>, Seq<char>)> {
    Seq::new(v.len(), |i: int| (v[i].0@, v[i].1@))
}

/// The endpoint to ask, with its parameters; none where there is none.
pub fn route(ep: Endpoint, p: Platform, arg: &str) -> (r: Option<Route>)
    ensures
        match r {
            Some(rt) => route_path(ep, p) == Some(rt.path@) && params_view(rt.params@)
                == route_params(ep, p, arg@),
            None => route_path(ep, p) is None,
        },
{
    let a = arg.to_owned();
    let path = match (ep, p) {
        (Endpoint::SearchVideos, Platform::YouTube) => "/v1/youtube/search",
        (Endpoint::SearchCreators, Platform::YouTube) => "/v1/youtube/search",
        (Endpoint::SearchVideos, Platform::TikTok) => "/v1/tiktok/search/keyword",
        (Endpoint::SearchVideos, Platform::Instagram) => {
            return None;
        },
        (Endpoint::SearchCreators, Platform::TikTok) => "/v1/tiktok/search/users",
        (Endpoint::SearchCreators, Platform::Instagram) => "/v1/instagram/search/profiles",
        (Endpoint::GetCreator, Platform::YouTube) => "/v1/youtube/channel",
        (Endpoint::GetCreator, Platform::TikTok) => "/v1/tiktok/profile",
        (Endpoint::GetCreator, Platform::Instagram) => "/v1/instagram/profile",
        (Endpoint::GetCreatorVideos, Platform::YouTube) => "/v1/youtube/channel-videos",
        (Endpoint::GetCreatorVideos, Platform::TikTok) => "/v3/tiktok/profile/videos",
        (Endpoint::GetCreatorVideos, Platform::Instagram) => "/v1/instagram/user/reels",
    };
    let params: Vec<(&'static str, String)> = match (ep, p) {
        (Endpoint::SearchVideos, Platform::YouTube) => vec![
            ("query", a),
            ("type", "videos".to_owned()),
            ("sortBy", "popular".to_owned()),
            ("includeExtras", "true".to_owned()),
        ],
        (Endpoint::SearchCreators, Platform::YouTube) => vec![
            ("query", a),
            ("type", "channels".to_owned()),
            ("includeExtras", "true".to_owned()),
        ],
        (Endpoint::SearchVideos, _) => vec![("query", a), ("sort_by", "most-liked".to_owned())],
        (Endpoint::SearchCreators, _) => vec![("query", a)],
        (Endpoint::GetCreator, _) => vec![("handle", a)],
        (Endpoint::GetCreatorVideos, _) => vec![("handle", a)],
    };
    assert(params_view(params@) =~= route_params(ep, p, arg@));
    Some(Route { path, params })
}

/// The name of what can be asked, as it stands in messages.
pub open spec fn endpoint_name(ep: Endpoint) -> Seq<char> {
    match ep {
        Endpoint::SearchVideos => "SearchVideos"@,
        Endpoint::SearchCreators => "SearchCreators"@,
        Endpoint::GetCreator => "GetCreator"@,
        Endpoint::GetCreatorVideos => "GetCreatorVideos"@,
    }
}

/// The error for something that a platform cannot be asked.
pub fn no_route(ep: Endpoint, p: Platform) -> (r: ClipKnowError)
    ensures
        r matches ClipKnowError::Fetch { platform, message } && platform@ == url::platform_name(p)
            && message@ == url::platform_name(p) + " 上没有可用的 "@ + endpoint_name(ep)
            + " 端点（SC 侧当前不支持）"@,
{
    let name = match ep {
        Endpoint::SearchVideos => "SearchVideos",
        Endpoint::SearchCreators => "SearchCreators",
        Endpoint::GetCreator => "GetCreator",
        Endpoint::GetCreatorVideos => "GetCreatorVideos",
    };
    ClipKnowError::Fetch {
        platform: p.as_str().to_owned(),
        message: p.as_str().to_owned().concat(" 上没有可用的 ").concat(name).concat(
            " 端点（SC 侧当前不支持）",
        ),
    }
}

/// Somebody who answers like the scraping service.
pub trait DiscoveryApi {
    /// Asks one of the endpoints.
    fn call(&self, ep: Endpoint, p: Platform, arg: &str) -> Result<RawResponse>;

    /// Asks one of the endpoints for the page behind a cursor. Who has no pages
    /// answers as without a cursor.
    fn call_paged(&self, ep: Endpoint, p: Platform, arg: &str, cursor: Option<&str>) -> (r: Result<
        RawResponse,
    >)
        default_ensures
            call_ensures(Self::call, (self, ep, p, arg), r),
    {
        self.call(ep, p, arg)
    }

    /// Fetches all there is of one video.
    fn fetch_video(&self, parsed: &ParsedUrl, raw_url: &str) -> Result<FetchedVideo>;

    /// Fetches what a platform says of one video, for the address of its file.
    /// Less than all there is of it will do; who cannot fetch less fetches all.
    fn refresh_video(&self, parsed: &ParsedUrl, raw_url: &str) -> (r: Result<FetchedVideo>)
        default_ensures
            call_ensures(Self::fetch_video, (self, parsed, raw_url), r),
    {
        self.fetch_video(parsed, raw_url)
    }
}

// ---------------------------------------------------------------------------
// Pages and addresses
// ---------------------------------------------------------------------------

/// The parameter that asks a platform for the next page of a list.
pub open spec fn cursor_name(p: Platform) -> Seq<char> {
    match p {
        Platform::YouTube => "continuationToken"@,
        Platform::TikTok => "max_cursor"@,
        Platform::Instagram => "max_id"@,
    }
}

/// What has to be sent to get the page after an answer; none after the last.
pub open spec fn cursor_after(p: Platform, t: Tree) -> Option<Seq<char>> {
    match p {
        Platform::YouTube => scrapecreators::picked_text(t, ["continuationToken"]@),
        Platform::TikTok => scrapecreators::picked_text(t, ["max_cursor"]@),
        Platform::Instagram => scrapecreators::picked_text(t, ["paging_info.max_id"]@),
    }
}

/// The parameter that asks a platform for the next page of a list.
pub fn cursor_param(p: Platform) -> (r: &'static str)
    ensures
        r@ == cursor_name(p),
{
    match p {
        Platform::YouTube => "continuationToken",
        Platform::TikTok => "max_cursor",
        Platform::Instagram => "max_id",
    }
}

/// What has to be sent to get the page after an answer.
pub fn next_cursor(p: Platform, body: &Json) -> (r: Option<String>)
    ensures
        text::opt(r) == cursor_after(p, body@),
{
    match p {
        Platform::YouTube => pick_str(body, &["continuationToken"]),
        Platform::TikTok => pick_str(body, &["max_cursor"]),
        Platform::Instagram => pick_str(body, &["paging_info.max_id"]),
    }
}

/// The address of the video file in what a platform says of a video. YouTube
/// gives none.
pub open spec fn file_address(p: Platform, t: Tree) -> Option<Seq<char>> {
    match p {
        Platform::YouTube => None,
        Platform::TikTok => scrapecreators::picked_text(
            t,
            ["aweme_detail.video.play_addr.url_list.0"]@,
        ),
        Platform::Instagram => scrapecreators::picked_text(
            t,
            ["data.xdt_shortcode_media.video_url"]@,
        ),
    }
}

/// The address of the video file in what a platform says of a video.
pub fn play_addr(p: Platform, body: &Json) -> (r: Option<String>)
    ensures
        text::opt(r) == file_address(p, body@),
{
    match p {
        Platform::YouTube => None,
        Platform::TikTok => pick_str(body, &["aweme_detail.video.play_addr.url_list.0"]),
        Platform::Instagram => pick_str(body, &["data.xdt_shortcode_media.video_url"]),
    }
}

/// The address of the video file in an answer that was stored as text.
pub fn parse_play_addr(p: Platform, raw: &str) -> (r: Option<String>)
    ensures
        text::opt(r) == (match outside::json_tree(raw@) {
            Some(t) => file_address(p, t),
            None => None,
        }),
{
    match Json::parse(raw) {
        Ok(body) => play_addr(p, &body),
        Err(_) => None,
    }
}

/// The value of a hexadecimal digit in small letters.
pub open spec fn hex_digit(c: char) -> Option<int> {
    if '0' <= c <= '9' {
        Some(c as int - '0' as int)
    } else if 'a' <= c <= 'f' {
        Some(c as int - 'a' as int + 10)
    } else {
        None
    }
}

/// The value of the first `n` characters as a hexadecimal number.
pub open spec fn hex_prefix(t: Seq<char>, n: int) -> Option<int>
    decreases n,
{
    if n <= 0 || n > t.len() {
        Some(0)
    } else {
        match (hex_prefix(t, n - 1), hex_digit(t[n - 1])) {
            (Some(v), Some(d)) => Some(v * 16 + d),
            _ => None,
        }
    }
}

/// The value of a hexadecimal number of one to fifteen digits.
pub open spec fn hex_value(t: Seq<char>) -> Option<int> {
    if 0 < t.len() <= 15 {
        hex_prefix(t, t.len() as int)
    } else {
        None
    }
}

/// The moment up to which the address of a video file works, where the address
/// says it: in the second segment of its path, as a hexadecimal number.
pub open spec fn address_end(t: Seq<char>) -> Option<int> {
    let parts = text::split(t, '/');
    if parts.len() > 4 {
        hex_value(parts[4])
    } else {
        None
    }
}

/// Whether the address of a video file works at a moment. One that does not say
/// when it ends counts as one that does.
pub open spec fn address_works(t: Seq<char>, now: int) -> bool {
    address_end(t) matches Some(e) ==> e > now
}

fn hex_from(s: &str) -> (r: Option<i64>)
    ensures
        model::opt_int(r) == hex_value(s@),
{
    let t = to_chars(s);
    if t.len() == 0 || t.len() > 15 {
        return None;
    }
    let mut value: i64 = 0;
    let mut limit: i64 = 1;
    let mut i: usize = 0;
    proof {
        vstd::arithmetic::power::lemma_pow0(16);
    }
    while i < t.len()
        invariant
            i <= t@.len() <= 15,
            t@ == s@,
            0 <= value < limit,
            limit == vstd::arithmetic::power::pow(16, i as nat),
            hex_prefix(s@, i as int) == Some(value as int),
        decreases t@.len() - i,
    {
        let c = t[i];
        let d: i64 = if '0' <= c && c <= '9' {
            (c as u8 - 48) as i64
        } else if 'a' <= c && c <= 'f' {
            (c as u8 - 87) as i64
        } else {
            proof {
                lemma_hex_stops(s@, i + 1, s@.len() as int);
            }
            return None;
        };
        proof {
            vstd::arithmetic::power::lemma_pow1(16);
            vstd::arithmetic::power::lemma_pow_adds(16, i as nat, 1);
            vstd::arithmetic::power::lemma_pow_increases(16, i as nat, 14);
            assert(vstd::arithmetic::power::pow(16, 14) == 0x100_0000_0000_0000) by {
                reveal_with_fuel(vstd::arithmetic::power::pow, 15);
            }
            vstd::arithmetic::power::lemma_pow_increases(16, i as nat + 1, 15);
        }
        value = value * 16 + d;
        limit = limit * 16;
        i = i + 1;
    }
    Some(value)
}

proof fn lemma_hex_stops(t: Seq<char>, k: int, n: int)
    requires
        0 < k <= n <= t.len(),
        hex_prefix(t, k) is None,
    ensures
        hex_prefix(t, n) is None,
    decreases n,
{
    if k < n {
        lemma_hex_stops(t, k, n - 1);
    }
}

/// Whether the address of a video file works at a moment.
pub fn url_still_valid(addr: &str, now: i64) -> (r: bool)
    ensures
        r == address_works(addr@, now as int),
{
    let list = parts(addr, '/');
    assert(text::texts(list@).len() == list@.len());
    if list.len() > 4 {
        assert(text::texts(list@)[4] == list@[4]@);
        match hex_from(list[4].as_str()) {
            Some(e) => e > now,
            None => true,
        }
    } else {
        true
    }
}

} // verus!
