//! The scraping service: which of its endpoints to ask, and what its answers
//! mean.
//!
//! Every platform has its own names for its fields, and they change. So a field
//! is looked for under several paths, and one that is nowhere is left out; the
//! answers themselves are stored as they came.

use vstd::prelude::*;
use crate::content::model;
use crate::content::model::{
    new_id, now_ts, parse_iso8601, Artifact, ArtifactKind, Comment, CommentView, FetchStatus,
    FetchedVideo, Transcript, TranscriptView, Video, VideoView,
};
use crate::error::{ClipKnowError, Result};
use crate::ingest::url::{ParsedUrl, Platform};
use crate::json;
use crate::json::{Json, Num, NumTree, Tree};
use crate::outside;
use crate::text;
use crate::text::{
    from_chars, i64_from, i64_text, includes, index_from, is_blank, joined, lines_of, lowered, parts,
    same, starts_with, to_chars, trimmed, trimmed_start, u64_text,
};

verus! {

/// No more comments than these are taken.
pub const COMMENT_LIMIT: usize = 20;

// ---------------------------------------------------------------------------
// Finding fields
// ---------------------------------------------------------------------------

/// One step of a path: an index into an array, or the name of a field.
pub open spec fn step(t: Tree, part: Seq<char>) -> Option<Tree> {
    match text::read_index(part) {
        Some(i) => json::element(t, i),
        None => json::field(t, part),
    }
}

/// The steps of a path from the step `k` on.
pub open spec fn walk(t: Tree, path: Seq<Seq<char>>, k: int) -> Option<Tree>
    decreases path.len() - k,
{
    if k < 0 || k >= path.len() {
        Some(t)
    } else {
        match step(t, path[k]) {
            Some(next) => walk(next, path, k + 1),
            None => None,
        }
    }
}

/// What stands at the end of a path such as `items.0.name`.
pub open spec fn dug(t: Tree, path: Seq<char>) -> Option<Tree> {
    walk(t, text::split(path, '.'), 0)
}

/// What stands at the end of the first path, from the path `k` on, that leads
/// to something other than `null`.
pub open spec fn present_from(t: Tree, paths: Seq<Seq<char>>, k: int) -> Option<Tree>
    decreases paths.len() - k,
{
    if k < 0 || k >= paths.len() {
        None
    } else {
        match dug(t, paths[k]) {
            Some(j) => if j is Null {
                present_from(t, paths, k + 1)
            } else {
                Some(j)
            },
            None => present_from(t, paths, k + 1),
        }
    }
}

/// What stands at the end of the first path that leads to something other than
/// `null`.
pub open spec fn present(t: Tree, paths: Seq<&str>) -> Option<Tree> {
    present_from(t, text::strs(paths), 0)
}

/// A number as it is written.
pub open spec fn number_text(n: NumTree) -> Seq<char> {
    match n {
        NumTree::Int(i) => text::int_text(i),
        NumTree::Float { whole, text } => text,
    }
}

/// A value as a text: a text that is not empty, or a number as it is written.
pub open spec fn as_text(t: Tree) -> Option<Seq<char>> {
    match t {
        Tree::Str(s) => if s.len() > 0 {
            Some(s)
        } else {
            None
        },
        Tree::Number(n) => Some(number_text(n)),
        _ => None,
    }
}

/// A value as a whole number: a number without its fraction, or a text that is
/// a number.
pub open spec fn as_integer(t: Tree) -> Option<int> {
    match json::i64_of(t) {
        Some(n) => Some(n),
        None => match json::whole_of(t) {
            Some(n) => Some(n),
            None => match t {
                Tree::Str(s) => text::read_i64(s),
                _ => None,
            },
        },
    }
}

/// The text at the first path that leads to something.
pub open spec fn picked_text(t: Tree, paths: Seq<&str>) -> Option<Seq<char>> {
    match present(t, paths) {
        Some(j) => as_text(j),
        None => None,
    }
}

/// The whole number at the first path that leads to something.
pub open spec fn picked_int(t: Tree, paths: Seq<&str>) -> Option<int> {
    match present(t, paths) {
        Some(j) => as_integer(j),
        None => None,
    }
}

/// The number at the first path that leads to something, without its fraction.
pub open spec fn picked_whole(t: Tree, paths: Seq<&str>) -> Option<int> {
    match present(t, paths) {
        Some(j) => json::whole_of(j),
        None => None,
    }
}

/// What stands at the end of a path such as `items.0.name`.
pub fn dig<'a>(v: &'a Json, path: &str) -> (r: Option<&'a Json>)
    ensures
        json::opt_tree(r) == dug(v@, path@),
{
    let list = parts(path, '.');
    let ghost steps = text::split(path@, '.');
    let mut cur = v;
    let mut k: usize = 0;
    while k < list.len()
        invariant
            k <= list@.len(),
            text::texts(list@) == steps,
            dug(v@, path@) == walk(cur@, steps, k as int),
        decreases list@.len() - k,
    {
        assert(steps[k as int] == list@[k as int]@);
        let next = match index_from(list[k].as_str()) {
            Some(i) => cur.at(i),
            None => cur.get(list[k].as_str()),
        };
        match next {
            Some(j) => {
                cur = j;
            },
            None => {
                return None;
            },
        }
        k = k + 1;
    }
    Some(cur)
}

/// What stands at the end of the first path that leads to something other than
/// `null`.
pub fn first_present<'a>(v: &'a Json, paths: &[&str]) -> (r: Option<&'a Json>)
    ensures
        json::opt_tree(r) == present(v@, paths@),
{
    let mut k: usize = 0;
    while k < paths.len()
        invariant
            k <= paths@.len(),
            present(v@, paths@) == present_from(v@, text::strs(paths@), k as int),
        decreases paths@.len() - k,
    {
        assert(text::strs(paths@)[k as int] == paths@[k as int]@);
        if let Some(j) = dig(v, paths[k]) {
            if !j.is_null() {
                return Some(j);
            }
        }
        k = k + 1;
    }
    None
}

/// The text at the first path that leads to something.
pub fn pick_str(v: &Json, paths: &[&str]) -> (r: Option<String>)
    ensures
        text::opt(r) == picked_text(v@, paths@),
{
    match first_present(v, paths) {
        Some(Json::Str(s)) => if s.as_str().is_empty() {
            None
        } else {
            Some(s.clone())
        },
        Some(Json::Number(Num::Pos(n))) => Some(u64_text(*n)),
        Some(Json::Number(Num::Neg(n))) => Some(i64_text(*n)),
        Some(Json::Number(Num::Float { whole, text })) => Some(text.clone()),
        _ => None,
    }
}

/// The whole number at the first path that leads to something.
pub fn pick_i64(v: &Json, paths: &[&str]) -> (r: Option<i64>)
    ensures
        model::opt_int(r) == picked_int(v@, paths@),
{
    match first_present(v, paths) {
        Some(j) => match j.as_i64() {
            Some(n) => Some(n),
            None => match j.as_whole() {
                Some(n) => Some(n),
                None => match j.as_str() {
                    Some(s) => i64_from(s),
                    None => None,
                },
            },
        },
        None => None,
    }
}

/// The number at the first path that leads to something, without its fraction.
pub fn pick_whole(v: &Json, paths: &[&str]) -> (r: Option<i64>)
    ensures
        model::opt_int(r) == picked_whole(v@, paths@),
{
    match first_present(v, paths) {
        Some(j) => j.as_whole(),
        None => None,
    }
}

/// The first `max` characters, with an ellipsis where there are more.
pub open spec fn shortened(t: Seq<char>, max: int) -> Seq<char> {
    if t.len() <= max {
        t
    } else {
        t.take(max) + "…"@
    }
}

/// The first `max` characters, with an ellipsis where there are more.
pub fn truncate(s: &str, max: usize) -> (r: String)
    ensures
        r@ == shortened(s@, max as int),
{
    let t = to_chars(s);
    if t.len() <= max {
        s.to_owned()
    } else {
        let head = from_chars(&t, 0, max);
        assert(head@ =~= s@.take(max as int));
        head.concat("…")
    }
}

/// A text cut to `max` characters, where there is one.
pub open spec fn opt_shortened(t: Option<Seq<char>>, max: int) -> Option<Seq<char>> {
    match t {
        Some(s) => Some(shortened(s, max)),
        None => None,
    }
}

/// A text cut to `max` characters, where there is one.
pub fn truncate_opt(s: Option<String>, max: usize) -> (r: Option<String>)
    ensures
        text::opt(r) == opt_shortened(text::opt(s), max as int),
{
    match s {
        Some(t) => Some(truncate(t.as_str(), max)),
        None => None,
    }
}

/// Milliseconds as whole seconds, cut towards zero.
pub open spec fn seconds(ms: Option<int>) -> Option<int> {
    match ms {
        Some(n) => Some(
            if n < 0 {
                -((-n) / 1000)
            } else {
                n / 1000
            },
        ),
        None => None,
    }
}

/// Milliseconds as whole seconds, cut towards zero.
pub fn to_seconds(ms: Option<i64>) -> (r: Option<i64>)
    ensures
        model::opt_int(r) == seconds(model::opt_int(ms)),
{
    match ms {
        Some(n) => if n < 0 {
            let m: u64 = (-(n + 1)) as u64 + 1;
            Some(-((m / 1000) as i64))
        } else {
            Some(n / 1000)
        },
        None => None,
    }
}

/// The moment that a text names, where it names one.
pub open spec fn moment(t: Option<Seq<char>>) -> Option<int> {
    match t {
        Some(s) => outside::rfc3339_seconds(s),
        None => None,
    }
}

/// The moment that a text names, where it names one.
pub fn moment_of(s: &Option<String>) -> (r: Option<i64>)
    ensures
        model::opt_int(r) == moment(text::opt(*s)),
{
    match s {
        Some(t) => parse_iso8601(t.as_str()),
        None => None,
    }
}

// ---------------------------------------------------------------------------
// Endpoints
// ---------------------------------------------------------------------------

/// The endpoint that describes a video.
pub open spec fn detail_path(p: Platform) -> Seq<char> {
    match p {
        Platform::YouTube => "/v1/youtube/video"@,
        Platform::TikTok => "/v2/tiktok/video"@,
        Platform::Instagram => "/v1/instagram/post"@,
    }
}

/// The endpoint that says what is said in a video.
pub open spec fn transcript_path(p: Platform) -> Seq<char> {
    match p {
        Platform::YouTube => "/v1/youtube/video/transcript"@,
        Platform::TikTok => "/v1/tiktok/video/transcript"@,
        Platform::Instagram => "/v2/instagram/media/transcript"@,
    }
}

/// The endpoint that lists the comments on a video.
pub open spec fn comments_path(p: Platform) -> Seq<char> {
    match p {
        Platform::YouTube => "/v1/youtube/video/comments"@,
        Platform::TikTok => "/v1/tiktok/video/comments"@,
        Platform::Instagram => "/v2/instagram/post/comments"@,
    }
}

/// The endpoint that describes a video.
pub fn detail_endpoint(p: Platform) -> (r: &'static str)
    ensures
        r@ == detail_path(p),
{
    match p {
        Platform::YouTube => "/v1/youtube/video",
        Platform::TikTok => "/v2/tiktok/video",
        Platform::Instagram => "/v1/instagram/post",
    }
}

/// The endpoint that says what is said in a video.
pub fn transcript_endpoint(p: Platform) -> (r: &'static str)
    ensures
        r@ == transcript_path(p),
{
    match p {
        Platform::YouTube => "/v1/youtube/video/transcript",
        Platform::TikTok => "/v1/tiktok/video/transcript",
        Platform::Instagram => "/v2/instagram/media/transcript",
    }
}

/// The endpoint that lists the comments on a video.
pub fn comments_endpoint(p: Platform) -> (r: &'static str)
    ensures
        r@ == comments_path(p),
{
    match p {
        Platform::YouTube => "/v1/youtube/video/comments",
        Platform::TikTok => "/v1/tiktok/video/comments",
        Platform::Instagram => "/v2/instagram/post/comments",
    }
}

/// Why an answer of the service is a refusal, where it is one. It refuses by
/// its status, or by `success: false` in an answer with a good status.
pub open spec fn refusal(success: bool, status: Seq<char>, body: Tree) -> Option<Seq<char>> {
    if !success {
        Some("HTTP "@ + status + ": "@ + shortened(outside::json_text(body), 200))
    } else if json::then_bool(json::field(body, "success"@)) == Some(false) {
        match json::then_str(json::field(body, "error"@)) {
            Some(m) => Some(m),
            None => Some("SC 返回 success:false"@),
        }
    } else {
        None
    }
}

/// The answer of the service, or the error that it means. `success` says
/// whether the status is a good one, and `status` is how it is written.
pub fn check_reply(path: &str, success: bool, status: &str, body: Json) -> (r: Result<Json>)
    ensures
        match refusal(success, status@, body@) {
            Some(m) => r matches Err(ClipKnowError::Fetch { platform, message }) && platform@
                == path@ && message@ == m,
            None => r matches Ok(j) && j == body,
        },
{
    if !success {
        let message = "HTTP ".to_owned().concat(status).concat(": ").concat(
            truncate(body.text().as_str(), 200).as_str(),
        );
        return Err(ClipKnowError::Fetch { platform: path.to_owned(), message });
    }
    let flag = match body.get("success") {
        Some(j) => j.as_bool(),
        None => None,
    };
    if let Some(b) = flag {
        if !b {
            let said = match body.get("error") {
                Some(j) => j.as_str(),
                None => None,
            };
            let message = match said {
                Some(m) => m.to_owned(),
                None => "SC 返回 success:false".to_owned(),
            };
            return Err(ClipKnowError::Fetch { platform: path.to_owned(), message });
        }
    }
    Ok(body)
}

// ---------------------------------------------------------------------------
// What the platforms say of a video
// ---------------------------------------------------------------------------

/// What YouTube says of a video, published at `published`.
pub open spec fn youtube_view(
    t: Tree,
    native_id: Seq<char>,
    url: Seq<char>,
    id: Seq<char>,
    now: int,
    published: Option<int>,
) -> VideoView {
    VideoView {
        id,
        platform: Platform::YouTube,
        native_id,
        url,
        title: picked_text(t, ["title"]@),
        author_handle: picked_text(t, ["channel.handle"]@),
        author_name: picked_text(t, ["channel.title"]@),
        duration_sec: seconds(picked_int(t, ["durationMs"]@)),
        published_at: published,
        view_count: picked_int(t, ["viewCountInt"]@),
        like_count: picked_int(t, ["likeCountInt"]@),
        comment_count: picked_int(t, ["commentCountInt"]@),
        description: picked_text(t, ["description"]@),
        fetched_at: now,
    }
}

/// What TikTok says of a video. Its caption serves as its title.
pub open spec fn tiktok_view(
    t: Tree,
    native_id: Seq<char>,
    url: Seq<char>,
    id: Seq<char>,
    now: int,
) -> VideoView {
    let a = match json::field(t, "aweme_detail"@) {
        Some(j) => j,
        None => t,
    };
    VideoView {
        id,
        platform: Platform::TikTok,
        native_id,
        url,
        title: picked_text(a, ["desc"]@),
        author_handle: picked_text(a, ["author.unique_id"]@),
        author_name: picked_text(a, ["author.nickname"]@),
        duration_sec: seconds(picked_int(a, ["video.duration"]@)),
        published_at: picked_int(a, ["create_time"]@),
        view_count: picked_int(a, ["statistics.play_count"]@),
        like_count: picked_int(a, ["statistics.digg_count"]@),
        comment_count: picked_int(a, ["statistics.comment_count"]@),
        description: picked_text(a, ["desc"]@),
        fetched_at: now,
    }
}

/// The post in an answer of Instagram.
pub open spec fn instagram_post(t: Tree) -> Tree {
    match present(t, ["data.xdt_shortcode_media", "data", "items.0", "post"]@) {
        Some(j) => j,
        None => t,
    }
}

/// The first of two numbers that is there.
pub open spec fn either(a: Option<int>, b: Option<int>) -> Option<int> {
    match a {
        Some(n) => Some(n),
        None => b,
    }
}

/// The first of two texts that is there.
pub open spec fn either_text(a: Option<Seq<char>>, b: Option<Seq<char>>) -> Option<Seq<char>> {
    match a {
        Some(s) => Some(s),
        None => b,
    }
}

/// What Instagram says of a video; `named` is the moment that it writes as a
/// text, if it does.
pub open spec fn instagram_view(
    t: Tree,
    native_id: Seq<char>,
    url: Seq<char>,
    id: Seq<char>,
    now: int,
    named: Option<int>,
) -> VideoView {
    let n = instagram_post(t);
    VideoView {
        id,
        platform: Platform::Instagram,
        native_id,
        url,
        title: picked_text(
            n,
            ["caption.text", "caption", "edge_media_to_caption.edges.0.node.text"]@,
        ),
        author_handle: picked_text(n, ["owner.username", "user.username"]@),
        author_name: picked_text(n, ["owner.full_name", "user.full_name"]@),
        duration_sec: picked_whole(n, ["video_duration"]@),
        published_at: either(picked_int(n, ["taken_at_timestamp", "taken_at"]@), named),
        view_count: picked_int(n, ["video_play_count", "play_count", "video_view_count"]@),
        like_count: picked_int(n, ["like_count", "edge_media_preview_like.count"]@),
        comment_count: picked_int(n, ["comment_count", "edge_media_to_comment.count"]@),
        description: picked_text(n, ["caption.text", "caption"]@),
        fetched_at: now,
    }
}

/// The moment that an answer about a video writes as a text.
pub open spec fn named_moment(p: Platform, t: Tree) -> Option<int> {
    match p {
        Platform::YouTube => moment(picked_text(t, ["publishDate"]@)),
        Platform::TikTok => None,
        Platform::Instagram => moment(picked_text(instagram_post(t), ["taken_at"]@)),
    }
}

/// What a platform says of a video; `named` is the moment that it writes as a
/// text, if it does.
pub open spec fn video_view(
    p: Platform,
    t: Tree,
    native_id: Seq<char>,
    url: Seq<char>,
    id: Seq<char>,
    now: int,
    named: Option<int>,
) -> VideoView {
    match p {
        Platform::YouTube => youtube_view(t, native_id, url, id, now, named),
        Platform::TikTok => tiktok_view(t, native_id, url, id, now),
        Platform::Instagram => instagram_view(t, native_id, url, id, now, named),
    }
}

/// The record of a video on YouTube.
pub fn normalize_youtube(
    v: &Json,
    native_id: &str,
    raw_url: &str,
    id: String,
    now: i64,
    published: Option<i64>,
) -> (r: Video)
    ensures
        r@ == youtube_view(
            v@,
            native_id@,
            raw_url@,
            id@,
            now as int,
            model::opt_int(published),
        ),
{
    Video {
        id,
        platform: Platform::YouTube,
        native_id: native_id.to_owned(),
        url: raw_url.to_owned(),
        title: pick_str(v, &["title"]),
        author_handle: pick_str(v, &["channel.handle"]),
        author_name: pick_str(v, &["channel.title"]),
        duration_sec: to_seconds(pick_i64(v, &["durationMs"])),
        published_at: published,
        view_count: pick_i64(v, &["viewCountInt"]),
        like_count: pick_i64(v, &["likeCountInt"]),
        comment_count: pick_i64(v, &["commentCountInt"]),
        description: pick_str(v, &["description"]),
        fetched_at: now,
    }
}

/// The record of a video on TikTok.
pub fn normalize_tiktok(v: &Json, native_id: &str, raw_url: &str, id: String, now: i64) -> (r:
    Video)
    ensures
        r@ == tiktok_view(v@, native_id@, raw_url@, id@, now as int),
{
    let a = match v.get("aweme_detail") {
        Some(j) => j,
        None => v,
    };
    Video {
        id,
        platform: Platform::TikTok,
        native_id: native_id.to_owned(),
        url: raw_url.to_owned(),
        title: pick_str(a, &["desc"]),
        author_handle: pick_str(a, &["author.unique_id"]),
        author_name: pick_str(a, &["author.nickname"]),
        duration_sec: to_seconds(pick_i64(a, &["video.duration"])),
        published_at: pick_i64(a, &["create_time"]),
        view_count: pick_i64(a, &["statistics.play_count"]),
        like_count: pick_i64(a, &["statistics.digg_count"]),
        comment_count: pick_i64(a, &["statistics.comment_count"]),
        description: pick_str(a, &["desc"]),
        fetched_at: now,
    }
}

fn post_of(v: &Json) -> (r: &Json)
    ensures
        r@ == instagram_post(v@),
{
    match first_present(v, &["data.xdt_shortcode_media", "data", "items.0", "post"]) {
        Some(j) => j,
        None => v,
    }
}

fn first_int(a: Option<i64>, b: Option<i64>) -> (r: Option<i64>)
    ensures
        model::opt_int(r) == either(model::opt_int(a), model::opt_int(b)),
{
    match a {
        Some(n) => Some(n),
        None => b,
    }
}

/// The record of a video on Instagram; `named` is the moment that the answer
/// writes as a text, if it does.
pub fn normalize_instagram(
    v: &Json,
    native_id: &str,
    raw_url: &str,
    id: String,
    now: i64,
    named: Option<i64>,
) -> (r: Video)
    ensures
        r@ == instagram_view(v@, native_id@, raw_url@, id@, now as int, model::opt_int(named)),
{
    let n = post_of(v);
    Video {
        id,
        platform: Platform::Instagram,
        native_id: native_id.to_owned(),
        url: raw_url.to_owned(),
        title: pick_str(n, &["caption.text", "caption", "edge_media_to_caption.edges.0.node.text"]),
        author_handle: pick_str(n, &["owner.username", "user.username"]),
        author_name: pick_str(n, &["owner.full_name", "user.full_name"]),
        duration_sec: pick_whole(n, &["video_duration"]),
        published_at: first_int(pick_i64(n, &["taken_at_timestamp", "taken_at"]), named),
        view_count: pick_i64(n, &["video_play_count", "play_count", "video_view_count"]),
        like_count: pick_i64(n, &["like_count", "edge_media_preview_like.count"]),
        comment_count: pick_i64(n, &["comment_count", "edge_media_to_comment.count"]),
        description: pick_str(n, &["caption.text", "caption"]),
        fetched_at: now,
    }
}

/// The record of a video, from what its platform says of it.
pub fn normalize(v: &Json, parsed: &ParsedUrl, raw_url: &str, id: String, now: i64) -> (r: Video)
    ensures
        r@ == video_view(
            parsed.platform,
            v@,
            parsed.native_id@,
            raw_url@,
            id@,
            now as int,
            named_moment(parsed.platform, v@),
        ),
{
    let native_id = parsed.native_id.as_str();
    match parsed.platform {
        Platform::YouTube => {
            let named = moment_of(&pick_str(v, &["publishDate"]));
            normalize_youtube(v, native_id, raw_url, id, now, named)
        },
        Platform::TikTok => normalize_tiktok(v, native_id, raw_url, id, now),
        Platform::Instagram => {
            let named = moment_of(&pick_str(post_of(v), &["taken_at"]));
            normalize_instagram(v, native_id, raw_url, id, now, named)
        },
    }
}

// ---------------------------------------------------------------------------
// Transcripts
// ---------------------------------------------------------------------------

/// The texts of the segments of a transcript among the first `n`.
pub open spec fn segment_texts(a: Seq<Tree>, n: int) -> Seq<Seq<char>>
    decreases n,
{
    if n <= 0 || n > a.len() {
        seq![]
    } else {
        match json::then_str(json::field(a[n - 1], "text"@)) {
            Some(s) => segment_texts(a, n - 1).push(s),
            None => segment_texts(a, n - 1),
        }
    }
}

/// A transcript that comes in segments, as one text.
pub open spec fn segments_text(t: Tree) -> Option<Seq<char>> {
    match json::then_array(json::field(t, "transcript"@)) {
        Some(a) => {
            let whole = text::join(segment_texts(a, a.len() as int), " "@);
            if text::blank(whole) {
                None
            } else {
                Some(whole)
            }
        },
        None => None,
    }
}

/// The text of a transcript as it came. Each platform has a name of its own for
/// it.
pub open spec fn raw_text(t: Tree) -> Option<Seq<char>> {
    either_text(
        picked_text(t, ["transcript_only_text", "text", "transcript_text"]@),
        either_text(
            picked_text(t, ["transcripts.0.text"]@),
            either_text(picked_text(t, ["transcript"]@), segments_text(t)),
        ),
    )
}

fn join_segments(v: &Json) -> (r: Option<String>)
    ensures
        text::opt(r) == segments_text(v@),
{
    let list = match v.get("transcript") {
        Some(j) => j.as_array(),
        None => None,
    };
    match list {
        Some(a) => {
            let mut found: Vec<String> = Vec::new();
            let mut i: usize = 0;
            assert(text::texts(found@) =~= segment_texts(json::trees(a@), 0));
            while i < a.len()
                invariant
                    i <= a@.len(),
                    text::texts(found@) == segment_texts(json::trees(a@), i as int),
                decreases a@.len() - i,
            {
                assert(json::trees(a@)[i as int] == a@[i as int]@);
                let ghost before = text::texts(found@);
                if let Some(j) = a[i].get("text") {
                    if let Some(s) = j.as_str() {
                        found.push(s.to_owned());
                        assert(text::texts(found@) =~= before.push(s@));
                    }
                }
                i = i + 1;
            }
            let whole = joined(&found, " ");
            if is_blank(whole.as_str()) {
                None
            } else {
                Some(whole)
            }
        },
        None => None,
    }
}

/// The text of a transcript as it came.
pub fn raw_transcript_text(v: &Json) -> (r: Option<String>)
    ensures
        text::opt(r) == raw_text(v@),
{
    if let Some(s) = pick_str(v, &["transcript_only_text", "text", "transcript_text"]) {
        return Some(s);
    }
    if let Some(s) = pick_str(v, &["transcripts.0.text"]) {
        return Some(s);
    }
    if let Some(s) = pick_str(v, &["transcript"]) {
        return Some(s);
    }
    join_segments(v)
}

/// Whether a text is a caption file of the format WebVTT.
pub open spec fn webvtt(t: Seq<char>) -> bool {
    text::starts(text::trim_start(t), "WEBVTT"@)
}

/// Whether a text is a caption file of the format WebVTT.
pub fn is_webvtt(s: &str) -> (r: bool)
    ensures
        r == webvtt(s@),
{
    starts_with(trimmed_start(s).as_str(), "WEBVTT")
}

/// Whether a line of a caption file is something that is said: not the header,
/// not a pair of times, and not the number of a caption.
pub open spec fn spoken_line(l: Seq<char>) -> bool {
    &&& l.len() > 0
    &&& l != "WEBVTT"@
    &&& !text::contains(l, "-->"@)
    &&& !text::all_digits(l)
}

/// What is said in the first `n` lines of a caption file.
pub open spec fn spoken_lines(v: Seq<Seq<char>>, n: int) -> Seq<Seq<char>>
    decreases n,
{
    if n <= 0 || n > v.len() {
        seq![]
    } else if spoken_line(text::trim(v[n - 1])) {
        spoken_lines(v, n - 1).push(text::trim(v[n - 1]))
    } else {
        spoken_lines(v, n - 1)
    }
}

/// What is said in a caption file.
pub open spec fn spoken(t: Seq<char>) -> Seq<char> {
    let v = text::lines(t);
    text::join(spoken_lines(v, v.len() as int), " "@)
}

fn only_digits(s: &str) -> (r: bool)
    requires
        s@.len() > 0,
    ensures
        r == text::all_digits(s@),
{
    let t = to_chars(s);
    let mut i: usize = 0;
    while i < t.len()
        invariant
            i <= t@.len(),
            t@ == s@,
            forall|j: int| 0 <= j < i ==> text::is_digit(#[trigger] t@[j]),
        decreases t@.len() - i,
    {
        if !('0' <= t[i] && t[i] <= '9') {
            return false;
        }
        i = i + 1;
    }
    true
}

/// What is said in a caption file of the format WebVTT.
pub fn strip_webvtt(s: &str) -> (r: String)
    ensures
        r@ == spoken(s@),
{
    let all = lines_of(s);
    let ghost v = text::lines(s@);
    let mut kept: Vec<String> = Vec::new();
    let mut i: usize = 0;
    assert(text::texts(kept@) =~= spoken_lines(v, 0));
    while i < all.len()
        invariant
            i <= all@.len(),
            text::texts(all@) == v,
            text::texts(kept@) == spoken_lines(v, i as int),
        decreases all@.len() - i,
    {
        assert(v[i as int] == all@[i as int]@);
        let l = trimmed(all[i].as_str());
        let ghost before = text::texts(kept@);
        if !l.as_str().is_empty() && !same(l.as_str(), "WEBVTT") && !includes(l.as_str(), "-->")
            && !only_digits(l.as_str()) {
            kept.push(l);
            assert(text::texts(kept@) =~= before.push(l@));
        }
        i = i + 1;
    }
    joined(&kept, " ")
}

/// Whether a text that is supposed to be a transcript is the answer of a model
/// that could not make one. Only short texts with one of a few phrases are; a
/// long one never is.
pub open spec fn failed_transcription(t: Seq<char>) -> bool {
    let s = text::lower(text::trim(t));
    &&& s.len() <= 200
    &&& (text::contains(s, "please provide the audio"@) || text::contains(
        s,
        "please provide the video"@,
    ) || text::contains(s, "would like me to transcribe"@) || text::contains(
        s,
        "i cannot transcribe"@,
    ) || text::contains(s, "i'm unable to transcribe"@) || text::contains(
        s,
        "i am unable to transcribe"@,
    ) || text::contains(s, "no audio content"@) || text::contains(s, "no speech detected"@))
}

/// Whether a text that is supposed to be a transcript is the answer of a model
/// that could not make one.
pub fn looks_like_transcription_failure(s: &str) -> (r: bool)
    ensures
        r == failed_transcription(s@),
{
    let small = lowered(trimmed(s).as_str());
    let t = small.as_str();
    if to_chars(t).len() > 200 {
        return false;
    }
    includes(t, "please provide the audio") || includes(t, "please provide the video") || includes(
        t,
        "would like me to transcribe",
    ) || includes(t, "i cannot transcribe") || includes(t, "i'm unable to transcribe") || includes(
        t,
        "i am unable to transcribe",
    ) || includes(t, "no audio content") || includes(t, "no speech detected")
}

/// What is said in a video, without the times and numbers of captions.
pub open spec fn said(raw: Seq<char>) -> Seq<char> {
    text::trim(
        if webvtt(raw) {
            spoken(raw)
        } else {
            raw
        },
    )
}

/// Whether there is no transcript in an answer: no text at all, or the text of
/// a model that could not make one.
pub open spec fn silent(t: Tree) -> bool {
    raw_text(t) matches Some(raw) ==> said(raw).len() == 0 || failed_transcription(said(raw))
}

/// The transcript in an answer.
pub open spec fn transcript_view(t: Tree, video_id: Seq<char>, now: int) -> Option<TranscriptView> {
    if silent(t) {
        None
    } else {
        Some(
            TranscriptView {
                video_id,
                text: said(raw_text(t)->Some_0),
                source: "sc"@,
                lang: picked_text(t, ["language"]@),
                fetched_at: now,
            },
        )
    }
}

/// The transcript in an answer.
pub fn extract_transcript(v: &Json, video_id: &str, now: i64) -> (r: Option<Transcript>)
    ensures
        match r {
            Some(t) => transcript_view(v@, video_id@, now as int) == Some(t@),
            None => transcript_view(v@, video_id@, now as int) is None,
        },
{
    match raw_transcript_text(v) {
        Some(raw) => {
            let plain = if is_webvtt(raw.as_str()) {
                strip_webvtt(raw.as_str())
            } else {
                raw
            };
            let text = trimmed(plain.as_str());
            if text.as_str().is_empty() || looks_like_transcription_failure(text.as_str()) {
                return None;
            }
            Some(
                Transcript {
                    video_id: video_id.to_owned(),
                    text,
                    source: "sc".to_owned(),
                    lang: pick_str(v, &["language"]),
                    fetched_at: now,
                },
            )
        },
        None => None,
    }
}

// ---------------------------------------------------------------------------
// Comments
// ---------------------------------------------------------------------------

/// What a comment says.
pub open spec fn comment_text(t: Tree) -> Option<Seq<char>> {
    picked_text(t, ["content", "text", "comment"]@)
}

/// The identifier of a comment on its platform.
pub open spec fn comment_id(t: Tree) -> Option<Seq<char>> {
    picked_text(t, ["id", "cid"]@)
}

/// Whether a comment says something.
pub open spec fn speaks(t: Tree) -> bool {
    comment_text(t) matches Some(s) && !text::blank(s)
}

/// The record of a comment that says something; `named` is the moment that the
/// answer writes as a text, if it does.
pub open spec fn comment_view(
    t: Tree,
    video_id: Seq<char>,
    id: Seq<char>,
    named: Option<int>,
) -> CommentView {
    CommentView {
        id,
        video_id,
        author: picked_text(
            t,
            ["author.name", "user.nickname", "user.username", "owner.username"]@,
        ),
        text: comment_text(t)->Some_0,
        like_count: picked_int(t, ["engagement.likes", "digg_count", "like_count"]@),
        published_at: either(picked_int(t, ["create_time"]@), named),
    }
}

/// The moment of a comment that its answer writes as a text.
pub open spec fn comment_moment(t: Tree) -> Option<int> {
    moment(picked_text(t, ["publishedTime"]@))
}

/// The record of a comment that says something.
pub fn comment_from(c: &Json, video_id: &str, id: String, named: Option<i64>) -> (r: Option<Comment>)
    ensures
        match r {
            Some(k) => speaks(c@) && k@ == comment_view(
                c@,
                video_id@,
                id@,
                model::opt_int(named),
            ),
            None => !speaks(c@),
        },
{
    match pick_str(c, &["content", "text", "comment"]) {
        Some(text) => {
            if is_blank(text.as_str()) {
                return None;
            }
            Some(
                Comment {
                    id,
                    video_id: video_id.to_owned(),
                    author: pick_str(
                        c,
                        &["author.name", "user.nickname", "user.username", "owner.username"],
                    ),
                    text,
                    like_count: pick_i64(c, &["engagement.likes", "digg_count", "like_count"]),
                    published_at: first_int(pick_i64(c, &["create_time"]), named),
                },
            )
        },
        None => None,
    }
}

/// The comments in an answer.
pub open spec fn comment_list(t: Tree) -> Seq<Tree> {
    match json::then_array(json::field(t, "comments"@)) {
        Some(a) => a,
        None => match json::then_array(json::field(t, "data"@)) {
            Some(a) => a,
            None => seq![],
        },
    }
}

/// The comments that say something, among the first `n`.
pub open spec fn speaking(a: Seq<Tree>, n: int) -> Seq<Tree>
    decreases n,
{
    if n <= 0 || n > a.len() {
        seq![]
    } else if speaks(a[n - 1]) {
        speaking(a, n - 1).push(a[n - 1])
    } else {
        speaking(a, n - 1)
    }
}

/// The comments that are taken from an answer: of the first few, those that say
/// something.
pub open spec fn taken_comments(t: Tree) -> Seq<Tree> {
    let a = comment_list(t);
    speaking(
        a,
        if a.len() < COMMENT_LIMIT {
            a.len() as int
        } else {
            COMMENT_LIMIT as int
        },
    )
}

/// Whether `v` are the records of the comments `a`: each with its own
/// identifier where it has one, and with a new one where it has none.
pub open spec fn recorded(v: Seq<CommentView>, a: Seq<Tree>, video_id: Seq<char>) -> bool {
    &&& v.len() == a.len()
    &&& forall|i: int|
        #![trigger v[i]]
        0 <= i < v.len() ==> v[i] == comment_view(a[i], video_id, v[i].id, comment_moment(a[i]))
            && match comment_id(a[i]) {
            Some(id) => v[i].id == id,
            None => model::is_new_id(v[i].id),
        }
}

/// No more comments are taken than the limit.
pub proof fn law_comments_are_few(t: Tree)
    ensures
        taken_comments(t).len() <= COMMENT_LIMIT,
{
    let a = comment_list(t);
    lemma_speaking(
        a,
        if a.len() < COMMENT_LIMIT {
            a.len() as int
        } else {
            COMMENT_LIMIT as int
        },
    );
}

proof fn lemma_speaking(a: Seq<Tree>, n: int)
    requires
        0 <= n,
    ensures
        speaking(a, n).len() <= n,
    decreases n,
{
    if n > 0 {
        lemma_speaking(a, n - 1);
    }
}

/// The comments in an answer.
pub fn extract_comments(v: &Json, video_id: &str) -> (r: Vec<Comment>)
    ensures
        recorded(model::comments_view(r@), taken_comments(v@), video_id@),
{
    let mut out: Vec<Comment> = Vec::new();
    let first = match v.get("comments") {
        Some(j) => j.as_array(),
        None => None,
    };
    let found = match first {
        Some(a) => Some(a),
        None => match v.get("data") {
            Some(j) => j.as_array(),
            None => None,
        },
    };
    match found {
        None => out,
        Some(a) => {
            let ghost all = comment_list(v@);
            let n: usize = if a.len() < COMMENT_LIMIT { a.len() } else { COMMENT_LIMIT };
            let mut i: usize = 0;
            assert(all =~= json::trees(a@));
            while i < n
                invariant
                    i <= n <= a@.len(),
                    all == json::trees(a@),
                    recorded(model::comments_view(out@), speaking(all, i as int), video_id@),
                decreases n - i,
            {
                assert(all[i as int] == a@[i as int]@);
                let c = &a[i];
                let id = match pick_str(c, &["id", "cid"]) {
                    Some(id) => id,
                    None => new_id(),
                };
                let named = moment_of(&pick_str(c, &["publishedTime"]));
                let ghost before = model::comments_view(out@);
                if let Some(k) = comment_from(c, video_id, id, named) {
                    out.push(k);
                    assert(model::comments_view(out@) =~= before.push(k@));
                }
                i = i + 1;
            }
            out
        },
    }
}

// ---------------------------------------------------------------------------
// Fetching a video
// ---------------------------------------------------------------------------

/// How far the fetching of a video is: what was asked last, and what is there.
#[derive(Debug)]
pub enum Stage {
    Detail,
    Transcript { video: Video, detail: Artifact, retried: bool },
    Comments {
        video: Video,
        detail: Artifact,
        transcript: Option<Transcript>,
        heard: Artifact,
    },
}

/// A video that is being fetched. First it is asked what it is; without that
/// there is nothing to store. Then it is asked what is said in it and what is
/// said about it; a failure there leaves a gap and no more.
#[derive(Debug)]
pub struct Fetching {
    pub parsed: ParsedUrl,
    pub raw_url: String,
    pub stage: Stage,
}

/// What follows an answer of the service.
#[derive(Debug)]
pub enum Progress {
    Ask(Fetching),
    Done(FetchedVideo),
    Failed(ClipKnowError),
}

/// The endpoint to ask.
pub open spec fn asked(f: Fetching) -> Seq<char> {
    match f.stage {
        Stage::Detail => detail_path(f.parsed.platform),
        Stage::Transcript { video, detail, retried } => transcript_path(f.parsed.platform),
        Stage::Comments { video, detail, transcript, heard } => comments_path(f.parsed.platform),
    }
}

/// How many more answers there can be, counting the one that is awaited.
pub open spec fn answers_left(f: Fetching) -> int {
    match f.stage {
        Stage::Detail => 4,
        Stage::Transcript { video, detail, retried } => if retried {
            2
        } else {
            3
        },
        Stage::Comments { video, detail, transcript, heard } => 1,
    }
}

/// Whether `a` records that an endpoint answered with content.
pub open spec fn answered(a: Artifact, kind: ArtifactKind, body: Tree) -> bool {
    a.kind == kind && a.status == FetchStatus::Success && text::opt(a.raw_json) == Some(
        outside::json_text(body),
    ) && a.error is None && model::is_present(a.fetched_at)
}

/// Whether `a` records that an endpoint answered that there is nothing.
pub open spec fn answered_nothing(a: Artifact, kind: ArtifactKind, body: Tree) -> bool {
    a.kind == kind && a.status == FetchStatus::Unavailable && text::opt(a.raw_json) == Some(
        outside::json_text(body),
    ) && a.error is None && model::is_present(a.fetched_at)
}

/// Whether `a` records that an endpoint did not answer.
pub open spec fn unanswered(a: Artifact, kind: ArtifactKind, message: Seq<char>) -> bool {
    a.kind == kind && a.status == FetchStatus::Failed && a.raw_json is None && text::opt(a.error)
        == Some(message) && model::is_present(a.fetched_at)
}

/// Whether the text in an answer is that of a model that could not transcribe.
pub open spec fn worth_another_try(body: Tree) -> bool {
    raw_text(body) matches Some(s) && failed_transcription(s)
}

/// What follows an answer to the question what a video is.
pub open spec fn after_detail(f: Fetching, reply: Result<Json>, r: Progress) -> bool {
    match reply {
        Err(e) => r matches Progress::Failed(x) && x == e,
        Ok(body) => r matches Progress::Ask(g) && g.parsed == f.parsed && g.raw_url == f.raw_url && (
        g.stage matches Stage::Transcript { video, detail, retried } && !retried && answered(
            detail,
            ArtifactKind::Detail,
            body@,
        ) && video@ == video_view(
            f.parsed.platform,
            body@,
            f.parsed.native_id@,
            f.raw_url@,
            video.id@,
            video.fetched_at as int,
            named_moment(f.parsed.platform, body@),
        ) && model::is_new_id(video.id@) && model::is_present(video.fetched_at)),
    }
}

/// What follows an answer to the question what is said in a video: the question
/// is put once more where a model could not transcribe it, and only then.
pub open spec fn after_transcript(f: Fetching, reply: Result<Json>, r: Progress) -> bool {
    f.stage matches Stage::Transcript { video, detail, retried } && r matches Progress::Ask(g)
        && g.parsed == f.parsed && g.raw_url == f.raw_url && match reply {
        Err(e) => g.stage matches Stage::Comments { video: v, detail: d, transcript, heard } && v
            == video && d == detail && transcript is None && unanswered(
            heard,
            ArtifactKind::Transcript,
            crate::error::error_text(e),
        ),
        Ok(body) => if silent(body@) && worth_another_try(body@) && !retried {
            g.stage matches Stage::Transcript { video: v, detail: d, retried: again } && v == video
                && d == detail && again
        } else {
            g.stage matches Stage::Comments { video: v, detail: d, transcript, heard } && v == video
                && d == detail && match transcript {
                Some(t) => transcript_view(body@, video.id@, t.fetched_at as int) == Some(t@)
                    && model::is_present(t.fetched_at) && answered(heard, ArtifactKind::Transcript, body@),
                None => silent(body@) && if worth_another_try(body@) {
                    unanswered(heard, ArtifactKind::Transcript, raw_text(body@)->Some_0)
                } else {
                    answered_nothing(heard, ArtifactKind::Transcript, body@)
                },
            }
        },
    }
}

/// What follows an answer to the question what is said about a video.
pub open spec fn after_comments(f: Fetching, reply: Result<Json>, r: Progress) -> bool {
    f.stage matches Stage::Comments { video, detail, transcript, heard } && r matches Progress::Done(
        d,
    ) && d.video == video && d.transcript == transcript && d.artifacts@.len() == 3 && d.artifacts@[0]
        == detail && d.artifacts@[1] == heard && match reply {
        Err(e) => d.comments@.len() == 0 && unanswered(
            d.artifacts@[2],
            ArtifactKind::Comments,
            crate::error::error_text(e),
        ),
        Ok(body) => recorded(
            model::comments_view(d.comments@),
            taken_comments(body@),
            video.id@,
        ) && (if d.comments@.len() > 0 {
            answered(d.artifacts@[2], ArtifactKind::Comments, body@)
        } else {
            answered_nothing(d.artifacts@[2], ArtifactKind::Comments, body@)
        }),
    }
}

impl Fetching {
    /// The fetching of a video, before anything was asked.
    pub fn start(parsed: ParsedUrl, raw_url: &str) -> (r: Fetching)
        ensures
            r.parsed == parsed,
            r.raw_url@ == raw_url@,
            r.stage == Stage::Detail,
    {
        Fetching { parsed, raw_url: raw_url.to_owned(), stage: Stage::Detail }
    }

    /// The endpoint to ask.
    pub fn endpoint(&self) -> (r: &'static str)
        ensures
            r@ == asked(*self),
    {
        match &self.stage {
            Stage::Detail => detail_endpoint(self.parsed.platform),
            Stage::Transcript { video, detail, retried } => transcript_endpoint(
                self.parsed.platform,
            ),
            Stage::Comments { video, detail, transcript, heard } => comments_endpoint(
                self.parsed.platform,
            ),
        }
    }

    /// What there is of a video of which nothing is asked but what it is: the address
    /// of its file stands in that answer. A failure to answer is passed on.
    pub fn refreshed(self, reply: Result<Json>) -> (r: Result<FetchedVideo>)
        ensures
            match reply {
                Err(e) => r == Err::<FetchedVideo, ClipKnowError>(e),
                Ok(body) => r matches Ok(f) && f.artifacts@.len() == 1 && answered(
                    f.artifacts@[0],
                    ArtifactKind::Detail,
                    body@,
                ) && f.transcript is None && f.comments@.len() == 0 && f.video@ == video_view(
                    self.parsed.platform,
                    body@,
                    self.parsed.native_id@,
                    self.raw_url@,
                    f.video.id@,
                    f.video.fetched_at as int,
                    named_moment(self.parsed.platform, body@),
                ) && model::is_new_id(f.video.id@) && model::is_present(f.video.fetched_at),
            },
    {
        match reply {
            Err(e) => Err(e),
            Ok(body) => {
                let video = normalize(
                    &body,
                    &self.parsed,
                    self.raw_url.as_str(),
                    new_id(),
                    now_ts(),
                );
                let detail = Artifact::ok(ArtifactKind::Detail, body.text());
                Ok(
                    FetchedVideo {
                        video,
                        transcript: None,
                        comments: Vec::new(),
                        artifacts: vec![detail],
                    },
                )
            },
        }
    }

    /// What follows the answer of the service, or its failure to answer.
    pub fn advance(self, reply: Result<Json>) -> (r: Progress)
        ensures
            match self.stage {
                Stage::Detail => after_detail(self, reply, r),
                Stage::Transcript { video, detail, retried } => after_transcript(self, reply, r),
                Stage::Comments { video, detail, transcript, heard } => after_comments(
                    self,
                    reply,
                    r,
                ),
            },
            r matches Progress::Ask(g) ==> answers_left(g) < answers_left(self),
    {
        match self.stage {
            Stage::Detail => match reply {
                Err(e) => Progress::Failed(e),
                Ok(body) => {
                    let video = normalize(
                        &body,
                        &self.parsed,
                        self.raw_url.as_str(),
                        new_id(),
                        now_ts(),
                    );
                    let detail = Artifact::ok(ArtifactKind::Detail, body.text());
                    Progress::Ask(
                        Fetching {
                            parsed: self.parsed,
                            raw_url: self.raw_url,
                            stage: Stage::Transcript { video, detail, retried: false },
                        },
                    )
                },
            },
            Stage::Transcript { video, detail, retried } => {
                let (transcript, heard) = match reply {
                    Err(e) => (None, Artifact::failed(ArtifactKind::Transcript, e.message())),
                    Ok(body) => match extract_transcript(&body, video.id.as_str(), now_ts()) {
                        Some(t) => (Some(t), Artifact::ok(ArtifactKind::Transcript, body.text())),
                        None => match raw_transcript_text(&body) {
                            Some(raw) if looks_like_transcription_failure(raw.as_str()) => {
                                if !retried {
                                    return Progress::Ask(
                                        Fetching {
                                            parsed: self.parsed,
                                            raw_url: self.raw_url,
                                            stage: Stage::Transcript { video, detail, retried: true },
                                        },
                                    );
                                }
                                (None, Artifact::failed(ArtifactKind::Transcript, raw))
                            },
                            _ => (
                                None,
                                Artifact::unavailable(ArtifactKind::Transcript, body.text()),
                            ),
                        },
                    },
                };
                Progress::Ask(
                    Fetching {
                        parsed: self.parsed,
                        raw_url: self.raw_url,
                        stage: Stage::Comments { video, detail, transcript, heard },
                    },
                )
            },
            Stage::Comments { video, detail, transcript, heard } => {
                let (comments, read) = match reply {
                    Err(e) => (
                        Vec::new(),
                        Artifact::failed(ArtifactKind::Comments, e.message()),
                    ),
                    Ok(body) => {
                        let found = extract_comments(&body, video.id.as_str());
                        let read = if found.len() > 0 {
                            Artifact::ok(ArtifactKind::Comments, body.text())
                        } else {
                            Artifact::unavailable(ArtifactKind::Comments, body.text())
                        };
                        (found, read)
                    },
                };
                Progress::Done(
                    FetchedVideo {
                        video,
                        transcript,
                        comments,
                        artifacts: vec![detail, heard, read],
                    },
                )
            },
        }
    }
}

} // verus!
