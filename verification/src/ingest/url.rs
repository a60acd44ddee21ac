//! Links: which platform one belongs to, and which video it names.
//!
//! The identifier found here is the key under which a video is stored, so that
//! one video is never fetched and paid for twice.

use vstd::prelude::*;
use crate::error::{ClipKnowError, Result};
use crate::text;
use crate::text::{char_position, from_chars, includes, lowered, parts, position, same, starts_with, strip_prefix, to_chars, trimmed};

verus! {

/// The platforms that videos come from.
#[derive(Debug, Clone, Copy, PartialEq, Eq, Structural)]
pub enum Platform {
    YouTube,
    TikTok,
    Instagram,
}

/// The name of a platform in the database and in endpoints.
pub open spec fn platform_name(p: Platform) -> Seq<char> {
    match p {
        Platform::YouTube => "youtube"@,
        Platform::TikTok => "tiktok"@,
        Platform::Instagram => "instagram"@,
    }
}

impl Platform {
    /// The name under which the platform is stored.
    pub fn as_str(&self) -> (r: &'static str)
        ensures
            r@ == platform_name(*self),
    {
        match self {
            Platform::YouTube => "youtube",
            Platform::TikTok => "tiktok",
            Platform::Instagram => "instagram",
        }
    }

    /// The platform that is stored under a name.
    pub fn from_str(s: &str) -> (r: Option<Platform>)
        ensures
            match r {
                Some(p) => s@ == platform_name(p),
                None => forall|p: Platform| s@ != #[trigger] platform_name(p),
            },
    {
        if same(s, "youtube") {
            Some(Platform::YouTube)
        } else if same(s, "tiktok") {
            Some(Platform::TikTok)
        } else if same(s, "instagram") {
            Some(Platform::Instagram)
        } else {
            None
        }
    }
}

/// No two platforms share a name, so a name that was stored reads back as the
/// platform it was stored for.
pub proof fn law_platform_names_differ(a: Platform, b: Platform)
    requires
        platform_name(a) == platform_name(b),
    ensures
        a == b,
{
    reveal_strlit("youtube");
    reveal_strlit("tiktok");
    reveal_strlit("instagram");
    assert("youtube"@[0] != "tiktok"@[0]);
    assert("youtube"@[0] != "instagram"@[0]);
    assert("tiktok"@[0] != "instagram"@[0]);
}

/// A link that was understood.
#[derive(Debug, Clone)]
pub struct ParsedUrl {
    pub platform: Platform,
    pub native_id: String,
}

/// Whether `c` ends a segment of a link.
pub open spec fn ends_segment(c: char) -> bool {
    c == '/' || c == '?' || c == '#'
}

/// The first position from `k` on that ends a segment, or the length.
pub open spec fn segment_end(t: Seq<char>, k: int) -> int
    decreases t.len() - k,
{
    if 0 <= k < t.len() && !ends_segment(t[k]) {
        segment_end(t, k + 1)
    } else {
        k
    }
}

/// The segment of `t` that follows the first `marker`, found without regard to
/// the case of ASCII letters; none where the marker is missing or where nothing
/// follows it.
pub open spec fn segment_after_spec(t: Seq<char>, marker: Seq<char>) -> Option<Seq<char>> {
    match text::find(text::lower(t), text::lower(marker)) {
        Some(i) => {
            let k = i + marker.len();
            if segment_end(t, k) > k {
                Some(t.subrange(k, segment_end(t, k)))
            } else {
                None
            }
        },
        None => None,
    }
}

/// A segment is not empty and holds nothing that would end it.
pub proof fn law_segment_is_closed(t: Seq<char>, marker: Seq<char>)
    ensures
        segment_after_spec(t, marker) matches Some(seg) ==> seg.len() > 0 && forall|i: int|
            0 <= i < seg.len() ==> !ends_segment(#[trigger] seg[i]),
{
    text::lemma_find(text::lower(t), text::lower(marker));
    if let Some(i) = text::find(text::lower(t), text::lower(marker)) {
        lemma_segment_end(t, i + marker.len());
    }
}

proof fn lemma_segment_end(t: Seq<char>, k: int)
    requires
        0 <= k <= t.len(),
    ensures
        k <= segment_end(t, k) <= t.len(),
        forall|i: int| k <= i < segment_end(t, k) ==> !ends_segment(#[trigger] t[i]),
    decreases t.len() - k,
{
    if k < t.len() && !ends_segment(t[k]) {
        lemma_segment_end(t, k + 1);
    }
}

/// The segment that follows the first `marker`, up to the next `/`, `?` or `#`.
pub fn segment_after(s: &str, marker: &str) -> (r: Option<String>)
    ensures
        text::opt(r) == segment_after_spec(s@, marker@),
{
    let small = to_chars(lowered(s).as_str());
    let mark = to_chars(lowered(marker).as_str());
    proof {
        text::lemma_find(text::lower(s@), text::lower(marker@));
    }
    match position(&small, &mark, 0) {
        None => None,
        Some(i) => {
            let t = to_chars(s);
            let n: usize = small.len();
            assert(i + mark@.len() <= n);
            let k: usize = i + mark.len();
            let mut end: usize = k;
            while end < t.len() && t[end] != '/' && t[end] != '?' && t[end] != '#'
                invariant
                    k <= end <= t@.len(),
                    segment_end(t@, k as int) == segment_end(t@, end as int),
                decreases t@.len() - end,
            {
                end = end + 1;
            }
            if end > k {
                Some(from_chars(&t, k, end))
            } else {
                None
            }
        },
    }
}

/// The first parameter `v` of a query that is not empty.
pub open spec fn video_param(params: Seq<Seq<char>>) -> Option<Seq<char>>
    decreases params.len(),
{
    if params.len() == 0 {
        None
    } else {
        match text::after(params[0], "v="@) {
            Some(v) => if v.len() > 0 {
                Some(v)
            } else {
                video_param(params.skip(1))
            },
            None => video_param(params.skip(1)),
        }
    }
}

/// The video that a YouTube link names: a short by its path, any other by the
/// parameter `v` of its query.
pub open spec fn youtube_id(t: Seq<char>) -> Option<Seq<char>> {
    match segment_after_spec(t, "/shorts/"@) {
        Some(id) => Some(id),
        None => if text::index_of(t, '?', 0) < t.len() {
            video_param(text::split(t.skip(text::index_of(t, '?', 0) + 1), '&'))
        } else {
            None
        },
    }
}

/// The video that a TikTok link names: by its path, or by the code of a short
/// link, which stands for one video only.
pub open spec fn tiktok_id(t: Seq<char>) -> Option<Seq<char>> {
    match segment_after_spec(t, "/video/"@) {
        Some(id) => Some(id),
        None => match segment_after_spec(t, "vm.tiktok.com/"@) {
            Some(id) => Some(id),
            None => segment_after_spec(t, "vt.tiktok.com/"@),
        },
    }
}

/// The post that an Instagram link names.
pub open spec fn instagram_id(t: Seq<char>) -> Option<Seq<char>> {
    match segment_after_spec(t, "/reels/"@) {
        Some(id) => Some(id),
        None => match segment_after_spec(t, "/reel/"@) {
            Some(id) => Some(id),
            None => match segment_after_spec(t, "/p/"@) {
                Some(id) => Some(id),
                None => segment_after_spec(t, "/tv/"@),
            },
        },
    }
}

/// `t` without the prefix `p`, where it has it.
pub open spec fn past(t: Seq<char>, p: Seq<char>) -> Seq<char> {
    match text::after(t, p) {
        Some(rest) => rest,
        None => t,
    }
}

/// The host and path of a link: without white space around it, without the
/// scheme and without a leading `www.`.
pub open spec fn address(raw: Seq<char>) -> Seq<char> {
    let t = text::trim(raw);
    past(
        match text::after(t, "https://"@) {
            Some(rest) => rest,
            None => past(t, "http://"@),
        },
        "www."@,
    )
}

/// What a link means.
pub enum Meaning {
    Video(Platform, Seq<char>),
    NoId,
    Unknown,
}

/// A platform with the video found on it, if any was.
pub open spec fn on(p: Platform, id: Option<Seq<char>>) -> Meaning {
    match id {
        Some(t) => Meaning::Video(p, t),
        None => Meaning::NoId,
    }
}

/// What the address of a link means.
pub open spec fn meaning(t: Seq<char>) -> Meaning {
    let small = text::lower(t);
    if text::starts(small, "youtube.com/"@) || text::starts(small, "m.youtube.com/"@) {
        on(Platform::YouTube, youtube_id(t))
    } else if text::starts(small, "youtu.be/"@) {
        on(Platform::YouTube, segment_after_spec(t, "youtu.be/"@))
    } else if text::contains(small, "tiktok.com/"@) {
        on(Platform::TikTok, tiktok_id(t))
    } else if text::starts(small, "instagram.com/"@) || text::starts(small, "m.instagram.com/"@) {
        on(Platform::Instagram, instagram_id(t))
    } else {
        Meaning::Unknown
    }
}

/// Whether `r` reports `m` of the link `raw`.
pub open spec fn reports(r: Result<ParsedUrl>, m: Meaning, raw: Seq<char>) -> bool {
    match m {
        Meaning::Video(p, id) => r matches Ok(u) && u.platform == p && u.native_id@ == id,
        Meaning::NoId => r matches Err(ClipKnowError::NoVideoId(t)) && t@ == raw,
        Meaning::Unknown => r matches Err(ClipKnowError::UnsupportedUrl(t)) && t@ == raw,
    }
}

/// A link means the same with a scheme as without one.
pub proof fn law_scheme_is_optional(t: Seq<char>)
    requires
        text::trim(t) == t,
        !text::starts(t, "https://"@),
        !text::starts(t, "http://"@),
    ensures
        address("https://"@ + t) == address(t),
        address("http://"@ + t) == address(t),
{
    reveal_strlit("https://");
    reveal_strlit("http://");
    text::lemma_trim_solid(t);
    let a = "https://"@ + t;
    let b = "http://"@ + t;
    text::lemma_trim_keeps(a);
    text::lemma_trim_keeps(b);
    assert(a.subrange(0, 8) =~= "https://"@);
    assert(a.skip(8) =~= t);
    assert(b.subrange(0, 7) =~= "http://"@);
    assert(b.skip(7) =~= t);
    assert(!text::starts(b, "https://"@)) by {
        if text::starts(b, "https://"@) {
            assert(b.subrange(0, 8)[4] == "https://"@[4]);
            assert(b[4] == ':');
        }
    }
}

/// A link means the same with a leading `www.` as without one.
pub proof fn law_www_is_optional(t: Seq<char>)
    requires
        text::trim(t) == t,
        !text::starts(t, "https://"@),
        !text::starts(t, "http://"@),
        !text::starts(t, "www."@),
    ensures
        address("www."@ + t) == address(t),
{
    reveal_strlit("https://");
    reveal_strlit("http://");
    reveal_strlit("www.");
    text::lemma_trim_solid(t);
    let a = "www."@ + t;
    text::lemma_trim_keeps(a);
    assert(a.subrange(0, 4) =~= "www."@);
    assert(a.skip(4) =~= t);
    assert(!text::starts(a, "https://"@) && !text::starts(a, "http://"@)) by {
        if text::starts(a, "https://"@) {
            assert(a.subrange(0, 8)[0] == 'h');
        }
        if text::starts(a, "http://"@) {
            assert(a.subrange(0, 7)[0] == 'h');
        }
        assert(a[0] == 'w');
    }
}

fn found(platform: Platform, id: Option<String>, raw: &str) -> (r: Result<ParsedUrl>)
    ensures
        reports(r, on(platform, text::opt(id)), raw@),
{
    match id {
        Some(native_id) => ok(platform, native_id),
        None => Err(ClipKnowError::NoVideoId(raw.to_owned())),
    }
}

fn ok(platform: Platform, native_id: String) -> (r: Result<ParsedUrl>)
    ensures
        r matches Ok(u) && u.platform == platform && u.native_id == native_id,
{
    Ok(ParsedUrl { platform, native_id })
}

fn parse_youtube(s: &str, raw: &str) -> (r: Result<ParsedUrl>)
    ensures
        reports(r, on(Platform::YouTube, youtube_id(s@)), raw@),
{
    if let Some(id) = segment_after(s, "/shorts/") {
        return ok(Platform::YouTube, id);
    }
    let t = to_chars(s);
    let q: usize = char_position(&t, '?', 0);
    if q < t.len() {
        let query = from_chars(&t, q + 1, t.len());
        assert(query@ =~= s@.skip(text::index_of(s@, '?', 0) + 1));
        let pairs = parts(query.as_str(), '&');
        let ghost all = text::split(query@, '&');
        let mut i: usize = 0;
        assert(all.skip(0) =~= all);
        while i < pairs.len()
            invariant
                i <= pairs@.len(),
                text::texts(pairs@) == all,
                video_param(all) == video_param(all.skip(i as int)),
                youtube_id(s@) == video_param(all),
            decreases pairs@.len() - i,
        {
            assert(all.skip(i as int)[0] == pairs@[i as int]@);
            assert(all.skip(i as int).skip(1) =~= all.skip(i + 1));
            if let Some(v) = strip_prefix(pairs[i].as_str(), "v=") {
                if !v.as_str().is_empty() {
                    return ok(Platform::YouTube, v);
                }
            }
            i = i + 1;
        }
        assert(all.skip(i as int) =~= seq![]);
    }
    Err(ClipKnowError::NoVideoId(raw.to_owned()))
}

fn parse_tiktok(s: &str, raw: &str) -> (r: Result<ParsedUrl>)
    ensures
        reports(r, on(Platform::TikTok, tiktok_id(s@)), raw@),
{
    if let Some(id) = segment_after(s, "/video/") {
        return ok(Platform::TikTok, id);
    }
    if let Some(id) = segment_after(s, "vm.tiktok.com/") {
        return ok(Platform::TikTok, id);
    }
    found(Platform::TikTok, segment_after(s, "vt.tiktok.com/"), raw)
}

fn parse_instagram(s: &str, raw: &str) -> (r: Result<ParsedUrl>)
    ensures
        reports(r, on(Platform::Instagram, instagram_id(s@)), raw@),
{
    if let Some(id) = segment_after(s, "/reels/") {
        return ok(Platform::Instagram, id);
    }
    if let Some(id) = segment_after(s, "/reel/") {
        return ok(Platform::Instagram, id);
    }
    if let Some(id) = segment_after(s, "/p/") {
        return ok(Platform::Instagram, id);
    }
    found(Platform::Instagram, segment_after(s, "/tv/"), raw)
}

fn without(s: String, p: &str) -> (r: String)
    ensures
        r@ == past(s@, p@),
{
    match strip_prefix(s.as_str(), p) {
        Some(rest) => rest,
        None => s,
    }
}

/// Reads a link: `youtube.com/watch?v=ID`, `youtu.be/ID`,
/// `youtube.com/shorts/ID`, `tiktok.com/@user/video/ID`, `vm.tiktok.com/CODE`,
/// `instagram.com/p/CODE` or `instagram.com/reel/CODE`.
pub fn parse(raw: &str) -> (r: Result<ParsedUrl>)
    ensures
        reports(r, meaning(address(raw@)), raw@),
{
    let url = trimmed(raw);
    let without_scheme = match strip_prefix(url.as_str(), "https://") {
        Some(rest) => rest,
        None => without(url, "http://"),
    };
    let bare = without(without_scheme, "www.");
    let s = bare.as_str();
    let small = lowered(s);
    let lower = small.as_str();
    if starts_with(lower, "youtube.com/") || starts_with(lower, "m.youtube.com/") {
        return parse_youtube(s, raw);
    }
    if starts_with(lower, "youtu.be/") {
        return found(Platform::YouTube, segment_after(s, "youtu.be/"), raw);
    }
    if includes(lower, "tiktok.com/") {
        return parse_tiktok(s, raw);
    }
    if starts_with(lower, "instagram.com/") || starts_with(lower, "m.instagram.com/") {
        return parse_instagram(s, raw);
    }
    Err(ClipKnowError::UnsupportedUrl(raw.to_owned()))
}

} // verus!
