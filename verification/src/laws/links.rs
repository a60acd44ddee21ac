//! What links mean.

use vstd::prelude::*;
use crate::ingest::url;
use crate::ingest::url::{Meaning, Platform};
use crate::laws::reading;
use crate::laws::texts;
use crate::text;

verus! {

/// Whether a text can be an identifier in a link: it is not empty, and nothing in it ends a
/// segment.
pub open spec fn is_id(id: Seq<char>) -> bool {
    id.len() > 0 && forall|i: int|
        0 <= i < id.len() ==> #[trigger] id[i] != '/' && id[i] != '?' && id[i] != '#'
}

/// Whether a text can follow an identifier in a link.
pub open spec fn is_rest(rest: Seq<char>) -> bool {
    rest.len() > 0 ==> rest[0] == '/' || rest[0] == '?' || rest[0] == '#'
}

/// Whether a text holds no slash.
pub open spec fn is_flat(t: Seq<char>) -> bool {
    forall|i: int| 0 <= i < t.len() ==> #[trigger] t[i] != '/'
}

proof fn lemma_segment_ends(t: Seq<char>, k: int, e: int)
    requires
        0 <= k <= e <= t.len(),
        forall|i: int| k <= i < e ==> !url::ends_segment(#[trigger] t[i]),
        e < t.len() ==> url::ends_segment(t[e]),
    ensures
        url::segment_end(t, k) == e,
    decreases e - k,
{
    if k < e {
        lemma_segment_ends(t, k + 1, e);
    }
}

/// The segment behind a marker that stands in a link nowhere before.
proof fn lemma_segment(
    t: Seq<char>,
    pre: Seq<char>,
    marker: Seq<char>,
    id: Seq<char>,
    rest: Seq<char>,
)
    requires
        t == pre + marker + id + rest,
        is_id(id),
        is_rest(rest),
        text::lower(marker) == marker,
        forall|i: int| 0 <= i < pre.len() ==> !text::occurs_at(text::lower(t), marker, i),
    ensures
        url::segment_after_spec(t, marker) == Some(id),
{
    lemma_segment_in_any_case(t, pre, marker, marker, id, rest);
}

/// The segment behind a marker that is written in capitals or not, and stands in a link
/// nowhere before.
proof fn lemma_segment_in_any_case(
    t: Seq<char>,
    pre: Seq<char>,
    m: Seq<char>,
    marker: Seq<char>,
    id: Seq<char>,
    rest: Seq<char>,
)
    requires
        t == pre + m + id + rest,
        is_id(id),
        is_rest(rest),
        text::lower(m) == marker,
        text::lower(marker) == marker,
        forall|i: int| 0 <= i < pre.len() ==> !text::occurs_at(text::lower(t), marker, i),
    ensures
        url::segment_after_spec(t, marker) == Some(id),
{
    let small = text::lower(t);
    let k = pre.len() as int;
    assert(text::lower(m).len() == m.len());
    assert(small.subrange(k, k + marker.len()) =~= marker) by {
        assert forall|i: int| 0 <= i < marker.len() implies small.subrange(
            k,
            k + marker.len(),
        )[i] == marker[i] by {
            assert(t[k + i] == m[i]);
            assert(text::lower(m)[i] == marker[i]);
        }
    }
    assert(text::occurs_at(small, marker, k));
    texts::law_find_is_first_and_last(small, marker);
    let at = k + marker.len();
    let e = at + id.len();
    assert forall|i: int| at <= i < e implies !url::ends_segment(#[trigger] t[i]) by {
        assert(t[i] == id[i - at]);
    }
    if e < t.len() {
        assert(t[e] == rest[0]);
    }
    lemma_segment_ends(t, at, e);
    assert(t.subrange(at, e) =~= id);
}

/// A marker that stands nowhere in a link is followed by nothing.
proof fn lemma_no_segment(t: Seq<char>, marker: Seq<char>)
    requires
        text::lower(marker) == marker,
        forall|i: int| 0 <= i < t.len() ==> !text::occurs_at(text::lower(t), marker, i),
        marker.len() > 0,
    ensures
        url::segment_after_spec(t, marker) is None,
{
    texts::law_find_is_first_and_last(text::lower(t), marker);
}

/// What stands in a link, letter by letter.
proof fn lemma_at(t: Seq<char>, p: Seq<char>, i: int, k: int)
    requires
        text::occurs_at(text::lower(t), p, i),
        0 <= k < p.len(),
    ensures
        0 <= i + k < t.len(),
        text::lower_char(t[i + k]) == p[k],
{
    assert(text::lower(t).subrange(i, i + p.len())[k] == text::lower(t)[i + k]);
}

proof fn lemma_starts(t: Seq<char>, p: Seq<char>, rest: Seq<char>)
    requires
        t == p + rest,
        text::lower(p) == p,
    ensures
        text::starts(text::lower(t), p),
{
    lemma_starts_in_any_case(t, p, p, rest);
}

proof fn lemma_starts_in_any_case(t: Seq<char>, m: Seq<char>, p: Seq<char>, rest: Seq<char>)
    requires
        t == m + rest,
        text::lower(m) == p,
    ensures
        text::starts(text::lower(t), p),
{
    let small = text::lower(t);
    assert(text::lower(m).len() == m.len());
    assert forall|i: int| 0 <= i < p.len() implies small.subrange(0, p.len() as int)[i] == p[i] by {
        assert(t[i] == m[i]);
        assert(text::lower(m)[i] == p[i]);
    }
    assert(small.subrange(0, p.len() as int) =~= p);
}

proof fn lemma_starts_not(t: Seq<char>, p: Seq<char>, k: int)
    requires
        0 <= k < p.len(),
        k < t.len(),
        text::lower_char(t[k]) != p[k],
    ensures
        !text::starts(text::lower(t), p),
{
    let small = text::lower(t);
    if text::starts(small, p) {
        assert(small.subrange(0, p.len() as int)[k] == small[k]);
    }
}

/// A link to a short on YouTube means that short.
pub proof fn law_youtube_short(id: Seq<char>, rest: Seq<char>)
    requires
        is_id(id),
        is_rest(rest),
    ensures
        url::meaning("youtube.com/shorts/"@ + id + rest) == Meaning::Video(Platform::YouTube, id),
        url::meaning("m.youtube.com/shorts/"@ + id + rest) == Meaning::Video(Platform::YouTube, id),
{
    reveal_strlit("youtube.com/shorts/");
    reveal_strlit("m.youtube.com/shorts/");
    reveal_strlit("youtube.com/");
    reveal_strlit("m.youtube.com/");
    reveal_strlit("youtube.com");
    reveal_strlit("m.youtube.com");
    reveal_strlit("/shorts/");
    let a = "youtube.com/shorts/"@ + id + rest;
    let b = "m.youtube.com/shorts/"@ + id + rest;
    assert("youtube.com/shorts/"@ =~= "youtube.com"@ + "/shorts/"@);
    assert("m.youtube.com/shorts/"@ =~= "m.youtube.com"@ + "/shorts/"@);
    assert("youtube.com/"@ =~= "youtube.com"@ + seq!['/']);
    assert("m.youtube.com/"@ =~= "m.youtube.com"@ + seq!['/']);
    assert(text::lower("youtube.com/"@) =~= "youtube.com/"@);
    assert(text::lower("m.youtube.com/"@) =~= "m.youtube.com/"@);
    assert(is_flat("youtube.com"@));
    assert(is_flat("m.youtube.com"@));
    lemma_short_of("youtube.com"@, "youtube.com/"@, id, rest);
    lemma_short_of("m.youtube.com"@, "m.youtube.com/"@, id, rest);
}

proof fn lemma_short_of(host: Seq<char>, start: Seq<char>, id: Seq<char>, rest: Seq<char>)
    requires
        is_flat(host),
        start == host + seq!['/'],
        text::lower(start) == start,
        is_id(id),
        is_rest(rest),
    ensures
        url::segment_after_spec(host + "/shorts/"@ + id + rest, "/shorts/"@) == Some(id),
        text::starts(text::lower(host + "/shorts/"@ + id + rest), start),
{
    reveal_strlit("/shorts/");
    let marker = "/shorts/"@;
    let t = host + marker + id + rest;
    assert(text::lower(marker) =~= marker);
    assert forall|i: int| 0 <= i < host.len() implies !text::occurs_at(text::lower(t), marker, i) by {
        if text::occurs_at(text::lower(t), marker, i) {
            lemma_at(t, marker, i, 0);
            assert(t[i] == host[i]);
        }
    }
    lemma_segment(t, host, marker, id, rest);
    let more = marker.skip(1) + id + rest;
    assert(t =~= start + more);
    lemma_starts(t, start, more);
}

/// A link to a page of YouTube that shows a video means that video, whatever parameters
/// follow.
pub proof fn law_youtube_watch(id: Seq<char>, rest: Seq<char>)
    requires
        is_id(id),
        !text::has_char(id, '&'),
        is_flat(rest),
        rest.len() > 0 ==> rest[0] == '&',
    ensures
        url::meaning("youtube.com/watch?v="@ + id + rest) == Meaning::Video(Platform::YouTube, id),
{
    reveal_strlit("youtube.com/watch?v=");
    reveal_strlit("youtube.com/");
    reveal_strlit("watch?v=");
    reveal_strlit("/shorts/");
    reveal_strlit("v=");
    assert(text::lower("/shorts/"@) =~= "/shorts/"@);
    assert(text::lower("youtube.com/"@) =~= "youtube.com/"@);
    let p = "youtube.com/watch?v="@;
    let t = p + id + rest;
    assert(t =~= "youtube.com/"@ + ("watch?v="@ + id + rest));
    lemma_starts(t, "youtube.com/"@, "watch?v="@ + id + rest);
    assert forall|i: int| 0 <= i < t.len() implies !text::occurs_at(text::lower(t), "/shorts/"@, i) by {
        if text::occurs_at(text::lower(t), "/shorts/"@, i) {
            lemma_at(t, "/shorts/"@, i, 0);
            lemma_at(t, "/shorts/"@, i, 7);
            lemma_slash(t, p, id, rest, i + 7);
        }
    }
    lemma_no_segment(t, "/shorts/"@);
    lemma_watch_query(id, rest);
}

proof fn lemma_watch_query(id: Seq<char>, rest: Seq<char>)
    requires
        is_id(id),
        !text::has_char(id, '&'),
        rest.len() > 0 ==> rest[0] == '&',
    ensures
        ({
            let t = "youtube.com/watch?v="@ + id + rest;
            &&& text::index_of(t, '?', 0) < t.len()
            &&& url::video_param(text::split(t.skip(text::index_of(t, '?', 0) + 1), '&')) == Some(
                id,
            )
        }),
{
    reveal_strlit("youtube.com/watch?v=");
    reveal_strlit("youtube.com/watch");
    reveal_strlit("v=");
    let before = "youtube.com/watch"@;
    let t = "youtube.com/watch?v="@ + id + rest;
    assert(!text::has_char(before, '?')) by {
        if text::has_char(before, '?') {
            let i = choose|i: int| 0 <= i < before.len() && before[i] == '?';
            assert(before[i] != '?');
        }
    }
    let q = "v="@ + id + rest;
    assert("youtube.com/watch?v="@ =~= before + seq!['?'] + "v="@);
    assert(t =~= before + seq!['?'] + q);
    lemma_question(before, q, 0);
    assert(t.skip(text::index_of(t, '?', 0) + 1) =~= q);
    let first = "v="@ + id;
    assert(!text::has_char(first, '&')) by {
        if text::has_char(first, '&') {
            let i = choose|i: int| 0 <= i < first.len() && first[i] == '&';
            if i >= 2 {
                assert(id[i - 2] == '&');
            }
        }
    }
    if rest.len() == 0 {
        assert(q =~= first);
        reading::lemma_parts(first, seq![], '&');
    } else {
        assert(q =~= first + seq!['&'] + rest.skip(1));
        reading::lemma_parts(first, rest.skip(1), '&');
    }
    let params = text::split(q, '&');
    assert(params[0] == first);
    texts::law_after_is_the_rest(first, "v="@, id);
}

proof fn lemma_slash(t: Seq<char>, p: Seq<char>, id: Seq<char>, rest: Seq<char>, i: int)
    requires
        t == p + id + rest,
        is_id(id),
        is_flat(rest),
        0 <= i < t.len(),
        text::lower_char(t[i]) == '/',
    ensures
        i < p.len(),
        p[i] == '/',
{
    if i >= p.len() {
        if i < p.len() + id.len() {
            assert(t[i] == id[i - p.len()]);
        } else {
            assert(t[i] == rest[i - p.len() - id.len()]);
        }
    }
}

proof fn lemma_question(a: Seq<char>, b: Seq<char>, k: int)
    requires
        !text::has_char(a, '?'),
        0 <= k <= a.len(),
    ensures
        text::index_of(a + seq!['?'] + b, '?', k) == a.len(),
    decreases a.len() - k,
{
    let t = a + seq!['?'] + b;
    if k < a.len() {
        assert(t[k] == a[k]);
        lemma_question(a, b, k + 1);
    }
}

/// A short link of YouTube means the video whose identifier follows the host.
pub proof fn law_youtube_short_link(id: Seq<char>, rest: Seq<char>)
    requires
        is_id(id),
        is_rest(rest),
    ensures
        url::meaning("youtu.be/"@ + id + rest) == Meaning::Video(Platform::YouTube, id),
{
    reveal_strlit("youtu.be/");
    reveal_strlit("youtube.com/");
    reveal_strlit("m.youtube.com/");
    assert(text::lower("youtu.be/"@) =~= "youtu.be/"@);
    let t = "youtu.be/"@ + id + rest;
    assert(t =~= "youtu.be/"@ + (id + rest));
    lemma_starts(t, "youtu.be/"@, id + rest);
    lemma_starts_not(t, "youtube.com/"@, 5);
    lemma_starts_not(t, "m.youtube.com/"@, 0);
    let none = Seq::<char>::empty();
    assert(t =~= none + "youtu.be/"@ + id + rest);
    lemma_segment(t, none, "youtu.be/"@, id, rest);
}

/// The host of a link may be written in capitals or not; the identifier stays as it is
/// written.
pub proof fn law_hosts_in_any_case(host: Seq<char>, id: Seq<char>, rest: Seq<char>)
    requires
        text::lower(host) == "youtu.be/"@,
        is_id(id),
        is_rest(rest),
    ensures
        url::meaning(host + id + rest) == Meaning::Video(Platform::YouTube, id),
{
    reveal_strlit("youtu.be/");
    reveal_strlit("youtube.com/");
    reveal_strlit("m.youtube.com/");
    let p = "youtu.be/"@;
    let t = host + id + rest;
    assert(text::lower(p) =~= p);
    assert(host.len() == text::lower(host).len());
    assert(t =~= host + (id + rest));
    lemma_starts_in_any_case(t, host, p, id + rest);
    assert(t[5] == host[5] && text::lower_char(host[5]) == text::lower(host)[5]);
    assert(t[0] == host[0] && text::lower_char(host[0]) == text::lower(host)[0]);
    assert(p[5] == '.' && p[0] == 'y');
    lemma_starts_not(t, "youtube.com/"@, 5);
    lemma_starts_not(t, "m.youtube.com/"@, 0);
    let none = Seq::<char>::empty();
    assert(t =~= none + host + id + rest);
    lemma_segment_in_any_case(t, none, host, p, id, rest);
}

/// Of the parameters of a link the one that names the video counts, wherever it stands
/// among them; one that names nothing is passed over.
pub proof fn law_other_parameters_are_passed_over(v: Seq<Seq<char>>, i: int, id: Seq<char>)
    requires
        0 <= i < v.len(),
        id.len() > 0,
        v[i] == "v="@ + id,
        forall|j: int| 0 <= j < i ==> #[trigger] v[j] == "v="@ || !text::starts(v[j], "v="@),
    ensures
        url::video_param(v) == Some(id),
    decreases v.len(),
{
    reveal_strlit("v=");
    if i == 0 {
        texts::law_after_is_the_rest(v[0], "v="@, id);
    } else {
        let w = v.skip(1);
        assert(w[i - 1] == v[i]);
        assert forall|j: int| 0 <= j < i - 1 implies #[trigger] w[j] == "v="@ || !text::starts(
            w[j],
            "v="@,
        ) by {
            assert(w[j] == v[j + 1]);
        }
        law_other_parameters_are_passed_over(w, i - 1, id);
        if v[0] == "v="@ {
            texts::law_after_is_the_rest(v[0], "v="@, Seq::empty());
            assert("v="@ + Seq::<char>::empty() =~= "v="@);
        }
    }
}

/// A link to a video on TikTok means that video, whoever made it.
pub proof fn law_tiktok_video(user: Seq<char>, id: Seq<char>, rest: Seq<char>)
    requires
        is_flat(user),
        is_id(id),
        is_rest(rest),
    ensures
        url::meaning("tiktok.com/@"@ + user + "/video/"@ + id + rest) == Meaning::Video(
            Platform::TikTok,
            id,
        ),
{
    reveal_strlit("tiktok.com/@");
    reveal_strlit("tiktok.com/");
    reveal_strlit("/video/");
    reveal_strlit("youtube.com/");
    reveal_strlit("m.youtube.com/");
    reveal_strlit("youtu.be/");
    assert(text::lower("/video/"@) =~= "/video/"@);
    assert(text::lower("tiktok.com/"@) =~= "tiktok.com/"@);
    let pre = "tiktok.com/@"@ + user;
    let t = "tiktok.com/@"@ + user + "/video/"@ + id + rest;
    let tail = seq!['@'] + user + "/video/"@ + id + rest;
    assert(t =~= "tiktok.com/"@ + tail);
    lemma_starts(t, "tiktok.com/"@, tail);
    assert(text::occurs_at(text::lower(t), "tiktok.com/"@, 0));
    lemma_starts_not(t, "youtube.com/"@, 0);
    lemma_starts_not(t, "m.youtube.com/"@, 0);
    lemma_starts_not(t, "youtu.be/"@, 0);
    assert forall|i: int| 0 <= i < pre.len() implies !text::occurs_at(
        text::lower(t),
        "/video/"@,
        i,
    ) by {
        if text::occurs_at(text::lower(t), "/video/"@, i) {
            lemma_at(t, "/video/"@, i, 0);
            lemma_at(t, "/video/"@, i, 1);
            assert(t[i] == pre[i]);
            if i >= 12 {
                assert(pre[i] == user[i - 12]);
            }
        }
    }
    lemma_segment(t, pre, "/video/"@, id, rest);
}

/// A short link of TikTok means the video whose code follows the host.
pub proof fn law_tiktok_short_link(id: Seq<char>, rest: Seq<char>)
    requires
        is_id(id),
        is_rest(rest),
        is_flat(rest),
    ensures
        url::meaning("vm.tiktok.com/"@ + id + rest) == Meaning::Video(Platform::TikTok, id),
        url::meaning("vt.tiktok.com/"@ + id + rest) == Meaning::Video(Platform::TikTok, id),
{
    reveal_strlit("vm.tiktok.com/");
    reveal_strlit("vt.tiktok.com/");
    let none = Seq::<char>::empty();
    let m = "vm.tiktok.com/"@ + id + rest;
    let t = "vt.tiktok.com/"@ + id + rest;
    lemma_short_host("vm.tiktok.com/"@, id, rest);
    lemma_short_host("vt.tiktok.com/"@, id, rest);
    assert(text::lower("vm.tiktok.com/"@) =~= "vm.tiktok.com/"@);
    assert(text::lower("vt.tiktok.com/"@) =~= "vt.tiktok.com/"@);
    assert(m =~= none + "vm.tiktok.com/"@ + id + rest);
    assert(t =~= none + "vt.tiktok.com/"@ + id + rest);
    lemma_segment(m, none, "vm.tiktok.com/"@, id, rest);
    lemma_segment(t, none, "vt.tiktok.com/"@, id, rest);
    assert forall|i: int| 0 <= i < t.len() implies !text::occurs_at(
        text::lower(t),
        "vm.tiktok.com/"@,
        i,
    ) by {
        if text::occurs_at(text::lower(t), "vm.tiktok.com/"@, i) {
            lemma_at(t, "vm.tiktok.com/"@, i, 13);
            lemma_slash(t, "vt.tiktok.com/"@, id, rest, i + 13);
            lemma_at(t, "vm.tiktok.com/"@, i, 1);
        }
    }
    lemma_no_segment(t, "vm.tiktok.com/"@);
}

proof fn lemma_short_host(host: Seq<char>, id: Seq<char>, rest: Seq<char>)
    requires
        host == "vm.tiktok.com/"@ || host == "vt.tiktok.com/"@,
        is_id(id),
        is_flat(rest),
    ensures
        ({
            let t = host + id + rest;
            &&& text::contains(text::lower(t), "tiktok.com/"@)
            &&& !text::starts(text::lower(t), "youtube.com/"@)
            &&& !text::starts(text::lower(t), "m.youtube.com/"@)
            &&& !text::starts(text::lower(t), "youtu.be/"@)
            &&& url::segment_after_spec(t, "/video/"@) is None
        }),
{
    reveal_strlit("vm.tiktok.com/");
    reveal_strlit("vt.tiktok.com/");
    reveal_strlit("tiktok.com/");
    reveal_strlit("youtube.com/");
    reveal_strlit("m.youtube.com/");
    reveal_strlit("youtu.be/");
    reveal_strlit("/video/");
    let t = host + id + rest;
    let small = text::lower(t);
    assert(small.subrange(3, 14) =~= "tiktok.com/"@);
    assert(text::occurs_at(small, "tiktok.com/"@, 3));
    lemma_starts_not(t, "youtube.com/"@, 0);
    lemma_starts_not(t, "m.youtube.com/"@, 0);
    lemma_starts_not(t, "youtu.be/"@, 0);
    assert(text::lower("/video/"@) =~= "/video/"@);
    assert forall|i: int| 0 <= i < t.len() implies !text::occurs_at(small, "/video/"@, i) by {
        if text::occurs_at(small, "/video/"@, i) {
            lemma_at(t, "/video/"@, i, 0);
            lemma_at(t, "/video/"@, i, 6);
            lemma_slash(t, host, id, rest, i);
            lemma_slash(t, host, id, rest, i + 6);
        }
    }
    lemma_no_segment(t, "/video/"@);
}

/// A link to a reel of Instagram means that reel.
pub proof fn law_instagram_reels(id: Seq<char>, rest: Seq<char>)
    requires
        is_id(id),
        !text::has_char(id, '.'),
        is_rest(rest),
        rest.len() > 0 ==> is_flat(rest.skip(1)),
    ensures
        url::meaning("instagram.com/reels/"@ + id + rest) == Meaning::Video(Platform::Instagram, id),
{
    reveal_strlit("instagram.com/reels/");
    reveal_strlit("instagram.com");
    reveal_strlit("/reels/");
    reveal_strlit("reels/");
    reveal_strlit("instagram.com/");
    assert(text::lower("/reels/"@) =~= "/reels/"@);
    let t = "instagram.com/reels/"@ + id + rest;
    let more = "reels/"@ + id + rest;
    let pre = "instagram.com"@;
    assert("instagram.com/reels/"@ =~= "instagram.com/"@ + "reels/"@);
    assert("instagram.com/reels/"@ =~= pre + "/reels/"@);
    assert(t =~= "instagram.com/"@ + more);
    assert forall|i: int| 0 <= i < pre.len() implies !text::occurs_at(
        text::lower(t),
        "/reels/"@,
        i,
    ) by {
        if text::occurs_at(text::lower(t), "/reels/"@, i) {
            lemma_at(t, "/reels/"@, i, 0);
            assert(t[i] == pre[i]);
        }
    }
    lemma_segment(t, pre, "/reels/"@, id, rest);
    lemma_instagram_host(t, more);
    if text::contains(text::lower(more), "tiktok.com/"@) {
        lemma_no_tiktok(id, rest);
    }
}

proof fn lemma_no_tiktok(id: Seq<char>, rest: Seq<char>)
    requires
        is_id(id),
        !text::has_char(id, '.'),
        is_rest(rest),
        rest.len() > 0 ==> is_flat(rest.skip(1)),
    ensures
        !text::contains(text::lower("reels/"@ + id + rest), "tiktok.com/"@),
{
    reveal_strlit("reels/");
    reveal_strlit("tiktok.com/");
    let more = "reels/"@ + id + rest;
    if text::contains(text::lower(more), "tiktok.com/"@) {
        let i = choose|i: int| text::occurs_at(text::lower(more), "tiktok.com/"@, i);
        let e = i + 10;
        lemma_at(more, "tiktok.com/"@, i, 10);
        lemma_at(more, "tiktok.com/"@, i, 6);
        let n = id.len() as int;
        if e < 6 + n {
            assert(more[e] == id[e - 6]);
        } else if e > 6 + n {
            assert(more[e] == rest.skip(1)[e - 7 - n]);
        } else if i + 6 >= 6 {
            assert(more[i + 6] == id[i]);
            assert(text::has_char(id, '.'));
        }
    }
}

proof fn lemma_instagram_host(t: Seq<char>, more: Seq<char>)
    requires
        t == "instagram.com/"@ + more,
    ensures
        text::starts(text::lower(t), "instagram.com/"@),
        !text::starts(text::lower(t), "youtube.com/"@),
        !text::starts(text::lower(t), "m.youtube.com/"@),
        !text::starts(text::lower(t), "youtu.be/"@),
        !text::contains(text::lower(more), "tiktok.com/"@) ==> !text::contains(
            text::lower(t),
            "tiktok.com/"@,
        ),
{
    reveal_strlit("instagram.com/");
    reveal_strlit("youtube.com/");
    reveal_strlit("m.youtube.com/");
    reveal_strlit("youtu.be/");
    reveal_strlit("tiktok.com/");
    assert(text::lower("instagram.com/"@) =~= "instagram.com/"@);
    lemma_starts(t, "instagram.com/"@, more);
    lemma_starts_not(t, "youtube.com/"@, 0);
    lemma_starts_not(t, "m.youtube.com/"@, 0);
    lemma_starts_not(t, "youtu.be/"@, 0);
    if text::contains(text::lower(t), "tiktok.com/"@) {
        let i = choose|i: int| text::occurs_at(text::lower(t), "tiktok.com/"@, i);
        if i < 14 {
            lemma_at(t, "tiktok.com/"@, i, 0);
            lemma_at(t, "tiktok.com/"@, i, 1);
            assert(t[i] == "instagram.com/"@[i]);
            if i + 1 < 14 {
                assert(t[i + 1] == "instagram.com/"@[i + 1]);
            }
        } else {
            let small = text::lower(more);
            assert(small.subrange(i - 14, i - 14 + 11) =~= text::lower(t).subrange(i, i + 11));
            assert(text::occurs_at(small, "tiktok.com/"@, i - 14));
        }
    }
}

/// A link to a post of Instagram means that post, whichever of its names the link uses.
pub proof fn law_instagram_post(id: Seq<char>, rest: Seq<char>)
    requires
        is_id(id),
        is_rest(rest),
        is_flat(rest),
    ensures
        url::meaning("instagram.com/reel/"@ + id + rest) == Meaning::Video(Platform::Instagram, id),
        url::meaning("instagram.com/p/"@ + id + rest) == Meaning::Video(Platform::Instagram, id),
        url::meaning("instagram.com/tv/"@ + id + rest) == Meaning::Video(Platform::Instagram, id),
{
    reveal_strlit("instagram.com/reel/");
    reveal_strlit("instagram.com/p/");
    reveal_strlit("instagram.com/tv/");
    reveal_strlit("instagram.com/");
    reveal_strlit("reel/");
    reveal_strlit("p/");
    reveal_strlit("tv/");
    assert("instagram.com/reel/"@ =~= "instagram.com/"@ + "reel/"@);
    assert("instagram.com/p/"@ =~= "instagram.com/"@ + "p/"@);
    assert("instagram.com/tv/"@ =~= "instagram.com/"@ + "tv/"@);
    lemma_instagram_marker("instagram.com/reel/"@, "/reel/"@, "reel/"@, id, rest);
    lemma_instagram_marker("instagram.com/p/"@, "/p/"@, "p/"@, id, rest);
    lemma_instagram_marker("instagram.com/tv/"@, "/tv/"@, "tv/"@, id, rest);
    lemma_other_marker("instagram.com/reel/"@, "/reels/"@, id, rest);
    lemma_other_marker("instagram.com/p/"@, "/reels/"@, id, rest);
    lemma_other_marker("instagram.com/p/"@, "/reel/"@, id, rest);
    lemma_other_marker("instagram.com/tv/"@, "/reels/"@, id, rest);
    lemma_other_marker("instagram.com/tv/"@, "/reel/"@, id, rest);
    lemma_other_marker("instagram.com/tv/"@, "/p/"@, id, rest);
}

proof fn lemma_instagram_marker(
    path: Seq<char>,
    marker: Seq<char>,
    word: Seq<char>,
    id: Seq<char>,
    rest: Seq<char>,
)
    requires
        (path == "instagram.com/reel/"@ && marker == "/reel/"@ && word == "reel/"@) || (path
            == "instagram.com/p/"@ && marker == "/p/"@ && word == "p/"@) || (path
            == "instagram.com/tv/"@ && marker == "/tv/"@ && word == "tv/"@),
        path == "instagram.com/"@ + word,
        is_id(id),
        is_rest(rest),
        is_flat(rest),
    ensures
        url::segment_after_spec(path + id + rest, marker) == Some(id),
        text::starts(text::lower(path + id + rest), "instagram.com/"@),
        !text::starts(text::lower(path + id + rest), "youtube.com/"@),
        !text::starts(text::lower(path + id + rest), "m.youtube.com/"@),
        !text::starts(text::lower(path + id + rest), "youtu.be/"@),
        !text::contains(text::lower(path + id + rest), "tiktok.com/"@),
{
    reveal_strlit("instagram.com/reel/");
    reveal_strlit("instagram.com/p/");
    reveal_strlit("instagram.com/tv/");
    reveal_strlit("instagram.com");
    reveal_strlit("/reel/");
    reveal_strlit("/p/");
    reveal_strlit("/tv/");
    reveal_strlit("reel/");
    reveal_strlit("p/");
    reveal_strlit("tv/");
    reveal_strlit("tiktok.com/");
    let pre = "instagram.com"@;
    let t = path + id + rest;
    assert(path =~= pre + marker);
    assert(text::lower(marker) =~= marker);
    assert forall|i: int| 0 <= i < pre.len() implies !text::occurs_at(text::lower(t), marker, i) by {
        if text::occurs_at(text::lower(t), marker, i) {
            lemma_at(t, marker, i, 0);
            assert(t[i] == pre[i]);
        }
    }
    lemma_segment(t, pre, marker, id, rest);
    let more = word + id + rest;
    assert(t =~= "instagram.com/"@ + more);
    if text::contains(text::lower(more), "tiktok.com/"@) {
        let i = choose|i: int| text::occurs_at(text::lower(more), "tiktok.com/"@, i);
        lemma_at(more, "tiktok.com/"@, i, 10);
        lemma_slash(more, word, id, rest, i + 10);
    }
    lemma_instagram_host(t, more);
}

proof fn lemma_other_marker(path: Seq<char>, marker: Seq<char>, id: Seq<char>, rest: Seq<char>)
    requires
        (path == "instagram.com/reel/"@ && marker == "/reels/"@) || (path == "instagram.com/p/"@ && (
        marker == "/reels/"@ || marker == "/reel/"@)) || (path == "instagram.com/tv/"@ && (marker
            == "/reels/"@ || marker == "/reel/"@ || marker == "/p/"@)),
        is_id(id),
        is_flat(rest),
    ensures
        url::segment_after_spec(path + id + rest, marker) is None,
{
    reveal_strlit("instagram.com/reel/");
    reveal_strlit("instagram.com/p/");
    reveal_strlit("instagram.com/tv/");
    reveal_strlit("/reels/");
    reveal_strlit("/reel/");
    reveal_strlit("/p/");
    let t = path + id + rest;
    assert(text::lower(marker) =~= marker);
    assert forall|i: int| 0 <= i < t.len() implies !text::occurs_at(text::lower(t), marker, i) by {
        if text::occurs_at(text::lower(t), marker, i) {
            let n = marker.len() - 1;
            lemma_at(t, marker, i, 0);
            lemma_at(t, marker, i, n);
            lemma_slash(t, path, id, rest, i);
            lemma_slash(t, path, id, rest, i + n);
            assert(i == 13);
        }
    }
    lemma_no_segment(t, marker);
}

/// A page of YouTube that shows no video means none.
pub proof fn law_youtube_without_a_video(page: Seq<char>)
    requires
        is_flat(page),
        !text::has_char(page, '?'),
    ensures
        url::meaning("youtube.com/"@ + page) == Meaning::NoId,
{
    reveal_strlit("youtube.com/");
    reveal_strlit("/shorts/");
    assert(text::lower("/shorts/"@) =~= "/shorts/"@);
    assert(text::lower("youtube.com/"@) =~= "youtube.com/"@);
    let host = "youtube.com/"@;
    let t = host + page;
    lemma_starts(t, host, page);
    assert forall|i: int| 0 <= i < t.len() implies !text::occurs_at(text::lower(t), "/shorts/"@, i) by {
        if text::occurs_at(text::lower(t), "/shorts/"@, i) {
            lemma_at(t, "/shorts/"@, i, 0);
            lemma_at(t, "/shorts/"@, i, 7);
            if i + 7 >= host.len() {
                assert(t[i + 7] == page[i + 7 - host.len()]);
            }
        }
    }
    lemma_no_segment(t, "/shorts/"@);
    text::lemma_index_of(t, '?', 0);
    if text::index_of(t, '?', 0) < t.len() {
        let i = text::index_of(t, '?', 0);
        if i >= host.len() {
            assert(page[i - host.len()] == '?');
        }
    }
}

/// A link to somewhere else means nothing: what has no path, and what begins otherwise than
/// the hosts of YouTube and Instagram and does not name TikTok.
pub proof fn law_other_links_mean_nothing(t: Seq<char>)
    requires
        is_flat(t) || (t.len() > 0 && text::lower_char(t[0]) != 'y' && text::lower_char(t[0]) != 'm'
            && text::lower_char(t[0]) != 'i' && !text::contains(text::lower(t), "tiktok.com/"@)),
    ensures
        url::meaning(t) == Meaning::Unknown,
{
    reveal_strlit("youtube.com/");
    reveal_strlit("m.youtube.com/");
    reveal_strlit("youtu.be/");
    reveal_strlit("instagram.com/");
    reveal_strlit("m.instagram.com/");
    reveal_strlit("tiktok.com/");
    if is_flat(t) {
        lemma_flat_start(t, "youtube.com/"@);
        lemma_flat_start(t, "m.youtube.com/"@);
        lemma_flat_start(t, "youtu.be/"@);
        lemma_flat_start(t, "instagram.com/"@);
        lemma_flat_start(t, "m.instagram.com/"@);
        if text::contains(text::lower(t), "tiktok.com/"@) {
            let i = choose|i: int| text::occurs_at(text::lower(t), "tiktok.com/"@, i);
            lemma_at(t, "tiktok.com/"@, i, 10);
        }
    } else {
        lemma_starts_not(t, "youtube.com/"@, 0);
        lemma_starts_not(t, "m.youtube.com/"@, 0);
        lemma_starts_not(t, "youtu.be/"@, 0);
        lemma_starts_not(t, "instagram.com/"@, 0);
        lemma_starts_not(t, "m.instagram.com/"@, 0);
    }
}

proof fn lemma_flat_start(t: Seq<char>, p: Seq<char>)
    requires
        is_flat(t),
        p.len() > 0,
        p.last() == '/',
    ensures
        !text::starts(text::lower(t), p),
{
    if text::starts(text::lower(t), p) {
        let k = p.len() - 1;
        assert(text::lower(t).subrange(0, p.len() as int)[k] == text::lower(t)[k]);
        assert(text::lower(t)[k] == text::lower_char(t[k]));
    }
}

/// Whom an error is about, and where a link stands in it: a link that is not understood is
/// reported as it was given.
pub proof fn law_links_are_reported(raw: Seq<char>, r: crate::error::Result<url::ParsedUrl>)
    requires
        url::reports(r, url::meaning(url::address(raw)), raw),
    ensures
        match r {
            Ok(u) => url::meaning(url::address(raw)) == Meaning::Video(u.platform, u.native_id@),
            Err(e) => text::contains(crate::error::error_text(e), raw),
        },
{
    if let Err(e) = r {
        match url::meaning(url::address(raw)) {
            Meaning::NoId => {
                texts::lemma_contains_parts("链接里找不到视频 ID: "@, raw, raw);
            },
            _ => {
                texts::lemma_contains_middle(
                    "无法识别的链接: "@,
                    raw,
                    "\n目前只支持 YouTube / TikTok / Instagram"@,
                );
            },
        }
    }
}

} // verus!
