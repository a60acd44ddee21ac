//! What the service is asked, and the addresses that it gives.

use vstd::prelude::*;
use crate::error;
use crate::error::ClipKnowError;
use crate::ingest::discovery;
use crate::ingest::discovery::Endpoint;
use crate::ingest::download;
use crate::ingest::scrapecreators;
use crate::ingest::url;
use crate::ingest::url::Platform;
use crate::laws::reading;
use crate::laws::rendering;
use crate::laws::runs;
use crate::laws::texts;
use crate::settings;
use crate::text;

verus! {

/// The value of a hexadecimal number grows digit by digit, the last digit last; what is no
/// digit makes it no number, and so do too many digits.
pub proof fn law_hexadecimal(t: Seq<char>, c: char)
    ensures
        t.len() == 0 && '0' <= c <= '9' ==> discovery::hex_value(t.push(c)) == Some(
            c as int - '0' as int,
        ),
        t.len() == 0 && 'a' <= c <= 'f' ==> discovery::hex_value(t.push(c)) == Some(
            c as int - 'a' as int + 10,
        ),
        discovery::hex_value(t) matches Some(v) ==> (t.len() < 15 && '0' <= c <= '9' ==> discovery::hex_value(
            t.push(c),
        ) == Some(16 * v + (c as int - '0' as int))),
        discovery::hex_value(t) matches Some(v) ==> (t.len() < 15 && 'a' <= c <= 'f' ==> discovery::hex_value(
            t.push(c),
        ) == Some(16 * v + (c as int - 'a' as int + 10))),
        !('0' <= c <= '9') && !('a' <= c <= 'f') ==> discovery::hex_value(t.push(c)) is None,
        discovery::hex_value(Seq::<char>::empty()) is None,
        t.len() >= 15 ==> discovery::hex_value(t.push(c)) is None,
{
    let n = t.len() as int;
    lemma_hex_prefix(t, t.push(c), n);
    assert(t.push(c)[n] == c);
}

proof fn lemma_hex_prefix(a: Seq<char>, b: Seq<char>, n: int)
    requires
        0 <= n <= a.len() <= b.len(),
        forall|i: int| 0 <= i < n ==> a[i] == b[i],
    ensures
        discovery::hex_prefix(a, n) == discovery::hex_prefix(b, n),
    decreases n,
{
    if n > 0 {
        lemma_hex_prefix(a, b, n - 1);
    }
}

/// The address of a file works up to the moment that the second segment of its path names,
/// and not from that moment on; where it names none, it counts as one that works.
pub proof fn law_addresses_work_up_to_their_end(
    scheme: Seq<char>,
    host: Seq<char>,
    first: Seq<char>,
    second: Seq<char>,
    rest: Seq<char>,
    now: int,
)
    requires
        !text::has_char(scheme, '/'),
        !text::has_char(host, '/'),
        !text::has_char(first, '/'),
        !text::has_char(second, '/'),
    ensures
        ({
            let t = scheme + "//"@ + host + "/"@ + first + "/"@ + second + "/"@ + rest;
            discovery::address_works(t, now) <==> (discovery::hex_value(second) matches Some(e)
                ==> e > now)
        }),
{
    reveal_strlit("//");
    reveal_strlit("/");
    let none = Seq::<char>::empty();
    let t = scheme + "//"@ + host + "/"@ + first + "/"@ + second + "/"@ + rest;
    let t4 = second + seq!['/'] + rest;
    let t3 = first + seq!['/'] + t4;
    let t2 = host + seq!['/'] + t3;
    let t1 = none + seq!['/'] + t2;
    assert(t =~= scheme + seq!['/'] + t1);
    reading::lemma_parts(scheme, t1, '/');
    reading::lemma_parts(none, t2, '/');
    reading::lemma_parts(host, t3, '/');
    reading::lemma_parts(first, t4, '/');
    reading::lemma_parts(second, rest, '/');
    let p = text::split(rest, '/');
    assert(text::split(t, '/') =~= seq![scheme, none, host, first, second] + p);
}

/// The first number in a text is that of its first run of digits; commas within the run
/// only group them.
pub proof fn law_first_number(before: Seq<char>, n: u32, after: Seq<char>)
    requires
        forall|i: int| 0 <= i < before.len() ==> !text::is_digit(#[trigger] before[i]),
        after.len() > 0 ==> !text::is_digit(after[0]) && after[0] != ',',
    ensures
        discovery::number_in(before + text::int_text(n as int) + after) == Some(n as int),
{
    let d = text::int_text(n as int);
    let t = before + d + after;
    text::lemma_nat_text_value(n as nat);
    lemma_first_digit(t, before.len() as int, 0);
    assert(t.skip(before.len() as int) =~= d + after);
    lemma_digits(t, before.len() as int, d, after);
    text::law_i64_text_reads_back(n as i64);
}

/// A text without digits has no number.
pub proof fn law_no_digits_no_number(t: Seq<char>)
    requires
        forall|i: int| 0 <= i < t.len() ==> !text::is_digit(#[trigger] t[i]),
    ensures
        discovery::number_in(t) is None,
{
    lemma_no_digit(t, 0);
    assert(discovery::digits_at(t, t.len() as int) =~= Seq::empty());
}

proof fn lemma_no_digit(t: Seq<char>, k: int)
    requires
        0 <= k <= t.len(),
        forall|i: int| 0 <= i < t.len() ==> !text::is_digit(#[trigger] t[i]),
    ensures
        discovery::first_digit(t, k) == t.len(),
    decreases t.len() - k,
{
    if k < t.len() {
        lemma_no_digit(t, k + 1);
    }
}

proof fn lemma_first_digit(t: Seq<char>, e: int, k: int)
    requires
        0 <= k <= e < t.len(),
        forall|i: int| 0 <= i < e ==> !text::is_digit(#[trigger] t[i]),
        text::is_digit(t[e]),
    ensures
        discovery::first_digit(t, k) == e,
    decreases e - k,
{
    if k < e {
        lemma_first_digit(t, e, k + 1);
    }
}

proof fn lemma_digits(t: Seq<char>, k: int, d: Seq<char>, after: Seq<char>)
    requires
        0 <= k <= t.len(),
        t.skip(k) == d + after,
        forall|i: int| 0 <= i < d.len() ==> text::is_digit(#[trigger] d[i]),
        after.len() > 0 ==> !text::is_digit(after[0]) && after[0] != ',',
    ensures
        discovery::digits_at(t, k) == d,
    decreases d.len(),
{
    assert(t.skip(k).len() == t.len() - k);
    if d.len() > 0 {
        assert((d + after).len() > 0);
        assert(t[k] == t.skip(k)[0]);
        assert(t.skip(k + 1) =~= t.skip(k).skip(1));
        assert(t.skip(k + 1) =~= d.skip(1) + after);
        lemma_digits(t, k + 1, d.skip(1), after);
        assert(d =~= seq![d[0]] + d.skip(1));
    } else {
        if k < t.len() {
            assert(t[k] == t.skip(k)[0]);
            assert(t.skip(k)[0] == after[0]);
        }
        assert(d =~= Seq::empty());
    }
}

/// Digits that are grouped by a comma are one number.
pub proof fn law_commas_group_digits(a: Seq<char>, b: Seq<char>, after: Seq<char>)
    requires
        a.len() > 0,
        forall|i: int| 0 <= i < a.len() ==> text::is_digit(#[trigger] a[i]),
        forall|i: int| 0 <= i < b.len() ==> text::is_digit(#[trigger] b[i]),
        after.len() > 0 ==> !text::is_digit(after[0]) && after[0] != ',',
    ensures
        discovery::number_in(a + ","@ + b + after) == discovery::number_in(a + b + after),
{
    reveal_strlit(",");
    let t = a + ","@ + b + after;
    let u = a + b + after;
    assert(t[0] == a[0] && u[0] == a[0]);
    assert(discovery::first_digit(t, 0) == 0);
    assert(discovery::first_digit(u, 0) == 0);
    assert(u.skip(0) =~= (a + b) + after);
    assert forall|i: int| 0 <= i < (a + b).len() implies text::is_digit(#[trigger] (a + b)[i]) by {
        if i < a.len() {
            assert((a + b)[i] == a[i]);
        } else {
            assert((a + b)[i] == b[i - a.len()]);
        }
    }
    lemma_digits(u, 0, a + b, after);
    assert(","@ =~= seq![',']);
    assert(t.skip(0) =~= a + seq![','] + b + after);
    lemma_grouped(t, 0, a, b, after);
}

proof fn lemma_grouped(t: Seq<char>, k: int, a: Seq<char>, b: Seq<char>, after: Seq<char>)
    requires
        0 <= k <= t.len(),
        t.skip(k) == a + seq![','] + b + after,
        forall|i: int| 0 <= i < a.len() ==> text::is_digit(#[trigger] a[i]),
        forall|i: int| 0 <= i < b.len() ==> text::is_digit(#[trigger] b[i]),
        after.len() > 0 ==> !text::is_digit(after[0]) && after[0] != ',',
    ensures
        discovery::digits_at(t, k) == a + b,
    decreases a.len(),
{
    assert(t[k] == t.skip(k)[0]);
    if a.len() > 0 {
        assert(t.skip(k + 1) =~= t.skip(k).skip(1));
        assert(t.skip(k + 1) =~= a.skip(1) + seq![','] + b + after);
        lemma_grouped(t, k + 1, a.skip(1), b, after);
        assert(a + b =~= seq![a[0]] + (a.skip(1) + b));
    } else {
        assert(t[k] == ',');
        assert(t.skip(k + 1) =~= t.skip(k).skip(1));
        assert(t.skip(k + 1) =~= b + after);
        lemma_digits(t, k + 1, b, after);
        assert(a + b =~= b);
    }
}

/// A size is written in tenths of a megabyte, the nearest one.
pub proof fn law_sizes_are_rounded(bytes: int)
    requires
        0 <= bytes,
    ensures
        -524_288 <= download::tenths(bytes) * 1_048_576 - bytes * 10 <= 524_288,
        ({
            let parts = text::split(download::megabytes_text(bytes), '.');
            &&& parts.len() == 2
            &&& exists|a: int, b: int|
                #[trigger] rendering::is_number(parts[0], a) && #[trigger] rendering::is_number(
                    parts[1],
                    b,
                ) && 0 <= b < 10 && 10 * a + b == download::tenths(bytes)
        }),
{
    let q = download::tenths(bytes);
    let a = q / 10;
    let b = q % 10;
    rendering::lemma_number(a);
    rendering::lemma_number(b);
    reveal_strlit(".");
    assert("."@ =~= seq!['.']);
    lemma_no_dot(text::int_text(a));
    lemma_no_dot(text::int_text(b));
    reading::lemma_parts(text::int_text(a), text::int_text(b), '.');
    reading::lemma_parts(text::int_text(b), Seq::empty(), '.');
    let parts = text::split(download::megabytes_text(bytes), '.');
    assert(parts =~= seq![text::int_text(a), text::int_text(b)]);
    assert(rendering::is_number(parts[0], a) && rendering::is_number(parts[1], b));
}

/// That a video is too big is told with how big it is and how big it may be.
pub proof fn law_big_videos_are_refused(e: ClipKnowError, actual: int, limit: int)
    requires
        download::says_too_big(e, actual, limit),
    ensures
        e matches ClipKnowError::Fetch { platform, message } && text::contains(
            message@,
            "视频 "@ + download::megabytes_text(actual),
        ) && text::contains(message@, "MB，超过 "@ + text::int_text(limit / 1_048_576)),
{
    runs::lemma_run_5(
        "视频 "@,
        download::megabytes_text(actual),
        "MB，超过 "@,
        text::int_text(limit / 1_048_576),
        "MB 下载上限"@,
    );
}

proof fn lemma_no_dot(t: Seq<char>)
    requires
        text::all_digits(t),
    ensures
        !text::has_char(t, '.'),
{
    if text::has_char(t, '.') {
        let i = choose|i: int| 0 <= i < t.len() && t[i] == '.';
        assert(text::is_digit(t[i]));
    }
}

/// Every endpoint that is asked is one of the platform that it is asked about, and each of
/// the three questions about a video has its own.
pub proof fn law_endpoints_are_of_the_platform(p: Platform)
    ensures
        text::contains(
            scrapecreators::detail_path(p),
            "/"@ + url::platform_name(p) + "/"@,
        ),
        text::contains(
            scrapecreators::transcript_path(p),
            "/"@ + url::platform_name(p) + "/"@,
        ),
        text::contains(scrapecreators::transcript_path(p), "/transcript"@),
        text::contains(
            scrapecreators::comments_path(p),
            "/"@ + url::platform_name(p) + "/"@,
        ),
        text::contains(scrapecreators::comments_path(p), "/comments"@),
        !text::contains(scrapecreators::detail_path(p), "s"@ + "/"@),
{
    reveal_strlit("/");
    reveal_strlit("s");
    reveal_strlit("/transcript");
    reveal_strlit("/comments");
    match p {
        Platform::YouTube => {
            reveal_strlit("youtube");
            reveal_strlit("/v1/youtube/video");
            reveal_strlit("/v1/youtube/video/transcript");
            reveal_strlit("/v1/youtube/video/comments");
            lemma_there("/v1/youtube/video"@, "/"@ + "youtube"@ + "/"@, 3);
            lemma_there("/v1/youtube/video/transcript"@, "/"@ + "youtube"@ + "/"@, 3);
            lemma_there("/v1/youtube/video/comments"@, "/"@ + "youtube"@ + "/"@, 3);
            lemma_there("/v1/youtube/video/transcript"@, "/transcript"@, 17);
            lemma_there("/v1/youtube/video/comments"@, "/comments"@, 17);
        },
        Platform::TikTok => {
            reveal_strlit("tiktok");
            reveal_strlit("/v2/tiktok/video");
            reveal_strlit("/v1/tiktok/video/transcript");
            reveal_strlit("/v1/tiktok/video/comments");
            lemma_there("/v2/tiktok/video"@, "/"@ + "tiktok"@ + "/"@, 3);
            lemma_there("/v1/tiktok/video/transcript"@, "/"@ + "tiktok"@ + "/"@, 3);
            lemma_there("/v1/tiktok/video/comments"@, "/"@ + "tiktok"@ + "/"@, 3);
            lemma_there("/v1/tiktok/video/transcript"@, "/transcript"@, 16);
            lemma_there("/v1/tiktok/video/comments"@, "/comments"@, 16);
        },
        Platform::Instagram => {
            reveal_strlit("instagram");
            reveal_strlit("/v1/instagram/post");
            reveal_strlit("/v2/instagram/media/transcript");
            reveal_strlit("/v2/instagram/post/comments");
            lemma_there("/v1/instagram/post"@, "/"@ + "instagram"@ + "/"@, 3);
            lemma_there("/v2/instagram/media/transcript"@, "/"@ + "instagram"@ + "/"@, 3);
            lemma_there("/v2/instagram/post/comments"@, "/"@ + "instagram"@ + "/"@, 3);
            lemma_there("/v2/instagram/media/transcript"@, "/transcript"@, 19);
            lemma_there("/v2/instagram/post/comments"@, "/comments"@, 18);
        },
    }
    let t = scrapecreators::detail_path(p);
    let q = "s"@ + "/"@;
    if text::contains(t, q) {
        let i = choose|i: int| text::occurs_at(t, q, i);
        assert(t.subrange(i, i + q.len())[0] == t[i]);
        assert(t.subrange(i, i + q.len())[1] == t[i + 1]);
        assert(q[0] == 's' && q[1] == '/');
        assert(t[i] == 's' && t[i + 1] == '/');
    }
}

/// A text stands at a place at which its characters stand.
proof fn lemma_there(t: Seq<char>, p: Seq<char>, i: int)
    requires
        0 <= i,
        i + p.len() <= t.len(),
        forall|k: int| 0 <= k < p.len() ==> #[trigger] p[k] == t[i + k],
    ensures
        text::contains(t, p),
{
    assert(t.subrange(i, i + p.len()) =~= p);
    assert(text::occurs_at(t, p, i));
}

/// What is looked for goes along with the question, as the first parameter: as a query
/// where something is searched, and as a handle where a creator is named. Videos of
/// Instagram cannot be searched.
pub proof fn law_questions_carry_what_is_looked_for(ep: Endpoint, p: Platform, arg: Seq<char>)
    ensures
        (ep == Endpoint::SearchVideos && p == Platform::Instagram) <==> discovery::route_path(
            ep,
            p,
        ) is None,
        discovery::route_path(ep, p) is Some ==> {
            let v = discovery::route_params(ep, p, arg);
            &&& v.len() > 0
            &&& v[0].1 == arg
            &&& ep is SearchVideos || ep is SearchCreators ==> v[0].0 == "query"@
            &&& ep is GetCreator || ep is GetCreatorVideos ==> v[0].0 == "handle"@ && v.len() == 1
        },
{
}

/// Whether a question has a parameter with a value.
pub open spec fn has_param(v: Seq<(Seq<char>, Seq<char>)>, name: Seq<char>, value: Seq<char>) -> bool {
    exists|i: int| 0 <= i < v.len() && #[trigger] v[i] == (name, value)
}

/// YouTube is told whether videos or channels are searched, and to say more of them; and
/// where videos are searched, those come first that most people watch or like.
pub proof fn law_searches_say_what_is_searched(arg: Seq<char>)
    ensures
        ({
            let v = discovery::route_params(Endpoint::SearchVideos, Platform::YouTube, arg);
            let c = discovery::route_params(Endpoint::SearchCreators, Platform::YouTube, arg);
            let t = discovery::route_params(Endpoint::SearchVideos, Platform::TikTok, arg);
            &&& has_param(v, "type"@, "videos"@) && has_param(c, "type"@, "channels"@)
            &&& has_param(v, "includeExtras"@, "true"@) && has_param(c, "includeExtras"@, "true"@)
            &&& has_param(v, "sortBy"@, "popular"@) && has_param(t, "sort_by"@, "most-liked"@)
        }),
{
    let v = discovery::route_params(Endpoint::SearchVideos, Platform::YouTube, arg);
    let c = discovery::route_params(Endpoint::SearchCreators, Platform::YouTube, arg);
    let t = discovery::route_params(Endpoint::SearchVideos, Platform::TikTok, arg);
    assert(v[1] == ("type"@, "videos"@) && v[2] == ("sortBy"@, "popular"@) && v[3] == (
        "includeExtras"@,
        "true"@,
    ));
    assert(c[1] == ("type"@, "channels"@) && c[2] == ("includeExtras"@, "true"@));
    assert(t[1] == ("sort_by"@, "most-liked"@));
}

/// A variable that is blank counts as one that is not set; every other is what it is.
pub proof fn law_blank_settings_are_none(value: Seq<char>)
    ensures
        text::blank(value) ==> settings::setting(Some(value)) is None,
        !text::blank(value) ==> settings::setting(Some(value)) == Some(value),
        settings::setting(None) is None,
{
}

/// What is shown of an error names what it is about.
pub proof fn law_errors_say_why(e: ClipKnowError)
    ensures
        match e {
            ClipKnowError::UnsupportedUrl(m) => text::contains(error::error_text(e), m@),
            ClipKnowError::NoVideoId(m) => text::contains(error::error_text(e), m@),
            ClipKnowError::Fetch { platform, message } => text::contains(
                error::error_text(e),
                platform@,
            ) && text::contains(error::error_text(e), message@),
            ClipKnowError::Llm(m) => text::contains(error::error_text(e), m@),
            ClipKnowError::LlmRefusal => error::error_text(e).len() > 0,
            ClipKnowError::Db(m) => text::contains(error::error_text(e), m@),
            ClipKnowError::Http(m) => text::contains(error::error_text(e), m@),
            ClipKnowError::Json(m) => text::contains(error::error_text(e), m@),
            ClipKnowError::MissingEnv(m) => text::contains(error::error_text(e), m@),
            ClipKnowError::BadRequest(m) => error::error_text(e) == m@,
        },
{
    match e {
        ClipKnowError::UnsupportedUrl(m) => {
            texts::lemma_contains_middle(
                "无法识别的链接: "@,
                m@,
                "\n目前只支持 YouTube / TikTok / Instagram"@,
            );
        },
        ClipKnowError::NoVideoId(m) => {
            texts::lemma_contains_parts("链接里找不到视频 ID: "@, m@, m@);
        },
        ClipKnowError::Fetch { platform, message } => {
            let a = "抓取失败 ("@ + platform@ + "): "@;
            texts::lemma_contains_middle("抓取失败 ("@, platform@, "): "@);
            texts::lemma_contains_parts(a, message@, platform@);
            texts::lemma_contains_parts(a, message@, message@);
        },
        ClipKnowError::Llm(m) => {
            texts::lemma_contains_parts("大模型调用失败: "@, m@, m@);
        },
        ClipKnowError::LlmRefusal => {
            reveal_strlit("模型拒绝回答（stop_reason=refusal）");
        },
        ClipKnowError::Db(m) => {
            texts::lemma_contains_parts("数据库错误: "@, m@, m@);
        },
        ClipKnowError::Http(m) => {
            texts::lemma_contains_parts("网络错误: "@, m@, m@);
        },
        ClipKnowError::Json(m) => {
            texts::lemma_contains_parts("JSON 解析失败: "@, m@, m@);
        },
        ClipKnowError::MissingEnv(m) => {
            texts::lemma_contains_middle(
                "缺少环境变量 "@,
                m@,
                "，请在 ~/.zshrc 里设置后重开终端"@,
            );
        },
        ClipKnowError::BadRequest(m) => {},
    }
}

} // verus!
