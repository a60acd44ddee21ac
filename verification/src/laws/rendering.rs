//! What is told of a video, and how.

use vstd::prelude::*;
use crate::content::dossier;
use crate::content::evidence;
use crate::content::model::{Comment, Video};
use crate::ingest::url;
use crate::laws::reading;
use crate::laws::texts;
use crate::store::StoredVideo;
use crate::text;

verus! {

/// Whether a text is `n` in two digits.
pub open spec fn is_two_digits(t: Seq<char>, n: int) -> bool {
    t.len() == 2 && text::all_digits(t) && text::digits_value(t) == n
}

/// Whether a text is a number, in digits without a leading zero.
pub open spec fn is_number(t: Seq<char>, n: int) -> bool {
    text::all_digits(t) && text::digits_value(t) == n && (t.len() > 1 ==> t[0] != '0')
}

proof fn lemma_two_digits(n: int)
    requires
        0 <= n < 60,
    ensures
        is_two_digits(text::two_digits(n), n),
        !text::has_char(text::two_digits(n), ':'),
{
    text::lemma_nat_text_value(n as nat);
    let t = text::two_digits(n);
    if n < 10 {
        assert(t.drop_last() =~= seq!['0']);
        assert(seq!['0'].drop_last() =~= seq![]);
        assert(text::digits_value(seq![]) == 0);
        assert(text::digits_value(seq!['0']) == 0);
    } else {
        assert(text::nat_text((n / 10) as nat).len() == 1);
    }
    lemma_no_colon(t);
}

proof fn lemma_no_colon(t: Seq<char>)
    requires
        text::all_digits(t),
    ensures
        !text::has_char(t, ':'),
{
    if text::has_char(t, ':') {
        let i = choose|i: int| 0 <= i < t.len() && t[i] == ':';
        assert(text::is_digit(t[i]));
    }
}

/// How a number is written.
pub proof fn lemma_number(n: int)
    requires
        0 <= n,
    ensures
        is_number(text::int_text(n), n),
        !text::has_char(text::int_text(n), ':'),
{
    text::lemma_nat_text_value(n as nat);
    lemma_first_digit(n as nat);
    lemma_no_colon(text::int_text(n));
}

proof fn lemma_first_digit(n: nat)
    ensures
        text::nat_text(n).len() > 0,
        n > 0 ==> text::nat_text(n)[0] != '0',
        n < 10 ==> text::nat_text(n).len() == 1,
    decreases n,
{
    if n >= 10 {
        lemma_first_digit(n / 10);
    }
}

/// A length of time reads back as what it is: from an hour on it is hours, minutes and
/// seconds, and below an hour minutes and seconds, with less than sixty minutes and seconds,
/// each in two digits behind a colon.
pub proof fn law_duration_reads_back(secs: int)
    requires
        0 <= secs,
    ensures
        ({
            let parts = text::split(evidence::duration_text(secs), ':');
            if secs >= 3600 {
                exists|h: int, mm: int, ss: int|
                    {
                        &&& parts.len() == 3
                        &&& #[trigger] is_number(parts[0], h)
                        &&& #[trigger] is_two_digits(parts[1], mm)
                        &&& #[trigger] is_two_digits(parts[2], ss)
                        &&& 0 <= mm < 60 && 0 <= ss < 60
                        &&& h * 3600 + mm * 60 + ss == secs
                    }
            } else {
                exists|m: int, ss: int|
                    {
                        &&& parts.len() == 2
                        &&& #[trigger] is_number(parts[0], m)
                        &&& #[trigger] is_two_digits(parts[1], ss)
                        &&& 0 <= ss < 60
                        &&& m * 60 + ss == secs
                    }
            }
        }),
{
    reveal_strlit(":");
    assert(":"@ =~= seq![':']);
    let t = evidence::duration_text(secs);
    let m = secs / 60;
    let ss = secs % 60;
    lemma_two_digits(ss);
    if secs >= 3600 {
        let h = m / 60;
        let mm = m % 60;
        lemma_number(h);
        lemma_two_digits(mm);
        let a = text::int_text(h);
        let b = text::two_digits(mm);
        let c = text::two_digits(ss);
        assert(t =~= a + seq![':'] + (b + seq![':'] + c));
        reading::lemma_parts(a, b + seq![':'] + c, ':');
        reading::lemma_parts(b, c, ':');
        reading::lemma_parts(c, seq![], ':');
        let parts = text::split(t, ':');
        assert(parts =~= seq![a, b, c]);
        assert(is_number(parts[0], h) && is_two_digits(parts[1], mm) && is_two_digits(parts[2], ss));
    } else {
        lemma_number(m);
        let a = text::int_text(m);
        let c = text::two_digits(ss);
        reading::lemma_parts(a, c, ':');
        reading::lemma_parts(c, seq![], ':');
        let parts = text::split(t, ':');
        assert(parts =~= seq![a, c]);
        assert(is_number(parts[0], m) && is_two_digits(parts[1], ss));
    }
}

/// A moment in a video reads back as what it is: minutes, and seconds in two digits.
pub proof fn law_clock_reads_back(sec: int)
    ensures
        ({
            let parts = text::split(dossier::clock_text(sec), ':');
            exists|m: int, ss: int|
                {
                    &&& parts.len() == 2
                    &&& #[trigger] is_number(parts[0], m)
                    &&& #[trigger] is_two_digits(parts[1], ss)
                    &&& 0 <= ss < 60
                    &&& m * 60 + ss == (if sec < 0 {
                        0
                    } else {
                        sec
                    })
                }
        }),
{
    reveal_strlit(":");
    assert(":"@ =~= seq![':']);
    let s: int = if sec < 0 {
        0
    } else {
        sec
    };
    let m = s / 60;
    let ss = s % 60;
    lemma_two_digits(ss);
    lemma_number(m);
    let a = text::int_text(m);
    let c = text::two_digits(ss);
    reading::lemma_parts(a, c, ':');
    reading::lemma_parts(c, seq![], ':');
    let parts = text::split(dossier::clock_text(sec), ':');
    assert(parts =~= seq![a, c]);
    assert(is_number(parts[0], m) && is_two_digits(parts[1], ss));
}

/// The parts of a material: what is known of the video, what is said in it, and what is
/// said about it, in this order.
pub proof fn law_material_has_its_parts(sv: StoredVideo, limit: int, date: Option<Seq<char>>)
    ensures
        ({
            let t = evidence::material(sv, limit, date);
            let said = evidence::transcript_text(
                match sv.transcript {
                    Some(x) => Some(x.text@),
                    None => None,
                },
                limit,
            );
            let known = evidence::metadata_text(sv.video, date);
            let comments = evidence::comments_text(sv.comments@, sv.video.comment_count);
            &&& text::contains(t, known)
            &&& text::contains(t, said)
            &&& text::contains(t, comments)
            &&& texts::in_order(t, known, said)
            &&& texts::in_order(t, said, comments)
        }),
{
    let t = evidence::material(sv, limit, date);
    let said = evidence::transcript_text(
        match sv.transcript {
            Some(x) => Some(x.text@),
            None => None,
        },
        limit,
    );
    let known = evidence::metadata_text(sv.video, date);
    let comments = evidence::comments_text(sv.comments@, sv.video.comment_count);
    let h1 = evidence::MATERIAL_OPEN@ + "\n"@ + "=== 视频信息 ===\n"@;
    let h2 = "\n=== 文字稿 ===\n"@;
    let end = evidence::MATERIAL_CLOSE@ + "\n"@;
    assert(t =~= h1 + known + h2 + said + comments + end);
    let a = h1 + known;
    let b = h2 + said;
    let c = comments + end;
    assert(t =~= a + (b + c));
    assert(t =~= (a + b) + c);
    texts::lemma_contains_middle(h1, known, seq![]);
    texts::lemma_contains_middle(h2, said, seq![]);
    texts::lemma_contains_middle(seq![], comments, end);
    assert(text::contains(c, comments)) by {
        texts::lemma_contains_parts(comments, end, comments);
    }
    texts::lemma_contains_parts(a, b + c, known);
    texts::lemma_contains_parts(b, c, said);
    texts::lemma_contains_parts(a, b + c, said);
    texts::lemma_contains_parts(a + b, c, comments);
    texts::lemma_in_order(a, b + c, known, said);
    texts::lemma_contains_parts(a, b, said);
    texts::lemma_in_order(a + b, c, said, comments);
}

/// What stands in joined texts: each of them.
pub proof fn lemma_joined(v: Seq<Seq<char>>, sep: Seq<char>, i: int, j: int)
    requires
        0 <= i < v.len(),
    ensures
        text::contains(text::join(v, sep), v[i]),
        i < j < v.len() ==> texts::in_order(text::join(v, sep), v[i], v[j]),
    decreases v.len(),
{
    if v.len() == 1 {
        texts::lemma_contains_parts(v[0], v[0], v[0]);
    } else {
        let before = v.drop_last();
        let a = text::join(before, sep) + sep;
        texts::lemma_contains_parts(v.last(), v.last(), v.last());
        texts::lemma_contains_parts(a, v.last(), v[i]);
        if i < v.len() - 1 {
            lemma_joined(before, sep, i, j);
            texts::lemma_contains_parts(text::join(before, sep), sep, v[i]);
            if i < j < v.len() {
                texts::lemma_in_order(text::join(before, sep), sep, v[i], v[j]);
                texts::lemma_in_order(a, v.last(), v[i], v[j]);
            }
        }
    }
}

proof fn lemma_stats(v: Video)
    ensures
        v.view_count matches Some(n) ==> text::contains(
            evidence::stats_line(v),
            "播放 "@ + text::int_text(n as int),
        ),
        v.like_count matches Some(n) ==> text::contains(
            evidence::stats_line(v),
            "点赞 "@ + text::int_text(n as int),
        ),
        v.comment_count matches Some(n) ==> text::contains(
            evidence::stats_line(v),
            "评论 "@ + text::int_text(n as int),
        ),
{
    let s = evidence::stats(v);
    let a = evidence::stat("播放 "@, v.view_count);
    let b = evidence::stat("点赞 "@, v.like_count);
    if let Some(n) = v.view_count {
        assert(s[0] == "播放 "@ + text::int_text(n as int));
        lemma_stat(v, 0);
    }
    if let Some(n) = v.like_count {
        assert(s[a.len() as int] == "点赞 "@ + text::int_text(n as int));
        lemma_stat(v, a.len() as int);
    }
    if let Some(n) = v.comment_count {
        assert(s[(a.len() + b.len()) as int] == "评论 "@ + text::int_text(n as int));
        lemma_stat(v, (a.len() + b.len()) as int);
    }
}

proof fn lemma_stat(v: Video, i: int)
    requires
        0 <= i < evidence::stats(v).len(),
    ensures
        text::contains(evidence::stats_line(v), evidence::stats(v)[i]),
{
    let s = evidence::stats(v);
    let j = text::join(s, " / "@);
    lemma_joined(s, " / "@, i, i);
    texts::lemma_contains_middle("数据: "@, j, "\n"@);
    texts::lemma_contains_parts(evidence::stats_line(v), j, s[i]);
}

/// What is known of a video is told with its name: its platform, its title, its author, its
/// length, its day, its counts and its description, each where it is known, and with the
/// tags in it spelled out.
pub proof fn law_metadata_tells_what_is_known(v: Video, date: Option<Seq<char>>)
    ensures
        ({
            let t = evidence::metadata_text(v, date);
            &&& text::contains(t, "平台: "@ + url::platform_name(v.platform))
            &&& v.title matches Some(s) ==> text::contains(t, "标题: "@ + evidence::neutral(s@))
            &&& v.author_name matches Some(n) ==> text::contains(
                t,
                "作者: "@ + evidence::neutral(n@),
            )
            &&& v.author_handle matches Some(h) ==> text::contains(t, "@"@ + evidence::neutral(h@))
            &&& v.duration_sec matches Some(d) ==> text::contains(
                t,
                "时长: "@ + evidence::duration_text(d as int),
            )
            &&& date matches Some(d) ==> text::contains(t, "发布时间: "@ + d)
            &&& v.view_count matches Some(n) ==> text::contains(
                t,
                "播放 "@ + text::int_text(n as int),
            )
            &&& v.like_count matches Some(n) ==> text::contains(
                t,
                "点赞 "@ + text::int_text(n as int),
            )
            &&& v.comment_count matches Some(n) ==> text::contains(
                t,
                "评论 "@ + text::int_text(n as int),
            )
            &&& v.description matches Some(d) ==> (!text::blank(d@) ==> text::contains(
                t,
                "简介: "@ + evidence::neutral(text::trim(d@)),
            ))
        }),
{
    let t = evidence::metadata_text(v, date);
    let l0 = "平台: "@ + url::platform_name(v.platform) + "\n"@;
    let l1 = evidence::opt_line("标题: "@, evidence::opt_neutral(text::opt(v.title)));
    let l2 = evidence::author_line(text::opt(v.author_name), text::opt(v.author_handle));
    let l3 = evidence::opt_line("时长: "@, evidence::opt_duration(v.duration_sec));
    let l4 = evidence::opt_line("发布时间: "@, date);
    let l5 = evidence::stats_line(v);
    let l6 = evidence::description_line(text::opt(v.description));
    assert(t == l0 + l1 + l2 + l3 + l4 + l5 + l6);
    lemma_seven(l0, l1, l2, l3, l4, l5, l6);
    {
        let p = "平台: "@ + url::platform_name(v.platform);
        lemma_within(t, l0, p, "\n"@);
    }
    if let Some(s) = v.title {
        lemma_within(t, l1, "标题: "@ + evidence::neutral(s@), "\n"@);
    }
    lemma_author(v);
    if let Some(n) = v.author_name {
        texts::lemma_contains_parts(t, l2, "作者: "@ + evidence::neutral(n@));
    }
    if let Some(h) = v.author_handle {
        texts::lemma_contains_parts(t, l2, "@"@ + evidence::neutral(h@));
    }
    if let Some(d) = v.duration_sec {
        lemma_within(t, l3, "时长: "@ + evidence::duration_text(d as int), "\n"@);
    }
    if let Some(d) = date {
        lemma_within(t, l4, "发布时间: "@ + d, "\n"@);
    }
    lemma_stats(v);
    if let Some(n) = v.view_count {
        texts::lemma_contains_parts(t, l5, "播放 "@ + text::int_text(n as int));
    }
    if let Some(n) = v.like_count {
        texts::lemma_contains_parts(t, l5, "点赞 "@ + text::int_text(n as int));
    }
    if let Some(n) = v.comment_count {
        texts::lemma_contains_parts(t, l5, "评论 "@ + text::int_text(n as int));
    }
    if let Some(d) = v.description {
        if !text::blank(d@) {
            texts::law_trim_takes_white_space(d@);
            lemma_within(t, l6, "简介: "@ + evidence::neutral(text::trim(d@)), "\n"@);
        }
    }
}

/// What is not known of a video is not told: of one of which nothing is known but its
/// platform, the platform is told and nothing else.
pub proof fn law_metadata_tells_nothing_else(v: Video)
    requires
        v.title is None,
        v.author_name is None,
        v.author_handle is None,
        v.duration_sec is None,
        v.view_count is None,
        v.like_count is None,
        v.comment_count is None,
        v.description is None || text::blank((v.description->Some_0)@),
    ensures
        evidence::metadata_text(v, None) == "平台: "@ + url::platform_name(v.platform) + "\n"@,
{
    if let Some(d) = v.description {
        texts::law_trim_takes_white_space(d@);
    }
    assert(evidence::stats(v).len() == 0);
    assert(evidence::metadata_text(v, None) =~= "平台: "@ + url::platform_name(v.platform) + "\n"@);
}

/// What a line of a text begins with stands in the text.
pub proof fn lemma_within(t: Seq<char>, line: Seq<char>, p: Seq<char>, end: Seq<char>)
    requires
        text::contains(t, line),
        line == p + end,
    ensures
        text::contains(t, p),
{
    texts::lemma_contains_parts(p, end, p);
    texts::lemma_contains_parts(t, line, p);
}

proof fn lemma_seven(
    a: Seq<char>,
    b: Seq<char>,
    c: Seq<char>,
    d: Seq<char>,
    e: Seq<char>,
    f: Seq<char>,
    g: Seq<char>,
)
    ensures
        text::contains(a + b + c + d + e + f + g, a),
        text::contains(a + b + c + d + e + f + g, b),
        text::contains(a + b + c + d + e + f + g, c),
        text::contains(a + b + c + d + e + f + g, d),
        text::contains(a + b + c + d + e + f + g, e),
        text::contains(a + b + c + d + e + f + g, f),
        text::contains(a + b + c + d + e + f + g, g),
{
    let t2 = a + b;
    let t3 = t2 + c;
    let t4 = t3 + d;
    let t5 = t4 + e;
    let t6 = t5 + f;
    texts::lemma_contains_parts(a, b, a);
    texts::lemma_contains_parts(a, b, b);
    texts::lemma_contains_parts(t2, c, a);
    texts::lemma_contains_parts(t2, c, b);
    texts::lemma_contains_parts(t2, c, c);
    texts::lemma_contains_parts(t3, d, a);
    texts::lemma_contains_parts(t3, d, b);
    texts::lemma_contains_parts(t3, d, c);
    texts::lemma_contains_parts(t3, d, d);
    texts::lemma_contains_parts(t4, e, a);
    texts::lemma_contains_parts(t4, e, b);
    texts::lemma_contains_parts(t4, e, c);
    texts::lemma_contains_parts(t4, e, d);
    texts::lemma_contains_parts(t4, e, e);
    texts::lemma_contains_parts(t5, f, a);
    texts::lemma_contains_parts(t5, f, b);
    texts::lemma_contains_parts(t5, f, c);
    texts::lemma_contains_parts(t5, f, d);
    texts::lemma_contains_parts(t5, f, e);
    texts::lemma_contains_parts(t5, f, f);
    texts::lemma_contains_parts(t6, g, a);
    texts::lemma_contains_parts(t6, g, b);
    texts::lemma_contains_parts(t6, g, c);
    texts::lemma_contains_parts(t6, g, d);
    texts::lemma_contains_parts(t6, g, e);
    texts::lemma_contains_parts(t6, g, f);
    texts::lemma_contains_parts(t6, g, g);
}

proof fn lemma_author(v: Video)
    ensures
        v.author_name matches Some(n) ==> text::contains(
            evidence::author_line(text::opt(v.author_name), text::opt(v.author_handle)),
            "作者: "@ + evidence::neutral(n@),
        ),
        v.author_handle matches Some(h) ==> text::contains(
            evidence::author_line(text::opt(v.author_name), text::opt(v.author_handle)),
            "@"@ + evidence::neutral(h@),
        ),
{
    let l = evidence::author_line(text::opt(v.author_name), text::opt(v.author_handle));
    reveal_strlit("@");
    reveal_strlit(" (@");
    reveal_strlit("作者: @");
    match (v.author_name, v.author_handle) {
        (Some(n), Some(h)) => {
            let x = evidence::neutral(n@);
            let y = evidence::neutral(h@);
            assert(l =~= ("作者: "@ + x) + (" (@"@ + y + ")\n"@));
            texts::lemma_contains_parts("作者: "@ + x, " (@"@ + y + ")\n"@, "作者: "@ + x);
            let pre = "作者: "@ + x + seq![' ', '('];
            assert(l =~= pre + ("@"@ + y) + ")\n"@);
            texts::lemma_contains_middle(pre, "@"@ + y, ")\n"@);
        },
        (Some(n), None) => {
            let x = evidence::neutral(n@);
            texts::lemma_contains_parts("作者: "@ + x, "\n"@, "作者: "@ + x);
        },
        (None, Some(h)) => {
            let y = evidence::neutral(h@);
            let pre = "作者: @"@.take(4);
            assert(l =~= pre + ("@"@ + y) + "\n"@);
            texts::lemma_contains_middle(pre, "@"@ + y, "\n"@);
        },
        (None, None) => {},
    }
}

/// What is said in a video is told whole where it is no longer than the limit, and
/// otherwise as many characters of its beginning; it is said which, and how many
/// characters there are. Where nothing is said, that is told.
pub proof fn law_transcript_is_told(raw: Seq<char>, limit: int)
    requires
        0 <= limit,
    ensures
        ({
            let n = evidence::neutral(raw);
            let t = evidence::transcript_text(Some(raw), limit);
            let size = text::int_text(n.len() as int);
            &&& !text::blank(raw) && n.len() <= limit ==> {
                &&& text::contains(t, n)
                &&& text::contains(t, "[状态：完整，共 "@ + size)
            }
            &&& !text::blank(raw) && n.len() > limit ==> {
                &&& text::contains(t, n.take(limit) + "\n"@)
                &&& text::contains(t, "[状态：已截断 —— 原文共 "@ + size)
                &&& text::contains(t, "以下只给出前 "@ + text::int_text(limit))
                &&& text::occurs_at(t, n.take(limit) + "\n"@, t.len() - limit - 1)
            }
            &&& text::blank(raw) ==> text::contains(t, "[状态：没有文字稿]"@)
        }),
        text::contains(evidence::transcript_text(None, limit), "[状态：没有文字稿]"@),
{
    let n = evidence::neutral(raw);
    let t = evidence::transcript_text(Some(raw), limit);
    let size = text::int_text(n.len() as int);
    if text::blank(raw) {
    } else if n.len() <= limit {
        let head = "[状态：完整，共 "@ + size;
        texts::lemma_contains_middle(head + " 字]\n"@, n, "\n"@);
        assert(t =~= head + (" 字]\n"@ + n + "\n"@));
        texts::lemma_contains_parts(head, " 字]\n"@ + n + "\n"@, head);
    } else {
        let h1 = "[状态：已截断 —— 原文共 "@ + size;
        let d = text::int_text(limit);
        let cut = n.take(limit) + "\n"@;
        let h2 = h1 + " 字，以下只给出前 "@ + d + " 字]\n"@;
        assert(t =~= h2 + cut);
        reveal_strlit("\n");
        assert(t.subrange(t.len() - limit - 1, t.len() as int) =~= cut);
        assert(text::occurs_at(t, cut, t.len() - limit - 1));
        texts::lemma_contains_parts(h2, cut, cut);
        assert(t =~= h1 + (" 字，以下只给出前 "@ + d + " 字]\n"@ + cut));
        texts::lemma_contains_parts(h1, " 字，以下只给出前 "@ + d + " 字]\n"@ + cut, h1);
        reveal_strlit(" 字，以下只给出前 ");
        reveal_strlit("以下只给出前 ");
        let pre = h1 + seq![' ', '字', '，'];
        let mid = "以下只给出前 "@ + d;
        let post = " 字]\n"@ + cut;
        assert(" 字，以下只给出前 "@ =~= seq![' ', '字', '，'] + "以下只给出前 "@);
        assert(t =~= pre + mid + post);
        texts::lemma_contains_middle(pre, mid, post);
    }
    let missing = "[状态：没有文字稿]\n（这个视频可能没有语音内容，或者平台没有提供字幕。）\n"@;
    reveal_strlit("[状态：没有文字稿]\n（这个视频可能没有语音内容，或者平台没有提供字幕。）\n");
    reveal_strlit("[状态：没有文字稿]");
    let short = "[状态：没有文字稿]"@;
    assert(missing.subrange(0, short.len() as int) =~= short);
    assert(text::occurs_at(missing, short, 0));
}

proof fn lemma_comment_line(c: Comment)
    ensures
        text::contains(evidence::comment_line(c), evidence::neutral(c.text@)),
        c.author matches Some(a) ==> text::contains(
            evidence::comment_line(c),
            evidence::neutral(a@) + ": "@ + evidence::neutral(c.text@),
        ),
        c.author is None ==> text::contains(
            evidence::comment_line(c),
            evidence::neutral("匿名"@) + ": "@ + evidence::neutral(c.text@),
        ),
        c.like_count matches Some(n) ==> text::contains(
            evidence::comment_line(c),
            "["@ + text::int_text(n as int) + " 赞]"@,
        ),
{
    let l = evidence::comment_line(c);
    let x = evidence::neutral(c.text@);
    let who = evidence::neutral(
        match c.author {
            Some(a) => a@,
            None => "匿名"@,
        },
    );
    let pre = match c.like_count {
        Some(n) => "- ["@ + text::int_text(n as int) + " 赞] "@,
        None => "- "@,
    };
    let said = who + ": "@ + x;
    assert(text::contains(l, said)) by {
        assert(l =~= pre + said + "\n"@);
        texts::lemma_contains_middle(pre, said, "\n"@);
    }
    assert(text::contains(l, x)) by {
        texts::lemma_contains_middle(pre + who + ": "@, x, "\n"@);
    }
    if let Some(n) = c.like_count {
        let num = text::int_text(n as int);
        let d = "["@ + num + " 赞]"@;
        lemma_likes(num);
        assert(text::contains(pre, d));
        assert(text::contains(l, d)) by {
            assert(l =~= pre + (said + "\n"@));
            texts::lemma_contains_parts(pre, said + "\n"@, d);
        }
    }
}

proof fn lemma_likes(num: Seq<char>)
    ensures
        text::contains("- ["@ + num + " 赞] "@, "["@ + num + " 赞]"@),
{
    reveal_strlit("- [");
    reveal_strlit("[");
    reveal_strlit(" 赞] ");
    reveal_strlit(" 赞]");
    let d = "["@ + num + " 赞]"@;
    assert("- ["@ + num + " 赞] "@ =~= seq!['-', ' '] + d + seq![' ']);
    texts::lemma_contains_middle(seq!['-', ' '], d, seq![' ']);
}

proof fn lemma_comment_lines(v: Seq<Comment>, n: int, i: int, j: int)
    requires
        0 <= i < n <= v.len(),
    ensures
        text::contains(evidence::comment_lines(v, n), evidence::comment_line(v[i])),
        i < j < n ==> texts::in_order(
            evidence::comment_lines(v, n),
            evidence::comment_line(v[i]),
            evidence::comment_line(v[j]),
        ),
    decreases n,
{
    let before = evidence::comment_lines(v, n - 1);
    let last = evidence::comment_line(v[n - 1]);
    texts::lemma_contains_parts(before, last, evidence::comment_line(v[i]));
    texts::lemma_contains_parts(last, last, last);
    if i < n - 1 {
        lemma_comment_lines(v, n - 1, i, j);
        if i < j < n {
            texts::lemma_in_order(before, last, evidence::comment_line(v[i]), evidence::comment_line(v[j]));
        }
    }
}

/// Every comment is told, in the order that they have, with what it says, with its author
/// and with its likes where they are known. It is told how many there are, and how many
/// there are in all where those are not all.
pub proof fn law_comments_are_told(v: Seq<Comment>, total: Option<i64>, i: int, j: int)
    requires
        0 <= i < v.len(),
    ensures
        ({
            let t = evidence::comments_text(v, total);
            let c = v[i];
            &&& text::contains(t, evidence::neutral(c.text@))
            &&& c.author matches Some(a) ==> text::contains(
                t,
                evidence::neutral(a@) + ": "@ + evidence::neutral(c.text@),
            )
            &&& c.author is None ==> text::contains(
                t,
                evidence::neutral("匿名"@) + ": "@ + evidence::neutral(c.text@),
            )
            &&& c.like_count matches Some(n) ==> text::contains(
                t,
                "["@ + text::int_text(n as int) + " 赞]"@,
            )
            &&& i < j < v.len() ==> texts::in_order(
                t,
                evidence::comment_line(v[i]),
                evidence::comment_line(v[j]),
            )
            &&& total matches Some(n) ==> (n > v.len() ==> text::contains(
                t,
                "该视频共 "@ + text::int_text(n as int) + " 条评论"@,
            ))
            &&& text::contains(t, text::int_text(v.len() as int) + " 条"@)
            &&& !(total matches Some(n) && n > v.len()) ==> text::contains(
                t,
                "[状态：共 "@ + text::int_text(v.len() as int),
            )
        }),
        evidence::comments_text(Seq::<Comment>::empty(), total).len() == 0,
{
    let t = evidence::comments_text(v, total);
    let c = v[i];
    let n = v.len() as int;
    let lines = evidence::comment_lines(v, n);
    let size = text::int_text(n);
    let state = if evidence::is_sample(total, n) {
        "[状态：抽样 —— 该视频共 "@ + text::int_text(total->Some_0 as int)
            + " 条评论，以下是点赞最高的 "@ + size + " 条]\n"@
    } else {
        "[状态：共 "@ + size + " 条，按点赞数排序]\n"@
    };
    let head = "\n=== 评论 ===\n"@ + state;
    assert(t =~= head + lines);
    lemma_comment_lines(v, n, i, j);
    lemma_comment_line(c);
    let l = evidence::comment_line(c);
    texts::lemma_contains_parts(head, lines, l);
    texts::lemma_contains_parts(t, l, evidence::neutral(c.text@));
    match c.author {
        Some(a) => {
            texts::lemma_contains_parts(
                t,
                l,
                evidence::neutral(a@) + ": "@ + evidence::neutral(c.text@),
            );
        },
        None => {
            texts::lemma_contains_parts(
                t,
                l,
                evidence::neutral("匿名"@) + ": "@ + evidence::neutral(c.text@),
            );
        },
    }
    if let Some(k) = c.like_count {
        texts::lemma_contains_parts(t, l, "["@ + text::int_text(k as int) + " 赞]"@);
    }
    if i < j < v.len() {
        texts::lemma_in_order(head, lines, l, evidence::comment_line(v[j]));
    }
    let count = size + " 条"@;
    reveal_strlit(" 条");
    if evidence::is_sample(total, n) {
        lemma_sample(text::int_text(total->Some_0 as int), size, state);
        let all = "该视频共 "@ + text::int_text(total->Some_0 as int) + " 条评论"@;
        texts::lemma_contains_parts("\n=== 评论 ===\n"@, state, all);
        texts::lemma_contains_parts(head, lines, all);
        texts::lemma_contains_parts("\n=== 评论 ===\n"@, state, count);
        texts::lemma_contains_parts(head, lines, count);
    } else {
        reveal_strlit(" 条，按点赞数排序]\n");
        let rest = " 条，按点赞数排序]\n"@.skip(2);
        assert(state =~= "[状态：共 "@ + count + rest);
        texts::lemma_contains_middle("[状态：共 "@, count, rest);
        let whole = "[状态：共 "@ + size;
        texts::lemma_contains_parts(whole, " 条，按点赞数排序]\n"@, whole);
        texts::lemma_contains_parts("\n=== 评论 ===\n"@, state, whole);
        texts::lemma_contains_parts(head, lines, whole);
        texts::lemma_contains_parts("\n=== 评论 ===\n"@, state, count);
        texts::lemma_contains_parts(head, lines, count);
    }
}

proof fn lemma_sample(total: Seq<char>, size: Seq<char>, state: Seq<char>)
    requires
        state == "[状态：抽样 —— 该视频共 "@ + total + " 条评论，以下是点赞最高的 "@ + size
            + " 条]\n"@,
    ensures
        text::contains(state, "该视频共 "@ + total + " 条评论"@),
        text::contains(state, size + " 条"@),
{
    reveal_strlit(" 条");
    reveal_strlit(" 条]\n");
    reveal_strlit(" 条评论");
    reveal_strlit(" 条评论，以下是点赞最高的 ");
    reveal_strlit("该视频共 ");
    reveal_strlit("[状态：抽样 —— 该视频共 ");
    let open = "[状态：抽样 —— 该视频共 "@;
    let mid = " 条评论，以下是点赞最高的 "@;
    let end = " 条]\n"@;
    let pre = open.take(10);
    assert(open =~= pre + "该视频共 "@);
    assert(mid =~= " 条评论"@ + mid.skip(4));
    let all = "该视频共 "@ + total + " 条评论"@;
    let post = mid.skip(4) + size + end;
    assert(state =~= pre + all + post);
    texts::lemma_contains_middle(pre, all, post);
    let count = size + " 条"@;
    assert(end =~= " 条"@ + end.skip(2));
    assert(state =~= (open + total + mid) + count + end.skip(2));
    texts::lemma_contains_middle(open + total + mid, count, end.skip(2));
}

} // verus!
