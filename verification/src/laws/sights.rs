//! What was seen in videos, and what is told and kept of it.

use vstd::prelude::*;
use crate::agent::visit;
use crate::agent::visit::Remembered;
use crate::content::dossier;
use crate::content::dossier::{StoredDossier, TimelineEntry, VideoDossier};
use crate::content::evidence;
use crate::ingest::discovery;
use crate::ingest::url::Platform;
use crate::laws::rendering;
use crate::laws::runs;
use crate::laws::texts;
use crate::outside;
use crate::store::StoredVideo;
use crate::text;

verus! {

proof fn lemma_no_fence_left(b: Seq<char>)
    requires
        b.len() > 0,
        b.last() != '`',
    ensures
        text::drop_trailing(b + "```"@, "```"@) == b,
        text::drop_trailing(b, "```"@) == b,
{
    reveal_strlit("```");
    let p = "```"@;
    let t = b + p;
    if text::occurs_at(b, p, b.len() - p.len()) {
        assert(b.subrange(b.len() - 3, b.len() as int)[2] == b.last());
    }
    assert(t.subrange(t.len() - 3, t.len() as int) =~= p);
    assert(text::occurs_at(t, p, t.len() - p.len()));
    assert(t.take(t.len() - p.len()) =~= b);
    assert(text::drop_trailing(b, p) == b);
    assert(text::drop_trailing(t, p) == text::drop_trailing(t.take(t.len() - p.len()), p));
}

/// What stands between fences is what is meant, whether the fence names a language or not;
/// and without fences it is the text itself, without white space around it.
pub proof fn law_fences_are_taken_away(x: Seq<char>)
    requires
        x.len() > 0,
        x.last() != '`',
    ensures
        dossier::unfenced("```json"@ + x + "```"@) == text::trim(x),
        !text::starts(x, "json"@) ==> dossier::unfenced("```"@ + x + "```"@) == text::trim(x),
        text::trim(x)[0] != '`' && text::trim(x).len() > 0 ==> dossier::unfenced(x) == text::trim(x),
{
    reveal_strlit("```json");
    reveal_strlit("```");
    reveal_strlit("json");
    let a = "```json"@ + x + "```"@;
    let b = "```"@ + x + "```"@;
    assert(a[0] == '`' && a.last() == '`');
    assert(b[0] == '`' && b.last() == '`');
    text::lemma_trim_keeps(a);
    text::lemma_trim_keeps(b);
    lemma_no_fence_left(x);
    assert(a =~= "```json"@ + (x + "```"@));
    texts::law_after_is_the_rest(a, "```json"@, x + "```"@);
    assert(b =~= "```"@ + (x + "```"@));
    texts::law_after_is_the_rest(b, "```"@, x + "```"@);
    if !text::starts(x, "json"@) {
        if text::starts(b, "```json"@) {
            assert(b.subrange(0, 7)[3] == 'j' && b.subrange(0, 7)[4] == 's' && b.subrange(0, 7)[5]
                == 'o' && b.subrange(0, 7)[6] == 'n');
            assert(b[3] == 'j' && b[4] == 's' && b[5] == 'o' && b[6] == 'n');
            if x.len() >= 4 {
                assert(x.subrange(0, 4) =~= "json"@);
            } else {
                assert(b[3int + x.len()] == '`');
            }
        }
        assert(text::after(b, "```json"@) is None);
    }
    let t = text::trim(x);
    if t.len() > 0 && t[0] != '`' {
        if text::starts(t, "```json"@) {
            assert(t.subrange(0, 7)[0] == t[0]);
        }
        if text::starts(t, "```"@) {
            assert(t.subrange(0, 3)[0] == t[0]);
        }
    }
}

proof fn lemma_timeline(v: Seq<TimelineEntry>, n: int, i: int, j: int)
    requires
        0 <= i < n <= v.len(),
    ensures
        text::contains(dossier::timeline_lines(v, n), stretch(v[i])),
        i < j < n ==> texts::in_order(dossier::timeline_lines(v, n), stretch(v[i]), stretch(v[j])),
    decreases n,
{
    let before = dossier::timeline_lines(v, n - 1);
    let last = "- "@ + dossier::clock_text(v[n - 1].start_sec as int) + "-"@ + dossier::clock_text(
        v[n - 1].end_sec as int,
    ) + " "@ + text::trim(v[n - 1].what@) + "\n"@;
    let s = stretch(v[n - 1]);
    assert(last =~= "- "@ + s + "\n"@);
    texts::lemma_contains_middle("- "@, s, "\n"@);
    texts::lemma_contains_parts(before, last, stretch(v[i]));
    if i < n - 1 {
        lemma_timeline(v, n - 1, i, j);
        if i < j < n {
            texts::lemma_in_order(before, last, stretch(v[i]), stretch(v[j]));
        }
    }
}

/// A stretch of a video: from when to when, and what happens in it.
pub open spec fn stretch(e: TimelineEntry) -> Seq<char> {
    dossier::clock_text(e.start_sec as int) + "-"@ + dossier::clock_text(e.end_sec as int) + " "@
        + text::trim(e.what@)
}

/// A dossier tells all that it holds: the summary, every stretch in its order with its
/// beginning and its end, the words in the pictures, what is said, who and what is there,
/// and what was not seen; with the frames for each second, and with the day where it is an
/// old one.
pub proof fn law_dossiers_tell_everything(
    d: VideoDossier,
    fps: Seq<char>,
    duration: Option<i64>,
    frames: Option<i64>,
    date: Option<Seq<char>>,
    i: int,
    j: int,
)
    ensures
        ({
            let t = dossier::dossier_text(d, fps, duration, frames, date);
            &&& text::contains(t, " —— fps "@ + fps)
            &&& text::contains(t, "概要："@ + text::trim(d.summary@))
            &&& date matches Some(x) ==> text::contains(t, "复用 "@ + x)
            &&& 0 <= i < d.timeline@.len() ==> text::contains(t, stretch(d.timeline@[i]))
            &&& 0 <= i < j < d.timeline@.len() ==> texts::in_order(
                t,
                stretch(d.timeline@[i]),
                stretch(d.timeline@[j]),
            )
            &&& 0 <= i < d.visible_text@.len() ==> text::contains(t, d.visible_text@[i]@)
                && text::contains(
                t,
                "画面文字："@ + text::join(text::texts(d.visible_text@), " / "@),
            )
            &&& !text::blank(d.spoken_content@) ==> text::contains(
                t,
                "口述内容："@ + text::trim(d.spoken_content@),
            )
            &&& 0 <= i < d.entities@.len() ==> text::contains(t, d.entities@[i]@) && text::contains(
                t,
                "出现的人/物："@ + text::join(text::texts(d.entities@), "、"@),
            )
            &&& 0 <= i < d.limitations@.len() ==> text::contains(t, d.limitations@[i]@)
                && text::contains(
                t,
                "未覆盖："@ + text::join(text::texts(d.limitations@), "；"@),
            )
            &&& text::contains(t, "未覆盖："@)
        }),
{
    let t = dossier::dossier_text(d, fps, duration, frames, date);
    lemma_dossier_parts(d, fps, duration, frames, date);
    rendering::lemma_within(
        t,
        "概要："@ + text::trim(d.summary@) + "\n"@,
        "概要："@ + text::trim(d.summary@),
        "\n"@,
    );
    if let Some(x) = date {
        lemma_reuse(x);
        texts::lemma_contains_parts(t, dossier::reuse_text(date), "复用 "@ + x);
    }
    if 0 <= i < d.timeline@.len() {
        lemma_timeline_text(d.timeline@, i, j);
        texts::lemma_contains_parts(t, dossier::timeline_text(d.timeline@), stretch(d.timeline@[i]));
        if i < j < d.timeline@.len() {
            lemma_timeline_in_dossier(d, fps, duration, frames, date, i, j);
        }
    }
    if 0 <= i < d.visible_text@.len() {
        lemma_listed("画面文字："@, text::texts(d.visible_text@), " / "@, i);
        texts::lemma_contains_parts(
            t,
            dossier::list_line("画面文字："@, text::texts(d.visible_text@), " / "@),
            d.visible_text@[i]@,
        );
        rendering::lemma_within(
            t,
            dossier::list_line("画面文字："@, text::texts(d.visible_text@), " / "@),
            "画面文字："@ + text::join(text::texts(d.visible_text@), " / "@),
            "\n"@,
        );
    }
    if 0 <= i < d.entities@.len() {
        lemma_listed("出现的人/物："@, text::texts(d.entities@), "、"@, i);
        texts::lemma_contains_parts(
            t,
            dossier::list_line("出现的人/物："@, text::texts(d.entities@), "、"@),
            d.entities@[i]@,
        );
        rendering::lemma_within(
            t,
            dossier::list_line("出现的人/物："@, text::texts(d.entities@), "、"@),
            "出现的人/物："@ + text::join(text::texts(d.entities@), "、"@),
            "\n"@,
        );
    }
    if !text::blank(d.spoken_content@) {
        texts::law_trim_takes_white_space(d.spoken_content@);
        rendering::lemma_within(
            t,
            dossier::spoken_line(d.spoken_content@),
            "口述内容："@ + text::trim(d.spoken_content@),
            "\n"@,
        );
    }
    let rest = dossier::uncovered_line(text::texts(d.limitations@));
    lemma_uncovered(text::texts(d.limitations@), i);
    texts::lemma_contains_parts(t, rest, "未覆盖："@);
    if 0 <= i < d.limitations@.len() {
        texts::lemma_contains_parts(t, rest, d.limitations@[i]@);
        rendering::lemma_within(
            t,
            rest,
            "未覆盖："@ + text::join(text::texts(d.limitations@), "；"@),
            "\n"@,
        );
    }
}

proof fn lemma_reuse(x: Seq<char>)
    ensures
        text::contains(dossier::reuse_text(Some(x)), "复用 "@ + x),
{
    reveal_strlit("（复用 ");
    reveal_strlit("复用 ");
    let p = "复用 "@ + x;
    assert(dossier::reuse_text(Some(x)) =~= seq!['（'] + p + " 的档案）"@);
    texts::lemma_contains_middle(seq!['（'], p, " 的档案）"@);
}

proof fn lemma_timeline_text(v: Seq<TimelineEntry>, i: int, j: int)
    requires
        0 <= i < v.len(),
    ensures
        text::contains(dossier::timeline_text(v), stretch(v[i])),
        i < j < v.len() ==> texts::in_order(dossier::timeline_text(v), stretch(v[i]), stretch(v[j])),
{
    let n = v.len() as int;
    let lines = dossier::timeline_lines(v, n);
    lemma_timeline(v, n, i, j);
    texts::lemma_contains_parts("时间线：\n"@, lines, stretch(v[i]));
    if i < j < n {
        texts::lemma_in_order("时间线：\n"@, lines, stretch(v[i]), stretch(v[j]));
    }
}

proof fn lemma_timeline_in_dossier(
    d: VideoDossier,
    fps: Seq<char>,
    duration: Option<i64>,
    frames: Option<i64>,
    date: Option<Seq<char>>,
    i: int,
    j: int,
)
    requires
        0 <= i < j < d.timeline@.len(),
    ensures
        texts::in_order(
            dossier::dossier_text(d, fps, duration, frames, date),
            stretch(d.timeline@[i]),
            stretch(d.timeline@[j]),
        ),
{
    let p = stretch(d.timeline@[i]);
    let q = stretch(d.timeline@[j]);
    let line = dossier::timeline_text(d.timeline@);
    let seen = dossier::list_line("画面文字："@, text::texts(d.visible_text@), " / "@);
    let said = dossier::spoken_line(d.spoken_content@);
    let who = dossier::list_line("出现的人/物："@, text::texts(d.entities@), "、"@);
    let rest = dossier::uncovered_line(text::texts(d.limitations@));
    let pre = "[状态：已分析"@ + dossier::reuse_text(date) + " —— fps "@ + fps + dossier::span_text(
        duration,
        frames,
    ) + "]\n"@ + ("概要："@ + text::trim(d.summary@) + "\n"@);
    lemma_timeline_text(d.timeline@, i, j);
    texts::lemma_in_order(pre, line, p, q);
    texts::lemma_in_order(pre + line, seen, p, q);
    texts::lemma_in_order(pre + line + seen, said, p, q);
    texts::lemma_in_order(pre + line + seen + said, who, p, q);
    texts::lemma_in_order(pre + line + seen + said + who, rest, p, q);
    assert(dossier::dossier_text(d, fps, duration, frames, date) == pre + line + seen + said + who
        + rest);
}

proof fn lemma_dossier_parts(
    d: VideoDossier,
    fps: Seq<char>,
    duration: Option<i64>,
    frames: Option<i64>,
    date: Option<Seq<char>>,
)
    ensures
        ({
            let t = dossier::dossier_text(d, fps, duration, frames, date);
            &&& text::contains(t, " —— fps "@ + fps)
            &&& text::contains(t, dossier::reuse_text(date))
            &&& text::contains(t, "概要："@ + text::trim(d.summary@) + "\n"@)
            &&& text::contains(t, dossier::timeline_text(d.timeline@))
            &&& text::contains(
                t,
                dossier::list_line("画面文字："@, text::texts(d.visible_text@), " / "@),
            )
            &&& text::contains(t, dossier::spoken_line(d.spoken_content@))
            &&& text::contains(
                t,
                dossier::list_line("出现的人/物："@, text::texts(d.entities@), "、"@),
            )
            &&& text::contains(t, dossier::uncovered_line(text::texts(d.limitations@)))
        }),
{
    lemma_twelve(
        "[状态：已分析"@,
        dossier::reuse_text(date),
        " —— fps "@,
        fps,
        dossier::span_text(duration, frames),
        "]\n"@,
        "概要："@ + text::trim(d.summary@) + "\n"@,
        dossier::timeline_text(d.timeline@),
        dossier::list_line("画面文字："@, text::texts(d.visible_text@), " / "@),
        dossier::spoken_line(d.spoken_content@),
        dossier::list_line("出现的人/物："@, text::texts(d.entities@), "、"@),
        dossier::uncovered_line(text::texts(d.limitations@)),
    );
}

proof fn lemma_twelve(
    a1: Seq<char>,
    a2: Seq<char>,
    a3: Seq<char>,
    a4: Seq<char>,
    a5: Seq<char>,
    a6: Seq<char>,
    a7: Seq<char>,
    a8: Seq<char>,
    a9: Seq<char>,
    a10: Seq<char>,
    a11: Seq<char>,
    a12: Seq<char>,
)
    ensures
        ({
            let t = a1 + a2 + a3 + a4 + a5 + a6 + a7 + a8 + a9 + a10 + a11 + a12;
            &&& text::contains(t, a3 + a4)
            &&& text::contains(t, a2)
            &&& text::contains(t, a7)
            &&& text::contains(t, a8)
            &&& text::contains(t, a9)
            &&& text::contains(t, a10)
            &&& text::contains(t, a11)
            &&& text::contains(t, a12)
        }),
{
    let t = a1 + a2 + a3 + a4 + a5 + a6 + a7 + a8 + a9 + a10 + a11 + a12;
    runs::lemma_run_12(a1, a2, a3, a4, a5, a6, a7, a8, a9, a10, a11, a12);
    lemma_second(t, a1, a2);
    lemma_second(t, a6, a7);
    lemma_second(t, a7, a8);
    lemma_second(t, a8, a9);
    lemma_second(t, a9, a10);
    lemma_second(t, a10, a11);
    lemma_second(t, a11, a12);
}

proof fn lemma_second(t: Seq<char>, a: Seq<char>, b: Seq<char>)
    requires
        text::contains(t, a + b),
    ensures
        text::contains(t, b),
{
    texts::lemma_contains_parts(a, b, b);
    texts::lemma_contains_parts(t, a + b, b);
}

proof fn lemma_listed(label: Seq<char>, v: Seq<Seq<char>>, sep: Seq<char>, i: int)
    requires
        0 <= i < v.len(),
    ensures
        text::contains(dossier::list_line(label, v, sep), v[i]),
{
    let j = text::join(v, sep);
    rendering::lemma_joined(v, sep, i, i);
    texts::lemma_contains_middle(label, j, "\n"@);
    texts::lemma_contains_parts(dossier::list_line(label, v, sep), j, v[i]);
}

proof fn lemma_uncovered(v: Seq<Seq<char>>, i: int)
    ensures
        text::contains(dossier::uncovered_line(v), "未覆盖："@),
        0 <= i < v.len() ==> text::contains(dossier::uncovered_line(v), v[i]),
{
    let l = dossier::uncovered_line(v);
    let what = if v.len() == 0 {
        "模型未说明盲区；抽帧分析必然漏掉帧间发生的内容"@
    } else {
        text::join(v, "；"@)
    };
    texts::lemma_contains_parts("未覆盖："@, what, "未覆盖："@);
    texts::lemma_contains_parts("未覆盖："@ + what, "\n"@, "未覆盖："@);
    if 0 <= i < v.len() {
        rendering::lemma_joined(v, "；"@, i, i);
        texts::lemma_contains_middle("未覆盖："@, what, "\n"@);
        texts::lemma_contains_parts(l, what, v[i]);
    }
}

/// How closely a video was looked at is told where both its length and its frames are
/// known.
pub proof fn law_frames_are_told(d: i64, f: i64)
    ensures
        text::contains(
            dossier::span_text(Some(d), Some(f)),
            text::int_text(d as int) + " 秒抽 "@ + text::int_text(f as int) + " 帧"@,
        ),
        dossier::span_text(None, Some(f)).len() == 0,
        dossier::span_text(Some(d), None).len() == 0,
{
    let p = text::int_text(d as int) + " 秒抽 "@ + text::int_text(f as int) + " 帧"@;
    assert(dossier::span_text(Some(d), Some(f)) =~= "，"@ + p);
    texts::lemma_contains_parts("，"@, p, p);
}

/// What a model wrote without keeping to the form is passed on, with the frames for each
/// second; what was not looked at is told with the reason; and an old look is told by its
/// parts where it has the form, and as it was written where it has not.
pub proof fn law_other_looks_are_told(
    s: StoredDossier,
    parsed: Option<VideoDossier>,
    duration: Option<i64>,
    frames: Option<i64>,
    date: Option<Seq<char>>,
    why: Seq<char>,
)
    ensures
        parsed is None ==> {
            let t = dossier::stored_text(s, parsed, duration, frames, date);
            text::contains(t, text::trim(s.dossier_json@)) && text::contains(t, "fps "@ + s.fps@)
        },
        parsed matches Some(d) ==> dossier::stored_text(s, parsed, duration, frames, date)
            == dossier::dossier_text(d, s.fps@, duration, frames, date),
        text::contains(dossier::unavailable_text(why), why),
{
    texts::lemma_contains_middle("[状态：未分析 —— "@, why, "]\n"@);
    if parsed is None {
        let h = "[状态：已分析（模型未按格式输出，以下是原文）—— fps "@;
        let x = text::trim(s.dossier_json@);
        let t = dossier::raw_dossier_text(s.dossier_json@, s.fps@);
        texts::lemma_contains_middle(h + s.fps@ + "]\n"@, x, "\n"@);
        reveal_strlit("[状态：已分析（模型未按格式输出，以下是原文）—— fps ");
        reveal_strlit("fps ");
        let p = "fps "@ + s.fps@;
        let cut = h.len() - 4;
        assert(h =~= h.take(cut) + "fps "@);
        assert(t =~= h.take(cut) + p + ("]\n"@ + x + "\n"@));
        texts::lemma_contains_middle(h.take(cut), p, "]\n"@ + x + "\n"@);
    }
}

/// A text that is clipped is itself where it is no longer than it may be, and otherwise its
/// beginning, with how long it is.
pub proof fn law_clipped_texts(t: Seq<char>, max: int)
    requires
        0 <= max,
    ensures
        t.len() <= max ==> visit::clipped(t, max) == t,
        t.len() > max ==> text::occurs_at(visit::clipped(t, max), t.take(max), 0) && text::contains(
            visit::clipped(t, max),
            "共 "@ + text::int_text(t.len() as int) + " 字"@,
        ),
{
    if t.len() > max {
        let c = visit::clipped(t, max);
        let n = text::int_text(t.len() as int);
        reveal_strlit("…（共 ");
        reveal_strlit("共 ");
        reveal_strlit(" 字，已截断）");
        reveal_strlit(" 字");
        assert(c.subrange(0, max) =~= t.take(max));
        let p = "共 "@ + n + " 字"@;
        let pre = t.take(max) + seq!['…', '（'];
        let post = " 字，已截断）"@.skip(2);
        assert("…（共 "@ =~= seq!['…', '（'] + "共 "@);
        assert(" 字，已截断）"@ =~= " 字"@ + post);
        assert(c =~= pre + p + post);
        texts::lemma_contains_middle(pre, p, post);
    }
}

/// The answer to a question about a video is told with the question, and with the frames
/// for each second.
pub proof fn law_answers_about_videos_are_told(question: Seq<char>, answer: Seq<char>, fps: Seq<char>)
    ensures
        ({
            let t = visit::answer_section(question, answer, fps);
            &&& text::contains(t, "]\n问："@ + text::trim(question))
            &&& text::contains(t, "\n答："@ + text::trim(answer))
            &&& text::contains(t, "[状态：已针对具体问题重看 —— fps "@ + fps)
        }),
{
    runs::lemma_run_7(
        "[状态：已针对具体问题重看 —— fps "@,
        fps,
        "]\n问："@,
        text::trim(question),
        "\n答："@,
        text::trim(answer),
        "\n"@,
    );
}

/// What was seen of a video stands in the material, after all that stood before its last
/// closing tag and before the tag; nothing of the material is lost.
pub proof fn law_sights_are_put_in(material: Seq<char>, visual: Seq<char>)
    ensures
        text::contains(visit::spliced(material, visual), "\n=== 画面 ===\n"@ + visual),
        exists|i: int|
            0 <= i <= material.len() && visit::spliced(material, visual) == #[trigger] material.take(
                i,
            ) + ("\n=== 画面 ===\n"@ + visual) + material.skip(i),
{
    let seen = "\n=== 画面 ===\n"@ + visual;
    texts::law_find_is_first_and_last(material, evidence::MATERIAL_CLOSE@);
    match text::rfind(material, evidence::MATERIAL_CLOSE@) {
        Some(i) => {
            texts::lemma_contains_middle(material.take(i), seen, material.skip(i));
        },
        None => {
            let n = material.len() as int;
            assert(material.take(n) + seen + material.skip(n) =~= material + seen);
            texts::lemma_contains_parts(material, seen, seen);
        },
    }
}

/// Why a video can never be looked at is the first reason that is remembered, and none
/// where none is.
pub proof fn law_first_reason_counts(v: Seq<Remembered>, i: int)
    ensures
        0 <= i < v.len() && v[i].stored.blocked_reason is Some && (forall|j: int|
            0 <= j < i ==> (#[trigger] v[j]).stored.blocked_reason is None) ==> visit::blocked_from(
            v,
            0,
        ) == text::opt(v[i].stored.blocked_reason),
        (forall|j: int| 0 <= j < v.len() ==> (#[trigger] v[j]).stored.blocked_reason is None)
            ==> visit::blocked_from(v, 0) is None,
{
    if 0 <= i < v.len() && v[i].stored.blocked_reason is Some && (forall|j: int|
        0 <= j < i ==> (#[trigger] v[j]).stored.blocked_reason is None) {
        lemma_first_reason(v, 0, i);
    }
    if forall|j: int| 0 <= j < v.len() ==> (#[trigger] v[j]).stored.blocked_reason is None {
        visit::lemma_unblocked(v, 0);
    }
}

proof fn lemma_first_reason(v: Seq<Remembered>, k: int, i: int)
    requires
        0 <= k <= i < v.len(),
        v[i].stored.blocked_reason is Some,
        forall|j: int| 0 <= j < i ==> (#[trigger] v[j]).stored.blocked_reason is None,
    ensures
        visit::blocked_from(v, k) == text::opt(v[i].stored.blocked_reason),
    decreases i - k,
{
    if k < i {
        assert(v[k].stored.blocked_reason is None);
        lemma_first_reason(v, k + 1, i);
    }
}

/// Whether a look is a dossier that was made without a question and came to something.
pub open spec fn is_general(m: Remembered) -> bool {
    m.stored.blocked_reason is None && m.stored.question is None && (m.stored.dossier_json@.len() > 0
        || m.stored.video_tokens is Some)
}

/// The dossier that is used again is the first one, that is the latest, of those that were
/// made without a question; none where there is none.
pub proof fn law_latest_dossier_is_used(v: Seq<Remembered>, i: int)
    ensures
        match visit::general_from(v, 0) {
            Some(k) => 0 <= k < v.len() && is_general(v[k]) && (0 <= i < k ==> !is_general(v[i])),
            None => 0 <= i < v.len() ==> !is_general(v[i]),
        },
{
    lemma_general(v, 0, i);
}

proof fn lemma_general(v: Seq<Remembered>, k: int, i: int)
    requires
        0 <= k <= v.len(),
    ensures
        match visit::general_from(v, k) {
            Some(g) => k <= g < v.len() && is_general(v[g]) && (k <= i < g ==> !is_general(v[i])),
            None => k <= i < v.len() ==> !is_general(v[i]),
        },
    decreases v.len() - k,
{
    if k < v.len() && !is_general(v[k]) {
        lemma_general(v, k + 1, i);
    }
}

/// Whether an upload can be used by `provider`: it is one of its own, and is kept for more
/// than ten minutes from now.
pub open spec fn is_usable(m: Remembered, provider: Seq<char>, now: int) -> bool {
    &&& m.stored.provider matches Some(p) && p@ == provider
    &&& m.stored.staged_ref is Some
    &&& m.stored.staged_expires_at matches Some(e) && e > now + 600
}

/// The upload that is used again is the first one that can be; none where none can be.
pub proof fn law_first_usable_upload_is_used(v: Seq<Remembered>, provider: Seq<char>, now: int, i: int)
    ensures
        match visit::live_from(v, provider, now, 0) {
            Some(r) => exists|k: int|
                0 <= k < v.len() && #[trigger] is_usable(v[k], provider, now) && Some(r)
                    == text::opt(v[k].stored.staged_ref) && (0 <= i < k ==> !is_usable(
                    v[i],
                    provider,
                    now,
                )),
            None => 0 <= i < v.len() ==> !is_usable(v[i], provider, now),
        },
{
    lemma_usable(v, provider, now, 0, i);
}

proof fn lemma_usable(v: Seq<Remembered>, provider: Seq<char>, now: int, k: int, i: int)
    requires
        0 <= k <= v.len(),
    ensures
        match visit::live_from(v, provider, now, k) {
            Some(r) => exists|g: int|
                k <= g < v.len() && #[trigger] is_usable(v[g], provider, now) && Some(r)
                    == text::opt(v[g].stored.staged_ref) && (k <= i < g ==> !is_usable(
                    v[i],
                    provider,
                    now,
                )),
            None => k <= i < v.len() ==> !is_usable(v[i], provider, now),
        },
    decreases v.len() - k,
{
    if k < v.len() {
        assert(is_usable(v[k], provider, now) <==> visit::is_live(v[k], provider, now));
        if !is_usable(v[k], provider, now) {
            lemma_usable(v, provider, now, k + 1, i);
        }
    }
}

/// How many questions were asked about a video among the first looks.
pub open spec fn asked_before(v: Seq<Remembered>, i: int) -> int
    decreases i,
{
    if i <= 0 {
        0
    } else {
        asked_before(v, i - 1) + if visit::came_to_something(v[i - 1]) && v[i - 1].stored.question is Some {
            1int
        } else {
            0int
        }
    }
}

/// What was asked about a video before is told, with what was answered, as far as it is
/// among the six latest questions.
pub proof fn law_past_questions_are_told(v: Seq<Remembered>, i: int)
    requires
        0 <= i < v.len(),
        v[i].stored.question is Some,
        v[i].stored.blocked_reason is None,
        v[i].stored.dossier_json@.len() > 0,
        asked_before(v, i) < 6,
    ensures
        text::contains(
            visit::past_text(v),
            "问："@ + visit::clipped((v[i].stored.question->Some_0)@, 1200) + "\n答："@
                + visit::clipped(v[i].stored.dossier_json@, 1200),
        ),
{
    let p = "问："@ + visit::clipped((v[i].stored.question->Some_0)@, 1200) + "\n答："@
        + visit::clipped(v[i].stored.dossier_json@, 1200);
    assert(visit::exchange(v[i]) == p + "\n"@);
    texts::lemma_contains_parts(p, "\n"@, p);
    lemma_exchanges(v, 0, i, 6);
    let lines = visit::exchanges(v, 0, 6);
    texts::lemma_contains_parts(lines, visit::exchange(v[i]), p);
    if lines.len() == 0 {
        reveal_strlit("问：");
        let k = choose|k: int| text::occurs_at(lines, p, k);
        assert(p.len() >= 2);
    }
    texts::lemma_contains_parts("--- 之前针对画面问过的（无需重复分析）---\n"@, lines, p);
}

/// Of what was asked about a video before, no more than the six latest questions are told:
/// what stands behind them makes no difference. Where nothing was asked, nothing is told.
pub proof fn law_only_the_latest_questions_are_told(v: Seq<Remembered>, m: int)
    requires
        0 <= m <= v.len(),
    ensures
        asked_before(v, m) >= 6 ==> visit::past_text(v) == visit::past_text(v.take(m)),
        (forall|i: int| 0 <= i < v.len() ==> (#[trigger] v[i]).stored.question is None)
            ==> visit::past_text(v).len() == 0,
{
    if asked_before(v, m) >= 6 {
        lemma_latest_exchanges(v, m, 0, 6);
    }
    if forall|i: int| 0 <= i < v.len() ==> (#[trigger] v[i]).stored.question is None {
        lemma_no_exchanges(v, 0, 6);
    }
}

proof fn lemma_latest_exchanges(v: Seq<Remembered>, m: int, k: int, left: int)
    requires
        0 <= k <= m <= v.len(),
        asked_before(v, m) - asked_before(v, k) >= left,
    ensures
        visit::exchanges(v, k, left) == visit::exchanges(v.take(m), k, left),
    decreases m - k,
{
    if k < m && left > 0 {
        let w = v.take(m);
        assert(w[k] == v[k]);
        assert(asked_before(v, k + 1) == asked_before(v, k) + if visit::came_to_something(v[k])
            && v[k].stored.question is Some {
            1int
        } else {
            0int
        });
        if visit::came_to_something(v[k]) && v[k].stored.question is Some {
            lemma_latest_exchanges(v, m, k + 1, left - 1);
        } else {
            lemma_latest_exchanges(v, m, k + 1, left);
        }
    }
}

proof fn lemma_no_exchanges(v: Seq<Remembered>, k: int, left: int)
    requires
        0 <= k <= v.len(),
        forall|i: int| 0 <= i < v.len() ==> (#[trigger] v[i]).stored.question is None,
    ensures
        visit::exchanges(v, k, left).len() == 0,
    decreases v.len() - k,
{
    if k < v.len() && left > 0 {
        assert(v[k].stored.question is None);
        lemma_no_exchanges(v, k + 1, left);
    }
}

proof fn lemma_asked(v: Seq<Remembered>, a: int, b: int)
    requires
        0 <= a <= b,
    ensures
        asked_before(v, a) <= asked_before(v, b),
    decreases b - a,
{
    if a < b {
        lemma_asked(v, a, b - 1);
    }
}

proof fn lemma_exchanges(v: Seq<Remembered>, k: int, i: int, left: int)
    requires
        0 <= k <= i < v.len(),
        visit::came_to_something(v[i]),
        v[i].stored.question is Some,
        asked_before(v, i) - asked_before(v, k) < left,
    ensures
        text::contains(visit::exchanges(v, k, left), visit::exchange(v[i])),
    decreases i - k,
{
    lemma_asked(v, k, i);
    let x = visit::exchange(v[i]);
    if k == i {
        texts::lemma_contains_parts(x, visit::exchanges(v, k + 1, left - 1), x);
    } else {
        assert(asked_before(v, k + 1) == asked_before(v, k) + if visit::came_to_something(v[k])
            && v[k].stored.question is Some {
            1int
        } else {
            0int
        });
        if visit::came_to_something(v[k]) && v[k].stored.question is Some {
            lemma_asked(v, k + 1, i);
            lemma_exchanges(v, k + 1, i, left - 1);
            texts::lemma_contains_parts(
                visit::exchange(v[k]),
                visit::exchanges(v, k + 1, left - 1),
                x,
            );
        } else {
            lemma_exchanges(v, k + 1, i, left);
        }
    }
}

/// Whether a stored answer gives an address of the video file that works.
pub open spec fn gives_address(p: Platform, raw: Option<String>, now: int, a: Seq<char>) -> bool {
    raw matches Some(t) && (outside::json_tree(t@) matches Some(j) && discovery::file_address(p, j)
        == Some(a) && discovery::address_works(a, now))
}

/// The address that is used is that of the first stored answer that gives one that still
/// works; none where none does.
pub proof fn law_first_working_address_is_used(
    p: Platform,
    v: Seq<Option<String>>,
    now: int,
    i: int,
    a: Seq<char>,
)
    ensures
        match visit::address_from(p, v, now, 0) {
            Some(x) => exists|k: int|
                0 <= k < v.len() && #[trigger] gives_address(p, v[k], now, x) && (0 <= i < k
                    ==> !gives_address(p, v[i], now, a)),
            None => 0 <= i < v.len() ==> !gives_address(p, v[i], now, a),
        },
{
    lemma_address(p, v, now, 0, i, a);
}

proof fn lemma_address(
    p: Platform,
    v: Seq<Option<String>>,
    now: int,
    k: int,
    i: int,
    a: Seq<char>,
)
    requires
        0 <= k <= v.len(),
    ensures
        match visit::address_from(p, v, now, k) {
            Some(x) => exists|g: int|
                k <= g < v.len() && #[trigger] gives_address(p, v[g], now, x) && (k <= i < g
                    ==> !gives_address(p, v[i], now, a)),
            None => k <= i < v.len() ==> !gives_address(p, v[i], now, a),
        },
    decreases v.len() - k,
{
    if k < v.len() {
        match visit::works_at(p, text::opt(v[k]), now) {
            Some(x) => {
                assert(gives_address(p, v[k], now, x));
            },
            None => {
                lemma_address(p, v, now, k + 1, i, a);
            },
        }
    }
}

/// A video is not looked at without a model for it, when no more may be looked at, and on
/// YouTube; and it is said why. In every other case it is.
pub proof fn law_looks_need_leave(e: visit::Errand)
    ensures
        visit::unseen(e) is Some <==> e.sight is None || e.budget_left == 0 || e.parsed.platform
            == Platform::YouTube,
{
}

/// What a call for a video is answered with names the call, holds the material on the video
/// and what was seen of it, and counts what was asked and looked at.
pub proof fn law_visits_tell_the_material(
    call_id: Seq<char>,
    calls: int,
    sv: StoredVideo,
    section: Seq<char>,
    looks: int,
    tokens: int,
)
    ensures
        ({
            let o = visit::told(call_id, calls, sv, section, looks, tokens);
            &&& o.call_id == call_id && !o.is_error
            &&& o.external_calls == calls && o.vision_calls == looks && o.video_tokens == tokens
            &&& text::contains(o.content, "\n=== 画面 ===\n"@ + section)
            &&& o.content == visit::spliced(
                evidence::material(sv, 40_000, evidence::opt_date(sv.video.published_at)),
                section,
            )
        }),
{
    law_sights_are_put_in(
        evidence::material(sv, 40_000, evidence::opt_date(sv.video.published_at)),
        section,
    );
}

} // verus!
