//! What tools do, and what a model is told of what came of them.

use vstd::prelude::*;
use crate::agent::llm::CallView;
use crate::agent::tools;
use crate::agent::tools::{PagesView, PlanView};
use crate::content::dossier;
use crate::content::evidence;
use crate::content::model::{CreatorView, SummaryView};
use crate::error;
use crate::error::ClipKnowError;
use crate::ingest::discovery;
use crate::ingest::discovery::{Endpoint, RawResponse};
use crate::ingest::url;
use crate::ingest::url::{Meaning, Platform};
use crate::json;
use crate::json::{NumTree, Tree};
use crate::laws::reading;
use crate::laws::rendering;
use crate::laws::runs;
use crate::laws::texts;
use crate::outside;
use crate::text;

verus! {

/// Whether a call gives a text that is not blank under a name.
pub open spec fn gives(c: CallView, key: Seq<char>, s: Seq<char>) -> bool {
    json::field(c.args, key) == Some(Tree::Str(s)) && !text::blank(s)
}

/// Whether `arg` is what is looked for: what was given, without white space around it and
/// without a sign before it.
pub open spec fn is_argument(given: Seq<char>, arg: Seq<char>) -> bool {
    let t = text::trim(given);
    &&& t.len() > 0 && t[0] != '@' ==> arg == t
    &&& t.len() > 1 && t[0] == '@' && t[1] != '@' ==> arg == t.skip(1)
}

/// The endpoint that a tool asks, by the name of the tool.
pub open spec fn asks(name: Seq<char>, ep: Endpoint) -> bool {
    match ep {
        Endpoint::SearchVideos => name == "search_videos"@,
        Endpoint::SearchCreators => name == "search_creators"@,
        Endpoint::GetCreator => name == "get_creator"@,
        Endpoint::GetCreatorVideos => name == "get_creator_videos"@,
    }
}

/// The parameter with what is looked for.
pub open spec fn looks_by(ep: Endpoint) -> Seq<char> {
    match ep {
        Endpoint::SearchVideos => "query"@,
        Endpoint::SearchCreators => "query"@,
        _ => "handle"@,
    }
}

proof fn lemma_tool_names()
    ensures
        "search_videos"@ != "fetch_video"@,
        "search_creators"@ != "fetch_video"@,
        "get_creator"@ != "fetch_video"@,
        "get_creator_videos"@ != "fetch_video"@,
        "search_creators"@ != "search_videos"@,
        "get_creator"@ != "search_videos"@,
        "get_creator"@ != "search_creators"@,
        "get_creator_videos"@ != "search_videos"@,
        "get_creator_videos"@ != "search_creators"@,
        "get_creator_videos"@ != "get_creator"@,
        "youtube"@ != "tiktok"@,
        "youtube"@ != "instagram"@,
        "tiktok"@ != "instagram"@,
{
    reveal_strlit("search_videos");
    reveal_strlit("search_creators");
    reveal_strlit("get_creator");
    reveal_strlit("get_creator_videos");
    reveal_strlit("fetch_video");
    reveal_strlit("youtube");
    reveal_strlit("tiktok");
    reveal_strlit("instagram");
    assert("search_videos"@[0] == 's' && "fetch_video"@[0] == 'f' && "get_creator"@[0] == 'g');
    assert("search_creators"@[0] == 's' && "get_creator_videos"@[0] == 'g');
    assert("search_videos"@.len() != "search_creators"@.len());
    assert("get_creator_videos"@.len() != "get_creator"@.len());
    assert("youtube"@[0] == 'y' && "tiktok"@[0] == 't' && "instagram"@[0] == 'i');
}

proof fn lemma_bare_argument(a: Seq<char>)
    ensures
        is_argument(a, text::drop_leading(text::trim(a), '@')),
{
    let t = text::trim(a);
    if t.len() > 0 && t[0] != '@' {
        assert(text::run_of(t, '@', 0) == 0);
        assert(t.skip(0) =~= t);
    }
    if t.len() > 1 && t[0] == '@' && t[1] != '@' {
        assert(text::run_of(t, '@', 1) == 1);
        assert(text::run_of(t, '@', 0) == 1);
    }
}

/// A call that names a tool and gives what the tool needs is carried out: the endpoint of
/// the tool is asked, of the platform that is named, for what is looked for; and for the
/// videos of a creator by pages, where a number is given, for at least one.
pub proof fn law_calls_are_carried_out(c: CallView, ep: Endpoint, p: Platform, a: Seq<char>, n: i64)
    requires
        asks(c.name, ep),
        gives(c, "platform"@, url::platform_name(p)),
        gives(c, looks_by(ep), a),
        !(ep is SearchVideos && p is Instagram),
    ensures
        match tools::planned(c) {
            PlanView::Ask { ep: e, platform, arg } => e == ep && platform == p && is_argument(a, arg),
            PlanView::Pages { platform, handle, want } => ep is GetCreatorVideos && platform == p
                && is_argument(a, handle),
            _ => false,
        },
        ep is GetCreatorVideos && json::field(c.args, "max_videos"@) == Some(
            Tree::Number(NumTree::Int(n as int)),
        ) ==> (tools::planned(c) matches PlanView::Pages { platform, handle, want } && want == (
        if n < 1 {
            1
        } else {
            n as int
        })),
        json::field(c.args, "max_videos"@) is None ==> tools::planned(c) is Ask,
{
    lemma_tool_names();
    lemma_bare_argument(a);
}

/// A call that lacks what the tool needs, or gives something else, is refused with the name
/// of what is wrong; it costs nothing.
pub proof fn law_wrong_calls_are_refused(c: CallView, ep: Endpoint, p: Platform)
    requires
        asks(c.name, ep),
    ensures
        reading::absent(json::field(c.args, "platform"@)) ==> (tools::planned(
            c,
        ) matches PlanView::Reject(o) && o.is_error && o.call_id == c.id && o.external_calls == 0
            && o.credits_charged == Some(0int) && text::contains(o.content, "platform"@)),
        gives(c, "platform"@, url::platform_name(p)) && !(ep is SearchVideos && p is Instagram)
            && reading::absent(json::field(c.args, looks_by(ep))) ==> (tools::planned(
            c,
        ) matches PlanView::Reject(o) && o.is_error && o.call_id == c.id && o.external_calls == 0
            && o.credits_charged == Some(0int) && text::contains(o.content, looks_by(ep))),
        gives(c, "platform"@, "instagram"@) && ep is SearchVideos ==> (tools::planned(
            c,
        ) matches PlanView::Reject(o) && o.is_error && text::contains(o.content, "instagram"@)),
{
    lemma_tool_names();
    assert(tools::planned(c) == tools::planned_ask(c, ep));
    if reading::absent(json::field(c.args, "platform"@)) {
        lemma_missing(c.args, "platform"@);
    } else if gives(c, "platform"@, "instagram"@) && ep is SearchVideos {
        lemma_not_offered(c.args, "instagram"@);
    } else if gives(c, "platform"@, url::platform_name(p)) && reading::absent(
        json::field(c.args, looks_by(ep)),
    ) {
        lemma_missing(c.args, looks_by(ep));
        assert(tools::argument_name(ep) == looks_by(ep));
    }
}

proof fn lemma_missing(args: Tree, key: Seq<char>)
    requires
        reading::absent(json::field(args, key)),
    ensures
        tools::needed(args, key) matches Err(m) && text::contains(m, key),
{
    texts::lemma_contains_middle("缺少必填参数 `"@, key, "`"@);
}

proof fn lemma_not_offered(args: Tree, raw: Seq<char>)
    requires
        tools::needed(args, "platform"@) == Ok::<Seq<char>, Seq<char>>(raw),
        raw != "youtube"@,
        raw != "tiktok"@,
    ensures
        tools::needed_platform(args, true) matches Err(m) && text::contains(m, raw),
{
    let names = text::join(tools::platform_names(true), " / "@);
    let pre = "这个工具不支持平台 `"@;
    let mid = "`，可用的是："@;
    let m = pre + raw + mid + names;
    assert(text::contains(m, raw)) by {
        texts::lemma_contains_middle(pre, raw, mid);
        texts::lemma_contains_parts(pre + raw + mid, names, raw);
    }
    assert(tools::needed_platform(args, true) == Err::<Platform, Seq<char>>(m));
}

/// What a call has to give is the text that it gives: one that is blank is refused, and so
/// is what is no text, and what was given instead is named.
pub proof fn law_what_is_needed_is_a_text(args: Tree, key: Seq<char>, s: Seq<char>)
    ensures
        json::field(args, key) == Some(Tree::Str(s)) && !text::blank(s) ==> tools::needed(args, key)
            == Ok::<Seq<char>, Seq<char>>(s),
        json::field(args, key) == Some(Tree::Str(s)) && text::blank(s) ==> (tools::needed(
            args,
            key,
        ) matches Err(m) && text::contains(m, key)),
        json::field(args, key) matches Some(v) ==> (!(v is Str) && !(v is Null) ==> (tools::needed(
            args,
            key,
        ) matches Err(m) && text::contains(m, key) && text::contains(m, outside::json_text(v)))),
        tools::needed(args, key) is Ok ==> (json::field(args, key) matches Some(Tree::Str(x))
            && tools::needed(args, key) == Ok::<Seq<char>, Seq<char>>(x) && !text::blank(x)),
{
    texts::lemma_contains_middle("参数 `"@, key, "` 是空的"@);
    if let Some(v) = json::field(args, key) {
        let a = "参数 `"@ + key + "` 必须是字符串，收到的是 "@;
        texts::lemma_contains_middle("参数 `"@, key, "` 必须是字符串，收到的是 "@);
        texts::lemma_contains_parts(a, outside::json_text(v), key);
        texts::lemma_contains_parts(a, outside::json_text(v), outside::json_text(v));
    }
}

/// A call that gives a link to a video fetches the video that the link means, with the
/// question that is given, where one is; and with a link that means none it is refused, and
/// the link is named.
pub proof fn law_links_are_fetched(c: CallView, u: Seq<char>, q: Seq<char>)
    requires
        c.name == "fetch_video"@,
        gives(c, "url"@, u),
    ensures
        match url::meaning(url::address(u)) {
            Meaning::Video(p, id) => tools::planned(c) matches PlanView::Fetch {
                platform,
                native_id,
                url,
                question,
            } && {
                &&& platform == p && native_id == id && url == u
                &&& gives(c, "question"@, q) ==> question == Some(text::trim(q))
                &&& json::field(c.args, "question"@) is None ==> question is None
                &&& json::field(c.args, "question"@) == Some(Tree::Str(q)) && text::blank(q)
                    ==> question is None
            },
            _ => tools::planned(c) matches PlanView::Reject(o) && o.is_error && o.call_id == c.id
                && text::contains(o.content, u),
        },
{
    lemma_question(c.args, q);
    match url::meaning(url::address(u)) {
        Meaning::Video(p, id) => {},
        m => {
            lemma_bad_link(u, m);
        },
    }
}

proof fn lemma_question(args: Tree, q: Seq<char>)
    ensures
        json::field(args, "question"@) == Some(Tree::Str(q)) ==> tools::asked_question(args) == (
        if text::blank(q) {
            None
        } else {
            Some(text::trim(q))
        }),
{
    texts::law_trim_takes_white_space(q);
}

proof fn lemma_bad_link(u: Seq<char>, m: Meaning)
    ensures
        text::contains(tools::bad_link(u, m), u),
{
    match m {
        Meaning::NoId => {
            let why = "链接里找不到视频 ID: "@ + u;
            texts::lemma_contains_parts("链接里找不到视频 ID: "@, u, u);
            texts::lemma_contains_parts("这个链接用不了："@, why, u);
        },
        _ => {
            let why = "无法识别的链接: "@ + u + "\n目前只支持 YouTube / TikTok / Instagram"@;
            texts::lemma_contains_middle(
                "无法识别的链接: "@,
                u,
                "\n目前只支持 YouTube / TikTok / Instagram"@,
            );
            texts::lemma_contains_parts("这个链接用不了："@, why, u);
        },
    }
}

/// A tool that is not there is refused, and named; the five tools that the model is told of
/// are there.
pub proof fn law_offered_tools_are_there(c: CallView, i: int)
    ensures
        0 <= i < tools::tools().len() && c.name == tools::tools()[i].name ==> c.name
            == "fetch_video"@ || tools::endpoint_of(c.name) is Some,
        (forall|k: int| 0 <= k < tools::tools().len() ==> c.name != (#[trigger] tools::tools()[k]).name)
            ==> (tools::planned(c) matches PlanView::Reject(o) && o.is_error && text::contains(
            o.content,
            c.name,
        )),
        tools::tools().len() == 5,
{
    lemma_tool_names();
    let t = tools::tools();
    assert(t[0].name == "search_videos"@ && t[1].name == "search_creators"@ && t[2].name
        == "get_creator"@ && t[3].name == "get_creator_videos"@ && t[4].name == "fetch_video"@);
    if 0 <= i < t.len() && c.name == t[i].name {
        if i == 0 {
        } else if i == 1 {
        } else if i == 2 {
        } else if i == 3 {
        } else {
        }
    }
    texts::lemma_contains_middle(
        "没有叫 `"@,
        c.name,
        "` 的工具。可用的是：search_videos / search_creators / get_creator / get_creator_videos / fetch_video"@,
    );
}

/// A link is shown up to its query.
pub proof fn law_links_are_shown_without_query(u: Seq<char>)
    ensures
        !text::has_char(tools::clean_link(u), '?'),
        tools::clean_link(u) == u || (text::occurs_at(u, tools::clean_link(u), 0)
            && u[tools::clean_link(u).len() as int] == '?'),
{
    text::lemma_index_of(u, '?', 0);
    let e = text::index_of(u, '?', 0);
    assert(u.subrange(0, e) =~= u.take(e));
    if e == u.len() {
        assert(u.take(e) =~= u);
    }
}

/// A length of time in a list reads back as what it is: minutes, and seconds in two digits.
pub proof fn law_lengths_in_lists_read_back(secs: int)
    requires
        0 <= secs,
    ensures
        ({
            let parts = text::split(tools::dur_text(Some(secs)), ':');
            exists|m: int, ss: int|
                {
                    &&& parts.len() == 2
                    &&& #[trigger] rendering::is_number(parts[0], m)
                    &&& #[trigger] rendering::is_two_digits(parts[1], ss)
                    &&& 0 <= ss < 60
                    &&& m * 60 + ss == secs
                }
        }),
        tools::dur_text(None) == "未知"@,
        tools::num_text(None) == "未知"@,
        tools::num_text(Some(secs)) == text::int_text(secs),
{
    rendering::law_clock_reads_back(secs);
    assert(tools::dur_text(Some(secs)) == dossier::clock_text(secs));
    let parts = text::split(dossier::clock_text(secs), ':');
    let (m, ss) = choose|m: int, ss: int|
        {
            &&& parts.len() == 2
            &&& #[trigger] rendering::is_number(parts[0], m)
            &&& #[trigger] rendering::is_two_digits(parts[1], ss)
            &&& 0 <= ss < 60
            &&& m * 60 + ss == secs
        };
    assert(rendering::is_number(parts[0], m) && rendering::is_two_digits(parts[1], ss));
}

/// What a model is told of a video in a list: its place, its title, its author, its counts,
/// its length, its day and its link, each behind its name; what is not known is said to be
/// so.
pub proof fn law_listed_videos_are_told(i: int, v: SummaryView, date: Seq<char>)
    ensures
        ({
            let t = tools::video_lines(i, v, date);
            &&& text::contains(
                t,
                ". "@ + evidence::neutral(tools::or_text(v.title, "(无标题)"@)),
            )
            &&& text::contains(
                t,
                "\n   作者 "@ + evidence::neutral(tools::or_text(v.channel_name, "未知"@)),
            )
            &&& text::contains(
                t,
                " (@"@ + evidence::neutral(tools::or_text(v.channel_handle, "未知"@)),
            )
            &&& text::contains(t, ") | 播放 "@ + tools::num_text(v.view_count))
            &&& text::contains(t, " | 赞 "@ + tools::num_text(v.like_count))
            &&& text::contains(t, " | 评论 "@ + tools::num_text(v.comment_count))
            &&& text::contains(t, " | 时长 "@ + tools::dur_text(v.duration_sec))
            &&& text::contains(t, " | 发布 "@ + date)
            &&& text::contains(t, "\n   "@ + tools::clean_link(v.url))
            &&& v.description matches Some(d) ==> (Some(d) != v.title && !(v.title is None && d
                == "(无标题)"@) ==> text::contains(t, "   简介："@ + evidence::neutral(d)))
            &&& text::occurs_at(t, text::int_text(i) + ". "@, 0)
        }),
{
    let t = tools::video_lines(i, v, date);
    let title = tools::or_text(v.title, "(无标题)"@);
    let more = match v.description {
        Some(d) => if d == title {
            seq![]
        } else {
            "   简介："@ + evidence::neutral(d) + "\n"@
        },
        None => seq![],
    };
    runs::lemma_run_21(
        text::int_text(i),
        ". "@,
        evidence::neutral(title),
        "\n   作者 "@,
        evidence::neutral(tools::or_text(v.channel_name, "未知"@)),
        " (@"@,
        evidence::neutral(tools::or_text(v.channel_handle, "未知"@)),
        ") | 播放 "@,
        tools::num_text(v.view_count),
        " | 赞 "@,
        tools::num_text(v.like_count),
        " | 评论 "@,
        tools::num_text(v.comment_count),
        " | 时长 "@,
        tools::dur_text(v.duration_sec),
        " | 发布 "@,
        date,
        "\n   "@,
        tools::clean_link(v.url),
        "\n"@,
        more,
    );
    if let Some(d) = v.description {
        if d != title {
            let p = "   简介："@ + evidence::neutral(d);
            texts::lemma_contains_parts(p, "\n"@, p);
            texts::lemma_contains_parts("\n"@, more, more);
            texts::lemma_contains_parts(t, "\n"@ + more, more);
            texts::lemma_contains_parts(t, more, p);
        }
    }
    let h = text::int_text(i) + ". "@;
    assert(t.subrange(0, h.len() as int) =~= h);
}

proof fn lemma_ends(p: Seq<char>, a: Seq<char>, b: Seq<char>, c: Seq<char>)
    ensures
        ({
            let t = p + a + b + c + seq![];
            let end = a + b + c;
            text::occurs_at(t, end, t.len() - end.len())
        }),
{
    let t = p + a + b + c + seq![];
    let end = a + b + c;
    assert(t.subrange(t.len() - end.len(), t.len() as int) =~= end);
}

/// Of a video in a list that has no description, or none but its title, the link is the last
/// thing told.
pub proof fn law_listed_video_ends_with_its_link(i: int, v: SummaryView, date: Seq<char>)
    requires
        v.description is None || v.description == v.title,
    ensures
        ({
            let t = tools::video_lines(i, v, date);
            let end = "\n   "@ + tools::clean_link(v.url) + "\n"@;
            text::occurs_at(t, end, t.len() - end.len())
        }),
{
    let p = text::int_text(i) + ". "@ + evidence::neutral(tools::or_text(v.title, "(无标题)"@))
        + "\n   作者 "@ + evidence::neutral(tools::or_text(v.channel_name, "未知"@)) + " (@"@
        + evidence::neutral(tools::or_text(v.channel_handle, "未知"@)) + ") | 播放 "@
        + tools::num_text(v.view_count) + " | 赞 "@ + tools::num_text(v.like_count) + " | 评论 "@
        + tools::num_text(v.comment_count) + " | 时长 "@ + tools::dur_text(v.duration_sec)
        + " | 发布 "@ + date;
    lemma_ends(p, "\n   "@, tools::clean_link(v.url), "\n"@);
}

proof fn lemma_videos_lines(v: Seq<SummaryView>, n: int, i: int, j: int)
    requires
        0 <= i < n <= v.len(),
    ensures
        text::contains(
            tools::videos_lines(v, n),
            tools::video_lines(i + 1, v[i], tools::day_text(v[i].published_at)),
        ),
        i < j < n ==> texts::in_order(
            tools::videos_lines(v, n),
            tools::video_lines(i + 1, v[i], tools::day_text(v[i].published_at)),
            tools::video_lines(j + 1, v[j], tools::day_text(v[j].published_at)),
        ),
    decreases n,
{
    let before = tools::videos_lines(v, n - 1);
    let last = tools::video_lines(n, v[n - 1], tools::day_text(v[n - 1].published_at));
    let l = tools::video_lines(i + 1, v[i], tools::day_text(v[i].published_at));
    texts::lemma_contains_parts(before, last, l);
    texts::lemma_contains_parts(last, last, last);
    if i < n - 1 {
        lemma_videos_lines(v, n - 1, i, j);
        if i < j < n {
            texts::lemma_in_order(
                before,
                last,
                l,
                tools::video_lines(j + 1, v[j], tools::day_text(v[j].published_at)),
            );
        }
    }
}

/// A list of videos is told whole and in its order, each with its place; how many there are
/// is told first, and that there is none where there is none.
pub proof fn law_video_lists_are_told(v: Seq<SummaryView>, i: int, j: int)
    ensures
        v.len() == 0 ==> text::contains(tools::videos_text(v), "0 条"@),
        v.len() > 0 ==> text::contains(
            tools::videos_text(v),
            "[结果："@ + text::int_text(v.len() as int),
        ),
        0 <= i < v.len() ==> text::contains(
            tools::videos_text(v),
            tools::video_lines(i + 1, v[i], tools::day_text(v[i].published_at)),
        ),
        0 <= i < j < v.len() ==> texts::in_order(
            tools::videos_text(v),
            tools::video_lines(i + 1, v[i], tools::day_text(v[i].published_at)),
            tools::video_lines(j + 1, v[j], tools::day_text(v[j].published_at)),
        ),
{
    if v.len() == 0 {
        reveal_strlit("[结果：0 条。这个关键词在该平台没搜到视频]");
        reveal_strlit("0 条");
        let t = tools::videos_text(v);
        assert(t.subrange(4, 7) =~= "0 条"@);
        assert(text::occurs_at(t, "0 条"@, 4));
    } else {
        let n = v.len() as int;
        let size = text::int_text(n);
        let lines = tools::videos_lines(v, n);
        let head = "[结果："@ + size + " 条]\n"@;
        runs::lemma_run_4("[结果："@, size, " 条]\n"@, lines);
        if 0 <= i < n {
            let l = tools::video_lines(i + 1, v[i], tools::day_text(v[i].published_at));
            lemma_videos_lines(v, n, i, j);
            texts::lemma_contains_parts(head, lines, l);
            if i < j < n {
                texts::lemma_in_order(
                    head,
                    lines,
                    l,
                    tools::video_lines(j + 1, v[j], tools::day_text(v[j].published_at)),
                );
            }
        }
    }
}

/// What a model is told of a creator in a list: its place, its name, its handle, its
/// followers, its videos, whether it is verified and its description, each behind its name.
pub proof fn law_listed_creators_are_told(i: int, c: CreatorView)
    ensures
        ({
            let t = tools::creator_lines(i, c);
            &&& text::contains(t, ". "@ + evidence::neutral(tools::or_text(c.name, "(无名)"@)))
            &&& text::contains(t, " (@"@ + evidence::neutral(tools::or_text(c.handle, "未知"@)))
            &&& text::contains(t, ") | 粉丝 "@ + tools::num_text(c.follower_count))
            &&& text::contains(t, " | 视频数 "@ + tools::num_text(c.video_count))
            &&& c.verified == Some(true) ==> text::contains(
                t,
                tools::num_text(c.video_count) + " | 已认证"@,
            )
            &&& text::contains(t, "\n   简介："@ + evidence::neutral(tools::or_text(c.bio, "(空)"@)))
            &&& text::occurs_at(t, text::int_text(i) + ". "@, 0)
        }),
{
    let t = tools::creator_lines(i, c);
    runs::lemma_run_13(
        text::int_text(i),
        ". "@,
        evidence::neutral(tools::or_text(c.name, "(无名)"@)),
        " (@"@,
        evidence::neutral(tools::or_text(c.handle, "未知"@)),
        ") | 粉丝 "@,
        tools::num_text(c.follower_count),
        " | 视频数 "@,
        tools::num_text(c.video_count),
        if c.verified == Some(true) {
            " | 已认证"@
        } else {
            ""@
        },
        "\n   简介："@,
        evidence::neutral(tools::or_text(c.bio, "(空)"@)),
        "\n"@,
    );
    let h = text::int_text(i) + ". "@;
    assert(t.subrange(0, h.len() as int) =~= h);
}

proof fn lemma_creators_lines(v: Seq<CreatorView>, n: int, i: int, j: int)
    requires
        0 <= i < n <= v.len(),
    ensures
        text::contains(tools::creators_lines(v, n), tools::creator_lines(i + 1, v[i])),
        i < j < n ==> texts::in_order(
            tools::creators_lines(v, n),
            tools::creator_lines(i + 1, v[i]),
            tools::creator_lines(j + 1, v[j]),
        ),
    decreases n,
{
    let before = tools::creators_lines(v, n - 1);
    let last = tools::creator_lines(n, v[n - 1]);
    let l = tools::creator_lines(i + 1, v[i]);
    texts::lemma_contains_parts(before, last, l);
    texts::lemma_contains_parts(last, last, last);
    if i < n - 1 {
        lemma_creators_lines(v, n - 1, i, j);
        if i < j < n {
            texts::lemma_in_order(before, last, l, tools::creator_lines(j + 1, v[j]));
        }
    }
}

/// A list of creators is told whole and in its order, each with its place; how many there
/// are is told first.
pub proof fn law_creator_lists_are_told(v: Seq<CreatorView>, i: int, j: int)
    requires
        0 <= i < v.len(),
    ensures
        text::contains(tools::creators_text(v), "[结果："@ + text::int_text(v.len() as int)),
        text::contains(tools::creators_text(v), tools::creator_lines(i + 1, v[i])),
        i < j < v.len() ==> texts::in_order(
            tools::creators_text(v),
            tools::creator_lines(i + 1, v[i]),
            tools::creator_lines(j + 1, v[j]),
        ),
{
    let n = v.len() as int;
    let size = text::int_text(n);
    let lines = tools::creators_lines(v, n);
    let head = "[结果："@ + size + " 个]\n"@;
    runs::lemma_run_4("[结果："@, size, " 个]\n"@, lines);
    let l = tools::creator_lines(i + 1, v[i]);
    lemma_creators_lines(v, n, i, j);
    texts::lemma_contains_parts(head, lines, l);
    if i < j < n {
        texts::lemma_in_order(head, lines, l, tools::creator_lines(j + 1, v[j]));
    }
}

/// What comes of a call for which the service was asked once: its answer as a model reads
/// it, word for word beside it, with what it charged where it says so; or why it did not
/// answer. The call is named either way.
pub proof fn law_answers_come_of_calls(
    call_id: Seq<char>,
    ep: Endpoint,
    p: Platform,
    reply: error::Result<RawResponse>,
    n: i64,
)
    ensures
        ({
            let o = tools::asked(call_id, ep, p, reply);
            &&& o.call_id == call_id
            &&& o.vision_calls == 0 && o.video_tokens == 0
            &&& match reply {
                Ok(raw) => {
                    &&& !o.is_error
                    &&& o.content == tools::answer_text(ep, p, raw.body@)
                    &&& o.endpoint == Some(raw.endpoint@)
                    &&& o.raw_json == Some(outside::json_text(raw.body@))
                    &&& o.external_calls == 1
                    &&& json::field(raw.body@, "credits_charged"@) == Some(
                        Tree::Number(NumTree::Int(n as int)),
                    ) ==> o.credits_charged == Some(n as int)
                    &&& json::field(raw.body@, "credits_charged"@) is None
                        ==> o.credits_charged is None
                },
                Err(e) => {
                    &&& o.is_error
                    &&& text::contains(o.content, error::error_text(e))
                    &&& o.raw_json is None
                    &&& o.external_calls == 0
                },
            }
        }),
        ep is SearchVideos || ep is GetCreatorVideos ==> (reply matches Ok(raw)
            ==> tools::answer_text(ep, p, raw.body@) == tools::videos_text(
            discovery::video_list(p, raw.body@),
        )),
        ep is SearchCreators ==> (reply matches Ok(raw) ==> tools::answer_text(ep, p, raw.body@)
            == tools::creators_text(discovery::creator_list(p, raw.body@))),
        ep is GetCreator ==> (reply matches Ok(raw) ==> (discovery::creator_view(
            p,
            raw.body@,
        ) matches Some(c) ==> tools::answer_text(ep, p, raw.body@) == tools::creators_text(
            seq![c],
        ))),
{
    if let Err(e) = reply {
        texts::lemma_contains_parts("调用失败："@, error::error_text(e), error::error_text(e));
    }
}

/// A further page adds its videos behind those that there are, keeps its answer, adds what
/// it charged, and says where to go on.
pub proof fn law_pages_add_up(p: PagesView, platform: Platform, body: Tree, n: i64)
    ensures
        ({
            let q = tools::with_page(p, platform, body);
            &&& q.videos == p.videos + discovery::video_list(platform, body)
            &&& q.raws == p.raws.push(outside::json_text(body))
            &&& q.pages == p.pages + 1
            &&& q.cursor == discovery::cursor_after(platform, body)
            &&& json::field(body, "credits_charged"@) == Some(Tree::Number(NumTree::Int(n as int)))
                && i64::MIN <= p.credits + n <= i64::MAX ==> q.credits == p.credits + n
            &&& json::field(body, "credits_charged"@) is None && i64::MIN <= p.credits <= i64::MAX
                ==> q.credits == p.credits
        }),
{
}

/// No further page is asked for exactly where there are as many videos as are wanted, where
/// there is none, or where three were asked for.
pub proof fn law_pages_end(p: PagesView, want: int)
    ensures
        tools::enough(p, want) <==> p.videos.len() >= want || p.cursor is None || p.pages >= 3,
{
}

/// The videos of the first `n` pages, one page behind the other.
pub open spec fn videos_of(p: Platform, replies: Seq<error::Result<RawResponse>>, n: int) -> Seq<
    SummaryView,
>
    decreases n,
{
    if n <= 0 {
        seq![]
    } else {
        videos_of(p, replies, n - 1) + (match replies[n - 1] {
            Ok(raw) => discovery::video_list(p, raw.body@),
            Err(_) => seq![],
        })
    }
}

/// What comes of pages that were asked for one after another: the videos of all of them, in
/// the order of the pages, and each page is counted; where the last one cannot be had, that
/// is told, and those before it are counted.
pub proof fn law_pages_come_to_all_their_videos(
    call_id: Seq<char>,
    p: Platform,
    want: int,
    replies: Seq<error::Result<RawResponse>>,
)
    requires
        tools::pages_end(call_id, p, want, replies) is Some,
    ensures
        ({
            let o = tools::pages_end(call_id, p, want, replies)->Some_0;
            let n = replies.len() as int;
            &&& n > 0
            &&& o.call_id == call_id
            &&& match replies.last() {
                Ok(_) => !o.is_error && o.external_calls == n && o.content == tools::videos_text(
                    videos_of(p, replies, n),
                ),
                Err(e) => o.is_error && o.external_calls == n - 1 && text::contains(
                    o.content,
                    error::error_text(e),
                ),
            }
        }),
{
    let n = replies.len() as int;
    lemma_pages(p, want, replies, n - 1);
    match replies.last() {
        Ok(raw) => {},
        Err(e) => {
            texts::lemma_contains_parts("调用失败："@, error::error_text(e), error::error_text(e));
        },
    }
}

proof fn lemma_pages(p: Platform, want: int, replies: Seq<error::Result<RawResponse>>, n: int)
    requires
        0 <= n <= replies.len(),
    ensures
        tools::pages_so_far(p, want, replies, n) matches Some(x) ==> x.pages == n && x.videos
            == videos_of(p, replies, n),
    decreases n,
{
    if n > 0 {
        lemma_pages(p, want, replies, n - 1);
    }
}

/// What comes of a call for pages holds all their videos, counts each page as one that was
/// asked for, and what all of them charged; where a page cannot be had, those before it are
/// still counted and charged.
pub proof fn law_pages_are_paid_for(call_id: Seq<char>, p: PagesView, e: ClipKnowError, i: int)
    ensures
        ({
            let o = tools::paged(call_id, p);
            &&& o.call_id == call_id && !o.is_error
            &&& o.content == tools::videos_text(p.videos)
            &&& o.external_calls == p.pages
            &&& o.credits_charged == Some(p.credits)
            &&& o.endpoint matches Some(x) && text::contains(x, text::int_text(p.pages))
            &&& 0 <= i < p.raws.len() ==> (o.raw_json matches Some(x) && text::contains(x, p.raws[i]))
        }),
        ({
            let o = tools::pages_cut_off(call_id, p, e);
            &&& o.call_id == call_id && o.is_error
            &&& text::contains(o.content, error::error_text(e))
            &&& o.external_calls == p.pages
            &&& o.credits_charged == Some(p.credits)
        }),
{
    texts::lemma_contains_middle("get_creator_videos ×"@, text::int_text(p.pages), " 页"@);
    texts::lemma_contains_parts("调用失败："@, error::error_text(e), error::error_text(e));
    if 0 <= i < p.raws.len() {
        let all = text::join(p.raws, ","@);
        rendering::lemma_joined(p.raws, ","@, i, i);
        texts::lemma_contains_middle("["@, all, "]"@);
        texts::lemma_contains_parts("["@ + all + "]"@, all, p.raws[i]);
    }
}

} // verus!
