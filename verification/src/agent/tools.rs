//! The tools that a model may use.
//!
//! There are five, and the platform is a parameter: with one tool for each
//! platform a model keeps to the platform it knows best. Nothing but the
//! platform and a word or a handle is asked of the model; sorting and paging
//! are settled here.

use vstd::prelude::*;
use crate::agent::llm::{CallView, ToolCall, ToolDef, ToolResult};
use crate::content::evidence;
use crate::content::evidence::{format_date, neutralize};
use crate::content::model;
use crate::content::model::{Creator, CreatorView, SummaryView, VideoSummary};
use crate::error;
use crate::error::Result;
use crate::ingest::discovery;
use crate::ingest::discovery::{
    next_cursor, parse_creator, parse_search_creators, parse_search_videos, Endpoint, RawResponse,
};
use crate::ingest::url;
use crate::ingest::url::{ParsedUrl, Platform};
use crate::json;
use crate::json::{array, entry, object, string, Json, Tree};
use crate::outside;
use crate::text;
use crate::text::{
    char_position, from_chars, i64_text, is_blank, joined, padded, same, to_chars, trimmed, usize_text,
    without_leading,
};

verus! {

/// What the model is told of searching videos.
pub const SEARCH_VIDEOS_ABOUT: &'static str = "按关键词搜索视频，返回标题、作者、播放量、发布时间。\
                找某个领域的博主时**优先用这个**：搜到的视频是按内容匹配的，\
                看这些视频的作者是谁，比直接搜账号名可靠得多。";

/// What the model is told of searching creators.
pub const SEARCH_CREATORS_ABOUT: &'static str = "按关键词搜索博主账号。\
                ⚠️ 它是拿关键词去匹配**账号名和简介的字符串**，不是按内容质量排序——\
                搜「科普」只会返回名字里带「科普」两个字的账号。\
                适合你已经知道人名、要定位他的账号；\
                找某个领域做得好的博主请改用 search_videos 再看作者。";

/// What the model is told of looking up a creator.
pub const GET_CREATOR_ABOUT: &'static str = "查一个博主的主页数据：粉丝数、视频总数、简介、是否认证。";

/// What the model is told of listing the videos of a creator.
pub const GET_CREATOR_VIDEOS_ABOUT: &'static str = "看一个博主最近发了什么。\
                **要推荐某个博主，必须先用这个确认他近期内容真的对得上**——\
                粉丝数和搜索里出现的频次都不能证明这一点。\
                默认给最近一页（10-30 条，够判断内容方向）。\
                要判断更新频率、或想看更长的时间窗，才用 max_videos 多要几条——\
                它是翻页拿的，要几页就花几次调用。";

/// What the model is told of fetching a video.
pub const FETCH_VIDEO_ABOUT: &'static str = "把一条视频看完：元数据 + 文字稿 + 高赞评论 + **画面内容**。\
                要说清某条视频讲了什么就用它——标题和 hashtag 经常完全没有信息量\
                （实测有的视频标题就是 `#Science #earth`，一个字的内容都没有）。\
                比上面几个慢，也贵一些。";

/// What the model is told of the question it can ask about a video.
pub const QUESTION_ABOUT: &'static str = "想在画面里确认的具体问题。不填就生成通用档案；填了会以更高帧率重看一遍，只在通用档案确实没覆盖时才用";

/// The names of the platforms that a tool can be used on.
pub open spec fn platform_names(searchable: bool) -> Seq<Seq<char>> {
    if searchable {
        seq!["youtube"@, "tiktok"@]
    } else {
        seq!["youtube"@, "tiktok"@, "instagram"@]
    }
}

/// The names of the platforms that a tool can be used on. Videos cannot be
/// searched on Instagram, and a choice that always fails is not offered.
fn allowed_names(searchable: bool) -> (r: Vec<String>)
    ensures
        text::texts(r@) == platform_names(searchable),
{
    let mut r: Vec<String> = vec!["youtube".to_owned(), "tiktok".to_owned()];
    if !searchable {
        r.push("instagram".to_owned());
    }
    assert(text::texts(r@) =~= platform_names(searchable));
    r
}

// ---------------------------------------------------------------------------
// What the model is told
// ---------------------------------------------------------------------------

/// A list of texts as a value.
pub open spec fn text_array(v: Seq<Seq<char>>) -> Tree {
    Tree::Array(Seq::new(v.len(), |i: int| Tree::Str(v[i])))
}

/// The schema of a parameter that names a platform.
pub open spec fn platform_schema(searchable: bool) -> Tree {
    Tree::Object(
        seq![
            ("type"@, Tree::Str("string"@)),
            ("enum"@, text_array(platform_names(searchable))),
        ],
    )
}

/// The schema of a parameter.
pub open spec fn param_schema(kind: Seq<char>, about: Seq<char>) -> Tree {
    Tree::Object(seq![("type"@, Tree::Str(kind)), ("description"@, Tree::Str(about))])
}

/// The schema of the parameters of a tool.
pub open spec fn tool_schema(props: Seq<(Seq<char>, Tree)>, required: Seq<Seq<char>>) -> Tree {
    Tree::Object(
        seq![
            ("type"@, Tree::Str("object"@)),
            ("properties"@, Tree::Object(props)),
            ("required"@, text_array(required)),
        ],
    )
}

/// What the model is told of a tool.
pub struct DefView {
    pub name: Seq<char>,
    pub description: Seq<char>,
    pub params: Tree,
}

/// What the model is told of a tool.
pub open spec fn def_view(d: ToolDef) -> DefView {
    DefView { name: d.name@, description: d.description@, params: d.params@ }
}

/// What the model is told of the tools.
pub open spec fn defs_view(v: Seq<ToolDef>) -> Seq<DefView> {
    Seq::new(v.len(), |i: int| def_view(v[i]))
}

/// The five tools.
pub open spec fn tools() -> Seq<DefView> {
    seq![
        DefView {
            name: "search_videos"@,
            description: SEARCH_VIDEOS_ABOUT@,
            params: tool_schema(
                seq![
                    ("platform"@, platform_schema(true)),
                    ("query"@, param_schema("string"@, "搜索关键词"@)),
                ],
                seq!["platform"@, "query"@],
            ),
        },
        DefView {
            name: "search_creators"@,
            description: SEARCH_CREATORS_ABOUT@,
            params: tool_schema(
                seq![
                    ("platform"@, platform_schema(false)),
                    ("query"@, param_schema("string"@, "账号名或关键词"@)),
                ],
                seq!["platform"@, "query"@],
            ),
        },
        DefView {
            name: "get_creator"@,
            description: GET_CREATOR_ABOUT@,
            params: tool_schema(
                seq![
                    ("platform"@, platform_schema(false)),
                    ("handle"@, param_schema("string"@, "账号 handle，不带 @"@)),
                ],
                seq!["platform"@, "handle"@],
            ),
        },
        DefView {
            name: "get_creator_videos"@,
            description: GET_CREATOR_VIDEOS_ABOUT@,
            params: tool_schema(
                seq![
                    ("platform"@, platform_schema(false)),
                    ("handle"@, param_schema("string"@, "账号 handle，不带 @"@)),
                    (
                        "max_videos"@,
                        param_schema(
                            "integer"@,
                            "想要多少条。不填就只拿一页。每多一页多花一次调用"@,
                        ),
                    ),
                ],
                seq!["platform"@, "handle"@],
            ),
        },
        DefView {
            name: "fetch_video"@,
            description: FETCH_VIDEO_ABOUT@,
            params: tool_schema(
                seq![
                    ("url"@, param_schema("string"@, "视频链接（YouTube / TikTok / Instagram）"@)),
                    ("question"@, param_schema("string"@, QUESTION_ABOUT@)),
                ],
                seq!["url"@],
            ),
        },
    ]
}

fn texts_json(v: &Vec<String>) -> (r: Json)
    ensures
        r@ == text_array(text::texts(v@)),
{
    let mut list: Vec<Json> = Vec::new();
    let mut i: usize = 0;
    while i < v.len()
        invariant
            i <= v@.len(),
            list@.len() == i,
            forall|k: int| 0 <= k < i ==> (#[trigger] list@[k])@ == Tree::Str(v@[k]@),
        decreases v@.len() - i,
    {
        list.push(string(v[i].as_str()));
        i = i + 1;
    }
    assert(json::trees(list@) =~= text_array(text::texts(v@))->Array_0);
    array(list)
}

fn platform_prop(searchable: bool) -> (r: (String, Json))
    ensures
        (r.0@, r.1@) == ("platform"@, platform_schema(searchable)),
{
    let o = object(
        vec![entry("type", string("string")), entry("enum", texts_json(&allowed_names(searchable)))],
    );
    assert(o@->Object_0 =~= platform_schema(searchable)->Object_0);
    entry("platform", o)
}

fn prop(name: &str, kind: &str, about: &str) -> (r: (String, Json))
    ensures
        (r.0@, r.1@) == (name@, param_schema(kind@, about@)),
{
    let o = object(vec![entry("type", string(kind)), entry("description", string(about))]);
    assert(o@->Object_0 =~= param_schema(kind@, about@)->Object_0);
    entry(name, o)
}

fn schema(props: Vec<(String, Json)>, required: &Vec<String>) -> (r: Json)
    ensures
        r@ == tool_schema(json::fields(props@), text::texts(required@)),
{
    let ghost p = json::fields(props@);
    let o = object(
        vec![
            entry("type", string("object")),
            entry("properties", object(props)),
            entry("required", texts_json(required)),
        ],
    );
    assert(o@->Object_0 =~= tool_schema(p, text::texts(required@))->Object_0);
    o
}

fn def(name: &str, about: &str, params: Json) -> (r: ToolDef)
    ensures
        def_view(r) == (DefView { name: name@, description: about@, params: params@ }),
{
    ToolDef { name: name.to_owned(), description: about.to_owned(), params }
}

fn search_def(name: &str, about: &str, searchable: bool, query: &str) -> (r: ToolDef)
    ensures
        def_view(r) == (DefView {
            name: name@,
            description: about@,
            params: tool_schema(
                seq![
                    ("platform"@, platform_schema(searchable)),
                    ("query"@, param_schema("string"@, query@)),
                ],
                seq!["platform"@, "query"@],
            ),
        }),
{
    let props = vec![platform_prop(searchable), prop("query", "string", query)];
    assert(json::fields(props@) =~= seq![
        ("platform"@, platform_schema(searchable)),
        ("query"@, param_schema("string"@, query@)),
    ]);
    let required = vec!["platform".to_owned(), "query".to_owned()];
    assert(text::texts(required@) =~= seq!["platform"@, "query"@]);
    def(name, about, schema(props, &required))
}

/// The tools, as the model is told of them.
pub fn tool_defs() -> (r: Vec<ToolDef>)
    ensures
        defs_view(r@) == tools(),
{
    let d0 = search_def("search_videos", SEARCH_VIDEOS_ABOUT, true, "搜索关键词");
    let d1 = search_def("search_creators", SEARCH_CREATORS_ABOUT, false, "账号名或关键词");
    let handle = vec!["platform".to_owned(), "handle".to_owned()];
    assert(text::texts(handle@) =~= seq!["platform"@, "handle"@]);
    let p2 = vec![platform_prop(false), prop("handle", "string", "账号 handle，不带 @")];
    assert(json::fields(p2@) =~= seq![
        ("platform"@, platform_schema(false)),
        ("handle"@, param_schema("string"@, "账号 handle，不带 @"@)),
    ]);
    let d2 = def("get_creator", GET_CREATOR_ABOUT, schema(p2, &handle));
    let p3 = vec![
        platform_prop(false),
        prop("handle", "string", "账号 handle，不带 @"),
        prop("max_videos", "integer", "想要多少条。不填就只拿一页。每多一页多花一次调用"),
    ];
    assert(json::fields(p3@) =~= seq![
        ("platform"@, platform_schema(false)),
        ("handle"@, param_schema("string"@, "账号 handle，不带 @"@)),
        ("max_videos"@, param_schema("integer"@, "想要多少条。不填就只拿一页。每多一页多花一次调用"@)),
    ]);
    let d3 = def("get_creator_videos", GET_CREATOR_VIDEOS_ABOUT, schema(p3, &handle));
    let p4 = vec![
        prop("url", "string", "视频链接（YouTube / TikTok / Instagram）"),
        prop("question", "string", QUESTION_ABOUT),
    ];
    assert(json::fields(p4@) =~= seq![
        ("url"@, param_schema("string"@, "视频链接（YouTube / TikTok / Instagram）"@)),
        ("question"@, param_schema("string"@, QUESTION_ABOUT@)),
    ]);
    let url_only = vec!["url".to_owned()];
    assert(text::texts(url_only@) =~= seq!["url"@]);
    let d4 = def("fetch_video", FETCH_VIDEO_ABOUT, schema(p4, &url_only));
    let r = vec![d0, d1, d2, d3, d4];
    assert(defs_view(r@) =~= tools());
    r
}

// ---------------------------------------------------------------------------
// What the model reads
// ---------------------------------------------------------------------------

/// What is written for something that is not known. It is never left out: a
/// model would take it for nothing, or make something up.
pub const UNKNOWN: &'static str = "未知";

/// A number that may not be known.
pub open spec fn num_text(n: Option<int>) -> Seq<char> {
    match n {
        Some(k) => text::int_text(k),
        None => UNKNOWN@,
    }
}

/// A length of time that may not be known, as minutes and seconds.
pub open spec fn dur_text(n: Option<int>) -> Seq<char> {
    match n {
        Some(s) => {
            let m = if s < 0 { -((-s) / 60) } else { s / 60 };
            let r = if s < 0 { -((-s) % 60) } else { s % 60 };
            text::int_text(m) + ":"@ + text::two_digits(r)
        },
        None => UNKNOWN@,
    }
}

/// A link without its query.
pub open spec fn clean_link(u: Seq<char>) -> Seq<char> {
    u.take(text::index_of(u, '?', 0))
}

/// A day that may not be known.
pub open spec fn day_text(ts: Option<int>) -> Seq<char> {
    match ts {
        Some(n) => evidence::date_text(n),
        None => UNKNOWN@,
    }
}

/// A text that may not be known.
pub open spec fn or_text(t: Option<Seq<char>>, other: Seq<char>) -> Seq<char> {
    match t {
        Some(s) => s,
        None => other,
    }
}

/// The lines about a video, the `i`-th of a list, published on the day `date`.
/// A description that says the same as the title is not said again.
pub open spec fn video_lines(i: int, v: SummaryView, date: Seq<char>) -> Seq<char> {
    let title = or_text(v.title, "(无标题)"@);
    text::int_text(i) + ". "@ + evidence::neutral(title) + "\n   作者 "@ + evidence::neutral(
        or_text(v.channel_name, UNKNOWN@),
    ) + " (@"@ + evidence::neutral(or_text(v.channel_handle, UNKNOWN@)) + ") | 播放 "@ + num_text(
        v.view_count,
    ) + " | 赞 "@ + num_text(v.like_count) + " | 评论 "@ + num_text(v.comment_count)
        + " | 时长 "@ + dur_text(v.duration_sec) + " | 发布 "@ + date + "\n   "@ + clean_link(v.url)
        + "\n"@ + (match v.description {
        Some(d) => if d == title {
            seq![]
        } else {
            "   简介："@ + evidence::neutral(d) + "\n"@
        },
        None => seq![],
    })
}

/// The lines about the first `n` videos.
pub open spec fn videos_lines(v: Seq<SummaryView>, n: int) -> Seq<char>
    decreases n,
{
    if n <= 0 || n > v.len() {
        seq![]
    } else {
        videos_lines(v, n - 1) + video_lines(n, v[n - 1], day_text(v[n - 1].published_at))
    }
}

/// A list of videos as a model reads it. The identifiers of channels are not
/// in it.
pub open spec fn videos_text(v: Seq<SummaryView>) -> Seq<char> {
    if v.len() == 0 {
        "[结果：0 条。这个关键词在该平台没搜到视频]"@
    } else {
        "[结果："@ + text::int_text(v.len() as int) + " 条]\n"@ + videos_lines(v, v.len() as int)
    }
}

/// The lines about a creator, the `i`-th of a list.
pub open spec fn creator_lines(i: int, c: CreatorView) -> Seq<char> {
    text::int_text(i) + ". "@ + evidence::neutral(or_text(c.name, "(无名)"@)) + " (@"@
        + evidence::neutral(or_text(c.handle, UNKNOWN@)) + ") | 粉丝 "@ + num_text(c.follower_count)
        + " | 视频数 "@ + num_text(c.video_count) + (if c.verified == Some(true) {
        " | 已认证"@
    } else {
        ""@
    }) + "\n   简介："@ + evidence::neutral(or_text(c.bio, "(空)"@)) + "\n"@
}

/// The lines about the first `n` creators.
pub open spec fn creators_lines(v: Seq<CreatorView>, n: int) -> Seq<char>
    decreases n,
{
    if n <= 0 || n > v.len() {
        seq![]
    } else {
        creators_lines(v, n - 1) + creator_lines(n, v[n - 1])
    }
}

/// A list of creators as a model reads it.
pub open spec fn creators_text(v: Seq<CreatorView>) -> Seq<char> {
    if v.len() == 0 {
        "[结果：0 个。这个关键词在该平台没搜到账号]"@
    } else {
        "[结果："@ + text::int_text(v.len() as int) + " 个]\n"@ + creators_lines(v, v.len() as int)
    }
}

fn num(v: Option<i64>) -> (r: String)
    ensures
        r@ == num_text(model::opt_int(v)),
{
    match v {
        Some(n) => i64_text(n),
        None => UNKNOWN.to_owned(),
    }
}

fn dur(v: Option<i64>) -> (r: String)
    ensures
        r@ == dur_text(model::opt_int(v)),
{
    match v {
        Some(s) => {
            let negative: bool = s < 0;
            let size: u64 = if negative { (-(s + 1)) as u64 + 1 } else { s as u64 };
            let m: i64 = if negative { -((size / 60) as i64) } else { (size / 60) as i64 };
            let r: i64 = if negative { -((size % 60) as i64) } else { (size % 60) as i64 };
            i64_text(m).concat(":").concat(padded(r).as_str())
        },
        None => UNKNOWN.to_owned(),
    }
}

/// A link without its query: what follows the question mark is for counting
/// visitors.
fn clean_url(u: &str) -> (r: String)
    ensures
        r@ == clean_link(u@),
{
    let t = to_chars(u);
    let end: usize = char_position(&t, '?', 0);
    assert(t@.subrange(0, end as int) =~= u@.take(end as int));
    from_chars(&t, 0, end)
}

fn date(v: Option<i64>) -> (r: String)
    ensures
        r@ == day_text(model::opt_int(v)),
        evidence::tagless(r@),
{
    proof {
        reveal_strlit("未知");
    }
    match v {
        Some(ts) => format_date(ts),
        None => UNKNOWN.to_owned(),
    }
}

fn text_or<'a>(v: &'a Option<String>, other: &'a str) -> (r: &'a str)
    ensures
        r@ == or_text(text::opt(*v), other@),
{
    match v {
        Some(s) => s.as_str(),
        None => other,
    }
}

/// The lines about a video, the `i`-th of a list, published on the day `date`.
pub fn render_video(i: usize, v: &VideoSummary, date: &str) -> (r: String)
    ensures
        r@ == video_lines(i as int, v@, date@),
{
    let title = text_or(&v.title, "(无标题)");
    let s = usize_text(i).concat(". ").concat(neutralize(title).as_str()).concat("\n   作者 ");
    let s = s.concat(neutralize(text_or(&v.channel_name, UNKNOWN)).as_str()).concat(" (@");
    let s = s.concat(neutralize(text_or(&v.channel_handle, UNKNOWN)).as_str()).concat(") | 播放 ");
    let s = s.concat(num(v.view_count).as_str()).concat(" | 赞 ");
    let s = s.concat(num(v.like_count).as_str()).concat(" | 评论 ");
    let s = s.concat(num(v.comment_count).as_str()).concat(" | 时长 ");
    let s = s.concat(dur(v.duration_sec).as_str()).concat(" | 发布 ").concat(date).concat("\n   ");
    let s = s.concat(clean_url(v.url.as_str()).as_str()).concat("\n");
    let about = match &v.description {
        Some(d) => if same(d.as_str(), title) {
            String::new()
        } else {
            "   简介：".to_owned().concat(neutralize(d.as_str()).as_str()).concat("\n")
        },
        None => String::new(),
    };
    s.concat(about.as_str())
}

/// A list of videos as a model reads it. No tag stands in it, unless one stands
/// in a link.
pub fn render_videos(items: &[VideoSummary]) -> (r: String)
    ensures
        r@ == videos_text(model::summaries_view(items@)),
        clean_links(model::summaries_view(items@)) ==> evidence::clean(r@),
{
    let ghost all = model::summaries_view(items@);
    if items.len() == 0 {
        proof {
            reveal_strlit("[结果：0 条。这个关键词在该平台没搜到视频]");
            evidence::lemma_tagless_is_clean("[结果：0 条。这个关键词在该平台没搜到视频]"@);
        }
        return "[结果：0 条。这个关键词在该平台没搜到视频]".to_owned();
    }
    let mut out = "[结果：".to_owned().concat(usize_text(items.len()).as_str()).concat(" 条]\n");
    let ghost head = out@;
    let mut i: usize = 0;
    proof {
        lemma_count(items@.len() as int, " 条]\n"@);
    }
    assert(head + videos_lines(all, 0) =~= head);
    while i < items.len()
        invariant
            i <= items@.len(),
            all == model::summaries_view(items@),
            out@ == head + videos_lines(all, i as int),
            clean_links(all) ==> evidence::sealed(out@),
        decreases items@.len() - i,
    {
        let day = date(items[i].published_at);
        assert(all[i as int] == items@[i as int]@);
        let lines = render_video(i + 1, &items[i], day.as_str());
        proof {
            if clean_links(all) {
                evidence::lemma_tagless_is_clean(day@);
                law_video_lines_are_sealed(i + 1, all[i as int], day@);
                evidence::lemma_sealed(out@, lines@);
            }
        }
        out.append(lines.as_str());
        i = i + 1;
        assert(out@ =~= head + videos_lines(all, i as int));
    }
    out
}

fn render_creator(i: usize, c: &Creator) -> (r: String)
    ensures
        r@ == creator_lines(i as int, c@),
{
    let s = usize_text(i).concat(". ").concat(
        neutralize(text_or(&c.name, "(无名)")).as_str(),
    ).concat(" (@");
    let s = s.concat(neutralize(text_or(&c.handle, UNKNOWN)).as_str()).concat(") | 粉丝 ");
    let s = s.concat(num(c.follower_count).as_str()).concat(" | 视频数 ");
    let s = s.concat(num(c.video_count).as_str());
    let known: bool = match c.verified {
        Some(b) => b,
        None => false,
    };
    let s = s.concat(
        if known {
            " | 已认证"
        } else {
            ""
        },
    ).concat("\n   简介：");
    s.concat(neutralize(text_or(&c.bio, "(空)")).as_str()).concat("\n")
}

/// A list of creators as a model reads it. No tag stands in it.
pub fn render_creators(items: &[Creator]) -> (r: String)
    ensures
        r@ == creators_text(model::creators_view(items@)),
        evidence::clean(r@),
{
    let ghost all = model::creators_view(items@);
    if items.len() == 0 {
        proof {
            reveal_strlit("[结果：0 个。这个关键词在该平台没搜到账号]");
            evidence::lemma_tagless_is_clean("[结果：0 个。这个关键词在该平台没搜到账号]"@);
        }
        return "[结果：0 个。这个关键词在该平台没搜到账号]".to_owned();
    }
    let mut out = "[结果：".to_owned().concat(usize_text(items.len()).as_str()).concat(" 个]\n");
    let ghost head = out@;
    let mut i: usize = 0;
    proof {
        lemma_count(items@.len() as int, " 个]\n"@);
    }
    assert(head + creators_lines(all, 0) =~= head);
    while i < items.len()
        invariant
            i <= items@.len(),
            all == model::creators_view(items@),
            out@ == head + creators_lines(all, i as int),
            evidence::sealed(out@),
        decreases items@.len() - i,
    {
        assert(all[i as int] == items@[i as int]@);
        let lines = render_creator(i + 1, &items[i]);
        proof {
            law_creator_lines_are_sealed(i + 1, all[i as int]);
            evidence::lemma_sealed(out@, lines@);
        }
        out.append(lines.as_str());
        i = i + 1;
        assert(out@ =~= head + creators_lines(all, i as int));
    }
    out
}

/// Whether no tag stands in the links of videos.
pub open spec fn clean_links(v: Seq<SummaryView>) -> bool {
    forall|i: int| 0 <= i < v.len() ==> evidence::clean(clean_link((#[trigger] v[i]).url))
}

proof fn lemma_count(n: int, end: Seq<char>)
    requires
        end == " 条]\n"@ || end == " 个]\n"@,
    ensures
        evidence::sealed("[结果："@ + text::int_text(n) + end),
{
    reveal_strlit("[结果：");
    reveal_strlit(" 条]\n");
    reveal_strlit(" 个]\n");
    evidence::lemma_number_is_tagless(n);
    evidence::lemma_tagless_is_clean(text::int_text(n));
    evidence::lemma_line("[结果："@, text::int_text(n), end);
}

proof fn lemma_num(n: Option<int>)
    ensures
        evidence::clean(num_text(n)),
{
    reveal_strlit("未知");
    if let Some(k) = n {
        evidence::lemma_number_is_tagless(k);
    }
    evidence::lemma_tagless_is_clean(num_text(n));
}

proof fn lemma_dur(n: Option<int>)
    ensures
        evidence::clean(dur_text(n)),
{
    reveal_strlit("未知");
    reveal_strlit(":");
    if let Some(s) = n {
        let m = if s < 0 { -((-s) / 60) } else { s / 60 };
        let r = if s < 0 { -((-s) % 60) } else { s % 60 };
        evidence::lemma_number_is_tagless(m);
        evidence::lemma_two_digits_is_tagless(r);
        evidence::lemma_tagless(text::int_text(m), ":"@);
        evidence::lemma_tagless(text::int_text(m) + ":"@, text::two_digits(r));
    }
    evidence::lemma_tagless_is_clean(dur_text(n));
}

proof fn lemma_neutral(t: Option<Seq<char>>, other: Seq<char>)
    ensures
        evidence::clean(evidence::neutral(or_text(t, other))),
{
    evidence::law_neutral_is_clean(or_text(t, other));
}

proof fn lemma_start(i: int)
    ensures
        evidence::sealed(text::int_text(i) + ". "@),
{
    reveal_strlit(". ");
    evidence::lemma_number_is_tagless(i);
    evidence::lemma_tagless(text::int_text(i), ". "@);
    evidence::lemma_tagless_is_clean(text::int_text(i) + ". "@);
    assert((text::int_text(i) + ". "@).last() == ' ');
}

/// Whatever strangers wrote in a title, a name or a description, no tag stands
/// in the lines about a video, unless one stands in its link.
pub proof fn law_video_lines_are_sealed(i: int, v: SummaryView, date: Seq<char>)
    requires
        evidence::clean(date),
        evidence::clean(clean_link(v.url)),
    ensures
        evidence::sealed(video_lines(i, v, date)),
{
    reveal_strlit("\n   作者 ");
    reveal_strlit(" (@");
    reveal_strlit(") | 播放 ");
    reveal_strlit(" | 赞 ");
    reveal_strlit(" | 评论 ");
    reveal_strlit(" | 时长 ");
    reveal_strlit(" | 发布 ");
    reveal_strlit("\n   ");
    reveal_strlit("\n");
    reveal_strlit("   简介：");
    let title = or_text(v.title, "(无标题)"@);
    lemma_start(i);
    lemma_neutral(v.title, "(无标题)"@);
    lemma_neutral(v.channel_name, UNKNOWN@);
    lemma_neutral(v.channel_handle, UNKNOWN@);
    lemma_num(v.view_count);
    lemma_num(v.like_count);
    lemma_num(v.comment_count);
    lemma_dur(v.duration_sec);
    let a = text::int_text(i) + ". "@;
    evidence::lemma_next(a, evidence::neutral(title), "\n   作者 "@);
    let b = a + evidence::neutral(title) + "\n   作者 "@;
    let name = evidence::neutral(or_text(v.channel_name, UNKNOWN@));
    evidence::lemma_next(b, name, " (@"@);
    let c = b + name + " (@"@;
    let handle = evidence::neutral(or_text(v.channel_handle, UNKNOWN@));
    evidence::lemma_next(c, handle, ") | 播放 "@);
    let d = c + handle + ") | 播放 "@;
    evidence::lemma_next(d, num_text(v.view_count), " | 赞 "@);
    let e = d + num_text(v.view_count) + " | 赞 "@;
    evidence::lemma_next(e, num_text(v.like_count), " | 评论 "@);
    let f = e + num_text(v.like_count) + " | 评论 "@;
    evidence::lemma_next(f, num_text(v.comment_count), " | 时长 "@);
    let g = f + num_text(v.comment_count) + " | 时长 "@;
    evidence::lemma_next(g, dur_text(v.duration_sec), " | 发布 "@);
    let h = g + dur_text(v.duration_sec) + " | 发布 "@;
    evidence::lemma_next(h, date, "\n   "@);
    let k = h + date + "\n   "@;
    evidence::lemma_next(k, clean_link(v.url), "\n"@);
    let l = k + clean_link(v.url) + "\n"@;
    match v.description {
        Some(t) => if t != title {
            evidence::law_neutral_is_clean(t);
            evidence::lemma_line("   简介："@, evidence::neutral(t), "\n"@);
            evidence::lemma_sealed(l, "   简介："@ + evidence::neutral(t) + "\n"@);
        } else {
            assert(l + Seq::<char>::empty() =~= l);
        },
        None => {
            assert(l + Seq::<char>::empty() =~= l);
        },
    }
}

/// Whatever strangers wrote in a name or a description, no tag stands in the
/// lines about a creator.
pub proof fn law_creator_lines_are_sealed(i: int, c: CreatorView)
    ensures
        evidence::sealed(creator_lines(i, c)),
{
    reveal_strlit(" (@");
    reveal_strlit(") | 粉丝 ");
    reveal_strlit(" | 视频数 ");
    reveal_strlit(" | 已认证");
    reveal_strlit("");
    reveal_strlit("\n   简介：");
    reveal_strlit("\n");
    lemma_start(i);
    lemma_neutral(c.name, "(无名)"@);
    lemma_neutral(c.handle, UNKNOWN@);
    lemma_neutral(c.bio, "(空)"@);
    lemma_num(c.follower_count);
    lemma_num(c.video_count);
    let a = text::int_text(i) + ". "@;
    let name = evidence::neutral(or_text(c.name, "(无名)"@));
    evidence::lemma_next(a, name, " (@"@);
    let b = a + name + " (@"@;
    let handle = evidence::neutral(or_text(c.handle, UNKNOWN@));
    evidence::lemma_next(b, handle, ") | 粉丝 "@);
    let d = b + handle + ") | 粉丝 "@;
    evidence::lemma_next(d, num_text(c.follower_count), " | 视频数 "@);
    let e = d + num_text(c.follower_count) + " | 视频数 "@;
    let mark = if c.verified == Some(true) {
        " | 已认证"@
    } else {
        ""@
    };
    let sep = mark + "\n   简介："@;
    evidence::lemma_tagless(mark, "\n   简介："@);
    evidence::lemma_next(e, num_text(c.video_count), sep);
    assert(e + num_text(c.video_count) + sep =~= e + num_text(c.video_count) + mark
        + "\n   简介："@);
    let f = e + num_text(c.video_count) + mark + "\n   简介："@;
    let bio = evidence::neutral(or_text(c.bio, "(空)"@));
    evidence::lemma_next(f, bio, "\n"@);
}

// ---------------------------------------------------------------------------
// What comes of a call
// ---------------------------------------------------------------------------

/// What came of a call, and what it cost. A failure is an outcome like any
/// other: every call has to be answered.
#[derive(Debug)]
pub struct ToolOutcome {
    pub result: ToolResult,
    /// What was asked of the scraping service.
    pub endpoint: Option<String>,
    /// What it answered.
    pub raw_json: Option<String>,
    /// What it charged; none where it did not say.
    pub credits_charged: Option<i64>,
    /// How many times it was asked.
    pub external_calls: usize,
    /// How many times a video was looked at.
    pub vision_calls: usize,
    /// What the pictures came to, as the model that looked at them counted.
    pub video_tokens: u32,
}

/// What came of a call.
pub struct OutcomeView {
    pub call_id: Seq<char>,
    pub content: Seq<char>,
    pub is_error: bool,
    pub endpoint: Option<Seq<char>>,
    pub raw_json: Option<Seq<char>>,
    pub credits_charged: Option<int>,
    pub external_calls: int,
    pub vision_calls: int,
    pub video_tokens: int,
}

impl ToolOutcome {
    pub open spec fn view(&self) -> OutcomeView {
        OutcomeView {
            call_id: self.result.call_id@,
            content: self.result.content@,
            is_error: self.result.is_error,
            endpoint: text::opt(self.endpoint),
            raw_json: text::opt(self.raw_json),
            credits_charged: model::opt_int(self.credits_charged),
            external_calls: self.external_calls as int,
            vision_calls: self.vision_calls as int,
            video_tokens: self.video_tokens as int,
        }
    }
}

/// A call that came to nothing, after the service was asked for it `calls` times.
pub open spec fn failed(
    call_id: Seq<char>,
    message: Seq<char>,
    calls: int,
    credits: Option<int>,
) -> OutcomeView {
    OutcomeView {
        call_id,
        content: message,
        is_error: true,
        endpoint: None,
        raw_json: None,
        credits_charged: credits,
        external_calls: calls,
        vision_calls: 0,
        video_tokens: 0,
    }
}

/// A call that came to nothing, and cost nothing.
pub open spec fn refused(call_id: Seq<char>, message: Seq<char>) -> OutcomeView {
    failed(call_id, message, 0, Some(0))
}

impl ToolOutcome {
    /// A call that came to nothing after the service was asked. What was paid for
    /// is counted all the same.
    pub fn failed(call_id: &str, msg: String, calls: usize, credits: Option<i64>) -> (r: ToolOutcome)
        ensures
            r@ == failed(call_id@, msg@, calls as int, model::opt_int(credits)),
    {
        ToolOutcome {
            result: ToolResult { call_id: call_id.to_owned(), content: msg, is_error: true },
            endpoint: None,
            raw_json: None,
            credits_charged: credits,
            external_calls: calls,
            vision_calls: 0,
            video_tokens: 0,
        }
    }

    /// A call that came to nothing. That it cost nothing is known, and said.
    pub fn err(call_id: &str, msg: String) -> (r: ToolOutcome)
        ensures
            r@ == refused(call_id@, msg@),
    {
        ToolOutcome::failed(call_id, msg, 0, Some(0))
    }
}

// ---------------------------------------------------------------------------
// What a call asks for
// ---------------------------------------------------------------------------

/// The text that a call has to give under `key`, or what is wrong with it.
pub open spec fn needed(args: Tree, key: Seq<char>) -> std::result::Result<Seq<char>, Seq<char>> {
    match json::field(args, key) {
        None => Err("缺少必填参数 `"@ + key + "`"@),
        Some(Tree::Null) => Err("缺少必填参数 `"@ + key + "`"@),
        Some(Tree::Str(s)) => if text::blank(s) {
            Err("参数 `"@ + key + "` 是空的"@)
        } else {
            Ok(s)
        },
        Some(other) => Err(
            "参数 `"@ + key + "` 必须是字符串，收到的是 "@ + outside::json_text(other),
        ),
    }
}

/// Whether `r` says what `v` says.
pub open spec fn is_text(
    r: std::result::Result<String, String>,
    v: std::result::Result<Seq<char>, Seq<char>>,
) -> bool {
    match v {
        Ok(t) => r matches Ok(s) && s@ == t,
        Err(t) => r matches Err(s) && s@ == t,
    }
}

fn need_str(args: &Json, key: &str) -> (r: std::result::Result<String, String>)
    ensures
        is_text(r, needed(args@, key@)),
{
    match args.get(key) {
        None => Err("缺少必填参数 `".to_owned().concat(key).concat("`")),
        Some(Json::Null) => Err("缺少必填参数 `".to_owned().concat(key).concat("`")),
        Some(Json::Str(s)) => if is_blank(s.as_str()) {
            Err("参数 `".to_owned().concat(key).concat("` 是空的"))
        } else {
            Ok(s.clone())
        },
        Some(other) => Err(
            "参数 `".to_owned().concat(key).concat("` 必须是字符串，收到的是 ").concat(
                other.text().as_str(),
            ),
        ),
    }
}

/// The platform that a call has to name, or what is wrong with it.
pub open spec fn needed_platform(args: Tree, searchable: bool) -> std::result::Result<
    Platform,
    Seq<char>,
> {
    match needed(args, "platform"@) {
        Err(m) => Err(m),
        Ok(raw) => if raw == "youtube"@ {
            Ok(Platform::YouTube)
        } else if raw == "tiktok"@ {
            Ok(Platform::TikTok)
        } else if raw == "instagram"@ && !searchable {
            Ok(Platform::Instagram)
        } else {
            Err(
                "这个工具不支持平台 `"@ + raw + "`，可用的是："@ + text::join(
                    platform_names(searchable),
                    " / "@,
                ),
            )
        },
    }
}

fn need_platform(args: &Json, searchable: bool) -> (r: std::result::Result<Platform, String>)
    ensures
        match needed_platform(args@, searchable) {
            Ok(p) => r matches Ok(q) && q == p,
            Err(t) => r matches Err(s) && s@ == t,
        },
{
    let raw = match need_str(args, "platform") {
        Ok(s) => s,
        Err(e) => return Err(e),
    };
    if same(raw.as_str(), "youtube") {
        return Ok(Platform::YouTube);
    }
    if same(raw.as_str(), "tiktok") {
        return Ok(Platform::TikTok);
    }
    if same(raw.as_str(), "instagram") && !searchable {
        return Ok(Platform::Instagram);
    }
    Err(
        "这个工具不支持平台 `".to_owned().concat(raw.as_str()).concat("`，可用的是：").concat(
            joined(&allowed_names(searchable), " / ").as_str(),
        ),
    )
}

/// What a tool asks of the scraping service; none for a tool that is not there,
/// and for the one that fetches a video.
pub open spec fn endpoint_of(name: Seq<char>) -> Option<Endpoint> {
    if name == "search_videos"@ {
        Some(Endpoint::SearchVideos)
    } else if name == "search_creators"@ {
        Some(Endpoint::SearchCreators)
    } else if name == "get_creator"@ {
        Some(Endpoint::GetCreator)
    } else if name == "get_creator_videos"@ {
        Some(Endpoint::GetCreatorVideos)
    } else {
        None
    }
}

/// The parameter that says what is looked for.
pub open spec fn argument_name(ep: Endpoint) -> Seq<char> {
    match ep {
        Endpoint::SearchVideos => "query"@,
        Endpoint::SearchCreators => "query"@,
        Endpoint::GetCreator => "handle"@,
        Endpoint::GetCreatorVideos => "handle"@,
    }
}

/// How many videos a call asks for, where it says so; at least one.
pub open spec fn wanted(args: Tree) -> Option<int> {
    match json::field(args, "max_videos"@) {
        Some(t) => match json::i64_of(t) {
            Some(n) => Some(
                if n < 1 {
                    1
                } else {
                    n
                },
            ),
            None => None,
        },
        None => None,
    }
}

/// The question with which a video is to be looked at, where there is one.
pub open spec fn asked_question(args: Tree) -> Option<Seq<char>> {
    match json::then_str(json::field(args, "question"@)) {
        Some(q) => if text::trim(q).len() == 0 {
            None
        } else {
            Some(text::trim(q))
        },
        None => None,
    }
}

/// What is wrong with a link.
pub open spec fn bad_link(u: Seq<char>, m: url::Meaning) -> Seq<char> {
    "这个链接用不了："@ + (match m {
        url::Meaning::NoId => "链接里找不到视频 ID: "@ + u,
        _ => "无法识别的链接: "@ + u + "\n目前只支持 YouTube / TikTok / Instagram"@,
    })
}

/// What has to be done for a call.
pub enum PlanView {
    Reject(OutcomeView),
    Ask { ep: Endpoint, platform: Platform, arg: Seq<char> },
    Pages { platform: Platform, handle: Seq<char>, want: int },
    Fetch { platform: Platform, native_id: Seq<char>, url: Seq<char>, question: Option<Seq<char>> },
}

/// What has to be done for a call that names a tool of the scraping service.
pub open spec fn planned_ask(c: CallView, ep: Endpoint) -> PlanView {
    match needed_platform(c.args, ep == Endpoint::SearchVideos) {
        Err(m) => PlanView::Reject(refused(c.id, m)),
        Ok(platform) => match needed(c.args, argument_name(ep)) {
            Err(m) => PlanView::Reject(refused(c.id, m)),
            Ok(a) => {
                let arg = text::drop_leading(text::trim(a), '@');
                match wanted(c.args) {
                    Some(want) => if ep == Endpoint::GetCreatorVideos {
                        PlanView::Pages { platform, handle: arg, want }
                    } else {
                        PlanView::Ask { ep, platform, arg }
                    },
                    None => PlanView::Ask { ep, platform, arg },
                }
            },
        },
    }
}

/// What has to be done for a call that asks for a video.
pub open spec fn planned_fetch(c: CallView) -> PlanView {
    match needed(c.args, "url"@) {
        Err(m) => PlanView::Reject(refused(c.id, m)),
        Ok(u) => match url::meaning(url::address(u)) {
            url::Meaning::Video(platform, native_id) => PlanView::Fetch {
                platform,
                native_id,
                url: u,
                question: asked_question(c.args),
            },
            m => PlanView::Reject(refused(c.id, bad_link(u, m))),
        },
    }
}

/// What has to be done for a call.
pub open spec fn planned(c: CallView) -> PlanView {
    if c.name == "fetch_video"@ {
        planned_fetch(c)
    } else {
        match endpoint_of(c.name) {
            Some(ep) => planned_ask(c, ep),
            None => PlanView::Reject(
                refused(
                    c.id,
                    "没有叫 `"@ + c.name
                        + "` 的工具。可用的是：search_videos / search_creators / get_creator / get_creator_videos / fetch_video"@,
                ),
            ),
        }
    }
}

/// What has to be done for a call.
#[derive(Debug)]
pub enum Plan {
    /// Nothing: the call is answered, and nothing was asked of anybody.
    Reject(ToolOutcome),
    /// To ask the scraping service once.
    Ask { ep: Endpoint, platform: Platform, arg: String },
    /// To ask it for one page of videos after another.
    Pages { platform: Platform, handle: String, want: u64 },
    /// To fetch a video, and to look at it.
    Fetch { parsed: ParsedUrl, url: String, question: Option<String> },
}

/// Whether `r` is the plan `v`.
pub open spec fn is_plan(r: Plan, v: PlanView) -> bool {
    match v {
        PlanView::Reject(o) => r matches Plan::Reject(x) && x@ == o,
        PlanView::Ask { ep, platform, arg } => r matches Plan::Ask { ep: e, platform: p, arg: a }
            && e == ep && p == platform && a@ == arg,
        PlanView::Pages { platform, handle, want } => r matches Plan::Pages {
            platform: p,
            handle: h,
            want: w,
        } && p == platform && h@ == handle && w as int == want,
        PlanView::Fetch { platform, native_id, url, question } => r matches Plan::Fetch {
            parsed,
            url: u,
            question: q,
        } && parsed.platform == platform && parsed.native_id@ == native_id && u@ == url && text::opt(q)
            == question,
    }
}

fn want_of(args: &Json) -> (r: Option<u64>)
    ensures
        match r {
            Some(n) => wanted(args@) == Some(n as int),
            None => wanted(args@) is None,
        },
{
    match args.get("max_videos") {
        Some(j) => match j.as_i64() {
            Some(n) => Some(
                if n < 1 {
                    1
                } else {
                    n as u64
                },
            ),
            None => None,
        },
        None => None,
    }
}

fn question_of(args: &Json) -> (r: Option<String>)
    ensures
        text::opt(r) == asked_question(args@),
{
    match args.get("question") {
        Some(j) => match j.as_str() {
            Some(q) => {
                let t = trimmed(q);
                if t.as_str().is_empty() {
                    None
                } else {
                    Some(t)
                }
            },
            None => None,
        },
        None => None,
    }
}

fn plan_fetch(call: &ToolCall) -> (r: Plan)
    ensures
        is_plan(r, planned_fetch(call@)),
{
    let link = match need_str(&call.args, "url") {
        Ok(u) => u,
        Err(e) => return Plan::Reject(ToolOutcome::err(call.id.as_str(), e)),
    };
    match url::parse(link.as_str()) {
        Ok(parsed) => Plan::Fetch { parsed, url: link, question: question_of(&call.args) },
        Err(e) => {
            let m = "这个链接用不了：".to_owned().concat(e.message().as_str());
            assert(m@ == bad_link(link@, url::meaning(url::address(link@))));
            Plan::Reject(ToolOutcome::err(call.id.as_str(), m))
        },
    }
}

fn plan_ask(call: &ToolCall, ep: Endpoint) -> (r: Plan)
    ensures
        is_plan(r, planned_ask(call@, ep)),
{
    let platform = match need_platform(&call.args, ep == Endpoint::SearchVideos) {
        Ok(p) => p,
        Err(e) => return Plan::Reject(ToolOutcome::err(call.id.as_str(), e)),
    };
    let key: &str = match ep {
        Endpoint::SearchVideos => "query",
        Endpoint::SearchCreators => "query",
        Endpoint::GetCreator => "handle",
        Endpoint::GetCreatorVideos => "handle",
    };
    let arg = match need_str(&call.args, key) {
        Ok(a) => without_leading(trimmed(a.as_str()).as_str(), '@'),
        Err(e) => return Plan::Reject(ToolOutcome::err(call.id.as_str(), e)),
    };
    match want_of(&call.args) {
        Some(want) if ep == Endpoint::GetCreatorVideos => Plan::Pages { platform, handle: arg, want },
        _ => Plan::Ask { ep, platform, arg },
    }
}

/// What has to be done for a call. What is wrong with it is found before
/// anything is asked of anybody.
pub fn plan(call: &ToolCall) -> (r: Plan)
    ensures
        is_plan(r, planned(call@)),
{
    let name = call.name.as_str();
    if same(name, "fetch_video") {
        plan_fetch(call)
    } else if same(name, "search_videos") {
        plan_ask(call, Endpoint::SearchVideos)
    } else if same(name, "search_creators") {
        plan_ask(call, Endpoint::SearchCreators)
    } else if same(name, "get_creator") {
        plan_ask(call, Endpoint::GetCreator)
    } else if same(name, "get_creator_videos") {
        plan_ask(call, Endpoint::GetCreatorVideos)
    } else {
        let m = "没有叫 `".to_owned().concat(name).concat(
            "` 的工具。可用的是：search_videos / search_creators / get_creator / get_creator_videos / fetch_video",
        );
        Plan::Reject(ToolOutcome::err(call.id.as_str(), m))
    }
}

/// A call that is refused is answered under its own identifier, as an error,
/// and costs nothing.
pub proof fn law_refusals_are_free(c: CallView)
    ensures
        planned(c) matches PlanView::Reject(o) ==> o == refused(c.id, o.content),
{
}

/// A tool can be used on every platform that the model is told of, and on no
/// other: a call that gives what is needed is not refused exactly there.
pub proof fn law_offered_platforms_are_taken(args: Tree, searchable: bool, raw: Seq<char>)
    requires
        needed(args, "platform"@) == Ok::<Seq<char>, Seq<char>>(raw),
    ensures
        needed_platform(args, searchable) is Ok <==> platform_names(searchable).contains(raw),
{
    let names = platform_names(searchable);
    assert(names[0] == "youtube"@);
    assert(names[1] == "tiktok"@);
    if !searchable {
        assert(names[2] == "instagram"@);
    }
}

// ---------------------------------------------------------------------------
// Asking the scraping service
// ---------------------------------------------------------------------------

/// What the service charged, where it says so.
pub open spec fn charged(body: Tree) -> Option<int> {
    match json::field(body, "credits_charged"@) {
        Some(t) => json::i64_of(t),
        None => None,
    }
}

fn charge_of(body: &Json) -> (r: Option<i64>)
    ensures
        model::opt_int(r) == charged(body@),
{
    match body.get("credits_charged") {
        Some(j) => j.as_i64(),
        None => None,
    }
}

/// An answer of the service as a model reads it.
pub open spec fn answer_text(ep: Endpoint, p: Platform, body: Tree) -> Seq<char> {
    match ep {
        Endpoint::SearchVideos => videos_text(discovery::video_list(p, body)),
        Endpoint::GetCreatorVideos => videos_text(discovery::video_list(p, body)),
        Endpoint::SearchCreators => creators_text(discovery::creator_list(p, body)),
        Endpoint::GetCreator => match discovery::creator_view(p, body) {
            Some(c) => creators_text(seq![c]),
            None => "[结果：没查到这个账号]"@,
        },
    }
}

/// What comes of a call for which the service was asked once.
pub open spec fn answered(
    call_id: Seq<char>,
    ep: Endpoint,
    p: Platform,
    endpoint: Seq<char>,
    body: Tree,
) -> OutcomeView {
    OutcomeView {
        call_id,
        content: answer_text(ep, p, body),
        is_error: false,
        endpoint: Some(endpoint),
        raw_json: Some(outside::json_text(body)),
        credits_charged: charged(body),
        external_calls: 1,
        vision_calls: 0,
        video_tokens: 0,
    }
}

fn answer(ep: Endpoint, p: Platform, body: &Json) -> (r: String)
    ensures
        r@ == answer_text(ep, p, body@),
{
    match ep {
        Endpoint::SearchVideos => render_videos(parse_search_videos(p, body).as_slice()),
        Endpoint::GetCreatorVideos => render_videos(parse_search_videos(p, body).as_slice()),
        Endpoint::SearchCreators => render_creators(parse_search_creators(p, body).as_slice()),
        Endpoint::GetCreator => match parse_creator(p, body) {
            Some(c) => {
                let ghost v = c@;
                let one = vec![c];
                assert(model::creators_view(one@) =~= seq![v]);
                render_creators(one.as_slice())
            },
            None => "[结果：没查到这个账号]".to_owned(),
        },
    }
}

/// What comes of a call for which the service was asked once, from its answer or
/// its failure to answer.
pub open spec fn asked(call_id: Seq<char>, ep: Endpoint, p: Platform, reply: Result<RawResponse>) -> OutcomeView {
    match reply {
        Ok(raw) => answered(call_id, ep, p, raw.endpoint@, raw.body@),
        Err(e) => refused(call_id, "调用失败："@ + error::error_text(e)),
    }
}

/// What comes of a call for which the service was asked once, from its answer.
/// That it did not answer is told to the model.
pub fn finish_ask(call_id: &str, ep: Endpoint, p: Platform, reply: Result<RawResponse>) -> (r:
    ToolOutcome)
    ensures
        r@ == asked(call_id@, ep, p, reply),
{
    match reply {
        Ok(raw) => {
            let content = answer(ep, p, &raw.body);
            let credits_charged = charge_of(&raw.body);
            let raw_json = raw.body.text();
            ToolOutcome {
                result: ToolResult { call_id: call_id.to_owned(), content, is_error: false },
                endpoint: Some(raw.endpoint),
                raw_json: Some(raw_json),
                credits_charged,
                external_calls: 1,
                vision_calls: 0,
                video_tokens: 0,
            }
        },
        Err(e) => ToolOutcome::err(
            call_id,
            "调用失败：".to_owned().concat(e.message().as_str()),
        ),
    }
}

// ---------------------------------------------------------------------------
// Page after page
// ---------------------------------------------------------------------------

/// The most pages that are asked for, whatever number of videos a model wants.
pub const MAX_PAGES: usize = 3;

/// The pages of the videos of a creator, as far as they were asked for. The
/// cursors of the platforms are long and unlike; a model never sees one.
#[derive(Debug)]
pub struct Paging {
    pub call_id: String,
    pub platform: Platform,
    pub handle: String,
    /// How many videos are wanted.
    pub want: u64,
    pub videos: Vec<VideoSummary>,
    pub raws: Vec<String>,
    pub credits: i64,
    /// What has to be sent to get the next page; none for the first.
    pub cursor: Option<String>,
    /// How many pages there are.
    pub pages: usize,
}

/// What follows a page.
#[derive(Debug)]
pub enum PageStep {
    Ask(Paging),
    Done(ToolOutcome),
}

fn plus(a: i64, b: i64) -> (r: i64)
    ensures
        r as int == json::cut(a + b),
{
    let n: i128 = a as i128 + b as i128;
    if n < i64::MIN as i128 {
        i64::MIN
    } else if n > i64::MAX as i128 {
        i64::MAX
    } else {
        n as i64
    }
}

/// Pages of videos: what is on them, what they cost, and where they go on.
pub struct PagesView {
    pub videos: Seq<SummaryView>,
    pub raws: Seq<Seq<char>>,
    pub credits: int,
    pub cursor: Option<Seq<char>>,
    pub pages: int,
}

/// The pages that there are.
pub open spec fn pages_view(p: Paging) -> PagesView {
    PagesView {
        videos: model::summaries_view(p.videos@),
        raws: text::texts(p.raws@),
        credits: p.credits as int,
        cursor: text::opt(p.cursor),
        pages: p.pages as int,
    }
}

/// The pages with one more.
pub open spec fn with_page(p: PagesView, platform: Platform, body: Tree) -> PagesView {
    PagesView {
        videos: p.videos + discovery::video_list(platform, body),
        raws: p.raws.push(outside::json_text(body)),
        credits: json::cut(
            p.credits + (match charged(body) {
                Some(n) => n,
                None => 0,
            }),
        ),
        cursor: discovery::cursor_after(platform, body),
        pages: p.pages + 1,
    }
}

/// Whether no further page is asked for.
pub open spec fn enough(p: PagesView, want: int) -> bool {
    p.videos.len() >= want || p.cursor is None || p.pages >= MAX_PAGES
}

/// What comes of a call for which pages were asked for. Every page was paid for,
/// and is counted.
pub open spec fn paged(call_id: Seq<char>, p: PagesView) -> OutcomeView {
    OutcomeView {
        call_id,
        content: videos_text(p.videos),
        is_error: false,
        endpoint: Some("get_creator_videos ×"@ + text::int_text(p.pages) + " 页"@),
        raw_json: Some("["@ + text::join(p.raws, ","@) + "]"@),
        credits_charged: Some(p.credits),
        external_calls: p.pages,
        vision_calls: 0,
        video_tokens: 0,
    }
}

/// What comes of a call for pages when the next page cannot be had. The pages
/// before it were paid for, and are counted.
pub open spec fn pages_cut_off(call_id: Seq<char>, p: PagesView, e: error::ClipKnowError) -> OutcomeView {
    failed(call_id, "调用失败："@ + error::error_text(e), p.pages, Some(p.credits))
}

/// No pages.
pub open spec fn no_pages() -> PagesView {
    PagesView { videos: seq![], raws: seq![], credits: 0, cursor: None, pages: 0 }
}

/// The pages after the first `n` answers, where all of them are pages and one more
/// is asked for.
pub open spec fn pages_so_far(
    platform: Platform,
    want: int,
    replies: Seq<Result<RawResponse>>,
    n: int,
) -> Option<PagesView>
    decreases n,
{
    if n <= 0 {
        Some(no_pages())
    } else if n > replies.len() {
        None
    } else {
        match (pages_so_far(platform, want, replies, n - 1), replies[n - 1]) {
            (Some(p), Ok(raw)) => {
                let next = with_page(p, platform, raw.body@);
                if enough(next, want) {
                    None
                } else {
                    Some(next)
                }
            },
            _ => None,
        }
    }
}

/// What comes of a call for pages that got these answers, the last of which is the
/// last that was asked for.
pub open spec fn pages_end(
    call_id: Seq<char>,
    platform: Platform,
    want: int,
    replies: Seq<Result<RawResponse>>,
) -> Option<OutcomeView> {
    if replies.len() == 0 {
        None
    } else {
        match (pages_so_far(platform, want, replies, replies.len() - 1), replies.last()) {
            (Some(p), Ok(raw)) => {
                let next = with_page(p, platform, raw.body@);
                if enough(next, want) {
                    Some(paged(call_id, next))
                } else {
                    None
                }
            },
            (Some(p), Err(e)) => Some(pages_cut_off(call_id, p, e)),
            _ => None,
        }
    }
}

impl Paging {
    /// The pages before any was asked for.
    pub fn start(call_id: &str, platform: Platform, handle: String, want: u64) -> (r: Paging)
        ensures
            r.call_id@ == call_id@,
            r.platform == platform,
            r.handle == handle,
            r.want == want,
            pages_view(r) == no_pages(),
    {
        let r = Paging {
            call_id: call_id.to_owned(),
            platform,
            handle,
            want,
            videos: Vec::new(),
            raws: Vec::new(),
            credits: 0,
            cursor: None,
            pages: 0,
        };
        assert(model::summaries_view(r.videos@) =~= seq![]);
        assert(text::texts(r.raws@) =~= seq![]);
        r
    }

    /// What follows the next page, or the failure to get it.
    pub fn advance(self, reply: Result<RawResponse>) -> (r: PageStep)
        requires
            self.pages < MAX_PAGES,
        ensures
            match reply {
                Err(e) => r matches PageStep::Done(o) && o@ == pages_cut_off(
                    self.call_id@,
                    pages_view(self),
                    e,
                ),
                Ok(raw) => {
                    let next = with_page(pages_view(self), self.platform, raw.body@);
                    if enough(next, self.want as int) {
                        r matches PageStep::Done(o) && o@ == paged(self.call_id@, next)
                    } else {
                        r matches PageStep::Ask(p) && pages_view(p) == next && p.call_id
                            == self.call_id && p.platform == self.platform && p.handle
                            == self.handle && p.want == self.want && p.pages < MAX_PAGES
                    }
                },
            },
    {
        let ghost before = pages_view(self);
        let raw = match reply {
            Ok(raw) => raw,
            Err(e) => return PageStep::Done(
                ToolOutcome::failed(
                    self.call_id.as_str(),
                    "调用失败：".to_owned().concat(e.message().as_str()),
                    self.pages,
                    Some(self.credits),
                ),
            ),
        };
        let ghost next = with_page(before, self.platform, raw.body@);
        let charge: i64 = match charge_of(&raw.body) {
            Some(n) => n,
            None => 0,
        };
        let mut videos = self.videos;
        let mut more = parse_search_videos(self.platform, &raw.body);
        videos.append(&mut more);
        let mut raws = self.raws;
        raws.push(raw.body.text());
        let cursor = next_cursor(self.platform, &raw.body);
        let credits: i64 = plus(self.credits, charge);
        let pages: usize = self.pages + 1;
        assert(model::summaries_view(videos@) =~= next.videos);
        assert(text::texts(raws@) =~= next.raws);
        if videos.len() as u64 >= self.want || cursor.is_none() || pages >= MAX_PAGES {
            PageStep::Done(
                ToolOutcome {
                    result: ToolResult {
                        call_id: self.call_id,
                        content: render_videos(videos.as_slice()),
                        is_error: false,
                    },
                    endpoint: Some(
                        "get_creator_videos ×".to_owned().concat(usize_text(pages).as_str()).concat(
                            " 页",
                        ),
                    ),
                    raw_json: Some(
                        "[".to_owned().concat(joined(&raws, ",").as_str()).concat("]"),
                    ),
                    credits_charged: Some(credits),
                    external_calls: pages,
                    vision_calls: 0,
                    video_tokens: 0,
                },
            )
        } else {
            PageStep::Ask(
                Paging {
                    call_id: self.call_id,
                    platform: self.platform,
                    handle: self.handle,
                    want: self.want,
                    videos,
                    raws,
                    credits,
                    cursor,
                    pages,
                },
            )
        }
    }
}

} // verus!
