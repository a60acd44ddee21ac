//! What the service says of a video, and what of it is kept.

use vstd::prelude::*;
use crate::content::model;
use crate::content::model::CommentView;
use crate::ingest::scrapecreators;
use crate::ingest::url::Platform;
use crate::json;
use crate::json::{NumTree, Tree};
use crate::laws::places;
use crate::laws::reading;
use crate::outside;
use crate::text;

verus! {

/// Whether a moment was read from a place at which it is written as a text.
pub open spec fn moment_from(t: Option<Tree>, r: Option<int>) -> bool {
    match t {
        Some(Tree::Str(s)) => r == (if s.len() > 0 {
            outside::rfc3339_seconds(s)
        } else {
            None
        }),
        Some(Tree::Number(NumTree::Int(n))) => r == outside::rfc3339_seconds(text::int_text(n)),
        Some(Tree::Number(NumTree::Float { text, .. })) => r == outside::rfc3339_seconds(text),
        _ => r is None,
    }
}

/// The record of a video on YouTube holds what the answer says under the names of YouTube,
/// and what it was asked for.
pub proof fn law_youtube_video_is_what_the_answer_says(
    t: Tree,
    native_id: Seq<char>,
    url: Seq<char>,
    id: Seq<char>,
    now: int,
)
    ensures
        ({
            let v = scrapecreators::video_view(
                Platform::YouTube,
                t,
                native_id,
                url,
                id,
                now,
                scrapecreators::named_moment(Platform::YouTube, t),
            );
            let channel = json::field(t, "channel"@);
            &&& v.platform == Platform::YouTube && v.native_id == native_id && v.url == url && v.id
                == id && v.fetched_at == now
            &&& reading::text_from(json::field(t, "title"@), v.title)
            &&& reading::text_from(json::field(t, "description"@), v.description)
            &&& reading::text_from(reading::below(channel, "handle"@), v.author_handle)
            &&& reading::text_from(reading::below(channel, "title"@), v.author_name)
            &&& reading::seconds_from(json::field(t, "durationMs"@), v.duration_sec)
            &&& reading::int_from(json::field(t, "viewCountInt"@), v.view_count)
            &&& reading::int_from(json::field(t, "likeCountInt"@), v.like_count)
            &&& reading::int_from(json::field(t, "commentCountInt"@), v.comment_count)
            &&& moment_from(json::field(t, "publishDate"@), v.published_at)
        }),
{
    places::lemma_at_title(t);
    places::lemma_at_description(t);
    places::lemma_at_channel_to_handle(t);
    places::lemma_at_channel_to_title(t);
    places::lemma_at_durationms(t);
    places::lemma_at_viewcountint(t);
    places::lemma_at_likecountint(t);
    places::lemma_at_commentcountint(t);
    places::lemma_at_publishdate(t);
}

/// The record of a video on TikTok holds what the answer says, in the detail where there is
/// one, under the names of TikTok. The caption is both its title and its description.
pub proof fn law_tiktok_video_is_what_the_answer_says(
    t: Tree,
    native_id: Seq<char>,
    url: Seq<char>,
    id: Seq<char>,
    now: int,
    named: Option<int>,
)
    ensures
        ({
            let v = scrapecreators::video_view(
                Platform::TikTok,
                t,
                native_id,
                url,
                id,
                now,
                named,
            );
            let a = reading::within(t, "aweme_detail"@);
            let author = json::field(a, "author"@);
            let counts = json::field(a, "statistics"@);
            &&& v.platform == Platform::TikTok && v.native_id == native_id && v.url == url && v.id
                == id && v.fetched_at == now
            &&& reading::text_from(json::field(a, "desc"@), v.title)
            &&& v.description == v.title
            &&& reading::text_from(reading::below(author, "unique_id"@), v.author_handle)
            &&& reading::text_from(reading::below(author, "nickname"@), v.author_name)
            &&& reading::seconds_from(
                reading::below(json::field(a, "video"@), "duration"@),
                v.duration_sec,
            )
            &&& reading::int_from(json::field(a, "create_time"@), v.published_at)
            &&& reading::int_from(reading::below(counts, "play_count"@), v.view_count)
            &&& reading::int_from(reading::below(counts, "digg_count"@), v.like_count)
            &&& reading::int_from(reading::below(counts, "comment_count"@), v.comment_count)
        }),
{
    let a = reading::within(t, "aweme_detail"@);
    places::lemma_at_desc(a);
    places::lemma_at_author_to_unique_id(a);
    places::lemma_at_author_to_nickname(a);
    places::lemma_at_video_to_duration(a);
    places::lemma_at_create_time(a);
    places::lemma_at_statistics_to_play_count(a);
    places::lemma_at_statistics_to_digg_count(a);
    places::lemma_at_statistics_to_comment_count(a);
}

/// Whether a post stands in an answer of Instagram: at the first of the places at which
/// Instagram puts one, or it is the answer itself.
pub open spec fn is_post(t: Tree, n: Tree) -> bool {
    let post = places::instagram_post(t);
    ||| exists|i: int| #[trigger] reading::is_first(post, i) && post[i] == Some(n)
    ||| n == t && forall|i: int| 0 <= i < post.len() ==> reading::absent(#[trigger] post[i])
}

/// Whether a post says as a number when it was made, and `a` is that number.
pub open spec fn has_stamp(n: Tree, a: Option<int>) -> bool {
    reading::int_from_first(
        seq![json::field(n, "taken_at_timestamp"@), json::field(n, "taken_at"@)],
        a,
    )
}

/// The record of a video on Instagram holds what the post in the answer says, under the
/// names of Instagram, of which there are several for one thing.
pub proof fn law_instagram_video_is_what_the_answer_says(
    t: Tree,
    n: Tree,
    native_id: Seq<char>,
    url: Seq<char>,
    id: Seq<char>,
    now: int,
)
    requires
        is_post(t, n),
    ensures
        ({
            let v = scrapecreators::video_view(
                Platform::Instagram,
                t,
                native_id,
                url,
                id,
                now,
                scrapecreators::named_moment(Platform::Instagram, t),
            );
            &&& v.platform == Platform::Instagram && v.native_id == native_id && v.url == url
                && v.id == id && v.fetched_at == now
            &&& reading::text_from_first(
                seq![
                    reading::below(json::field(n, "caption"@), "text"@),
                    json::field(n, "caption"@),
                    reading::below(
                        reading::below(
                            reading::first_in(
                                reading::below(
                                    json::field(n, "edge_media_to_caption"@),
                                    "edges"@,
                                ),
                            ),
                            "node"@,
                        ),
                        "text"@,
                    ),
                ],
                v.title,
            )
            &&& reading::text_from_first(
                seq![
                    reading::below(json::field(n, "caption"@), "text"@),
                    json::field(n, "caption"@),
                ],
                v.description,
            )
            &&& reading::text_from_first(
                seq![
                    reading::below(json::field(n, "owner"@), "username"@),
                    reading::below(json::field(n, "user"@), "username"@),
                ],
                v.author_handle,
            )
            &&& reading::text_from_first(
                seq![
                    reading::below(json::field(n, "owner"@), "full_name"@),
                    reading::below(json::field(n, "user"@), "full_name"@),
                ],
                v.author_name,
            )
            &&& reading::whole_from(json::field(n, "video_duration"@), v.duration_sec)
            &&& reading::int_from_first(
                seq![
                    json::field(n, "video_play_count"@),
                    json::field(n, "play_count"@),
                    json::field(n, "video_view_count"@),
                ],
                v.view_count,
            )
            &&& reading::int_from_first(
                seq![
                    json::field(n, "like_count"@),
                    reading::below(json::field(n, "edge_media_preview_like"@), "count"@),
                ],
                v.like_count,
            )
            &&& reading::int_from_first(
                seq![
                    json::field(n, "comment_count"@),
                    reading::below(json::field(n, "edge_media_to_comment"@), "count"@),
                ],
                v.comment_count,
            )
            &&& exists|a: Option<int>|
                {
                    &&& #[trigger] has_stamp(n, a)
                    &&& a is Some ==> v.published_at == a
                    &&& a is None ==> moment_from(json::field(n, "taken_at"@), v.published_at)
                }
        }),
{
    places::lemma_instagram_post(t);
    assert(scrapecreators::instagram_post(t) == n);
    places::lemma_instagram_title(n);
    places::lemma_caption(n);
    places::lemma_owner_handle(n);
    places::lemma_owner_name(n);
    places::lemma_at_video_duration(n);
    places::lemma_plays(n);
    places::lemma_likes_or_edge(n);
    places::lemma_comments_or_edge(n);
    places::lemma_taken_at_first(n);
    places::lemma_at_taken_at(n);
    let a = scrapecreators::picked_int(n, ["taken_at_timestamp", "taken_at"]@);
    assert(has_stamp(n, a));
}

/// Whether the list of comments in an answer is `a`: what stands under `comments`, and under
/// `data` where that is no list.
pub open spec fn is_comment_list(t: Tree, a: Seq<Tree>) -> bool {
    ||| json::field(t, "comments"@) == Some(Tree::Array(a))
    ||| json::field(t, "data"@) == Some(Tree::Array(a)) && !(json::field(t, "comments"@) matches Some(
        Tree::Array(_),
    ))
}

/// Whether a comment says `s`: it stands under `content`, or under `text` where nothing
/// stands there, or under `comment` where nothing stands at either.
pub open spec fn says(t: Tree, s: Seq<char>) -> bool {
    ||| json::field(t, "content"@) == Some(Tree::Str(s))
    ||| reading::absent(json::field(t, "content"@)) && json::field(t, "text"@) == Some(Tree::Str(s))
    ||| reading::absent(json::field(t, "content"@)) && reading::absent(json::field(t, "text"@))
        && json::field(t, "comment"@) == Some(Tree::Str(s))
}

/// Whether `own` is the identifier that a comment has itself.
pub open spec fn has_id(t: Tree, own: Option<Seq<char>>) -> bool {
    reading::text_from_first(seq![json::field(t, "id"@), json::field(t, "cid"@)], own)
}

/// Whether `v` is the record of the comment `t`, under its own identifier where it has one,
/// and under a new one where it has none.
pub open spec fn is_comment(v: CommentView, t: Tree, video_id: Seq<char>) -> bool {
    let user = json::field(t, "user"@);
    &&& v.video_id == video_id
    &&& reading::text_from_first(
        seq![json::field(t, "content"@), json::field(t, "text"@), json::field(t, "comment"@)],
        Some(v.text),
    )
    &&& !text::blank(v.text)
    &&& reading::text_from_first(
        seq![
            reading::below(json::field(t, "author"@), "name"@),
            reading::below(user, "nickname"@),
            reading::below(user, "username"@),
            reading::below(json::field(t, "owner"@), "username"@),
        ],
        v.author,
    )
    &&& reading::int_from_first(
        seq![
            reading::below(json::field(t, "engagement"@), "likes"@),
            json::field(t, "digg_count"@),
            json::field(t, "like_count"@),
        ],
        v.like_count,
    )
    &&& exists|a: Option<int>|
        {
            &&& #[trigger] reading::int_from(json::field(t, "create_time"@), a)
            &&& a is Some ==> v.published_at == a
            &&& a is None ==> moment_from(json::field(t, "publishedTime"@), v.published_at)
        }
    &&& exists|own: Option<Seq<char>>|
        #[trigger] has_id(t, own) && (own matches Some(x) ==> v.id == x) && (own is None
            ==> model::is_new_id(v.id))
}

/// Every comment among the first twenty that says something has a record with exactly what
/// it says, its author, its likes, its moment and its identifier. The records stand in the
/// order of the comments, and there are no others.
pub proof fn law_comments_are_recorded(t: Tree, a: Seq<Tree>, v: Seq<CommentView>, video_id: Seq<char>)
    requires
        is_comment_list(t, a),
        scrapecreators::recorded(v, scrapecreators::taken_comments(t), video_id),
    ensures
        forall|i: int, s: Seq<char>|
            0 <= i < a.len() && i < 20 && #[trigger] says(a[i], s) && !text::blank(s) ==> exists|
                k: int,
            |
                0 <= k < v.len() && (#[trigger] v[k]).text == s && is_comment(v[k], a[i], video_id),
        exists|at: Seq<int>|
            {
                &&& at.len() == v.len()
                &&& forall|k: int|
                    0 <= k < v.len() ==> 0 <= #[trigger] at[k] < a.len() && at[k] < 20 && is_comment(
                        v[k],
                        a[at[k]],
                        video_id,
                    )
                &&& forall|j: int, k: int|
                    0 <= j < k < v.len() ==> #[trigger] at[j] < #[trigger] at[k]
            },
        v.len() <= 20,
{
    let n: int = if a.len() < 20 {
        a.len() as int
    } else {
        20
    };
    assert(scrapecreators::comment_list(t) == a);
    let at = spoken_at(a, n);
    lemma_spoken_at(a, n);
    assert forall|k: int| 0 <= k < v.len() implies is_comment(v[k], a[at[k]], video_id) by {
        lemma_comment(v[k], a[at[k]], video_id);
    }
    assert forall|i: int, s: Seq<char>|
        0 <= i < a.len() && i < 20 && #[trigger] says(a[i], s) && !text::blank(s) implies exists|
        k: int,
    |
        0 <= k < v.len() && (#[trigger] v[k]).text == s && is_comment(v[k], a[i], video_id) by {
        lemma_says(a[i], s);
        assert(scrapecreators::speaks(a[i]));
        let k = choose|k: int| 0 <= k < at.len() && at[k] == i;
        assert(v[k].text == s);
    }
}

proof fn lemma_says(t: Tree, s: Seq<char>)
    requires
        says(t, s),
        !text::blank(s),
    ensures
        scrapecreators::comment_text(t) == Some(s),
{
    places::lemma_comment_text(t);
    let p = places::comment_text(t);
    if json::field(t, "content"@) == Some(Tree::Str(s)) {
        assert(reading::is_first(p, 0));
    } else if json::field(t, "text"@) == Some(Tree::Str(s)) {
        assert(reading::is_first(p, 1));
    } else {
        assert(reading::is_first(p, 2));
    }
}

proof fn lemma_comment(v: CommentView, t: Tree, video_id: Seq<char>)
    requires
        scrapecreators::speaks(t),
        v == scrapecreators::comment_view(t, video_id, v.id, scrapecreators::comment_moment(t)),
        scrapecreators::comment_id(t) matches Some(id) ==> v.id == id,
        scrapecreators::comment_id(t) is None ==> model::is_new_id(v.id),
    ensures
        is_comment(v, t, video_id),
{
    places::lemma_comment_text(t);
    places::lemma_comment_author(t);
    places::lemma_comment_likes(t);
    places::lemma_comment_id(t);
    places::lemma_at_create_time(t);
    places::lemma_at_publishedtime(t);
    assert(reading::int_from(
        json::field(t, "create_time"@),
        scrapecreators::picked_int(t, ["create_time"]@),
    ));
    assert(has_id(t, scrapecreators::comment_id(t)));
}

/// Where the comments among the first `n` stand that say something.
spec fn spoken_at(a: Seq<Tree>, n: int) -> Seq<int>
    decreases n,
{
    if n <= 0 {
        seq![]
    } else if scrapecreators::speaks(a[n - 1]) {
        spoken_at(a, n - 1).push(n - 1)
    } else {
        spoken_at(a, n - 1)
    }
}

proof fn lemma_spoken_at(a: Seq<Tree>, n: int)
    requires
        0 <= n <= a.len(),
    ensures
        spoken_at(a, n).len() == scrapecreators::speaking(a, n).len(),
        spoken_at(a, n).len() <= n,
        forall|k: int|
            0 <= k < spoken_at(a, n).len() ==> 0 <= #[trigger] spoken_at(a, n)[k] < n
                && scrapecreators::speaking(a, n)[k] == a[spoken_at(a, n)[k]]
                && scrapecreators::speaks(a[spoken_at(a, n)[k]]),
        forall|j: int, k: int|
            0 <= j < k < spoken_at(a, n).len() ==> #[trigger] spoken_at(a, n)[j]
                < #[trigger] spoken_at(a, n)[k],
        forall|i: int|
            0 <= i < n && #[trigger] scrapecreators::speaks(a[i]) ==> exists|k: int|
                0 <= k < spoken_at(a, n).len() && #[trigger] spoken_at(a, n)[k] == i,
    decreases n,
{
    if n > 0 {
        lemma_spoken_at(a, n - 1);
        let before = spoken_at(a, n - 1);
        let after = spoken_at(a, n);
        assert forall|i: int| 0 <= i < n && #[trigger] scrapecreators::speaks(a[i]) implies exists|
            k: int,
        |
            0 <= k < after.len() && #[trigger] after[k] == i by {
            if i < n - 1 {
                let k = choose|k: int| 0 <= k < before.len() && before[k] == i;
                assert(after[k] == i);
            } else {
                assert(after[after.len() - 1] == i);
            }
        }
    }
}

/// An answer that refuses is one with a bad status, or one that says that it has no
/// success; the reason is what it says, and otherwise one is given.
pub proof fn law_refusals(success: bool, status: Seq<char>, body: Tree, m: Seq<char>)
    ensures
        !success ==> (scrapecreators::refusal(success, status, body) matches Some(r)
            && text::contains(r, status)),
        success && json::field(body, "success"@) == Some(Tree::Bool(false)) ==> (
        scrapecreators::refusal(success, status, body) matches Some(r) && (json::field(
            body,
            "error"@,
        ) == Some(Tree::Str(m)) ==> r == m)),
        success && json::field(body, "success"@) != Some(Tree::Bool(false))
            ==> scrapecreators::refusal(success, status, body) is None,
{
    if !success {
        let r = scrapecreators::refusal(success, status, body)->Some_0;
        let pre = "HTTP "@;
        assert(r.subrange(pre.len() as int, (pre.len() + status.len()) as int) =~= status);
        assert(text::occurs_at(r, status, pre.len() as int));
    }
}

} // verus!
