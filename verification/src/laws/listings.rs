//! What the service says of videos and creators in lists, and what of it is kept.

use vstd::prelude::*;
use crate::content::model::{CreatorView, SummaryView};
use crate::ingest::discovery;
use crate::ingest::scrapecreators;
use crate::ingest::url::Platform;
use crate::json;
use crate::json::Tree;
use crate::laws::places;
use crate::laws::reading;
use crate::laws::videos;
use crate::text;

verus! {

/// Whether `r` is the text `s`, or its first hundred and twenty characters and an ellipsis
/// where it has more.
pub open spec fn is_short(s: Option<Seq<char>>, r: Option<Seq<char>>) -> bool {
    match s {
        Some(x) => if x.len() <= 120 {
            r == s
        } else {
            r == Some(x.take(120).push('…'))
        },
        None => r is None,
    }
}

/// Whether a text was read from the first of some places and cut.
pub open spec fn short_from_first(p: Seq<Option<Tree>>, r: Option<Seq<char>>) -> bool {
    exists|s: Option<Seq<char>>| #[trigger] reading::text_from_first(p, s) && is_short(s, r)
}

/// Whether a text was read from a place and cut.
pub open spec fn short_from(p: Option<Tree>, r: Option<Seq<char>>) -> bool {
    exists|s: Option<Seq<char>>| #[trigger] reading::text_from(p, s) && is_short(s, r)
}

/// Whether a number was read from the first of some places, or, where none is there, from
/// the first of some other places.
pub open spec fn int_from_either(
    p: Seq<Option<Tree>>,
    q: Seq<Option<Tree>>,
    r: Option<int>,
) -> bool {
    exists|a: Option<int>|
        #[trigger] reading::int_from_first(p, a) && (a is Some ==> r == a) && (a is None
            ==> reading::int_from_first(q, r))
}

/// Whether `y` follows `k` signs in `x`.
pub open spec fn follows_signs(x: Seq<char>, k: int, y: Seq<char>) -> bool {
    0 <= k <= x.len() && y == x.skip(k) && forall|i: int| 0 <= i < k ==> x[i] == '@'
}

/// Whether `h` is the handle `s` without the signs before it.
pub open spec fn is_bare(s: Option<Seq<char>>, h: Option<Seq<char>>) -> bool {
    match s {
        Some(x) => h matches Some(y) && (y.len() > 0 ==> y[0] != '@') && exists|k: int|
            #[trigger] follows_signs(x, k, y),
        None => h is None,
    }
}

proof fn lemma_bare(s: Seq<char>, k: int)
    requires
        0 <= k <= s.len(),
        forall|i: int| 0 <= i < k ==> s[i] == '@',
    ensures
        k <= text::run_of(s, '@', k) <= s.len(),
        forall|i: int| 0 <= i < text::run_of(s, '@', k) ==> s[i] == '@',
        text::run_of(s, '@', k) < s.len() ==> s[text::run_of(s, '@', k)] != '@',
    decreases s.len() - k,
{
    if k < s.len() && s[k] == '@' {
        lemma_bare(s, k + 1);
    }
}

proof fn lemma_is_bare(h: Option<Seq<char>>)
    ensures
        is_bare(h, discovery::bare_handle(h)),
{
    if let Some(s) = h {
        lemma_bare(s, 0);
        let k = text::run_of(s, '@', 0);
        assert(follows_signs(s, k, s.skip(k)));
    }
}

proof fn lemma_short(s: Option<Seq<char>>)
    ensures
        is_short(s, scrapecreators::opt_shortened(s, discovery::DESC_LIMIT_CHARS as int)),
{
    reveal_strlit("…");
    if let Some(x) = s {
        if x.len() > 120 {
            assert(x.take(120) + "…"@ =~= x.take(120).push('…'));
        }
    }
}

/// Whether the creator in an answer is `n`: what stands under `user_info`, or under `user`
/// where nothing stands there, or under `user` in `data` where nothing stands at either;
/// and the answer itself where nothing stands at any of them.
pub open spec fn is_creator_node(t: Tree, n: Tree) -> bool {
    let info = json::field(t, "user_info"@);
    let user = json::field(t, "user"@);
    let inner = reading::below(json::field(t, "data"@), "user"@);
    if !reading::absent(info) {
        info == Some(n)
    } else if !reading::absent(user) {
        user == Some(n)
    } else if !reading::absent(inner) {
        inner == Some(n)
    } else {
        n == t
    }
}

/// The handle of a creator as the answer writes it.
pub open spec fn written_handle(n: Tree, h: Option<Seq<char>>) -> bool {
    reading::text_from_first(
        seq![
            json::field(n, "handle"@),
            json::field(n, "unique_id"@),
            json::field(n, "uniqueId"@),
            json::field(n, "username"@),
            json::field(n, "channel"@),
        ],
        h,
    )
}

/// The identifier of a creator.
pub open spec fn written_id(n: Tree, id: Option<Seq<char>>) -> bool {
    reading::text_from_first(
        seq![
            json::field(n, "id"@),
            json::field(n, "channelId"@),
            json::field(n, "uid"@),
            json::field(n, "pk"@),
        ],
        id,
    )
}

/// Whether `c` says of a creator what `n` in the answer `t` says.
pub open spec fn is_creator(c: CreatorView, t: Tree, n: Tree) -> bool {
    &&& written_id(n, c.id)
    &&& exists|h: Option<Seq<char>>| #[trigger] written_handle(n, h) && is_bare(h, c.handle)
    &&& reading::text_from_first(
        seq![
            json::field(n, "channelName"@),
            json::field(n, "name"@),
            json::field(n, "nickname"@),
            json::field(n, "full_name"@),
            json::field(n, "title"@),
        ],
        c.name,
    )
    &&& short_from_first(
        seq![
            json::field(n, "description"@),
            json::field(n, "signature"@),
            json::field(n, "biography"@),
        ],
        c.bio,
    )
    &&& int_from_either(
        seq![
            json::field(n, "subscriberCountInt"@),
            json::field(n, "subscriberCount"@),
            json::field(n, "follower_count"@),
            reading::below(json::field(n, "edge_followed_by"@), "count"@),
        ],
        seq![
            reading::below(json::field(t, "stats"@), "followerCount"@),
            reading::below(json::field(t, "statsV2"@), "followerCount"@),
        ],
        c.follower_count,
    )
    &&& is_verified(n, c.verified)
}

/// Whether an answer says that a creator is verified: under the first of three names under
/// which it says either.
pub open spec fn is_verified(n: Tree, r: Option<bool>) -> bool {
    match (
        json::field(n, "is_verified"@),
        json::field(n, "isVerified"@),
        json::field(n, "verified"@),
    ) {
        (Some(Tree::Bool(b)), _, _) => r == Some(b),
        (_, Some(Tree::Bool(b)), _) => r == Some(b),
        (_, _, Some(Tree::Bool(b))) => r == Some(b),
        _ => r is None,
    }
}

/// The record of a creator holds what the answer says of it: its identifier, its handle
/// without the sign, its name, its description, its followers and whether it is verified,
/// wherever in the answer the creator stands. There is one wherever the answer gives an
/// identifier or a handle.
pub proof fn law_creator_is_what_the_answer_says(p: Platform, t: Tree, n: Tree)
    requires
        is_creator_node(t, n),
    ensures
        match discovery::creator_view(p, t) {
            Some(c) => c.platform == p && is_creator(c, t, n) && (c.id is Some || c.handle is Some),
            None => written_id(n, None) && written_handle(n, None),
        },
{
    lemma_creator_node(t, n);
    places::lemma_creator_handle(n);
    places::lemma_creator_id(n);
    let h = scrapecreators::picked_text(
        n,
        ["handle", "unique_id", "uniqueId", "username", "channel"]@,
    );
    assert(written_handle(n, h));
    lemma_is_bare(h);
    if let Some(c) = discovery::creator_view(p, t) {
        assert(written_id(n, c.id));
        assert(is_bare(h, c.handle));
        places::lemma_creator_name(n);
        assert(short_from_first(places::creator_bio(n), c.bio)) by {
            places::lemma_creator_bio(n);
            let bio = scrapecreators::picked_text(n, ["description", "signature", "biography"]@);
            lemma_short(bio);
            assert(reading::text_from_first(places::creator_bio(n), bio));
        }
        assert(int_from_either(
            places::followers(n),
            places::stats_followers(t),
            c.follower_count,
        )) by {
            places::lemma_followers(n);
            places::lemma_stats_followers(t);
            let own = scrapecreators::picked_int(
                n,
                [
                    "subscriberCountInt",
                    "subscriberCount",
                    "follower_count",
                    "edge_followed_by.count",
                ]@,
            );
            assert(reading::int_from_first(places::followers(n), own));
        }
        assert(is_verified(n, c.verified));
        assert(is_creator(c, t, n));
    }
}

/// How many videos a creator has is what the answer counts of them, then what its
/// statistics count, and then the number in the text with which it says so.
pub proof fn law_creator_videos_are_counted(p: Platform, t: Tree, n: Tree, s: Seq<char>)
    requires
        is_creator_node(t, n),
        discovery::creator_view(p, t) is Some,
    ensures
        ({
            let r = (discovery::creator_view(p, t)->Some_0).video_count;
            let counted = seq![
                json::field(n, "media_count"@),
                reading::below(json::field(n, "edge_owner_to_timeline_media"@), "count"@),
            ];
            let counts = reading::below(json::field(t, "stats"@), "videoCount"@);
            &&& exists|a: Option<int>|
                #[trigger] reading::int_from_first(counted, a) && (a is Some ==> r == a) && (a is None
                    ==> exists|b: Option<int>|
                    #[trigger] reading::int_from(counts, b) && (b is Some ==> r == b) && (b is None
                        && s.len() > 0 && json::field(n, "videoCountText"@) == Some(Tree::Str(s))
                        ==> r == discovery::number_in(s)))
        }),
{
    law_creator_is_what_the_answer_says(p, t, n);
    places::lemma_creator(t);
    lemma_creator_node(t, n);
    places::lemma_media_count(n);
    places::lemma_at_stats_to_videocount(t);
    places::lemma_at_videocounttext(n);
    let counted = seq![
        json::field(n, "media_count"@),
        reading::below(json::field(n, "edge_owner_to_timeline_media"@), "count"@),
    ];
    let a = scrapecreators::picked_int(
        n,
        ["media_count", "edge_owner_to_timeline_media.count"]@,
    );
    assert(counted == places::media_count(n));
    assert(reading::int_from_first(counted, a));
    let b = scrapecreators::picked_int(t, ["stats.videoCount"]@);
    assert(reading::int_from(reading::below(json::field(t, "stats"@), "videoCount"@), b));
}

proof fn lemma_creator_node(t: Tree, n: Tree)
    requires
        is_creator_node(t, n),
    ensures
        discovery::creator_node(t) == n,
{
    places::lemma_creator(t);
    let at = places::creator(t);
    if !reading::absent(json::field(t, "user_info"@)) {
        assert(reading::is_first(at, 0));
    } else if !reading::absent(json::field(t, "user"@)) {
        assert(reading::is_first(at, 1));
    } else if !reading::absent(reading::below(json::field(t, "data"@), "user"@)) {
        assert(reading::is_first(at, 2));
    } else {
        assert forall|i: int| 0 <= i < at.len() implies reading::absent(#[trigger] at[i]) by {
            if i == 0 {
            } else if i == 1 {
            } else {
            }
        }
    }
}

/// A creator whose handle stands as a text under `username`, say, with nothing under the
/// names before it, has that handle, with or without the sign before it.
pub proof fn law_creator_is_found(p: Platform, t: Tree, n: Tree, s: Seq<char>)
    requires
        is_creator_node(t, n),
        s.len() > 0,
        s[0] != '@',
        json::field(n, "username"@) == Some(Tree::Str(s)) || json::field(n, "username"@) == Some(
            Tree::Str(seq!['@'] + s),
        ),
        reading::absent(json::field(n, "handle"@)),
        reading::absent(json::field(n, "unique_id"@)),
        reading::absent(json::field(n, "uniqueId"@)),
    ensures
        discovery::creator_view(p, t) matches Some(c) && c.handle == Some(s),
{
    law_creator_is_what_the_answer_says(p, t, n);
    lemma_creator_node(t, n);
    places::lemma_creator_handle(n);
    let at = places::creator_handle(n);
    assert(reading::is_first(at, 3));
    let h = scrapecreators::picked_text(
        n,
        ["handle", "unique_id", "uniqueId", "username", "channel"]@,
    );
    let x = h->Some_0;
    if x == s {
        assert(text::run_of(x, '@', 0) == 0);
        assert(x.skip(0) =~= s);
    } else {
        assert(x[1] == s[0]);
        assert(text::run_of(x, '@', 1) == 1);
        assert(text::run_of(x, '@', 0) == 1);
        assert(x.skip(1) =~= s);
    }
}

/// The record of a video in a list of YouTube holds what the list says of it. There is one
/// wherever the list gives an identifier.
pub proof fn law_youtube_summary_is_what_the_list_says(t: Tree)
    ensures
        match discovery::summary_view(Platform::YouTube, t) {
            Some(v) => {
                let channel = json::field(t, "channel"@);
                &&& v.platform == Platform::YouTube
                &&& reading::text_from(json::field(t, "id"@), Some(v.native_id))
                &&& exists|u: Option<Seq<char>>|
                    #[trigger] reading::text_from(json::field(t, "url"@), u) && v.url == (match u {
                        Some(x) => x,
                        None => "https://www.youtube.com/watch?v="@ + v.native_id,
                    })
                &&& reading::text_from(json::field(t, "title"@), v.title)
                &&& short_from(json::field(t, "description"@), v.description)
                &&& reading::text_from_first(
                    seq![reading::below(channel, "title"@), reading::below(channel, "name"@)],
                    v.channel_name,
                )
                &&& reading::text_from(reading::below(channel, "handle"@), v.channel_handle)
                &&& reading::text_from_first(
                    seq![reading::below(channel, "id"@), json::field(t, "channelId"@)],
                    v.channel_id,
                )
                &&& reading::int_from(json::field(t, "viewCountInt"@), v.view_count)
                &&& reading::int_from(json::field(t, "likeCountInt"@), v.like_count)
                &&& reading::int_from(json::field(t, "commentCountInt"@), v.comment_count)
                &&& reading::int_from(json::field(t, "lengthSeconds"@), v.duration_sec)
                &&& json::field(t, "publishDate"@) matches Some(Tree::Str(s)) ==> v.published_at
                    == crate::outside::rfc3339_seconds(s)
                &&& !(json::field(t, "publishDate"@) matches Some(Tree::Str(_)))
                    ==> v.published_at is None
            },
            None => reading::text_from(json::field(t, "id"@), None),
        },
{
    places::lemma_at_id(t);
    places::lemma_at_url(t);
    places::lemma_at_title(t);
    places::lemma_at_description(t);
    places::lemma_channel_name(t);
    places::lemma_at_channel_to_handle(t);
    places::lemma_channel_id(t);
    places::lemma_at_viewcountint(t);
    places::lemma_at_likecountint(t);
    places::lemma_at_commentcountint(t);
    places::lemma_at_lengthseconds(t);
    places::lemma_path_publishdate(t);
    let d = scrapecreators::picked_text(t, ["description"]@);
    lemma_short(d);
    assert(reading::text_from(json::field(t, "description"@), d));
    assert(reading::text_from(json::field(t, "url"@), scrapecreators::picked_text(t, ["url"]@)));
}

/// The record of a video in a list of TikTok holds what the list says of it, within what
/// wraps it where something does. There is one wherever the list gives an identifier.
pub proof fn law_tiktok_summary_is_what_the_list_says(t: Tree)
    ensures
        ({
            let a = reading::within(t, "aweme_info"@);
            match discovery::summary_view(Platform::TikTok, t) {
                Some(v) => {
                    let author = json::field(a, "author"@);
                    let counts = json::field(a, "statistics"@);
                    &&& v.platform == Platform::TikTok
                    &&& reading::text_from(json::field(a, "aweme_id"@), Some(v.native_id))
                    &&& exists|u: Option<Seq<char>>|
                        #[trigger] reading::text_from(json::field(a, "share_url"@), u) && v.url == (
                        match u {
                            Some(x) => x,
                            None => "https://www.tiktok.com/@"@ + (match v.channel_handle {
                                Some(h) => h,
                                None => "_"@,
                            }) + "/video/"@ + v.native_id,
                        })
                    &&& reading::text_from(json::field(a, "desc"@), v.title)
                    &&& short_from(json::field(a, "desc"@), v.description)
                    &&& reading::text_from(reading::below(author, "nickname"@), v.channel_name)
                    &&& reading::text_from(reading::below(author, "unique_id"@), v.channel_handle)
                    &&& reading::text_from(reading::below(author, "uid"@), v.channel_id)
                    &&& reading::int_from(reading::below(counts, "play_count"@), v.view_count)
                    &&& reading::int_from(reading::below(counts, "digg_count"@), v.like_count)
                    &&& reading::int_from(reading::below(counts, "comment_count"@), v.comment_count)
                    &&& reading::seconds_from(
                        reading::below(json::field(a, "video"@), "duration"@),
                        v.duration_sec,
                    )
                    &&& reading::int_from(json::field(a, "create_time"@), v.published_at)
                },
                None => reading::text_from(json::field(a, "aweme_id"@), None),
            }
        }),
{
    let a = reading::within(t, "aweme_info"@);
    places::lemma_at_aweme_id(a);
    places::lemma_at_share_url(a);
    places::lemma_at_desc(a);
    places::lemma_at_author_to_nickname(a);
    places::lemma_at_author_to_unique_id(a);
    places::lemma_at_author_to_uid(a);
    places::lemma_at_statistics_to_play_count(a);
    places::lemma_at_statistics_to_digg_count(a);
    places::lemma_at_statistics_to_comment_count(a);
    places::lemma_at_video_to_duration(a);
    places::lemma_at_create_time(a);
    let d = scrapecreators::picked_text(a, ["desc"]@);
    lemma_short(d);
    assert(reading::text_from(json::field(a, "desc"@), d));
    assert(reading::text_from(
        json::field(a, "share_url"@),
        scrapecreators::picked_text(a, ["share_url"]@),
    ));
}

/// The record of a video in a list of Instagram holds what the list says of it, within what
/// wraps it where something does. There is one wherever the list gives a code, and the code
/// stands in its link.
pub proof fn law_instagram_summary_is_what_the_list_says(t: Tree)
    ensures
        ({
            let m = reading::within(t, "media"@);
            let codes = seq![json::field(m, "code"@), json::field(m, "shortcode"@)];
            match discovery::summary_view(Platform::Instagram, t) {
                Some(v) => {
                    let user = json::field(m, "user"@);
                    let owner = json::field(m, "owner"@);
                    &&& v.platform == Platform::Instagram
                    &&& reading::text_from_first(codes, Some(v.native_id))
                    &&& v.url == "https://www.instagram.com/reel/"@ + v.native_id + "/"@
                    &&& short_from(reading::below(json::field(m, "caption"@), "text"@), v.title)
                    &&& v.description == v.title
                    &&& reading::text_from_first(
                        seq![reading::below(user, "full_name"@), reading::below(owner, "full_name"@)],
                        v.channel_name,
                    )
                    &&& reading::text_from_first(
                        seq![reading::below(user, "username"@), reading::below(owner, "username"@)],
                        v.channel_handle,
                    )
                    &&& reading::text_from_first(
                        seq![
                            reading::below(user, "pk"@),
                            reading::below(user, "id"@),
                            reading::below(owner, "id"@),
                        ],
                        v.channel_id,
                    )
                    &&& reading::int_from_first(
                        seq![
                            json::field(m, "play_count"@),
                            json::field(m, "video_play_count"@),
                            json::field(m, "view_count"@),
                        ],
                        v.view_count,
                    )
                    &&& reading::int_from(json::field(m, "like_count"@), v.like_count)
                    &&& reading::int_from(json::field(m, "comment_count"@), v.comment_count)
                    &&& reading::whole_from(json::field(m, "video_duration"@), v.duration_sec)
                    &&& reading::int_from_first(
                        seq![
                            json::field(m, "taken_at"@),
                            json::field(m, "taken_at_timestamp"@),
                        ],
                        v.published_at,
                    )
                },
                None => reading::text_from_first(codes, None),
            }
        }),
{
    let m = reading::within(t, "media"@);
    places::lemma_code(m);
    places::lemma_at_caption_to_text(m);
    places::lemma_user_name(m);
    places::lemma_user_handle(m);
    places::lemma_user_id(m);
    places::lemma_listed_plays(m);
    places::lemma_at_like_count(m);
    places::lemma_at_comment_count(m);
    places::lemma_at_video_duration(m);
    places::lemma_taken_at_listed(m);
    let d = scrapecreators::picked_text(m, ["caption.text"]@);
    lemma_short(d);
    assert(reading::text_from(reading::below(json::field(m, "caption"@), "text"@), d));
}

/// Whether `a` is the list in an answer: what stands under a name, and under a second one
/// where that is no list.
pub open spec fn is_list(t: Tree, first: Seq<char>, second: Seq<char>, a: Seq<Tree>) -> bool {
    match (json::field(t, first), json::field(t, second)) {
        (Some(Tree::Array(x)), _) => a == x,
        (_, Some(Tree::Array(x))) => a == x,
        _ => a.len() == 0,
    }
}

/// The list of videos in an answer of a platform.
pub open spec fn is_video_list(p: Platform, t: Tree, a: Seq<Tree>) -> bool {
    match p {
        Platform::YouTube => is_list(t, "videos"@, "videos"@, a),
        Platform::TikTok => is_list(t, "search_item_list"@, "aweme_list"@, a),
        Platform::Instagram => is_list(t, "reels"@, "items"@, a),
    }
}

/// The list of creators in an answer of a platform.
pub open spec fn is_creator_list(p: Platform, t: Tree, a: Seq<Tree>) -> bool {
    match p {
        Platform::YouTube => is_list(t, "channels"@, "channels"@, a),
        Platform::TikTok => is_list(t, "user_list"@, "user_list"@, a),
        Platform::Instagram => is_list(t, "profiles"@, "users"@, a),
    }
}

proof fn lemma_listed(t: Tree, names: Seq<Seq<char>>, a: Seq<Tree>)
    requires
        names.len() == 1 && is_list(t, names[0], names[0], a) || names.len() == 2 && is_list(
            t,
            names[0],
            names[1],
            a,
        ),
    ensures
        discovery::listed(t, names) == a,
{
    reveal_with_fuel(discovery::listed_from, 3);
    assert(a.len() == 0 ==> a =~= seq![]);
}

/// The records of the videos in an answer are those of its list, in its order, each that
/// has a record.
pub proof fn law_videos_keep_the_order_of_the_list(p: Platform, t: Tree, a: Seq<Tree>)
    requires
        is_video_list(p, t, a),
    ensures
        reading::keeps_order(
            discovery::video_list(p, t),
            Seq::new(a.len(), |i: int| discovery::summary_view(p, a[i])),
        ),
{
    lemma_listed(t, discovery::video_list_names(p), a);
    lemma_summaries(p, a, a.len() as int);
}

proof fn lemma_summaries(p: Platform, a: Seq<Tree>, n: int)
    requires
        0 <= n <= a.len(),
    ensures
        reading::keeps_order(
            discovery::summaries(p, a, n),
            Seq::new(n as nat, |i: int| discovery::summary_view(p, a[i])),
        ),
    decreases n,
{
    let of = Seq::new(n as nat, |i: int| discovery::summary_view(p, a[i]));
    if n > 0 {
        lemma_summaries(p, a, n - 1);
        let before = Seq::new((n - 1) as nat, |i: int| discovery::summary_view(p, a[i]));
        reading::lemma_kept(discovery::summaries(p, a, n - 1), before, discovery::summary_view(p, a[n - 1]));
        assert(of =~= before.push(discovery::summary_view(p, a[n - 1])));
    } else {
        reading::lemma_none_kept::<SummaryView>();
        assert(of =~= Seq::empty());
        assert(discovery::summaries(p, a, n) =~= Seq::empty());
    }
}

/// The records of the creators in an answer are those of its list, in its order, each that
/// has a record.
pub proof fn law_creators_keep_the_order_of_the_list(p: Platform, t: Tree, a: Seq<Tree>)
    requires
        is_creator_list(p, t, a),
    ensures
        reading::keeps_order(
            discovery::creator_list(p, t),
            Seq::new(a.len(), |i: int| discovery::creator_view(p, a[i])),
        ),
{
    lemma_listed(t, discovery::creator_list_names(p), a);
    lemma_creators(p, a, a.len() as int);
}

proof fn lemma_creators(p: Platform, a: Seq<Tree>, n: int)
    requires
        0 <= n <= a.len(),
    ensures
        reading::keeps_order(
            discovery::creators(p, a, n),
            Seq::new(n as nat, |i: int| discovery::creator_view(p, a[i])),
        ),
    decreases n,
{
    let of = Seq::new(n as nat, |i: int| discovery::creator_view(p, a[i]));
    if n > 0 {
        lemma_creators(p, a, n - 1);
        let before = Seq::new((n - 1) as nat, |i: int| discovery::creator_view(p, a[i]));
        reading::lemma_kept(discovery::creators(p, a, n - 1), before, discovery::creator_view(p, a[n - 1]));
        assert(of =~= before.push(discovery::creator_view(p, a[n - 1])));
    } else {
        reading::lemma_none_kept::<CreatorView>();
        assert(of =~= Seq::empty());
        assert(discovery::creators(p, a, n) =~= Seq::empty());
    }
}

/// What asks for the page after an answer is what the answer gives for it, under the name
/// of the platform.
pub proof fn law_the_next_page_is_asked_for(t: Tree)
    ensures
        reading::text_from(
            json::field(t, "continuationToken"@),
            discovery::cursor_after(Platform::YouTube, t),
        ),
        reading::text_from(
            json::field(t, "max_cursor"@),
            discovery::cursor_after(Platform::TikTok, t),
        ),
        reading::text_from(
            reading::below(json::field(t, "paging_info"@), "max_id"@),
            discovery::cursor_after(Platform::Instagram, t),
        ),
        discovery::cursor_name(Platform::YouTube) == "continuationToken"@,
        discovery::cursor_name(Platform::TikTok) == "max_cursor"@,
        discovery::cursor_name(Platform::Instagram) == "max_id"@,
{
    places::lemma_at_continuationtoken(t);
    places::lemma_at_max_cursor(t);
    places::lemma_at_paging_info_to_max_id(t);
}

/// The address of a video file is the one that the answer gives: the first of a list on
/// TikTok, that of the post on Instagram, and none on YouTube.
pub proof fn law_file_address_is_in_the_answer(t: Tree)
    ensures
        discovery::file_address(Platform::YouTube, t) is None,
        reading::text_from(
            reading::first_in(
                reading::below(
                    reading::below(
                        reading::below(json::field(t, "aweme_detail"@), "video"@),
                        "play_addr"@,
                    ),
                    "url_list"@,
                ),
            ),
            discovery::file_address(Platform::TikTok, t),
        ),
        reading::text_from(
            reading::below(
                reading::below(json::field(t, "data"@), "xdt_shortcode_media"@),
                "video_url"@,
            ),
            discovery::file_address(Platform::Instagram, t),
        ),
{
    places::lemma_at_aweme_detail_to_video_to_play_addr_to_url_list_to_0(t);
    places::lemma_at_data_to_xdt_shortcode_media_to_video_url(t);
}

} // verus!
