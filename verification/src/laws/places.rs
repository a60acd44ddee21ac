//! The places in answers of the service at which things are looked for.

use vstd::prelude::*;
use crate::ingest::scrapecreators;
use crate::json;
use crate::json::Tree;
use crate::laws::reading;

verus! {

proof fn lemma_path_title(t: Tree)
    ensures
        scrapecreators::dug(t, "title"@) == json::field(t, "title"@),
{
    reveal_strlit("title");
    assert(reading::is_name("title"@));
    reading::lemma_path(Some(t), "title"@);
}

proof fn lemma_path_channel_to_handle(t: Tree)
    ensures
        scrapecreators::dug(t, "channel.handle"@) == reading::below(json::field(t, "channel"@), "handle"@),
{
    reveal_strlit("channel");
    reveal_strlit("handle");
    reveal_strlit(".");
    reveal_strlit("channel.handle");
    assert(reading::is_name("channel"@));
    assert(reading::is_name("handle"@));
    assert("channel.handle"@ =~= "channel"@ + "."@ + "handle"@);
    reading::lemma_longer_path(Some(t), "channel"@, "handle"@, "channel.handle"@);
    reading::lemma_path(reading::below(Some(t), "channel"@), "handle"@);
}

proof fn lemma_path_channel_to_title(t: Tree)
    ensures
        scrapecreators::dug(t, "channel.title"@) == reading::below(json::field(t, "channel"@), "title"@),
{
    reveal_strlit("channel");
    reveal_strlit("title");
    reveal_strlit(".");
    reveal_strlit("channel.title");
    assert(reading::is_name("channel"@));
    assert(reading::is_name("title"@));
    assert("channel.title"@ =~= "channel"@ + "."@ + "title"@);
    reading::lemma_longer_path(Some(t), "channel"@, "title"@, "channel.title"@);
    reading::lemma_path(reading::below(Some(t), "channel"@), "title"@);
}

proof fn lemma_path_durationms(t: Tree)
    ensures
        scrapecreators::dug(t, "durationMs"@) == json::field(t, "durationMs"@),
{
    reveal_strlit("durationMs");
    assert(reading::is_name("durationMs"@));
    reading::lemma_path(Some(t), "durationMs"@);
}

proof fn lemma_path_viewcountint(t: Tree)
    ensures
        scrapecreators::dug(t, "viewCountInt"@) == json::field(t, "viewCountInt"@),
{
    reveal_strlit("viewCountInt");
    assert(reading::is_name("viewCountInt"@));
    reading::lemma_path(Some(t), "viewCountInt"@);
}

proof fn lemma_path_likecountint(t: Tree)
    ensures
        scrapecreators::dug(t, "likeCountInt"@) == json::field(t, "likeCountInt"@),
{
    reveal_strlit("likeCountInt");
    assert(reading::is_name("likeCountInt"@));
    reading::lemma_path(Some(t), "likeCountInt"@);
}

proof fn lemma_path_commentcountint(t: Tree)
    ensures
        scrapecreators::dug(t, "commentCountInt"@) == json::field(t, "commentCountInt"@),
{
    reveal_strlit("commentCountInt");
    assert(reading::is_name("commentCountInt"@));
    reading::lemma_path(Some(t), "commentCountInt"@);
}

proof fn lemma_path_description(t: Tree)
    ensures
        scrapecreators::dug(t, "description"@) == json::field(t, "description"@),
{
    reveal_strlit("description");
    assert(reading::is_name("description"@));
    reading::lemma_path(Some(t), "description"@);
}

proof fn lemma_path_desc(t: Tree)
    ensures
        scrapecreators::dug(t, "desc"@) == json::field(t, "desc"@),
{
    reveal_strlit("desc");
    assert(reading::is_name("desc"@));
    reading::lemma_path(Some(t), "desc"@);
}

proof fn lemma_path_author_to_unique_id(t: Tree)
    ensures
        scrapecreators::dug(t, "author.unique_id"@) == reading::below(json::field(t, "author"@), "unique_id"@),
{
    reveal_strlit("author");
    reveal_strlit("unique_id");
    reveal_strlit(".");
    reveal_strlit("author.unique_id");
    assert(reading::is_name("author"@));
    assert(reading::is_name("unique_id"@));
    assert("author.unique_id"@ =~= "author"@ + "."@ + "unique_id"@);
    reading::lemma_longer_path(Some(t), "author"@, "unique_id"@, "author.unique_id"@);
    reading::lemma_path(reading::below(Some(t), "author"@), "unique_id"@);
}

proof fn lemma_path_author_to_nickname(t: Tree)
    ensures
        scrapecreators::dug(t, "author.nickname"@) == reading::below(json::field(t, "author"@), "nickname"@),
{
    reveal_strlit("author");
    reveal_strlit("nickname");
    reveal_strlit(".");
    reveal_strlit("author.nickname");
    assert(reading::is_name("author"@));
    assert(reading::is_name("nickname"@));
    assert("author.nickname"@ =~= "author"@ + "."@ + "nickname"@);
    reading::lemma_longer_path(Some(t), "author"@, "nickname"@, "author.nickname"@);
    reading::lemma_path(reading::below(Some(t), "author"@), "nickname"@);
}

proof fn lemma_path_video_to_duration(t: Tree)
    ensures
        scrapecreators::dug(t, "video.duration"@) == reading::below(json::field(t, "video"@), "duration"@),
{
    reveal_strlit("video");
    reveal_strlit("duration");
    reveal_strlit(".");
    reveal_strlit("video.duration");
    assert(reading::is_name("video"@));
    assert(reading::is_name("duration"@));
    assert("video.duration"@ =~= "video"@ + "."@ + "duration"@);
    reading::lemma_longer_path(Some(t), "video"@, "duration"@, "video.duration"@);
    reading::lemma_path(reading::below(Some(t), "video"@), "duration"@);
}

proof fn lemma_path_create_time(t: Tree)
    ensures
        scrapecreators::dug(t, "create_time"@) == json::field(t, "create_time"@),
{
    reveal_strlit("create_time");
    assert(reading::is_name("create_time"@));
    reading::lemma_path(Some(t), "create_time"@);
}

proof fn lemma_path_statistics_to_play_count(t: Tree)
    ensures
        scrapecreators::dug(t, "statistics.play_count"@) == reading::below(json::field(t, "statistics"@), "play_count"@),
{
    reveal_strlit("statistics");
    reveal_strlit("play_count");
    reveal_strlit(".");
    reveal_strlit("statistics.play_count");
    assert(reading::is_name("statistics"@));
    assert(reading::is_name("play_count"@));
    assert("statistics.play_count"@ =~= "statistics"@ + "."@ + "play_count"@);
    reading::lemma_longer_path(Some(t), "statistics"@, "play_count"@, "statistics.play_count"@);
    reading::lemma_path(reading::below(Some(t), "statistics"@), "play_count"@);
}

proof fn lemma_path_statistics_to_digg_count(t: Tree)
    ensures
        scrapecreators::dug(t, "statistics.digg_count"@) == reading::below(json::field(t, "statistics"@), "digg_count"@),
{
    reveal_strlit("statistics");
    reveal_strlit("digg_count");
    reveal_strlit(".");
    reveal_strlit("statistics.digg_count");
    assert(reading::is_name("statistics"@));
    assert(reading::is_name("digg_count"@));
    assert("statistics.digg_count"@ =~= "statistics"@ + "."@ + "digg_count"@);
    reading::lemma_longer_path(Some(t), "statistics"@, "digg_count"@, "statistics.digg_count"@);
    reading::lemma_path(reading::below(Some(t), "statistics"@), "digg_count"@);
}

proof fn lemma_path_statistics_to_comment_count(t: Tree)
    ensures
        scrapecreators::dug(t, "statistics.comment_count"@) == reading::below(json::field(t, "statistics"@), "comment_count"@),
{
    reveal_strlit("statistics");
    reveal_strlit("comment_count");
    reveal_strlit(".");
    reveal_strlit("statistics.comment_count");
    assert(reading::is_name("statistics"@));
    assert(reading::is_name("comment_count"@));
    assert("statistics.comment_count"@ =~= "statistics"@ + "."@ + "comment_count"@);
    reading::lemma_longer_path(Some(t), "statistics"@, "comment_count"@, "statistics.comment_count"@);
    reading::lemma_path(reading::below(Some(t), "statistics"@), "comment_count"@);
}

proof fn lemma_path_video_duration(t: Tree)
    ensures
        scrapecreators::dug(t, "video_duration"@) == json::field(t, "video_duration"@),
{
    reveal_strlit("video_duration");
    assert(reading::is_name("video_duration"@));
    reading::lemma_path(Some(t), "video_duration"@);
}

/// The path leads there.
pub proof fn lemma_path_publishdate(t: Tree)
    ensures
        scrapecreators::dug(t, "publishDate"@) == json::field(t, "publishDate"@),
{
    reveal_strlit("publishDate");
    assert(reading::is_name("publishDate"@));
    reading::lemma_path(Some(t), "publishDate"@);
}

proof fn lemma_path_taken_at(t: Tree)
    ensures
        scrapecreators::dug(t, "taken_at"@) == json::field(t, "taken_at"@),
{
    reveal_strlit("taken_at");
    assert(reading::is_name("taken_at"@));
    reading::lemma_path(Some(t), "taken_at"@);
}

proof fn lemma_path_transcripts_to_0_to_text(t: Tree)
    ensures
        scrapecreators::dug(t, "transcripts.0.text"@) == reading::below(reading::first_in(json::field(t, "transcripts"@)), "text"@),
{
    reveal_strlit("transcripts");
    reveal_strlit("text");
    reveal_strlit(".");
    reveal_strlit("0");
    reveal_strlit("transcripts.0.text");
    reveal_strlit("0.text");
    assert(reading::is_name("transcripts"@));
    assert(reading::is_name("text"@));
    assert("transcripts.0.text"@ =~= "transcripts"@ + "."@ + "0.text"@);
    reading::lemma_longer_path(Some(t), "transcripts"@, "0.text"@, "transcripts.0.text"@);
    assert("0.text"@ =~= "0"@ + "."@ + "text"@);
    reading::lemma_first_element(reading::below(Some(t), "transcripts"@), "text"@, "0.text"@);
    reading::lemma_path(reading::first_in(reading::below(Some(t), "transcripts"@)), "text"@);
}

proof fn lemma_path_transcript(t: Tree)
    ensures
        scrapecreators::dug(t, "transcript"@) == json::field(t, "transcript"@),
{
    reveal_strlit("transcript");
    assert(reading::is_name("transcript"@));
    reading::lemma_path(Some(t), "transcript"@);
}

proof fn lemma_path_language(t: Tree)
    ensures
        scrapecreators::dug(t, "language"@) == json::field(t, "language"@),
{
    reveal_strlit("language");
    assert(reading::is_name("language"@));
    reading::lemma_path(Some(t), "language"@);
}

proof fn lemma_path_publishedtime(t: Tree)
    ensures
        scrapecreators::dug(t, "publishedTime"@) == json::field(t, "publishedTime"@),
{
    reveal_strlit("publishedTime");
    assert(reading::is_name("publishedTime"@));
    reading::lemma_path(Some(t), "publishedTime"@);
}

proof fn lemma_path_id(t: Tree)
    ensures
        scrapecreators::dug(t, "id"@) == json::field(t, "id"@),
{
    reveal_strlit("id");
    assert(reading::is_name("id"@));
    reading::lemma_path(Some(t), "id"@);
}

proof fn lemma_path_url(t: Tree)
    ensures
        scrapecreators::dug(t, "url"@) == json::field(t, "url"@),
{
    reveal_strlit("url");
    assert(reading::is_name("url"@));
    reading::lemma_path(Some(t), "url"@);
}

proof fn lemma_path_lengthseconds(t: Tree)
    ensures
        scrapecreators::dug(t, "lengthSeconds"@) == json::field(t, "lengthSeconds"@),
{
    reveal_strlit("lengthSeconds");
    assert(reading::is_name("lengthSeconds"@));
    reading::lemma_path(Some(t), "lengthSeconds"@);
}

proof fn lemma_path_aweme_id(t: Tree)
    ensures
        scrapecreators::dug(t, "aweme_id"@) == json::field(t, "aweme_id"@),
{
    reveal_strlit("aweme_id");
    assert(reading::is_name("aweme_id"@));
    reading::lemma_path(Some(t), "aweme_id"@);
}

proof fn lemma_path_share_url(t: Tree)
    ensures
        scrapecreators::dug(t, "share_url"@) == json::field(t, "share_url"@),
{
    reveal_strlit("share_url");
    assert(reading::is_name("share_url"@));
    reading::lemma_path(Some(t), "share_url"@);
}

proof fn lemma_path_author_to_uid(t: Tree)
    ensures
        scrapecreators::dug(t, "author.uid"@) == reading::below(json::field(t, "author"@), "uid"@),
{
    reveal_strlit("author");
    reveal_strlit("uid");
    reveal_strlit(".");
    reveal_strlit("author.uid");
    assert(reading::is_name("author"@));
    assert(reading::is_name("uid"@));
    assert("author.uid"@ =~= "author"@ + "."@ + "uid"@);
    reading::lemma_longer_path(Some(t), "author"@, "uid"@, "author.uid"@);
    reading::lemma_path(reading::below(Some(t), "author"@), "uid"@);
}

proof fn lemma_path_caption_to_text(t: Tree)
    ensures
        scrapecreators::dug(t, "caption.text"@) == reading::below(json::field(t, "caption"@), "text"@),
{
    reveal_strlit("caption");
    reveal_strlit("text");
    reveal_strlit(".");
    reveal_strlit("caption.text");
    assert(reading::is_name("caption"@));
    assert(reading::is_name("text"@));
    assert("caption.text"@ =~= "caption"@ + "."@ + "text"@);
    reading::lemma_longer_path(Some(t), "caption"@, "text"@, "caption.text"@);
    reading::lemma_path(reading::below(Some(t), "caption"@), "text"@);
}

proof fn lemma_path_like_count(t: Tree)
    ensures
        scrapecreators::dug(t, "like_count"@) == json::field(t, "like_count"@),
{
    reveal_strlit("like_count");
    assert(reading::is_name("like_count"@));
    reading::lemma_path(Some(t), "like_count"@);
}

proof fn lemma_path_comment_count(t: Tree)
    ensures
        scrapecreators::dug(t, "comment_count"@) == json::field(t, "comment_count"@),
{
    reveal_strlit("comment_count");
    assert(reading::is_name("comment_count"@));
    reading::lemma_path(Some(t), "comment_count"@);
}

proof fn lemma_path_stats_to_videocount(t: Tree)
    ensures
        scrapecreators::dug(t, "stats.videoCount"@) == reading::below(json::field(t, "stats"@), "videoCount"@),
{
    reveal_strlit("stats");
    reveal_strlit("videoCount");
    reveal_strlit(".");
    reveal_strlit("stats.videoCount");
    assert(reading::is_name("stats"@));
    assert(reading::is_name("videoCount"@));
    assert("stats.videoCount"@ =~= "stats"@ + "."@ + "videoCount"@);
    reading::lemma_longer_path(Some(t), "stats"@, "videoCount"@, "stats.videoCount"@);
    reading::lemma_path(reading::below(Some(t), "stats"@), "videoCount"@);
}

proof fn lemma_path_videocounttext(t: Tree)
    ensures
        scrapecreators::dug(t, "videoCountText"@) == json::field(t, "videoCountText"@),
{
    reveal_strlit("videoCountText");
    assert(reading::is_name("videoCountText"@));
    reading::lemma_path(Some(t), "videoCountText"@);
}

proof fn lemma_path_continuationtoken(t: Tree)
    ensures
        scrapecreators::dug(t, "continuationToken"@) == json::field(t, "continuationToken"@),
{
    reveal_strlit("continuationToken");
    assert(reading::is_name("continuationToken"@));
    reading::lemma_path(Some(t), "continuationToken"@);
}

proof fn lemma_path_max_cursor(t: Tree)
    ensures
        scrapecreators::dug(t, "max_cursor"@) == json::field(t, "max_cursor"@),
{
    reveal_strlit("max_cursor");
    assert(reading::is_name("max_cursor"@));
    reading::lemma_path(Some(t), "max_cursor"@);
}

proof fn lemma_path_paging_info_to_max_id(t: Tree)
    ensures
        scrapecreators::dug(t, "paging_info.max_id"@) == reading::below(json::field(t, "paging_info"@), "max_id"@),
{
    reveal_strlit("paging_info");
    reveal_strlit("max_id");
    reveal_strlit(".");
    reveal_strlit("paging_info.max_id");
    assert(reading::is_name("paging_info"@));
    assert(reading::is_name("max_id"@));
    assert("paging_info.max_id"@ =~= "paging_info"@ + "."@ + "max_id"@);
    reading::lemma_longer_path(Some(t), "paging_info"@, "max_id"@, "paging_info.max_id"@);
    reading::lemma_path(reading::below(Some(t), "paging_info"@), "max_id"@);
}

proof fn lemma_path_aweme_detail_to_video_to_play_addr_to_url_list_to_0(t: Tree)
    ensures
        scrapecreators::dug(t, "aweme_detail.video.play_addr.url_list.0"@) == reading::first_in(reading::below(reading::below(reading::below(json::field(t, "aweme_detail"@), "video"@), "play_addr"@), "url_list"@)),
{
    reveal_strlit("aweme_detail");
    reveal_strlit("video");
    reveal_strlit("play_addr");
    reveal_strlit("url_list");
    reveal_strlit(".");
    reveal_strlit("0");
    reveal_strlit("aweme_detail.video.play_addr.url_list.0");
    reveal_strlit("video.play_addr.url_list.0");
    reveal_strlit("play_addr.url_list.0");
    reveal_strlit("url_list.0");
    assert(reading::is_name("aweme_detail"@));
    assert(reading::is_name("video"@));
    assert(reading::is_name("play_addr"@));
    assert(reading::is_name("url_list"@));
    assert("aweme_detail.video.play_addr.url_list.0"@ =~= "aweme_detail"@ + "."@ + "video.play_addr.url_list.0"@);
    reading::lemma_longer_path(Some(t), "aweme_detail"@, "video.play_addr.url_list.0"@, "aweme_detail.video.play_addr.url_list.0"@);
    assert("video.play_addr.url_list.0"@ =~= "video"@ + "."@ + "play_addr.url_list.0"@);
    reading::lemma_longer_path(reading::below(Some(t), "aweme_detail"@), "video"@, "play_addr.url_list.0"@, "video.play_addr.url_list.0"@);
    assert("play_addr.url_list.0"@ =~= "play_addr"@ + "."@ + "url_list.0"@);
    reading::lemma_longer_path(reading::below(reading::below(Some(t), "aweme_detail"@), "video"@), "play_addr"@, "url_list.0"@, "play_addr.url_list.0"@);
    assert("url_list.0"@ =~= "url_list"@ + "."@ + "0"@);
    reading::lemma_longer_path(reading::below(reading::below(reading::below(Some(t), "aweme_detail"@), "video"@), "play_addr"@), "url_list"@, "0"@, "url_list.0"@);
    reading::lemma_first_element(reading::below(reading::below(reading::below(reading::below(Some(t), "aweme_detail"@), "video"@), "play_addr"@), "url_list"@), Seq::empty(), "0"@ + "."@ + Seq::<char>::empty());
}

proof fn lemma_path_data_to_xdt_shortcode_media_to_video_url(t: Tree)
    ensures
        scrapecreators::dug(t, "data.xdt_shortcode_media.video_url"@) == reading::below(reading::below(json::field(t, "data"@), "xdt_shortcode_media"@), "video_url"@),
{
    reveal_strlit("data");
    reveal_strlit("xdt_shortcode_media");
    reveal_strlit("video_url");
    reveal_strlit(".");
    reveal_strlit("data.xdt_shortcode_media.video_url");
    reveal_strlit("xdt_shortcode_media.video_url");
    assert(reading::is_name("data"@));
    assert(reading::is_name("xdt_shortcode_media"@));
    assert(reading::is_name("video_url"@));
    assert("data.xdt_shortcode_media.video_url"@ =~= "data"@ + "."@ + "xdt_shortcode_media.video_url"@);
    reading::lemma_longer_path(Some(t), "data"@, "xdt_shortcode_media.video_url"@, "data.xdt_shortcode_media.video_url"@);
    assert("xdt_shortcode_media.video_url"@ =~= "xdt_shortcode_media"@ + "."@ + "video_url"@);
    reading::lemma_longer_path(reading::below(Some(t), "data"@), "xdt_shortcode_media"@, "video_url"@, "xdt_shortcode_media.video_url"@);
    reading::lemma_path(reading::below(reading::below(Some(t), "data"@), "xdt_shortcode_media"@), "video_url"@);
}

proof fn lemma_path_data_to_xdt_shortcode_media(t: Tree)
    ensures
        scrapecreators::dug(t, "data.xdt_shortcode_media"@) == reading::below(json::field(t, "data"@), "xdt_shortcode_media"@),
{
    reveal_strlit("data");
    reveal_strlit("xdt_shortcode_media");
    reveal_strlit(".");
    reveal_strlit("data.xdt_shortcode_media");
    assert(reading::is_name("data"@));
    assert(reading::is_name("xdt_shortcode_media"@));
    assert("data.xdt_shortcode_media"@ =~= "data"@ + "."@ + "xdt_shortcode_media"@);
    reading::lemma_longer_path(Some(t), "data"@, "xdt_shortcode_media"@, "data.xdt_shortcode_media"@);
    reading::lemma_path(reading::below(Some(t), "data"@), "xdt_shortcode_media"@);
}

proof fn lemma_path_data(t: Tree)
    ensures
        scrapecreators::dug(t, "data"@) == json::field(t, "data"@),
{
    reveal_strlit("data");
    assert(reading::is_name("data"@));
    reading::lemma_path(Some(t), "data"@);
}

proof fn lemma_path_items_to_0(t: Tree)
    ensures
        scrapecreators::dug(t, "items.0"@) == reading::first_in(json::field(t, "items"@)),
{
    reveal_strlit("items");
    reveal_strlit(".");
    reveal_strlit("0");
    reveal_strlit("items.0");
    assert(reading::is_name("items"@));
    assert("items.0"@ =~= "items"@ + "."@ + "0"@);
    reading::lemma_longer_path(Some(t), "items"@, "0"@, "items.0"@);
    reading::lemma_first_element(reading::below(Some(t), "items"@), Seq::empty(), "0"@ + "."@ + Seq::<char>::empty());
}

proof fn lemma_path_post(t: Tree)
    ensures
        scrapecreators::dug(t, "post"@) == json::field(t, "post"@),
{
    reveal_strlit("post");
    assert(reading::is_name("post"@));
    reading::lemma_path(Some(t), "post"@);
}

proof fn lemma_path_caption(t: Tree)
    ensures
        scrapecreators::dug(t, "caption"@) == json::field(t, "caption"@),
{
    reveal_strlit("caption");
    assert(reading::is_name("caption"@));
    reading::lemma_path(Some(t), "caption"@);
}

proof fn lemma_path_edge_media_to_caption_to_edges_to_0_to_node_to_text(t: Tree)
    ensures
        scrapecreators::dug(t, "edge_media_to_caption.edges.0.node.text"@) == reading::below(reading::below(reading::first_in(reading::below(json::field(t, "edge_media_to_caption"@), "edges"@)), "node"@), "text"@),
{
    reveal_strlit("edge_media_to_caption");
    reveal_strlit("edges");
    reveal_strlit("node");
    reveal_strlit("text");
    reveal_strlit(".");
    reveal_strlit("0");
    reveal_strlit("edge_media_to_caption.edges.0.node.text");
    reveal_strlit("edges.0.node.text");
    reveal_strlit("0.node.text");
    reveal_strlit("node.text");
    assert(reading::is_name("edge_media_to_caption"@));
    assert(reading::is_name("edges"@));
    assert(reading::is_name("node"@));
    assert(reading::is_name("text"@));
    assert("edge_media_to_caption.edges.0.node.text"@ =~= "edge_media_to_caption"@ + "."@ + "edges.0.node.text"@);
    reading::lemma_longer_path(Some(t), "edge_media_to_caption"@, "edges.0.node.text"@, "edge_media_to_caption.edges.0.node.text"@);
    assert("edges.0.node.text"@ =~= "edges"@ + "."@ + "0.node.text"@);
    reading::lemma_longer_path(reading::below(Some(t), "edge_media_to_caption"@), "edges"@, "0.node.text"@, "edges.0.node.text"@);
    assert("0.node.text"@ =~= "0"@ + "."@ + "node.text"@);
    reading::lemma_first_element(reading::below(reading::below(Some(t), "edge_media_to_caption"@), "edges"@), "node.text"@, "0.node.text"@);
    assert("node.text"@ =~= "node"@ + "."@ + "text"@);
    reading::lemma_longer_path(reading::first_in(reading::below(reading::below(Some(t), "edge_media_to_caption"@), "edges"@)), "node"@, "text"@, "node.text"@);
    reading::lemma_path(reading::below(reading::first_in(reading::below(reading::below(Some(t), "edge_media_to_caption"@), "edges"@)), "node"@), "text"@);
}

proof fn lemma_path_owner_to_username(t: Tree)
    ensures
        scrapecreators::dug(t, "owner.username"@) == reading::below(json::field(t, "owner"@), "username"@),
{
    reveal_strlit("owner");
    reveal_strlit("username");
    reveal_strlit(".");
    reveal_strlit("owner.username");
    assert(reading::is_name("owner"@));
    assert(reading::is_name("username"@));
    assert("owner.username"@ =~= "owner"@ + "."@ + "username"@);
    reading::lemma_longer_path(Some(t), "owner"@, "username"@, "owner.username"@);
    reading::lemma_path(reading::below(Some(t), "owner"@), "username"@);
}

proof fn lemma_path_user_to_username(t: Tree)
    ensures
        scrapecreators::dug(t, "user.username"@) == reading::below(json::field(t, "user"@), "username"@),
{
    reveal_strlit("user");
    reveal_strlit("username");
    reveal_strlit(".");
    reveal_strlit("user.username");
    assert(reading::is_name("user"@));
    assert(reading::is_name("username"@));
    assert("user.username"@ =~= "user"@ + "."@ + "username"@);
    reading::lemma_longer_path(Some(t), "user"@, "username"@, "user.username"@);
    reading::lemma_path(reading::below(Some(t), "user"@), "username"@);
}

proof fn lemma_path_owner_to_full_name(t: Tree)
    ensures
        scrapecreators::dug(t, "owner.full_name"@) == reading::below(json::field(t, "owner"@), "full_name"@),
{
    reveal_strlit("owner");
    reveal_strlit("full_name");
    reveal_strlit(".");
    reveal_strlit("owner.full_name");
    assert(reading::is_name("owner"@));
    assert(reading::is_name("full_name"@));
    assert("owner.full_name"@ =~= "owner"@ + "."@ + "full_name"@);
    reading::lemma_longer_path(Some(t), "owner"@, "full_name"@, "owner.full_name"@);
    reading::lemma_path(reading::below(Some(t), "owner"@), "full_name"@);
}

proof fn lemma_path_user_to_full_name(t: Tree)
    ensures
        scrapecreators::dug(t, "user.full_name"@) == reading::below(json::field(t, "user"@), "full_name"@),
{
    reveal_strlit("user");
    reveal_strlit("full_name");
    reveal_strlit(".");
    reveal_strlit("user.full_name");
    assert(reading::is_name("user"@));
    assert(reading::is_name("full_name"@));
    assert("user.full_name"@ =~= "user"@ + "."@ + "full_name"@);
    reading::lemma_longer_path(Some(t), "user"@, "full_name"@, "user.full_name"@);
    reading::lemma_path(reading::below(Some(t), "user"@), "full_name"@);
}

proof fn lemma_path_taken_at_timestamp(t: Tree)
    ensures
        scrapecreators::dug(t, "taken_at_timestamp"@) == json::field(t, "taken_at_timestamp"@),
{
    reveal_strlit("taken_at_timestamp");
    assert(reading::is_name("taken_at_timestamp"@));
    reading::lemma_path(Some(t), "taken_at_timestamp"@);
}

proof fn lemma_path_video_play_count(t: Tree)
    ensures
        scrapecreators::dug(t, "video_play_count"@) == json::field(t, "video_play_count"@),
{
    reveal_strlit("video_play_count");
    assert(reading::is_name("video_play_count"@));
    reading::lemma_path(Some(t), "video_play_count"@);
}

proof fn lemma_path_play_count(t: Tree)
    ensures
        scrapecreators::dug(t, "play_count"@) == json::field(t, "play_count"@),
{
    reveal_strlit("play_count");
    assert(reading::is_name("play_count"@));
    reading::lemma_path(Some(t), "play_count"@);
}

proof fn lemma_path_video_view_count(t: Tree)
    ensures
        scrapecreators::dug(t, "video_view_count"@) == json::field(t, "video_view_count"@),
{
    reveal_strlit("video_view_count");
    assert(reading::is_name("video_view_count"@));
    reading::lemma_path(Some(t), "video_view_count"@);
}

proof fn lemma_path_edge_media_preview_like_to_count(t: Tree)
    ensures
        scrapecreators::dug(t, "edge_media_preview_like.count"@) == reading::below(json::field(t, "edge_media_preview_like"@), "count"@),
{
    reveal_strlit("edge_media_preview_like");
    reveal_strlit("count");
    reveal_strlit(".");
    reveal_strlit("edge_media_preview_like.count");
    assert(reading::is_name("edge_media_preview_like"@));
    assert(reading::is_name("count"@));
    assert("edge_media_preview_like.count"@ =~= "edge_media_preview_like"@ + "."@ + "count"@);
    reading::lemma_longer_path(Some(t), "edge_media_preview_like"@, "count"@, "edge_media_preview_like.count"@);
    reading::lemma_path(reading::below(Some(t), "edge_media_preview_like"@), "count"@);
}

proof fn lemma_path_edge_media_to_comment_to_count(t: Tree)
    ensures
        scrapecreators::dug(t, "edge_media_to_comment.count"@) == reading::below(json::field(t, "edge_media_to_comment"@), "count"@),
{
    reveal_strlit("edge_media_to_comment");
    reveal_strlit("count");
    reveal_strlit(".");
    reveal_strlit("edge_media_to_comment.count");
    assert(reading::is_name("edge_media_to_comment"@));
    assert(reading::is_name("count"@));
    assert("edge_media_to_comment.count"@ =~= "edge_media_to_comment"@ + "."@ + "count"@);
    reading::lemma_longer_path(Some(t), "edge_media_to_comment"@, "count"@, "edge_media_to_comment.count"@);
    reading::lemma_path(reading::below(Some(t), "edge_media_to_comment"@), "count"@);
}

proof fn lemma_path_transcript_only_text(t: Tree)
    ensures
        scrapecreators::dug(t, "transcript_only_text"@) == json::field(t, "transcript_only_text"@),
{
    reveal_strlit("transcript_only_text");
    assert(reading::is_name("transcript_only_text"@));
    reading::lemma_path(Some(t), "transcript_only_text"@);
}

proof fn lemma_path_text(t: Tree)
    ensures
        scrapecreators::dug(t, "text"@) == json::field(t, "text"@),
{
    reveal_strlit("text");
    assert(reading::is_name("text"@));
    reading::lemma_path(Some(t), "text"@);
}

proof fn lemma_path_transcript_text(t: Tree)
    ensures
        scrapecreators::dug(t, "transcript_text"@) == json::field(t, "transcript_text"@),
{
    reveal_strlit("transcript_text");
    assert(reading::is_name("transcript_text"@));
    reading::lemma_path(Some(t), "transcript_text"@);
}

proof fn lemma_path_content(t: Tree)
    ensures
        scrapecreators::dug(t, "content"@) == json::field(t, "content"@),
{
    reveal_strlit("content");
    assert(reading::is_name("content"@));
    reading::lemma_path(Some(t), "content"@);
}

proof fn lemma_path_comment(t: Tree)
    ensures
        scrapecreators::dug(t, "comment"@) == json::field(t, "comment"@),
{
    reveal_strlit("comment");
    assert(reading::is_name("comment"@));
    reading::lemma_path(Some(t), "comment"@);
}

proof fn lemma_path_cid(t: Tree)
    ensures
        scrapecreators::dug(t, "cid"@) == json::field(t, "cid"@),
{
    reveal_strlit("cid");
    assert(reading::is_name("cid"@));
    reading::lemma_path(Some(t), "cid"@);
}

proof fn lemma_path_author_to_name(t: Tree)
    ensures
        scrapecreators::dug(t, "author.name"@) == reading::below(json::field(t, "author"@), "name"@),
{
    reveal_strlit("author");
    reveal_strlit("name");
    reveal_strlit(".");
    reveal_strlit("author.name");
    assert(reading::is_name("author"@));
    assert(reading::is_name("name"@));
    assert("author.name"@ =~= "author"@ + "."@ + "name"@);
    reading::lemma_longer_path(Some(t), "author"@, "name"@, "author.name"@);
    reading::lemma_path(reading::below(Some(t), "author"@), "name"@);
}

proof fn lemma_path_user_to_nickname(t: Tree)
    ensures
        scrapecreators::dug(t, "user.nickname"@) == reading::below(json::field(t, "user"@), "nickname"@),
{
    reveal_strlit("user");
    reveal_strlit("nickname");
    reveal_strlit(".");
    reveal_strlit("user.nickname");
    assert(reading::is_name("user"@));
    assert(reading::is_name("nickname"@));
    assert("user.nickname"@ =~= "user"@ + "."@ + "nickname"@);
    reading::lemma_longer_path(Some(t), "user"@, "nickname"@, "user.nickname"@);
    reading::lemma_path(reading::below(Some(t), "user"@), "nickname"@);
}

proof fn lemma_path_engagement_to_likes(t: Tree)
    ensures
        scrapecreators::dug(t, "engagement.likes"@) == reading::below(json::field(t, "engagement"@), "likes"@),
{
    reveal_strlit("engagement");
    reveal_strlit("likes");
    reveal_strlit(".");
    reveal_strlit("engagement.likes");
    assert(reading::is_name("engagement"@));
    assert(reading::is_name("likes"@));
    assert("engagement.likes"@ =~= "engagement"@ + "."@ + "likes"@);
    reading::lemma_longer_path(Some(t), "engagement"@, "likes"@, "engagement.likes"@);
    reading::lemma_path(reading::below(Some(t), "engagement"@), "likes"@);
}

proof fn lemma_path_digg_count(t: Tree)
    ensures
        scrapecreators::dug(t, "digg_count"@) == json::field(t, "digg_count"@),
{
    reveal_strlit("digg_count");
    assert(reading::is_name("digg_count"@));
    reading::lemma_path(Some(t), "digg_count"@);
}

proof fn lemma_path_channel_to_name(t: Tree)
    ensures
        scrapecreators::dug(t, "channel.name"@) == reading::below(json::field(t, "channel"@), "name"@),
{
    reveal_strlit("channel");
    reveal_strlit("name");
    reveal_strlit(".");
    reveal_strlit("channel.name");
    assert(reading::is_name("channel"@));
    assert(reading::is_name("name"@));
    assert("channel.name"@ =~= "channel"@ + "."@ + "name"@);
    reading::lemma_longer_path(Some(t), "channel"@, "name"@, "channel.name"@);
    reading::lemma_path(reading::below(Some(t), "channel"@), "name"@);
}

proof fn lemma_path_channel_to_id(t: Tree)
    ensures
        scrapecreators::dug(t, "channel.id"@) == reading::below(json::field(t, "channel"@), "id"@),
{
    reveal_strlit("channel");
    reveal_strlit("id");
    reveal_strlit(".");
    reveal_strlit("channel.id");
    assert(reading::is_name("channel"@));
    assert(reading::is_name("id"@));
    assert("channel.id"@ =~= "channel"@ + "."@ + "id"@);
    reading::lemma_longer_path(Some(t), "channel"@, "id"@, "channel.id"@);
    reading::lemma_path(reading::below(Some(t), "channel"@), "id"@);
}

proof fn lemma_path_channelid(t: Tree)
    ensures
        scrapecreators::dug(t, "channelId"@) == json::field(t, "channelId"@),
{
    reveal_strlit("channelId");
    assert(reading::is_name("channelId"@));
    reading::lemma_path(Some(t), "channelId"@);
}

proof fn lemma_path_code(t: Tree)
    ensures
        scrapecreators::dug(t, "code"@) == json::field(t, "code"@),
{
    reveal_strlit("code");
    assert(reading::is_name("code"@));
    reading::lemma_path(Some(t), "code"@);
}

proof fn lemma_path_shortcode(t: Tree)
    ensures
        scrapecreators::dug(t, "shortcode"@) == json::field(t, "shortcode"@),
{
    reveal_strlit("shortcode");
    assert(reading::is_name("shortcode"@));
    reading::lemma_path(Some(t), "shortcode"@);
}

proof fn lemma_path_user_to_pk(t: Tree)
    ensures
        scrapecreators::dug(t, "user.pk"@) == reading::below(json::field(t, "user"@), "pk"@),
{
    reveal_strlit("user");
    reveal_strlit("pk");
    reveal_strlit(".");
    reveal_strlit("user.pk");
    assert(reading::is_name("user"@));
    assert(reading::is_name("pk"@));
    assert("user.pk"@ =~= "user"@ + "."@ + "pk"@);
    reading::lemma_longer_path(Some(t), "user"@, "pk"@, "user.pk"@);
    reading::lemma_path(reading::below(Some(t), "user"@), "pk"@);
}

proof fn lemma_path_user_to_id(t: Tree)
    ensures
        scrapecreators::dug(t, "user.id"@) == reading::below(json::field(t, "user"@), "id"@),
{
    reveal_strlit("user");
    reveal_strlit("id");
    reveal_strlit(".");
    reveal_strlit("user.id");
    assert(reading::is_name("user"@));
    assert(reading::is_name("id"@));
    assert("user.id"@ =~= "user"@ + "."@ + "id"@);
    reading::lemma_longer_path(Some(t), "user"@, "id"@, "user.id"@);
    reading::lemma_path(reading::below(Some(t), "user"@), "id"@);
}

proof fn lemma_path_owner_to_id(t: Tree)
    ensures
        scrapecreators::dug(t, "owner.id"@) == reading::below(json::field(t, "owner"@), "id"@),
{
    reveal_strlit("owner");
    reveal_strlit("id");
    reveal_strlit(".");
    reveal_strlit("owner.id");
    assert(reading::is_name("owner"@));
    assert(reading::is_name("id"@));
    assert("owner.id"@ =~= "owner"@ + "."@ + "id"@);
    reading::lemma_longer_path(Some(t), "owner"@, "id"@, "owner.id"@);
    reading::lemma_path(reading::below(Some(t), "owner"@), "id"@);
}

proof fn lemma_path_view_count(t: Tree)
    ensures
        scrapecreators::dug(t, "view_count"@) == json::field(t, "view_count"@),
{
    reveal_strlit("view_count");
    assert(reading::is_name("view_count"@));
    reading::lemma_path(Some(t), "view_count"@);
}

proof fn lemma_path_user_info(t: Tree)
    ensures
        scrapecreators::dug(t, "user_info"@) == json::field(t, "user_info"@),
{
    reveal_strlit("user_info");
    assert(reading::is_name("user_info"@));
    reading::lemma_path(Some(t), "user_info"@);
}

proof fn lemma_path_user(t: Tree)
    ensures
        scrapecreators::dug(t, "user"@) == json::field(t, "user"@),
{
    reveal_strlit("user");
    assert(reading::is_name("user"@));
    reading::lemma_path(Some(t), "user"@);
}

proof fn lemma_path_data_to_user(t: Tree)
    ensures
        scrapecreators::dug(t, "data.user"@) == reading::below(json::field(t, "data"@), "user"@),
{
    reveal_strlit("data");
    reveal_strlit("user");
    reveal_strlit(".");
    reveal_strlit("data.user");
    assert(reading::is_name("data"@));
    assert(reading::is_name("user"@));
    assert("data.user"@ =~= "data"@ + "."@ + "user"@);
    reading::lemma_longer_path(Some(t), "data"@, "user"@, "data.user"@);
    reading::lemma_path(reading::below(Some(t), "data"@), "user"@);
}

proof fn lemma_path_handle(t: Tree)
    ensures
        scrapecreators::dug(t, "handle"@) == json::field(t, "handle"@),
{
    reveal_strlit("handle");
    assert(reading::is_name("handle"@));
    reading::lemma_path(Some(t), "handle"@);
}

proof fn lemma_path_unique_id(t: Tree)
    ensures
        scrapecreators::dug(t, "unique_id"@) == json::field(t, "unique_id"@),
{
    reveal_strlit("unique_id");
    assert(reading::is_name("unique_id"@));
    reading::lemma_path(Some(t), "unique_id"@);
}

proof fn lemma_path_uniqueid(t: Tree)
    ensures
        scrapecreators::dug(t, "uniqueId"@) == json::field(t, "uniqueId"@),
{
    reveal_strlit("uniqueId");
    assert(reading::is_name("uniqueId"@));
    reading::lemma_path(Some(t), "uniqueId"@);
}

proof fn lemma_path_username(t: Tree)
    ensures
        scrapecreators::dug(t, "username"@) == json::field(t, "username"@),
{
    reveal_strlit("username");
    assert(reading::is_name("username"@));
    reading::lemma_path(Some(t), "username"@);
}

proof fn lemma_path_channel(t: Tree)
    ensures
        scrapecreators::dug(t, "channel"@) == json::field(t, "channel"@),
{
    reveal_strlit("channel");
    assert(reading::is_name("channel"@));
    reading::lemma_path(Some(t), "channel"@);
}

proof fn lemma_path_uid(t: Tree)
    ensures
        scrapecreators::dug(t, "uid"@) == json::field(t, "uid"@),
{
    reveal_strlit("uid");
    assert(reading::is_name("uid"@));
    reading::lemma_path(Some(t), "uid"@);
}

proof fn lemma_path_pk(t: Tree)
    ensures
        scrapecreators::dug(t, "pk"@) == json::field(t, "pk"@),
{
    reveal_strlit("pk");
    assert(reading::is_name("pk"@));
    reading::lemma_path(Some(t), "pk"@);
}

proof fn lemma_path_channelname(t: Tree)
    ensures
        scrapecreators::dug(t, "channelName"@) == json::field(t, "channelName"@),
{
    reveal_strlit("channelName");
    assert(reading::is_name("channelName"@));
    reading::lemma_path(Some(t), "channelName"@);
}

proof fn lemma_path_name(t: Tree)
    ensures
        scrapecreators::dug(t, "name"@) == json::field(t, "name"@),
{
    reveal_strlit("name");
    assert(reading::is_name("name"@));
    reading::lemma_path(Some(t), "name"@);
}

proof fn lemma_path_nickname(t: Tree)
    ensures
        scrapecreators::dug(t, "nickname"@) == json::field(t, "nickname"@),
{
    reveal_strlit("nickname");
    assert(reading::is_name("nickname"@));
    reading::lemma_path(Some(t), "nickname"@);
}

proof fn lemma_path_full_name(t: Tree)
    ensures
        scrapecreators::dug(t, "full_name"@) == json::field(t, "full_name"@),
{
    reveal_strlit("full_name");
    assert(reading::is_name("full_name"@));
    reading::lemma_path(Some(t), "full_name"@);
}

proof fn lemma_path_signature(t: Tree)
    ensures
        scrapecreators::dug(t, "signature"@) == json::field(t, "signature"@),
{
    reveal_strlit("signature");
    assert(reading::is_name("signature"@));
    reading::lemma_path(Some(t), "signature"@);
}

proof fn lemma_path_biography(t: Tree)
    ensures
        scrapecreators::dug(t, "biography"@) == json::field(t, "biography"@),
{
    reveal_strlit("biography");
    assert(reading::is_name("biography"@));
    reading::lemma_path(Some(t), "biography"@);
}

proof fn lemma_path_subscribercountint(t: Tree)
    ensures
        scrapecreators::dug(t, "subscriberCountInt"@) == json::field(t, "subscriberCountInt"@),
{
    reveal_strlit("subscriberCountInt");
    assert(reading::is_name("subscriberCountInt"@));
    reading::lemma_path(Some(t), "subscriberCountInt"@);
}

proof fn lemma_path_subscribercount(t: Tree)
    ensures
        scrapecreators::dug(t, "subscriberCount"@) == json::field(t, "subscriberCount"@),
{
    reveal_strlit("subscriberCount");
    assert(reading::is_name("subscriberCount"@));
    reading::lemma_path(Some(t), "subscriberCount"@);
}

proof fn lemma_path_follower_count(t: Tree)
    ensures
        scrapecreators::dug(t, "follower_count"@) == json::field(t, "follower_count"@),
{
    reveal_strlit("follower_count");
    assert(reading::is_name("follower_count"@));
    reading::lemma_path(Some(t), "follower_count"@);
}

proof fn lemma_path_edge_followed_by_to_count(t: Tree)
    ensures
        scrapecreators::dug(t, "edge_followed_by.count"@) == reading::below(json::field(t, "edge_followed_by"@), "count"@),
{
    reveal_strlit("edge_followed_by");
    reveal_strlit("count");
    reveal_strlit(".");
    reveal_strlit("edge_followed_by.count");
    assert(reading::is_name("edge_followed_by"@));
    assert(reading::is_name("count"@));
    assert("edge_followed_by.count"@ =~= "edge_followed_by"@ + "."@ + "count"@);
    reading::lemma_longer_path(Some(t), "edge_followed_by"@, "count"@, "edge_followed_by.count"@);
    reading::lemma_path(reading::below(Some(t), "edge_followed_by"@), "count"@);
}

proof fn lemma_path_stats_to_followercount(t: Tree)
    ensures
        scrapecreators::dug(t, "stats.followerCount"@) == reading::below(json::field(t, "stats"@), "followerCount"@),
{
    reveal_strlit("stats");
    reveal_strlit("followerCount");
    reveal_strlit(".");
    reveal_strlit("stats.followerCount");
    assert(reading::is_name("stats"@));
    assert(reading::is_name("followerCount"@));
    assert("stats.followerCount"@ =~= "stats"@ + "."@ + "followerCount"@);
    reading::lemma_longer_path(Some(t), "stats"@, "followerCount"@, "stats.followerCount"@);
    reading::lemma_path(reading::below(Some(t), "stats"@), "followerCount"@);
}

proof fn lemma_path_statsv2_to_followercount(t: Tree)
    ensures
        scrapecreators::dug(t, "statsV2.followerCount"@) == reading::below(json::field(t, "statsV2"@), "followerCount"@),
{
    reveal_strlit("statsV2");
    reveal_strlit("followerCount");
    reveal_strlit(".");
    reveal_strlit("statsV2.followerCount");
    assert(reading::is_name("statsV2"@));
    assert(reading::is_name("followerCount"@));
    assert("statsV2.followerCount"@ =~= "statsV2"@ + "."@ + "followerCount"@);
    reading::lemma_longer_path(Some(t), "statsV2"@, "followerCount"@, "statsV2.followerCount"@);
    reading::lemma_path(reading::below(Some(t), "statsV2"@), "followerCount"@);
}

proof fn lemma_path_media_count(t: Tree)
    ensures
        scrapecreators::dug(t, "media_count"@) == json::field(t, "media_count"@),
{
    reveal_strlit("media_count");
    assert(reading::is_name("media_count"@));
    reading::lemma_path(Some(t), "media_count"@);
}

proof fn lemma_path_edge_owner_to_timeline_media_to_count(t: Tree)
    ensures
        scrapecreators::dug(t, "edge_owner_to_timeline_media.count"@) == reading::below(json::field(t, "edge_owner_to_timeline_media"@), "count"@),
{
    reveal_strlit("edge_owner_to_timeline_media");
    reveal_strlit("count");
    reveal_strlit(".");
    reveal_strlit("edge_owner_to_timeline_media.count");
    assert(reading::is_name("edge_owner_to_timeline_media"@));
    assert(reading::is_name("count"@));
    assert("edge_owner_to_timeline_media.count"@ =~= "edge_owner_to_timeline_media"@ + "."@ + "count"@);
    reading::lemma_longer_path(Some(t), "edge_owner_to_timeline_media"@, "count"@, "edge_owner_to_timeline_media.count"@);
    reading::lemma_path(reading::below(Some(t), "edge_owner_to_timeline_media"@), "count"@);
}

/// The path leads to one place.
pub proof fn lemma_at_title(t: Tree)
    ensures
        reading::takes(t, "title", json::field(t, "title"@)),
{
    lemma_path_title(t);
    reading::lemma_taken(t, "title", json::field(t, "title"@));
}

/// The path leads to one place.
pub proof fn lemma_at_channel_to_handle(t: Tree)
    ensures
        reading::takes(t, "channel.handle", reading::below(json::field(t, "channel"@), "handle"@)),
{
    lemma_path_channel_to_handle(t);
    reading::lemma_taken(t, "channel.handle", reading::below(json::field(t, "channel"@), "handle"@));
}

/// The path leads to one place.
pub proof fn lemma_at_channel_to_title(t: Tree)
    ensures
        reading::takes(t, "channel.title", reading::below(json::field(t, "channel"@), "title"@)),
{
    lemma_path_channel_to_title(t);
    reading::lemma_taken(t, "channel.title", reading::below(json::field(t, "channel"@), "title"@));
}

/// The path leads to one place.
pub proof fn lemma_at_durationms(t: Tree)
    ensures
        reading::takes(t, "durationMs", json::field(t, "durationMs"@)),
{
    lemma_path_durationms(t);
    reading::lemma_taken(t, "durationMs", json::field(t, "durationMs"@));
}

/// The path leads to one place.
pub proof fn lemma_at_viewcountint(t: Tree)
    ensures
        reading::takes(t, "viewCountInt", json::field(t, "viewCountInt"@)),
{
    lemma_path_viewcountint(t);
    reading::lemma_taken(t, "viewCountInt", json::field(t, "viewCountInt"@));
}

/// The path leads to one place.
pub proof fn lemma_at_likecountint(t: Tree)
    ensures
        reading::takes(t, "likeCountInt", json::field(t, "likeCountInt"@)),
{
    lemma_path_likecountint(t);
    reading::lemma_taken(t, "likeCountInt", json::field(t, "likeCountInt"@));
}

/// The path leads to one place.
pub proof fn lemma_at_commentcountint(t: Tree)
    ensures
        reading::takes(t, "commentCountInt", json::field(t, "commentCountInt"@)),
{
    lemma_path_commentcountint(t);
    reading::lemma_taken(t, "commentCountInt", json::field(t, "commentCountInt"@));
}

/// The path leads to one place.
pub proof fn lemma_at_description(t: Tree)
    ensures
        reading::takes(t, "description", json::field(t, "description"@)),
{
    lemma_path_description(t);
    reading::lemma_taken(t, "description", json::field(t, "description"@));
}

/// The path leads to one place.
pub proof fn lemma_at_desc(t: Tree)
    ensures
        reading::takes(t, "desc", json::field(t, "desc"@)),
{
    lemma_path_desc(t);
    reading::lemma_taken(t, "desc", json::field(t, "desc"@));
}

/// The path leads to one place.
pub proof fn lemma_at_author_to_unique_id(t: Tree)
    ensures
        reading::takes(t, "author.unique_id", reading::below(json::field(t, "author"@), "unique_id"@)),
{
    lemma_path_author_to_unique_id(t);
    reading::lemma_taken(t, "author.unique_id", reading::below(json::field(t, "author"@), "unique_id"@));
}

/// The path leads to one place.
pub proof fn lemma_at_author_to_nickname(t: Tree)
    ensures
        reading::takes(t, "author.nickname", reading::below(json::field(t, "author"@), "nickname"@)),
{
    lemma_path_author_to_nickname(t);
    reading::lemma_taken(t, "author.nickname", reading::below(json::field(t, "author"@), "nickname"@));
}

/// The path leads to one place.
pub proof fn lemma_at_video_to_duration(t: Tree)
    ensures
        reading::takes(t, "video.duration", reading::below(json::field(t, "video"@), "duration"@)),
{
    lemma_path_video_to_duration(t);
    reading::lemma_taken(t, "video.duration", reading::below(json::field(t, "video"@), "duration"@));
}

/// The path leads to one place.
pub proof fn lemma_at_create_time(t: Tree)
    ensures
        reading::takes(t, "create_time", json::field(t, "create_time"@)),
{
    lemma_path_create_time(t);
    reading::lemma_taken(t, "create_time", json::field(t, "create_time"@));
}

/// The path leads to one place.
pub proof fn lemma_at_statistics_to_play_count(t: Tree)
    ensures
        reading::takes(t, "statistics.play_count", reading::below(json::field(t, "statistics"@), "play_count"@)),
{
    lemma_path_statistics_to_play_count(t);
    reading::lemma_taken(t, "statistics.play_count", reading::below(json::field(t, "statistics"@), "play_count"@));
}

/// The path leads to one place.
pub proof fn lemma_at_statistics_to_digg_count(t: Tree)
    ensures
        reading::takes(t, "statistics.digg_count", reading::below(json::field(t, "statistics"@), "digg_count"@)),
{
    lemma_path_statistics_to_digg_count(t);
    reading::lemma_taken(t, "statistics.digg_count", reading::below(json::field(t, "statistics"@), "digg_count"@));
}

/// The path leads to one place.
pub proof fn lemma_at_statistics_to_comment_count(t: Tree)
    ensures
        reading::takes(t, "statistics.comment_count", reading::below(json::field(t, "statistics"@), "comment_count"@)),
{
    lemma_path_statistics_to_comment_count(t);
    reading::lemma_taken(t, "statistics.comment_count", reading::below(json::field(t, "statistics"@), "comment_count"@));
}

/// The path leads to one place.
pub proof fn lemma_at_video_duration(t: Tree)
    ensures
        reading::takes(t, "video_duration", json::field(t, "video_duration"@)),
{
    lemma_path_video_duration(t);
    reading::lemma_taken(t, "video_duration", json::field(t, "video_duration"@));
}

/// The path leads to one place.
pub proof fn lemma_at_publishdate(t: Tree)
    ensures
        reading::takes(t, "publishDate", json::field(t, "publishDate"@)),
{
    lemma_path_publishdate(t);
    reading::lemma_taken(t, "publishDate", json::field(t, "publishDate"@));
}

/// The path leads to one place.
pub proof fn lemma_at_taken_at(t: Tree)
    ensures
        reading::takes(t, "taken_at", json::field(t, "taken_at"@)),
{
    lemma_path_taken_at(t);
    reading::lemma_taken(t, "taken_at", json::field(t, "taken_at"@));
}

/// The path leads to one place.
pub proof fn lemma_at_transcripts_to_0_to_text(t: Tree)
    ensures
        reading::takes(t, "transcripts.0.text", reading::below(reading::first_in(json::field(t, "transcripts"@)), "text"@)),
{
    lemma_path_transcripts_to_0_to_text(t);
    reading::lemma_taken(t, "transcripts.0.text", reading::below(reading::first_in(json::field(t, "transcripts"@)), "text"@));
}

/// The path leads to one place.
pub proof fn lemma_at_transcript(t: Tree)
    ensures
        reading::takes(t, "transcript", json::field(t, "transcript"@)),
{
    lemma_path_transcript(t);
    reading::lemma_taken(t, "transcript", json::field(t, "transcript"@));
}

/// The path leads to one place.
pub proof fn lemma_at_language(t: Tree)
    ensures
        reading::takes(t, "language", json::field(t, "language"@)),
{
    lemma_path_language(t);
    reading::lemma_taken(t, "language", json::field(t, "language"@));
}

/// The path leads to one place.
pub proof fn lemma_at_publishedtime(t: Tree)
    ensures
        reading::takes(t, "publishedTime", json::field(t, "publishedTime"@)),
{
    lemma_path_publishedtime(t);
    reading::lemma_taken(t, "publishedTime", json::field(t, "publishedTime"@));
}

/// The path leads to one place.
pub proof fn lemma_at_id(t: Tree)
    ensures
        reading::takes(t, "id", json::field(t, "id"@)),
{
    lemma_path_id(t);
    reading::lemma_taken(t, "id", json::field(t, "id"@));
}

/// The path leads to one place.
pub proof fn lemma_at_url(t: Tree)
    ensures
        reading::takes(t, "url", json::field(t, "url"@)),
{
    lemma_path_url(t);
    reading::lemma_taken(t, "url", json::field(t, "url"@));
}

/// The path leads to one place.
pub proof fn lemma_at_lengthseconds(t: Tree)
    ensures
        reading::takes(t, "lengthSeconds", json::field(t, "lengthSeconds"@)),
{
    lemma_path_lengthseconds(t);
    reading::lemma_taken(t, "lengthSeconds", json::field(t, "lengthSeconds"@));
}

/// The path leads to one place.
pub proof fn lemma_at_aweme_id(t: Tree)
    ensures
        reading::takes(t, "aweme_id", json::field(t, "aweme_id"@)),
{
    lemma_path_aweme_id(t);
    reading::lemma_taken(t, "aweme_id", json::field(t, "aweme_id"@));
}

/// The path leads to one place.
pub proof fn lemma_at_share_url(t: Tree)
    ensures
        reading::takes(t, "share_url", json::field(t, "share_url"@)),
{
    lemma_path_share_url(t);
    reading::lemma_taken(t, "share_url", json::field(t, "share_url"@));
}

/// The path leads to one place.
pub proof fn lemma_at_author_to_uid(t: Tree)
    ensures
        reading::takes(t, "author.uid", reading::below(json::field(t, "author"@), "uid"@)),
{
    lemma_path_author_to_uid(t);
    reading::lemma_taken(t, "author.uid", reading::below(json::field(t, "author"@), "uid"@));
}

/// The path leads to one place.
pub proof fn lemma_at_caption_to_text(t: Tree)
    ensures
        reading::takes(t, "caption.text", reading::below(json::field(t, "caption"@), "text"@)),
{
    lemma_path_caption_to_text(t);
    reading::lemma_taken(t, "caption.text", reading::below(json::field(t, "caption"@), "text"@));
}

/// The path leads to one place.
pub proof fn lemma_at_like_count(t: Tree)
    ensures
        reading::takes(t, "like_count", json::field(t, "like_count"@)),
{
    lemma_path_like_count(t);
    reading::lemma_taken(t, "like_count", json::field(t, "like_count"@));
}

/// The path leads to one place.
pub proof fn lemma_at_comment_count(t: Tree)
    ensures
        reading::takes(t, "comment_count", json::field(t, "comment_count"@)),
{
    lemma_path_comment_count(t);
    reading::lemma_taken(t, "comment_count", json::field(t, "comment_count"@));
}

/// The path leads to one place.
pub proof fn lemma_at_stats_to_videocount(t: Tree)
    ensures
        reading::takes(t, "stats.videoCount", reading::below(json::field(t, "stats"@), "videoCount"@)),
{
    lemma_path_stats_to_videocount(t);
    reading::lemma_taken(t, "stats.videoCount", reading::below(json::field(t, "stats"@), "videoCount"@));
}

/// The path leads to one place.
pub proof fn lemma_at_videocounttext(t: Tree)
    ensures
        reading::takes(t, "videoCountText", json::field(t, "videoCountText"@)),
{
    lemma_path_videocounttext(t);
    reading::lemma_taken(t, "videoCountText", json::field(t, "videoCountText"@));
}

/// The path leads to one place.
pub proof fn lemma_at_continuationtoken(t: Tree)
    ensures
        reading::takes(t, "continuationToken", json::field(t, "continuationToken"@)),
{
    lemma_path_continuationtoken(t);
    reading::lemma_taken(t, "continuationToken", json::field(t, "continuationToken"@));
}

/// The path leads to one place.
pub proof fn lemma_at_max_cursor(t: Tree)
    ensures
        reading::takes(t, "max_cursor", json::field(t, "max_cursor"@)),
{
    lemma_path_max_cursor(t);
    reading::lemma_taken(t, "max_cursor", json::field(t, "max_cursor"@));
}

/// The path leads to one place.
pub proof fn lemma_at_paging_info_to_max_id(t: Tree)
    ensures
        reading::takes(t, "paging_info.max_id", reading::below(json::field(t, "paging_info"@), "max_id"@)),
{
    lemma_path_paging_info_to_max_id(t);
    reading::lemma_taken(t, "paging_info.max_id", reading::below(json::field(t, "paging_info"@), "max_id"@));
}

/// The path leads to one place.
pub proof fn lemma_at_aweme_detail_to_video_to_play_addr_to_url_list_to_0(t: Tree)
    ensures
        reading::takes(t, "aweme_detail.video.play_addr.url_list.0", reading::first_in(reading::below(reading::below(reading::below(json::field(t, "aweme_detail"@), "video"@), "play_addr"@), "url_list"@))),
{
    lemma_path_aweme_detail_to_video_to_play_addr_to_url_list_to_0(t);
    reading::lemma_taken(t, "aweme_detail.video.play_addr.url_list.0", reading::first_in(reading::below(reading::below(reading::below(json::field(t, "aweme_detail"@), "video"@), "play_addr"@), "url_list"@)));
}

/// The path leads to one place.
pub proof fn lemma_at_data_to_xdt_shortcode_media_to_video_url(t: Tree)
    ensures
        reading::takes(t, "data.xdt_shortcode_media.video_url", reading::below(reading::below(json::field(t, "data"@), "xdt_shortcode_media"@), "video_url"@)),
{
    lemma_path_data_to_xdt_shortcode_media_to_video_url(t);
    reading::lemma_taken(t, "data.xdt_shortcode_media.video_url", reading::below(reading::below(json::field(t, "data"@), "xdt_shortcode_media"@), "video_url"@));
}

/// Where an answer of Instagram holds the post.
pub open spec fn instagram_post(t: Tree) -> Seq<Option<Tree>> {
    seq![
        reading::below(json::field(t, "data"@), "xdt_shortcode_media"@),
        json::field(t, "data"@),
        reading::first_in(json::field(t, "items"@)),
        json::field(t, "post"@),
    ]
}

/// The paths lead to these places, in this order.
pub proof fn lemma_instagram_post(t: Tree)
    ensures
        reading::picks(t, ["data.xdt_shortcode_media", "data", "items.0", "post"]@, instagram_post(t)),
{
    lemma_path_data_to_xdt_shortcode_media(t);
    lemma_path_data(t);
    lemma_path_items_to_0(t);
    lemma_path_post(t);
    reading::lemma_picked(t, ["data.xdt_shortcode_media", "data", "items.0", "post"]@, instagram_post(t));
}

/// Where a post holds its title.
pub open spec fn instagram_title(t: Tree) -> Seq<Option<Tree>> {
    seq![
        reading::below(json::field(t, "caption"@), "text"@),
        json::field(t, "caption"@),
        reading::below(reading::below(reading::first_in(reading::below(json::field(t, "edge_media_to_caption"@), "edges"@)), "node"@), "text"@),
    ]
}

/// The paths lead to these places, in this order.
pub proof fn lemma_instagram_title(t: Tree)
    ensures
        reading::picks(t, ["caption.text", "caption", "edge_media_to_caption.edges.0.node.text"]@, instagram_title(t)),
{
    lemma_path_caption_to_text(t);
    lemma_path_caption(t);
    lemma_path_edge_media_to_caption_to_edges_to_0_to_node_to_text(t);
    reading::lemma_picked(t, ["caption.text", "caption", "edge_media_to_caption.edges.0.node.text"]@, instagram_title(t));
}

/// Where a post holds its owner's handle.
pub open spec fn owner_handle(t: Tree) -> Seq<Option<Tree>> {
    seq![
        reading::below(json::field(t, "owner"@), "username"@),
        reading::below(json::field(t, "user"@), "username"@),
    ]
}

/// The paths lead to these places, in this order.
pub proof fn lemma_owner_handle(t: Tree)
    ensures
        reading::picks(t, ["owner.username", "user.username"]@, owner_handle(t)),
{
    lemma_path_owner_to_username(t);
    lemma_path_user_to_username(t);
    reading::lemma_picked(t, ["owner.username", "user.username"]@, owner_handle(t));
}

/// Where a post holds its owner's name.
pub open spec fn owner_name(t: Tree) -> Seq<Option<Tree>> {
    seq![
        reading::below(json::field(t, "owner"@), "full_name"@),
        reading::below(json::field(t, "user"@), "full_name"@),
    ]
}

/// The paths lead to these places, in this order.
pub proof fn lemma_owner_name(t: Tree)
    ensures
        reading::picks(t, ["owner.full_name", "user.full_name"]@, owner_name(t)),
{
    lemma_path_owner_to_full_name(t);
    lemma_path_user_to_full_name(t);
    reading::lemma_picked(t, ["owner.full_name", "user.full_name"]@, owner_name(t));
}

/// Where a post holds the moment at which it was taken.
pub open spec fn taken_at_first(t: Tree) -> Seq<Option<Tree>> {
    seq![
        json::field(t, "taken_at_timestamp"@),
        json::field(t, "taken_at"@),
    ]
}

/// The paths lead to these places, in this order.
pub proof fn lemma_taken_at_first(t: Tree)
    ensures
        reading::picks(t, ["taken_at_timestamp", "taken_at"]@, taken_at_first(t)),
{
    lemma_path_taken_at_timestamp(t);
    lemma_path_taken_at(t);
    reading::lemma_picked(t, ["taken_at_timestamp", "taken_at"]@, taken_at_first(t));
}

/// Where a post holds how often it was played.
pub open spec fn plays(t: Tree) -> Seq<Option<Tree>> {
    seq![
        json::field(t, "video_play_count"@),
        json::field(t, "play_count"@),
        json::field(t, "video_view_count"@),
    ]
}

/// The paths lead to these places, in this order.
pub proof fn lemma_plays(t: Tree)
    ensures
        reading::picks(t, ["video_play_count", "play_count", "video_view_count"]@, plays(t)),
{
    lemma_path_video_play_count(t);
    lemma_path_play_count(t);
    lemma_path_video_view_count(t);
    reading::lemma_picked(t, ["video_play_count", "play_count", "video_view_count"]@, plays(t));
}

/// Where a post holds how many like it.
pub open spec fn likes_or_edge(t: Tree) -> Seq<Option<Tree>> {
    seq![
        json::field(t, "like_count"@),
        reading::below(json::field(t, "edge_media_preview_like"@), "count"@),
    ]
}

/// The paths lead to these places, in this order.
pub proof fn lemma_likes_or_edge(t: Tree)
    ensures
        reading::picks(t, ["like_count", "edge_media_preview_like.count"]@, likes_or_edge(t)),
{
    lemma_path_like_count(t);
    lemma_path_edge_media_preview_like_to_count(t);
    reading::lemma_picked(t, ["like_count", "edge_media_preview_like.count"]@, likes_or_edge(t));
}

/// Where a post holds how many comments it has.
pub open spec fn comments_or_edge(t: Tree) -> Seq<Option<Tree>> {
    seq![
        json::field(t, "comment_count"@),
        reading::below(json::field(t, "edge_media_to_comment"@), "count"@),
    ]
}

/// The paths lead to these places, in this order.
pub proof fn lemma_comments_or_edge(t: Tree)
    ensures
        reading::picks(t, ["comment_count", "edge_media_to_comment.count"]@, comments_or_edge(t)),
{
    lemma_path_comment_count(t);
    lemma_path_edge_media_to_comment_to_count(t);
    reading::lemma_picked(t, ["comment_count", "edge_media_to_comment.count"]@, comments_or_edge(t));
}

/// Where a post holds its caption.
pub open spec fn caption(t: Tree) -> Seq<Option<Tree>> {
    seq![
        reading::below(json::field(t, "caption"@), "text"@),
        json::field(t, "caption"@),
    ]
}

/// The paths lead to these places, in this order.
pub proof fn lemma_caption(t: Tree)
    ensures
        reading::picks(t, ["caption.text", "caption"]@, caption(t)),
{
    lemma_path_caption_to_text(t);
    lemma_path_caption(t);
    reading::lemma_picked(t, ["caption.text", "caption"]@, caption(t));
}

/// Where an answer holds the text of a transcript.
pub open spec fn transcript_text(t: Tree) -> Seq<Option<Tree>> {
    seq![
        json::field(t, "transcript_only_text"@),
        json::field(t, "text"@),
        json::field(t, "transcript_text"@),
    ]
}

/// The paths lead to these places, in this order.
pub proof fn lemma_transcript_text(t: Tree)
    ensures
        reading::picks(t, ["transcript_only_text", "text", "transcript_text"]@, transcript_text(t)),
{
    lemma_path_transcript_only_text(t);
    lemma_path_text(t);
    lemma_path_transcript_text(t);
    reading::lemma_picked(t, ["transcript_only_text", "text", "transcript_text"]@, transcript_text(t));
}

/// Where a comment holds its text.
pub open spec fn comment_text(t: Tree) -> Seq<Option<Tree>> {
    seq![
        json::field(t, "content"@),
        json::field(t, "text"@),
        json::field(t, "comment"@),
    ]
}

/// The paths lead to these places, in this order.
pub proof fn lemma_comment_text(t: Tree)
    ensures
        reading::picks(t, ["content", "text", "comment"]@, comment_text(t)),
{
    lemma_path_content(t);
    lemma_path_text(t);
    lemma_path_comment(t);
    reading::lemma_picked(t, ["content", "text", "comment"]@, comment_text(t));
}

/// Where a comment holds its identifier.
pub open spec fn comment_id(t: Tree) -> Seq<Option<Tree>> {
    seq![
        json::field(t, "id"@),
        json::field(t, "cid"@),
    ]
}

/// The paths lead to these places, in this order.
pub proof fn lemma_comment_id(t: Tree)
    ensures
        reading::picks(t, ["id", "cid"]@, comment_id(t)),
{
    lemma_path_id(t);
    lemma_path_cid(t);
    reading::lemma_picked(t, ["id", "cid"]@, comment_id(t));
}

/// Where a comment holds who wrote it.
pub open spec fn comment_author(t: Tree) -> Seq<Option<Tree>> {
    seq![
        reading::below(json::field(t, "author"@), "name"@),
        reading::below(json::field(t, "user"@), "nickname"@),
        reading::below(json::field(t, "user"@), "username"@),
        reading::below(json::field(t, "owner"@), "username"@),
    ]
}

/// The paths lead to these places, in this order.
pub proof fn lemma_comment_author(t: Tree)
    ensures
        reading::picks(t, ["author.name", "user.nickname", "user.username", "owner.username"]@, comment_author(t)),
{
    lemma_path_author_to_name(t);
    lemma_path_user_to_nickname(t);
    lemma_path_user_to_username(t);
    lemma_path_owner_to_username(t);
    reading::lemma_picked(t, ["author.name", "user.nickname", "user.username", "owner.username"]@, comment_author(t));
}

/// Where a comment holds how many like it.
pub open spec fn comment_likes(t: Tree) -> Seq<Option<Tree>> {
    seq![
        reading::below(json::field(t, "engagement"@), "likes"@),
        json::field(t, "digg_count"@),
        json::field(t, "like_count"@),
    ]
}

/// The paths lead to these places, in this order.
pub proof fn lemma_comment_likes(t: Tree)
    ensures
        reading::picks(t, ["engagement.likes", "digg_count", "like_count"]@, comment_likes(t)),
{
    lemma_path_engagement_to_likes(t);
    lemma_path_digg_count(t);
    lemma_path_like_count(t);
    reading::lemma_picked(t, ["engagement.likes", "digg_count", "like_count"]@, comment_likes(t));
}

/// Where a listed video holds its channel's name.
pub open spec fn channel_name(t: Tree) -> Seq<Option<Tree>> {
    seq![
        reading::below(json::field(t, "channel"@), "title"@),
        reading::below(json::field(t, "channel"@), "name"@),
    ]
}

/// The paths lead to these places, in this order.
pub proof fn lemma_channel_name(t: Tree)
    ensures
        reading::picks(t, ["channel.title", "channel.name"]@, channel_name(t)),
{
    lemma_path_channel_to_title(t);
    lemma_path_channel_to_name(t);
    reading::lemma_picked(t, ["channel.title", "channel.name"]@, channel_name(t));
}

/// Where a listed video holds its channel's identifier.
pub open spec fn channel_id(t: Tree) -> Seq<Option<Tree>> {
    seq![
        reading::below(json::field(t, "channel"@), "id"@),
        json::field(t, "channelId"@),
    ]
}

/// The paths lead to these places, in this order.
pub proof fn lemma_channel_id(t: Tree)
    ensures
        reading::picks(t, ["channel.id", "channelId"]@, channel_id(t)),
{
    lemma_path_channel_to_id(t);
    lemma_path_channelid(t);
    reading::lemma_picked(t, ["channel.id", "channelId"]@, channel_id(t));
}

/// Where a listed post holds its code.
pub open spec fn code(t: Tree) -> Seq<Option<Tree>> {
    seq![
        json::field(t, "code"@),
        json::field(t, "shortcode"@),
    ]
}

/// The paths lead to these places, in this order.
pub proof fn lemma_code(t: Tree)
    ensures
        reading::picks(t, ["code", "shortcode"]@, code(t)),
{
    lemma_path_code(t);
    lemma_path_shortcode(t);
    reading::lemma_picked(t, ["code", "shortcode"]@, code(t));
}

/// Where a listed post holds its owner's name.
pub open spec fn user_name(t: Tree) -> Seq<Option<Tree>> {
    seq![
        reading::below(json::field(t, "user"@), "full_name"@),
        reading::below(json::field(t, "owner"@), "full_name"@),
    ]
}

/// The paths lead to these places, in this order.
pub proof fn lemma_user_name(t: Tree)
    ensures
        reading::picks(t, ["user.full_name", "owner.full_name"]@, user_name(t)),
{
    lemma_path_user_to_full_name(t);
    lemma_path_owner_to_full_name(t);
    reading::lemma_picked(t, ["user.full_name", "owner.full_name"]@, user_name(t));
}

/// Where a listed post holds its owner's handle.
pub open spec fn user_handle(t: Tree) -> Seq<Option<Tree>> {
    seq![
        reading::below(json::field(t, "user"@), "username"@),
        reading::below(json::field(t, "owner"@), "username"@),
    ]
}

/// The paths lead to these places, in this order.
pub proof fn lemma_user_handle(t: Tree)
    ensures
        reading::picks(t, ["user.username", "owner.username"]@, user_handle(t)),
{
    lemma_path_user_to_username(t);
    lemma_path_owner_to_username(t);
    reading::lemma_picked(t, ["user.username", "owner.username"]@, user_handle(t));
}

/// Where a listed post holds its owner's identifier.
pub open spec fn user_id(t: Tree) -> Seq<Option<Tree>> {
    seq![
        reading::below(json::field(t, "user"@), "pk"@),
        reading::below(json::field(t, "user"@), "id"@),
        reading::below(json::field(t, "owner"@), "id"@),
    ]
}

/// The paths lead to these places, in this order.
pub proof fn lemma_user_id(t: Tree)
    ensures
        reading::picks(t, ["user.pk", "user.id", "owner.id"]@, user_id(t)),
{
    lemma_path_user_to_pk(t);
    lemma_path_user_to_id(t);
    lemma_path_owner_to_id(t);
    reading::lemma_picked(t, ["user.pk", "user.id", "owner.id"]@, user_id(t));
}

/// Where a listed post holds how often it was played.
pub open spec fn listed_plays(t: Tree) -> Seq<Option<Tree>> {
    seq![
        json::field(t, "play_count"@),
        json::field(t, "video_play_count"@),
        json::field(t, "view_count"@),
    ]
}

/// The paths lead to these places, in this order.
pub proof fn lemma_listed_plays(t: Tree)
    ensures
        reading::picks(t, ["play_count", "video_play_count", "view_count"]@, listed_plays(t)),
{
    lemma_path_play_count(t);
    lemma_path_video_play_count(t);
    lemma_path_view_count(t);
    reading::lemma_picked(t, ["play_count", "video_play_count", "view_count"]@, listed_plays(t));
}

/// Where a listed post holds the moment at which it was taken.
pub open spec fn taken_at_listed(t: Tree) -> Seq<Option<Tree>> {
    seq![
        json::field(t, "taken_at"@),
        json::field(t, "taken_at_timestamp"@),
    ]
}

/// The paths lead to these places, in this order.
pub proof fn lemma_taken_at_listed(t: Tree)
    ensures
        reading::picks(t, ["taken_at", "taken_at_timestamp"]@, taken_at_listed(t)),
{
    lemma_path_taken_at(t);
    lemma_path_taken_at_timestamp(t);
    reading::lemma_picked(t, ["taken_at", "taken_at_timestamp"]@, taken_at_listed(t));
}

/// Where an answer holds a creator.
pub open spec fn creator(t: Tree) -> Seq<Option<Tree>> {
    seq![
        json::field(t, "user_info"@),
        json::field(t, "user"@),
        reading::below(json::field(t, "data"@), "user"@),
    ]
}

/// The paths lead to these places, in this order.
pub proof fn lemma_creator(t: Tree)
    ensures
        reading::picks(t, ["user_info", "user", "data.user"]@, creator(t)),
{
    lemma_path_user_info(t);
    lemma_path_user(t);
    lemma_path_data_to_user(t);
    reading::lemma_picked(t, ["user_info", "user", "data.user"]@, creator(t));
}

/// Where a creator holds their handle.
pub open spec fn creator_handle(t: Tree) -> Seq<Option<Tree>> {
    seq![
        json::field(t, "handle"@),
        json::field(t, "unique_id"@),
        json::field(t, "uniqueId"@),
        json::field(t, "username"@),
        json::field(t, "channel"@),
    ]
}

/// The paths lead to these places, in this order.
pub proof fn lemma_creator_handle(t: Tree)
    ensures
        reading::picks(t, ["handle", "unique_id", "uniqueId", "username", "channel"]@, creator_handle(t)),
{
    lemma_path_handle(t);
    lemma_path_unique_id(t);
    lemma_path_uniqueid(t);
    lemma_path_username(t);
    lemma_path_channel(t);
    reading::lemma_picked(t, ["handle", "unique_id", "uniqueId", "username", "channel"]@, creator_handle(t));
}

/// Where a creator holds their identifier.
pub open spec fn creator_id(t: Tree) -> Seq<Option<Tree>> {
    seq![
        json::field(t, "id"@),
        json::field(t, "channelId"@),
        json::field(t, "uid"@),
        json::field(t, "pk"@),
    ]
}

/// The paths lead to these places, in this order.
pub proof fn lemma_creator_id(t: Tree)
    ensures
        reading::picks(t, ["id", "channelId", "uid", "pk"]@, creator_id(t)),
{
    lemma_path_id(t);
    lemma_path_channelid(t);
    lemma_path_uid(t);
    lemma_path_pk(t);
    reading::lemma_picked(t, ["id", "channelId", "uid", "pk"]@, creator_id(t));
}

/// Where a creator holds their name.
pub open spec fn creator_name(t: Tree) -> Seq<Option<Tree>> {
    seq![
        json::field(t, "channelName"@),
        json::field(t, "name"@),
        json::field(t, "nickname"@),
        json::field(t, "full_name"@),
        json::field(t, "title"@),
    ]
}

/// The paths lead to these places, in this order.
pub proof fn lemma_creator_name(t: Tree)
    ensures
        reading::picks(t, ["channelName", "name", "nickname", "full_name", "title"]@, creator_name(t)),
{
    lemma_path_channelname(t);
    lemma_path_name(t);
    lemma_path_nickname(t);
    lemma_path_full_name(t);
    lemma_path_title(t);
    reading::lemma_picked(t, ["channelName", "name", "nickname", "full_name", "title"]@, creator_name(t));
}

/// Where a creator holds what they say of themselves.
pub open spec fn creator_bio(t: Tree) -> Seq<Option<Tree>> {
    seq![
        json::field(t, "description"@),
        json::field(t, "signature"@),
        json::field(t, "biography"@),
    ]
}

/// The paths lead to these places, in this order.
pub proof fn lemma_creator_bio(t: Tree)
    ensures
        reading::picks(t, ["description", "signature", "biography"]@, creator_bio(t)),
{
    lemma_path_description(t);
    lemma_path_signature(t);
    lemma_path_biography(t);
    reading::lemma_picked(t, ["description", "signature", "biography"]@, creator_bio(t));
}

/// Where a creator holds how many follow them.
pub open spec fn followers(t: Tree) -> Seq<Option<Tree>> {
    seq![
        json::field(t, "subscriberCountInt"@),
        json::field(t, "subscriberCount"@),
        json::field(t, "follower_count"@),
        reading::below(json::field(t, "edge_followed_by"@), "count"@),
    ]
}

/// The paths lead to these places, in this order.
pub proof fn lemma_followers(t: Tree)
    ensures
        reading::picks(t, ["subscriberCountInt", "subscriberCount", "follower_count", "edge_followed_by.count"]@, followers(t)),
{
    lemma_path_subscribercountint(t);
    lemma_path_subscribercount(t);
    lemma_path_follower_count(t);
    lemma_path_edge_followed_by_to_count(t);
    reading::lemma_picked(t, ["subscriberCountInt", "subscriberCount", "follower_count", "edge_followed_by.count"]@, followers(t));
}

/// Where an answer holds, beside the creator, how many follow them.
pub open spec fn stats_followers(t: Tree) -> Seq<Option<Tree>> {
    seq![
        reading::below(json::field(t, "stats"@), "followerCount"@),
        reading::below(json::field(t, "statsV2"@), "followerCount"@),
    ]
}

/// The paths lead to these places, in this order.
pub proof fn lemma_stats_followers(t: Tree)
    ensures
        reading::picks(t, ["stats.followerCount", "statsV2.followerCount"]@, stats_followers(t)),
{
    lemma_path_stats_to_followercount(t);
    lemma_path_statsv2_to_followercount(t);
    reading::lemma_picked(t, ["stats.followerCount", "statsV2.followerCount"]@, stats_followers(t));
}

/// Where a creator holds how many videos they have.
pub open spec fn media_count(t: Tree) -> Seq<Option<Tree>> {
    seq![
        json::field(t, "media_count"@),
        reading::below(json::field(t, "edge_owner_to_timeline_media"@), "count"@),
    ]
}

/// The paths lead to these places, in this order.
pub proof fn lemma_media_count(t: Tree)
    ensures
        reading::picks(t, ["media_count", "edge_owner_to_timeline_media.count"]@, media_count(t)),
{
    lemma_path_media_count(t);
    lemma_path_edge_owner_to_timeline_media_to_count(t);
    reading::lemma_picked(t, ["media_count", "edge_owner_to_timeline_media.count"]@, media_count(t));
}

} // verus!
