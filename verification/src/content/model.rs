//! The records of the program. They belong to no platform and to no supplier:
//! what a platform calls its fields is known in `ingest` alone.

use vstd::prelude::*;
use crate::ingest::url::Platform;
use crate::json;
use crate::json::{boolean, entry, integer, object, string, Json, NumTree, Tree};
use crate::outside;
use crate::outside::{clock, fresh_uuid, parse_rfc3339};
use crate::text;
use crate::text::{copy_opt, same};

verus! {

/// What is known of a video. Times are in seconds since 1970.
#[derive(Debug, Clone)]
pub struct Video {
    /// The identifier under which the video is stored.
    pub id: String,
    pub platform: Platform,
    /// The identifier of the video on its platform.
    pub native_id: String,
    pub url: String,
    pub title: Option<String>,
    pub author_handle: Option<String>,
    pub author_name: Option<String>,
    pub duration_sec: Option<i64>,
    pub published_at: Option<i64>,
    pub view_count: Option<i64>,
    pub like_count: Option<i64>,
    pub comment_count: Option<i64>,
    pub description: Option<String>,
    pub fetched_at: i64,
}

/// What is said in a video.
#[derive(Debug, Clone)]
pub struct Transcript {
    pub video_id: String,
    pub text: String,
    /// Where the text comes from: `sc` for the scraping service.
    pub source: String,
    pub lang: Option<String>,
    pub fetched_at: i64,
}

/// A comment on a video.
#[derive(Debug, Clone)]
pub struct Comment {
    pub id: String,
    pub video_id: String,
    pub author: Option<String>,
    pub text: String,
    pub like_count: Option<i64>,
    pub published_at: Option<i64>,
}

/// A number that may be missing.
pub open spec fn opt_int(n: Option<i64>) -> Option<int> {
    match n {
        Some(k) => Some(k as int),
        None => None,
    }
}

/// What a record of a video says.
pub struct VideoView {
    pub id: Seq<char>,
    pub platform: Platform,
    pub native_id: Seq<char>,
    pub url: Seq<char>,
    pub title: Option<Seq<char>>,
    pub author_handle: Option<Seq<char>>,
    pub author_name: Option<Seq<char>>,
    pub duration_sec: Option<int>,
    pub published_at: Option<int>,
    pub view_count: Option<int>,
    pub like_count: Option<int>,
    pub comment_count: Option<int>,
    pub description: Option<Seq<char>>,
    pub fetched_at: int,
}

impl Video {
    pub open spec fn view(&self) -> VideoView {
        VideoView {
            id: self.id@,
            platform: self.platform,
            native_id: self.native_id@,
            url: self.url@,
            title: text::opt(self.title),
            author_handle: text::opt(self.author_handle),
            author_name: text::opt(self.author_name),
            duration_sec: opt_int(self.duration_sec),
            published_at: opt_int(self.published_at),
            view_count: opt_int(self.view_count),
            like_count: opt_int(self.like_count),
            comment_count: opt_int(self.comment_count),
            description: text::opt(self.description),
            fetched_at: self.fetched_at as int,
        }
    }
}

impl Video {
    /// The same record, under an identifier.
    pub fn under(&self, id: &str) -> (r: Video)
        ensures
            r@ == (VideoView { id: id@, ..self@ }),
    {
        Video {
            id: id.to_owned(),
            platform: self.platform,
            native_id: self.native_id.clone(),
            url: self.url.clone(),
            title: copy_opt(&self.title),
            author_handle: copy_opt(&self.author_handle),
            author_name: copy_opt(&self.author_name),
            duration_sec: self.duration_sec,
            published_at: self.published_at,
            view_count: self.view_count,
            like_count: self.like_count,
            comment_count: self.comment_count,
            description: copy_opt(&self.description),
            fetched_at: self.fetched_at,
        }
    }
}

/// What a transcript says.
pub struct TranscriptView {
    pub video_id: Seq<char>,
    pub text: Seq<char>,
    pub source: Seq<char>,
    pub lang: Option<Seq<char>>,
    pub fetched_at: int,
}

impl Transcript {
    pub open spec fn view(&self) -> TranscriptView {
        TranscriptView {
            video_id: self.video_id@,
            text: self.text@,
            source: self.source@,
            lang: text::opt(self.lang),
            fetched_at: self.fetched_at as int,
        }
    }
}

impl Transcript {
    /// The same transcript, of a video with an identifier.
    pub fn under(&self, video_id: &str) -> (r: Transcript)
        ensures
            r@ == (TranscriptView { video_id: video_id@, ..self@ }),
    {
        Transcript {
            video_id: video_id.to_owned(),
            text: self.text.clone(),
            source: self.source.clone(),
            lang: copy_opt(&self.lang),
            fetched_at: self.fetched_at,
        }
    }
}

/// A transcript that may be missing.
pub open spec fn opt_transcript(t: Option<Transcript>) -> Option<TranscriptView> {
    match t {
        Some(x) => Some(x@),
        None => None,
    }
}

/// What a comment says.
pub struct CommentView {
    pub id: Seq<char>,
    pub video_id: Seq<char>,
    pub author: Option<Seq<char>>,
    pub text: Seq<char>,
    pub like_count: Option<int>,
    pub published_at: Option<int>,
}

impl Comment {
    pub open spec fn view(&self) -> CommentView {
        CommentView {
            id: self.id@,
            video_id: self.video_id@,
            author: text::opt(self.author),
            text: self.text@,
            like_count: opt_int(self.like_count),
            published_at: opt_int(self.published_at),
        }
    }
}

impl Comment {
    /// The same comment, on a video with an identifier.
    pub fn under(&self, video_id: &str) -> (r: Comment)
        ensures
            r@ == (CommentView { video_id: video_id@, ..self@ }),
    {
        Comment {
            id: self.id.clone(),
            video_id: video_id.to_owned(),
            author: copy_opt(&self.author),
            text: self.text.clone(),
            like_count: self.like_count,
            published_at: self.published_at,
        }
    }
}

/// What a list of comments says.
pub open spec fn comments_view(v: Seq<Comment>) -> Seq<CommentView> {
    Seq::new(v.len(), |i: int| v[i]@)
}

/// How the call of an endpoint ended. An endpoint that answered that there is
/// nothing is `Unavailable`; of one that did not answer, `Failed`, nothing is
/// known, and what was stored before has to stay.
#[derive(Debug, Clone, Copy, PartialEq, Eq, Structural)]
pub enum FetchStatus {
    Success,
    Unavailable,
    Failed,
}

/// The name of a status in the database.
pub open spec fn fetch_status_name(s: FetchStatus) -> Seq<char> {
    match s {
        FetchStatus::Success => "ok"@,
        FetchStatus::Unavailable => "unavailable"@,
        FetchStatus::Failed => "failed"@,
    }
}

impl FetchStatus {
    /// The name under which the status is stored.
    pub fn as_str(&self) -> (r: &'static str)
        ensures
            r@ == fetch_status_name(*self),
    {
        match self {
            FetchStatus::Success => "ok",
            FetchStatus::Unavailable => "unavailable",
            FetchStatus::Failed => "failed",
        }
    }

    /// Whether it is known what there is, so that it may replace what was
    /// stored before.
    pub fn is_conclusive(&self) -> (r: bool)
        ensures
            r == (*self != FetchStatus::Failed),
    {
        match self {
            FetchStatus::Success | FetchStatus::Unavailable => true,
            FetchStatus::Failed => false,
        }
    }

    /// The status that is stored under a name. An unknown name counts as a
    /// failure, which replaces nothing.
    pub fn from_db(s: &str) -> (r: FetchStatus)
        ensures
            r == (if s@ == "ok"@ {
                FetchStatus::Success
            } else if s@ == "unavailable"@ {
                FetchStatus::Unavailable
            } else {
                FetchStatus::Failed
            }),
            forall|f: FetchStatus| s@ == #[trigger] fetch_status_name(f) ==> r == f,
    {
        proof {
            reveal_strlit("ok");
            reveal_strlit("unavailable");
            reveal_strlit("failed");
            assert("ok"@[0] != "unavailable"@[0] && "ok"@[0] != "failed"@[0]);
            assert("unavailable"@[0] != "failed"@[0]);
        }
        if same(s, "ok") {
            FetchStatus::Success
        } else if same(s, "unavailable") {
            FetchStatus::Unavailable
        } else {
            FetchStatus::Failed
        }
    }
}

/// What an endpoint answers: the video itself, what is said in it, or what is
/// said about it.
#[derive(Debug, Clone, Copy, PartialEq, Eq, Structural)]
pub enum ArtifactKind {
    Detail,
    Transcript,
    Comments,
}

/// The name of a kind in the database.
pub open spec fn artifact_kind_name(k: ArtifactKind) -> Seq<char> {
    match k {
        ArtifactKind::Detail => "detail"@,
        ArtifactKind::Transcript => "transcript"@,
        ArtifactKind::Comments => "comments"@,
    }
}

/// The name of a kind for people.
pub open spec fn artifact_kind_label(k: ArtifactKind) -> Seq<char> {
    match k {
        ArtifactKind::Detail => "视频详情"@,
        ArtifactKind::Transcript => "文字稿"@,
        ArtifactKind::Comments => "评论"@,
    }
}

impl ArtifactKind {
    /// The name under which the kind is stored.
    pub fn as_str(&self) -> (r: &'static str)
        ensures
            r@ == artifact_kind_name(*self),
    {
        match self {
            ArtifactKind::Detail => "detail",
            ArtifactKind::Transcript => "transcript",
            ArtifactKind::Comments => "comments",
        }
    }

    /// The kind that is stored under a name.
    pub fn from_db(s: &str) -> (r: Option<ArtifactKind>)
        ensures
            match r {
                Some(k) => s@ == artifact_kind_name(k),
                None => forall|k: ArtifactKind| s@ != #[trigger] artifact_kind_name(k),
            },
    {
        if same(s, "detail") {
            Some(ArtifactKind::Detail)
        } else if same(s, "transcript") {
            Some(ArtifactKind::Transcript)
        } else if same(s, "comments") {
            Some(ArtifactKind::Comments)
        } else {
            None
        }
    }

    /// The name of the kind for people.
    pub fn label(&self) -> (r: &'static str)
        ensures
            r@ == artifact_kind_label(*self),
    {
        match self {
            ArtifactKind::Detail => "视频详情",
            ArtifactKind::Transcript => "文字稿",
            ArtifactKind::Comments => "评论",
        }
    }
}

/// No two kinds share a name, so a name that was stored reads back as the kind
/// it was stored for.
pub proof fn law_artifact_kind_names_differ(a: ArtifactKind, b: ArtifactKind)
    requires
        artifact_kind_name(a) == artifact_kind_name(b),
    ensures
        a == b,
{
    reveal_strlit("detail");
    reveal_strlit("transcript");
    reveal_strlit("comments");
    assert("detail"@[0] != "transcript"@[0]);
    assert("detail"@[0] != "comments"@[0]);
    assert("transcript"@[0] != "comments"@[0]);
}

/// The record of one call of an endpoint. The answer is kept as it came.
#[derive(Debug, Clone)]
pub struct Artifact {
    pub kind: ArtifactKind,
    pub status: FetchStatus,
    pub raw_json: Option<String>,
    pub error: Option<String>,
    pub fetched_at: i64,
}

/// What the record of a call says.
pub struct ArtifactView {
    pub kind: ArtifactKind,
    pub status: FetchStatus,
    pub raw_json: Option<Seq<char>>,
    pub error: Option<Seq<char>>,
    pub fetched_at: int,
}

impl Artifact {
    pub open spec fn view(&self) -> ArtifactView {
        ArtifactView {
            kind: self.kind,
            status: self.status,
            raw_json: text::opt(self.raw_json),
            error: text::opt(self.error),
            fetched_at: self.fetched_at as int,
        }
    }

    /// The same record.
    pub fn copy(&self) -> (r: Artifact)
        ensures
            r@ == self@,
    {
        Artifact {
            kind: self.kind,
            status: self.status,
            raw_json: copy_opt(&self.raw_json),
            error: copy_opt(&self.error),
            fetched_at: self.fetched_at,
        }
    }

    /// An endpoint answered with content.
    pub fn ok(kind: ArtifactKind, raw: String) -> (r: Self)
        ensures
            r.kind == kind,
            r.status == FetchStatus::Success,
            r.raw_json == Some(raw),
            r.error is None,
            is_present(r.fetched_at),
    {
        Artifact {
            kind,
            status: FetchStatus::Success,
            raw_json: Some(raw),
            error: None,
            fetched_at: now_ts(),
        }
    }

    /// An endpoint answered that there is no content.
    pub fn unavailable(kind: ArtifactKind, raw: String) -> (r: Self)
        ensures
            r.kind == kind,
            r.status == FetchStatus::Unavailable,
            r.raw_json == Some(raw),
            r.error is None,
            is_present(r.fetched_at),
    {
        Artifact {
            kind,
            status: FetchStatus::Unavailable,
            raw_json: Some(raw),
            error: None,
            fetched_at: now_ts(),
        }
    }

    /// An endpoint did not answer.
    pub fn failed(kind: ArtifactKind, err: String) -> (r: Self)
        ensures
            r.kind == kind,
            r.status == FetchStatus::Failed,
            r.raw_json is None,
            r.error == Some(err),
            is_present(r.fetched_at),
    {
        Artifact {
            kind,
            status: FetchStatus::Failed,
            raw_json: None,
            error: Some(err),
            fetched_at: now_ts(),
        }
    }
}

/// What records of calls say.
pub open spec fn artifacts_view(v: Seq<Artifact>) -> Seq<ArtifactView> {
    Seq::new(v.len(), |i: int| v[i]@)
}

/// All that was fetched of one video, with the record of each endpoint.
#[derive(Debug, Clone)]
pub struct FetchedVideo {
    pub video: Video,
    pub transcript: Option<Transcript>,
    pub comments: Vec<Comment>,
    pub artifacts: Vec<Artifact>,
}

/// The status of the first record of a kind from `k` on. A call of which there
/// is no record counts as failed.
pub open spec fn status_from(v: Seq<Artifact>, kind: ArtifactKind, k: int) -> FetchStatus
    decreases v.len() - k,
{
    if k < 0 || k >= v.len() {
        FetchStatus::Failed
    } else if v[k].kind == kind {
        v[k].status
    } else {
        status_from(v, kind, k + 1)
    }
}

impl FetchedVideo {
    /// How the call of an endpoint ended.
    pub fn status_of(&self, kind: ArtifactKind) -> (r: FetchStatus)
        ensures
            r == status_from(self.artifacts@, kind, 0),
    {
        let mut i: usize = 0;
        while i < self.artifacts.len()
            invariant
                i <= self.artifacts@.len(),
                status_from(self.artifacts@, kind, 0) == status_from(
                    self.artifacts@,
                    kind,
                    i as int,
                ),
            decreases self.artifacts@.len() - i,
        {
            if self.artifacts[i].kind == kind {
                return self.artifacts[i].status;
            }
            i = i + 1;
        }
        FetchStatus::Failed
    }
}

/// Whether a time is one that the clock showed.
pub closed spec fn is_present(t: i64) -> bool {
    call_ensures(clock, (), t)
}

/// The present, in seconds since 1970.
pub fn now_ts() -> (r: i64)
    ensures
        is_present(r),
{
    let r: i64 = clock();
    assert(call_ensures(clock, (), r));
    r
}

/// Whether an identifier is one that was made anew.
pub closed spec fn is_new_id(id: Seq<char>) -> bool {
    exists|s: String| s@ == id && #[trigger] call_ensures(fresh_uuid, (), s)
}

/// A new identifier: a UUID of version 7, so that later ones come later in
/// order.
pub fn new_id() -> (r: String)
    ensures
        r@.len() == 36,
        is_new_id(r@),
{
    let r = fresh_uuid();
    assert(call_ensures(fresh_uuid, (), r));
    r
}


/// A date and time, such as `2026-03-01T14:00:18-08:00`, in seconds since 1970;
/// none where the text is no such thing.
pub fn parse_iso8601(s: &str) -> (r: Option<i64>)
    ensures
        match r {
            Some(n) => outside::rfc3339_seconds(s@) == Some(n as int),
            None => outside::rfc3339_seconds(s@) is None,
        },
{
    parse_rfc3339(s)
}

/// A video in a list, with what is needed to choose one.
#[derive(Debug, Clone, PartialEq)]
pub struct VideoSummary {
    pub platform: Platform,
    pub native_id: String,
    pub url: String,
    pub title: Option<String>,
    pub description: Option<String>,
    pub channel_name: Option<String>,
    /// For display and for further calls. Not for comparing: its form differs
    /// from endpoint to endpoint.
    pub channel_handle: Option<String>,
    /// The identifier of the channel, by which channels are told apart.
    pub channel_id: Option<String>,
    pub view_count: Option<i64>,
    pub like_count: Option<i64>,
    pub comment_count: Option<i64>,
    pub duration_sec: Option<i64>,
    pub published_at: Option<i64>,
}

/// What an entry of a list of videos says.
pub struct SummaryView {
    pub platform: Platform,
    pub native_id: Seq<char>,
    pub url: Seq<char>,
    pub title: Option<Seq<char>>,
    pub description: Option<Seq<char>>,
    pub channel_name: Option<Seq<char>>,
    pub channel_handle: Option<Seq<char>>,
    pub channel_id: Option<Seq<char>>,
    pub view_count: Option<int>,
    pub like_count: Option<int>,
    pub comment_count: Option<int>,
    pub duration_sec: Option<int>,
    pub published_at: Option<int>,
}

impl VideoSummary {
    pub open spec fn view(&self) -> SummaryView {
        SummaryView {
            platform: self.platform,
            native_id: self.native_id@,
            url: self.url@,
            title: text::opt(self.title),
            description: text::opt(self.description),
            channel_name: text::opt(self.channel_name),
            channel_handle: text::opt(self.channel_handle),
            channel_id: text::opt(self.channel_id),
            view_count: opt_int(self.view_count),
            like_count: opt_int(self.like_count),
            comment_count: opt_int(self.comment_count),
            duration_sec: opt_int(self.duration_sec),
            published_at: opt_int(self.published_at),
        }
    }
}

/// What a list of videos says.
pub open spec fn summaries_view(v: Seq<VideoSummary>) -> Seq<SummaryView> {
    Seq::new(v.len(), |i: int| v[i]@)
}

/// Somebody who publishes videos.
#[derive(Debug, Clone, PartialEq)]
pub struct Creator {
    pub platform: Platform,
    /// The identifier by which creators are told apart.
    pub id: Option<String>,
    /// For display and for further calls, without a leading `@`.
    pub handle: Option<String>,
    pub name: Option<String>,
    pub bio: Option<String>,
    pub follower_count: Option<i64>,
    pub video_count: Option<i64>,
    pub verified: Option<bool>,
}

/// What a record of a creator says.
pub struct CreatorView {
    pub platform: Platform,
    pub id: Option<Seq<char>>,
    pub handle: Option<Seq<char>>,
    pub name: Option<Seq<char>>,
    pub bio: Option<Seq<char>>,
    pub follower_count: Option<int>,
    pub video_count: Option<int>,
    pub verified: Option<bool>,
}

impl Creator {
    pub open spec fn view(&self) -> CreatorView {
        CreatorView {
            platform: self.platform,
            id: text::opt(self.id),
            handle: text::opt(self.handle),
            name: text::opt(self.name),
            bio: text::opt(self.bio),
            follower_count: opt_int(self.follower_count),
            video_count: opt_int(self.video_count),
            verified: self.verified,
        }
    }
}

/// What a list of creators says.
pub open spec fn creators_view(v: Seq<Creator>) -> Seq<CreatorView> {
    Seq::new(v.len(), |i: int| v[i]@)
}

// ---------------------------------------------------------------------------
// Conversations
// ---------------------------------------------------------------------------

/// The kinds of entries in the history of a conversation.
#[derive(Debug, Clone, Copy, PartialEq, Eq, Structural)]
pub enum ItemKind {
    UserMessage,
    AssistantMessage,
    FunctionCall,
    FunctionCallOutput,
}

/// The name of a kind in the database.
pub open spec fn item_kind_name(k: ItemKind) -> Seq<char> {
    match k {
        ItemKind::UserMessage => "user_message"@,
        ItemKind::AssistantMessage => "assistant_message"@,
        ItemKind::FunctionCall => "function_call"@,
        ItemKind::FunctionCallOutput => "function_call_output"@,
    }
}

impl ItemKind {
    /// The name under which the kind is stored.
    pub fn as_str(&self) -> (r: &'static str)
        ensures
            r@ == item_kind_name(*self),
    {
        match self {
            ItemKind::UserMessage => "user_message",
            ItemKind::AssistantMessage => "assistant_message",
            ItemKind::FunctionCall => "function_call",
            ItemKind::FunctionCallOutput => "function_call_output",
        }
    }

    /// The kind that is stored under a name.
    pub fn from_db(s: &str) -> (r: Option<ItemKind>)
        ensures
            match r {
                Some(k) => s@ == item_kind_name(k),
                None => forall|k: ItemKind| s@ != #[trigger] item_kind_name(k),
            },
    {
        if same(s, "user_message") {
            Some(ItemKind::UserMessage)
        } else if same(s, "assistant_message") {
            Some(ItemKind::AssistantMessage)
        } else if same(s, "function_call") {
            Some(ItemKind::FunctionCall)
        } else if same(s, "function_call_output") {
            Some(ItemKind::FunctionCallOutput)
        } else {
            None
        }
    }
}

/// No two kinds share a name, so a name that was stored reads back as the kind
/// it was stored for.
pub proof fn law_item_kind_names_differ(a: ItemKind, b: ItemKind)
    requires
        item_kind_name(a) == item_kind_name(b),
    ensures
        a == b,
{
    reveal_strlit("user_message");
    reveal_strlit("assistant_message");
    reveal_strlit("function_call");
    reveal_strlit("function_call_output");
    assert("user_message"@[0] != "assistant_message"@[0]);
    assert("user_message"@[0] != "function_call"@[0]);
    assert("assistant_message"@[0] != "function_call"@[0]);
    assert("user_message"@[0] != "function_call_output"@[0]);
    assert("assistant_message"@[0] != "function_call_output"@[0]);
    assert("function_call"@.len() != "function_call_output"@.len());
}

/// How a turn of a conversation ended.
#[derive(Debug, Clone, PartialEq, Eq)]
pub enum TurnStatus {
    Done,
    Failed(String),
}

impl TurnStatus {
    /// The name under which the status is stored.
    pub fn as_str(&self) -> (r: &'static str)
        ensures
            r@ == (match *self {
                TurnStatus::Done => "done"@,
                TurnStatus::Failed(_) => "failed"@,
            }),
    {
        match self {
            TurnStatus::Done => "done",
            TurnStatus::Failed(_) => "failed",
        }
    }
}

/// A question of a conversation and what came of it.
#[derive(Debug, Clone)]
pub struct Turn {
    pub id: String,
    pub seq: i64,
    pub model: String,
    pub status: TurnStatus,
    pub created_at: i64,
}

/// An entry in the history of a conversation. The payload is what the model
/// read or wrote, word for word, so that the history can be sent again as it
/// was. The answer of an endpoint that a result was made from is kept beside it
/// and is not sent.
#[derive(Debug)]
pub struct Item {
    pub idx: i64,
    pub kind: ItemKind,
    pub iteration: Option<i64>,
    pub call_id: Option<String>,
    pub payload: Json,
    pub raw_json: Option<String>,
}

/// What an entry is.
pub struct ItemView {
    pub idx: int,
    pub kind: ItemKind,
    pub iteration: Option<i64>,
    pub call_id: Option<Seq<char>>,
    pub payload: Tree,
    pub raw_json: Option<Seq<char>>,
}

impl Item {
    pub open spec fn view(&self) -> ItemView {
        ItemView {
            idx: self.idx as int,
            kind: self.kind,
            iteration: self.iteration,
            call_id: text::opt(self.call_id),
            payload: self.payload@,
            raw_json: text::opt(self.raw_json),
        }
    }
}

/// What a list of entries is.
pub open spec fn items_view(v: Seq<Item>) -> Seq<ItemView> {
    Seq::new(v.len(), |i: int| v[i]@)
}

impl Item {
    /// A copy of the entry.
    pub fn copy(&self) -> (r: Item)
        ensures
            r@ == self@,
    {
        Item {
            idx: self.idx,
            kind: self.kind,
            iteration: self.iteration,
            call_id: copy_opt(&self.call_id),
            payload: self.payload.copy(),
            raw_json: copy_opt(&self.raw_json),
        }
    }

    /// What a user asked.
    pub fn user_message(idx: i64, text: &str) -> (r: Item)
        ensures
            r@ == (ItemView {
                idx: idx as int,
                kind: ItemKind::UserMessage,
                iteration: None,
                call_id: None,
                payload: Tree::Object(seq![("text"@, Tree::Str(text@))]),
                raw_json: None,
            }),
    {
        let payload = object(vec![entry("text", string(text))]);
        assert(payload@->Object_0 =~= seq![("text"@, Tree::Str(text@))]);
        Item {
            idx,
            kind: ItemKind::UserMessage,
            iteration: None,
            call_id: None,
            payload,
            raw_json: None,
        }
    }

    /// What the model said.
    pub fn assistant_message(idx: i64, iteration: i64, text: &str) -> (r: Item)
        ensures
            r@ == (ItemView {
                idx: idx as int,
                kind: ItemKind::AssistantMessage,
                iteration: Some(iteration),
                call_id: None,
                payload: Tree::Object(seq![("text"@, Tree::Str(text@))]),
                raw_json: None,
            }),
    {
        let payload = object(vec![entry("text", string(text))]);
        assert(payload@->Object_0 =~= seq![("text"@, Tree::Str(text@))]);
        Item {
            idx,
            kind: ItemKind::AssistantMessage,
            iteration: Some(iteration),
            call_id: None,
            payload,
            raw_json: None,
        }
    }

    /// What the model said, with what it thought before it spoke.
    pub fn assistant_message_full(idx: i64, iteration: i64, text: &str, reasoning: &str) -> (r:
        Item)
        ensures
            r@ == (ItemView {
                idx: idx as int,
                kind: ItemKind::AssistantMessage,
                iteration: Some(iteration),
                call_id: None,
                payload: Tree::Object(
                    seq![
                        ("text"@, Tree::Str(text@)),
                        ("reasoning"@, Tree::Str(reasoning@)),
                    ],
                ),
                raw_json: None,
            }),
    {
        let payload = object(
            vec![entry("text", string(text)), entry("reasoning", string(reasoning))],
        );
        assert(payload@->Object_0 =~= seq![
            ("text"@, Tree::Str(text@)),
            ("reasoning"@, Tree::Str(reasoning@)),
        ]);
        Item {
            idx,
            kind: ItemKind::AssistantMessage,
            iteration: Some(iteration),
            call_id: None,
            payload,
            raw_json: None,
        }
    }

    /// A tool that the model asked for.
    pub fn function_call(idx: i64, iteration: i64, call_id: &str, name: &str, args: &Json) -> (r:
        Item)
        ensures
            r@ == (ItemView {
                idx: idx as int,
                kind: ItemKind::FunctionCall,
                iteration: Some(iteration),
                call_id: Some(call_id@),
                payload: Tree::Object(seq![("name"@, Tree::Str(name@)), ("args"@, args@)]),
                raw_json: None,
            }),
    {
        let payload = object(
            vec![entry("name", string(name)), entry("args", args.copy())],
        );
        assert(payload@->Object_0 =~= seq![("name"@, Tree::Str(name@)), ("args"@, args@)]);
        Item {
            idx,
            kind: ItemKind::FunctionCall,
            iteration: Some(iteration),
            call_id: Some(call_id.to_owned()),
            payload,
            raw_json: None,
        }
    }

    /// What a tool answered.
    pub fn function_call_output(
        idx: i64,
        iteration: i64,
        call_id: &str,
        content: &str,
        is_error: bool,
        raw_json: Option<String>,
    ) -> (r: Item)
        ensures
            r@ == (ItemView {
                idx: idx as int,
                kind: ItemKind::FunctionCallOutput,
                iteration: Some(iteration),
                call_id: Some(call_id@),
                payload: Tree::Object(
                    seq![
                        ("content"@, Tree::Str(content@)),
                        ("is_error"@, Tree::Bool(is_error)),
                    ],
                ),
                raw_json: text::opt(raw_json),
            }),
    {
        let payload = object(
            vec![entry("content", string(content)), entry("is_error", boolean(is_error))],
        );
        assert(payload@->Object_0 =~= seq![
            ("content"@, Tree::Str(content@)),
            ("is_error"@, Tree::Bool(is_error)),
        ]);
        Item {
            idx,
            kind: ItemKind::FunctionCallOutput,
            iteration: Some(iteration),
            call_id: Some(call_id.to_owned()),
            payload,
            raw_json,
        }
    }
}

/// A payload with what a call cost, where that is known.
pub open spec fn with_cost(payload: Tree, credits: Option<int>) -> Tree {
    match (payload, credits) {
        (Tree::Object(v), Some(n)) => Tree::Object(
            v.push(("credits_charged"@, Tree::Number(NumTree::Int(n)))),
        ),
        _ => payload,
    }
}

impl Item {
    /// The same entry with what its call cost, where that is known. A model is not told
    /// of it.
    pub fn with_credits(self, credits: Option<i64>) -> (r: Item)
        ensures
            r@ == (ItemView { payload: with_cost(self@.payload, opt_int(credits)), ..self@ }),
    {
        let ghost before = self.payload@;
        let payload = match (self.payload, credits) {
            (Json::Object(v), Some(n)) => {
                let ghost old = json::fields(v@);
                assert(before is Object);
                assert(before->Object_0 =~= old);
                let mut v = v;
                let cost = entry("credits_charged", integer(n));
                v.push(cost);
                assert(json::fields(v@) =~= old.push((cost.0@, cost.1@)));
                let r = object(v);
                assert(r@ == with_cost(before, opt_int(credits)));
                r
            },
            (payload, _) => payload,
        };
        Item {
            idx: self.idx,
            kind: self.kind,
            iteration: self.iteration,
            call_id: self.call_id,
            payload,
            raw_json: self.raw_json,
        }
    }
}

/// A conversation.
#[derive(Debug, Clone)]
pub struct Session {
    pub id: String,
    pub title: Option<String>,
    pub created_at: i64,
}

} // verus!
