//! What is kept of videos and conversations.

pub mod claim;
pub mod memory;
pub mod migrate;
pub mod shelf;

use vstd::prelude::*;
use crate::content::dossier;
use crate::content::dossier::{LookView, StoredDossier};
use crate::content::model;
use crate::content::model::{
    Artifact, ArtifactKind, ArtifactView, Comment, CommentView, FetchedVideo, Transcript, TranscriptView, Video, VideoView,
};
use crate::error::Result;
use crate::ingest::url::Platform;

verus! {

/// All that is stored of one video.
#[derive(Debug, Clone)]
pub struct StoredVideo {
    pub video: Video,
    pub transcript: Option<Transcript>,
    pub comments: Vec<Comment>,
}

/// What is stored of one video.
pub struct StoredView {
    pub video: VideoView,
    pub transcript: Option<TranscriptView>,
    pub comments: Seq<CommentView>,
}

impl StoredVideo {
    pub open spec fn view(&self) -> StoredView {
        StoredView {
            video: self.video@,
            transcript: model::opt_transcript(self.transcript),
            comments: model::comments_view(self.comments@),
        }
    }
}

/// The videos that are stored, by their platforms and their identifiers there.
pub type Videos = Map<(Platform, Seq<char>), StoredView>;

/// The video with an identifier on a platform, where it is stored.
pub open spec fn found(kept: Videos, platform: Platform, native_id: Seq<char>) -> Option<StoredView> {
    if kept.dom().contains((platform, native_id)) {
        Some(kept[(platform, native_id)])
    } else {
        None
    }
}

/// What a search for a video found.
pub open spec fn opt_stored(sv: Option<StoredVideo>) -> Option<StoredView> {
    match sv {
        Some(x) => Some(x@),
        None => None,
    }
}

/// Whether a video that was fetched was stored: it stands where it stood, with what
/// is stored of it then, and no other video is touched. Where it could not be
/// stored nothing changes.
pub open spec fn was_saved(before: Videos, f: FetchedVideo, r: Result<String>, after: Videos) -> bool {
    let key = (f.video.platform, f.video.native_id@);
    match r {
        Ok(id) => {
            &&& after == before.insert(key, after[key])
            &&& shelf::is_saved(found(before, key.0, key.1), f, after[key])
            &&& id@ == after[key].video.id
        },
        Err(_) => after == before,
    }
}

/// What the endpoints answered for the video `id`, after a video was stored or not.
pub open spec fn answers_after(
    before: Seq<ArtifactView>,
    f: FetchedVideo,
    r: Result<String>,
    id: Seq<char>,
) -> Seq<ArtifactView> {
    match r {
        Ok(x) => if x@ == id {
            shelf::with_answers(
                before,
                model::artifacts_view(f.artifacts@),
                f.artifacts@.len() as int,
            )
        } else {
            before
        },
        Err(_) => before,
    }
}

/// What records of videos say.
pub open spec fn videos_view(v: Seq<Video>) -> Seq<VideoView> {
    Seq::new(v.len(), |i: int| v[i]@)
}

/// The platform of a video, and its identifier there.
pub open spec fn key_of(v: VideoView) -> (Platform, Seq<char>) {
    (v.platform, v.native_id)
}

/// Whether a video is on a list.
pub open spec fn is_listed(v: Seq<VideoView>, key: (Platform, Seq<char>)) -> bool {
    exists|i: int| 0 <= i < v.len() && key_of(#[trigger] v[i]) == key
}

/// Whether a list goes from the video that was fetched last to the first.
pub open spec fn latest_first(v: Seq<VideoView>) -> bool {
    forall|i: int, j: int|
        0 <= i < j < v.len() ==> (#[trigger] v[i]).fetched_at >= (#[trigger] v[j]).fetched_at
}

/// Whether everything on a list is stored, and stands there once.
pub open spec fn is_from(kept: Videos, v: Seq<VideoView>) -> bool {
    &&& forall|i: int|
        0 <= i < v.len() ==> kept.dom().contains(key_of(#[trigger] v[i])) && kept[key_of(
            v[i],
        )].video == v[i]
    &&& forall|i: int, j: int|
        0 <= i < j < v.len() ==> key_of(#[trigger] v[i]) != key_of(#[trigger] v[j])
}

/// Whether `r` lists the videos that are stored, the latest first and at most `limit`. One
/// that is not on the list has no place there: it is full, of later ones.
pub open spec fn is_list(kept: Videos, limit: int, r: Seq<VideoView>) -> bool {
    &&& r.len() <= limit
    &&& is_from(kept, r)
    &&& latest_first(r)
    &&& forall|key: (Platform, Seq<char>)|
        kept.dom().contains(key) && !#[trigger] is_listed(r, key) ==> r.len() == limit && forall|
            i: int,
        |
            0 <= i < r.len() ==> (#[trigger] r[i]).fetched_at >= kept[key].video.fetched_at
}

/// A place where videos are kept. Some are never out of order; all others may fail
/// at any time, and change nothing where they do. What a store keeps is for the store
/// to say; one that says nothing promises nothing of it.
pub trait Store {
    /// The videos that are kept.
    open spec fn kept(&self) -> Videos {
        Map::empty()
    }

    /// The looks at a video that are kept, the latest first.
    open spec fn looks(&self, video_id: Seq<char>) -> Seq<LookView> {
        seq![]
    }

    /// What the endpoints answered for a video, one record for each.
    open spec fn answers(&self, video_id: Seq<char>) -> Seq<ArtifactView> {
        seq![]
    }

    /// Whether nothing goes wrong with it.
    open spec fn steady(&self) -> bool {
        false
    }

    /// The video with an identifier on a platform, where it was stored. One
    /// that is found need not be fetched and paid for again.
    fn find_by_native(&self, platform: Platform, native_id: &str) -> (r: Result<Option<StoredVideo>>)
        ensures
            r matches Ok(x) ==> opt_stored(x) == found(self.kept(), platform, native_id@),
            self.steady() ==> r is Ok,
    ;

    /// Stores what was fetched of a video, over what was stored of it before,
    /// and gives the identifier under which it is stored.
    fn save(&mut self, fetched: &FetchedVideo) -> (r: Result<String>)
        ensures
            was_saved(old(self).kept(), *fetched, r, final(self).kept()),
            forall|id: Seq<char>| #[trigger] final(self).looks(id) == old(self).looks(id),
            forall|id: Seq<char>| #[trigger]
                final(self).answers(id) == answers_after(old(self).answers(id), *fetched, r, id),
            old(self).steady() ==> r is Ok && final(self).steady(),
    ;

    /// The videos that are stored, the latest first.
    fn list_videos(&self, limit: usize) -> (r: Result<Vec<Video>>)
        ensures
            r matches Ok(v) ==> is_list(self.kept(), limit as int, videos_view(v@)),
            self.steady() ==> r is Ok,
    ;

    /// What every endpoint answered for a video.
    fn get_artifacts(&self, video_id: &str) -> (r: Result<Vec<Artifact>>)
        ensures
            r matches Ok(v) ==> model::artifacts_view(v@) == self.answers(video_id@),
            self.steady() ==> r is Ok,
    ;
}

/// Whether `r` is what a store finds of a video.
pub open spec fn finds<S: Store>(
    s: S,
    platform: Platform,
    native_id: Seq<char>,
    r: Result<Option<StoredVideo>>,
) -> bool {
    &&& r matches Ok(x) ==> opt_stored(x) == found(s.kept(), platform, native_id)
    &&& s.steady() ==> r is Ok
}

/// Whether a store was asked to store what was fetched, and did or failed.
pub open spec fn saves<S: Store>(before: S, f: FetchedVideo, r: Result<String>, after: S) -> bool {
    &&& was_saved(before.kept(), f, r, after.kept())
    &&& forall|id: Seq<char>| #[trigger] after.looks(id) == before.looks(id)
    &&& forall|id: Seq<char>| #[trigger]
        after.answers(id) == answers_after(before.answers(id), f, r, id)
    &&& before.steady() ==> r is Ok && after.steady()
}

/// Whether a store was asked to keep a look at a video, and did or failed.
pub open spec fn keeps<S: Store>(
    before: S,
    video_id: Seq<char>,
    look: LookView,
    done: bool,
    after: S,
) -> bool {
    &&& forall|id: Seq<char>| #[trigger]
        after.looks(id) == (if done && id == video_id {
            seq![look] + before.looks(id)
        } else {
            before.looks(id)
        })
    &&& after.kept() == before.kept()
    &&& forall|id: Seq<char>| #[trigger] after.answers(id) == before.answers(id)
    &&& before.steady() ==> done && after.steady()
}

/// A place where it is kept what was seen of videos.
pub trait DossierStore: Store {
    /// The looks at a video, the latest first.
    fn dossiers(&self, video_id: &str) -> (r: Result<Vec<StoredDossier>>)
        ensures
            r matches Ok(v) ==> dossier::looks_view(v@) == self.looks(video_id@),
            self.steady() ==> r is Ok,
    ;

    /// Stores a look at a video.
    fn save_dossier(&mut self, video_id: &str, look: &StoredDossier) -> (r: Result<()>)
        ensures
            forall|id: Seq<char>| #[trigger]
                final(self).looks(id) == (if r is Ok && id == video_id@ {
                    seq![look@] + old(self).looks(id)
                } else {
                    old(self).looks(id)
                }),
            final(self).kept() == old(self).kept(),
            forall|id: Seq<char>| #[trigger] final(self).answers(id) == old(self).answers(id),
            old(self).steady() ==> r is Ok && final(self).steady(),
    ;
}

/// What was stored is found again, and nothing else: after a video was stored in a store
/// that held nothing, a search for it gives all that was fetched of it, with the
/// comments that most people like first; a search for any other video gives nothing.
pub proof fn law_saved_is_found<S: Store>(
    before: S,
    f: FetchedVideo,
    id: String,
    after: S,
    platform: Platform,
    native_id: Seq<char>,
    r: Result<Option<StoredVideo>>,
)
    requires
        before.steady(),
        before.kept() == Map::<(Platform, Seq<char>), StoredView>::empty(),
        saves(before, f, Ok(id), after),
        finds(after, platform, native_id, r),
    ensures
        platform == f.video.platform && native_id == f.video.native_id@ ==> {
            &&& r matches Ok(Some(sv)) && sv.video@ == f.video@ && sv.video.id@ == id@ && (match (
                sv.transcript,
                f.transcript,
            ) {
                (Some(t), Some(u)) => t.text@ == u.text@,
                (None, None) => true,
                _ => false,
            }) && shelf::in_order(model::comments_view(sv.comments@)) && model::comments_view(
                sv.comments@,
            ).to_multiset() == shelf::new_comments(None, f).to_multiset()
        },
        !(platform == f.video.platform && native_id == f.video.native_id@) ==> (r matches Ok(x)
            && x is None),
{
}

/// A video that is fetched and stored again stays one video under one identifier: what
/// the platform says of it is replaced, and its comments are exactly the new ones, where
/// it is settled what they are. A failure to get them keeps those that there were.
pub proof fn law_saving_again_replaces<S: Store>(
    first: S,
    f: FetchedVideo,
    id: String,
    between: S,
    f2: FetchedVideo,
    id2: String,
    after: S,
)
    requires
        saves(first, f, Ok(id), between),
        saves(between, f2, Ok(id2), after),
        f2.video.platform == f.video.platform,
        f2.video.native_id@ == f.video.native_id@,
    ensures
        id2@ == id@,
        after.kept().dom() == between.kept().dom(),
        after.kept().dom().len() == between.kept().dom().len(),
        ({
            let key = (f.video.platform, f.video.native_id@);
            let (old, new) = (between.kept()[key], after.kept()[key]);
            &&& new.video == (VideoView { id: id@, ..f2.video@ })
            &&& shelf::settles(f2, ArtifactKind::Comments) ==> new.comments.to_multiset()
                == shelf::new_comments(Some(old), f2).to_multiset()
            &&& !shelf::settles(f2, ArtifactKind::Comments) ==> new.comments == old.comments
            &&& !shelf::settles(f2, ArtifactKind::Transcript) ==> new.transcript == old.transcript
        }),
{
    let key = (f.video.platform, f.video.native_id@);
    assert(between.kept().dom().contains(key));
    assert(after.kept().dom() =~= between.kept().dom());
}

} // verus!
