//! A store that lasts as long as the program runs.

use vstd::prelude::*;
use crate::content::dossier;
use crate::content::dossier::{LookView, StoredDossier};
use crate::content::model;
use crate::content::model::{
    Artifact, ArtifactKind, ArtifactView, Comment, FetchedVideo, Video, VideoView,
};
use crate::error::Result;
use crate::ingest::url::Platform;
use crate::store;
use crate::store::shelf;
use crate::store::shelf::after_save;
use crate::store::{DossierStore, Store, StoredVideo, Videos};
use crate::text::same;

verus! {

/// Videos, and the looks at them, in memory.
#[derive(Debug)]
pub struct MemoryStore {
    videos: Vec<StoredVideo>,
    /// With the identifiers of their videos, the latest last.
    looks: Vec<(String, StoredDossier)>,
    /// With the identifiers of their videos.
    answers: Vec<(String, Artifact)>,
}

/// The platform of a video, and its identifier there.
pub open spec fn key_of(sv: StoredVideo) -> (Platform, Seq<char>) {
    store::key_of(sv.video@)
}

/// The first `n` videos, by their platforms and their identifiers there.
pub open spec fn kept_from(v: Seq<StoredVideo>, n: int) -> Videos
    decreases n,
{
    if n <= 0 || n > v.len() {
        Map::empty()
    } else {
        kept_from(v, n - 1).insert(key_of(v[n - 1]), v[n - 1]@)
    }
}

proof fn lemma_kept(v: Seq<StoredVideo>, w: Seq<StoredVideo>, n: int)
    requires
        n <= v.len(),
        n <= w.len(),
        forall|i: int| 0 <= i < n ==> v[i] == w[i],
    ensures
        kept_from(v, n) == kept_from(w, n),
    decreases n,
{
    if n > 0 {
        lemma_kept(v, w, n - 1);
    }
}

proof fn lemma_update(v: Seq<StoredVideo>, i: int, x: StoredVideo, n: int)
    requires
        0 <= i < n <= v.len(),
        key_of(v[i]) == key_of(x),
        forall|j: int| i < j < n ==> key_of(#[trigger] v[j]) != key_of(x),
    ensures
        kept_from(v.update(i, x), n) == kept_from(v, n).insert(key_of(x), x@),
    decreases n,
{
    let w = v.update(i, x);
    if n == i + 1 {
        lemma_kept(v, w, i);
        assert(kept_from(w, n) =~= kept_from(v, n).insert(key_of(x), x@));
    } else {
        lemma_update(v, i, x, n - 1);
        assert(w[n - 1] == v[n - 1]);
        assert(kept_from(w, n) =~= kept_from(v, n).insert(key_of(x), x@));
    }
}

/// The looks at a video among the first `n`, the latest first.
pub open spec fn looks_from(v: Seq<(String, StoredDossier)>, id: Seq<char>, n: int) -> Seq<LookView>
    decreases n,
{
    if n <= 0 || n > v.len() {
        seq![]
    } else if v[n - 1].0@ == id {
        seq![v[n - 1].1@] + looks_from(v, id, n - 1)
    } else {
        looks_from(v, id, n - 1)
    }
}

proof fn lemma_looks(
    v: Seq<(String, StoredDossier)>,
    w: Seq<(String, StoredDossier)>,
    id: Seq<char>,
    n: int,
)
    requires
        n <= v.len(),
        n <= w.len(),
        forall|i: int| 0 <= i < n ==> v[i] == w[i],
    ensures
        looks_from(v, id, n) == looks_from(w, id, n),
    decreases n,
{
    if n > 0 {
        lemma_looks(v, w, id, n - 1);
    }
}

/// What the endpoints answered for a video, among the first `n` records.
pub open spec fn answers_from(v: Seq<(String, Artifact)>, id: Seq<char>, n: int) -> Seq<ArtifactView>
    decreases n,
{
    if n <= 0 || n > v.len() {
        seq![]
    } else if v[n - 1].0@ == id {
        answers_from(v, id, n - 1).push(v[n - 1].1@)
    } else {
        answers_from(v, id, n - 1)
    }
}

proof fn lemma_answers(
    v: Seq<(String, Artifact)>,
    w: Seq<(String, Artifact)>,
    id: Seq<char>,
    n: int,
)
    requires
        n <= v.len(),
        n <= w.len(),
        forall|i: int| 0 <= i < n ==> v[i] == w[i],
    ensures
        answers_from(v, id, n) == answers_from(w, id, n),
    decreases n,
{
    if n > 0 {
        lemma_answers(v, w, id, n - 1);
    }
}

proof fn lemma_without(v: Seq<ArtifactView>, x: ArtifactView, kind: ArtifactKind, n: int)
    requires
        0 <= n <= v.len(),
    ensures
        shelf::without_kind(v.push(x), kind, n) == shelf::without_kind(v, kind, n),
    decreases n,
{
    if n > 0 {
        lemma_without(v, x, kind, n - 1);
    }
}

fn drop_answers(v: Vec<(String, Artifact)>, id: &str, kind: ArtifactKind) -> (r: Vec<
    (String, Artifact),
>)
    ensures
        forall|x: Seq<char>| #[trigger]
            answers_from(r@, x, r@.len() as int) == ({
                let all = answers_from(v@, x, v@.len() as int);
                if x == id@ {
                    shelf::without_kind(all, kind, all.len() as int)
                } else {
                    all
                }
            }),
{
    let ghost all = v@;
    let mut rest = v;
    let mut r: Vec<(String, Artifact)> = Vec::new();
    let ghost mut n: int = 0;
    while rest.len() > 0
        invariant
            0 <= n <= all.len(),
            rest@ == all.skip(n),
            forall|x: Seq<char>| #[trigger]
                answers_from(r@, x, r@.len() as int) == ({
                    let some = answers_from(all, x, n);
                    if x == id@ {
                        shelf::without_kind(some, kind, some.len() as int)
                    } else {
                        some
                    }
                }),
        decreases rest@.len(),
    {
        let a = rest.remove(0);
        let ghost (before, gone) = (r@, a);
        assert(a == all[n]);
        if !(same(a.0.as_str(), id) && a.1.kind == kind) {
            r.push(a);
        }
        proof {
            assert forall|x: Seq<char>| #[trigger] answers_from(r@, x, r@.len() as int) == ({
                let some = answers_from(all, x, n + 1);
                if x == id@ {
                    shelf::without_kind(some, kind, some.len() as int)
                } else {
                    some
                }
            }) by {
                let some = answers_from(all, x, n);
                lemma_answers(before, r@, x, before.len() as int);
                assert(answers_from(before, x, before.len() as int) == (if x == id@ {
                    shelf::without_kind(some, kind, some.len() as int)
                } else {
                    some
                }));
                lemma_without(some, gone.1@, kind, some.len() as int);
            }
            n = n + 1;
        }
        assert(rest@ =~= all.skip(n));
    }
    r
}

/// Whether no later record is one of the same video.
spec fn is_last(v: Seq<StoredVideo>, i: int) -> bool {
    0 <= i < v.len() && forall|j: int|
        i < j < v.len() ==> key_of(#[trigger] v[j]) != key_of(v[i])
}

/// Whether a video is among the first `n` records.
spec fn is_among(v: Seq<StoredVideo>, n: int, key: (Platform, Seq<char>)) -> bool {
    exists|i: int| 0 <= i < n && #[trigger] is_last(v, i) && key_of(v[i]) == key
}

/// Whether `r` lists the videos among the first `n` records.
spec fn lists(kept: Videos, v: Seq<StoredVideo>, n: int, r: Seq<VideoView>) -> bool {
    &&& store::is_from(kept, r)
    &&& store::latest_first(r)
    &&& forall|j: int| 0 <= j < r.len() ==> is_among(v, n, store::key_of(#[trigger] r[j]))
    &&& forall|i: int|
        0 <= i < n && #[trigger] is_last(v, i) ==> store::is_listed(r, key_of(v[i]))
}

proof fn lemma_live(v: Seq<StoredVideo>, n: int, key: (Platform, Seq<char>))
    requires
        0 <= n <= v.len(),
        kept_from(v, n).dom().contains(key),
        forall|j: int| n <= j < v.len() ==> key_of(#[trigger] v[j]) != key,
    ensures
        is_among(v, n, key),
    decreases n,
{
    if n > 0 {
        if key_of(v[n - 1]) == key {
            assert(is_last(v, n - 1));
        } else {
            lemma_live(v, n - 1, key);
            let i = choose|i: int| 0 <= i < n - 1 && #[trigger] is_last(v, i) && key_of(v[i]) == key;
            assert(is_last(v, i));
        }
    }
}

proof fn lemma_listed(
    kept: Videos,
    v: Seq<StoredVideo>,
    n: int,
    r: Seq<VideoView>,
    k: int,
    x: VideoView,
)
    requires
        lists(kept, v, n, r),
        is_last(v, n),
        store::key_of(x) == key_of(v[n]),
        kept.dom().contains(key_of(v[n])),
        kept[key_of(v[n])].video == x,
        0 <= k <= r.len(),
        store::latest_first(r.insert(k, x)),
    ensures
        lists(kept, v, n + 1, r.insert(k, x)),
{
    let w = r.insert(k, x);
    assert forall|j: int| 0 <= j < r.len() implies store::key_of(#[trigger] r[j]) != store::key_of(
        x,
    ) by {
        let i = choose|i: int|
            0 <= i < n && #[trigger] is_last(v, i) && key_of(v[i]) == store::key_of(r[j]);
        assert(key_of(v[n]) != key_of(v[i]));
    }
    assert forall|j: int| 0 <= j < w.len() implies is_among(v, n + 1, store::key_of(#[trigger] w[j]))
        && kept.dom().contains(store::key_of(w[j])) && kept[store::key_of(w[j])].video == w[j] by {
        if j == k {
            assert(is_last(v, n));
        } else {
            let b = if j < k { j } else { j - 1 };
            assert(w[j] == r[b]);
            assert(is_among(v, n, store::key_of(r[b])));
            let i = choose|i: int|
                0 <= i < n && #[trigger] is_last(v, i) && key_of(v[i]) == store::key_of(r[b]);
            assert(is_last(v, i));
        }
    }
    assert forall|i: int, j: int| 0 <= i < j < w.len() implies store::key_of(#[trigger] w[i])
        != store::key_of(#[trigger] w[j]) by {
        let a = if i < k { i } else { i - 1 };
        let b = if j < k { j } else { j - 1 };
        if i == k {
            assert(w[j] == r[b]);
        } else if j == k {
            assert(w[i] == r[a]);
        } else {
            assert(w[i] == r[a] && w[j] == r[b]);
        }
    }
    assert forall|i: int| 0 <= i < n + 1 && #[trigger] is_last(v, i) implies store::is_listed(
        w,
        key_of(v[i]),
    ) by {
        if i == n {
            assert(w[k] == x);
        } else {
            assert(store::is_listed(r, key_of(v[i])));
            let b = choose|b: int|
                0 <= b < r.len() && store::key_of(#[trigger] r[b]) == key_of(v[i]);
            let j = if b < k { b } else { b + 1 };
            assert(w[j] == r[b]);
        }
    }
}

proof fn lemma_skipped(kept: Videos, v: Seq<StoredVideo>, n: int, r: Seq<VideoView>)
    requires
        lists(kept, v, n, r),
        !is_last(v, n),
    ensures
        lists(kept, v, n + 1, r),
{
    assert forall|j: int| 0 <= j < r.len() implies is_among(
        v,
        n + 1,
        store::key_of(#[trigger] r[j]),
    ) by {
        assert(is_among(v, n, store::key_of(r[j])));
        let i = choose|i: int|
            0 <= i < n && #[trigger] is_last(v, i) && key_of(v[i]) == store::key_of(r[j]);
        assert(is_last(v, i));
    }
}

proof fn lemma_cut(v: Seq<StoredVideo>, r: Seq<VideoView>, limit: int)
    requires
        0 <= limit,
        lists(kept_from(v, v.len() as int), v, v.len() as int, r),
    ensures
        store::is_list(
            kept_from(v, v.len() as int),
            limit,
            r.take(
                if r.len() <= limit {
                    r.len() as int
                } else {
                    limit
                },
            ),
        ),
{
    let kept = kept_from(v, v.len() as int);
    let n = if r.len() <= limit { r.len() as int } else { limit };
    let w = r.take(n);
    assert forall|i: int, j: int| 0 <= i < j < w.len() implies store::key_of(#[trigger] w[i])
        != store::key_of(#[trigger] w[j]) && w[i].fetched_at >= w[j].fetched_at by {
        assert(w[i] == r[i] && w[j] == r[j]);
    }
    assert forall|i: int| 0 <= i < w.len() implies kept.dom().contains(
        store::key_of(#[trigger] w[i]),
    ) && kept[store::key_of(w[i])].video == w[i] by {
        assert(w[i] == r[i]);
    }
    assert forall|key: (Platform, Seq<char>)|
        kept.dom().contains(key) && !#[trigger] store::is_listed(w, key) implies w.len() == limit
        && forall|i: int|
        0 <= i < w.len() ==> (#[trigger] w[i]).fetched_at >= kept[key].video.fetched_at by {
        lemma_live(v, v.len() as int, key);
        let i = choose|i: int|
            0 <= i < v.len() && #[trigger] is_last(v, i) && key_of(v[i]) == key;
        assert(store::is_listed(r, key_of(v[i])));
        let b = choose|b: int| 0 <= b < r.len() && store::key_of(#[trigger] r[b]) == key;
        if b < n {
            assert(w[b] == r[b]);
            assert(false);
        }
        assert forall|a: int| 0 <= a < w.len() implies (#[trigger] w[a]).fetched_at
            >= kept[key].video.fetched_at by {
            assert(w[a] == r[a]);
            assert(r[a].fetched_at >= r[b].fetched_at);
        }
    }
}

fn insert_by_age(v: &mut Vec<Video>, x: Video)
    requires
        store::latest_first(store::videos_view(old(v)@)),
    ensures
        store::latest_first(store::videos_view(final(v)@)),
        exists|k: int|
            0 <= k <= old(v)@.len() && store::videos_view(final(v)@) == #[trigger]
            store::videos_view(old(v)@).insert(k, x@),
{
    let ghost first = store::videos_view(v@);
    let ghost raw = v@;
    let ghost new = x@;
    let mut k: usize = v.len();
    while k > 0 && v[k - 1].fetched_at < x.fetched_at
        invariant
            v@ == raw,
            k <= v@.len(),
            x@ == new,
            first == store::videos_view(raw),
            forall|i: int| k <= i < first.len() ==> (#[trigger] first[i]).fetched_at
                < new.fetched_at,
        decreases k,
    {
        k = k - 1;
    }
    v.insert(k, x);
    let ghost last = store::videos_view(v@);
    proof {
        assert(last =~= first.insert(k as int, new));
        assert forall|i: int, j: int| 0 <= i < j < last.len() implies (
        #[trigger] last[i]).fetched_at >= (#[trigger] last[j]).fetched_at by {
            if 0 < k {
                assert(first[k - 1].fetched_at >= new.fetched_at);
            }
            let a = if i < k { i } else { i - 1 };
            let b = if j < k { j } else { j - 1 };
            if i == k {
                assert(last[j] == first[b]);
            } else if j == k {
                assert(last[i] == first[a]);
                assert(a == k - 1 || first[a].fetched_at >= first[k - 1].fetched_at);
            } else {
                assert(first[a].fetched_at >= first[b].fetched_at);
            }
        }
    }
}

fn copy_comments(v: &Vec<Comment>) -> (r: Vec<Comment>)
    ensures
        model::comments_view(r@) == model::comments_view(v@),
{
    let mut r: Vec<Comment> = Vec::new();
    let mut k: usize = 0;
    assert(model::comments_view(r@) =~= model::comments_view(v@).take(0));
    while k < v.len()
        invariant
            k <= v@.len(),
            model::comments_view(r@) == model::comments_view(v@).take(k as int),
        decreases v@.len() - k,
    {
        let ghost before = model::comments_view(r@);
        let c = v[k].under(v[k].video_id.as_str());
        r.push(c);
        k = k + 1;
        assert(model::comments_view(r@) =~= before.push(c@));
        assert(model::comments_view(r@) =~= model::comments_view(v@).take(k as int));
    }
    assert(model::comments_view(v@).take(k as int) =~= model::comments_view(v@));
    r
}

fn copy_stored(sv: &StoredVideo) -> (r: StoredVideo)
    ensures
        r@ == sv@,
{
    StoredVideo {
        video: sv.video.under(sv.video.id.as_str()),
        transcript: match &sv.transcript {
            Some(t) => Some(t.under(t.video_id.as_str())),
            None => None,
        },
        comments: copy_comments(&sv.comments),
    }
}

impl MemoryStore {
    /// A store with nothing in it.
    pub fn new() -> (r: MemoryStore)
        ensures
            r.kept() == Map::<(Platform, Seq<char>), store::StoredView>::empty(),
            forall|id: Seq<char>| #[trigger] r.looks(id) == Seq::<LookView>::empty(),
            forall|id: Seq<char>| #[trigger] r.answers(id) == Seq::<ArtifactView>::empty(),
    {
        MemoryStore { videos: Vec::new(), looks: Vec::new(), answers: Vec::new() }
    }

    fn place_of(&self, platform: Platform, native_id: &str) -> (r: Option<usize>)
        ensures
            match r {
                Some(i) => i < self.videos@.len() && key_of(self.videos@[i as int]) == (
                    platform,
                    native_id@,
                ) && (forall|j: int|
                    i < j < self.videos@.len() ==> key_of(#[trigger] self.videos@[j]) != (
                        platform,
                        native_id@,
                    )),
                None => forall|j: int|
                    0 <= j < self.videos@.len() ==> key_of(#[trigger] self.videos@[j]) != (
                        platform,
                        native_id@,
                    ),
            },
            store::found(self.kept(), platform, native_id@) == (match r {
                Some(i) => Some(self.videos@[i as int]@),
                None => None,
            }),
    {
        let mut k: usize = self.videos.len();
        while k > 0
            invariant
                k <= self.videos@.len(),
                forall|j: int|
                    k <= j < self.videos@.len() ==> key_of(#[trigger] self.videos@[j]) != (
                        platform,
                        native_id@,
                    ),
                store::found(self.kept(), platform, native_id@) == store::found(
                    kept_from(self.videos@, k as int),
                    platform,
                    native_id@,
                ),
            decreases k,
        {
            let v = &self.videos[k - 1].video;
            if v.platform == platform && same(v.native_id.as_str(), native_id) {
                return Some(k - 1);
            }
            k = k - 1;
        }
        None
    }

    fn note_answers(&mut self, id: &str, artifacts: &Vec<Artifact>)
        ensures
            final(self).videos == old(self).videos,
            final(self).looks == old(self).looks,
            forall|x: Seq<char>| #[trigger]
                final(self).answers(x) == (if x == id@ {
                    shelf::with_answers(
                        old(self).answers(x),
                        model::artifacts_view(artifacts@),
                        artifacts@.len() as int,
                    )
                } else {
                    old(self).answers(x)
                }),
    {
        let ghost first = *self;
        let ghost new = model::artifacts_view(artifacts@);
        let mut i: usize = 0;
        while i < artifacts.len()
            invariant
                i <= artifacts@.len(),
                first == *old(self),
                new == model::artifacts_view(artifacts@),
                self.videos == first.videos,
                self.looks == first.looks,
                forall|x: Seq<char>| #[trigger]
                    self.answers(x) == (if x == id@ {
                        shelf::with_answers(first.answers(x), new, i as int)
                    } else {
                        first.answers(x)
                    }),
            decreases artifacts@.len() - i,
        {
            let ghost before = *self;
            let mut old_answers: Vec<(String, Artifact)> = Vec::new();
            std::mem::swap(&mut self.answers, &mut old_answers);
            let mut left = drop_answers(old_answers, id, artifacts[i].kind);
            let ghost kept = left@;
            left.push((id.to_owned(), artifacts[i].copy()));
            self.answers = left;
            proof {
                assert forall|x: Seq<char>| #[trigger] self.answers(x) == (if x == id@ {
                    shelf::with_answers(first.answers(x), new, i + 1)
                } else {
                    first.answers(x)
                }) by {
                    lemma_answers(kept, self.answers@, x, kept.len() as int);
                    assert(before.answers(x) == answers_from(
                        before.answers@,
                        x,
                        before.answers@.len() as int,
                    ));
                    assert(answers_from(kept, x, kept.len() as int) == (if x == id@ {
                        shelf::without_kind(
                            before.answers(x),
                            artifacts@[i as int].kind,
                            before.answers(x).len() as int,
                        )
                    } else {
                        before.answers(x)
                    }));
                    assert(new[i as int] == artifacts@[i as int]@);
                }
            }
            i = i + 1;
        }
    }
}

impl Store for MemoryStore {
    closed spec fn kept(&self) -> Videos {
        kept_from(self.videos@, self.videos@.len() as int)
    }

    closed spec fn looks(&self, video_id: Seq<char>) -> Seq<LookView> {
        looks_from(self.looks@, video_id, self.looks@.len() as int)
    }

    closed spec fn answers(&self, video_id: Seq<char>) -> Seq<ArtifactView> {
        answers_from(self.answers@, video_id, self.answers@.len() as int)
    }

    open spec fn steady(&self) -> bool {
        true
    }

    fn find_by_native(&self, platform: Platform, native_id: &str) -> (r: Result<Option<StoredVideo>>) {
        match self.place_of(platform, native_id) {
            Some(i) => Ok(Some(copy_stored(&self.videos[i]))),
            None => Ok(None),
        }
    }

    fn save(&mut self, fetched: &FetchedVideo) -> (r: Result<String>) {
        let ghost first = self.videos@;
        let place = self.place_of(fetched.video.platform, fetched.video.native_id.as_str());
        let before = match place {
            Some(i) => Some(copy_stored(&self.videos[i])),
            None => None,
        };
        let after = after_save(before, fetched);
        let id = after.video.id.clone();
        let ghost x = after;
        assert(key_of(x) == (x@.video.platform, x@.video.native_id));
        match place {
            Some(i) => {
                self.videos.set(i, after);
                proof {
                    lemma_update(first, i as int, x, first.len() as int);
                }
            },
            None => {
                self.videos.push(after);
                proof {
                    lemma_kept(first, self.videos@, first.len() as int);
                }
            },
        }
        assert(self.kept() == kept_from(first, first.len() as int).insert(key_of(x), x@));
        self.note_answers(id.as_str(), &fetched.artifacts);
        assert(self.kept() =~= kept_from(first, first.len() as int).insert(
            key_of(x),
            self.kept()[key_of(x)],
        ));
        Ok(id)
    }

    fn list_videos(&self, limit: usize) -> (r: Result<Vec<Video>>) {
        let mut r: Vec<Video> = Vec::new();
        let mut n: usize = 0;
        while n < self.videos.len()
            invariant
                n <= self.videos@.len(),
                lists(self.kept(), self.videos@, n as int, store::videos_view(r@)),
            decreases self.videos@.len() - n,
        {
            let v = &self.videos[n].video;
            let ghost before = store::videos_view(r@);
            let place = self.place_of(v.platform, v.native_id.as_str());
            let newest: bool = match place {
                Some(i) => i == n,
                None => false,
            };
            if newest {
                assert(is_last(self.videos@, n as int));
                let x = v.under(v.id.as_str());
                let ghost new = x@;
                insert_by_age(&mut r, x);
                proof {
                    let k = choose|k: int|
                        0 <= k <= before.len() && store::videos_view(r@) == #[trigger] before.insert(
                            k,
                            new,
                        );
                    lemma_listed(self.kept(), self.videos@, n as int, before, k, new);
                }
            } else {
                proof {
                    lemma_skipped(self.kept(), self.videos@, n as int, before);
                }
            }
            n = n + 1;
        }
        proof {
            lemma_cut(self.videos@, store::videos_view(r@), limit as int);
        }
        let ghost all = store::videos_view(r@);
        r.truncate(limit);
        assert(store::videos_view(r@) =~= all.take(
            if all.len() <= limit {
                all.len() as int
            } else {
                limit as int
            },
        ));
        Ok(r)
    }

    fn get_artifacts(&self, video_id: &str) -> (r: Result<Vec<Artifact>>) {
        let mut r: Vec<Artifact> = Vec::new();
        let mut k: usize = 0;
        assert(model::artifacts_view(r@) =~= answers_from(self.answers@, video_id@, 0));
        while k < self.answers.len()
            invariant
                k <= self.answers@.len(),
                model::artifacts_view(r@) == answers_from(self.answers@, video_id@, k as int),
            decreases self.answers@.len() - k,
        {
            let ghost before = model::artifacts_view(r@);
            if same(self.answers[k].0.as_str(), video_id) {
                let a = self.answers[k].1.copy();
                r.push(a);
                assert(model::artifacts_view(r@) =~= before.push(a@));
            }
            k = k + 1;
        }
        Ok(r)
    }
}

impl DossierStore for MemoryStore {
    fn dossiers(&self, video_id: &str) -> (r: Result<Vec<StoredDossier>>) {
        let mut r: Vec<StoredDossier> = Vec::new();
        let mut k: usize = self.looks.len();
        assert(self.looks(video_id@) =~= dossier::looks_view(r@) + looks_from(
            self.looks@,
            video_id@,
            k as int,
        ));
        while k > 0
            invariant
                k <= self.looks@.len(),
                self.looks(video_id@) == dossier::looks_view(r@) + looks_from(
                    self.looks@,
                    video_id@,
                    k as int,
                ),
            decreases k,
        {
            let ghost before = dossier::looks_view(r@);
            if same(self.looks[k - 1].0.as_str(), video_id) {
                let d = self.looks[k - 1].1.copy();
                r.push(d);
                assert(dossier::looks_view(r@) =~= before.push(d@));
            }
            k = k - 1;
            assert(self.looks(video_id@) =~= dossier::looks_view(r@) + looks_from(
                self.looks@,
                video_id@,
                k as int,
            ));
        }
        assert(self.looks(video_id@) =~= dossier::looks_view(r@));
        Ok(r)
    }

    fn save_dossier(&mut self, video_id: &str, look: &StoredDossier) -> (r: Result<()>) {
        let ghost first = self.looks@;
        self.looks.push((video_id.to_owned(), look.copy()));
        proof {
            assert forall|id: Seq<char>| #[trigger] self.looks(id) == (if id == video_id@ {
                seq![look@] + looks_from(first, id, first.len() as int)
            } else {
                looks_from(first, id, first.len() as int)
            }) by {
                lemma_looks(first, self.looks@, id, first.len() as int);
            }
        }
        Ok(())
    }
}

} // verus!
