//! What is stored of a video once it was fetched again.

use vstd::prelude::*;
use crate::content::model;
use crate::content::model::{
    ArtifactKind, ArtifactView, Comment, CommentView, FetchStatus, FetchedVideo, TranscriptView,
};
use crate::store;
use crate::store::{StoredVideo, StoredView};

verus! {

/// Whether what was fetched settles what there is to know: it was there, or it
/// was said that there is none. A failure settles nothing.
pub open spec fn settles(f: FetchedVideo, kind: ArtifactKind) -> bool {
    model::status_from(f.artifacts@, kind, 0) != FetchStatus::Failed
}

/// The identifier under which a video is stored: the one that it has.
pub open spec fn kept_id(before: Option<StoredView>, f: FetchedVideo) -> Seq<char> {
    match before {
        Some(b) => b.video.id,
        None => f.video.id@,
    }
}

/// The transcript that was fetched, under the identifier of its video.
pub open spec fn new_transcript(before: Option<StoredView>, f: FetchedVideo) -> Option<
    TranscriptView,
> {
    match f.transcript {
        Some(x) => Some(TranscriptView { video_id: kept_id(before, f), ..x@ }),
        None => None,
    }
}

/// The comments that were fetched, under the identifier of their video.
pub open spec fn new_comments(before: Option<StoredView>, f: FetchedVideo) -> Seq<CommentView> {
    Seq::new(
        f.comments@.len(),
        |i: int| CommentView { video_id: kept_id(before, f), ..f.comments@[i]@ },
    )
}

/// The transcript that is stored: the new one, or the one that there was where
/// nothing was settled.
pub open spec fn stored_transcript(before: Option<StoredView>, f: FetchedVideo) -> Option<
    TranscriptView,
> {
    match before {
        Some(b) => if settles(f, ArtifactKind::Transcript) {
            new_transcript(before, f)
        } else {
            b.transcript
        },
        None => new_transcript(before, f),
    }
}

/// Whether comments are those that are stored: the new ones, all of them and no
/// others, in the order in which they are shown; or those that there were where
/// nothing was settled.
pub open spec fn are_stored_comments(
    before: Option<StoredView>,
    f: FetchedVideo,
    r: Seq<CommentView>,
) -> bool {
    if before is Some && !settles(f, ArtifactKind::Comments) {
        r == before->Some_0.comments
    } else {
        in_order(r) && r.to_multiset() == new_comments(before, f).to_multiset()
    }
}

/// Whether `r` is what is stored of a video that was fetched, after what was
/// stored of it before.
pub open spec fn is_saved(before: Option<StoredView>, f: FetchedVideo, r: StoredView) -> bool {
    &&& r.video == (model::VideoView { id: kept_id(before, f), ..f.video@ })
    &&& r.transcript == stored_transcript(before, f)
    &&& are_stored_comments(before, f, r.comments)
}

fn comments_under(v: &Vec<Comment>, id: &str) -> (r: Vec<Comment>)
    ensures
        model::comments_view(r@) == Seq::new(
            v@.len(),
            |i: int| CommentView { video_id: id@, ..v@[i]@ },
        ),
{
    let ghost all = Seq::new(v@.len(), |i: int| CommentView { video_id: id@, ..v@[i]@ });
    let mut r: Vec<Comment> = Vec::new();
    let mut k: usize = 0;
    assert(model::comments_view(r@) =~= all.take(0));
    while k < v.len()
        invariant
            k <= v@.len(),
            all == Seq::new(v@.len(), |i: int| CommentView { video_id: id@, ..v@[i]@ }),
            model::comments_view(r@) == all.take(k as int),
        decreases v@.len() - k,
    {
        let ghost before = model::comments_view(r@);
        let c = v[k].under(id);
        r.push(c);
        k = k + 1;
        assert(model::comments_view(r@) =~= before.push(c@));
        assert(model::comments_view(r@) =~= all.take(k as int));
    }
    assert(all.take(k as int) =~= all);
    r
}

/// What is stored of a video that was fetched. A video that is stored keeps its
/// identifier; what the platform says of it is replaced, and so are transcript
/// and comments where it is settled what they are. A fetch that failed does not
/// cost what an earlier one got.
pub fn after_save(before: Option<StoredVideo>, f: &FetchedVideo) -> (r: StoredVideo)
    ensures
        is_saved(store::opt_stored(before), *f, r@),
{
    let ghost was = store::opt_stored(before);
    let heard = f.status_of(ArtifactKind::Transcript);
    let read = f.status_of(ArtifactKind::Comments);
    let (id, old_transcript, old_comments) = match before {
        Some(b) => (b.video.id, Some(b.transcript), Some(b.comments)),
        None => (f.video.id.clone(), None, None),
    };
    let transcript = match old_transcript {
        Some(t) if !heard.is_conclusive() => t,
        _ => match &f.transcript {
            Some(t) => Some(t.under(id.as_str())),
            None => None,
        },
    };
    let comments = match old_comments {
        Some(c) if !read.is_conclusive() => c,
        _ => {
            let v = comments_under(&f.comments, id.as_str());
            assert(model::comments_view(v@) =~= new_comments(was, *f));
            hottest_first(v)
        },
    };
    StoredVideo { video: f.video.under(id.as_str()), transcript, comments }
}

/// A fetch that settles nothing keeps the transcript and the comments that are
/// stored, and the identifier in any case.
pub proof fn law_failures_cost_nothing(before: StoredView, f: FetchedVideo, r: StoredView)
    requires
        is_saved(Some(before), f, r),
    ensures
        r.video.id == before.video.id,
        !settles(f, ArtifactKind::Transcript) ==> r.transcript == before.transcript,
        !settles(f, ArtifactKind::Comments) ==> r.comments == before.comments,
{
}

/// To store the same again changes nothing, but perhaps the order of comments that
/// equally many people like.
pub proof fn law_saving_twice_is_saving_once(
    before: Option<StoredView>,
    f: FetchedVideo,
    once: StoredView,
    twice: StoredView,
)
    requires
        is_saved(before, f, once),
        is_saved(Some(once), f, twice),
    ensures
        twice.video == once.video,
        twice.transcript == once.transcript,
        twice.comments.to_multiset() == once.comments.to_multiset(),
{
    assert(new_comments(before, f) =~= new_comments(Some(once), f));
}

/// Records of calls without those of a kind, among the first `n`.
pub open spec fn without_kind(v: Seq<ArtifactView>, kind: ArtifactKind, n: int) -> Seq<ArtifactView>
    decreases n,
{
    if n <= 0 || n > v.len() {
        seq![]
    } else if v[n - 1].kind == kind {
        without_kind(v, kind, n - 1)
    } else {
        without_kind(v, kind, n - 1).push(v[n - 1])
    }
}

/// Records of calls with the first `n` of the new ones, each in the place of an older one
/// of its kind.
pub open spec fn with_answers(v: Seq<ArtifactView>, new: Seq<ArtifactView>, n: int) -> Seq<
    ArtifactView,
>
    decreases n,
{
    if n <= 0 || n > new.len() {
        v
    } else {
        let earlier = with_answers(v, new, n - 1);
        without_kind(earlier, new[n - 1].kind, earlier.len() as int).push(new[n - 1])
    }
}

/// Whether one comment comes before another: the one that more people like; those
/// of which that is not known come last.
pub open spec fn comes_first(a: CommentView, b: CommentView) -> bool {
    match (a.like_count, b.like_count) {
        (Some(m), Some(n)) => m >= n,
        (Some(_), None) => true,
        (None, Some(_)) => false,
        (None, None) => true,
    }
}

/// Whether comments are in their order.
pub open spec fn in_order(v: Seq<CommentView>) -> bool {
    forall|i: int, j: int| 0 <= i < j < v.len() ==> comes_first(#[trigger] v[i], #[trigger] v[j])
}

proof fn lemma_beginning(v: Seq<CommentView>, n: int)
    requires
        0 <= n <= v.len(),
    ensures
        in_order(v) ==> in_order(v.take(n)),
{
    if in_order(v) {
        assert forall|i: int, j: int| 0 <= i < j < n implies comes_first(
            #[trigger] v.take(n)[i],
            #[trigger] v.take(n)[j],
        ) by {
            assert(comes_first(v[i], v[j]));
        }
    }
}

fn goes_before(a: &Comment, b: &Comment) -> (r: bool)
    ensures
        r == comes_first(a@, b@),
{
    match (a.like_count, b.like_count) {
        (Some(m), Some(n)) => m >= n,
        (Some(_), None) => true,
        (None, Some(_)) => false,
        (None, None) => true,
    }
}

fn insert_in_order(v: &mut Vec<Comment>, c: Comment)
    requires
        in_order(model::comments_view(old(v)@)),
    ensures
        in_order(model::comments_view(final(v)@)),
        model::comments_view(final(v)@).to_multiset() == model::comments_view(
            old(v)@,
        ).to_multiset().insert(c@),
        in_order(model::comments_view(old(v)@).push(c@)) ==> model::comments_view(final(v)@)
            == model::comments_view(old(v)@).push(c@),
{
    let ghost first = model::comments_view(v@);
    let ghost x = c@;
    let mut k: usize = v.len();
    while k > 0 && !goes_before(&v[k - 1], &c)
        invariant
            model::comments_view(v@) == first,
            k <= v@.len(),
            in_order(first),
            c@ == x,
            forall|i: int| k <= i < first.len() ==> !comes_first(#[trigger] first[i], x),
            in_order(first.push(x)) ==> k == v@.len(),
        decreases k,
    {
        assert(v@[k - 1]@ == first[k - 1]);
        assert(first.push(x)[k - 1] == first[k - 1]);
        assert(first.push(x)[first.len() as int] == x);
        k = k - 1;
    }
    let ghost stood = v@;
    v.insert(k, c);
    let ghost last = model::comments_view(v@);
    proof {
        assert(last =~= first.insert(k as int, x)) by {
            assert forall|i: int| 0 <= i < last.len() implies last[i] == first.insert(k as int, x)[i] by {
                if i < k {
                    assert(stood[i]@ == first[i]);
                } else if i > k {
                    assert(stood[i - 1]@ == first[i - 1]);
                }
            }
        }
        vstd::seq_lib::to_multiset_insert(first, k as int, x);
        if 0 < k {
            assert(stood[k - 1]@ == first[k - 1]);
            assert(comes_first(first[k - 1], x));
        }
        assert forall|i: int, j: int| 0 <= i < j < last.len() implies comes_first(
            #[trigger] last[i],
            #[trigger] last[j],
        ) by {
            let a = if i < k { i } else { i - 1 };
            let b = if j < k { j } else { j - 1 };
            if i == k {
                assert(!comes_first(first[b], x));
            } else if j == k {
                assert(last[i] == first[a]);
                assert(a == k - 1 || comes_first(first[a], first[k - 1]));
            } else {
                assert(comes_first(first[a], first[b]));
            }
        }
        if in_order(first.push(x)) {
            assert(last =~= first.push(x));
        }
    }
}

/// Comments in the order in which they are shown. Those that are in order stay as
/// they are.
pub fn hottest_first(v: Vec<Comment>) -> (r: Vec<Comment>)
    ensures
        in_order(model::comments_view(r@)),
        model::comments_view(r@).to_multiset() == model::comments_view(v@).to_multiset(),
        in_order(model::comments_view(v@)) ==> model::comments_view(r@) == model::comments_view(v@),
{
    let ghost all = model::comments_view(v@);
    let ghost raw = v@;
    let mut rest = v;
    let mut r: Vec<Comment> = Vec::new();
    let ghost mut n: int = 0;
    assert(all.take(0) =~= model::comments_view(r@));
    while rest.len() > 0
        invariant
            0 <= n <= raw.len(),
            all == model::comments_view(raw),
            rest@ == raw.skip(n),
            in_order(model::comments_view(r@)),
            model::comments_view(r@).to_multiset() == all.take(n).to_multiset(),
            in_order(all) ==> model::comments_view(r@) == all.take(n),
        decreases rest@.len(),
    {
        let c = rest.remove(0);
        assert(c == raw[n]);
        assert(all.take(n + 1) =~= all.take(n).push(c@));
        proof {
            lemma_beginning(all, n + 1);
        }
        insert_in_order(&mut r, c);
        proof {
            vstd::seq_lib::to_multiset_build(all.take(n), all[n]);
            n = n + 1;
        }
        assert(rest@ =~= raw.skip(n));
    }
    assert(all.take(n) =~= all);
    r
}

} // verus!
