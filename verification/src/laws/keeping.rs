//! What is kept of videos and of conversations.

use vstd::prelude::*;
use crate::content::model;
use crate::content::model::{
    Artifact, ArtifactKind, ArtifactView, CommentView, FetchStatus, FetchedVideo, VideoView,
};
use crate::content::dossier::LookView;
use crate::ingest::url::Platform;
use crate::laws::texts;
use crate::store::claim;
use crate::store::claim::{AccessFile, FateView};
use crate::store::migrate;
use crate::store::shelf;
use crate::store;
use crate::store::{Store, StoredView};
use crate::text;

verus! {

/// How an endpoint answered is what the first record of it says; without a record it counts
/// as one that did not answer.
pub proof fn law_first_record_counts(v: Seq<Artifact>, kind: ArtifactKind, i: int)
    ensures
        0 <= i < v.len() && v[i].kind == kind && (forall|j: int|
            0 <= j < i ==> (#[trigger] v[j]).kind != kind) ==> model::status_from(v, kind, 0)
            == v[i].status,
        (forall|j: int| 0 <= j < v.len() ==> (#[trigger] v[j]).kind != kind) ==> model::status_from(
            v,
            kind,
            0,
        ) == FetchStatus::Failed,
{
    if 0 <= i < v.len() && v[i].kind == kind && (forall|j: int|
        0 <= j < i ==> (#[trigger] v[j]).kind != kind) {
        lemma_status(v, kind, 0, i);
    }
    if forall|j: int| 0 <= j < v.len() ==> (#[trigger] v[j]).kind != kind {
        lemma_no_status(v, kind, 0);
    }
}

proof fn lemma_status(v: Seq<Artifact>, kind: ArtifactKind, k: int, i: int)
    requires
        0 <= k <= i < v.len(),
        v[i].kind == kind,
        forall|j: int| 0 <= j < i ==> (#[trigger] v[j]).kind != kind,
    ensures
        model::status_from(v, kind, k) == v[i].status,
    decreases i - k,
{
    if k < i {
        assert(v[k].kind != kind);
        lemma_status(v, kind, k + 1, i);
    }
}

proof fn lemma_no_status(v: Seq<Artifact>, kind: ArtifactKind, k: int)
    requires
        0 <= k <= v.len(),
        forall|j: int| 0 <= j < v.len() ==> (#[trigger] v[j]).kind != kind,
    ensures
        model::status_from(v, kind, k) == FetchStatus::Failed,
    decreases v.len() - k,
{
    if k < v.len() {
        assert(v[k].kind != kind);
        lemma_no_status(v, kind, k + 1);
    }
}

/// What is stored of a video is what was fetched of it, under the identifier that it has
/// had from the first time on: its record, its transcript and its comments, all of them and
/// no others; but what an endpoint did not answer leaves what there was.
pub proof fn law_what_was_fetched_is_stored(before: Option<StoredView>, f: FetchedVideo, r: StoredView)
    requires
        shelf::is_saved(before, f, r),
    ensures
        before matches Some(b) ==> r.video.id == b.video.id,
        before is None ==> r.video.id == f.video.id@,
        r.video.platform == f.video.platform,
        r.video.native_id == f.video.native_id@,
        r.video.url == f.video.url@,
        r.video.title == text::opt(f.video.title),
        r.video.description == text::opt(f.video.description),
        r.video.view_count == model::opt_int(f.video.view_count),
        r.video.like_count == model::opt_int(f.video.like_count),
        r.video.comment_count == model::opt_int(f.video.comment_count),
        r.video.duration_sec == model::opt_int(f.video.duration_sec),
        r.video.published_at == model::opt_int(f.video.published_at),
        r.video.fetched_at == f.video.fetched_at,
        before is None || model::status_from(f.artifacts@, ArtifactKind::Transcript, 0)
            != FetchStatus::Failed ==> match f.transcript {
            Some(t) => r.transcript matches Some(x) && x.text == t.text@ && x.video_id == r.video.id
                && x.source == t.source@ && x.lang == text::opt(t.lang),
            None => r.transcript is None,
        },
        before matches Some(b) ==> (model::status_from(f.artifacts@, ArtifactKind::Transcript, 0)
            == FetchStatus::Failed ==> r.transcript == b.transcript),
        before is None || model::status_from(f.artifacts@, ArtifactKind::Comments, 0)
            != FetchStatus::Failed ==> r.comments.len() == f.comments@.len() && forall|i: int|
            0 <= i < f.comments@.len() ==> r.comments.contains(
                CommentView { video_id: r.video.id, ..(#[trigger] f.comments@[i])@ },
            ),
        before matches Some(b) ==> (model::status_from(f.artifacts@, ArtifactKind::Comments, 0)
            == FetchStatus::Failed ==> r.comments == b.comments),
{
    broadcast use vstd::seq_lib::group_to_multiset_ensures;

    if before is None || model::status_from(f.artifacts@, ArtifactKind::Comments, 0)
        != FetchStatus::Failed {
        let new = shelf::new_comments(before, f);
        assert(r.comments.to_multiset() == new.to_multiset());
        assert(r.comments.to_multiset().len() == new.to_multiset().len());
        assert forall|i: int| 0 <= i < f.comments@.len() implies r.comments.contains(
            CommentView { video_id: r.video.id, ..(#[trigger] f.comments@[i])@ },
        ) by {
            let c = CommentView { video_id: r.video.id, ..f.comments@[i]@ };
            assert(new[i] == c);
            assert(new.contains(c));
            assert(new.to_multiset().count(c) > 0);
            assert(r.comments.to_multiset().count(c) > 0);
        }
    }
}

/// Comments are shown from the one that most people like to the one that fewest do; those
/// of which that is not known come last.
pub proof fn law_best_comments_come_first(v: Seq<CommentView>, i: int, j: int)
    requires
        shelf::in_order(v),
        0 <= i < j < v.len(),
    ensures
        match (v[i].like_count, v[j].like_count) {
            (Some(m), Some(n)) => m >= n,
            (None, Some(_)) => false,
            _ => true,
        },
{
    assert(shelf::comes_first(v[i], v[j]));
}

/// A list of the videos that are stored goes from the one that was fetched last to the
/// first, has no more than as many as are wished, and each of them once and as it is
/// stored; one that is not on it was fetched no later than those that are, and there was no
/// room for it.
pub proof fn law_latest_videos_are_listed_first(
    kept: store::Videos,
    limit: int,
    r: Seq<VideoView>,
    i: int,
    j: int,
    key: (Platform, Seq<char>),
)
    requires
        store::is_list(kept, limit, r),
    ensures
        r.len() <= limit,
        0 <= i < j < r.len() ==> r[i].fetched_at >= r[j].fetched_at && (r[i].platform, r[i].native_id)
            != (r[j].platform, r[j].native_id),
        0 <= i < r.len() ==> kept.dom().contains((r[i].platform, r[i].native_id)) && kept[(
            r[i].platform,
            r[i].native_id,
        )].video == r[i],
        kept.dom().contains(key) && (forall|k: int|
            0 <= k < r.len() ==> ((#[trigger] r[k]).platform, r[k].native_id) != key) ==> r.len()
            == limit && (0 <= i < r.len() ==> r[i].fetched_at >= kept[key].video.fetched_at),
{
    if kept.dom().contains(key) && (forall|k: int|
        0 <= k < r.len() ==> ((#[trigger] r[k]).platform, r[k].native_id) != key) {
        assert(!store::is_listed(r, key));
    }
    if 0 <= i < j < r.len() {
        assert(store::key_of(r[i]) != store::key_of(r[j]));
    }
    if 0 <= i < r.len() {
        assert(kept.dom().contains(store::key_of(r[i])));
    }
}

/// A look that is kept stands before the older ones of its video; those of other videos,
/// and everything else that is stored, stay as they are.
pub proof fn law_latest_look_comes_first<S: Store>(
    before: S,
    id: Seq<char>,
    look: LookView,
    after: S,
    other: Seq<char>,
)
    requires
        store::keeps(before, id, look, true, after),
    ensures
        after.looks(id).len() == before.looks(id).len() + 1,
        after.looks(id)[0] == look,
        after.looks(id).skip(1) == before.looks(id),
        other != id ==> after.looks(other) == before.looks(other),
        after.kept() == before.kept(),
{
    assert((seq![look] + before.looks(id)).skip(1) =~= before.looks(id));
}

/// A record of an endpoint takes the place of the older one of its kind; those of the other
/// kinds stay as they are, and in their order.
pub proof fn law_new_records_replace_old_ones(v: Seq<ArtifactView>, new: Seq<ArtifactView>, n: int)
    requires
        0 <= n < new.len(),
    ensures
        ({
            let a = shelf::with_answers(v, new, n);
            let b = shelf::with_answers(v, new, n + 1);
            &&& shelf::with_answers(v, new, 0) == v
            &&& b.len() > 0 && b.last() == new[n]
            &&& forall|i: int|
                0 <= i < b.len() - 1 ==> (#[trigger] b[i]).kind != new[n].kind && a.contains(b[i])
            &&& forall|i: int|
                0 <= i < a.len() && (#[trigger] a[i]).kind != new[n].kind ==> b.contains(a[i])
        }),
{
    let a = shelf::with_answers(v, new, n);
    let b = shelf::with_answers(v, new, n + 1);
    let rest = shelf::without_kind(a, new[n].kind, a.len() as int);
    lemma_without(a, new[n].kind, a.len() as int);
    assert(b == rest.push(new[n]));
    assert forall|i: int| 0 <= i < b.len() - 1 implies (#[trigger] b[i]).kind != new[n].kind
        && a.contains(b[i]) by {
        assert(b[i] == rest[i]);
    }
    assert forall|i: int| 0 <= i < a.len() && (#[trigger] a[i]).kind != new[n].kind implies b.contains(
        a[i],
    ) by {
        let k = choose|k: int| 0 <= k < rest.len() && rest[k] == a[i];
        assert(b[k] == a[i]);
    }
}

proof fn lemma_without(v: Seq<ArtifactView>, kind: ArtifactKind, n: int)
    requires
        0 <= n <= v.len(),
    ensures
        ({
            let r = shelf::without_kind(v, kind, n);
            &&& forall|i: int|
                0 <= i < r.len() ==> (#[trigger] r[i]).kind != kind && v.contains(r[i])
            &&& forall|i: int|
                0 <= i < n && (#[trigger] v[i]).kind != kind ==> exists|k: int|
                    0 <= k < r.len() && #[trigger] r[k] == v[i]
        }),
    decreases n,
{
    if n > 0 {
        lemma_without(v, kind, n - 1);
        let before = shelf::without_kind(v, kind, n - 1);
        let r = shelf::without_kind(v, kind, n);
        if v[n - 1].kind != kind {
            assert(r[before.len() as int] == v[n - 1]);
            assert forall|i: int| 0 <= i < r.len() implies (#[trigger] r[i]).kind != kind
                && v.contains(r[i]) by {
                if i < before.len() {
                    assert(r[i] == before[i]);
                }
            }
            assert forall|i: int| 0 <= i < n && (#[trigger] v[i]).kind != kind implies exists|
                k: int,
            |
                0 <= k < r.len() && #[trigger] r[k] == v[i] by {
                if i < n - 1 {
                    let k = choose|k: int| 0 <= k < before.len() && before[k] == v[i];
                    assert(r[k] == v[i]);
                }
            }
        }
    }
}

/// A conversation is given to the user that its code has become; to nobody else where the
/// code has not become one; and one without a code to whom those are given, where somebody
/// is named.
pub proof fn law_conversations_go_to_their_users(
    access: AccessFile,
    unowned: Option<Seq<char>>,
    session: Seq<char>,
    code: Seq<char>,
    user: Seq<char>,
    i: int,
    k: int,
)
    requires
        user.len() > 0,
    ensures
        is_pair(access.owner@, session, code, i) && is_pair(access.users@, code, user, k)
            ==> claim::fate(access, unowned, session, None) == FateView::Given(user),
        is_pair(access.owner@, session, code, i) && (forall|j: int|
            0 <= j < access.users@.len() ==> (#[trigger] access.users@[j]).0@ != code) ==> claim::fate(
            access,
            unowned,
            session,
            None,
        ) == FateView::NoUser,
        (forall|j: int| 0 <= j < access.owner@.len() ==> (#[trigger] access.owner@[j]).0@ != session)
            ==> claim::fate(access, Some(user), session, None) == FateView::Given(user),
{
    if is_pair(access.owner@, session, code, i) {
        lemma_pair(access.owner@, session, code, 0, i);
        if is_pair(access.users@, code, user, k) {
            lemma_pair(access.users@, code, user, 0, k);
        }
        if forall|j: int| 0 <= j < access.users@.len() ==> (#[trigger] access.users@[j]).0@ != code {
            lemma_no_pair(access.users@, code, 0);
        }
    }
    if forall|j: int| 0 <= j < access.owner@.len() ==> (#[trigger] access.owner@[j]).0@ != session {
        lemma_no_pair(access.owner@, session, 0);
    }
}

/// Whether `value` stands beside `key` in the `i`-th pair, and `key` in none before it.
pub open spec fn is_pair(v: Seq<(String, String)>, key: Seq<char>, value: Seq<char>, i: int) -> bool {
    0 <= i < v.len() && v[i].0@ == key && v[i].1@ == value && forall|j: int|
        0 <= j < i ==> (#[trigger] v[j]).0@ != key
}

proof fn lemma_pair(v: Seq<(String, String)>, key: Seq<char>, value: Seq<char>, k: int, i: int)
    requires
        is_pair(v, key, value, i),
        0 <= k <= i,
    ensures
        claim::found_from(v, key, k) == Some(value),
    decreases i - k,
{
    if k < i {
        assert(v[k].0@ != key);
        lemma_pair(v, key, value, k + 1, i);
    }
}

proof fn lemma_no_pair(v: Seq<(String, String)>, key: Seq<char>, k: int)
    requires
        0 <= k <= v.len(),
        forall|j: int| 0 <= j < v.len() ==> (#[trigger] v[j]).0@ != key,
    ensures
        claim::found_from(v, key, k) is None,
    decreases v.len() - k,
{
    if k < v.len() {
        assert(v[k].0@ != key);
        lemma_no_pair(v, key, k + 1);
    }
}

/// Each conversation that is given to somebody is listed with whom it is given to, in the
/// order of the conversations, and no other is.
pub proof fn law_gifts_are_listed(
    access: AccessFile,
    unowned: Option<Seq<char>>,
    rows: Seq<(String, Option<String>)>,
    n: int,
)
    requires
        0 <= n < rows.len(),
    ensures
        ({
            let a = claim::given_to(access, unowned, rows, n);
            let b = claim::given_to(access, unowned, rows, n + 1);
            match claim::fate(access, unowned, rows[n].0@, text::opt(rows[n].1)) {
                FateView::Given(u) => b == a.push((rows[n].0@, u)),
                _ => b == a,
            }
        }),
        claim::given_to(access, unowned, rows, 0).len() == 0,
{
}

/// Each conversation that comes to an end is listed under it, in the order of the
/// conversations, and under no other.
pub proof fn law_ends_are_listed(
    access: AccessFile,
    unowned: Option<Seq<char>>,
    rows: Seq<(String, Option<String>)>,
    f: FateView,
    n: int,
)
    requires
        0 <= n < rows.len(),
    ensures
        ({
            let a = claim::sessions_with(access, unowned, rows, f, n);
            let b = claim::sessions_with(access, unowned, rows, f, n + 1);
            if claim::fate(access, unowned, rows[n].0@, text::opt(rows[n].1)) == f {
                b == a.push(rows[n].0@)
            } else {
                b == a
            }
        }),
        claim::sessions_with(access, unowned, rows, f, 0).len() == 0,
{
}

/// A database is of use exactly in the version that the program wants; of another one both
/// versions are named.
pub proof fn law_versions_must_match(have: int)
    ensures
        migrate::mismatch(have) is None <==> have == 2,
        migrate::mismatch(have) matches Some(t) ==> text::contains(
            t,
            "第 "@ + text::int_text(have) + " 版"@,
        ),
{
    reveal_strlit("第 ");
    reveal_strlit(" 版");
    if have != 2 {
        let p = "第 "@ + text::int_text(have) + " 版"@;
        if have < 2 {
            let a = "数据库还停在第 "@;
            let b = " 版，代码要第 "@;
            let c = text::int_text(2) + " 版。先跑一次：clipknow migrate"@;
            reveal_strlit("数据库还停在第 ");
            reveal_strlit(" 版，代码要第 ");
            let pre = a.take(a.len() - 2);
            assert(a =~= pre + "第 "@);
            assert(b =~= " 版"@ + b.skip(2));
            assert(migrate::mismatch(have)->Some_0 =~= pre + p + (b.skip(2) + c));
            texts::lemma_contains_middle(pre, p, b.skip(2) + c);
        } else {
            let a = "数据库是第 "@;
            let b = " 版，比这个程序（第 "@;
            let c = text::int_text(2)
                + " 版）还新。多半是回退了代码却没回退库——用对应版本的程序，或者从备份恢复。"@;
            reveal_strlit("数据库是第 ");
            reveal_strlit(" 版，比这个程序（第 ");
            let pre = a.take(a.len() - 2);
            assert(a =~= pre + "第 "@);
            assert(b =~= " 版"@ + b.skip(2));
            assert(migrate::mismatch(have)->Some_0 =~= pre + p + (b.skip(2) + c));
            texts::lemma_contains_middle(pre, p, b.skip(2) + c);
        }
    }
}

} // verus!
