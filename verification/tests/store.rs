//! What is kept of videos and conversations.

use clipknow::content::model::{
    new_id, now_ts, Artifact, ArtifactKind, Comment, FetchedVideo, Transcript, Video,
};
use clipknow::content::dossier::StoredDossier;
use clipknow::error::ClipKnowError;
use clipknow::ingest::url::Platform;
use clipknow::store::claim::{claim, fate_of, AccessFile, Claims, Fate};
use clipknow::store::migrate::{check, current_version, expected_version, is_legacy, pending, Due};
use clipknow::store::memory::MemoryStore;
use clipknow::store::shelf::{after_save, hottest_first};
use clipknow::store::{DossierStore, Store, StoredVideo};

fn sample(native_id: &str, title: &str) -> FetchedVideo {
    let vid = new_id();
    FetchedVideo {
        video: Video {
            id: vid.clone(),
            platform: Platform::YouTube,
            native_id: native_id.to_string(),
            url: format!("https://youtube.com/watch?v={native_id}"),
            title: Some(title.to_string()),
            author_handle: Some("someone".into()),
            author_name: Some("Some One".into()),
            duration_sec: Some(57),
            published_at: Some(1772402418),
            view_count: Some(231),
            like_count: Some(1),
            comment_count: None,
            description: Some("desc".into()),
            fetched_at: now_ts(),
        },
        transcript: Some(Transcript {
            video_id: vid.clone(),
            text: "hello world".into(),
            source: "sc".into(),
            lang: Some("English".into()),
            fetched_at: now_ts(),
        }),
        comments: vec![
            Comment {
                id: "c1".into(),
                video_id: vid.clone(),
                author: Some("a".into()),
                text: "冷门评论".into(),
                like_count: Some(3),
                published_at: Some(1755412863),
            },
            Comment {
                id: "c2".into(),
                video_id: vid,
                author: Some("b".into()),
                text: "热门评论".into(),
                like_count: Some(999),
                published_at: Some(1755412863),
            },
        ],
        artifacts: vec![
            Artifact::ok(ArtifactKind::Detail, r#"{"ok":true}"#.into()),
            Artifact::ok(ArtifactKind::Transcript, "{}".into()),
            Artifact::ok(ArtifactKind::Comments, "{}".into()),
        ],
    }
}

// ---------------------------------------------------------------------------
// Videos

fn find(s: &MemoryStore, native_id: &str) -> Option<StoredVideo> {
    s.find_by_native(Platform::YouTube, native_id).unwrap()
}

#[test]
fn saves_and_reads_back_everything() {
    let mut s = MemoryStore::new();
    s.save(&sample("abc", "标题")).unwrap();

    let got = find(&s, "abc").expect("应该查到");
    assert_eq!(got.video.title.as_deref(), Some("标题"));
    assert_eq!(got.video.duration_sec, Some(57));
    assert_eq!(got.video.comment_count, None, "NULL 应该原样读回来");
    assert_eq!(got.transcript.unwrap().text, "hello world");
    assert_eq!(got.comments.len(), 2);
}

#[test]
fn comments_come_back_hottest_first() {
    let mut s = MemoryStore::new();
    s.save(&sample("abc", "标题")).unwrap();
    let got = find(&s, "abc").unwrap();
    assert_eq!(got.comments[0].text, "热门评论", "点赞多的排前面");
}

#[test]
fn missing_video_returns_none_not_error() {
    let s = MemoryStore::new();
    assert!(find(&s, "nope").is_none());
}

#[test]
fn resaving_same_video_updates_in_place_keeping_id() {
    let mut s = MemoryStore::new();
    let id1 = s.save(&sample("abc", "旧标题")).unwrap();
    let id2 = s.save(&sample("abc", "新标题")).unwrap();

    assert_eq!(id1, id2, "重抓同一个视频必须复用原来的 id");
    let got = find(&s, "abc").unwrap();
    assert_eq!(got.video.title.as_deref(), Some("新标题"));
    assert_eq!(s.list_videos(100).unwrap().len(), 1, "不能变成两条记录");
}

#[test]
fn resaving_replaces_comments_rather_than_accumulating() {
    let mut s = MemoryStore::new();
    s.save(&sample("abc", "t")).unwrap();
    let mut second = sample("abc", "t");
    second.comments.truncate(1);
    s.save(&second).unwrap();

    let got = find(&s, "abc").unwrap();
    assert_eq!(got.comments.len(), 1, "重抓后评论应以最新一批为准，不能累积");
}

#[test]
fn video_without_transcript_is_fine() {
    let mut s = MemoryStore::new();
    let mut f = sample("silent", "无人声");
    f.transcript = None;
    f.comments.clear();
    s.save(&f).unwrap();

    let got = find(&s, "silent").unwrap();
    assert!(got.transcript.is_none());
    assert!(got.comments.is_empty());
}

#[test]
fn what_was_fetched_belongs_to_the_stored_video() {
    let mut s = MemoryStore::new();
    let id = s.save(&sample("abc", "t")).unwrap();
    s.save(&sample("abc", "t")).unwrap();
    let got = find(&s, "abc").unwrap();
    assert_eq!(got.video.id, id);
    assert_eq!(got.transcript.unwrap().video_id, id);
    assert!(got.comments.iter().all(|c| c.video_id == id));
}

#[test]
fn only_what_is_settled_replaces_what_is_stored() {
    let mut s = MemoryStore::new();
    s.save(&sample("abc", "t")).unwrap();

    let mut failed = sample("abc", "t");
    failed.transcript = None;
    failed.comments.clear();
    failed.artifacts[1] = Artifact::failed(ArtifactKind::Transcript, "断了".into());
    failed.artifacts[2] = Artifact::failed(ArtifactKind::Comments, "断了".into());
    s.save(&failed).unwrap();
    let got = find(&s, "abc").unwrap();
    assert_eq!(got.transcript.unwrap().text, "hello world");
    assert_eq!(got.comments.len(), 2);

    let mut none = sample("abc", "t");
    none.transcript = None;
    none.artifacts[1] = Artifact::unavailable(ArtifactKind::Transcript, "{}".into());
    s.save(&none).unwrap();
    assert!(find(&s, "abc").unwrap().transcript.is_none());
}

#[test]
fn list_videos_is_newest_first() {
    let mut s = MemoryStore::new();
    let mut old = sample("old", "旧的");
    old.video.fetched_at = 1000;
    let mut new = sample("new", "新的");
    new.video.fetched_at = 2000;
    s.save(&old).unwrap();
    s.save(&new).unwrap();

    let list = s.list_videos(10).unwrap();
    assert_eq!(list.len(), 2);
    assert_eq!(list[0].title.as_deref(), Some("新的"), "最近抓的排前面");
}

#[test]
fn a_list_of_videos_ends_at_its_limit() {
    let mut s = MemoryStore::new();
    for (id, at) in [("a", 3), ("b", 9), ("c", 5), ("d", 9)] {
        let mut f = sample(id, id);
        f.video.fetched_at = at;
        s.save(&f).unwrap();
    }
    let mut again = sample("a", "a");
    again.video.fetched_at = 7;
    s.save(&again).unwrap();
    let times = |n| -> Vec<i64> {
        s.list_videos(n).unwrap().iter().map(|v| v.fetched_at).collect()
    };
    assert_eq!(times(10), [9, 9, 7, 5]);
    assert_eq!(times(3), [9, 9, 7]);
    assert!(times(0).is_empty());
}

#[test]
fn what_was_stored_is_found_and_nothing_else() {
    let mut s = MemoryStore::new();
    let f = sample("abc", "标题");
    let id = s.save(&f).unwrap();
    assert_eq!(id, f.video.id);
    let got = find(&s, "abc").unwrap();
    assert_eq!(got.video.id, id);
    assert_eq!(got.video.url, f.video.url);
    assert_eq!(got.video.description.as_deref(), Some("desc"));
    assert_eq!(got.video.published_at, Some(1772402418));
    let ids: Vec<&str> = got.comments.iter().map(|c| c.id.as_str()).collect();
    assert_eq!(ids, ["c2", "c1"]);
    assert!(find(&s, "abd").is_none());
    assert!(s.find_by_native(Platform::TikTok, "abc").unwrap().is_none());
}

#[test]
fn failed_comments_keep_the_old_ones_in_their_order() {
    let mut s = MemoryStore::new();
    let id = s.save(&sample("abc", "旧")).unwrap();
    let mut f = sample("abc", "新");
    f.comments.truncate(1);
    f.artifacts[2] = Artifact::failed(ArtifactKind::Comments, "断了".into());
    assert_eq!(s.save(&f).unwrap(), id);
    let got = find(&s, "abc").unwrap();
    assert_eq!(got.video.title.as_deref(), Some("新"));
    let ids: Vec<&str> = got.comments.iter().map(|c| c.id.as_str()).collect();
    assert_eq!(ids, ["c2", "c1"]);
}

#[test]
fn a_first_fetch_is_stored_whatever_its_records_say() {
    let mut f = sample("abc", "标题");
    f.artifacts.clear();
    let sv = after_save(None, &f);
    assert_eq!(sv.video.id, f.video.id);
    assert_eq!(sv.transcript.unwrap().text, "hello world");
    assert_eq!(sv.comments.len(), 2);

    let mut s = MemoryStore::new();
    s.save(&f).unwrap();
    assert_eq!(find(&s, "abc").unwrap().comments.len(), 2);
}

#[test]
fn each_endpoint_has_one_record() {
    let mut s = MemoryStore::new();
    let id = s.save(&sample("abc", "t")).unwrap();
    let mut f = sample("abc", "t");
    f.artifacts = vec![Artifact::ok(ArtifactKind::Detail, "new".into())];
    s.save(&f).unwrap();
    s.save(&sample("xyz", "t")).unwrap();
    let got = s.get_artifacts(&id).unwrap();
    let kinds: Vec<&str> = got.iter().map(|a| a.kind.as_str()).collect();
    assert_eq!(kinds, ["transcript", "comments", "detail"]);
    assert_eq!(got[2].raw_json.as_deref(), Some("new"));
    assert!(s.get_artifacts("nobody").unwrap().is_empty());
}

#[test]
fn looks_are_kept_by_video_the_latest_first() {
    let look = |text: &str| StoredDossier {
        dossier_json: text.into(),
        model: "m".into(),
        fps: "1".into(),
        question: None,
        video_tokens: Some(3),
        created_at: 5,
        provider: Some("p".into()),
        staged_ref: None,
        staged_expires_at: None,
        blocked_reason: None,
    };
    let mut s = MemoryStore::new();
    assert!(s.dossiers("v").unwrap().is_empty());
    s.save_dossier("v", &look("first")).unwrap();
    s.save_dossier("w", &look("other")).unwrap();
    s.save_dossier("v", &look("second")).unwrap();
    assert_eq!(s.dossiers("v").unwrap(), vec![look("second"), look("first")]);
    assert_eq!(s.dossiers("w").unwrap(), vec![look("other")]);
}

#[test]
fn comments_without_likes_come_last() {
    let c = |id: &str, likes: Option<i64>| Comment {
        id: id.into(),
        video_id: "v".into(),
        author: None,
        text: "t".into(),
        like_count: likes,
        published_at: None,
    };
    let sorted = hottest_first(vec![
        c("a", None),
        c("b", Some(-1)),
        c("c", Some(7)),
        c("d", Some(0)),
        c("e", None),
    ]);
    let ids: Vec<&str> = sorted.iter().map(|c| c.id.as_str()).collect();
    assert_eq!(ids[..3], ["c", "d", "b"]);
    assert_eq!(sorted[3].like_count, None);
    assert_eq!(sorted[4].like_count, None);
    assert!(hottest_first(vec![]).is_empty());
}

// ---------------------------------------------------------------------------
// Versions

#[test]
fn a_new_database_is_brought_to_the_latest_version() {
    assert_eq!(expected_version(), 2);
    assert_eq!(
        pending(0, false),
        vec![
            Due { version: 1, name: "baseline", runs: true },
            Due { version: 2, name: "multi_user", runs: true },
        ]
    );
}

#[test]
fn nothing_is_due_a_second_time() {
    assert!(pending(expected_version(), false).is_empty());
    assert!(pending(expected_version() + 1, true).is_empty());
    assert_eq!(pending(1, false), vec![Due { version: 2, name: "multi_user", runs: true }]);
}

#[test]
fn an_old_database_has_its_first_version_noted_only() {
    assert!(is_legacy(true, current_version(true, None)));
    assert!(!is_legacy(true, current_version(true, Some(1))));
    assert!(!is_legacy(false, 0));
    assert_eq!(
        pending(0, true),
        vec![
            Due { version: 1, name: "baseline", runs: false },
            Due { version: 2, name: "multi_user", runs: true },
        ]
    );
}

#[test]
fn the_version_is_the_highest_that_was_noted() {
    assert_eq!(current_version(false, Some(7)), 0);
    assert_eq!(current_version(true, None), 0);
    assert_eq!(current_version(true, Some(2)), 2);
}

#[test]
fn a_database_that_is_behind_says_what_to_run() {
    let err = check(0).unwrap_err().message();
    assert!(err.contains("clipknow migrate"), "报错要给出命令：{err}");
    assert!(err.contains("第 0 版"), "报错要说清差在哪：{err}");
    assert_eq!(err, "数据库还停在第 0 版，代码要第 2 版。先跑一次：clipknow migrate");
    assert!(check(expected_version()).is_ok());
}

#[test]
fn a_database_that_is_ahead_is_refused_too() {
    let err = check(expected_version() + 1).unwrap_err();
    assert!(matches!(err, ClipKnowError::BadRequest(_)));
    assert!(err.message().contains("比这个程序"), "要提示是回退了代码");
}

// ---------------------------------------------------------------------------
// Owners

fn pairs(v: &[(&str, &str)]) -> Vec<(String, String)> {
    v.iter().map(|(a, b)| (a.to_string(), b.to_string())).collect()
}

fn two_owned() -> AccessFile {
    AccessFile {
        users: pairs(&[("CODE_A", "ua"), ("CODE_B", "ub")]),
        owner: pairs(&[("s1", "CODE_A"), ("s2", "CODE_B")]),
    }
}

fn sessions(owners: [Option<&str>; 3]) -> Vec<(String, Option<String>)> {
    owners
        .iter()
        .enumerate()
        .map(|(i, o)| (format!("s{}", i + 1), o.map(str::to_string)))
        .collect()
}

fn given(c: &Claims) -> Vec<(&str, &str)> {
    c.claims.iter().map(|x| (x.session.as_str(), x.user.as_str())).collect()
}

#[test]
fn conversations_go_to_the_users_of_their_codes() {
    let c = claim(&sessions([None, None, None]), &two_owned(), None);
    assert_eq!(c.report.claimed, 2);
    assert_eq!(given(&c), [("s1", "ua"), ("s2", "ub")]);
}

#[test]
fn conversations_of_nobody_are_left_alone() {
    let c = claim(&sessions([None, None, None]), &two_owned(), None);
    assert_eq!(c.report.unowned, vec!["s3"]);
    assert!(!given(&c).iter().any(|x| x.0 == "s3"), "没给 --unowned 就不该动它");
}

#[test]
fn conversations_of_nobody_go_to_whoever_was_named() {
    let c = claim(&sessions([None, None, None]), &two_owned(), Some("ua"));
    assert_eq!(c.report.claimed, 3);
    assert_eq!(given(&c)[2], ("s3", "ua"));
    assert!(c.report.unowned.is_empty());
}

#[test]
fn conversations_with_a_user_keep_it() {
    let c = claim(&sessions([Some("ua"), Some("ub"), None]), &two_owned(), Some("ub"));
    assert_eq!(c.report.already, 2);
    assert_eq!(given(&c), [("s3", "ub")]);
}

#[test]
fn a_code_without_a_user_hands_nothing_over() {
    let access = AccessFile {
        users: pairs(&[("CODE_A", "")]),
        owner: pairs(&[("s1", "CODE_A")]),
    };
    let c = claim(&sessions([None, Some("x"), None]), &access, Some("ub"));
    assert_eq!(c.report.missing_user, vec!["s1"]);
    assert_eq!(given(&c), [("s3", "ub")]);
    assert!(matches!(fate_of(&access, None, "s1", &None), Fate::NoUser));
    assert!(matches!(fate_of(&access, None, "s9", &None), Fate::Nobody));
}

#[test]
fn storing_the_same_again_changes_nothing() {
    let mut s = MemoryStore::new();
    let f = sample("abc", "t");
    s.save(&f).unwrap();
    let once = format!("{:?}", find(&s, "abc"));
    s.save(&f).unwrap();
    assert_eq!(format!("{:?}", find(&s, "abc")), once);
}
