//! Running the tools that a model asks for.

use vstd::prelude::*;
use crate::agent::llm::{CallView, ToolCall};
use crate::agent::tools;
use crate::agent::tools::{
    finish_ask, plan, OutcomeView, PageStep, Paging, Plan, ToolOutcome, MAX_PAGES,
};
use crate::agent::vision::{StagedVideo, VisionClient};
use crate::agent::visit;
use crate::agent::visit::{Errand, Event, Memory, Remembered, Sight, Visit, VisitStage, VisitStep};
use crate::content::dossier;
use crate::content::dossier::{LookView, StoredDossier, VideoDossier};
use crate::content::evidence;
use crate::content::model;
use crate::content::model::{now_ts, Artifact, FetchedVideo};
use crate::error::{ClipKnowError, Result};
use crate::ingest::discovery::{DiscoveryApi, Endpoint, RawResponse};
use crate::ingest::url::{ParsedUrl, Platform};
use crate::store;
use crate::store::{DossierStore, Store, StoredVideo};
use crate::text;

verus! {

/// All that the tools need: the scraping service, the store, and the model that
/// looks at videos. Without such a model the tools still run, and say so.
pub struct ToolCtx<'a, A, S, V> {
    pub api: &'a A,
    pub store: &'a mut S,
    pub vision: Option<&'a V>,
    /// How many more videos may be looked at.
    pub vision_budget_left: usize,
}

impl<'a, A, S, V> ToolCtx<'a, A, S, V> {
    /// What the tools need where nobody looks at videos.
    pub fn text_only(api: &'a A, store: &'a mut S) -> (r: Self)
        ensures
            *r.api == *api,
            *r.store == *old(store),
            *final(r.store) == *final(store),
            r.vision is None,
            r.vision_budget_left == 0,
    {
        ToolCtx { api, store, vision: None, vision_budget_left: 0 }
    }
}

proof fn lemma_pages(
    platform: Platform,
    want: int,
    v: Seq<Result<RawResponse>>,
    w: Seq<Result<RawResponse>>,
    n: int,
)
    requires
        n <= v.len(),
        n <= w.len(),
        forall|i: int| 0 <= i < n ==> v[i] == w[i],
    ensures
        tools::pages_so_far(platform, want, v, n) == tools::pages_so_far(platform, want, w, n),
    decreases n,
{
    if n > 0 {
        lemma_pages(platform, want, v, w, n - 1);
    }
}

/// Whether the `i`-th answer came when the service was asked for the page that the
/// pages before it lead to.
pub open spec fn is_page<A: DiscoveryApi>(
    api: &A,
    platform: Platform,
    handle: Seq<char>,
    want: int,
    replies: Seq<Result<RawResponse>>,
    i: int,
) -> bool {
    tools::pages_so_far(platform, want, replies, i) matches Some(p) && exists|
        h: &str,
        c: Option<&str>,
    |
        h@ == handle && text::is_opt(c, p.cursor) && #[trigger] call_ensures(
            A::call_paged,
            (api, Endpoint::GetCreatorVideos, platform, h, c),
            replies[i],
        )
}

/// Whether pages of the videos of a creator were asked for, one after another, and
/// these answers came.
pub open spec fn are_pages<A: DiscoveryApi>(
    api: &A,
    platform: Platform,
    handle: Seq<char>,
    want: int,
    replies: Seq<Result<RawResponse>>,
) -> bool {
    forall|i: int|
        0 <= i < replies.len() ==> #[trigger] is_page(api, platform, handle, want, replies, i)
}

proof fn lemma_page<A: DiscoveryApi>(
    api: &A,
    platform: Platform,
    handle: Seq<char>,
    want: int,
    v: Seq<Result<RawResponse>>,
    w: Seq<Result<RawResponse>>,
    i: int,
)
    requires
        0 <= i < v.len() <= w.len(),
        forall|k: int| 0 <= k <= i ==> v[k] == w[k],
        is_page(api, platform, handle, want, v, i),
    ensures
        is_page(api, platform, handle, want, w, i),
{
    lemma_pages(platform, want, v, w, i);
    let p = tools::pages_so_far(platform, want, v, i)->Some_0;
    let (h, c) = choose|h: &str, c: Option<&str>|
        h@ == handle && text::is_opt(c, p.cursor) && #[trigger] call_ensures(
            A::call_paged,
            (api, Endpoint::GetCreatorVideos, platform, h, c),
            v[i],
        );
    assert(call_ensures(
        A::call_paged,
        (api, Endpoint::GetCreatorVideos, platform, h, c),
        w[i],
    ));
}

fn pages<A: DiscoveryApi>(api: &A, call_id: &str, platform: Platform, handle: String, want: u64) -> (r:
    ToolOutcome)
    ensures
        exists|replies: Seq<Result<RawResponse>>| #[trigger]
            are_pages(api, platform, handle@, want as int, replies) && tools::pages_end(
                call_id@,
                platform,
                want as int,
                replies,
            ) == Some(r@),
        r@.call_id == call_id@,
        r@.external_calls <= MAX_PAGES,
        r@.vision_calls == 0,
{
    let ghost whose = handle@;
    let mut p = Paging::start(call_id, platform, handle, want);
    let ghost mut replies: Seq<Result<RawResponse>> = seq![];
    loop
        invariant
            p.call_id@ == call_id@,
            p.platform == platform,
            p.want == want,
            p.handle@ == whose,
            whose == handle@,
            p.pages < MAX_PAGES,
            are_pages(api, platform, whose, want as int, replies),
            tools::pages_so_far(platform, want as int, replies, replies.len() as int) == Some(
                tools::pages_view(p),
            ),
        decreases MAX_PAGES - p.pages,
    {
        let cursor = match &p.cursor {
            Some(c) => Some(c.as_str()),
            None => None,
        };
        let name = p.handle.as_str();
        let reply = api.call_paged(Endpoint::GetCreatorVideos, p.platform, name, cursor);
        let ghost before = replies;
        proof {
            replies = before.push(reply);
            lemma_pages(platform, want as int, before, replies, before.len() as int);
            assert(call_ensures(
                A::call_paged,
                (api, Endpoint::GetCreatorVideos, platform, name, cursor),
                replies[before.len() as int],
            ));
            assert(is_page(api, platform, whose, want as int, replies, before.len() as int));
            assert forall|i: int| 0 <= i < replies.len() implies #[trigger] is_page(
                api,
                platform,
                whose,
                want as int,
                replies,
                i,
            ) by {
                if i < before.len() {
                    assert(is_page(api, platform, whose, want as int, before, i));
                    lemma_page(api, platform, whose, want as int, before, replies, i);
                }
            }
        }
        match p.advance(reply) {
            PageStep::Done(o) => {
                assert(are_pages(api, platform, whose, want as int, replies));
                assert(tools::pages_end(call_id@, platform, want as int, replies) == Some(o@));
                return o;
            },
            PageStep::Ask(next) => {
                p = next;
            },
        }
    }
}

/// Whether `m` is a look that was stored, with what the model that looks at videos
/// reads from it; without such a model nothing is read.
pub open spec fn is_remembered<V: VisionClient>(
    m: Remembered,
    row: StoredDossier,
    vision: Option<&V>,
    duration: Option<i64>,
) -> bool {
    m.stored == row && match vision {
        Some(v) => {
            &&& exists|t: &str|
                t@ == row.dossier_json@ && #[trigger] call_ensures(V::read_dossier, (v, t), m.parsed)
            &&& exists|t: &str|
                t@ == row.fps@ && #[trigger] call_ensures(V::frames, (v, t, duration), m.frames)
        },
        None => m.parsed is None && m.frames is None,
    }
}

/// Whether `r` are looks that were stored, all of them and in their order.
pub open spec fn are_remembered<V: VisionClient>(
    r: Seq<Remembered>,
    rows: Seq<StoredDossier>,
    vision: Option<&V>,
    duration: Option<i64>,
) -> bool {
    r.len() == rows.len() && forall|i: int|
        0 <= i < rows.len() ==> is_remembered(#[trigger] r[i], rows[i], vision, duration)
}

fn remember<V: VisionClient>(
    rows: Vec<StoredDossier>,
    vision: Option<&V>,
    duration: Option<i64>,
) -> (r: Vec<Remembered>)
    ensures
        are_remembered(r@, rows@, vision, duration),
{
    let ghost all = rows@;
    let mut rest = rows;
    let mut r: Vec<Remembered> = Vec::new();
    while rest.len() > 0
        invariant
            r@.len() + rest@.len() == all.len(),
            rest@ == all.skip(r@.len() as int),
            forall|i: int|
                0 <= i < r@.len() ==> is_remembered(#[trigger] r@[i], all[i], vision, duration),
        decreases rest@.len(),
    {
        let stored = rest.remove(0);
        let (parsed, frames) = match vision {
            Some(v) => (
                v.read_dossier(stored.dossier_json.as_str()),
                v.frames(stored.fps.as_str(), duration),
            ),
            None => (None, None),
        };
        r.push(Remembered { stored, parsed, frames });
        assert(rest@ =~= all.skip(r@.len() as int));
    }
    r
}

/// Whether `r` is what endpoints answered, as it was stored.
pub open spec fn are_answers(r: Seq<Option<String>>, v: Seq<Artifact>) -> bool {
    r.len() == v.len() && forall|i: int|
        0 <= i < v.len() ==> text::opt(#[trigger] r[i]) == text::opt(v[i].raw_json)
}

fn raw_answers(v: Vec<Artifact>) -> (r: Vec<Option<String>>)
    ensures
        are_answers(r@, v@),
{
    let mut r: Vec<Option<String>> = Vec::new();
    let mut i: usize = 0;
    while i < v.len()
        invariant
            i <= v@.len(),
            r@.len() == i,
            forall|k: int| 0 <= k < i ==> text::opt(#[trigger] r@[k]) == text::opt(v@[k].raw_json),
        decreases v@.len() - i,
    {
        r.push(text::copy_opt(&v[i].raw_json));
        i = i + 1;
    }
    r
}

/// Whether `m` is what is remembered of a video. What cannot be read is as good as
/// not there.
pub open spec fn is_memory<S: Store + DossierStore, V: VisionClient>(
    store: &S,
    vision: Option<&V>,
    video_id: Seq<char>,
    duration: Option<i64>,
    m: Memory,
) -> bool {
    &&& exists|id: &str, kept: Result<Vec<StoredDossier>>|
        id@ == video_id && #[trigger] call_ensures(S::dossiers, (store, id), kept) && match kept {
            Ok(v) => are_remembered(m.looks@, v@, vision, duration),
            Err(_) => m.looks@.len() == 0,
        }
    &&& exists|id: &str, kept: Result<Vec<Artifact>>|
        id@ == video_id && #[trigger] call_ensures(S::get_artifacts, (store, id), kept)
            && match kept {
            Ok(v) => are_answers(m.answers@, v@),
            Err(_) => m.answers@.len() == 0,
        }
}

/// What is remembered of a video.
fn recall<S: Store + DossierStore, V: VisionClient>(
    store: &S,
    vision: Option<&V>,
    video_id: &str,
    duration: Option<i64>,
) -> (r: Memory)
    ensures
        is_memory(store, vision, video_id@, duration, r),
{
    let kept = store.dossiers(video_id);
    assert(call_ensures(S::dossiers, (store, video_id), kept));
    let rows = match kept {
        Ok(v) => v,
        Err(_) => Vec::new(),
    };
    let answered = store.get_artifacts(video_id);
    assert(call_ensures(S::get_artifacts, (store, video_id), answered));
    let answers = match answered {
        Ok(v) => raw_answers(v),
        Err(_) => Vec::new(),
    };
    Memory { looks: remember(rows, vision, duration), answers }
}

/// Whether an error says that nobody looks at videos.
pub open spec fn says_no_model(e: ClipKnowError) -> bool {
    e matches ClipKnowError::BadRequest(m) && m@ == "未配置视觉模型"@
}

fn no_model() -> (r: ClipKnowError)
    ensures
        says_no_model(r),
{
    ClipKnowError::BadRequest("未配置视觉模型".to_owned())
}

/// Whether `ev` is what comes of a look at an upload. `shown` is the length of the
/// video by which its frames are counted.
pub open spec fn is_seen<V: VisionClient>(
    vision: Option<&V>,
    reference: Seq<char>,
    duration: Option<i64>,
    shown: Option<i64>,
    question: Option<Seq<char>>,
    ev: Event,
) -> bool {
    ev matches Event::Looked { result, parsed, frames } && match vision {
        None => (result matches Err(e) && says_no_model(e)) && parsed is None && frames is None,
        Some(v) => {
            &&& exists|t: &str, q: Option<&str>|
                t@ == reference && text::is_opt(q, question) && #[trigger] call_ensures(
                    V::analyze,
                    (v, t, duration, q),
                    result,
                )
            &&& match result {
                Err(_) => parsed is None && frames is None,
                Ok(x) => {
                    &&& exists|t: &str|
                        t@ == x.text@ && #[trigger] call_ensures(V::read_dossier, (v, t), parsed)
                    &&& exists|t: &str|
                        t@ == x.fps@ && #[trigger] call_ensures(V::frames, (v, t, shown), frames)
                },
            }
        },
    }
}

fn look<V: VisionClient>(
    vision: Option<&V>,
    reference: &str,
    duration: Option<i64>,
    shown: Option<i64>,
    question: &Option<String>,
) -> (r: Event)
    ensures
        is_seen(vision, reference@, duration, shown, text::opt(*question), r),
{
    let asked = match question {
        Some(q) => Some(q.as_str()),
        None => None,
    };
    match vision {
        None => Event::Looked { result: Err(no_model()), parsed: None, frames: None },
        Some(v) => {
            let result = v.analyze(reference, duration, asked);
            assert(call_ensures(V::analyze, (v, reference, duration, asked), result));
            match result {
                Err(e) => Event::Looked { result: Err(e), parsed: None, frames: None },
                Ok(x) => {
                    let parsed = v.read_dossier(x.text.as_str());
                    let frames = v.frames(x.fps.as_str(), shown);
                    Event::Looked { result: Ok(x), parsed, frames }
                },
            }
        },
    }
}

/// Whether `got` is what the service answered when it was asked for a video.
pub open spec fn is_fetch<A: DiscoveryApi>(api: &A, e: Errand, got: Result<FetchedVideo>) -> bool {
    exists|url: &str|
        url@ == e.url@ && #[trigger] call_ensures(A::fetch_video, (api, &e.parsed, url), got)
}

/// Whether `got` is what the service answered when it was asked again what the
/// platform says of a video.
pub open spec fn is_refresh<A: DiscoveryApi>(api: &A, e: Errand, got: Result<FetchedVideo>) -> bool {
    exists|url: &str|
        url@ == e.url@ && #[trigger] call_ensures(A::refresh_video, (api, &e.parsed, url), got)
}

/// Whether `got` is what came of an upload.
pub open spec fn is_upload<V: VisionClient>(
    vision: Option<&V>,
    address: Seq<char>,
    got: Result<StagedVideo>,
) -> bool {
    match vision {
        Some(v) => exists|a: &str| a@ == address && #[trigger] call_ensures(V::stage, (v, a), got),
        None => got matches Err(e) && says_no_model(e),
    }
}

/// Whether what a visit awaited was done, and `ev` came of it. Nothing but a video
/// that was fetched is stored on the way.
pub open spec fn was_done<A: DiscoveryApi, S: Store + DossierStore, V: VisionClient>(
    api: &A,
    vision: Option<&V>,
    visit: Visit,
    ev: Event,
    before: S,
    after: S,
) -> bool {
    let e = visit.errand;
    &&& !(visit.stage is Saving || visit.stage is SavingAgain) ==> after == before
    &&& match (visit.stage, ev) {
        (VisitStage::Finding, Event::Found(x)) => store::finds(
            before,
            e.parsed.platform,
            e.parsed.native_id@,
            x,
        ),
        (VisitStage::FindingAgain, Event::Found(x)) => store::finds(
            before,
            e.parsed.platform,
            e.parsed.native_id@,
            x,
        ),
        (VisitStage::Fetching, Event::Fetched(x)) => is_fetch(api, e, x),
        (VisitStage::Refreshing { sv }, Event::Fetched(x)) => is_refresh(api, e, x),
        (VisitStage::Saving { fetched }, Event::Saved(x)) => store::saves(before, fetched, x, after),
        (VisitStage::SavingAgain { sv, fetched }, Event::Saved(x)) => store::saves(
            before,
            fetched,
            x,
            after,
        ),
        (VisitStage::Recalling { sv }, Event::Recalled(m)) => is_memory(
            &before,
            vision,
            sv.video.id@,
            sv.video.duration_sec,
            m,
        ),
        (VisitStage::RecallingAgain { sv }, Event::Recalled(m)) => is_memory(
            &before,
            vision,
            sv.video.id@,
            sv.video.duration_sec,
            m,
        ),
        (VisitStage::Staging { sv, address }, Event::Staged(x)) => is_upload(vision, address@, x),
        (
            VisitStage::Looking { sv, reference, expires, duration },
            Event::Looked { result, parsed, frames },
        ) => is_seen(
            vision,
            reference@,
            duration,
            sv.video.duration_sec,
            text::opt(e.question),
            ev,
        ),
        _ => false,
    }
}

/// Does what a visit awaits.
fn perform<A: DiscoveryApi, S: Store + DossierStore, V: VisionClient>(
    api: &A,
    store: &mut S,
    vision: Option<&V>,
    visit: &Visit,
) -> (r: Event)
    ensures
        visit::fits(visit.stage, r),
        was_done(api, vision, *visit, r, *old(store), *final(store)),
{
    let parsed: &ParsedUrl = &visit.errand.parsed;
    let url = visit.errand.url.as_str();
    match &visit.stage {
        VisitStage::Finding => Event::Found(
            store.find_by_native(parsed.platform, parsed.native_id.as_str()),
        ),
        VisitStage::FindingAgain => Event::Found(
            store.find_by_native(parsed.platform, parsed.native_id.as_str()),
        ),
        VisitStage::Fetching => Event::Fetched(api.fetch_video(parsed, url)),
        VisitStage::Refreshing { sv } => Event::Fetched(api.refresh_video(parsed, url)),
        VisitStage::Saving { fetched } => Event::Saved(store.save(fetched)),
        VisitStage::SavingAgain { sv, fetched } => Event::Saved(store.save(fetched)),
        VisitStage::Recalling { sv } => Event::Recalled(
            recall(store, vision, sv.video.id.as_str(), sv.video.duration_sec),
        ),
        VisitStage::RecallingAgain { sv } => Event::Recalled(
            recall(store, vision, sv.video.id.as_str(), sv.video.duration_sec),
        ),
        VisitStage::Staging { sv, address } => Event::Staged(
            match vision {
                Some(v) => v.stage(address.as_str()),
                None => Err(no_model()),
            },
        ),
        VisitStage::Looking { sv, reference, expires, duration } => look(
            vision,
            reference.as_str(),
            *duration,
            sv.video.duration_sec,
            &visit.errand.question,
        ),
    }
}

fn visited(s: &VisitStage) -> (r: Option<String>)
    ensures
        text::opt(r) == (match visit::text_of(*s) {
            Some(sv) => Some(sv.video.id@),
            None => None,
        }),
{
    match s {
        VisitStage::Recalling { sv } => Some(sv.video.id.clone()),
        VisitStage::Refreshing { sv } => Some(sv.video.id.clone()),
        VisitStage::SavingAgain { sv, fetched } => Some(sv.video.id.clone()),
        VisitStage::RecallingAgain { sv } => Some(sv.video.id.clone()),
        VisitStage::Staging { sv, address } => Some(sv.video.id.clone()),
        VisitStage::Looking { sv, reference, expires, duration } => Some(sv.video.id.clone()),
        _ => None,
    }
}

/// The length of a visit, as far as it is not over.
spec fn steps_left(s: VisitStep) -> int {
    match s {
        VisitStep::Do(v) => visit::events_left(v.stage),
        VisitStep::Done { outcome, record } => 0,
    }
}

/// Whether what the `i`-th step of a visit awaited was done before the next one, and the
/// clock was read then.
pub open spec fn was_step_done<A: DiscoveryApi, S: Store + DossierStore, V: VisionClient>(
    api: &A,
    vision: Option<&V>,
    events: Seq<(Event, i64)>,
    steps: Seq<VisitStep>,
    stores: Seq<S>,
    i: int,
) -> bool {
    &&& steps[i] matches VisitStep::Do(v) && was_done(
        api,
        vision,
        v,
        events[i].0,
        stores[i],
        stores[i + 1],
    )
    &&& model::is_present(events[i].1)
}

/// Whether these are the steps of a visit for which everything was done that it
/// awaited, with the events between the steps and the store at each of them.
pub open spec fn is_visit<A: DiscoveryApi, S: Store + DossierStore, V: VisionClient>(
    api: &A,
    vision: Option<&V>,
    e: Errand,
    events: Seq<(Event, i64)>,
    steps: Seq<VisitStep>,
    stores: Seq<S>,
) -> bool {
    &&& visit::is_course(e, events, steps)
    &&& stores.len() == steps.len()
    &&& forall|i: int|
        0 <= i < events.len() ==> #[trigger] was_step_done(api, vision, events, steps, stores, i)
}

/// Whether a visit ends with an outcome, and what has to be stored with it is kept
/// for the video, or else the store failed.
pub open spec fn is_end<S: Store>(
    steps: Seq<VisitStep>,
    stores: Seq<S>,
    after: S,
    o: OutcomeView,
) -> bool {
    steps.last() matches VisitStep::Done { outcome, record } && outcome@ == o && match record {
        None => after == stores.last(),
        Some(d) => steps.len() > 1 && (steps[steps.len() - 2] matches VisitStep::Do(v) && (
        visit::text_of(v.stage) matches Some(sv) && exists|done: bool| #[trigger]
            store::keeps(stores.last(), sv.video.id@, d@, done, after))),
    }
}

/// Whether a visit was made for an errand, from its beginning to its end, and came to
/// an outcome.
pub open spec fn is_visited<A: DiscoveryApi, S: Store + DossierStore, V: VisionClient>(
    api: &A,
    vision: Option<&V>,
    e: Errand,
    before: S,
    after: S,
    o: OutcomeView,
) -> bool {
    exists|events: Seq<(Event, i64)>, steps: Seq<VisitStep>, stores: Seq<S>| #[trigger]
        is_visit(api, vision, e, events, steps, stores) && stores[0] == before && is_end(
            steps,
            stores,
            after,
            o,
        )
}

fn fetch_video<A: DiscoveryApi, S: Store + DossierStore, V: VisionClient>(
    api: &A,
    store: &mut S,
    vision: Option<&V>,
    errand: Errand,
) -> (r: ToolOutcome)
    ensures
        is_visited(api, vision, errand, *old(store), *final(store), r@),
        r@ == visit::gave_up(errand.call_id@, r@.external_calls, r@.content) || visit::tells(
            r@,
            errand.call_id@,
        ),
        0 <= r@.vision_calls <= 1,
        visit::unseen(errand) is Some ==> r@.vision_calls == 0,
{
    let ghost e = errand;
    let ghost first = *store;
    let mut step = Visit::start(errand);
    let mut id: Option<String> = None;
    let ghost mut events: Seq<(Event, i64)> = seq![];
    let ghost mut steps: Seq<VisitStep> = seq![step];
    let ghost mut stores: Seq<S> = seq![*store];
    loop
        invariant
            e == errand,
            first == *old(store),
            is_visit(api, vision, e, events, steps, stores),
            stores[0] == first,
            stores.last() == *store,
            steps.last() == step,
            match step {
                VisitStep::Do(v) => v.errand == e && (visit::unseen(e) is Some ==> visit::text_of(
                    v.stage,
                ) is None),
                VisitStep::Done { outcome, record } => (outcome@ == visit::gave_up(
                    e.call_id@,
                    outcome@.external_calls,
                    outcome@.content,
                ) || visit::tells(outcome@, e.call_id@)) && 0 <= outcome@.vision_calls <= 1 && (
                visit::unseen(e) is Some ==> outcome@.vision_calls == 0) && (record is Some ==> (
                steps.len() > 1 && (steps[steps.len() - 2] matches VisitStep::Do(v) && (
                visit::text_of(v.stage) matches Some(sv) && text::opt(id) == Some(sv.video.id@))))),
            },
        decreases steps_left(step),
    {
        match step {
            VisitStep::Done { outcome, record } => {
                if let (Some(id), Some(look)) = (&id, &record) {
                    let kept = store.save_dossier(id.as_str(), look);
                    assert(store::keeps(stores.last(), id@, look@, kept is Ok, *store));
                }
                assert(is_end(steps, stores, *store, outcome@));
                return outcome;
            },
            VisitStep::Do(v) => {
                let event = perform(api, store, vision, &v);
                id = visited(&v.stage);
                let ghost (before, came) = (v, event);
                let ghost (events0, steps0, stores0) = (events, steps, stores);
                let now: i64 = now_ts();
                step = v.advance(event, now);
                proof {
                    events = events0.push((came, now));
                    steps = steps0.push(step);
                    stores = stores0.push(*store);
                    assert forall|i: int| 0 <= i < events.len() implies #[trigger] visit::is_followed(
                        events,
                        steps,
                        i,
                    ) by {
                        if i < events0.len() {
                            assert(visit::is_followed(events0, steps0, i));
                        }
                    }
                    assert forall|i: int| 0 <= i < events.len() implies #[trigger] was_step_done(
                        api,
                        vision,
                        events,
                        steps,
                        stores,
                        i,
                    ) by {
                        if i < events0.len() {
                            assert(was_step_done(api, vision, events0, steps0, stores0, i));
                        }
                    }
                    visit::law_visits_answer_their_call(before, came, now as int, step);
                    if visit::unseen(e) is Some {
                        visit::law_no_upload_without_leave(before, came, now as int, step);
                    }
                    if step is Done {
                        visit::law_only_looks_are_counted(before, came, now as int, step);
                    }
                }
            },
        }
    }
}

/// How often something was fetched among events.
pub open spec fn fetches(events: Seq<(Event, i64)>, n: int) -> int
    decreases n,
{
    if n <= 0 || n > events.len() {
        0
    } else {
        fetches(events, n - 1) + if events[n - 1].0 is Fetched {
            1int
        } else {
            0int
        }
    }
}

/// A visit that nobody looks on and that gives the text of a video leaves that text in
/// the store, and fetches at most once; one that finds the video there fetches nothing.
proof fn lemma_text_is_left<A: DiscoveryApi, S: Store + DossierStore, V: VisionClient>(
    api: &A,
    e: Errand,
    events: Seq<(Event, i64)>,
    steps: Seq<VisitStep>,
    stores: Seq<S>,
    after: S,
    o: OutcomeView,
)
    requires
        e.sight is None,
        stores[0].steady(),
        is_visit(api, None::<&V>, e, events, steps, stores),
        is_end(steps, stores, after, o),
    ensures
        after.steady(),
        fetches(events, events.len() as int) <= 1,
        store::found(stores[0].kept(), e.parsed.platform, e.parsed.native_id@) is Some
            ==> events.len() == 1 && !o.is_error && o.external_calls == 0,
        !o.is_error ==> exists|calls: int, sv: StoredVideo|
            store::found(after.kept(), e.parsed.platform, e.parsed.native_id@) == Some(sv@) && o
                == #[trigger] visit::told(
                e.call_id@,
                calls,
                sv,
                dossier::unavailable_text(visit::unseen(e)->Some_0),
                0,
                0,
            ),
{
    reveal_with_fuel(fetches, 5);
    assert(visit::begins(e, steps[0]));
    assert(steps[0] is Do);
    assert(events.len() > 0);
    assert(visit::is_followed(events, steps, 0));
    assert(was_step_done(api, None::<&V>, events, steps, stores, 0));
    if steps[1] is Do {
        assert(events.len() > 1);
        assert(visit::is_followed(events, steps, 1));
        assert(was_step_done(api, None::<&V>, events, steps, stores, 1));
        if steps[2] is Do {
            assert(events.len() > 2);
            assert(visit::is_followed(events, steps, 2));
            assert(was_step_done(api, None::<&V>, events, steps, stores, 2));
            if steps[3] is Do {
                assert(events.len() > 3);
                assert(visit::is_followed(events, steps, 3));
                assert(was_step_done(api, None::<&V>, events, steps, stores, 3));
                assert(steps[4] is Done);
                if events.len() > 4 {
                    assert(visit::is_followed(events, steps, 4));
                }
            } else if events.len() > 3 {
                assert(visit::is_followed(events, steps, 3));
            }
        } else if events.len() > 2 {
            assert(visit::is_followed(events, steps, 2));
        }
    } else if events.len() > 1 {
        assert(visit::is_followed(events, steps, 1));
    }
}

/// A video that was fetched costs nothing the second time, where the store is in order
/// and nobody looks at videos: it is fetched once in all, the second visit asks the
/// service for nothing, and both give the same text.
pub proof fn law_fetching_twice_costs_once<
    A: DiscoveryApi,
    S: Store + DossierStore,
    V: VisionClient,
>(
    api: &A,
    e: Errand,
    events: Seq<(Event, i64)>,
    steps: Seq<VisitStep>,
    stores: Seq<S>,
    between: S,
    o: OutcomeView,
    e2: Errand,
    events2: Seq<(Event, i64)>,
    steps2: Seq<VisitStep>,
    stores2: Seq<S>,
    after: S,
    o2: OutcomeView,
)
    requires
        stores[0].steady(),
        e.sight is None && e2.sight is None,
        e2.parsed.platform == e.parsed.platform,
        e2.parsed.native_id@ == e.parsed.native_id@,
        is_visit(api, None::<&V>, e, events, steps, stores),
        is_end(steps, stores, between, o),
        !o.is_error,
        stores2[0] == between,
        is_visit(api, None::<&V>, e2, events2, steps2, stores2),
        is_end(steps2, stores2, after, o2),
    ensures
        !o2.is_error,
        o2.external_calls == 0,
        o2.vision_calls == 0,
        o2.content == o.content,
        fetches(events, events.len() as int) + fetches(events2, events2.len() as int) <= 1,
        after.kept() == between.kept(),
{
    reveal_with_fuel(fetches, 3);
    lemma_text_is_left::<A, S, V>(api, e, events, steps, stores, between, o);
    lemma_text_is_left::<A, S, V>(api, e2, events2, steps2, stores2, after, o2);
    let (calls, sv) = choose|calls: int, sv: StoredVideo|
        store::found(between.kept(), e.parsed.platform, e.parsed.native_id@) == Some(sv@) && o
            == #[trigger] visit::told(
            e.call_id@,
            calls,
            sv,
            dossier::unavailable_text(visit::unseen(e)->Some_0),
            0,
            0,
        );
    let (calls2, sv2) = choose|calls2: int, sv2: StoredVideo|
        store::found(after.kept(), e2.parsed.platform, e2.parsed.native_id@) == Some(sv2@) && o2
            == #[trigger] visit::told(
            e2.call_id@,
            calls2,
            sv2,
            dossier::unavailable_text(visit::unseen(e2)->Some_0),
            0,
            0,
        );
    assert(was_step_done(api, None::<&V>, events2, steps2, stores2, 0));
    assert(visit::is_followed(events2, steps2, 0));
    evidence::law_same_record_same_material(sv, sv2, visit::LOOP_TRANSCRIPT_LIMIT_CHARS as int);
}

/// Whether nothing that is kept says that a video can never be looked at.
pub open spec fn unblocked(v: Seq<LookView>) -> bool {
    forall|i: int| 0 <= i < v.len() ==> (#[trigger] v[i]).blocked_reason is None
}

/// Whether the store has the video that a visit is at, and, once it is known what is
/// remembered of it, nothing that keeps it from being looked at.
spec fn is_known<S: Store>(v: Visit, s: S) -> bool {
    match visit::text_of(v.stage) {
        Some(sv) => (store::found(
            s.kept(),
            v.errand.parsed.platform,
            v.errand.parsed.native_id@,
        ) matches Some(x) && x.video.id == sv.video.id@) && (v.stage is Recalling || unblocked(
            s.looks(sv.video.id@),
        )),
        None => true,
    }
}

proof fn lemma_memory<S: Store + DossierStore, V: VisionClient>(
    s: S,
    vision: Option<&V>,
    video_id: Seq<char>,
    duration: Option<i64>,
    m: Memory,
)
    requires
        s.steady(),
        is_memory(&s, vision, video_id, duration, m),
    ensures
        m.looks@.len() == s.looks(video_id).len(),
        forall|i: int|
            0 <= i < m.looks@.len() ==> (#[trigger] m.looks@[i]).stored@ == s.looks(video_id)[i],
{
    let (id, kept) = choose|id: &str, kept: Result<Vec<StoredDossier>>|
        id@ == video_id && #[trigger] call_ensures(S::dossiers, (&s, id), kept) && match kept {
            Ok(v) => are_remembered(m.looks@, v@, vision, duration),
            Err(_) => m.looks@.len() == 0,
        };
    assert(kept is Ok);
    let rows = kept->Ok_0@;
    assert(dossier::looks_view(rows) == s.looks(video_id));
    assert forall|i: int| 0 <= i < m.looks@.len() implies (#[trigger] m.looks@[i]).stored@ == s.looks(
        video_id,
    )[i] by {
        assert(is_remembered(m.looks@[i], rows[i], vision, duration));
        assert(dossier::looks_view(rows)[i] == rows[i]@);
    }
}

proof fn lemma_known<A: DiscoveryApi, S: Store + DossierStore, V: VisionClient>(
    api: &A,
    vision: Option<&V>,
    e: Errand,
    events: Seq<(Event, i64)>,
    steps: Seq<VisitStep>,
    stores: Seq<S>,
    i: int,
)
    requires
        stores[0].steady(),
        is_visit(api, vision, e, events, steps, stores),
        0 <= i < steps.len(),
        steps[i] is Do,
    ensures
        stores[i].steady(),
        steps[i]->Do_0.errand == e,
        is_known(steps[i]->Do_0, stores[i]),
    decreases i,
{
    if i == 0 {
        assert(visit::begins(e, steps[0]));
    } else {
        let k = i - 1;
        assert(visit::is_followed(events, steps, k));
        assert(was_step_done(api, vision, events, steps, stores, k));
        lemma_known(api, vision, e, events, steps, stores, k);
        let (v, ev) = (steps[k]->Do_0, events[k].0);
        if let VisitStage::Recalling { sv } = v.stage {
            let m = ev->Recalled_0;
            lemma_memory(stores[k], vision, sv.video.id@, sv.video.duration_sec, m);
            let kept = stores[k].looks(sv.video.id@);
            assert forall|j: int| 0 <= j < kept.len() implies (
            #[trigger] kept[j]).blocked_reason is None by {
                assert(m.looks@[j].stored@ == kept[j]);
                if m.looks@[j].stored.blocked_reason is Some {
                    visit::lemma_blocked(m.looks@, j, 0);
                }
            }
        }
    }
}

/// What is shown of an old look.
pub open spec fn look_text(
    d: StoredDossier,
    parsed: Option<VideoDossier>,
    sv: StoredVideo,
    frames: Option<i64>,
) -> Seq<char> {
    dossier::stored_text(
        d,
        parsed,
        sv.video.duration_sec,
        frames,
        Some(evidence::date_text(d.created_at as int)),
    )
}

/// Whether a call is answered with the text on a video and with an old look at it, as the
/// model that looks at videos reads it, and then with what was asked before.
pub open spec fn shows_look<V: VisionClient>(
    vision: Option<&V>,
    d: StoredDossier,
    call_id: Seq<char>,
    o: OutcomeView,
) -> bool {
    exists|
        sv: StoredVideo,
        parsed: Option<VideoDossier>,
        frames: Option<i64>,
        past: Seq<char>,
    |
        (vision matches Some(v) ==> exists|t: &str|
            t@ == d.dossier_json@ && #[trigger] call_ensures(V::read_dossier, (v, t), parsed)) && o
            == #[trigger] visit::told(call_id, 0, sv, look_text(d, parsed, sv, frames) + past, 0, 0)
}

proof fn lemma_read_again<S: Store + DossierStore, V: VisionClient>(
    s: S,
    vision: Option<&V>,
    video_id: Seq<char>,
    duration: Option<i64>,
    m: Memory,
    i: int,
)
    requires
        s.steady(),
        is_memory(&s, vision, video_id, duration, m),
        0 <= i < m.looks@.len(),
    ensures
        vision matches Some(v) ==> exists|t: &str|
            t@ == m.looks@[i].stored.dossier_json@ && #[trigger] call_ensures(
                V::read_dossier,
                (v, t),
                m.looks@[i].parsed,
            ),
{
    let (id, kept) = choose|id: &str, kept: Result<Vec<StoredDossier>>|
        id@ == video_id && #[trigger] call_ensures(S::dossiers, (&s, id), kept) && match kept {
            Ok(v) => are_remembered(m.looks@, v@, vision, duration),
            Err(_) => m.looks@.len() == 0,
        };
    assert(is_remembered(m.looks@[i], kept->Ok_0@[i], vision, duration));
}

proof fn lemma_look_is_left<A: DiscoveryApi, S: Store + DossierStore, V: VisionClient>(
    api: &A,
    vision: Option<&V>,
    e: Errand,
    events: Seq<(Event, i64)>,
    steps: Seq<VisitStep>,
    stores: Seq<S>,
    between: S,
    o: OutcomeView,
)
    requires
        stores[0].steady(),
        is_visit(api, vision, e, events, steps, stores),
        is_end(steps, stores, between, o),
        (o.vision_calls == 1 && e.question is None) || (steps.last()->record matches Some(d)
            && d.blocked_reason is Some),
    ensures
        steps.len() > 1,
        steps.last()->record is Some,
        steps[steps.len() - 2] is Do,
        visit::text_of(steps[steps.len() - 2]->Do_0.stage) is Some,
        ({
            let id = visit::text_of(steps[steps.len() - 2]->Do_0.stage)->Some_0.video.id@;
            let d = steps.last()->record->Some_0;
            &&& is_left(e, between, id, d)
            &&& o.vision_calls == 1 ==> d.blocked_reason is None && d.video_tokens is Some && (
            e.question is None ==> d.question is None)
        }),
{
    let n = steps.len() - 2;
    assert(visit::begins(e, steps[0]));
    assert(n >= 0);
    assert(visit::is_followed(events, steps, n));
    assert(was_step_done(api, vision, events, steps, stores, n));
    lemma_known(api, vision, e, events, steps, stores, n);
    let v = steps[n]->Do_0;
    visit::law_only_looks_are_counted(v, events[n].0, events[n].1 as int, steps[n + 1]);
    let sv = visit::text_of(v.stage)->Some_0;
    let d = steps.last()->record->Some_0;
    let id = sv.video.id@;
    assert(between.looks(id) == seq![d@] + stores[n].looks(id));
    if d.blocked_reason is None {
        assert forall|j: int| 0 <= j < between.looks(id).len() implies (
        #[trigger] between.looks(id)[j]).blocked_reason is None by {
            if j > 0 {
                assert(between.looks(id)[j] == stores[n].looks(id)[j - 1]);
            }
        }
    }
}

/// Whether a look is kept as the latest one at the video of an errand, in a store that is
/// in order.
spec fn is_left<S: Store>(e: Errand, s: S, id: Seq<char>, d: StoredDossier) -> bool {
    &&& s.steady()
    &&& store::found(s.kept(), e.parsed.platform, e.parsed.native_id@) matches Some(x)
        && x.video.id == id
    &&& s.looks(id).len() > 0
    &&& s.looks(id)[0] == d@
    &&& d.blocked_reason is None ==> unblocked(s.looks(id))
}

proof fn lemma_look_is_used<A: DiscoveryApi, S: Store + DossierStore, V: VisionClient>(
    api: &A,
    vision: Option<&V>,
    e: Errand,
    events: Seq<(Event, i64)>,
    steps: Seq<VisitStep>,
    stores: Seq<S>,
    after: S,
    o: OutcomeView,
    id: Seq<char>,
    d: StoredDossier,
)
    requires
        is_left(e, stores[0], id, d),
        is_visit(api, vision, e, events, steps, stores),
        is_end(steps, stores, after, o),
        d.blocked_reason is Some || (d.question is None && d.video_tokens is Some
            && e.question is None),
    ensures
        o.vision_calls == 0,
        o.video_tokens == 0,
        o.external_calls == 0,
        d.blocked_reason is None && visit::unseen(e) is None ==> shows_look(
            vision,
            d,
            e.call_id@,
            o,
        ),
        forall|i: int|
            0 <= i < events.len() ==> (#[trigger] events[i]).0 is Found || events[i].0 is Recalled,
        after == stores[0],
{
    assert(visit::begins(e, steps[0]));
    if steps[0] is Do {
        assert(events.len() > 0);
        assert(visit::is_followed(events, steps, 0));
        assert(was_step_done(api, vision, events, steps, stores, 0));
        if steps[1] is Do {
            assert(events.len() > 1);
            let v = steps[1]->Do_0;
            assert(v.stage is Recalling);
            let sv = visit::text_of(v.stage)->Some_0;
            assert(sv.video.id@ == id);
            assert(visit::is_followed(events, steps, 1));
            assert(was_step_done(api, vision, events, steps, stores, 1));
            let m = events[1].0->Recalled_0;
            lemma_recalled(vision, v, m, events[1].1 as int, steps[2], stores[1], id, d);
            assert(steps[2] is Done);
            if events.len() > 2 {
                assert(visit::is_followed(events, steps, 2));
            }
        } else if events.len() > 1 {
            assert(visit::is_followed(events, steps, 1));
        }
    } else if events.len() > 0 {
        assert(visit::is_followed(events, steps, 0));
    }
}

proof fn lemma_recalled<S: Store + DossierStore, V: VisionClient>(
    vision: Option<&V>,
    v: Visit,
    m: Memory,
    now: int,
    r: VisitStep,
    s: S,
    id: Seq<char>,
    d: StoredDossier,
)
    requires
        v.stage matches VisitStage::Recalling { sv } && sv.video.id@ == id && is_memory(
            &s,
            vision,
            id,
            sv.video.duration_sec,
            m,
        ),
        is_left(v.errand, s, id, d),
        visit::follows(v, Event::Recalled(m), now, r),
        d.blocked_reason is Some || (d.question is None && d.video_tokens is Some
            && v.errand.question is None),
    ensures
        r is Done,
        r->record is None,
        r->outcome@.vision_calls == 0,
        r->outcome@.video_tokens == 0,
        r->outcome@.external_calls == v.calls,
        d.blocked_reason is None && v.calls == 0 ==> shows_look(
            vision,
            d,
            v.errand.call_id@,
            r->outcome@,
        ),
{
    let sv = v.stage->Recalling_sv;
    lemma_memory(s, vision, id, sv.video.duration_sec, m);
    let first = m.looks@[0];
    assert(first.stored@ == d@);
    assert(text::opt(first.stored.blocked_reason) == text::opt(d.blocked_reason));
    assert(text::opt(first.stored.question) == text::opt(d.question));
    assert(model::opt_int(first.stored.video_tokens) == model::opt_int(d.video_tokens));
    if d.blocked_reason is Some {
        visit::lemma_blocked(m.looks@, 0, 0);
    } else {
        assert forall|j: int| 0 <= j < m.looks@.len() implies (
        #[trigger] m.looks@[j]).stored.blocked_reason is None by {
            assert(m.looks@[j].stored@ == s.looks(id)[j]);
            assert(text::opt(m.looks@[j].stored.blocked_reason) is None);
        }
        visit::lemma_unblocked(m.looks@, 0);
        assert(visit::came_to_something(first));
        assert(visit::general_from(m.looks@, 0) == Some(0int));
        lemma_read_again(s, vision, id, sv.video.duration_sec, m, 0);
        let past = visit::past_text(m.looks@);
        assert(look_text(first.stored, first.parsed, sv, first.frames) == look_text(
            d,
            first.parsed,
            sv,
            first.frames,
        ));
        assert(r->outcome@ == visit::told(
            v.errand.call_id@,
            v.calls as int,
            sv,
            look_text(d, first.parsed, sv, first.frames) + past,
            0,
            0,
        ));
    }
}

/// What was seen of a video is not paid for twice, where the store is in order. After a
/// look without a question, a visit without one shows what was seen then, whenever it is
/// made; after a failure that would come again, every visit does without. Either way the
/// second visit only reads the store: nothing is fetched, uploaded or looked at.
pub proof fn law_looks_are_paid_for_once<
    A: DiscoveryApi,
    S: Store + DossierStore,
    V: VisionClient,
>(
    api: &A,
    vision: Option<&V>,
    e: Errand,
    events: Seq<(Event, i64)>,
    steps: Seq<VisitStep>,
    stores: Seq<S>,
    between: S,
    o: OutcomeView,
    e2: Errand,
    events2: Seq<(Event, i64)>,
    steps2: Seq<VisitStep>,
    stores2: Seq<S>,
    after: S,
    o2: OutcomeView,
)
    requires
        stores[0].steady(),
        is_visit(api, vision, e, events, steps, stores),
        is_end(steps, stores, between, o),
        (o.vision_calls == 1 && e.question is None && e2.question is None) || (
        steps.last()->record matches Some(d) && d.blocked_reason is Some),
        e2.parsed.platform == e.parsed.platform,
        e2.parsed.native_id@ == e.parsed.native_id@,
        stores2[0] == between,
        is_visit(api, vision, e2, events2, steps2, stores2),
        is_end(steps2, stores2, after, o2),
    ensures
        o2.vision_calls == 0,
        o2.video_tokens == 0,
        o2.external_calls == 0,
        o.vision_calls == 1 && visit::unseen(e2) is None ==> shows_look(
            vision,
            steps.last()->record->Some_0,
            e2.call_id@,
            o2,
        ),
        forall|i: int|
            0 <= i < events2.len() ==> (#[trigger] events2[i]).0 is Found || events2[i].0 is Recalled,
        after == between,
{
    lemma_look_is_left(api, vision, e, events, steps, stores, between, o);
    let id = visit::text_of(steps[steps.len() - 2]->Do_0.stage)->Some_0.video.id@;
    let d = steps.last()->record->Some_0;
    lemma_look_is_used(api, vision, e2, events2, steps2, stores2, after, o2, id, d);
}

/// Whether `s` is who looks at videos.
pub open spec fn is_sight<V: VisionClient>(vision: Option<&V>, s: Option<Sight>) -> bool {
    match (vision, s) {
        (Some(v), Some(x)) => {
            &&& exists|t: &str| t@ == x.provider@ && #[trigger] call_ensures(V::provider, (v,), t)
            &&& exists|t: &str| t@ == x.model@ && #[trigger] call_ensures(V::model_name, (v,), t)
        },
        (None, None) => true,
        _ => false,
    }
}

/// Whether an errand is the one that a call of `fetch_video` asks for.
pub open spec fn is_errand<V: VisionClient>(
    e: Errand,
    call_id: Seq<char>,
    platform: Platform,
    native_id: Seq<char>,
    url: Seq<char>,
    question: Option<Seq<char>>,
    vision: Option<&V>,
    budget_left: int,
) -> bool {
    e.call_id@ == call_id && e.parsed.platform == platform && e.parsed.native_id@ == native_id
        && e.url@ == url && text::opt(e.question) == question && is_sight(vision, e.sight)
        && e.budget_left == budget_left
}

/// Whether a tool that a model asked for was run, and came to an outcome: a call
/// that makes no sense was refused; the service was asked once, or for page after
/// page; or a video was visited. `budget_left` is how many more videos may be
/// looked at.
pub open spec fn was_executed<A: DiscoveryApi, S: Store + DossierStore, V: VisionClient>(
    api: &A,
    vision: Option<&V>,
    budget_left: int,
    c: CallView,
    before: S,
    after: S,
    o: OutcomeView,
) -> bool {
    match tools::planned(c) {
        tools::PlanView::Reject(x) => o == x && after == before,
        tools::PlanView::Ask { ep, platform, arg } => after == before && exists|
            a: &str,
            reply: Result<RawResponse>,
        |
            a@ == arg && #[trigger] call_ensures(A::call, (api, ep, platform, a), reply) && o
                == tools::asked(c.id, ep, platform, reply),
        tools::PlanView::Pages { platform, handle, want } => after == before && exists|
            replies: Seq<Result<RawResponse>>,
        | #[trigger]
            are_pages(api, platform, handle, want, replies) && tools::pages_end(
                c.id,
                platform,
                want,
                replies,
            ) == Some(o),
        tools::PlanView::Fetch { platform, native_id, url, question } => exists|e: Errand|
            is_errand(e, c.id, platform, native_id, url, question, vision, budget_left)
                && #[trigger] is_visited(api, vision, e, before, after, o),
    }
}

/// A model that asks for a video a second time gets the same text, and nothing is asked
/// of the service for it, where the store is in order and nobody looks at videos.
pub proof fn law_asking_twice_costs_once<
    A: DiscoveryApi,
    S: Store + DossierStore,
    V: VisionClient,
>(
    api: &A,
    c: CallView,
    c2: CallView,
    budget: int,
    budget2: int,
    before: S,
    between: S,
    after: S,
    o: OutcomeView,
    o2: OutcomeView,
)
    requires
        before.steady(),
        was_executed(api, None::<&V>, budget, c, before, between, o),
        was_executed(api, None::<&V>, budget2, c2, between, after, o2),
        !o.is_error,
        match (tools::planned(c), tools::planned(c2)) {
            (
                tools::PlanView::Fetch { platform, native_id, url, question },
                tools::PlanView::Fetch { platform: p, native_id: i, url: u, question: q },
            ) => platform == p && native_id == i,
            _ => false,
        },
    ensures
        !o2.is_error,
        o2.external_calls == 0,
        o2.vision_calls == 0,
        o2.content == o.content,
        after.kept() == between.kept(),
{
    let (p, i) = (tools::planned(c)->Fetch_platform, tools::planned(c)->Fetch_native_id);
    let (u, q) = (tools::planned(c)->Fetch_url, tools::planned(c)->Fetch_question);
    let (u2, q2) = (tools::planned(c2)->Fetch_url, tools::planned(c2)->Fetch_question);
    let e = choose|e: Errand|
        is_errand(e, c.id, p, i, u, q, None::<&V>, budget) && #[trigger] is_visited(
            api,
            None::<&V>,
            e,
            before,
            between,
            o,
        );
    let e2 = choose|e2: Errand|
        is_errand(e2, c2.id, p, i, u2, q2, None::<&V>, budget2) && #[trigger] is_visited(
            api,
            None::<&V>,
            e2,
            between,
            after,
            o2,
        );
    let (events, steps, stores) = choose|
        events: Seq<(Event, i64)>,
        steps: Seq<VisitStep>,
        stores: Seq<S>,
    | #[trigger]
        is_visit(api, None::<&V>, e, events, steps, stores) && stores[0] == before && is_end(
            steps,
            stores,
            between,
            o,
        );
    let (events2, steps2, stores2) = choose|
        events2: Seq<(Event, i64)>,
        steps2: Seq<VisitStep>,
        stores2: Seq<S>,
    | #[trigger]
        is_visit(api, None::<&V>, e2, events2, steps2, stores2) && stores2[0] == between && is_end(
            steps2,
            stores2,
            after,
            o2,
        );
    law_fetching_twice_costs_once::<A, S, V>(
        api,
        e,
        events,
        steps,
        stores,
        between,
        o,
        e2,
        events2,
        steps2,
        stores2,
        after,
        o2,
    );
}

/// Runs a tool that a model asks for. Whatever goes wrong, the call is answered:
/// a model has to read that it failed, and go another way. No more videos are
/// looked at than may be.
pub fn run_tool<A: DiscoveryApi, S: Store + DossierStore, V: VisionClient>(
    api: &A,
    store: &mut S,
    vision: Option<&V>,
    budget_left: usize,
    call: &ToolCall,
) -> (r: ToolOutcome)
    ensures
        r@.call_id == call@.id,
        was_executed(api, vision, budget_left as int, call@, *old(store), *final(store), r@),
        r@.vision_calls <= budget_left,
        vision is None ==> r@.vision_calls == 0,
{
    match plan(call) {
        Plan::Reject(o) => o,
        Plan::Ask { ep, platform, arg } => {
            let asked = arg.as_str();
            let reply = api.call(ep, platform, asked);
            assert(call_ensures(A::call, (api, ep, platform, asked), reply));
            finish_ask(call.id.as_str(), ep, platform, reply)
        },
        Plan::Pages { platform, handle, want } => pages(
            api,
            call.id.as_str(),
            platform,
            handle,
            want,
        ),
        Plan::Fetch { parsed, url, question } => {
            let sight = match vision {
                Some(v) => {
                    let (provider, model) = (v.provider(), v.model_name());
                    assert(call_ensures(V::provider, (v,), provider));
                    assert(call_ensures(V::model_name, (v,), model));
                    Some(Sight { provider: provider.to_owned(), model: model.to_owned() })
                },
                None => None,
            };
            let errand = Errand {
                call_id: call.id.clone(),
                parsed,
                url,
                question,
                sight,
                budget_left,
            };
            fetch_video(api, store, vision, errand)
        },
    }
}

/// Runs a tool that a model asks for, with all that it needs.
pub fn execute<A: DiscoveryApi, S: Store + DossierStore, V: VisionClient>(
    ctx: &mut ToolCtx<'_, A, S, V>,
    call: &ToolCall,
) -> (r: ToolOutcome)
    ensures
        r@.call_id == call@.id,
        was_executed(
            old(ctx).api,
            old(ctx).vision,
            old(ctx).vision_budget_left as int,
            call@,
            *old(ctx).store,
            *final(ctx).store,
            r@,
        ),
        final(ctx).api == old(ctx).api,
        final(ctx).vision == old(ctx).vision,
        final(ctx).vision_budget_left == old(ctx).vision_budget_left,
        r@.vision_calls <= old(ctx).vision_budget_left,
        old(ctx).vision is None ==> r@.vision_calls == 0,
{
    run_tool(ctx.api, ctx.store, ctx.vision, ctx.vision_budget_left, call)
}

} // verus!
