//! Fetching one video for a model, and having it looked at.
//!
//! A visit to a video says what has to be done next, and takes what came of it;
//! everything that is asked of the store, of the scraping service and of the
//! model that looks at videos is done elsewhere. The text is fetched first, and
//! only where it is not stored. Then the video is looked at, as cheaply as it can
//! be: an old dossier is used again, or else an upload that is still kept, or
//! else the video is uploaded. That a video cannot be looked at never costs the
//! text.

use vstd::prelude::*;
use crate::agent::llm::ToolResult;
use crate::agent::tools;
use crate::agent::tools::ToolOutcome;
use crate::agent::vision;
use crate::agent::vision::{
    estimate_secs_from_size, is_permanent_failure, StagedVideo, VisionResult,
};
use crate::content::dossier;
use crate::content::dossier::{render_unavailable, StoredDossier, VideoDossier};
use crate::content::evidence;
use crate::content::evidence::{build_evidence_with_limit, MATERIAL_CLOSE};
use crate::content::model::FetchedVideo;
use crate::error;
use crate::error::Result;
use crate::ingest::discovery;
use crate::ingest::discovery::{parse_play_addr, url_still_valid};
use crate::ingest::url::{ParsedUrl, Platform};
use crate::outside;
use crate::store::StoredVideo;
use crate::text;
use crate::text::{from_chars, head_of, last_position, same, to_chars, trimmed, usize_text};

verus! {

/// How long a transcript may be for a model that uses tools.
pub const LOOP_TRANSCRIPT_LIMIT_CHARS: usize = 40_000;

/// How many old questions about a video are shown with its dossier.
pub const MAX_DOSSIER_EXCHANGES: usize = 6;

/// How much of an old question or answer is shown.
pub const MAX_EXCHANGE_CHARS: usize = 1_200;

/// How long an upload has to be kept for it to be used: it still has to be looked
/// at.
pub const STAGE_MARGIN_SECS: i64 = 600;

// ---------------------------------------------------------------------------
// What is shown
// ---------------------------------------------------------------------------

/// A text, or the beginning of it and how long it is.
pub open spec fn clipped(t: Seq<char>, max: int) -> Seq<char> {
    if t.len() <= max {
        t
    } else {
        t.take(max) + "…（共 "@ + text::int_text(t.len() as int) + " 字，已截断）"@
    }
}

/// A text, or the first `max` characters of it and how many there are.
pub fn truncate(s: &str, max: usize) -> (r: String)
    ensures
        r@ == clipped(s@, max as int),
{
    let t = to_chars(s);
    let n: usize = t.len();
    if n <= max {
        return s.to_owned();
    }
    assert(text::head(s@, max as int) == s@.take(max as int));
    head_of(s, max).concat("…（共 ").concat(usize_text(n).as_str()).concat(" 字，已截断）")
}

/// The answer to a question with which a video was looked at.
pub open spec fn answer_section(question: Seq<char>, answer: Seq<char>, fps: Seq<char>) -> Seq<char> {
    "[状态：已针对具体问题重看 —— fps "@ + fps + "]\n问："@ + text::trim(question) + "\n答："@ + text::trim(
        answer,
    ) + "\n"@
}

/// The answer to a question with which a video was looked at. It is no dossier,
/// and is not shown as one.
pub fn render_answer(question: &str, answer: &str, fps: &str) -> (r: String)
    ensures
        r@ == answer_section(question@, answer@, fps@),
{
    "[状态：已针对具体问题重看 —— fps ".to_owned().concat(fps).concat("]\n问：").concat(
        trimmed(question).as_str(),
    ).concat("\n答：").concat(trimmed(answer).as_str()).concat("\n")
}

/// Material with what was seen of the video before its last closing tag.
pub open spec fn spliced(material: Seq<char>, visual: Seq<char>) -> Seq<char> {
    let seen = "\n=== 画面 ===\n"@ + visual;
    match text::rfind(material, MATERIAL_CLOSE@) {
        Some(i) => material.take(i) + seen + material.skip(i),
        None => material + seen,
    }
}

/// Puts what was seen of a video before the tag that closes the material: it was
/// made from what strangers published, like all the rest of it.
pub fn splice_visual_section(material: &str, visual: &str) -> (r: String)
    ensures
        r@ == spliced(material@, visual@),
{
    let seen = "\n=== 画面 ===\n".to_owned().concat(visual);
    let t = to_chars(material);
    match last_position(&t, &to_chars(MATERIAL_CLOSE)) {
        Some(i) => {
            let n: usize = t.len();
            assert(t@.subrange(0, i as int) =~= material@.take(i as int));
            assert(t@.subrange(i as int, n as int) =~= material@.skip(i as int));
            from_chars(&t, 0, i).concat(seen.as_str()).concat(from_chars(&t, i, n).as_str())
        },
        None => material.to_owned().concat(seen.as_str()),
    }
}

/// What was seen of a video stays inside the material, whatever it is: the
/// material opens as before, and the tag that closed it still does. Where no tag
/// stands in it, the material stays one block.
pub proof fn law_visual_section_stays_inside(body: Seq<char>, visual: Seq<char>)
    requires
        evidence::sealed(body),
    ensures
        spliced(
            evidence::MATERIAL_OPEN@ + "\n"@ + body + MATERIAL_CLOSE@ + "\n"@,
            visual,
        ) == evidence::MATERIAL_OPEN@ + "\n"@ + (body + ("\n=== 画面 ===\n"@ + visual))
            + MATERIAL_CLOSE@ + "\n"@,
        evidence::sealed(visual) ==> evidence::one_block(
            spliced(evidence::MATERIAL_OPEN@ + "\n"@ + body + MATERIAL_CLOSE@ + "\n"@, visual),
        ),
{
    let m = evidence::MATERIAL_OPEN@ + "\n"@ + body + MATERIAL_CLOSE@ + "\n"@;
    let seen = "\n=== 画面 ===\n"@ + visual;
    evidence::lemma_one_block(body);
    reveal_strlit("<video-material>");
    reveal_strlit("</video-material>");
    reveal_strlit("\n");
    let end = m.len() - 1 - MATERIAL_CLOSE@.len();
    assert(evidence::is_tag(MATERIAL_CLOSE@));
    assert(MATERIAL_CLOSE@ != evidence::MATERIAL_OPEN@);
    lemma_last(m, MATERIAL_CLOSE@, end, m.len() as int);
    assert(m.take(end) =~= evidence::MATERIAL_OPEN@ + "\n"@ + body);
    assert(m.skip(end) =~= MATERIAL_CLOSE@ + "\n"@);
    assert(m.take(end) + seen + m.skip(end) =~= evidence::MATERIAL_OPEN@ + "\n"@ + (body + seen)
        + MATERIAL_CLOSE@ + "\n"@);
    if evidence::sealed(visual) {
        reveal_strlit("\n=== 画面 ===\n");
        evidence::lemma_tagless_is_clean("\n=== 画面 ===\n"@);
        evidence::lemma_sealed("\n=== 画面 ===\n"@, visual);
        evidence::lemma_sealed(body, seen);
        evidence::lemma_one_block(body + seen);
    }
}

proof fn lemma_last(t: Seq<char>, p: Seq<char>, i: int, k: int)
    requires
        0 <= i <= k,
        text::occurs_at(t, p, i),
        forall|j: int| #[trigger] text::occurs_at(t, p, j) ==> j == i,
    ensures
        text::rfind_from(t, p, k) == Some(i),
    decreases k,
{
    if k > i {
        assert(!text::occurs_at(t, p, k));
        lemma_last(t, p, i, k - 1);
    }
}

// ---------------------------------------------------------------------------
// What is remembered of a video
// ---------------------------------------------------------------------------

/// A look at a video that was stored: what is stored of it, what was read from
/// what the model wrote, and how many frames it was shown.
#[derive(Debug)]
pub struct Remembered {
    pub stored: StoredDossier,
    pub parsed: Option<VideoDossier>,
    pub frames: Option<i64>,
}

/// All that is stored of a video besides its text: the looks at it, the latest
/// first, and what the endpoints answered.
#[derive(Debug)]
pub struct Memory {
    pub looks: Vec<Remembered>,
    pub answers: Vec<Option<String>>,
}

/// Why a video can never be looked at, from the `k`-th look on.
pub open spec fn blocked_from(v: Seq<Remembered>, k: int) -> Option<Seq<char>>
    decreases v.len() - k,
{
    if k < 0 || k >= v.len() {
        None
    } else if v[k].stored.blocked_reason is Some {
        text::opt(v[k].stored.blocked_reason)
    } else {
        blocked_from(v, k + 1)
    }
}

/// Whether a look came to something. One that failed leaves no text, and was not paid for.
pub open spec fn came_to_something(m: Remembered) -> bool {
    m.stored.blocked_reason is None && (m.stored.dossier_json@.len() > 0
        || m.stored.video_tokens is Some)
}

fn came_off(d: &StoredDossier) -> (r: bool)
    ensures
        r == (d.blocked_reason is None && (d.dossier_json@.len() > 0 || d.video_tokens is Some)),
{
    d.blocked_reason.is_none() && (!d.dossier_json.as_str().is_empty() || d.video_tokens.is_some())
}

/// The first dossier, from the `k`-th look on, that was made without a question.
/// How long the upload is kept does not matter: a dossier has no end.
pub open spec fn general_from(v: Seq<Remembered>, k: int) -> Option<int>
    decreases v.len() - k,
{
    if k < 0 || k >= v.len() {
        None
    } else if came_to_something(v[k]) && v[k].stored.question is None {
        Some(k)
    } else {
        general_from(v, k + 1)
    }
}

/// Whether the upload of a look can be used by `provider` at a time.
pub open spec fn is_live(m: Remembered, provider: Seq<char>, now: int) -> bool {
    text::opt(m.stored.provider) == Some(provider) && m.stored.staged_ref is Some && (
    m.stored.staged_expires_at matches Some(e) && e > now + STAGE_MARGIN_SECS)
}

/// The first upload, from the `k`-th look on, that can be used.
pub open spec fn live_from(v: Seq<Remembered>, provider: Seq<char>, now: int, k: int) -> Option<
    Seq<char>,
>
    decreases v.len() - k,
{
    if k < 0 || k >= v.len() {
        None
    } else if is_live(v[k], provider, now) {
        text::opt(v[k].stored.staged_ref)
    } else {
        live_from(v, provider, now, k + 1)
    }
}

/// An old question with its answer.
pub open spec fn exchange(m: Remembered) -> Seq<char> {
    "问："@ + clipped(text::opt(m.stored.question)->Some_0, MAX_EXCHANGE_CHARS as int) + "\n答："@
        + clipped(m.stored.dossier_json@, MAX_EXCHANGE_CHARS as int) + "\n"@
}

/// The latest questions with their answers, from the `k`-th look on; at most
/// `left`.
pub open spec fn exchanges(v: Seq<Remembered>, k: int, left: int) -> Seq<char>
    decreases v.len() - k,
{
    if k < 0 || k >= v.len() || left <= 0 {
        seq![]
    } else if came_to_something(v[k]) && v[k].stored.question is Some {
        exchange(v[k]) + exchanges(v, k + 1, left - 1)
    } else {
        exchanges(v, k + 1, left)
    }
}

/// What was asked of a video before. A model that sees it does not pay for the
/// same detail again.
pub open spec fn past_text(v: Seq<Remembered>) -> Seq<char> {
    let lines = exchanges(v, 0, MAX_DOSSIER_EXCHANGES as int);
    if lines.len() == 0 {
        lines
    } else {
        "--- 之前针对画面问过的（无需重复分析）---\n"@ + lines
    }
}

/// The first address of the video file in stored answers, from the `k`-th on,
/// that still works at a time.
pub open spec fn address_from(p: Platform, v: Seq<Option<String>>, now: int, k: int) -> Option<
    Seq<char>,
>
    decreases v.len() - k,
{
    if k < 0 || k >= v.len() {
        None
    } else {
        match works_at(p, text::opt(v[k]), now) {
            Some(a) => Some(a),
            None => address_from(p, v, now, k + 1),
        }
    }
}

/// The address of the video file in a stored answer, where it still works.
pub open spec fn works_at(p: Platform, raw: Option<Seq<char>>, now: int) -> Option<Seq<char>> {
    match raw {
        Some(t) => match outside::json_tree(t) {
            Some(j) => match discovery::file_address(p, j) {
                Some(a) => if discovery::address_works(a, now) {
                    Some(a)
                } else {
                    None
                },
                None => None,
            },
            None => None,
        },
        None => None,
    }
}

fn blocked(v: &Vec<Remembered>) -> (r: Option<String>)
    ensures
        text::opt(r) == blocked_from(v@, 0),
{
    let mut k: usize = 0;
    while k < v.len()
        invariant
            k <= v@.len(),
            blocked_from(v@, 0) == blocked_from(v@, k as int),
        decreases v@.len() - k,
    {
        if let Some(s) = &v[k].stored.blocked_reason {
            return Some(s.clone());
        }
        k = k + 1;
    }
    None
}

fn general(v: &Vec<Remembered>) -> (r: Option<usize>)
    ensures
        match r {
            Some(i) => general_from(v@, 0) == Some(i as int) && i < v@.len(),
            None => general_from(v@, 0) is None,
        },
{
    let mut k: usize = 0;
    while k < v.len()
        invariant
            k <= v@.len(),
            general_from(v@, 0) == general_from(v@, k as int),
        decreases v@.len() - k,
    {
        let s = &v[k].stored;
        if came_off(s) && s.question.is_none() {
            return Some(k);
        }
        k = k + 1;
    }
    None
}

fn live(v: &Vec<Remembered>, provider: &str, now: i64) -> (r: Option<String>)
    ensures
        text::opt(r) == live_from(v@, provider@, now as int, 0),
{
    let mut k: usize = 0;
    while k < v.len()
        invariant
            k <= v@.len(),
            live_from(v@, provider@, now as int, 0) == live_from(
                v@,
                provider@,
                now as int,
                k as int,
            ),
        decreases v@.len() - k,
    {
        let s = &v[k].stored;
        match (&s.provider, &s.staged_ref, s.staged_expires_at) {
            (Some(p), Some(reference), Some(e)) => {
                if same(p.as_str(), provider) && e as i128 > now as i128 + 600 {
                    return Some(reference.clone());
                }
            },
            _ => {},
        }
        k = k + 1;
    }
    None
}

/// What was asked of a video before.
pub fn past_answers(v: &Vec<Remembered>) -> (r: String)
    ensures
        r@ == past_text(v@),
{
    let mut out = String::new();
    let mut k: usize = 0;
    let mut left: usize = MAX_DOSSIER_EXCHANGES;
    let ghost all = exchanges(v@, 0, MAX_DOSSIER_EXCHANGES as int);
    assert(all =~= out@ + exchanges(v@, 0, left as int));
    while k < v.len() && left > 0
        invariant
            k <= v@.len(),
            all == out@ + exchanges(v@, k as int, left as int),
        decreases v@.len() - k,
    {
        let s = &v[k].stored;
        if let Some(q) = &s.question {
            if came_off(s) {
                let ghost before = out@;
                let line = "问：".to_owned().concat(
                    truncate(q.as_str(), MAX_EXCHANGE_CHARS).as_str(),
                ).concat("\n答：").concat(
                    truncate(s.dossier_json.as_str(), MAX_EXCHANGE_CHARS).as_str(),
                ).concat("\n");
                assert(line@ =~= exchange(v@[k as int]));
                out.append(line.as_str());
                left = left - 1;
                assert(all =~= out@ + exchanges(v@, k + 1, left as int));
            }
        }
        k = k + 1;
    }
    assert(all =~= out@);
    if out.as_str().is_empty() {
        out
    } else {
        "--- 之前针对画面问过的（无需重复分析）---\n".to_owned().concat(out.as_str())
    }
}

/// The first address of the video file in stored answers that still works.
pub fn fresh_play_addr(p: Platform, v: &Vec<Option<String>>, now: i64) -> (r: Option<String>)
    ensures
        text::opt(r) == address_from(p, v@, now as int, 0),
{
    let mut k: usize = 0;
    while k < v.len()
        invariant
            k <= v@.len(),
            address_from(p, v@, now as int, 0) == address_from(p, v@, now as int, k as int),
        decreases v@.len() - k,
    {
        if let Some(raw) = &v[k] {
            if let Some(a) = parse_play_addr(p, raw.as_str()) {
                if url_still_valid(a.as_str(), now) {
                    return Some(a);
                }
            }
        }
        k = k + 1;
    }
    None
}

/// A dossier serves as long as it is stored: when its upload ends makes no
/// difference to which dossier is used.
pub proof fn law_dossiers_outlive_uploads(v: Seq<Remembered>, w: Seq<Remembered>, k: int)
    requires
        v.len() == w.len(),
        forall|i: int|
            0 <= i < v.len() ==> (#[trigger] v[i]).stored.blocked_reason == w[i].stored.blocked_reason
                && v[i].stored.dossier_json == w[i].stored.dossier_json && v[i].stored.video_tokens
                == w[i].stored.video_tokens && v[i].stored.question == w[i].stored.question,
    ensures
        general_from(v, k) == general_from(w, k),
    decreases v.len() - k,
{
    if 0 <= k < v.len() {
        assert(v[k].stored.question == w[k].stored.question);
        law_dossiers_outlive_uploads(v, w, k + 1);
    }
}

/// An upload to one model is of no use to another.
pub proof fn law_uploads_belong_to_their_model(
    v: Seq<Remembered>,
    provider: Seq<char>,
    now: int,
    k: int,
)
    requires
        forall|i: int|
            0 <= i < v.len() ==> text::opt((#[trigger] v[i]).stored.provider) != Some(provider),
    ensures
        live_from(v, provider, now, k) is None,
    decreases v.len() - k,
{
    if 0 <= k < v.len() {
        assert(!is_live(v[k], provider, now));
        law_uploads_belong_to_their_model(v, provider, now, k + 1);
    }
}

// ---------------------------------------------------------------------------
// The visit
// ---------------------------------------------------------------------------

/// The model that looks at videos.
#[derive(Debug)]
pub struct Sight {
    /// Whose uploads it can use.
    pub provider: String,
    pub model: String,
}

/// What a visit is for.
#[derive(Debug)]
pub struct Errand {
    /// The call that has to be answered.
    pub call_id: String,
    pub parsed: ParsedUrl,
    pub url: String,
    /// The question with which the video is to be looked at.
    pub question: Option<String>,
    /// The model that looks at it, where there is one.
    pub sight: Option<Sight>,
    /// How many more videos may be looked at.
    pub budget_left: usize,
}

/// What is awaited.
#[derive(Debug)]
pub enum VisitStage {
    /// Whether the video is stored.
    Finding,
    /// All there is of it.
    Fetching,
    /// That this was stored.
    Saving { fetched: FetchedVideo },
    /// The video as it was stored.
    FindingAgain,
    /// What is remembered of it.
    Recalling { sv: StoredVideo },
    /// What the platform says of it now; the address of the file is too old.
    Refreshing { sv: StoredVideo },
    /// That this was stored.
    SavingAgain { sv: StoredVideo, fetched: FetchedVideo },
    /// What is remembered of it now.
    RecallingAgain { sv: StoredVideo },
    /// That the file behind an address was uploaded.
    Staging { sv: StoredVideo, address: String },
    /// What the model sees. `expires` is set where the upload is a new one, and
    /// `duration` is how long the video runs, as far as that is known.
    Looking { sv: StoredVideo, reference: String, expires: Option<i64>, duration: Option<i64> },
}

/// A visit: what it is for, how often the scraping service was asked, what was
/// asked of the video before, and what is awaited.
#[derive(Debug)]
pub struct Visit {
    pub errand: Errand,
    pub calls: usize,
    pub past: String,
    pub stage: VisitStage,
}

/// What came of what was awaited.
#[derive(Debug)]
pub enum Event {
    Found(Result<Option<StoredVideo>>),
    Fetched(Result<FetchedVideo>),
    Saved(Result<String>),
    Recalled(Memory),
    Staged(Result<StagedVideo>),
    /// What the model wrote, what was read from it, and how many frames it saw.
    Looked { result: Result<VisionResult>, parsed: Option<VideoDossier>, frames: Option<i64> },
}

/// What follows: more to do, or the answer to the call. `record` is what has to
/// be stored with it.
#[derive(Debug)]
pub enum VisitStep {
    Do(Visit),
    Done { outcome: ToolOutcome, record: Option<StoredDossier> },
}

/// How many more events there can be.
pub open spec fn events_left(s: VisitStage) -> int {
    match s {
        VisitStage::Finding => 10,
        VisitStage::Fetching => 9,
        VisitStage::Saving { fetched } => 8,
        VisitStage::FindingAgain => 7,
        VisitStage::Recalling { sv } => 6,
        VisitStage::Refreshing { sv } => 5,
        VisitStage::SavingAgain { sv, fetched } => 4,
        VisitStage::RecallingAgain { sv } => 3,
        VisitStage::Staging { sv, address } => 2,
        VisitStage::Looking { sv, reference, expires, duration } => 1,
    }
}

/// Whether an event is of the kind that is awaited.
pub open spec fn fits(s: VisitStage, e: Event) -> bool {
    match s {
        VisitStage::Finding => e is Found,
        VisitStage::Fetching => e is Fetched,
        VisitStage::Saving { fetched } => e is Saved,
        VisitStage::FindingAgain => e is Found,
        VisitStage::Recalling { sv } => e is Recalled,
        VisitStage::Refreshing { sv } => e is Fetched,
        VisitStage::SavingAgain { sv, fetched } => e is Saved,
        VisitStage::RecallingAgain { sv } => e is Recalled,
        VisitStage::Staging { sv, address } => e is Staged,
        VisitStage::Looking { sv, reference, expires, duration } => e is Looked,
    }
}

/// The calls with some more; no more than can be counted.
pub open spec fn counted(calls: int, more: int) -> int {
    if calls + more > usize::MAX {
        usize::MAX as int
    } else {
        calls + more
    }
}

fn count_calls(calls: usize, more: usize) -> (r: usize)
    ensures
        r == counted(calls as int, more as int),
{
    if more > usize::MAX - calls {
        usize::MAX
    } else {
        calls + more
    }
}

/// The answer to the call: the text on the video, and what was seen of it.
pub open spec fn told(
    call_id: Seq<char>,
    calls: int,
    sv: StoredVideo,
    section: Seq<char>,
    vision_calls: int,
    video_tokens: int,
) -> tools::OutcomeView {
    tools::OutcomeView {
        call_id,
        content: spliced(
            evidence::material(
                sv,
                LOOP_TRANSCRIPT_LIMIT_CHARS as int,
                evidence::opt_date(sv.video.published_at),
            ),
            section,
        ),
        is_error: false,
        endpoint: Some("fetch_video"@),
        raw_json: None,
        credits_charged: None,
        external_calls: calls,
        vision_calls,
        video_tokens,
    }
}

/// Whether `o` answers a call with the text on a video and what was seen of it.
pub open spec fn tells(o: tools::OutcomeView, call_id: Seq<char>) -> bool {
    exists|calls: int, sv: StoredVideo, section: Seq<char>, looks: int, tokens: int|
        o == #[trigger] told(call_id, calls, sv, section, looks, tokens)
}

/// Whether a visit ends with the text on the video and a section on what was
/// seen, for which nothing was paid.
pub open spec fn ends_with(e: Errand, calls: int, sv: StoredVideo, section: Seq<char>, r: VisitStep) -> bool {
    r matches VisitStep::Done { outcome, record } && outcome@ == told(e.call_id@, calls, sv, section, 0, 0)
}

/// A call that came to nothing after the service was asked `calls` times. What
/// that cost is known only where it was not asked.
pub open spec fn gave_up(call_id: Seq<char>, calls: int, message: Seq<char>) -> tools::OutcomeView {
    tools::failed(
        call_id,
        message,
        calls,
        if calls == 0 {
            Some(0)
        } else {
            None
        },
    )
}

/// Whether a visit ends with an error.
pub open spec fn fails_with(e: Errand, calls: int, message: Seq<char>, r: VisitStep) -> bool {
    r matches VisitStep::Done { outcome, record } && outcome@ == gave_up(e.call_id@, calls, message)
        && record is None
}

/// Whether nothing has to be stored at the end.
pub open spec fn no_record(r: VisitStep) -> bool {
    r matches VisitStep::Done { outcome, record } && record is None
}

/// Whether a visit goes on, for the same errand.
pub open spec fn goes_on(e: Errand, calls: int, past: Seq<char>, r: VisitStep) -> bool {
    r matches VisitStep::Do(w) && w.errand == e && w.calls as int == calls && w.past@ == past
}

/// Why a video is not looked at, where that is clear beforehand.
pub open spec fn unseen(e: Errand) -> Option<Seq<char>> {
    if e.sight is None {
        Some("未配置视觉模型（设置 DASHSCOPE_API_KEY 后可用）"@)
    } else if e.budget_left == 0 {
        Some("本次提问的视频分析预算已用尽"@)
    } else if e.parsed.platform == Platform::YouTube {
        Some("YouTube 暂不支持画面分析（拿不到视频直链）"@)
    } else {
        None
    }
}

/// The name of whoever looks.
pub open spec fn seer(e: Errand) -> Seq<char> {
    match e.sight {
        Some(s) => s.provider@,
        None => ""@,
    }
}

/// The model that looks.
pub open spec fn seeing_model(e: Errand) -> Seq<char> {
    match e.sight {
        Some(s) => s.model@,
        None => ""@,
    }
}

/// What follows once the text is there.
pub open spec fn after_text(e: Errand, calls: int, past: Seq<char>, sv: StoredVideo, r: VisitStep) -> bool {
    match unseen(e) {
        Some(why) => ends_with(e, calls, sv, dossier::unavailable_text(why), r) && no_record(r),
        None => goes_on(e, calls, past, r) && (r->Do_0.stage matches VisitStage::Recalling { sv: t }
            && t == sv),
    }
}

/// What follows when the store was asked for the video. What was just stored has
/// to be there.
pub open spec fn after_finding(
    e: Errand,
    calls: int,
    past: Seq<char>,
    again: bool,
    found: Result<Option<StoredVideo>>,
    r: VisitStep,
) -> bool {
    match found {
        Ok(Some(sv)) => after_text(e, calls, past, sv, r),
        Ok(None) => if again {
            fails_with(e, calls, "刚写进去却读不出来"@, r)
        } else {
            goes_on(e, calls, past, r) && r->Do_0.stage is Fetching
        },
        Err(x) => if again {
            fails_with(e, calls, "刚写进去却读不出来"@, r)
        } else {
            fails_with(e, calls, "查库失败："@ + error::error_text(x), r)
        },
    }
}

/// What follows when the video was fetched. Every endpoint that was asked is
/// counted.
pub open spec fn after_fetching(
    e: Errand,
    calls: int,
    past: Seq<char>,
    got: Result<FetchedVideo>,
    r: VisitStep,
) -> bool {
    match got {
        Ok(f) => goes_on(e, counted(calls, f.artifacts@.len() as int), past, r) && (
        r->Do_0.stage matches VisitStage::Saving { fetched } && fetched == f),
        Err(x) => fails_with(e, calls, "抓取失败："@ + error::error_text(x), r),
    }
}

/// What follows when it was stored.
pub open spec fn after_saving(
    e: Errand,
    calls: int,
    past: Seq<char>,
    saved: Result<String>,
    r: VisitStep,
) -> bool {
    match saved {
        Ok(_) => goes_on(e, calls, past, r) && r->Do_0.stage is FindingAgain,
        Err(x) => fails_with(e, calls, "抓到了但写库失败："@ + error::error_text(x), r),
    }
}

/// What follows when it is known what is remembered of the video.
pub open spec fn after_recalling(
    e: Errand,
    calls: int,
    sv: StoredVideo,
    m: Memory,
    now: int,
    r: VisitStep,
) -> bool {
    let past = past_text(m.looks@);
    match blocked_from(m.looks@, 0) {
        Some(why) => ends_with(e, calls, sv, dossier::unavailable_text(why), r) && no_record(r),
        None => match (e.question, general_from(m.looks@, 0)) {
            (None, Some(i)) => ends_with(
                e,
                calls,
                sv,
                dossier::stored_text(
                    m.looks@[i].stored,
                    m.looks@[i].parsed,
                    sv.video.duration_sec,
                    m.looks@[i].frames,
                    Some(evidence::date_text(m.looks@[i].stored.created_at as int)),
                ) + past,
                r,
            ) && no_record(r),
            _ => match live_from(m.looks@, seer(e), now, 0) {
                Some(l) => goes_on(e, calls, past, r) && (r->Do_0.stage matches VisitStage::Looking {
                    sv: t,
                    reference,
                    expires,
                    duration,
                } && t == sv && reference@ == l && expires is None && duration
                    == sv.video.duration_sec),
                None => goes_on(e, calls, past, r) && match address_from(
                    e.parsed.platform,
                    m.answers@,
                    now,
                    0,
                ) {
                    Some(a) => r->Do_0.stage matches VisitStage::Staging { sv: t, address } && t == sv
                        && address@ == a,
                    None => r->Do_0.stage matches VisitStage::Refreshing { sv: t } && t == sv,
                },
            },
        },
    }
}

/// What follows when the platform was asked again what it says of the video.
pub open spec fn after_refreshing(
    e: Errand,
    calls: int,
    past: Seq<char>,
    sv: StoredVideo,
    got: Result<FetchedVideo>,
    r: VisitStep,
) -> bool {
    match got {
        Ok(f) => goes_on(e, counted(calls, f.artifacts@.len() as int), past, r) && (
        r->Do_0.stage matches VisitStage::SavingAgain { sv: t, fetched } && t == sv && fetched == f),
        Err(x) => ends_with(
            e,
            calls,
            sv,
            dossier::unavailable_text("重抓元数据失败："@ + error::error_text(x)),
            r,
        ) && no_record(r),
    }
}

/// What follows when that was stored.
pub open spec fn after_saving_again(
    e: Errand,
    calls: int,
    past: Seq<char>,
    sv: StoredVideo,
    saved: Result<String>,
    r: VisitStep,
) -> bool {
    match saved {
        Ok(_) => goes_on(e, calls, past, r) && (r->Do_0.stage matches VisitStage::RecallingAgain {
            sv: t,
        } && t == sv),
        Err(_) => ends_with(e, calls, sv, dossier::unavailable_text("重抓元数据后写库失败"@), r)
            && no_record(r),
    }
}

/// What follows when it is known what the store has of it then. It is not asked
/// a third time.
pub open spec fn after_recalling_again(
    e: Errand,
    calls: int,
    past: Seq<char>,
    sv: StoredVideo,
    m: Memory,
    now: int,
    r: VisitStep,
) -> bool {
    match address_from(e.parsed.platform, m.answers@, now, 0) {
        Some(a) => goes_on(e, calls, past, r) && (r->Do_0.stage matches VisitStage::Staging {
            sv: t,
            address,
        } && t == sv && address@ == a),
        None => ends_with(
            e,
            calls,
            sv,
            dossier::unavailable_text("这个平台的响应里没有视频直链"@),
            r,
        ) && no_record(r),
    }
}

/// How long a video runs: what the platform says, or else what its size says.
pub open spec fn running_time(known: Option<i64>, size: int) -> Option<int> {
    match known {
        Some(n) => Some(n as int),
        None => Some(vision::estimated_secs(size)),
    }
}

/// What is stored of a look that came to nothing: why it never will, or else
/// where the video was uploaded to.
pub open spec fn is_failed_look(
    d: StoredDossier,
    e: Errand,
    now: int,
    why: Option<Seq<char>>,
    reference: Option<Seq<char>>,
    expires: Option<i64>,
) -> bool {
    d.dossier_json@.len() == 0 && d.model@ == seeing_model(e) && d.fps@ == "0"@ && text::opt(
        d.question,
    ) == text::opt(e.question) && d.video_tokens is None && d.created_at as int == now && text::opt(
        d.provider,
    ) == Some(seer(e)) && text::opt(d.staged_ref) == reference && d.staged_expires_at == expires
        && text::opt(d.blocked_reason) == why
}

/// What follows when the file was uploaded. A failure that would come again is
/// remembered.
pub open spec fn after_staging(
    e: Errand,
    calls: int,
    past: Seq<char>,
    sv: StoredVideo,
    got: Result<StagedVideo>,
    now: int,
    r: VisitStep,
) -> bool {
    match got {
        Ok(s) => goes_on(e, calls, past, r) && (r->Do_0.stage matches VisitStage::Looking {
            sv: t,
            reference,
            expires,
            duration,
        } && t == sv && reference == s.reference && expires == Some(s.expires_at) && (
        duration matches Some(d) && running_time(sv.video.duration_sec, s.size_bytes as int) == Some(
            d as int,
        ))),
        Err(x) => {
            let why = error::error_text(x);
            ends_with(e, calls, sv, dossier::unavailable_text(why), r) && if vision::lasting(why) {
                r->record matches Some(d) && is_failed_look(d, e, now, Some(why), None, None)
            } else {
                r->record is None
            }
        },
    }
}

/// What is stored of a look that came to something. The end of an upload stands
/// with the look for which it was made, and with no other.
pub open spec fn is_look(
    d: StoredDossier,
    e: Errand,
    now: int,
    x: VisionResult,
    reference: Seq<char>,
    expires: Option<i64>,
) -> bool {
    d.dossier_json@ == x.text@ && d.model@ == seeing_model(e) && d.fps@ == x.fps@ && text::opt(
        d.question,
    ) == text::opt(e.question) && d.video_tokens == Some(x.usage.video_tokens as i64)
        && d.created_at as int == now && text::opt(d.provider) == Some(seer(e)) && text::opt(
        d.staged_ref,
    ) == Some(reference) && d.staged_expires_at == expires && d.blocked_reason is None
}

/// What was seen, as a model reads it.
pub open spec fn sight_section(
    e: Errand,
    past: Seq<char>,
    sv: StoredVideo,
    d: StoredDossier,
    parsed: Option<VideoDossier>,
    frames: Option<i64>,
) -> Seq<char> {
    match e.question {
        Some(q) => answer_section(q@, d.dossier_json@, d.fps@),
        None => dossier::stored_text(d, parsed, sv.video.duration_sec, frames, None) + past,
    }
}

/// What follows when the model looked. Where it failed, a failure that would come
/// again is remembered, and otherwise a new upload is, to be looked at again.
pub open spec fn after_looking(
    e: Errand,
    calls: int,
    past: Seq<char>,
    sv: StoredVideo,
    reference: Seq<char>,
    expires: Option<i64>,
    got: Result<VisionResult>,
    parsed: Option<VideoDossier>,
    frames: Option<i64>,
    now: int,
    r: VisitStep,
) -> bool {
    match got {
        Ok(x) => r matches VisitStep::Done { outcome, record } && (record matches Some(d) && is_look(
            d,
            e,
            now,
            x,
            reference,
            expires,
        ) && outcome@ == told(
            e.call_id@,
            calls,
            sv,
            sight_section(e, past, sv, d, parsed, frames),
            1,
            x.usage.video_tokens as int,
        )),
        Err(x) => {
            let why = error::error_text(x);
            ends_with(e, calls, sv, dossier::unavailable_text(why), r) && if vision::lasting(why) {
                r->record matches Some(d) && is_failed_look(d, e, now, Some(why), None, None)
            } else if expires is Some {
                r->record matches Some(d) && is_failed_look(
                    d,
                    e,
                    now,
                    None,
                    Some(reference),
                    expires,
                )
            } else {
                r->record is None
            }
        },
    }
}

/// What follows an event.
pub open spec fn follows(v: Visit, ev: Event, now: int, r: VisitStep) -> bool {
    let e = v.errand;
    let calls = v.calls as int;
    let past = v.past@;
    match (v.stage, ev) {
        (VisitStage::Finding, Event::Found(x)) => after_finding(e, calls, past, false, x, r),
        (VisitStage::Fetching, Event::Fetched(x)) => after_fetching(e, calls, past, x, r),
        (VisitStage::Saving { fetched }, Event::Saved(x)) => after_saving(e, calls, past, x, r),
        (VisitStage::FindingAgain, Event::Found(x)) => after_finding(e, calls, past, true, x, r),
        (VisitStage::Recalling { sv }, Event::Recalled(m)) => after_recalling(
            e,
            calls,
            sv,
            m,
            now,
            r,
        ),
        (VisitStage::Refreshing { sv }, Event::Fetched(x)) => after_refreshing(
            e,
            calls,
            past,
            sv,
            x,
            r,
        ),
        (VisitStage::SavingAgain { sv, fetched }, Event::Saved(x)) => after_saving_again(
            e,
            calls,
            past,
            sv,
            x,
            r,
        ),
        (VisitStage::RecallingAgain { sv }, Event::Recalled(m)) => after_recalling_again(
            e,
            calls,
            past,
            sv,
            m,
            now,
            r,
        ),
        (VisitStage::Staging { sv, address }, Event::Staged(x)) => after_staging(
            e,
            calls,
            past,
            sv,
            x,
            now,
            r,
        ),
        (
            VisitStage::Looking { sv, reference, expires, duration },
            Event::Looked { result, parsed, frames },
        ) => after_looking(
            e,
            calls,
            past,
            sv,
            reference@,
            expires,
            result,
            parsed,
            frames,
            now,
            r,
        ),
        _ => r == VisitStep::Do(v),
    }
}

/// What a visit begins with. One that asks a question about a video when no more
/// videos may be looked at is of no use.
pub open spec fn begins(e: Errand, r: VisitStep) -> bool {
    if e.question is Some && e.sight is Some && e.budget_left == 0 {
        fails_with(e, 0, "本次提问的视频分析预算已用尽"@, r)
    } else {
        goes_on(e, 0, seq![], r) && r->Do_0.stage is Finding
    }
}

/// Whether the `i`-th step of a visit is followed by the next one, with the event
/// that came between them and the time at which it came.
pub open spec fn is_followed(events: Seq<(Event, i64)>, steps: Seq<VisitStep>, i: int) -> bool {
    steps[i] matches VisitStep::Do(v) && fits(v.stage, events[i].0) && follows(
        v,
        events[i].0,
        events[i].1 as int,
        steps[i + 1],
    )
}

/// Whether these are the steps of a visit, from its beginning to its end, with the
/// events between them.
pub open spec fn is_course(e: Errand, events: Seq<(Event, i64)>, steps: Seq<VisitStep>) -> bool {
    &&& steps.len() == events.len() + 1
    &&& begins(e, steps[0])
    &&& forall|i: int| 0 <= i < events.len() ==> #[trigger] is_followed(events, steps, i)
}

fn tell(
    e: Errand,
    calls: usize,
    sv: &StoredVideo,
    section: String,
    vision_calls: usize,
    video_tokens: u32,
    record: Option<StoredDossier>,
) -> (r: VisitStep)
    ensures
        r matches VisitStep::Done { outcome, record: d } && d == record && outcome@ == told(
            e.call_id@,
            calls as int,
            *sv,
            section@,
            vision_calls as int,
            video_tokens as int,
        ),
{
    let words = build_evidence_with_limit(sv, LOOP_TRANSCRIPT_LIMIT_CHARS);
    VisitStep::Done {
        outcome: ToolOutcome {
            result: ToolResult {
                call_id: e.call_id,
                content: splice_visual_section(words.as_str(), section.as_str()),
                is_error: false,
            },
            endpoint: Some("fetch_video".to_owned()),
            raw_json: None,
            credits_charged: None,
            external_calls: calls,
            vision_calls,
            video_tokens,
        },
        record,
    }
}

fn without_sight(
    e: Errand,
    calls: usize,
    sv: &StoredVideo,
    why: &str,
    record: Option<StoredDossier>,
) -> (r: VisitStep)
    ensures
        ends_with(e, calls as int, *sv, dossier::unavailable_text(why@), r),
        r->record == record,
{
    tell(e, calls, sv, render_unavailable(why), 0, 0, record)
}

fn give_up(e: Errand, calls: usize, message: String) -> (r: VisitStep)
    ensures
        fails_with(e, calls as int, message@, r),
{
    let credits: Option<i64> = if calls == 0 {
        Some(0)
    } else {
        None
    };
    VisitStep::Done {
        outcome: ToolOutcome::failed(e.call_id.as_str(), message, calls, credits),
        record: None,
    }
}

fn reason_not_to_look(e: &Errand) -> (r: Option<&'static str>)
    ensures
        match unseen(*e) {
            Some(t) => r matches Some(s) && s@ == t,
            None => r is None,
        },
{
    if e.sight.is_none() {
        Some("未配置视觉模型（设置 DASHSCOPE_API_KEY 后可用）")
    } else if e.budget_left == 0 {
        Some("本次提问的视频分析预算已用尽")
    } else if e.parsed.platform == Platform::YouTube {
        Some("YouTube 暂不支持画面分析（拿不到视频直链）")
    } else {
        None
    }
}

fn have_text(e: Errand, calls: usize, past: String, sv: StoredVideo) -> (r: VisitStep)
    ensures
        after_text(e, calls as int, past@, sv, r),
        r matches VisitStep::Do(w) ==> events_left(w.stage) <= 6,
{
    match reason_not_to_look(&e) {
        Some(why) => without_sight(e, calls, &sv, why, None),
        None => VisitStep::Do(Visit { errand: e, calls, past, stage: VisitStage::Recalling { sv } }),
    }
}

fn finish_finding(
    e: Errand,
    calls: usize,
    past: String,
    again: bool,
    found: Result<Option<StoredVideo>>,
) -> (r: VisitStep)
    ensures
        after_finding(e, calls as int, past@, again, found, r),
        r matches VisitStep::Do(w) ==> events_left(w.stage) < (if again { 7int } else { 10int }),
{
    match found {
        Ok(Some(sv)) => have_text(e, calls, past, sv),
        Ok(None) => if again {
            give_up(e, calls, "刚写进去却读不出来".to_owned())
        } else {
            VisitStep::Do(Visit { errand: e, calls, past, stage: VisitStage::Fetching })
        },
        Err(x) => if again {
            give_up(e, calls, "刚写进去却读不出来".to_owned())
        } else {
            give_up(e, calls, "查库失败：".to_owned().concat(x.message().as_str()))
        },
    }
}

fn go_get(e: Errand, calls: usize, past: String, sv: StoredVideo, address: String) -> (r: VisitStep)
    ensures
        goes_on(e, calls as int, past@, r),
        r->Do_0.stage == (VisitStage::Staging { sv, address }),
{
    VisitStep::Do(Visit { errand: e, calls, past, stage: VisitStage::Staging { sv, address } })
}

fn finish_recalling(e: Errand, calls: usize, sv: StoredVideo, m: Memory, now: i64) -> (r: VisitStep)
    ensures
        after_recalling(e, calls as int, sv, m, now as int, r),
        r matches VisitStep::Do(w) ==> events_left(w.stage) < 6,
{
    if let Some(why) = blocked(&m.looks) {
        return without_sight(e, calls, &sv, why.as_str(), None);
    }
    let past = past_answers(&m.looks);
    if e.question.is_none() {
        if let Some(i) = general(&m.looks) {
            let look = &m.looks[i];
            let section = look.stored.render(
                &look.parsed,
                sv.video.duration_sec,
                look.frames,
                true,
            ).concat(past.as_str());
            return tell(e, calls, &sv, section, 0, 0, None);
        }
    }
    let kept = match &e.sight {
        Some(s) => live(&m.looks, s.provider.as_str(), now),
        None => live(&m.looks, "", now),
    };
    match kept {
        Some(reference) => {
            let duration = sv.video.duration_sec;
            VisitStep::Do(
                Visit {
                    errand: e,
                    calls,
                    past,
                    stage: VisitStage::Looking { sv, reference, expires: None, duration },
                },
            )
        },
        None => match fresh_play_addr(e.parsed.platform, &m.answers, now) {
            Some(address) => go_get(e, calls, past, sv, address),
            None => VisitStep::Do(
                Visit { errand: e, calls, past, stage: VisitStage::Refreshing { sv } },
            ),
        },
    }
}

fn failed_look(
    e: &Errand,
    now: i64,
    why: Option<String>,
    reference: Option<String>,
    expires: Option<i64>,
) -> (r: StoredDossier)
    ensures
        is_failed_look(r, *e, now as int, text::opt(why), text::opt(reference), expires),
{
    let (provider, model) = match &e.sight {
        Some(s) => (s.provider.clone(), s.model.clone()),
        None => (String::new(), String::new()),
    };
    proof {
        reveal_strlit("");
        assert(e.sight is None ==> provider@ =~= ""@ && model@ =~= ""@);
    }
    StoredDossier {
        dossier_json: String::new(),
        model,
        fps: "0".to_owned(),
        question: text::copy_opt(&e.question),
        video_tokens: None,
        created_at: now,
        provider: Some(provider),
        staged_ref: reference,
        staged_expires_at: expires,
        blocked_reason: why,
    }
}

fn finish_staging(
    e: Errand,
    calls: usize,
    past: String,
    sv: StoredVideo,
    got: Result<StagedVideo>,
    now: i64,
) -> (r: VisitStep)
    ensures
        after_staging(e, calls as int, past@, sv, got, now as int, r),
        r matches VisitStep::Do(w) ==> events_left(w.stage) < 2,
{
    match got {
        Ok(s) => {
            let duration = match sv.video.duration_sec {
                Some(n) => Some(n),
                None => Some(estimate_secs_from_size(s.size_bytes)),
            };
            VisitStep::Do(
                Visit {
                    errand: e,
                    calls,
                    past,
                    stage: VisitStage::Looking {
                        sv,
                        reference: s.reference,
                        expires: Some(s.expires_at),
                        duration,
                    },
                },
            )
        },
        Err(x) => {
            let why = x.message();
            let record = if is_permanent_failure(&x) {
                Some(failed_look(&e, now, Some(why.clone()), None, None))
            } else {
                None
            };
            without_sight(e, calls, &sv, why.as_str(), record)
        },
    }
}

fn good_look(e: &Errand, now: i64, x: &VisionResult, reference: String, expires: Option<i64>) -> (r:
    StoredDossier)
    ensures
        is_look(r, *e, now as int, *x, reference@, expires),
{
    let (provider, model) = match &e.sight {
        Some(s) => (s.provider.clone(), s.model.clone()),
        None => (String::new(), String::new()),
    };
    proof {
        reveal_strlit("");
        assert(e.sight is None ==> provider@ =~= ""@ && model@ =~= ""@);
    }
    StoredDossier {
        dossier_json: x.text.clone(),
        model,
        fps: x.fps.clone(),
        question: text::copy_opt(&e.question),
        video_tokens: Some(x.usage.video_tokens as i64),
        created_at: now,
        provider: Some(provider),
        staged_ref: Some(reference),
        staged_expires_at: expires,
        blocked_reason: None,
    }
}

fn finish_looking(
    e: Errand,
    calls: usize,
    past: String,
    sv: StoredVideo,
    reference: String,
    expires: Option<i64>,
    got: Result<VisionResult>,
    parsed: Option<VideoDossier>,
    frames: Option<i64>,
    now: i64,
) -> (r: VisitStep)
    ensures
        after_looking(
            e,
            calls as int,
            past@,
            sv,
            reference@,
            expires,
            got,
            parsed,
            frames,
            now as int,
            r,
        ),
        r is Done,
{
    match got {
        Ok(x) => {
            let d = good_look(&e, now, &x, reference, expires);
            let section = match &e.question {
                Some(q) => render_answer(q.as_str(), d.dossier_json.as_str(), d.fps.as_str()),
                None => d.render(&parsed, sv.video.duration_sec, frames, false).concat(
                    past.as_str(),
                ),
            };
            tell(e, calls, &sv, section, 1, x.usage.video_tokens, Some(d))
        },
        Err(x) => {
            let why = x.message();
            let record = if is_permanent_failure(&x) {
                Some(failed_look(&e, now, Some(why.clone()), None, None))
            } else if expires.is_some() {
                Some(failed_look(&e, now, None, Some(reference), expires))
            } else {
                None
            };
            without_sight(e, calls, &sv, why.as_str(), record)
        },
    }
}

impl Visit {
    /// A visit before anything was done. One that asks a question about a video
    /// when no more videos may be looked at is of no use, and is refused before
    /// anything is paid for.
    pub fn start(errand: Errand) -> (r: VisitStep)
        ensures
            begins(errand, r),
    {
        if errand.question.is_some() && errand.sight.is_some() && errand.budget_left == 0 {
            return give_up(errand, 0, "本次提问的视频分析预算已用尽".to_owned());
        }
        VisitStep::Do(Visit { errand, calls: 0, past: String::new(), stage: VisitStage::Finding })
    }

    /// What follows an event that came at a time. One that was not awaited
    /// changes nothing.
    pub fn advance(self, event: Event, now: i64) -> (r: VisitStep)
        ensures
            follows(self, event, now as int, r),
            fits(self.stage, event) ==> (r matches VisitStep::Do(w) ==> events_left(w.stage)
                < events_left(self.stage)),
            !fits(self.stage, event) ==> r == VisitStep::Do(self),
    {
        let Visit { errand, calls, past, stage } = self;
        match (stage, event) {
            (VisitStage::Finding, Event::Found(x)) => finish_finding(errand, calls, past, false, x),
            (VisitStage::FindingAgain, Event::Found(x)) => finish_finding(
                errand,
                calls,
                past,
                true,
                x,
            ),
            (VisitStage::Fetching, Event::Fetched(x)) => match x {
                Ok(fetched) => {
                    let calls: usize = count_calls(calls, fetched.artifacts.len());
                    VisitStep::Do(
                        Visit { errand, calls, past, stage: VisitStage::Saving { fetched } },
                    )
                },
                Err(x) => give_up(
                    errand,
                    calls,
                    "抓取失败：".to_owned().concat(x.message().as_str()),
                ),
            },
            (VisitStage::Saving { fetched }, Event::Saved(x)) => match x {
                Ok(_) => VisitStep::Do(
                    Visit { errand, calls, past, stage: VisitStage::FindingAgain },
                ),
                Err(x) => give_up(
                    errand,
                    calls,
                    "抓到了但写库失败：".to_owned().concat(x.message().as_str()),
                ),
            },
            (VisitStage::Recalling { sv }, Event::Recalled(m)) => finish_recalling(
                errand,
                calls,
                sv,
                m,
                now,
            ),
            (VisitStage::Refreshing { sv }, Event::Fetched(x)) => match x {
                Ok(fetched) => {
                    let calls: usize = count_calls(calls, fetched.artifacts.len());
                    VisitStep::Do(
                        Visit { errand, calls, past, stage: VisitStage::SavingAgain { sv, fetched } },
                    )
                },
                Err(x) => {
                    let why = "重抓元数据失败：".to_owned().concat(x.message().as_str());
                    without_sight(errand, calls, &sv, why.as_str(), None)
                },
            },
            (VisitStage::SavingAgain { sv, fetched }, Event::Saved(x)) => match x {
                Ok(_) => VisitStep::Do(
                    Visit { errand, calls, past, stage: VisitStage::RecallingAgain { sv } },
                ),
                Err(_) => without_sight(errand, calls, &sv, "重抓元数据后写库失败", None),
            },
            (VisitStage::RecallingAgain { sv }, Event::Recalled(m)) => match fresh_play_addr(
                errand.parsed.platform,
                &m.answers,
                now,
            ) {
                Some(address) => go_get(errand, calls, past, sv, address),
                None => without_sight(
                    errand,
                    calls,
                    &sv,
                    "这个平台的响应里没有视频直链",
                    None,
                ),
            },
            (VisitStage::Staging { sv, address }, Event::Staged(x)) => finish_staging(
                errand,
                calls,
                past,
                sv,
                x,
                now,
            ),
            (
                VisitStage::Looking { sv, reference, expires, duration },
                Event::Looked { result, parsed, frames },
            ) => finish_looking(
                errand,
                calls,
                past,
                sv,
                reference,
                expires,
                result,
                parsed,
                frames,
                now,
            ),
            (stage, _) => VisitStep::Do(Visit { errand, calls, past, stage }),
        }
    }
}

/// The video whose text is there, where it is.
pub open spec fn text_of(s: VisitStage) -> Option<StoredVideo> {
    match s {
        VisitStage::Finding => None,
        VisitStage::Fetching => None,
        VisitStage::Saving { fetched } => None,
        VisitStage::FindingAgain => None,
        VisitStage::Recalling { sv } => Some(sv),
        VisitStage::Refreshing { sv } => Some(sv),
        VisitStage::SavingAgain { sv, fetched } => Some(sv),
        VisitStage::RecallingAgain { sv } => Some(sv),
        VisitStage::Staging { sv, address } => Some(sv),
        VisitStage::Looking { sv, reference, expires, duration } => Some(sv),
    }
}

/// Whatever a visit comes to, it answers the call that it is for, with the text
/// on a video or with an error, and counts every time the service was asked.
pub proof fn law_visits_answer_their_call(v: Visit, ev: Event, now: int, r: VisitStep)
    requires
        follows(v, ev, now, r),
    ensures
        r matches VisitStep::Done { outcome, record } ==> outcome@.call_id == v.errand.call_id@ && (
        outcome@.external_calls == v.calls) && (outcome@ == gave_up(
            v.errand.call_id@,
            v.calls as int,
            outcome@.content,
        ) || tells(outcome@, v.errand.call_id@)),
        r matches VisitStep::Do(w) ==> w.errand == v.errand && w.calls >= v.calls,
{
}

/// Once the text of a video is there, no failure to look at it takes it away.
pub proof fn law_sight_never_costs_the_text(v: Visit, ev: Event, now: int, r: VisitStep)
    requires
        follows(v, ev, now, r),
        text_of(v.stage) is Some,
    ensures
        r matches VisitStep::Done { outcome, record } ==> !outcome@.is_error && exists|section: Seq<
            char,
        >|
            outcome@.content == #[trigger] spliced(
                evidence::material(
                    text_of(v.stage)->Some_0,
                    LOOP_TRANSCRIPT_LIMIT_CHARS as int,
                    evidence::opt_date(text_of(v.stage)->Some_0.video.published_at),
                ),
                section,
            ),
        r matches VisitStep::Do(w) ==> text_of(w.stage) == text_of(v.stage),
{
}

/// A look is counted exactly where the model looked and wrote something.
pub proof fn law_only_looks_are_counted(v: Visit, ev: Event, now: int, r: VisitStep)
    requires
        follows(v, ev, now, r),
        r is Done,
    ensures
        r->outcome@.vision_calls == (if v.stage is Looking && (ev matches Event::Looked {
            result,
            parsed,
            frames,
        } && result is Ok) {
            1int
        } else {
            0int
        }),
{
}

/// A video without a model to look at it, or of which no more may be looked at,
/// is never uploaded.
pub proof fn law_no_upload_without_leave(v: Visit, ev: Event, now: int, r: VisitStep)
    requires
        follows(v, ev, now, r),
        unseen(v.errand) is Some,
        text_of(v.stage) is None,
    ensures
        r matches VisitStep::Do(w) ==> text_of(w.stage) is None && unseen(w.errand) is Some,
{
}

/// A reason that is remembered is found.
pub proof fn lemma_blocked(v: Seq<Remembered>, i: int, k: int)
    requires
        0 <= k <= i < v.len(),
        v[i].stored.blocked_reason is Some,
    ensures
        blocked_from(v, k) is Some,
    decreases i - k,
{
    if k < i {
        lemma_blocked(v, i, k + 1);
    }
}

/// Where no reason is remembered, none is found.
pub proof fn lemma_unblocked(v: Seq<Remembered>, k: int)
    requires
        forall|i: int| 0 <= i < v.len() ==> (#[trigger] v[i]).stored.blocked_reason is None,
    ensures
        blocked_from(v, k) is None,
    decreases v.len() - k,
{
    if 0 <= k < v.len() {
        lemma_unblocked(v, k + 1);
    }
}

/// A failure that would come again is met once: it is stored why, and where that is
/// remembered the video is neither uploaded nor looked at, and nothing is paid.
pub proof fn law_lasting_failures_are_not_tried_again(
    v: Visit,
    ev: Event,
    now: int,
    r: VisitStep,
    w: Visit,
    m: Memory,
    i: int,
    later: int,
    s: VisitStep,
)
    requires
        follows(v, ev, now, r),
        match (v.stage, ev) {
            (VisitStage::Staging { sv, address }, Event::Staged(Err(x))) => vision::lasting(
                error::error_text(x),
            ),
            (
                VisitStage::Looking { sv, reference, expires, duration },
                Event::Looked { result: Err(x), parsed, frames },
            ) => vision::lasting(error::error_text(x)),
            _ => false,
        },
        0 <= i < m.looks@.len(),
        r->record == Some(m.looks@[i].stored),
        w.stage is Recalling,
        follows(w, Event::Recalled(m), later, s),
    ensures
        s is Done,
        s->outcome@.external_calls == w.calls,
        s->outcome@.vision_calls == 0,
        s->record is None,
{
    lemma_blocked(m.looks@, i, 0);
}

/// After any other failure to look at a video that was just uploaded, the upload is
/// stored. As long as it is kept, and nothing else is known of the video, it is
/// looked at again without another upload.
pub proof fn law_other_failures_keep_the_upload(
    v: Visit,
    ev: Event,
    now: int,
    r: VisitStep,
    w: Visit,
    m: Memory,
    later: int,
    s: VisitStep,
)
    requires
        follows(v, ev, now, r),
        match (v.stage, ev) {
            (
                VisitStage::Looking { sv, reference, expires, duration },
                Event::Looked { result: Err(x), parsed, frames },
            ) => !vision::lasting(error::error_text(x)) && (expires matches Some(e) && e > later
                + STAGE_MARGIN_SECS),
            _ => false,
        },
        m.looks@.len() == 1,
        r->record == Some(m.looks@[0].stored),
        seer(w.errand) == seer(v.errand),
        w.stage is Recalling,
        follows(w, Event::Recalled(m), later, s),
    ensures
        s matches VisitStep::Do(x) && (x.stage matches VisitStage::Looking {
            sv,
            reference,
            expires,
            duration,
        } && reference@ == v.stage->Looking_reference@),
{
    assert(blocked_from(m.looks@, 1) is None);
    assert(general_from(m.looks@, 1) is None);
    assert(is_live(m.looks@[0], seer(w.errand), later));
}

/// Where there is a dossier and no question, nothing is downloaded, uploaded or
/// looked at.
pub proof fn law_old_dossiers_are_free(v: Visit, m: Memory, now: int, r: VisitStep)
    requires
        v.stage is Recalling,
        v.errand.question is None,
        blocked_from(m.looks@, 0) is None,
        general_from(m.looks@, 0) is Some,
        follows(v, Event::Recalled(m), now, r),
    ensures
        r is Done,
        r->outcome@.external_calls == v.calls,
        r->outcome@.vision_calls == 0,
        r->record is None,
{
}

/// Where there is an upload that is still kept, it is looked at, and the video is
/// neither downloaded nor uploaded.
pub proof fn law_kept_uploads_are_used(v: Visit, m: Memory, now: int, r: VisitStep)
    requires
        v.stage is Recalling,
        v.errand.question is Some || general_from(m.looks@, 0) is None,
        blocked_from(m.looks@, 0) is None,
        live_from(m.looks@, seer(v.errand), now, 0) is Some,
        follows(v, Event::Recalled(m), now, r),
    ensures
        r matches VisitStep::Do(w) && w.stage is Looking && w.calls == v.calls,
{
}

} // verus!
