//! What follows what: fetching a video, visiting one, and a turn of a conversation.

use vstd::prelude::*;
use crate::agent::compaction;
use crate::agent::compaction::{History, SummaryReader};
use crate::agent::context;
use crate::agent::context::MsgView;
use crate::agent::llm::{LlmClient, ModelRequest, ModelResponse, StopReason};
use crate::agent::runner;
use crate::agent::runner::{LoopConfig, TurnOutcome};
use crate::agent::tools;
use crate::agent::turn;
use crate::agent::turn::{Answered, Round, Tally};
use crate::agent::visit;
use crate::agent::visit::{Event, Visit, VisitStage, VisitStep};
use crate::cli;
use crate::command;
use crate::command::{CommandStage, Step, Task, TurnCommand};
use crate::content::dossier;
use crate::content::evidence;
use crate::content::model;
use crate::content::model::{ArtifactKind, FetchStatus, Item, ItemKind};
use crate::error;
use crate::ingest::scrapecreators;
use crate::ingest::scrapecreators::{Fetching, Progress, Stage};
use crate::json;
use crate::json::{Json, Tree};
use crate::laws::telling;
use crate::laws::texts;
use crate::outside;
use crate::text;
use crate::wire;

verus! {

/// To fetch a video is to ask what it is, then what is said in it, and then what is said
/// about it. Only without an answer to the first question nothing comes of it.
pub proof fn law_only_the_first_question_is_needed(
    f: Fetching,
    reply: error::Result<Json>,
    r: Progress,
)
    requires
        call_ensures(Fetching::advance, (f, reply), r),
    ensures
        f.stage is Detail ==> match reply {
            Err(e) => r == Progress::Failed(e),
            Ok(body) => r matches Progress::Ask(g) && g.parsed == f.parsed && scrapecreators::asked(g)
                == scrapecreators::transcript_path(f.parsed.platform) && (
            g.stage matches Stage::Transcript { video, detail, retried } && {
                &&& !retried
                &&& detail.kind == ArtifactKind::Detail && detail.status == FetchStatus::Success
                &&& detail.raw_json matches Some(j) && j@ == outside::json_text(body@)
                &&& video@ == scrapecreators::video_view(
                    f.parsed.platform,
                    body@,
                    f.parsed.native_id@,
                    f.raw_url@,
                    video.id@,
                    video.fetched_at as int,
                    scrapecreators::named_moment(f.parsed.platform, body@),
                )
            }),
        },
        f.stage is Transcript ==> (r matches Progress::Ask(g) && !(g.stage is Detail) && g.parsed
            == f.parsed),
        f.stage is Comments ==> r is Done,
{
}

/// What came of the question what is said in a video: a failure is recorded, with the
/// reason, and leaves no transcript; a text is kept, with the whole answer; an answer
/// without one is recorded as such; and the excuse of a model is asked about once more, and
/// then counts as a failure. What was there before stays.
pub proof fn law_transcripts_are_asked_for(f: Fetching, reply: error::Result<Json>, r: Progress)
    requires
        f.stage is Transcript,
        call_ensures(Fetching::advance, (f, reply), r),
    ensures
        f.stage matches Stage::Transcript { video, detail, retried } && r matches Progress::Ask(g)
            && match reply {
            Err(e) => g.stage matches Stage::Comments {
                video: v,
                detail: d,
                transcript,
                heard,
            } && v == video && d == detail && transcript is None && heard.kind
                == ArtifactKind::Transcript && heard.status == FetchStatus::Failed && (
            heard.error matches Some(m) && m@ == error::error_text(e)),
            Ok(body) => {
                let raw = scrapecreators::raw_text(body@);
                let excuse = raw matches Some(x) && scrapecreators::failed_transcription(x);
                let view = |now: int| scrapecreators::transcript_view(body@, video.id@, now);
                if view(0) is None && excuse && !retried {
                    g.stage matches Stage::Transcript { video: v, detail: d, retried: again } && v
                        == video && d == detail && again
                } else {
                    g.stage matches Stage::Comments {
                        video: v,
                        detail: d,
                        transcript,
                        heard,
                    } && v == video && d == detail && heard.kind == ArtifactKind::Transcript && (
                    if view(0) is Some {
                        (transcript matches Some(t) && t.text@ == (view(0)->Some_0).text
                            && t.video_id@ == video.id@) && heard.status == FetchStatus::Success && (
                        heard.raw_json matches Some(j) && j@ == outside::json_text(body@))
                    } else if excuse {
                        transcript is None && heard.status == FetchStatus::Failed
                    } else {
                        transcript is None && heard.status == FetchStatus::Unavailable && (
                        heard.raw_json matches Some(j) && j@ == outside::json_text(body@))
                    })
                }
            },
        },
{
}

/// What was fetched of a video is what its answers said: the video and the transcript that
/// were there, the comments, and a record of each of the three questions, in their order.
pub proof fn law_fetching_ends_with_three_records(
    f: Fetching,
    reply: error::Result<Json>,
    r: Progress,
)
    requires
        f.stage is Comments,
        call_ensures(Fetching::advance, (f, reply), r),
    ensures
        f.stage matches Stage::Comments { video, detail, transcript, heard } && (
        r matches Progress::Done(d) && {
            &&& d.video == video && d.transcript == transcript
            &&& d.artifacts@.len() == 3
            &&& d.artifacts@[0] == detail && d.artifacts@[1] == heard
            &&& d.artifacts@[2].kind == ArtifactKind::Comments
            &&& match reply {
                Err(e) => d.comments@.len() == 0 && d.artifacts@[2].status == FetchStatus::Failed
                    && (d.artifacts@[2].error matches Some(m) && m@ == error::error_text(e)),
                Ok(body) => {
                    &&& scrapecreators::recorded(
                        model::comments_view(d.comments@),
                        scrapecreators::taken_comments(body@),
                        video.id@,
                    )
                    &&& d.comments@.len() > 0 ==> d.artifacts@[2].status == FetchStatus::Success
                    &&& d.comments@.len() == 0 ==> d.artifacts@[2].status
                        == FetchStatus::Unavailable
                    &&& d.artifacts@[2].raw_json matches Some(j) && j@ == outside::json_text(body@)
                },
            }
        }),
{
}

/// What an answer of a model comes to: a whole answer ends the turn with it; one that was
/// cut off is kept and is no success; a refusal leaves no text; a reason that nobody knows
/// is passed on; and the turn goes on where tools are wanted, with all of them.
pub proof fn law_answers_end_the_turn_or_want_tools(resp: ModelResponse, r: Answered)
    requires
        turn::is_answered(resp, r),
    ensures
        match (resp.stop_reason, r) {
            (StopReason::MaxTokens, Answered::Over { outcome, text, said }) => outcome
                == TurnOutcome::Truncated && text@ == resp.text@ && said,
            (StopReason::Refusal, Answered::Over { outcome, text, said }) => outcome is ModelError
                && text@.len() == 0 && !said,
            (StopReason::Other(s), Answered::Over { outcome, text, said }) => (
            outcome matches TurnOutcome::ProtocolError(m) && m@ == s@) && text@ == resp.text@
                && !said,
            (StopReason::EndTurn, Answered::Over { outcome, text, said }) => resp.tool_calls@.len()
                == 0 && outcome == TurnOutcome::Done && text@ == resp.text@ && said,
            (StopReason::ToolUse, Answered::Over { outcome, text, said }) => resp.tool_calls@.len()
                == 0 && outcome == TurnOutcome::Done && text@ == resp.text@ && said,
            (StopReason::EndTurn, Answered::Tools { text, calls }) => calls == resp.tool_calls
                && calls@.len() > 0 && text@ == resp.text@,
            (StopReason::ToolUse, Answered::Tools { text, calls }) => calls == resp.tool_calls
                && calls@.len() > 0 && text@ == resp.text@,
            _ => false,
        },
{
}

/// A tool that would ask the service more often than it may be asked is not run: the model
/// is told so, with the limit, nothing is stored, and it costs nothing.
pub proof fn law_no_tool_passes_the_limit(call_id: Seq<char>, limit: int)
    ensures
        ({
            let o = turn::no_calls_left(call_id, limit);
            &&& o.call_id == call_id && o.is_error
            &&& text::contains(o.content, "上限 "@ + text::int_text(limit) + " 次"@)
            &&& o.external_calls == 0 && o.vision_calls == 0 && o.credits_charged == Some(0int)
        }),
{
    let a = "本次提问的外部调用预算已用尽（上限 "@;
    let b = " 次），请根据已有材料作答。"@;
    reveal_strlit("本次提问的外部调用预算已用尽（上限 ");
    reveal_strlit(" 次），请根据已有材料作答。");
    reveal_strlit("上限 ");
    reveal_strlit(" 次");
    let p = "上限 "@ + text::int_text(limit) + " 次"@;
    let pre = a.take(a.len() - 3);
    assert(a =~= pre + "上限 "@);
    assert(b =~= " 次"@ + b.skip(2));
    assert(turn::no_calls_left(call_id, limit).content =~= pre + p + b.skip(2));
    texts::lemma_contains_middle(pre, p, b.skip(2));
}

/// The size of entries is the sum of the sizes of each, by what is written of it; and what
/// was added since the last request is added to what the model counted in it.
pub proof fn law_sizes_add_up(v: Seq<Item>, x: Item, k: int, history: nat, seen: (u32, usize))
    requires
        0 <= k <= v.len(),
    ensures
        turn::tokens_from(v.push(x), k) == turn::tokens_from(v, k) + runner::estimated_tokens(
            outside::json_text(x.payload@),
        ),
        turn::tokens_from(v, v.len() as int) == 0,
        turn::request_tokens(history, None, v) == history + turn::tokens_from(v, 0),
        turn::request_tokens(history, Some(seen), v) == seen.0 + turn::tokens_from(
            v,
            seen.1 as int,
        ),
        compaction::items_tokens(v.push(x), v.len() + 1int) == compaction::items_tokens(
            v,
            v.len() as int,
        ) + runner::estimated_tokens(outside::json_text(x.payload@)),
{
    lemma_tokens(v, x, k);
    lemma_items_tokens(v, v.push(x), v.len() as int);
}

proof fn lemma_tokens(v: Seq<Item>, x: Item, k: int)
    requires
        0 <= k <= v.len(),
    ensures
        turn::tokens_from(v.push(x), k) == turn::tokens_from(v, k) + runner::estimated_tokens(
            outside::json_text(x.payload@),
        ),
    decreases v.len() - k,
{
    let w = v.push(x);
    if k < v.len() {
        lemma_tokens(v, x, k + 1);
        assert(w[k] == v[k]);
    } else {
        assert(w[k] == x);
        assert(turn::tokens_from(w, k + 1) == 0);
    }
}

proof fn lemma_items_tokens(a: Seq<Item>, b: Seq<Item>, n: int)
    requires
        0 <= n <= a.len() <= b.len(),
        forall|i: int| 0 <= i < n ==> a[i] == b[i],
    ensures
        compaction::items_tokens(a, n) == compaction::items_tokens(b, n),
    decreases n,
{
    if n > 0 {
        lemma_items_tokens(a, b, n - 1);
    }
}

/// A history has the size of its summary, where it has one, and of all its turns.
pub proof fn law_histories_have_the_size_of_their_parts(h: History)
    ensures
        compaction::history_tokens(h) == (match h.summary {
            Some(s) => runner::estimated_tokens(s@),
            None => 0,
        }) + compaction::sum_from(compaction::turn_sizes(h.turns@), 0),
        compaction::turn_sizes(h.turns@).len() == h.turns@.len(),
        forall|i: int|
            0 <= i < h.turns@.len() ==> #[trigger] compaction::turn_sizes(h.turns@)[i]
                == compaction::items_tokens(h.turns@[i].items@, h.turns@[i].items@.len() as int),
{
}

/// A history is summarized only where it is too long, never with its latest turn, and no
/// further than is needed for what stays to be small enough.
pub proof fn law_histories_are_cut_where_needed(h: History, cfg: LoopConfig)
    ensures
        compaction::history_tokens(h) < cfg.compaction_threshold ==> turn::cut_of(h, cfg) is None,
        turn::cut_of(h, cfg) matches Some(upto) ==> exists|c: int|
            0 <= c <= h.turns@.len() - 2 && #[trigger] h.turns@[c].seq == upto && (
            compaction::sum_from(compaction::turn_sizes(h.turns@), c + 1)
                <= cfg.compaction_target_tokens || c == h.turns@.len() - 2) && forall|k: int|
                0 <= k <= c ==> #[trigger] compaction::sum_from(
                    compaction::turn_sizes(h.turns@),
                    k,
                ) > cfg.compaction_target_tokens,
{
    let sizes = compaction::turn_sizes(h.turns@);
    compaction::law_cut(sizes, cfg.compaction_target_tokens as nat);
    if let Some(upto) = turn::cut_of(h, cfg) {
        let c = compaction::cut_at(sizes, cfg.compaction_target_tokens as nat)->Some_0;
        assert(h.turns@[c].seq == upto);
    }
}

/// What is sent to the model is the history and then the entries of the turn, behind the
/// system prompt, with all the tools; the hint to come to an end stands behind everything,
/// where it is due.
pub proof fn law_requests_send_everything<L: LlmClient>(
    llm: &L,
    h: History,
    items: Seq<Item>,
    hint: bool,
    req: ModelRequest,
)
    requires
        turn::is_request(llm, h, items, hint, req),
    ensures
        ({
            let all = compaction::history_entries(h) + Seq::new(items.len(), |i: int| items[i]@);
            let sent = context::msgs_view(req.messages@);
            let said = context::messages(all, all.len() as int);
            &&& hint ==> sent.len() == said.len() + 1 && sent.drop_last() == said && sent.last()
                == MsgView::User(turn::CONVERGENCE_HINT@)
            &&& !hint ==> sent == said
        }),
        req.system@ == evidence::DISCOVERY_SYSTEM_PROMPT@,
        req.tools@.len() == 5,
{
    assert(model::items_view(items) =~= Seq::new(items.len(), |i: int| items[i]@));
    let all = compaction::history_entries(h) + model::items_view(items);
    let said = context::messages(all, all.len() as int);
    assert(said.push(MsgView::User(turn::CONVERGENCE_HINT@)).drop_last() =~= said);
    assert(tools::defs_view(req.tools@).len() == req.tools@.len());
}

/// A history that need not be summarized stays as it is, and nothing is spent on it; and so
/// does one for which the model gives no summary.
pub proof fn law_histories_stay_unless_summarized<L: LlmClient, R: SummaryReader>(
    llm: &L,
    reader: &R,
    h: History,
    cfg: LoopConfig,
    t: Tally,
    r: History,
    summary: Option<(String, i64)>,
    spent: Tally,
)
    requires
        turn::is_prepared(llm, reader, h, cfg, t, r, summary, spent),
    ensures
        compaction::history_tokens(h) < cfg.compaction_threshold ==> r == h && summary is None
            && spent == t,
        summary is None ==> r == h && spent == t,
        summary matches Some(x) ==> r.summary_upto == x.1 && (r.summary matches Some(y) && y@
            == x.0@) && spent.external_calls == t.external_calls && spent.credits == t.credits,
{
}

/// What is noted of a round stands behind what was noted before: what the model said, where
/// it said something, each tool that it wanted, in its order, and behind all of them what
/// came of each, in the same order and under the same identifiers.
pub proof fn law_rounds_are_noted_in_order<S>(v: Seq<Round<S>>, n: int, i: int)
    requires
        0 <= n < v.len(),
        v[n].outcomes.len() == v[n].resp.tool_calls@.len(),
        0 <= i < v[n].outcomes.len(),
    ensures
        ({
            let before = turn::round_entries(v, n);
            let after = turn::round_entries(v, n + 1);
            let calls = v[n].resp.tool_calls@;
            let said: int = if v[n].resp.text@.len() > 0 {
                1
            } else {
                0
            };
            let at = before.len() + said;
            &&& after.len() == at + 2 * calls.len()
            &&& forall|k: int| 0 <= k < before.len() ==> #[trigger] after[k] == before[k]
            &&& said == 1 ==> after[before.len() as int].kind == ItemKind::AssistantMessage
            &&& after[at + i].kind == ItemKind::FunctionCall
            &&& after[at + i].call_id == Some(calls[i].id@)
            &&& after[at + calls.len() + i].kind == ItemKind::FunctionCallOutput
            &&& after[at + calls.len() + i].call_id == Some(v[n].outcomes[i].result.call_id@)
        }),
{
}

/// What follows a visit's look at the store and at the service: a video that is stored is
/// not fetched; one that is not is fetched, stored and looked for again; what goes wrong on
/// the way is told.
pub proof fn law_videos_are_found_or_fetched(v: Visit, ev: Event, now: int, r: VisitStep)
    requires
        visit::follows(v, ev, now, r),
    ensures
        (v.stage is Finding || v.stage is FindingAgain) && (ev matches Event::Found(Ok(Some(_))))
            ==> (r matches VisitStep::Do(w) ==> w.stage is Recalling && w.calls == v.calls),
        v.stage is Finding && (ev matches Event::Found(Ok(None))) ==> (r matches VisitStep::Do(w)
            && w.stage is Fetching && w.calls == v.calls),
        v.stage is Finding ==> (ev matches Event::Found(Err(e)) ==> (r matches VisitStep::Done {
            outcome,
            record,
        } && outcome@.is_error && record is None && text::contains(
            outcome@.content,
            error::error_text(e),
        ))),
        v.stage is FindingAgain && (ev matches Event::Found(Ok(None))) ==> (
        r matches VisitStep::Done { outcome, record } && outcome@.is_error && record is None),
        v.stage is Fetching ==> (ev matches Event::Fetched(Ok(f)) ==> (r matches VisitStep::Do(w) && (
        w.stage matches VisitStage::Saving { fetched } && fetched == f) && (v.calls
            + f.artifacts@.len() <= usize::MAX ==> w.calls == v.calls + f.artifacts@.len()))),
        v.stage is Fetching ==> (ev matches Event::Fetched(Err(e)) ==> (r matches VisitStep::Done {
            outcome,
            record,
        } && outcome@.is_error && text::contains(outcome@.content, error::error_text(e)))),
        v.stage is Saving ==> (ev matches Event::Saved(Ok(_)) ==> (r matches VisitStep::Do(w)
            && w.stage is FindingAgain)),
        v.stage is Saving ==> (ev matches Event::Saved(Err(e)) ==> (r matches VisitStep::Done {
            outcome,
            record,
        } && outcome@.is_error && text::contains(outcome@.content, error::error_text(e)))),
{
    if let Event::Found(Err(e)) = ev {
        texts::lemma_contains_parts("查库失败："@, error::error_text(e), error::error_text(e));
    }
    if let Event::Fetched(Err(e)) = ev {
        texts::lemma_contains_parts("抓取失败："@, error::error_text(e), error::error_text(e));
    }
    if let Event::Saved(Err(e)) = ev {
        texts::lemma_contains_parts(
            "抓到了但写库失败："@,
            error::error_text(e),
            error::error_text(e),
        );
    }
}

/// What follows what is remembered of a video: a reason for which it can never be looked at
/// is told; an upload that is still kept is looked at; an address that still works is
/// uploaded; and else the platform is asked again, once.
pub proof fn law_memory_is_used_first(v: Visit, m: visit::Memory, now: int, r: VisitStep, why: Seq<char>)
    requires
        v.stage is Recalling || v.stage is RecallingAgain,
        visit::follows(v, Event::Recalled(m), now, r),
    ensures
        v.stage is Recalling && visit::blocked_from(m.looks@, 0) == Some(why) ==> (
        r matches VisitStep::Done { outcome, record } && record is None && text::contains(
            outcome@.content,
            why,
        )),
        r matches VisitStep::Do(w) ==> match w.stage {
            VisitStage::Looking { sv, reference, expires, duration } => visit::live_from(
                m.looks@,
                visit::seer(v.errand),
                now,
                0,
            ) == Some(reference@) && expires is None && duration == sv.video.duration_sec,
            VisitStage::Staging { sv, address } => visit::address_from(
                v.errand.parsed.platform,
                m.answers@,
                now,
                0,
            ) == Some(address@),
            VisitStage::Refreshing { sv } => v.stage is Recalling && visit::address_from(
                v.errand.parsed.platform,
                m.answers@,
                now,
                0,
            ) is None,
            _ => false,
        },
        v.stage is RecallingAgain ==> (r is Do <==> visit::address_from(
            v.errand.parsed.platform,
            m.answers@,
            now,
            0,
        ) is Some),
{
    if v.stage is Recalling && visit::blocked_from(m.looks@, 0) == Some(why) {
        let sv = (visit::text_of(v.stage))->Some_0;
        let section = dossier::unavailable_text(why);
        texts::lemma_contains_middle("[状态：未分析 —— "@, why, "]\n"@);
        crate::laws::sights::law_visits_tell_the_material(
            v.errand.call_id@,
            v.calls as int,
            sv,
            section,
            0,
            0,
        );
        let seen = "\n=== 画面 ===\n"@ + section;
        texts::lemma_contains_parts("\n=== 画面 ===\n"@, section, why);
        let o = visit::told(v.errand.call_id@, v.calls as int, sv, section, 0, 0);
        texts::lemma_contains_parts(o.content, seen, why);
    }
}

/// A video that was uploaded is looked at, at the upload and for as long as it runs; and a
/// look that came to something is kept, with what the model wrote, for which question, how
/// many frames it looked at, what it cost and which model it was, and with the upload.
pub proof fn law_looks_are_kept(v: Visit, ev: Event, now: int, r: VisitStep)
    requires
        visit::follows(v, ev, now, r),
    ensures
        v.stage is Staging ==> (ev matches Event::Staged(Ok(s)) ==> (r matches VisitStep::Do(w) && (
        w.stage matches VisitStage::Looking { sv, reference, expires, duration } && reference
            == s.reference && expires == Some(s.expires_at) && (sv.video.duration_sec is Some
            ==> duration == sv.video.duration_sec)))),
        v.stage matches VisitStage::Looking { sv, reference, expires, duration } ==> (
        ev matches Event::Looked { result: Ok(x), parsed, frames } ==> (r matches VisitStep::Done {
            outcome,
            record,
        } && outcome@.vision_calls == 1 && outcome@.video_tokens == x.usage.video_tokens && (
        record matches Some(d) && {
            &&& d.dossier_json@ == x.text@
            &&& d.fps@ == x.fps@
            &&& text::opt(d.question) == text::opt(v.errand.question)
            &&& d.video_tokens == Some(x.usage.video_tokens as i64)
            &&& d.created_at == now
            &&& d.staged_ref matches Some(u) && u@ == reference@
            &&& d.staged_expires_at == expires
            &&& d.blocked_reason is None
            &&& v.errand.sight matches Some(s) ==> d.model@ == s.model@ && text::opt(d.provider)
                == Some(s.provider@)
        }))),
{
}

/// A command for a turn is carried out step by step: the store is opened, the model is
/// reached, the conversation is found or made, the turn is run, and what came of it is
/// stored; what goes wrong ends it, with one line that says why.
pub proof fn law_commands_go_step_by_step(c: TurnCommand, e: command::Event, r: Step)
    requires
        command::follows(c, e, r),
    ensures
        match (c.stage, e) {
            (CommandStage::Opening { provider, session }, command::Event::Opened(Ok(_))) =>
                r matches Step::Go { next, line, task } && task == (Task::Connect { provider })
                    && line is None && next.question == c.question,
            (CommandStage::Connecting { session }, command::Event::Connected(Ok(who))) => r matches
                Step::Go { next, line, task } && line is None && match session {
                Some(id) => task matches Task::FindSession { id: x } && x@ == id@,
                None => task == Task::NewSession,
            },
            (CommandStage::Finding { id, who }, command::Event::Found(Ok(true))) => r matches
                Step::Go { next, line, task } && (task matches Task::Run { session } && session@
                == id@),
            (CommandStage::Finding { id, who }, command::Event::Found(Ok(false))) => r matches
                Step::Over { lines, result } && result is Err && lines@.len() == 1 && (
            json::field(lines@[0]@, "message"@) matches Some(Tree::Str(m)) && text::contains(
                m,
                id@,
            )),
            (CommandStage::Creating { who }, command::Event::Created(Ok(id))) => r matches Step::Go {
                next,
                line,
                task,
            } && (task matches Task::Run { session } && session@ == id@),
            (CommandStage::Saving { session, ran }, command::Event::Saved(Ok(_))) => r matches
                Step::Over { lines, result } && result is Ok && lines@.len() == 2 && telling::words(
                lines@[0]@,
                "t"@,
                "usage"@,
            ) && telling::words(lines@[1]@, "t"@, "done"@) && telling::words(
                lines@[1]@,
                "outcome"@,
                wire::tag_of(ran.res.outcome),
            ),
            _ => true,
        },
{
    match (c.stage, e) {
        (CommandStage::Finding { id, who }, command::Event::Found(Ok(false))) => {
            let m = command::no_session_text(id@);
            telling::law_the_end_is_told(TurnOutcome::Done, m);
            texts::lemma_contains_middle(
                "没有这个会话: "@,
                id@,
                "（会话由 `turn` 自己创建，id 在 hello 那一行里）"@,
            );
        },
        (CommandStage::Saving { session, ran }, command::Event::Saved(Ok(_))) => {
            telling::law_usage_names_each_count(ran.res, ran.cost@);
            telling::law_the_end_is_told(ran.res.outcome, cli::note_on(ran.res, c.cfg));
        },
        _ => {},
    }
}

/// A visit that asks a question when no more may be looked at is over at once; every other
/// begins with a look at the store.
pub proof fn law_visits_begin_with_the_store(e: visit::Errand, r: VisitStep)
    requires
        visit::begins(e, r),
    ensures
        e.question is Some && e.sight is Some && e.budget_left == 0 ==> (
        r matches VisitStep::Done { outcome, record } && outcome@.is_error && outcome@.call_id
            == e.call_id@ && record is None),
        !(e.question is Some && e.sight is Some && e.budget_left == 0) ==> (
        r matches VisitStep::Do(w) && w.stage is Finding && w.errand == e && w.calls == 0),
{
}

} // verus!
