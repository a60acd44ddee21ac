//! What of a conversation is sent to a model, and what is kept of it.

use vstd::prelude::*;
use crate::agent::compaction;
use crate::agent::compaction::{CompactionSummary, History, TurnItems, TurnMark, VerifiedCandidate};
use crate::agent::context;
use crate::agent::context::MsgView;
use crate::agent::llm::{CallView, LlmClient, ModelRequest, ModelResponse, ToolCall};
use crate::agent::runner;
use crate::agent::runner::{EventView, TurnObserver, TurnResult};
use crate::agent::tools::ToolOutcome;
use crate::agent::turn;
use crate::agent::turn::{Round, Tally};
use crate::content::model::{ItemKind, ItemView};
use crate::json;
use crate::json::{NumTree, Tree};
use crate::laws::reading;
use crate::laws::runs;
use crate::laws::texts;
use crate::outside;
use crate::text;

verus! {

/// How many entries the first `n` turns have.
pub open spec fn entries_before(turns: Seq<TurnItems>, n: int) -> int
    decreases n,
{
    if n <= 0 {
        0
    } else {
        entries_before(turns, n - 1) + turns[n - 1].items@.len()
    }
}

/// Where the entries of a turn begin in what is sent of a history: after the summary, where
/// there is one, and after all the entries of the turns before it.
pub open spec fn turn_starts_at(h: History, i: int) -> int {
    (if h.summary is Some {
        1int
    } else {
        0int
    }) + entries_before(h.turns@, i)
}

/// A history is sent in the order in which it was made: the summary first, where there is
/// one, as what the user says, and the entries of each turn in their order, all of them,
/// right after those of the turn before it; so every entry of a turn stands before every
/// entry of a later one.
pub proof fn law_history_is_sent_in_order(h: History, i: int, j: int, k: int, m: int)
    requires
        0 <= i < h.turns@.len(),
        0 <= k < h.turns@[i].items@.len(),
    ensures
        compaction::history_entries(h).len() == turn_starts_at(h, h.turns@.len() as int),
        0 <= turn_starts_at(h, i) + k < compaction::history_entries(h).len(),
        compaction::history_entries(h)[turn_starts_at(h, i) + k] == h.turns@[i].items@[k]@,
        i < j < h.turns@.len() && 0 <= m ==> turn_starts_at(h, i) + k < turn_starts_at(h, j) + m,
        h.summary matches Some(s) ==> {
            let first = compaction::history_entries(h)[0];
            &&& first.kind == ItemKind::UserMessage
            &&& json::field(first.payload, "text"@) == Some(Tree::Str(s@))
        },
{
    let n = h.turns@.len() as int;
    lemma_turn_entries(h.turns@, n, i, k);
    if i < j < n {
        lemma_entries_grow(h.turns@, i + 1, j);
    }
    if let Some(s) = h.summary {
        let o = seq![("text"@, Tree::Str(s@))];
        assert(compaction::history_entries(h)[0] == compaction::summary_entry(s@));
        texts::law_field_is_the_value_under_its_name(o, "text"@, 0);
    }
}

/// What is sent of a history is its summary, where there is one, and the entries of its turns,
/// and nothing else.
pub proof fn law_history_has_no_other_entries(h: History)
    ensures
        compaction::history_entries(h).len() == turn_starts_at(h, h.turns@.len() as int),
{
    lemma_entries_count(h.turns@, h.turns@.len() as int);
}

proof fn lemma_entries_count(turns: Seq<TurnItems>, n: int)
    requires
        0 <= n <= turns.len(),
    ensures
        compaction::turn_entries(turns, n).len() == entries_before(turns, n),
    decreases n,
{
    if n > 0 {
        lemma_entries_count(turns, n - 1);
    }
}

proof fn lemma_entries_grow(turns: Seq<TurnItems>, a: int, b: int)
    requires
        0 <= a <= b <= turns.len(),
    ensures
        0 <= entries_before(turns, a) <= entries_before(turns, b),
    decreases b,
{
    if b > a {
        lemma_entries_grow(turns, a, b - 1);
    } else if a > 0 {
        lemma_entries_grow(turns, a - 1, a - 1);
    }
}

proof fn lemma_turn_entries(turns: Seq<TurnItems>, n: int, i: int, k: int)
    requires
        0 <= i < n <= turns.len(),
        0 <= k < turns[i].items@.len(),
    ensures
        compaction::turn_entries(turns, n).len() == entries_before(turns, n),
        0 <= entries_before(turns, i) + k < entries_before(turns, n),
        compaction::turn_entries(turns, n)[entries_before(turns, i) + k] == turns[i].items@[k]@,
    decreases n,
{
    lemma_entries_count(turns, n);
    lemma_entries_count(turns, n - 1);
    lemma_entries_grow(turns, i, i);
    if i < n - 1 {
        lemma_turn_entries(turns, n - 1, i, k);
    }
}

/// Whether an entry says `s`.
pub open spec fn item_says(it: ItemView, s: Seq<char>) -> bool {
    match it.kind {
        ItemKind::UserMessage => json::field(it.payload, "text"@) == Some(Tree::Str(s)),
        ItemKind::AssistantMessage => json::field(it.payload, "text"@) == Some(Tree::Str(s))
            || json::field(it.payload, "reasoning"@) == Some(Tree::Str(s)),
        ItemKind::FunctionCall => json::field(it.payload, "name"@) == Some(Tree::Str(s)) || (
        json::field(it.payload, "args"@) matches Some(a) && s == outside::json_text(a)),
        ItemKind::FunctionCallOutput => json::field(it.payload, "content"@) == Some(Tree::Str(s)),
    }
}

/// Who says what an entry says, as it is written down.
pub open spec fn item_line(it: ItemView, s: Seq<char>) -> Seq<char> {
    match it.kind {
        ItemKind::UserMessage => "【用户】"@ + s,
        ItemKind::AssistantMessage => if json::field(it.payload, "text"@) == Some(Tree::Str(s)) {
            "【助手】"@ + s
        } else {
            "【助手思考】"@ + s
        },
        ItemKind::FunctionCall => if json::field(it.payload, "name"@) == Some(Tree::Str(s)) {
            "【调用工具】"@ + s
        } else {
            " "@ + s
        },
        ItemKind::FunctionCallOutput => "【工具结果】"@ + s,
    }
}

/// What is written down of a conversation says of each thing who said it: the user, the
/// model aloud or in its thoughts, a call, or what came of it.
pub proof fn law_transcript_says_who_speaks(items: Seq<ItemView>, n: int, i: int, s: Seq<char>)
    requires
        0 <= i < n <= items.len(),
        item_says(items[i], s),
        s.len() > 0,
    ensures
        text::contains(context::transcript(items, n), item_line(items[i], s)),
{
    lemma_transcript(items, n, i);
    lemma_item_line(items[i], s);
    texts::lemma_contains_parts(
        context::transcript(items, n),
        context::item_lines(items[i]),
        item_line(items[i], s),
    );
}

proof fn lemma_item_line(it: ItemView, s: Seq<char>)
    requires
        item_says(it, s),
        s.len() > 0,
    ensures
        text::contains(context::item_lines(it), item_line(it, s)),
{
    match it.kind {
        ItemKind::UserMessage => {
            texts::lemma_contains_parts("【用户】"@ + s, "\n"@, "【用户】"@ + s);
        },
        ItemKind::AssistantMessage => {
            let thought = context::payload_text(it, "reasoning"@);
            let said = context::payload_text(it, "text"@);
            let a = if thought.len() > 0 {
                "【助手思考】"@ + thought + "\n"@
            } else {
                seq![]
            };
            let b = if said.len() > 0 {
                "【助手】"@ + said + "\n"@
            } else {
                seq![]
            };
            texts::lemma_contains_parts("【助手思考】"@ + s, "\n"@, "【助手思考】"@ + s);
            texts::lemma_contains_parts("【助手】"@ + s, "\n"@, "【助手】"@ + s);
            texts::lemma_contains_parts(a, b, item_line(it, s));
        },
        ItemKind::FunctionCall => {
            let name = context::payload_text(it, "name"@);
            let args = match json::field(it.payload, "args"@) {
                Some(t) => outside::json_text(t),
                None => seq![],
            };
            runs::lemma_run_5("【调用工具】"@, name, " "@, args, "\n"@);
        },
        ItemKind::FunctionCallOutput => {
            texts::lemma_contains_parts("【工具结果】"@ + s, "\n"@, "【工具结果】"@ + s);
        },
    }
}

proof fn lemma_item_lines(it: ItemView, s: Seq<char>)
    requires
        item_says(it, s),
    ensures
        text::contains(context::item_lines(it), s),
{
    let l = context::item_lines(it);
    match it.kind {
        ItemKind::UserMessage => {
            texts::lemma_contains_middle("【用户】"@, s, "\n"@);
        },
        ItemKind::AssistantMessage => {
            let thought = context::payload_text(it, "reasoning"@);
            let said = context::payload_text(it, "text"@);
            let a = if thought.len() > 0 {
                "【助手思考】"@ + thought + "\n"@
            } else {
                seq![]
            };
            let b = if said.len() > 0 {
                "【助手】"@ + said + "\n"@
            } else {
                seq![]
            };
            texts::lemma_contains_middle("【助手思考】"@, thought, "\n"@);
            texts::lemma_contains_middle("【助手】"@, said, "\n"@);
            if s.len() == 0 {
                assert(l.subrange(0, 0) =~= s);
                assert(text::occurs_at(l, s, 0));
            } else if said == s {
                texts::lemma_contains_parts(a, b, s);
            } else {
                texts::lemma_contains_parts(a, b, s);
            }
        },
        ItemKind::FunctionCall => {
            let name = context::payload_text(it, "name"@);
            let args = match json::field(it.payload, "args"@) {
                Some(t) => outside::json_text(t),
                None => seq![],
            };
            let head = "【调用工具】"@ + name;
            texts::lemma_contains_middle("【调用工具】"@, name, seq![]);
            texts::lemma_contains_parts(head, " "@, s);
            texts::lemma_contains_parts(head + " "@, args, s);
            texts::lemma_contains_parts(head + " "@ + args, "\n"@, s);
            texts::lemma_contains_parts(args, args, args);
        },
        ItemKind::FunctionCallOutput => {
            texts::lemma_contains_middle("【工具结果】"@, s, "\n"@);
        },
    }
}

proof fn lemma_transcript(items: Seq<ItemView>, n: int, k: int)
    requires
        0 <= k < n <= items.len(),
    ensures
        text::contains(context::transcript(items, n), context::item_lines(items[k])),
    decreases n,
{
    let l = context::item_lines(items[k]);
    texts::lemma_contains_parts(context::transcript(items, n - 1), context::item_lines(items[n - 1]), l);
    if k < n - 1 {
        lemma_transcript(items, n - 1, k);
    }
}

/// What is written down of a conversation holds what every entry says, in the order of the
/// entries.
pub proof fn law_transcript_says_everything_in_order(
    items: Seq<ItemView>,
    n: int,
    i: int,
    j: int,
    s: Seq<char>,
    t: Seq<char>,
)
    requires
        0 <= i < n <= items.len(),
        item_says(items[i], s),
    ensures
        text::contains(context::transcript(items, n), s),
        i < j < n && item_says(items[j], t) ==> texts::in_order(context::transcript(items, n), s, t),
    decreases n,
{
    let before = context::transcript(items, n - 1);
    let last = context::item_lines(items[n - 1]);
    lemma_transcript(items, n, i);
    lemma_item_lines(items[i], s);
    texts::lemma_contains_parts(context::transcript(items, n), context::item_lines(items[i]), s);
    if i < j < n && item_says(items[j], t) {
        texts::lemma_in_order(before, last, s, t);
        if j < n - 1 {
            law_transcript_says_everything_in_order(items, n - 1, i, j, s, t);
        } else {
            lemma_transcript(items, n - 1, i);
            texts::lemma_contains_parts(before, context::item_lines(items[i]), s);
            lemma_item_lines(items[j], t);
        }
    }
}

proof fn lemma_covered(turns: Seq<TurnItems>, upto: int, n: int, i: int, k: int) -> (p: int)
    requires
        0 <= i < n <= turns.len(),
        turns[i].seq <= upto,
        0 <= k < turns[i].items@.len(),
    ensures
        0 <= p < turn::covered(turns, upto, n).len(),
        turn::covered(turns, upto, n)[p] == turns[i].items@[k]@,
    decreases n,
{
    if i < n - 1 {
        lemma_covered(turns, upto, n - 1, i, k)
    } else {
        turn::covered(turns, upto, n - 1).len() as int + k
    }
}

/// What is to be summarized holds the old summary, where there is one, before everything
/// else, and what every entry of every turn up to the cut says.
pub proof fn law_old_part_holds_everything_old(h: History, upto: int, i: int, k: int, s: Seq<char>)
    ensures
        h.summary matches Some(x) ==> text::occurs_at(turn::old_text(h, upto), x@, 0),
        0 <= i < h.turns@.len() && h.turns@[i].seq <= upto && 0 <= k < h.turns@[i].items@.len()
            && item_says(h.turns@[i].items@[k]@, s) ==> {
            &&& text::contains(turn::old_text(h, upto), s)
            &&& h.summary matches Some(x) ==> texts::in_order(turn::old_text(h, upto), x@, s)
        },
{
    let n = h.turns@.len() as int;
    let old = turn::covered(h.turns@, upto, n);
    let said = context::transcript(old, old.len() as int);
    let all = turn::old_text(h, upto);
    if let Some(x) = h.summary {
        assert(all.subrange(0, x@.len() as int) =~= x@);
    }
    if 0 <= i < n && h.turns@[i].seq <= upto && 0 <= k < h.turns@[i].items@.len() && item_says(
        h.turns@[i].items@[k]@,
        s,
    ) {
        let p = lemma_covered(h.turns@, upto, n, i, k);
        law_transcript_says_everything_in_order(old, old.len() as int, p, p, s, s);
        if let Some(x) = h.summary {
            texts::lemma_contains_parts(x@ + "\n"@, said, s);
            texts::lemma_contains_middle(seq![], x@, "\n"@);
            assert(seq![] + x@ =~= x@);
            texts::lemma_in_order(x@ + "\n"@, said, x@, s);
        }
    }
}

/// The request for a new summary is one message of the user, and it holds the old summary,
/// where there is one, and what every entry of every turn up to the cut says.
pub proof fn law_summary_request_holds_everything_old<L: LlmClient>(
    llm: &L,
    h: History,
    upto: int,
    req: ModelRequest,
    i: int,
    k: int,
    s: Seq<char>,
)
    requires
        turn::is_summary_request(llm, h, upto, req),
    ensures
        ({
            let sent = context::msgs_view(req.messages@);
            &&& sent.len() == 1
            &&& sent[0] matches MsgView::User(m) && {
                &&& h.summary matches Some(x) ==> text::contains(m, x@)
                &&& 0 <= i < h.turns@.len() && h.turns@[i].seq <= upto && 0 <= k
                    < h.turns@[i].items@.len() && item_says(h.turns@[i].items@[k]@, s)
                    ==> text::contains(m, s)
            }
        }),
{
    law_old_part_holds_everything_old(h, upto, i, k, s);
}

/// A history that was shortened keeps every turn after the cut, in order and none other,
/// and has the new summary; every turn of the old one is there or was summarized.
pub proof fn law_shortened_history_keeps_the_rest(
    h: History,
    summary: Seq<char>,
    upto: int,
    r: History,
)
    requires
        turn::is_shortened(h, summary, upto, r),
    ensures
        r.summary matches Some(x) && x@ == summary,
        r.summary_upto == upto,
        reading::keeps_order(
            r.turns@,
            Seq::new(
                h.turns@.len(),
                |i: int|
                    if h.turns@[i].seq > upto {
                        Some(h.turns@[i])
                    } else {
                        None
                    },
            ),
        ),
{
    lemma_later(h.turns@, upto, h.turns@.len() as int);
}

proof fn lemma_later(turns: Seq<TurnItems>, upto: int, n: int)
    requires
        0 <= n <= turns.len(),
    ensures
        reading::keeps_order(
            turn::later(turns, upto, n),
            Seq::new(
                n as nat,
                |i: int|
                    if turns[i].seq > upto {
                        Some(turns[i])
                    } else {
                        None
                    },
            ),
        ),
    decreases n,
{
    let f = |i: int|
        if turns[i].seq > upto {
            Some(turns[i])
        } else {
            None
        };
    let of = Seq::new(n as nat, f);
    if n > 0 {
        lemma_later(turns, upto, n - 1);
        let before = Seq::new((n - 1) as nat, f);
        reading::lemma_kept(turn::later(turns, upto, n - 1), before, f(n - 1));
        assert(of =~= before.push(f(n - 1)));
    } else {
        reading::lemma_none_kept::<TurnItems>();
        assert(of =~= Seq::empty());
        assert(turn::later(turns, upto, n) =~= Seq::empty());
    }
}

/// The summary that counts is the latest one; without one, nothing is covered.
pub proof fn law_latest_summary_counts(v: Seq<TurnMark>, i: int)
    ensures
        0 <= i < v.len() && v[i].summary is Some && (forall|j: int|
            i < j < v.len() ==> (#[trigger] v[j]).summary is None) ==> compaction::covered_upto(v)
            == (v[i].summary->Some_0).1,
        (forall|j: int| 0 <= j < v.len() ==> (#[trigger] v[j]).summary is None)
            ==> compaction::covered_upto(v) == 0,
{
    if 0 <= i < v.len() && v[i].summary is Some && (forall|j: int|
        i < j < v.len() ==> (#[trigger] v[j]).summary is None) {
        lemma_latest(v, v.len() as int, i);
    }
    if forall|j: int| 0 <= j < v.len() ==> (#[trigger] v[j]).summary is None {
        lemma_latest(v, v.len() as int, -1);
    }
}

proof fn lemma_latest(v: Seq<TurnMark>, n: int, i: int)
    requires
        -1 <= i < n <= v.len() || (i == -1 && n == 0),
        i >= 0 ==> v[i].summary is Some,
        forall|j: int| i < j < v.len() ==> (#[trigger] v[j]).summary is None,
    ensures
        compaction::latest_summary(v, n) == (if i >= 0 {
            Some(i)
        } else {
            None
        }),
    decreases n,
{
    if n > 0 && n - 1 > i {
        assert(v[n - 1].summary is None);
        lemma_latest(v, n - 1, i);
    }
}

/// Every entry becomes part of what is sent, at its end: what the user says is one more
/// message, and so is what the model says, and what came of a tool; a call is one more call
/// of the message of the model before it, and where there is none, of one that says nothing.
pub proof fn law_every_entry_is_sent(items: Seq<ItemView>, it: ItemView, s: Seq<char>)
    ensures
        ({
            let before = context::messages(items, items.len() as int);
            let after = context::messages(items.push(it), items.len() + 1int);
            match it.kind {
                ItemKind::UserMessage => json::field(it.payload, "text"@) == Some(Tree::Str(s))
                    ==> after == before.push(MsgView::User(s)),
                ItemKind::AssistantMessage => {
                    &&& after.len() == before.len() + 1
                    &&& after.drop_last() == before
                    &&& after.last() matches MsgView::Assistant { text, reasoning, calls } && {
                        &&& calls.len() == 0
                        &&& json::field(it.payload, "text"@) == Some(Tree::Str(s)) ==> text == s
                        &&& json::field(it.payload, "reasoning"@) == Some(Tree::Str(s))
                            ==> reasoning == s
                        &&& json::field(it.payload, "reasoning"@) is None ==> reasoning.len() == 0
                    }
                },
                ItemKind::FunctionCall => after.len() > 0 && (
                after.last() matches MsgView::Assistant { text, reasoning, calls } && {
                    &&& calls.len() > 0
                    &&& it.call_id == Some(s) ==> calls.last().id == s
                    &&& json::field(it.payload, "name"@) == Some(Tree::Str(s)) ==> calls.last().name
                        == s
                    &&& json::field(it.payload, "args"@) matches Some(a) ==> calls.last().args == a
                    &&& if before.len() > 0 && before.last() is Assistant {
                        &&& after.len() == before.len()
                        &&& after.drop_last() == before.drop_last()
                        &&& before.last() == MsgView::Assistant {
                            text,
                            reasoning,
                            calls: calls.drop_last(),
                        }
                    } else {
                        &&& after.len() == before.len() + 1
                        &&& after.drop_last() == before
                        &&& text.len() == 0
                        &&& reasoning.len() == 0
                        &&& calls.len() == 1
                    }
                }),
                ItemKind::FunctionCallOutput => {
                    &&& after.len() == before.len() + 1
                    &&& after.drop_last() == before
                    &&& after.last() matches MsgView::Tool { call_id, content, is_error } && {
                        &&& it.call_id == Some(s) ==> call_id == s
                        &&& json::field(it.payload, "content"@) == Some(Tree::Str(s)) ==> content
                            == s
                        &&& is_error <==> json::field(it.payload, "is_error"@) == Some(
                            Tree::Bool(true),
                        )
                    }
                },
            }
        }),
{
    let n = items.len() as int;
    let more = items.push(it);
    lemma_messages_of_prefix(items, more, n);
    let before = context::messages(items, n);
    let after = context::messages(more, n + 1);
    assert(after == context::with_item(before, it));
    match it.kind {
        ItemKind::UserMessage => {},
        ItemKind::FunctionCall => {
            if before.len() > 0 && before.last() is Assistant {
                assert(after.drop_last() =~= before.drop_last());
                assert(after.last()->calls.drop_last() =~= before.last()->calls);
            } else {
                assert(after.drop_last() =~= before);
            }
        },
        _ => {
            assert(after.drop_last() =~= before);
        },
    }
}

proof fn lemma_messages_of_prefix(a: Seq<ItemView>, b: Seq<ItemView>, n: int)
    requires
        0 <= n <= a.len() <= b.len(),
        forall|i: int| 0 <= i < n ==> a[i] == b[i],
    ensures
        context::messages(a, n) == context::messages(b, n),
    decreases n,
{
    if n > 0 {
        lemma_messages_of_prefix(a, b, n - 1);
    }
}

/// What is noted of a question, an answer, a wish and what came of it is what is sent of it
/// later: the same text, the same call, and the same result under the same identifier.
pub proof fn law_what_is_noted_is_sent(
    it: ItemView,
    said: Seq<char>,
    c: ToolCall,
    o: ToolOutcome,
    n: int,
)
    ensures
        turn::entry_of(it) == turn::question_entry(said) ==> it.kind == ItemKind::UserMessage
            && item_says(it, said),
        turn::entry_of(it) == turn::answer_entry(said, n) ==> it.kind == ItemKind::AssistantMessage
            && item_says(it, said),
        turn::entry_of(it) == turn::call_entry(c, n) ==> it.kind == ItemKind::FunctionCall
            && context::item_call(it) == (CallView {
            id: c.id@,
            name: c.name@,
            args: c.args@,
        }),
        turn::entry_of(it) == turn::outcome_entry(o, n) ==> it.kind == ItemKind::FunctionCallOutput
            && context::item_result(it) == (MsgView::Tool {
            call_id: o.result.call_id@,
            content: o.result.content@,
            is_error: o.result.is_error,
        }) && it.raw_json == text::opt(o.raw_json) && match o.credits_charged {
            Some(paid) => json::field(it.payload, "credits_charged"@) == Some(
                Tree::Number(NumTree::Int(paid as int)),
            ),
            None => json::field(it.payload, "credits_charged"@) is None,
        },
{
    lemma_names_differ();
    let text_of = seq![("text"@, Tree::Str(said))];
    texts::law_field_is_the_value_under_its_name(text_of, "text"@, 0);
    let call = seq![("name"@, Tree::Str(c.name@)), ("args"@, c.args@)];
    texts::law_field_is_the_value_under_its_name(call, "name"@, 0);
    texts::law_field_is_the_value_under_its_name(call, "args"@, 1);
    let plain = seq![
        ("content"@, Tree::Str(o@.content)),
        ("is_error"@, Tree::Bool(o@.is_error)),
    ];
    texts::law_field_is_the_value_under_its_name(plain, "content"@, 0);
    texts::law_field_is_the_value_under_its_name(plain, "is_error"@, 1);
    texts::law_field_is_the_value_under_its_name(plain, "credits_charged"@, 0);
    if let Some(paid) = o@.credits_charged {
        let priced = plain.push(("credits_charged"@, Tree::Number(NumTree::Int(paid))));
        texts::law_field_is_the_value_under_its_name(priced, "content"@, 0);
        texts::law_field_is_the_value_under_its_name(priced, "is_error"@, 1);
        texts::law_field_is_the_value_under_its_name(priced, "credits_charged"@, 2);
    }
}

proof fn lemma_names_differ()
    ensures
        "name"@ != "args"@,
        "content"@ != "is_error"@,
        "content"@ != "credits_charged"@,
        "is_error"@ != "credits_charged"@,
{
    reveal_strlit("name");
    reveal_strlit("args");
    reveal_strlit("content");
    reveal_strlit("is_error");
    reveal_strlit("credits_charged");
    assert("name"@[0] != "args"@[0]);
    assert("content"@[0] != "is_error"@[0]);
    assert("content"@[1] != "credits_charged"@[1]);
}

/// What a tool costs is added to what was counted before it, each thing to its own count;
/// and what the model read and wrote is added by its answers alone.
pub proof fn law_costs_add_up(t: Tally, v: Seq<ToolOutcome>, n: int)
    requires
        0 <= n < v.len(),
    ensures
        ({
            let a = turn::tallied_all(t, v, n);
            let b = turn::tallied_all(t, v, n + 1);
            let o = v[n];
            &&& turn::tallied_all(t, v, 0) == t
            &&& a.external_calls + o.external_calls <= usize::MAX ==> b.external_calls
                == a.external_calls + o.external_calls
            &&& a.video_analyses + o.vision_calls <= usize::MAX ==> b.video_analyses
                == a.video_analyses + o.vision_calls
            &&& a.video_tokens + o.video_tokens <= u32::MAX ==> b.video_tokens == a.video_tokens
                + o.video_tokens
            &&& o.credits_charged matches Some(c) ==> (i64::MIN <= a.credits + c <= i64::MAX
                ==> b.credits == a.credits + c)
            &&& o.credits_charged is None ==> b.credits == a.credits
            &&& b.input_tokens == a.input_tokens && b.output_tokens == a.output_tokens
        }),
{
}

/// What the model read and wrote is added by each of its answers, and an answer costs
/// nothing else; the rounds of a turn add up one after the other.
pub proof fn law_rounds_add_up<S>(t: Tally, resp: ModelResponse, v: Seq<Round<S>>, n: int)
    requires
        0 <= n < v.len(),
    ensures
        ({
            let a = turn::tallied_answer(t, resp);
            &&& t.input_tokens + resp.input_tokens <= u32::MAX ==> a.input_tokens == t.input_tokens
                + resp.input_tokens
            &&& t.output_tokens + resp.output_tokens <= u32::MAX ==> a.output_tokens
                == t.output_tokens + resp.output_tokens
            &&& a.external_calls == t.external_calls && a.credits == t.credits && a.video_analyses
                == t.video_analyses && a.video_tokens == t.video_tokens
        }),
        turn::tallied_rounds(t, v, 0) == t,
        turn::tallied_rounds(t, v, n + 1) == turn::tallied_all(
            turn::tallied_answer(turn::tallied_rounds(t, v, n), v[n].resp),
            v[n].outcomes,
            v[n].outcomes.len() as int,
        ),
{
}

/// Whoever observes a turn is told of the summary, where one was made, with its length and
/// how far it goes; of each time that the model was asked; of each call and of what came of
/// it; and of the answer, where there is one.
pub proof fn law_observers_are_told<S, O: TurnObserver>(
    observer: &O,
    rounds: Seq<Round<S>>,
    r: TurnResult,
    n: int,
    i: int,
    k: int,
)
    requires
        turn::is_told(observer, rounds, r),
    ensures
        r.pending_summary matches Some(x) ==> runner::was_told(
            observer,
            EventView::Compacted { summary_chars: x.0@.len() as int, upto_seq: x.1 as int },
        ),
        1 <= n <= r.iterations ==> runner::was_told(observer, EventView::Iteration { n }),
        0 <= i < rounds.len() && 0 <= k < rounds[i].resp.tool_calls@.len() ==> {
            let c = rounds[i].resp.tool_calls@[k];
            &&& runner::was_told(
                observer,
                EventView::ToolCall { id: c.id@, name: c.name@, args: c.args@ },
            )
            &&& runner::was_told(observer, turn::outcome_event(c, rounds[i].outcomes[k]))
        },
        r.outcome is Done ==> runner::was_told(observer, EventView::Answer { text: r.answer@ }),
{
    if 0 <= i < rounds.len() && 0 <= k < rounds[i].resp.tool_calls@.len() {
        let calls = rounds[i].resp.tool_calls@;
        assert(turn::were_told(observer, calls, rounds[i].outcomes));
        assert(turn::was_call_told(observer, calls, rounds[i].outcomes, k));
    }
}

/// What is told of a wish and of what came of it names the call; what is told of the answer
/// is its beginning, no more than two hundred characters, and all of it where it is no
/// longer.
pub proof fn law_events_name_the_call(c: ToolCall, o: ToolOutcome)
    ensures
        turn::wish_event(c) == (EventView::ToolCall { id: c.id@, name: c.name@, args: c.args@ }),
        turn::outcome_event(c, o) matches EventView::ToolResult {
            id,
            name,
            is_error,
            external_calls,
            credits,
            vision_calls,
            preview,
        } && {
            &&& id == c.id@ && name == c.name@
            &&& is_error == o.result.is_error
            &&& external_calls == o.external_calls && vision_calls == o.vision_calls
            &&& o.credits_charged matches Some(n) ==> credits == n
            &&& o.credits_charged is None ==> credits == 0
            &&& preview.len() <= 200
            &&& text::occurs_at(o.result.content@, preview, 0)
            &&& o.result.content@.len() <= 200 ==> preview == o.result.content@
            &&& o.result.content@.len() > 200 ==> preview.len() == 200
        },
{
    let all = o@.content;
    let n: int = if all.len() <= 200 {
        all.len() as int
    } else {
        200
    };
    assert(all.subrange(0, n) =~= text::head(all, 200));
}

/// What is of ASCII and what is not are estimated apart.
pub proof fn law_tokens_of_parts_add_up(a: Seq<char>, b: Seq<char>)
    requires
        forall|i: int| 0 <= i < a.len() ==> a[i] <= '\u{7f}',
        forall|i: int| 0 <= i < b.len() ==> b[i] > '\u{7f}',
    ensures
        runner::estimated_tokens(a + b) == runner::estimated_tokens(a) + runner::estimated_tokens(b),
{
    lemma_ascii(a, a.len() as int, true);
    lemma_ascii(b, b.len() as int, false);
    lemma_ascii_parts(a, b, b.len() as int);
}

proof fn lemma_ascii_parts(a: Seq<char>, b: Seq<char>, n: int)
    requires
        0 <= n <= b.len(),
        forall|i: int| 0 <= i < a.len() ==> a[i] <= '\u{7f}',
        forall|i: int| 0 <= i < b.len() ==> b[i] > '\u{7f}',
    ensures
        runner::ascii_chars(a + b, a.len() + n) == a.len(),
    decreases n,
{
    if n > 0 {
        lemma_ascii_parts(a, b, n - 1);
        assert((a + b)[a.len() + n - 1] == b[n - 1]);
    } else {
        lemma_ascii_prefix(a, b, a.len() as int);
    }
}

proof fn lemma_ascii_prefix(a: Seq<char>, b: Seq<char>, n: int)
    requires
        0 <= n <= a.len(),
        forall|i: int| 0 <= i < a.len() ==> a[i] <= '\u{7f}',
    ensures
        runner::ascii_chars(a + b, n) == n,
    decreases n,
{
    if n > 0 {
        lemma_ascii_prefix(a, b, n - 1);
        assert((a + b)[n - 1] == a[n - 1]);
    }
}

/// Tokens are estimated from how many characters there are: of ASCII, one token for each
/// 1.68 characters, and of others one for each 1.85, rounded up.
pub proof fn law_tokens_are_estimated_by_length(t: Seq<char>)
    ensures
        (forall|i: int| 0 <= i < t.len() ==> t[i] <= '\u{7f}') ==> {
            let n = runner::estimated_tokens(t);
            100 * t.len() <= 168 * n < 100 * t.len() + 168
        },
        (forall|i: int| 0 <= i < t.len() ==> t[i] > '\u{7f}') ==> {
            let n = runner::estimated_tokens(t);
            100 * t.len() <= 185 * n < 100 * t.len() + 185
        },
{
    let n = t.len() as int;
    if forall|i: int| 0 <= i < t.len() ==> t[i] <= '\u{7f}' {
        lemma_ascii(t, n, true);
    }
    if forall|i: int| 0 <= i < t.len() ==> t[i] > '\u{7f}' {
        lemma_ascii(t, n, false);
    }
}

proof fn lemma_ascii(t: Seq<char>, n: int, all: bool)
    requires
        0 <= n <= t.len(),
        forall|i: int| 0 <= i < t.len() ==> (t[i] <= '\u{7f}') == all,
    ensures
        runner::ascii_chars(t, n) == (if all {
            n
        } else {
            0
        }),
    decreases n,
{
    if n > 0 {
        lemma_ascii(t, n - 1, all);
    }
}

proof fn lemma_bullets(v: Seq<String>, n: int, i: int, j: int)
    requires
        0 <= i < n <= v.len(),
    ensures
        text::contains(compaction::bullet_lines(v, n), v[i]@),
        i < j < n ==> texts::in_order(compaction::bullet_lines(v, n), v[i]@, v[j]@),
    decreases n,
{
    let before = compaction::bullet_lines(v, n - 1);
    let line = "- "@ + v[n - 1]@ + "\n"@;
    texts::lemma_contains_middle("- "@, v[n - 1]@, "\n"@);
    texts::lemma_contains_parts(before, line, v[i]@);
    if i < n - 1 {
        lemma_bullets(v, n - 1, i, j);
        if i < j < n {
            texts::lemma_in_order(before, line, v[i]@, v[j]@);
        }
    }
}

proof fn lemma_candidate(c: VerifiedCandidate)
    ensures
        text::contains(compaction::candidate_lines(c), c.name@ + " @"@ + c.handle@),
        text::contains(compaction::candidate_lines(c), "（"@ + c.platform@),
        text::contains(compaction::candidate_lines(c), "）\n  依据："@ + c.evidence@),
        c.followers matches Some(n) ==> text::contains(
            compaction::candidate_lines(c),
            "，"@ + text::int_text(n as int) + " 粉"@,
        ),
{
    let f = match c.followers {
        Some(n) => "，"@ + text::int_text(n as int) + " 粉"@,
        None => seq![],
    };
    let all = compaction::candidate_lines(c);
    let who = c.name@ + " @"@ + c.handle@;
    runs::lemma_run_10(
        "- "@,
        c.name@,
        " @"@,
        c.handle@,
        "（"@,
        c.platform@,
        f,
        "）\n  依据："@,
        c.evidence@,
        "\n"@,
    );
    assert(text::contains(all, who)) by {
        let post = "（"@ + c.platform@ + f + "）\n  依据："@ + c.evidence@ + "\n"@;
        assert(all =~= "- "@ + who + post);
        texts::lemma_contains_middle("- "@, who, post);
    }
    if let Some(n) = c.followers {
        assert(text::contains(all, f)) by {
            texts::lemma_contains_parts(c.platform@, f, f);
            texts::lemma_contains_parts(all, c.platform@ + f, f);
        }
    }
}

/// What stands in a text stands in one that begins with it.
pub proof fn lemma_carry(a: Seq<char>, b: Seq<char>, p: Seq<char>)
    ensures
        text::contains(a, p) ==> text::contains(a + b, p),
{
    texts::lemma_contains_parts(a, b, p);
}

proof fn lemma_verified(v: Seq<VerifiedCandidate>, n: int, i: int, j: int)
    requires
        0 <= i < n <= v.len(),
    ensures
        text::contains(
            compaction::verified_lines(v, n),
            compaction::candidate_lines(v[i]),
        ),
        i < j < n ==> texts::in_order(
            compaction::verified_lines(v, n),
            compaction::candidate_lines(v[i]),
            compaction::candidate_lines(v[j]),
        ),
    decreases n,
{
    let before = compaction::verified_lines(v, n - 1);
    let line = compaction::candidate_lines(v[n - 1]);
    texts::lemma_contains_parts(before, line, compaction::candidate_lines(v[i]));
    if i < n - 1 {
        lemma_verified(v, n - 1, i, j);
        if i < j < n {
            texts::lemma_contains_parts(line, line, line);
            texts::lemma_in_order(before, line, compaction::candidate_lines(v[i]), compaction::candidate_lines(v[j]));
        }
    }
}

/// A summary tells the model everything that it holds: each thing that the user wants, each
/// candidate with its name, its handle, its platform, its followers and what speaks for it,
/// and each thing that is open; and up to which question it goes.
pub proof fn law_summary_tells_everything(s: CompactionSummary, upto: int, i: int)
    ensures
        text::contains(compaction::summary_text(s, upto), text::int_text(upto)),
        0 <= i < s.user_requirements@.len() ==> text::contains(
            compaction::summary_text(s, upto),
            s.user_requirements@[i]@,
        ),
        0 <= i < s.open@.len() ==> text::contains(compaction::summary_text(s, upto), s.open@[i]@),
        0 <= i < s.verified@.len() ==> {
            let c = s.verified@[i];
            let t = compaction::summary_text(s, upto);
            &&& text::contains(t, c.name@ + " @"@ + c.handle@)
            &&& text::contains(t, "（"@ + c.platform@)
            &&& text::contains(t, "）\n  依据："@ + c.evidence@)
            &&& c.followers matches Some(n) ==> text::contains(
                t,
                "，"@ + text::int_text(n as int) + " 粉"@,
            )
        },
{
    let t = compaction::summary_text(s, upto);
    let d = text::int_text(upto);
    let h1 = "[历史摘要 —— 覆盖前 "@;
    let h2 = " 次提问，原文已省略。下面的数字是当时工具返回的原值，可以直接引用]\n"@;
    let head = h1 + d + h2;
    let wants = compaction::bullet_section("\n用户要什么：\n"@, s.user_requirements@);
    let known = compaction::verified_section(s.verified@);
    let open = compaction::bullet_section("\n还没查 / 已知限制：\n"@, s.open@);
    assert(t == head + wants + known + open);
    texts::lemma_contains_middle(h1, d, h2);
    lemma_carry(head, wants, d);
    lemma_carry(head + wants, known, d);
    lemma_carry(head + wants + known, open, d);
    if 0 <= i < s.user_requirements@.len() {
        let p = s.user_requirements@[i]@;
        let n = s.user_requirements@.len() as int;
        lemma_bullets(s.user_requirements@, n, i, i);
        texts::lemma_contains_parts(
            "\n用户要什么：\n"@,
            compaction::bullet_lines(s.user_requirements@, n),
            p,
        );
        texts::lemma_contains_parts(head, wants, p);
        lemma_carry(head + wants, known, p);
        lemma_carry(head + wants + known, open, p);
    }
    if 0 <= i < s.open@.len() {
        let p = s.open@[i]@;
        let n = s.open@.len() as int;
        lemma_bullets(s.open@, n, i, i);
        texts::lemma_contains_parts(
            "\n还没查 / 已知限制：\n"@,
            compaction::bullet_lines(s.open@, n),
            p,
        );
        texts::lemma_contains_parts(head + wants + known, open, p);
    }
    if 0 <= i < s.verified@.len() {
        let c = s.verified@[i];
        let l = compaction::candidate_lines(c);
        let n = s.verified@.len() as int;
        lemma_verified(s.verified@, n, i, i);
        texts::lemma_contains_parts(
            "\n已核实（这些不用重新查）：\n"@,
            compaction::verified_lines(s.verified@, n),
            l,
        );
        texts::lemma_contains_parts(head + wants, known, l);
        lemma_carry(head + wants + known, open, l);
        lemma_candidate(c);
        texts::lemma_contains_parts(t, l, c.name@ + " @"@ + c.handle@);
        texts::lemma_contains_parts(t, l, "（"@ + c.platform@);
        texts::lemma_contains_parts(t, l, "）\n  依据："@ + c.evidence@);
        if let Some(x) = c.followers {
            texts::lemma_contains_parts(t, l, "，"@ + text::int_text(x as int) + " 粉"@);
        }
    }
}

/// In a summary each thing stands under its own heading: what the user wants under what is
/// wanted, before anything that is known and before anything that is open; and what is open
/// under what is open.
pub proof fn law_summary_has_headings(s: CompactionSummary, upto: int, i: int, j: int, k: int)
    ensures
        ({
            let t = compaction::summary_text(s, upto);
            &&& 0 <= i < s.user_requirements@.len() ==> texts::in_order(
                t,
                "\n用户要什么：\n"@,
                s.user_requirements@[i]@,
            )
            &&& 0 <= j < s.open@.len() ==> texts::in_order(
                t,
                "\n还没查 / 已知限制：\n"@,
                s.open@[j]@,
            )
            &&& 0 <= k < s.verified@.len() ==> texts::in_order(
                t,
                "\n已核实（这些不用重新查）：\n"@,
                s.verified@[k].name@ + " @"@ + s.verified@[k].handle@,
            )
            &&& 0 <= i < s.user_requirements@.len() && 0 <= j < s.open@.len() ==> texts::in_order(
                t,
                s.user_requirements@[i]@,
                "\n还没查 / 已知限制：\n"@,
            )
        }),
{
    let d = text::int_text(upto);
    let h1 = "[历史摘要 —— 覆盖前 "@;
    let h2 = " 次提问，原文已省略。下面的数字是当时工具返回的原值，可以直接引用]\n"@;
    let head = h1 + d + h2;
    let w = "\n用户要什么：\n"@;
    let o = "\n还没查 / 已知限制：\n"@;
    let v = "\n已核实（这些不用重新查）：\n"@;
    let wants = compaction::bullet_section(w, s.user_requirements@);
    let known = compaction::verified_section(s.verified@);
    let open = compaction::bullet_section(o, s.open@);
    assert(compaction::summary_text(s, upto) == head + wants + known + open);
    if 0 <= i < s.user_requirements@.len() {
        let n = s.user_requirements@.len() as int;
        let p = s.user_requirements@[i]@;
        lemma_bullets(s.user_requirements@, n, i, i);
        lemma_under(w, compaction::bullet_lines(s.user_requirements@, n), p);
        texts::lemma_in_order(head, wants, w, p);
        texts::lemma_in_order(head + wants, known, w, p);
        texts::lemma_in_order(head + wants + known, open, w, p);
        if 0 <= j < s.open@.len() {
            texts::lemma_contains_parts(
                w,
                compaction::bullet_lines(s.user_requirements@, n),
                p,
            );
            texts::lemma_contains_parts(head, wants, p);
            lemma_carry(head + wants, known, p);
            texts::lemma_contains_parts(
                o,
                compaction::bullet_lines(s.open@, s.open@.len() as int),
                o,
            );
            texts::lemma_in_order(head + wants + known, open, p, o);
        }
    }
    if 0 <= j < s.open@.len() {
        let n = s.open@.len() as int;
        let p = s.open@[j]@;
        lemma_bullets(s.open@, n, j, j);
        lemma_under(o, compaction::bullet_lines(s.open@, n), p);
        texts::lemma_in_order(head + wants + known, open, o, p);
    }
    if 0 <= k < s.verified@.len() {
        let n = s.verified@.len() as int;
        let c = s.verified@[k];
        let p = c.name@ + " @"@ + c.handle@;
        lemma_verified(s.verified@, n, k, k);
        lemma_candidate(c);
        texts::lemma_contains_parts(
            compaction::verified_lines(s.verified@, n),
            compaction::candidate_lines(c),
            p,
        );
        lemma_under(v, compaction::verified_lines(s.verified@, n), p);
        texts::lemma_in_order(head + wants, known, v, p);
        texts::lemma_in_order(head + wants + known, open, v, p);
    }
}

/// A summary that holds nothing says up to which question it goes, and nothing else.
pub proof fn law_empty_summary_is_its_head(s: CompactionSummary, upto: int)
    requires
        s.user_requirements@.len() == 0,
        s.verified@.len() == 0,
        s.open@.len() == 0,
    ensures
        compaction::summary_text(s, upto) == "[历史摘要 —— 覆盖前 "@ + text::int_text(upto)
            + " 次提问，原文已省略。下面的数字是当时工具返回的原值，可以直接引用]\n"@,
{
    let head = "[历史摘要 —— 覆盖前 "@ + text::int_text(upto)
        + " 次提问，原文已省略。下面的数字是当时工具返回的原值，可以直接引用]\n"@;
    assert(head + seq![] + seq![] + seq![] =~= head);
}

proof fn lemma_under(heading: Seq<char>, lines: Seq<char>, p: Seq<char>)
    requires
        text::contains(lines, p),
    ensures
        texts::in_order(heading + lines, heading, p),
{
    texts::lemma_contains_parts(heading, heading, heading);
    texts::lemma_in_order(heading, lines, heading, p);
}

/// A summary that does not keep to the form is passed on as it stands, but for the white
/// space around it.
pub proof fn law_raw_summary_is_passed_on(raw: Seq<char>, upto: int)
    ensures
        text::contains(compaction::raw_summary_text(raw, upto), text::trim(raw)),
        text::contains(compaction::raw_summary_text(raw, upto), text::int_text(upto)),
{
    let d = text::int_text(upto);
    let h1 = "[历史摘要 —— 覆盖前 "@;
    let h2 = " 次提问，原文已省略]\n\n"@;
    texts::lemma_contains_middle(h1 + d + h2, text::trim(raw), "\n"@);
    texts::lemma_contains_middle(h1, d, h2);
    lemma_carry(h1 + d + h2, text::trim(raw), d);
    lemma_carry(h1 + d + h2 + text::trim(raw), "\n"@, d);
}

} // verus!
