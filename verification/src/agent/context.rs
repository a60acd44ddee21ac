//! The history of a conversation, as it is stored and as a model reads it.
//!
//! A model remembers nothing: with every request it gets the whole history
//! again. To go on with a conversation is to read its entries and to make the
//! messages from them.

use vstd::prelude::*;
use crate::agent::llm;
use crate::agent::llm::{CallView, Msg, ToolCall, ToolResult};
use crate::content::model;
use crate::content::model::{Item, ItemKind, ItemView};
use crate::json;
use crate::json::{Json, Tree};
use crate::outside;
use crate::text;

verus! {

/// What a message says.
pub enum MsgView {
    User(Seq<char>),
    Assistant { text: Seq<char>, reasoning: Seq<char>, calls: Seq<CallView> },
    Tool { call_id: Seq<char>, content: Seq<char>, is_error: bool },
}

/// What a message says.
pub open spec fn msg_view(m: Msg) -> MsgView {
    match m {
        Msg::User(t) => MsgView::User(t@),
        Msg::Assistant { text, reasoning, tool_calls } => MsgView::Assistant {
            text: text@,
            reasoning: reasoning@,
            calls: llm::calls_view(tool_calls@),
        },
        Msg::Tool(r) => MsgView::Tool {
            call_id: r.call_id@,
            content: r.content@,
            is_error: r.is_error,
        },
    }
}

/// What a list of messages says.
pub open spec fn msgs_view(v: Seq<Msg>) -> Seq<MsgView> {
    Seq::new(v.len(), |i: int| msg_view(v[i]))
}

/// A text in the payload of an entry; empty where there is none.
pub open spec fn payload_text(it: ItemView, key: Seq<char>) -> Seq<char> {
    llm::or_empty(json::then_str(json::field(it.payload, key)))
}

/// The call that an entry records.
pub open spec fn item_call(it: ItemView) -> CallView {
    CallView {
        id: llm::or_empty(it.call_id),
        name: payload_text(it, "name"@),
        args: match json::field(it.payload, "args"@) {
            Some(t) => t,
            None => Tree::Null,
        },
    }
}

/// The result of a tool that an entry records.
pub open spec fn item_result(it: ItemView) -> MsgView {
    MsgView::Tool {
        call_id: llm::or_empty(it.call_id),
        content: payload_text(it, "content"@),
        is_error: json::then_bool(json::field(it.payload, "is_error"@)) == Some(true),
    }
}

/// The messages after one more entry. A call belongs to the message of the
/// model that stands before it; where none does, there is one that says
/// nothing.
pub open spec fn with_item(out: Seq<MsgView>, it: ItemView) -> Seq<MsgView> {
    match it.kind {
        ItemKind::UserMessage => out.push(MsgView::User(payload_text(it, "text"@))),
        ItemKind::AssistantMessage => out.push(
            MsgView::Assistant {
                text: payload_text(it, "text"@),
                reasoning: payload_text(it, "reasoning"@),
                calls: seq![],
            },
        ),
        ItemKind::FunctionCall => if out.len() > 0 && out.last() is Assistant {
            out.drop_last().push(
                MsgView::Assistant {
                    text: out.last()->text,
                    reasoning: out.last()->reasoning,
                    calls: out.last()->calls.push(item_call(it)),
                },
            )
        } else {
            out.push(
                MsgView::Assistant {
                    text: seq![],
                    reasoning: seq![],
                    calls: seq![item_call(it)],
                },
            )
        },
        ItemKind::FunctionCallOutput => out.push(item_result(it)),
    }
}

/// The messages of the first `n` entries.
pub open spec fn messages(items: Seq<ItemView>, n: int) -> Seq<MsgView>
    decreases n,
{
    if n <= 0 || n > items.len() {
        seq![]
    } else {
        with_item(messages(items, n - 1), items[n - 1])
    }
}

fn str_field(it: &Item, key: &str) -> (r: String)
    ensures
        r@ == payload_text(it@, key@),
{
    match it.payload.get(key) {
        Some(j) => match j.as_str() {
            Some(s) => s.to_owned(),
            None => String::new(),
        },
        None => String::new(),
    }
}

fn id_of(it: &Item) -> (r: String)
    ensures
        r@ == llm::or_empty(text::opt(it.call_id)),
{
    match &it.call_id {
        Some(s) => s.clone(),
        None => String::new(),
    }
}

fn call_of(it: &Item) -> (r: ToolCall)
    ensures
        r@ == item_call(it@),
{
    ToolCall {
        id: id_of(it),
        name: str_field(it, "name"),
        args: match it.payload.get("args") {
            Some(j) => j.copy(),
            None => Json::Null,
        },
    }
}

fn push_call(out: &mut Vec<Msg>, call: ToolCall)
    ensures
        msgs_view(final(out)@) == (if old(out)@.len() > 0 && msgs_view(old(out)@).last() is Assistant {
            msgs_view(old(out)@).drop_last().push(
                MsgView::Assistant {
                    text: msgs_view(old(out)@).last()->text,
                    reasoning: msgs_view(old(out)@).last()->reasoning,
                    calls: msgs_view(old(out)@).last()->calls.push(call@),
                },
            )
        } else {
            msgs_view(old(out)@).push(
                MsgView::Assistant { text: seq![], reasoning: seq![], calls: seq![call@] },
            )
        }),
{
    let ghost before = msgs_view(out@);
    match out.pop() {
        Some(Msg::Assistant { text, reasoning, tool_calls }) => {
            let mut calls = tool_calls;
            let ghost old_calls = llm::calls_view(calls@);
            calls.push(call);
            assert(llm::calls_view(calls@) =~= old_calls.push(call@));
            out.push(Msg::Assistant { text, reasoning, tool_calls: calls });
            assert(msgs_view(out@) =~= before.drop_last().push(
                MsgView::Assistant {
                    text: before.last()->text,
                    reasoning: before.last()->reasoning,
                    calls: before.last()->calls.push(call@),
                },
            ));
        },
        other => {
            if let Some(m) = other {
                out.push(m);
            }
            assert(msgs_view(out@) =~= before);
            let calls = vec![call];
            assert(llm::calls_view(calls@) =~= seq![call@]);
            out.push(
                Msg::Assistant {
                    text: String::new(),
                    reasoning: String::new(),
                    tool_calls: calls,
                },
            );
            assert(msgs_view(out@) =~= before.push(
                MsgView::Assistant { text: seq![], reasoning: seq![], calls: seq![call@] },
            ));
        },
    }
}

/// The messages that a model gets to read, from the entries of a history.
pub fn to_messages(items: &Vec<Item>) -> (r: Vec<Msg>)
    ensures
        msgs_view(r@) == messages(model::items_view(items@), items@.len() as int),
{
    let mut out: Vec<Msg> = Vec::new();
    let ghost all = model::items_view(items@);
    let mut i: usize = 0;
    assert(msgs_view(out@) =~= seq![]);
    while i < items.len()
        invariant
            i <= items@.len(),
            all == model::items_view(items@),
            msgs_view(out@) == messages(all, i as int),
        decreases items@.len() - i,
    {
        let it = &items[i];
        assert(all[i as int] == it@);
        let ghost before = msgs_view(out@);
        match it.kind {
            ItemKind::UserMessage => {
                out.push(Msg::User(str_field(it, "text")));
                assert(msgs_view(out@) =~= with_item(before, it@));
            },
            ItemKind::AssistantMessage => {
                let calls: Vec<ToolCall> = Vec::new();
                assert(llm::calls_view(calls@) =~= seq![]);
                out.push(
                    Msg::Assistant {
                        text: str_field(it, "text"),
                        reasoning: str_field(it, "reasoning"),
                        tool_calls: calls,
                    },
                );
                assert(msgs_view(out@) =~= with_item(before, it@));
            },
            ItemKind::FunctionCall => {
                push_call(&mut out, call_of(it));
                assert(msgs_view(out@) =~= with_item(before, it@));
            },
            ItemKind::FunctionCallOutput => {
                let is_error: bool = match it.payload.get("is_error") {
                    Some(j) => match j.as_bool() {
                        Some(b) => b,
                        None => false,
                    },
                    None => false,
                };
                out.push(
                    Msg::Tool(
                        ToolResult {
                            call_id: id_of(it),
                            content: str_field(it, "content"),
                            is_error,
                        },
                    ),
                );
                assert(msgs_view(out@) =~= with_item(before, it@));
            },
        }
        i = i + 1;
    }
    out
}

// ---------------------------------------------------------------------------
// Nothing is lost
// ---------------------------------------------------------------------------

/// The calls in the first `n` messages, in order.
pub open spec fn calls_in(v: Seq<MsgView>, n: int) -> Seq<CallView>
    decreases n,
{
    if n <= 0 || n > v.len() {
        seq![]
    } else {
        match v[n - 1] {
            MsgView::Assistant { text, reasoning, calls } => calls_in(v, n - 1) + calls,
            _ => calls_in(v, n - 1),
        }
    }
}

/// The calls that the first `n` entries record, in order.
pub open spec fn recorded_calls(items: Seq<ItemView>, n: int) -> Seq<CallView>
    decreases n,
{
    if n <= 0 || n > items.len() {
        seq![]
    } else if items[n - 1].kind == ItemKind::FunctionCall {
        recorded_calls(items, n - 1).push(item_call(items[n - 1]))
    } else {
        recorded_calls(items, n - 1)
    }
}

/// The results of tools in the first `n` messages, in order.
pub open spec fn results_in(v: Seq<MsgView>, n: int) -> Seq<MsgView>
    decreases n,
{
    if n <= 0 || n > v.len() {
        seq![]
    } else if v[n - 1] is Tool {
        results_in(v, n - 1).push(v[n - 1])
    } else {
        results_in(v, n - 1)
    }
}

/// The results of tools that the first `n` entries record, in order.
pub open spec fn recorded_results(items: Seq<ItemView>, n: int) -> Seq<MsgView>
    decreases n,
{
    if n <= 0 || n > items.len() {
        seq![]
    } else if items[n - 1].kind == ItemKind::FunctionCallOutput {
        recorded_results(items, n - 1).push(item_result(items[n - 1]))
    } else {
        recorded_results(items, n - 1)
    }
}

proof fn lemma_prefix(a: Seq<MsgView>, b: Seq<MsgView>, n: int)
    requires
        n <= a.len(),
        n <= b.len(),
        forall|i: int| 0 <= i < n ==> a[i] == b[i],
    ensures
        calls_in(a, n) == calls_in(b, n),
        results_in(a, n) == results_in(b, n),
    decreases n,
{
    if n > 0 {
        lemma_prefix(a, b, n - 1);
    }
}

/// Every call and every result of a history reaches the model, once and in
/// order, with its identifier: none is lost where calls are put together in one
/// message, and none comes twice.
pub proof fn law_calls_and_results_are_kept(items: Seq<ItemView>, n: int)
    requires
        0 <= n <= items.len(),
    ensures
        calls_in(messages(items, n), messages(items, n).len() as int) == recorded_calls(items, n),
        results_in(messages(items, n), messages(items, n).len() as int) == recorded_results(
            items,
            n,
        ),
    decreases n,
{
    if n > 0 {
        law_calls_and_results_are_kept(items, n - 1);
        let a = messages(items, n - 1);
        let b = messages(items, n);
        let it = items[n - 1];
        if it.kind == ItemKind::FunctionCall && a.len() > 0 && a.last() is Assistant {
            lemma_prefix(a, b, a.len() - 1);
            assert(calls_in(b, b.len() as int) =~= recorded_calls(items, n));
        } else {
            lemma_prefix(a, b, a.len() as int);
            assert(calls_in(b, b.len() as int) =~= recorded_calls(items, n));
        }
    }
}

/// What an endpoint answered is stored beside an entry and is not sent: the same
/// entries without it make the same messages.
pub proof fn law_raw_answers_are_not_sent(a: Seq<ItemView>, b: Seq<ItemView>, n: int)
    requires
        a.len() == b.len(),
        forall|i: int|
            0 <= i < a.len() ==> (#[trigger] a[i]) == (ItemView {
                raw_json: a[i].raw_json,
                ..b[i]
            }),
    ensures
        messages(a, n) == messages(b, n),
    decreases n,
{
    if 0 < n <= a.len() {
        law_raw_answers_are_not_sent(a, b, n - 1);
        assert(with_item(messages(b, n - 1), a[n - 1]) == with_item(messages(b, n - 1), b[n - 1]));
    }
}

// ---------------------------------------------------------------------------
// A transcript of the history
// ---------------------------------------------------------------------------

/// The lines of an entry in a transcript.
pub open spec fn item_lines(it: ItemView) -> Seq<char> {
    match it.kind {
        ItemKind::UserMessage => "【用户】"@ + payload_text(it, "text"@) + "\n"@,
        ItemKind::AssistantMessage => {
            let thought = payload_text(it, "reasoning"@);
            let said = payload_text(it, "text"@);
            (if thought.len() > 0 {
                "【助手思考】"@ + thought + "\n"@
            } else {
                seq![]
            }) + (if said.len() > 0 {
                "【助手】"@ + said + "\n"@
            } else {
                seq![]
            })
        },
        ItemKind::FunctionCall => "【调用工具】"@ + payload_text(it, "name"@) + " "@ + (match json::field(
            it.payload,
            "args"@,
        ) {
            Some(t) => outside::json_text(t),
            None => seq![],
        }) + "\n"@,
        ItemKind::FunctionCallOutput => "【工具结果】"@ + payload_text(it, "content"@) + "\n"@,
    }
}

/// The lines of the first `n` entries.
pub open spec fn transcript(items: Seq<ItemView>, n: int) -> Seq<char>
    decreases n,
{
    if n <= 0 || n > items.len() {
        seq![]
    } else {
        transcript(items, n - 1) + item_lines(items[n - 1])
    }
}

fn lines_of_item(it: &Item) -> (r: String)
    ensures
        r@ == item_lines(it@),
{
    match it.kind {
        ItemKind::UserMessage => "【用户】".to_owned().concat(
            str_field(it, "text").as_str(),
        ).concat("\n"),
        ItemKind::AssistantMessage => {
            let mut out = String::new();
            let thought = str_field(it, "reasoning");
            if !thought.as_str().is_empty() {
                out = "【助手思考】".to_owned().concat(thought.as_str()).concat("\n");
            }
            let said = str_field(it, "text");
            if !said.as_str().is_empty() {
                let line = "【助手】".to_owned().concat(said.as_str()).concat("\n");
                out.append(line.as_str());
            }
            assert(out@ =~= item_lines(it@));
            out
        },
        ItemKind::FunctionCall => {
            let args = match it.payload.get("args") {
                Some(j) => j.text(),
                None => String::new(),
            };
            "【调用工具】".to_owned().concat(str_field(it, "name").as_str()).concat(" ").concat(
                args.as_str(),
            ).concat("\n")
        },
        ItemKind::FunctionCallOutput => "【工具结果】".to_owned().concat(
            str_field(it, "content").as_str(),
        ).concat("\n"),
    }
}

/// The history as plain text, for a model that is to summarize it. Nothing is
/// cut.
pub fn to_transcript(items: &Vec<Item>) -> (r: String)
    ensures
        r@ == transcript(model::items_view(items@), items@.len() as int),
{
    let mut out = String::new();
    let ghost all = model::items_view(items@);
    let mut i: usize = 0;
    while i < items.len()
        invariant
            i <= items@.len(),
            all == model::items_view(items@),
            out@ == transcript(all, i as int),
        decreases items@.len() - i,
    {
        assert(all[i as int] == items@[i as int]@);
        out.append(lines_of_item(&items[i]).as_str());
        i = i + 1;
    }
    out
}

} // verus!
