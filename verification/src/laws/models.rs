//! What models are asked, and what they answer.

use vstd::prelude::*;
use crate::agent::llm;
use crate::agent::llm::{CallView, ModelRequest, Msg, Provider, StopView, ToolDef};
use crate::agent::vision;
use crate::json;
use crate::json::{NumTree, Tree};
use crate::laws::reading;
use crate::laws::telling;
use crate::laws::texts;
use crate::outside;
use crate::text;

verus! {

/// Whether a number stands at a place that is one of tokens.
pub open spec fn is_count(t: Option<Tree>, n: int) -> bool {
    t == Some(Tree::Number(NumTree::Int(n))) && 0 <= n < 0x1_0000_0000
}

/// The text of a block of content that is one of text.
pub open spec fn block_says(b: Tree) -> Option<Seq<char>> {
    match (json::field(b, "type"@), json::field(b, "text"@)) {
        (Some(Tree::Str(k)), Some(Tree::Str(s))) => if k == "text"@ {
            Some(s)
        } else {
            None
        },
        _ => None,
    }
}

/// The texts of blocks of content.
pub open spec fn blocks_say(a: Seq<Tree>) -> Seq<Option<Seq<char>>> {
    Seq::new(a.len(), |i: int| block_says(a[i]))
}

/// What Anthropic answered is the text of its blocks of text, in their order and with
/// nothing between them; and it counts what went in as what went in, and what came out as
/// what came out.
pub proof fn law_anthropic_answers_are_read(body: Tree, n: int, m: int)
    ensures
        ({
            let r = llm::anthropic_response(body);
            &&& match json::field(body, "content"@) {
                Some(Tree::Array(a)) => exists|v: Seq<Seq<char>>|
                    #[trigger] reading::keeps_order(v, blocks_say(a)) && r.text == text::join(v, ""@),
                _ => r.text.len() == 0,
            }
            &&& r.tool_calls.len() == 0
            &&& is_count(reading::below(json::field(body, "usage"@), "input_tokens"@), n)
                ==> r.input_tokens == n
            &&& is_count(reading::below(json::field(body, "usage"@), "output_tokens"@), m)
                ==> r.output_tokens == m
            &&& json::field(body, "usage"@) is None ==> r.input_tokens == 0 && r.output_tokens == 0
        }),
{
    if let Some(Tree::Array(a)) = json::field(body, "content"@) {
        lemma_blocks(a, a.len() as int);
        assert(blocks_say(a) =~= Seq::new(a.len(), |i: int| block_says(a[i])));
    }
}

proof fn lemma_blocks(a: Seq<Tree>, n: int)
    requires
        0 <= n <= a.len(),
    ensures
        reading::keeps_order(
            llm::block_texts(a, n),
            Seq::new(n as nat, |i: int| block_says(a[i])),
        ),
    decreases n,
{
    let of = Seq::new(n as nat, |i: int| block_says(a[i]));
    if n > 0 {
        lemma_blocks(a, n - 1);
        let before = Seq::new((n - 1) as nat, |i: int| block_says(a[i]));
        reading::lemma_kept(llm::block_texts(a, n - 1), before, block_says(a[n - 1]));
        assert(of =~= before.push(block_says(a[n - 1])));
    } else {
        reading::lemma_none_kept::<Seq<char>>();
        assert(of =~= Seq::empty());
        assert(llm::block_texts(a, n) =~= Seq::empty());
    }
}

/// Why a model stopped is what it says: the end, the limit, a refusal, or a wish for tools;
/// a reason that nobody knows is passed on as it is, and a missing one is said to be so.
pub proof fn law_stops_are_read(t: Tree, s: Seq<char>)
    ensures
        json::field(t, "stop_reason"@) == Some(Tree::Str("end_turn"@)) ==> llm::anthropic_stop(t)
            == StopView::EndTurn,
        json::field(t, "stop_reason"@) == Some(Tree::Str("max_tokens"@)) ==> llm::anthropic_stop(t)
            == StopView::MaxTokens,
        json::field(t, "stop_reason"@) == Some(Tree::Str("refusal"@)) ==> llm::anthropic_stop(t)
            == StopView::Refusal,
        json::field(t, "stop_reason"@) == Some(Tree::Str(s)) && s != "end_turn"@ && s
            != "max_tokens"@ && s != "refusal"@ ==> llm::anthropic_stop(t) == StopView::Other(s),
        json::field(t, "stop_reason"@) is None ==> llm::anthropic_stop(t) is Other,
        json::field(t, "finish_reason"@) == Some(Tree::Str("stop"@)) ==> llm::openai_stop(t)
            == StopView::EndTurn,
        json::field(t, "finish_reason"@) == Some(Tree::Str("length"@)) ==> llm::openai_stop(t)
            == StopView::MaxTokens,
        json::field(t, "finish_reason"@) == Some(Tree::Str("content_filter"@)) ==> llm::openai_stop(
            t,
        ) == StopView::Refusal,
        json::field(t, "finish_reason"@) == Some(Tree::Str("tool_calls"@)) ==> llm::openai_stop(t)
            == StopView::ToolUse,
        json::field(t, "finish_reason"@) == Some(Tree::Str(s)) && s != "stop"@ && s != "length"@
            && s != "content_filter"@ && s != "tool_calls"@ ==> llm::openai_stop(t)
            == StopView::Other(s),
        json::field(t, "finish_reason"@) is None ==> llm::openai_stop(t) is Other,
{
    lemma_stop_names();
}

proof fn lemma_stop_names()
    ensures
        "end_turn"@ != "max_tokens"@,
        "end_turn"@ != "refusal"@,
        "max_tokens"@ != "refusal"@,
        "stop"@ != "length"@,
        "stop"@ != "content_filter"@,
        "length"@ != "content_filter"@,
        "stop"@ != "tool_calls"@,
        "length"@ != "tool_calls"@,
        "content_filter"@ != "tool_calls"@,
{
    reveal_strlit("content_filter");
    reveal_strlit("end_turn");
    reveal_strlit("length");
    reveal_strlit("max_tokens");
    reveal_strlit("refusal");
    reveal_strlit("stop");
    reveal_strlit("tool_calls");
    assert("end_turn"@.len() != "max_tokens"@.len());
    assert("end_turn"@.len() != "refusal"@.len());
    assert("max_tokens"@.len() != "refusal"@.len());
    assert("stop"@.len() != "length"@.len());
    assert("stop"@.len() != "content_filter"@.len());
    assert("length"@.len() != "content_filter"@.len());
    assert("stop"@.len() != "tool_calls"@.len());
    assert("length"@.len() != "tool_calls"@.len());
    assert("content_filter"@.len() != "tool_calls"@.len());
}

/// What DeepSeek answered is what the message of its first choice says, with the calls that
/// stand in it, in their order; and it counts what went in as what went in, and what came
/// out as what came out.
pub proof fn law_deepseek_answers_are_read(
    body: Tree,
    choices: Seq<Tree>,
    calls: Seq<CallView>,
    s: Seq<char>,
    a: Seq<Tree>,
    n: int,
    m: int,
)
    requires
        json::field(body, "choices"@) == Some(Tree::Array(choices)),
        choices.len() > 0,
    ensures
        llm::first_choice(body) == Some(choices[0]),
        ({
            let message = json::field(choices[0], "message"@);
            let r = llm::openai_response(body, choices[0], calls);
            &&& reading::below(message, "content"@) == Some(Tree::Str(s)) ==> r.text == s
            &&& reading::absent(reading::below(message, "content"@)) ==> r.text.len() == 0
            &&& r.tool_calls == calls
            &&& reading::below(message, "tool_calls"@) == Some(Tree::Array(a)) ==> llm::openai_calls(
                choices[0],
            ) == a
            &&& reading::absent(reading::below(message, "tool_calls"@)) ==> llm::openai_calls(
                choices[0],
            ).len() == 0
            &&& is_count(reading::below(json::field(body, "usage"@), "prompt_tokens"@), n)
                ==> r.input_tokens == n
            &&& is_count(reading::below(json::field(body, "usage"@), "completion_tokens"@), m)
                ==> r.output_tokens == m
        }),
{
}

/// A call that a model makes has the identifier, the tool and the arguments that it gives;
/// the arguments are read from their text.
pub proof fn law_calls_are_read(c: Tree, id: Seq<char>, name: Seq<char>, args: Seq<char>)
    requires
        json::field(c, "id"@) == Some(Tree::Str(id)),
        reading::below(json::field(c, "function"@), "name"@) == Some(Tree::Str(name)),
        reading::below(json::field(c, "function"@), "arguments"@) == Some(Tree::Str(args)),
    ensures
        match outside::json_tree(args) {
            Some(t) => llm::call_view(c) == Some(CallView { id, name, args: t }),
            None => llm::call_view(c) is None && text::contains(llm::complaint(c), name)
                && text::contains(llm::complaint(c), args),
        },
{
    let a = "工具 "@;
    let b = " 的参数不是合法 JSON: "@;
    let d = outside::json_complaint(args);
    let e = "（原文: "@;
    texts::lemma_contains_middle(a, name, b);
    texts::lemma_contains_parts(a + name + b, d, name);
    texts::lemma_contains_parts(a + name + b + d, e, name);
    texts::lemma_contains_parts(a + name + b + d + e, args, name);
    texts::lemma_contains_parts(a + name + b + d + e + args, "）"@, name);
    texts::lemma_contains_middle(a + name + b + d + e, args, "）"@);
}

/// A request to DeepSeek names the model, has the system prompt as its first message and
/// then the messages in their order, asks for no more than DeepSeek gives, and names the
/// tools where there are any.
pub proof fn law_deepseek_requests(model: Seq<char>, req: ModelRequest, i: int)
    ensures
        ({
            let t = llm::openai_body(model, req);
            &&& telling::words(t, "model"@, model)
            &&& telling::tells(t, "stream"@, Tree::Bool(false))
            &&& req.max_tokens <= 8192 ==> telling::counts(t, "max_tokens"@, req.max_tokens as int)
            &&& req.max_tokens > 8192 ==> telling::counts(t, "max_tokens"@, 8192)
            &&& json::field(t, "messages"@) matches Some(Tree::Array(v)) && {
                &&& v.len() == req.messages@.len() + 1
                &&& telling::words(v[0], "role"@, "system"@)
                &&& telling::words(v[0], "content"@, req.system@)
                &&& 0 <= i < req.messages@.len() ==> is_openai_message(v[i + 1], req.messages@[i])
            }
            &&& req.tools@.len() == 0 ==> json::field(t, "tools"@) is None
            &&& req.tools@.len() > 0 ==> (json::field(t, "tools"@) matches Some(Tree::Array(v))
                && v.len() == req.tools@.len() && (0 <= i < req.tools@.len() ==> is_tool(
                v[i],
                req.tools@[i],
            )))
        }),
{
    lemma_request_names();
    reveal_with_fuel(json::field_from, 6);
    let v = llm::openai_messages(req.system@, req.messages@);
    assert(v[0] == Tree::Object(
        seq![("role"@, Tree::Str("system"@)), ("content"@, Tree::Str(req.system@))],
    ));
    if 0 <= i < req.messages@.len() {
        assert(v[i + 1] == llm::openai_message(req.messages@[i]));
        lemma_openai_message(req.messages@[i]);
    }
    if 0 <= i < req.tools@.len() {
        lemma_tool(req.tools@[i]);
        assert(llm::tool_trees(req.tools@)[i] == llm::tool_tree(req.tools@[i]));
    }
}

/// Whether `t` is a message as DeepSeek reads it.
pub open spec fn is_openai_message(t: Tree, m: Msg) -> bool {
    match m {
        Msg::User(s) => telling::words(t, "role"@, "user"@) && telling::words(t, "content"@, s@),
        Msg::Assistant { text, reasoning, tool_calls } => {
            &&& telling::words(t, "role"@, "assistant"@)
            &&& telling::words(t, "content"@, text@)
            &&& tool_calls@.len() == 0 ==> json::field(t, "tool_calls"@) is None
            &&& tool_calls@.len() > 0 ==> (json::field(t, "tool_calls"@) matches Some(
                Tree::Array(v),
            ) && v.len() == tool_calls@.len() && forall|k: int|
                0 <= k < v.len() ==> is_openai_call(#[trigger] v[k], tool_calls@[k]@))
        },
        Msg::Tool(r) => {
            &&& telling::words(t, "role"@, "tool"@)
            &&& telling::words(t, "tool_call_id"@, r.call_id@)
            &&& telling::words(t, "content"@, r.content@)
        },
    }
}

/// Whether `t` is a call as DeepSeek reads it.
pub open spec fn is_openai_call(t: Tree, c: CallView) -> bool {
    let f = json::field(t, "function"@);
    &&& telling::words(t, "id"@, c.id)
    &&& telling::words(t, "type"@, "function"@)
    &&& reading::below(f, "name"@) == Some(Tree::Str(c.name))
    &&& reading::below(f, "arguments"@) == Some(Tree::Str(outside::json_text(c.args)))
}

/// Whether `t` is a tool as DeepSeek reads it.
pub open spec fn is_tool(t: Tree, d: ToolDef) -> bool {
    let f = json::field(t, "function"@);
    &&& telling::words(t, "type"@, "function"@)
    &&& reading::below(f, "name"@) == Some(Tree::Str(d.name@))
    &&& reading::below(f, "description"@) == Some(Tree::Str(d.description@))
    &&& reading::below(f, "parameters"@) == Some(d.params@)
}

proof fn lemma_tool(d: ToolDef)
    ensures
        is_tool(llm::tool_tree(d), d),
{
    lemma_request_names();
    reveal_with_fuel(json::field_from, 5);
}

proof fn lemma_openai_call(c: llm::ToolCall)
    ensures
        is_openai_call(llm::call_tree(c), c@),
{
    lemma_request_names();
    reveal_with_fuel(json::field_from, 5);
}

proof fn lemma_openai_message(m: Msg)
    ensures
        is_openai_message(llm::openai_message(m), m),
{
    lemma_request_names();
    reveal_with_fuel(json::field_from, 5);
    if let Msg::Assistant { text, reasoning, tool_calls } = m {
        let v = llm::call_trees(tool_calls@);
        assert forall|k: int| 0 <= k < v.len() implies is_openai_call(
            #[trigger] v[k],
            tool_calls@[k]@,
        ) by {
            lemma_openai_call(tool_calls@[k]);
        }
    }
}

proof fn lemma_request_names()
    ensures
        "model"@ != "max_tokens"@,
        "model"@ != "messages"@,
        "max_tokens"@ != "messages"@,
        "model"@ != "stream"@,
        "max_tokens"@ != "stream"@,
        "messages"@ != "stream"@,
        "model"@ != "tools"@,
        "max_tokens"@ != "tools"@,
        "messages"@ != "tools"@,
        "stream"@ != "tools"@,
        "role"@ != "content"@,
        "role"@ != "tool_calls"@,
        "content"@ != "tool_calls"@,
        "role"@ != "tool_call_id"@,
        "tool_call_id"@ != "content"@,
        "id"@ != "type"@,
        "id"@ != "function"@,
        "type"@ != "function"@,
        "name"@ != "arguments"@,
        "name"@ != "description"@,
        "name"@ != "parameters"@,
        "description"@ != "parameters"@,
        "model"@ != "system"@,
        "max_tokens"@ != "system"@,
        "system"@ != "messages"@,
{
    reveal_strlit("arguments");
    reveal_strlit("content");
    reveal_strlit("description");
    reveal_strlit("function");
    reveal_strlit("id");
    reveal_strlit("max_tokens");
    reveal_strlit("messages");
    reveal_strlit("model");
    reveal_strlit("name");
    reveal_strlit("parameters");
    reveal_strlit("role");
    reveal_strlit("stream");
    reveal_strlit("system");
    reveal_strlit("tool_call_id");
    reveal_strlit("tool_calls");
    reveal_strlit("tools");
    reveal_strlit("type");
    assert("model"@.len() != "max_tokens"@.len());
    assert("model"@.len() != "messages"@.len());
    assert("max_tokens"@.len() != "messages"@.len());
    assert("model"@.len() != "stream"@.len());
    assert("max_tokens"@.len() != "stream"@.len());
    assert("messages"@.len() != "stream"@.len());
    assert("model"@[0] != "tools"@[0]);
    assert("max_tokens"@.len() != "tools"@.len());
    assert("messages"@.len() != "tools"@.len());
    assert("stream"@.len() != "tools"@.len());
    assert("role"@.len() != "content"@.len());
    assert("role"@.len() != "tool_calls"@.len());
    assert("content"@.len() != "tool_calls"@.len());
    assert("role"@.len() != "tool_call_id"@.len());
    assert("tool_call_id"@.len() != "content"@.len());
    assert("id"@.len() != "type"@.len());
    assert("id"@.len() != "function"@.len());
    assert("type"@.len() != "function"@.len());
    assert("name"@.len() != "arguments"@.len());
    assert("name"@.len() != "description"@.len());
    assert("name"@.len() != "parameters"@.len());
    assert("description"@.len() != "parameters"@.len());
    assert("model"@.len() != "system"@.len());
    assert("max_tokens"@.len() != "system"@.len());
    assert("system"@.len() != "messages"@.len());
}

/// A request to Anthropic names the model, how much it may write and the system prompt, and
/// has what the user and the model say as messages in their order.
pub proof fn law_anthropic_requests(model: Seq<char>, req: ModelRequest, i: int)
    ensures
        ({
            let t = llm::anthropic_body(model, req);
            &&& telling::words(t, "model"@, model)
            &&& telling::counts(t, "max_tokens"@, req.max_tokens as int)
            &&& telling::words(t, "system"@, req.system@)
            &&& json::field(t, "messages"@) matches Some(Tree::Array(v)) && {
                &&& v.len() == req.messages@.len()
                &&& 0 <= i < v.len() ==> match req.messages@[i] {
                    Msg::User(s) => telling::words(v[i], "role"@, "user"@) && telling::words(
                        v[i],
                        "content"@,
                        s@,
                    ),
                    Msg::Assistant { text, reasoning, tool_calls } => telling::words(
                        v[i],
                        "role"@,
                        "assistant"@,
                    ) && telling::words(v[i], "content"@, text@),
                    Msg::Tool(r) => telling::words(v[i], "role"@, "user"@) && (json::field(
                        v[i],
                        "content"@,
                    ) matches Some(Tree::Str(s)) && text::contains(s, r.call_id@)),
                }
            }
        }),
{
    lemma_request_names();
    reveal_with_fuel(json::field_from, 5);
    let v = llm::anthropic_messages(req.messages@);
    if 0 <= i < v.len() {
        assert(v[i] == llm::anthropic_message(req.messages@[i]));
        if let Msg::Tool(r) = req.messages@[i] {
            texts::lemma_contains_middle("[未支持的工具结果 "@, r.call_id@, "]"@);
        }
    }
}

/// Why a model did not answer is said with its status and with what it says itself.
pub proof fn law_refusals_of_models_say_why(status: Seq<char>, body: Tree, m: Seq<char>)
    ensures
        text::contains(llm::llm_refusal(status, body), status),
        reading::below(json::field(body, "error"@), "message"@) == Some(Tree::Str(m))
            ==> text::contains(llm::llm_refusal(status, body), m),
        text::contains(vision::vision_refusal(status, body), status),
        reading::below(json::field(body, "error"@), "message"@) == Some(Tree::Str(m))
            ==> text::contains(vision::vision_refusal(status, body), m),
{
    let x = match json::then_str(json::then_field(json::field(body, "error"@), "message"@)) {
        Some(s) => s,
        None => "(响应里没有 error.message)"@,
    };
    let y = match json::then_str(json::then_field(json::field(body, "error"@), "message"@)) {
        Some(s) => s,
        None => "未知错误"@,
    };
    texts::lemma_contains_middle("HTTP "@, status, ": "@);
    texts::lemma_contains_parts("HTTP "@ + status + ": "@, x, status);
    texts::lemma_contains_parts("HTTP "@ + status + ": "@, x, x);
    texts::lemma_contains_middle("视觉模型 HTTP "@, status, ": "@);
    texts::lemma_contains_parts("视觉模型 HTTP "@ + status + ": "@, y, status);
    texts::lemma_contains_parts("视觉模型 HTTP "@ + status + ": "@, y, y);
}

/// A supplier is known by its name, in capitals or not, and by nothing else.
pub proof fn law_suppliers_are_known_by_name(s: Seq<char>)
    ensures
        text::lower(s) == "anthropic"@ <==> llm::provider_named(s) == Some(Provider::Anthropic),
        text::lower(s) == "deepseek"@ <==> llm::provider_named(s) == Some(Provider::DeepSeek),
{
    reveal_strlit("anthropic");
    reveal_strlit("deepseek");
    assert("anthropic"@.len() != "deepseek"@.len());
}

/// The leave to upload is what the answer gives, each thing under its own name; of what it
/// does not give, what is usual holds.
pub proof fn law_leave_is_what_the_answer_gives(d: Tree, s: Seq<char>, n: u64)
    ensures
        ({
            let p = vision::policy_view(d);
            &&& json::field(d, "policy"@) == Some(Tree::Str(s)) ==> p.policy == s
            &&& json::field(d, "signature"@) == Some(Tree::Str(s)) ==> p.signature == s
            &&& json::field(d, "upload_dir"@) == Some(Tree::Str(s)) ==> p.upload_dir == s
            &&& json::field(d, "upload_host"@) == Some(Tree::Str(s)) ==> p.upload_host == s
            &&& json::field(d, "oss_access_key_id"@) == Some(Tree::Str(s)) ==> p.access_key_id == s
            &&& json::field(d, "x_oss_object_acl"@) == Some(Tree::Str(s)) ==> p.object_acl == s
            &&& json::field(d, "x_oss_object_acl"@) is None ==> p.object_acl == "private"@
            &&& json::field(d, "x_oss_forbid_overwrite"@) == Some(Tree::Str(s))
                ==> p.forbid_overwrite == s
            &&& json::field(d, "x_oss_forbid_overwrite"@) == Some(Tree::Bool(false))
                ==> p.forbid_overwrite == "false"@
            &&& json::field(d, "x_oss_forbid_overwrite"@) == Some(Tree::Bool(true))
                ==> p.forbid_overwrite == "true"@
            &&& json::field(d, "x_oss_forbid_overwrite"@) is None ==> p.forbid_overwrite == "true"@
            &&& json::field(d, "max_file_size_mb"@) == Some(Tree::Number(NumTree::Int(n as int)))
                ==> p.max_file_size_mb == n
            &&& json::field(d, "max_file_size_mb"@) is None ==> p.max_file_size_mb == 1024
        }),
{
}

/// Whether an answer gives a text under a name.
pub open spec fn has_text(d: Tree, key: Seq<char>) -> bool {
    json::field(d, key) matches Some(Tree::Str(_))
}

/// There is leave to upload exactly where the answer gives, as texts, the five things that
/// an upload needs.
pub proof fn law_leave_needs_five_things(d: Tree)
    ensures
        vision::missing_key(d, 0) is None <==> has_text(d, "policy"@) && has_text(d, "signature"@)
            && has_text(d, "upload_dir"@) && has_text(d, "upload_host"@) && has_text(
            d,
            "oss_access_key_id"@,
        ),
        vision::missing_key(d, 0) matches Some(k) ==> !has_text(d, k),
{
    reveal_with_fuel(vision::missing_key, 6);
    let k = vision::policy_keys();
    assert(k[0] == "policy"@ && k[1] == "signature"@ && k[2] == "upload_dir"@ && k[3]
        == "upload_host"@ && k[4] == "oss_access_key_id"@);
}

/// There is leave to upload only where the service answers well and gives what is needed;
/// otherwise it is told why not: its status, that there is nothing, or what is missing.
pub proof fn law_leave_is_refused_with_a_reason(
    r: crate::error::Result<vision::UploadPolicy>,
    success: bool,
    status: Seq<char>,
    body: Tree,
)
    requires
        vision::grants(r, success, status, body),
    ensures
        r is Ok <==> success && (json::field(body, "data"@) matches Some(d) && vision::missing_key(
            d,
            0,
        ) is None),
        r matches Ok(p) ==> (json::field(body, "data"@) matches Some(d) && p@
            == vision::policy_view(d)),
        !success ==> (r matches Err(crate::error::ClipKnowError::Llm(m)) && text::contains(
            m@,
            status,
        )),
        success ==> (json::field(body, "data"@) matches Some(d) ==> (vision::missing_key(
            d,
            0,
        ) matches Some(k) ==> (r matches Err(crate::error::ClipKnowError::Llm(m))
            && text::contains(m@, k)))),
{
    texts::lemma_contains_parts("拿上传凭证失败 HTTP "@, status, status);
    if let Some(d) = json::field(body, "data"@) {
        if let Some(k) = vision::missing_key(d, 0) {
            texts::lemma_contains_parts("上传凭证缺字段 "@, k, k);
        }
    }
}

/// The model that looks at videos is shown the video, with the frames for each second, and
/// told what to do: to answer the question, where there is one, which stands at the end.
pub proof fn law_looks_are_asked_for(
    model: Seq<char>,
    reference: Seq<char>,
    fps: Tree,
    question: Option<Seq<char>>,
)
    ensures
        ({
            let t = vision::vision_body(model, reference, fps, question);
            &&& telling::words(t, "model"@, model)
            &&& telling::counts(t, "max_tokens"@, 2048)
            &&& telling::tells(t, "stream"@, Tree::Bool(false))
            &&& json::field(t, "messages"@) matches Some(Tree::Array(v)) && v.len() == 1 && {
                &&& telling::words(v[0], "role"@, "user"@)
                &&& json::field(v[0], "content"@) matches Some(Tree::Array(c)) && c.len() == 2 && {
                    &&& telling::words(c[0], "type"@, "video_url"@)
                    &&& reading::below(json::field(c[0], "video_url"@), "url"@) == Some(
                        Tree::Str(reference),
                    )
                    &&& telling::tells(c[0], "fps"@, fps)
                    &&& telling::words(c[1], "type"@, "text"@)
                    &&& json::field(c[1], "text"@) matches Some(Tree::Str(p)) && match question {
                        Some(q) => text::occurs_at(
                            p,
                            text::trim(q),
                            p.len() - text::trim(q).len(),
                        ) && text::occurs_at(p, vision::TARGETED_PROMPT@, 0),
                        None => p == crate::content::dossier::DOSSIER_PROMPT@,
                    }
                }
            }
        }),
{
    lemma_look_names();
    reveal_with_fuel(json::field_from, 5);
    let m = vision::look_message(reference, fps, question);
    if let Some(q) = question {
        let p = vision::vision_prompt(question);
        let x = text::trim(q);
        let h = vision::TARGETED_PROMPT@;
        assert(p.subrange(p.len() - x.len(), p.len() as int) =~= x);
        assert(p.subrange(0, h.len() as int) =~= h);
    }
}

proof fn lemma_look_names()
    ensures
        "type"@ != "video_url"@,
        "type"@ != "fps"@,
        "video_url"@ != "fps"@,
        "type"@ != "text"@,
        "role"@ != "content"@,
        "model"@ != "messages"@,
        "model"@ != "max_tokens"@,
        "messages"@ != "max_tokens"@,
        "model"@ != "stream"@,
        "messages"@ != "stream"@,
        "max_tokens"@ != "stream"@,
{
    reveal_strlit("content");
    reveal_strlit("fps");
    reveal_strlit("max_tokens");
    reveal_strlit("messages");
    reveal_strlit("model");
    reveal_strlit("role");
    reveal_strlit("stream");
    reveal_strlit("text");
    reveal_strlit("type");
    reveal_strlit("video_url");
    assert("type"@.len() != "video_url"@.len());
    assert("type"@.len() != "fps"@.len());
    assert("video_url"@.len() != "fps"@.len());
    assert("type"@[1] != "text"@[1]);
    assert("role"@.len() != "content"@.len());
    assert("model"@.len() != "messages"@.len());
    assert("model"@.len() != "max_tokens"@.len());
    assert("messages"@.len() != "max_tokens"@.len());
    assert("model"@.len() != "stream"@.len());
    assert("messages"@.len() != "stream"@.len());
    assert("max_tokens"@.len() != "stream"@.len());
}

/// What a look came to is what the answer counts: pictures as pictures, words as words; and
/// where it does not tell them apart, all that went in is counted as words.
pub proof fn law_looks_are_counted(body: Tree, n: u32, m: u32, k: u32, all: u32)
    ensures
        ({
            let usage = json::field(body, "usage"@);
            let parts = reading::below(usage, "prompt_tokens_details"@);
            let u = vision::usage_of(body);
            &&& is_count(reading::below(parts, "video_tokens"@), n as int) && is_count(
                reading::below(parts, "text_tokens"@),
                m as int,
            ) && n > 0 ==> u.video_tokens == n && u.text_tokens == m
            &&& reading::absent(parts) && is_count(reading::below(usage, "prompt_tokens"@), all as int)
                ==> u.video_tokens == 0 && u.text_tokens == all
            &&& is_count(reading::below(usage, "completion_tokens"@), k as int) ==> u.output_tokens
                == k
            &&& reading::absent(reading::below(usage, "completion_tokens"@)) ==> u.output_tokens == 0
        }),
{
}

/// What a model wrote of a video is what the message of its first choice says.
pub proof fn law_looks_are_read(body: Tree, choices: Seq<Tree>, s: Seq<char>)
    requires
        json::field(body, "choices"@) == Some(Tree::Array(choices)),
        choices.len() > 0,
    ensures
        reading::below(json::field(choices[0], "message"@), "content"@) == Some(Tree::Str(s))
            ==> vision::written(body) == Some(s),
        reading::absent(reading::below(json::field(choices[0], "message"@), "content"@))
            ==> vision::written(body) is None,
{
}

/// How long a video runs is estimated from its size, to the nearest second, and at least as
/// one.
pub proof fn law_lengths_are_estimated(size: int)
    requires
        0 <= size,
    ensures
        vision::estimated_secs(size) >= 1,
        size >= 50_000 ==> -50_000 <= vision::estimated_secs(size) * 100_000 - size <= 50_000,
{
}

/// A failure that would come again is one of four: what is not allowed, what is no video,
/// and what is too big to be sent up or down.
pub proof fn law_lasting_failures(a: Seq<char>, b: Seq<char>)
    ensures
        vision::lasting(a) ==> text::contains(a, "DataInspectionFailed"@) || text::contains(
            a,
            "Invalid video file"@,
        ) || text::contains(a, "超过上传上限"@) || text::contains(a, "下载上限"@),
        vision::lasting(a + "DataInspectionFailed"@ + b),
        vision::lasting(a + "Invalid video file"@ + b),
        vision::lasting(a + "超过上传上限"@ + b),
        vision::lasting(a + "下载上限"@ + b),
{
    texts::lemma_contains_middle(a, "DataInspectionFailed"@, b);
    texts::lemma_contains_middle(a, "Invalid video file"@, b);
    texts::lemma_contains_middle(a, "超过上传上限"@, b);
    texts::lemma_contains_middle(a, "下载上限"@, b);
}

} // verus!
