//! Language models: what is sent to them, and what their answers mean.
//!
//! The types at the top belong to no supplier. What a supplier calls things is
//! known in this file alone: Anthropic has blocks of content and a system prompt
//! of its own; DeepSeek, like most others, has messages and tool calls whose
//! arguments are JSON in a string.

use vstd::prelude::*;
use crate::error::{ClipKnowError, Result};
use crate::json;
use crate::json::{array, boolean, entry, natural, object, string, Json, NumTree, Tree};
use crate::outside;
use crate::outside::read_json;
use crate::text;
use crate::text::{joined, lowered, same};

verus! {

/// How much a model may write, thinking included.
pub const DEFAULT_MAX_TOKENS: u32 = 16000;

/// The model of DeepSeek that is used unless another is named.
pub const DEEPSEEK_DEFAULT_MODEL: &'static str = "deepseek-chat";

/// The most that Anthropic may be asked to write in one answer.
pub const ANTHROPIC_MAX_TOKENS: u32 = 16_000;

/// The most that DeepSeek may be asked to write in one answer.
pub const DEEPSEEK_MAX_TOKENS: u32 = 8192;

/// What came of a tool. A failure is an answer too: the model has to read it
/// and go another way.
#[derive(Debug, Clone)]
pub struct ToolResult {
    /// The identifier of the call that this answers.
    pub call_id: String,
    pub content: String,
    pub is_error: bool,
}

/// A message of a conversation.
#[derive(Debug)]
pub enum Msg {
    User(String),
    /// A model can speak and ask for tools in one message.
    Assistant { text: String, reasoning: String, tool_calls: Vec<ToolCall> },
    Tool(ToolResult),
}

impl Msg {
    /// What a user says.
    pub fn user(text: &str) -> (r: Msg)
        ensures
            r matches Msg::User(t) && t@ == text@,
    {
        Msg::User(text.to_owned())
    }

    /// What a model says.
    pub fn assistant(text: &str) -> (r: Msg)
        ensures
            r matches Msg::Assistant { text: t, reasoning, tool_calls } && t@ == text@
                && reasoning@ == ""@ && tool_calls@.len() == 0,
    {
        Msg::Assistant {
            text: text.to_owned(),
            reasoning: "".to_owned(),
            tool_calls: Vec::new(),
        }
    }

    /// What a model says while it asks for tools.
    pub fn assistant_with_tools(text: &str, tool_calls: Vec<ToolCall>) -> (r: Msg)
        ensures
            r matches Msg::Assistant { text: t, reasoning, tool_calls: c } && t@ == text@
                && reasoning@ == ""@ && c == tool_calls,
    {
        Msg::Assistant { text: text.to_owned(), reasoning: "".to_owned(), tool_calls }
    }

    /// What came of a tool.
    pub fn tool_result(r: ToolResult) -> (m: Msg)
        ensures
            m == Msg::Tool(r),
    {
        Msg::Tool(r)
    }
}

/// A tool that a model may ask for. The parameters are a JSON schema.
#[derive(Debug)]
pub struct ToolDef {
    pub name: String,
    pub description: String,
    pub params: Json,
}

/// A tool that a model asks for.
#[derive(Debug)]
pub struct ToolCall {
    /// The identifier with which the answer has to come back.
    pub id: String,
    pub name: String,
    pub args: Json,
}

/// What a call asks for.
pub struct CallView {
    pub id: Seq<char>,
    pub name: Seq<char>,
    pub args: Tree,
}

impl ToolCall {
    pub open spec fn view(&self) -> CallView {
        CallView { id: self.id@, name: self.name@, args: self.args@ }
    }
}

/// What a list of calls asks for.
pub open spec fn calls_view(v: Seq<ToolCall>) -> Seq<CallView> {
    Seq::new(v.len(), |i: int| v[i]@)
}

/// What a model is asked.
#[derive(Debug)]
pub struct ModelRequest {
    pub system: String,
    pub messages: Vec<Msg>,
    pub max_tokens: u32,
    /// The tools it may ask for; none for a plain question.
    pub tools: Vec<ToolDef>,
}

/// Why a model stopped.
#[derive(Debug, Clone, PartialEq, Eq)]
pub enum StopReason {
    EndTurn,
    MaxTokens,
    Refusal,
    ToolUse,
    Other(String),
}

/// Why a model stopped.
pub enum StopView {
    EndTurn,
    MaxTokens,
    Refusal,
    ToolUse,
    Other(Seq<char>),
}

impl StopReason {
    pub open spec fn view(&self) -> StopView {
        match self {
            StopReason::EndTurn => StopView::EndTurn,
            StopReason::MaxTokens => StopView::MaxTokens,
            StopReason::Refusal => StopView::Refusal,
            StopReason::ToolUse => StopView::ToolUse,
            StopReason::Other(s) => StopView::Other(s@),
        }
    }
}

/// Somebody who answers like a language model.
pub trait LlmClient {
    fn complete(&self, req: &ModelRequest) -> Result<ModelResponse>;

    fn model_name(&self) -> &str;

    /// The most that may be asked for in one answer.
    fn max_tokens_limit(&self) -> u32;
}

/// What a model answered. It can speak and ask for tools at once; it is done
/// when it asks for none.
#[derive(Debug)]
pub struct ModelResponse {
    pub text: String,
    pub tool_calls: Vec<ToolCall>,
    pub stop_reason: StopReason,
    pub input_tokens: u32,
    pub output_tokens: u32,
}

/// What a model answered.
pub struct ResponseView {
    pub text: Seq<char>,
    pub tool_calls: Seq<CallView>,
    pub stop_reason: StopView,
    pub input_tokens: int,
    pub output_tokens: int,
}

impl ModelResponse {
    pub open spec fn view(&self) -> ResponseView {
        ResponseView {
            text: self.text@,
            tool_calls: calls_view(self.tool_calls@),
            stop_reason: self.stop_reason@,
            input_tokens: self.input_tokens as int,
            output_tokens: self.output_tokens as int,
        }
    }
}

/// A text, or the empty text where there is none.
pub open spec fn or_empty(t: Option<Seq<char>>) -> Seq<char> {
    match t {
        Some(s) => s,
        None => seq![],
    }
}

/// A count of tokens, cut to 32 bits; zero where there is none.
pub open spec fn token_count(body: Tree, key: Seq<char>) -> int {
    match json::then_u64(json::then_field(json::field(body, "usage"@), key)) {
        Some(n) => n % 0x1_0000_0000,
        None => 0,
    }
}

fn tokens(body: &Json, key: &str) -> (r: u32)
    ensures
        r == token_count(body@, key@),
{
    let n = match body.get("usage") {
        Some(u) => match u.get(key) {
            Some(j) => j.as_u64(),
            None => None,
        },
        None => None,
    };
    match n {
        Some(n) => (n % 0x1_0000_0000) as u32,
        None => 0,
    }
}

/// What a failed request to a model means, given how its status is written.
pub open spec fn llm_refusal(status: Seq<char>, body: Tree) -> Seq<char> {
    "HTTP "@ + status + ": "@ + (match json::then_str(
        json::then_field(json::field(body, "error"@), "message"@),
    ) {
        Some(m) => m,
        None => "(响应里没有 error.message)"@,
    })
}

/// The answer to a request, or the error that it means. `success` says whether
/// the status is a good one, and `status` is how it is written.
pub fn check_answer(success: bool, status: &str, body: Json) -> (r: Result<Json>)
    ensures
        if success {
            r matches Ok(j) && j == body
        } else {
            r matches Err(ClipKnowError::Llm(m)) && m@ == llm_refusal(status@, body@)
        },
{
    if success {
        return Ok(body);
    }
    let said = match body.get("error") {
        Some(e) => match e.get("message") {
            Some(j) => j.as_str(),
            None => None,
        },
        None => None,
    };
    let message = match said {
        Some(m) => m,
        None => "(响应里没有 error.message)",
    };
    Err(ClipKnowError::Llm("HTTP ".to_owned().concat(status).concat(": ").concat(message)))
}

// ---------------------------------------------------------------------------
// Anthropic
// ---------------------------------------------------------------------------

/// What is needed to ask Anthropic.
#[derive(Debug, Clone)]
pub struct AnthropicClient {
    pub api_key: String,
    pub model: String,
}

/// A message as Anthropic reads it.
pub open spec fn anthropic_message(m: Msg) -> Tree {
    match m {
        Msg::User(t) => Tree::Object(
            seq![("role"@, Tree::Str("user"@)), ("content"@, Tree::Str(t@))],
        ),
        Msg::Assistant { text, reasoning, tool_calls } => Tree::Object(
            seq![("role"@, Tree::Str("assistant"@)), ("content"@, Tree::Str(text@))],
        ),
        Msg::Tool(r) => Tree::Object(
            seq![
                ("role"@, Tree::Str("user"@)),
                ("content"@, Tree::Str("[未支持的工具结果 "@ + r.call_id@ + "]"@)),
            ],
        ),
    }
}

/// The messages of a conversation as Anthropic reads them.
pub open spec fn anthropic_messages(v: Seq<Msg>) -> Seq<Tree> {
    Seq::new(v.len(), |i: int| anthropic_message(v[i]))
}

/// A request as Anthropic reads it. Parameters of sampling are not among it:
/// the model refuses them.
pub open spec fn anthropic_body(model: Seq<char>, req: ModelRequest) -> Tree {
    Tree::Object(
        seq![
            ("model"@, Tree::Str(model)),
            ("max_tokens"@, Tree::Number(NumTree::Int(req.max_tokens as int))),
            ("system"@, Tree::Str(req.system@)),
            ("messages"@, Tree::Array(anthropic_messages(req.messages@))),
        ],
    )
}

/// Whether a request has to do with tools.
pub open spec fn uses_tools(req: ModelRequest) -> bool {
    req.tools@.len() > 0 || exists|i: int|
        0 <= i < req.messages@.len() && (#[trigger] req.messages@[i]) is Tool
}

fn to_anthropic_message(m: &Msg) -> (r: Json)
    ensures
        r@ == anthropic_message(*m),
{
    let (role, content) = match m {
        Msg::User(t) => ("user", t.clone()),
        Msg::Assistant { text, reasoning, tool_calls } => ("assistant", text.clone()),
        Msg::Tool(r) => (
            "user",
            "[未支持的工具结果 ".to_owned().concat(r.call_id.as_str()).concat("]"),
        ),
    };
    let r = object(vec![entry("role", string(role)), entry("content", string(content.as_str()))]);
    assert(r@->Object_0 =~= anthropic_message(*m)->Object_0);
    r
}

impl AnthropicClient {
    /// What is needed to ask Anthropic.
    pub fn new(api_key: String, model: String) -> (r: Self)
        ensures
            r.api_key == api_key,
            r.model == model,
    {
        AnthropicClient { api_key, model }
    }

    /// What is needed to ask Anthropic, from the settings of the environment. The
    /// model has to be named.
    pub fn from_settings(key: Option<String>, model: Option<String>) -> (r: Result<Self>)
        ensures
            match (key, model) {
                (None, _) => r matches Err(ClipKnowError::MissingEnv(n)) && n@
                    == "ANTHROPIC_API_KEY"@,
                (Some(_), None) => r matches Err(ClipKnowError::MissingEnv(n)) && n@
                    == "ANTHROPIC_MODEL"@,
                (Some(k), Some(m)) => r matches Ok(c) && c.api_key == k && c.model == m,
            },
    {
        match (key, model) {
            (None, _) => Err(ClipKnowError::MissingEnv("ANTHROPIC_API_KEY")),
            (Some(_), None) => Err(ClipKnowError::MissingEnv("ANTHROPIC_MODEL")),
            (Some(k), Some(m)) => Ok(AnthropicClient::new(k, m)),
        }
    }

    /// The name of the model.
    pub fn model_name(&self) -> (r: &str)
        ensures
            r@ == self.model@,
    {
        self.model.as_str()
    }

    /// The most that may be asked for in one answer.
    pub fn max_tokens_limit(&self) -> (r: u32)
        ensures
            r == ANTHROPIC_MAX_TOKENS,
    {
        ANTHROPIC_MAX_TOKENS
    }

    /// Refuses a request that has to do with tools: to leave the tools out
    /// would get an answer that looks right and was made without them.
    pub fn check_request(&self, req: &ModelRequest) -> (r: Result<()>)
        ensures
            if uses_tools(*req) {
                r matches Err(ClipKnowError::Llm(m)) && m@
                    == "Anthropic 的工具调用这一版还没实现，请用 --provider deepseek"@
            } else {
                r is Ok
            },
    {
        let mut found: bool = req.tools.len() > 0;
        let mut i: usize = 0;
        while i < req.messages.len()
            invariant
                i <= req.messages@.len(),
                found == (req.tools@.len() > 0 || exists|k: int|
                    0 <= k < i && (#[trigger] req.messages@[k]) is Tool),
            decreases req.messages@.len() - i,
        {
            if let Msg::Tool(_) = &req.messages[i] {
                assert(req.messages@[i as int] is Tool);
                found = true;
            }
            i = i + 1;
        }
        if found {
            Err(
                ClipKnowError::Llm(
                    "Anthropic 的工具调用这一版还没实现，请用 --provider deepseek".to_owned(),
                ),
            )
        } else {
            Ok(())
        }
    }

    /// A request as Anthropic reads it.
    pub fn to_anthropic_body(&self, req: &ModelRequest) -> (r: Json)
        ensures
            r@ == anthropic_body(self.model@, *req),
    {
        let mut messages: Vec<Json> = Vec::new();
        let mut i: usize = 0;
        while i < req.messages.len()
            invariant
                i <= req.messages@.len(),
                json::trees(messages@) == anthropic_messages(req.messages@).take(i as int),
            decreases req.messages@.len() - i,
        {
            let ghost before = json::trees(messages@);
            let m = to_anthropic_message(&req.messages[i]);
            messages.push(m);
            i = i + 1;
            assert(json::trees(messages@) =~= before.push(m@));
            assert(anthropic_messages(req.messages@).take(i as int) =~= before.push(m@));
        }
        assert(anthropic_messages(req.messages@).take(i as int) =~= anthropic_messages(
            req.messages@,
        ));
        let r = object(
            vec![
                entry("model", string(self.model.as_str())),
                entry("max_tokens", natural(req.max_tokens as u64)),
                entry("system", string(req.system.as_str())),
                entry("messages", array(messages)),
            ],
        );
        assert(r@->Object_0 =~= anthropic_body(self.model@, *req)->Object_0);
        r
    }
}

/// Why Anthropic says that it stopped.
pub open spec fn anthropic_stop(body: Tree) -> StopView {
    match json::then_str(json::field(body, "stop_reason"@)) {
        Some(s) => if s == "end_turn"@ {
            StopView::EndTurn
        } else if s == "max_tokens"@ {
            StopView::MaxTokens
        } else if s == "refusal"@ {
            StopView::Refusal
        } else {
            StopView::Other(s)
        },
        None => StopView::Other("missing"@),
    }
}

/// The text of a block of content, where it is a block of text.
pub open spec fn block_text(b: Tree) -> Option<Seq<char>> {
    if json::then_str(json::field(b, "type"@)) == Some("text"@) {
        json::then_str(json::field(b, "text"@))
    } else {
        None
    }
}

/// The texts of the first `n` blocks of content.
pub open spec fn block_texts(a: Seq<Tree>, n: int) -> Seq<Seq<char>>
    decreases n,
{
    if n <= 0 || n > a.len() {
        seq![]
    } else {
        match block_text(a[n - 1]) {
            Some(s) => block_texts(a, n - 1).push(s),
            None => block_texts(a, n - 1),
        }
    }
}

/// What Anthropic says, without what it thought.
pub open spec fn anthropic_text(body: Tree) -> Seq<char> {
    match json::then_array(json::field(body, "content"@)) {
        Some(a) => text::join(block_texts(a, a.len() as int), ""@),
        None => seq![],
    }
}

/// What Anthropic answered.
pub open spec fn anthropic_response(body: Tree) -> ResponseView {
    ResponseView {
        text: anthropic_text(body),
        tool_calls: seq![],
        stop_reason: anthropic_stop(body),
        input_tokens: token_count(body, "input_tokens"@),
        output_tokens: token_count(body, "output_tokens"@),
    }
}

fn read_anthropic_text(body: &Json) -> (r: String)
    ensures
        r@ == anthropic_text(body@),
{
    let list = match body.get("content") {
        Some(j) => j.as_array(),
        None => None,
    };
    match list {
        Some(a) => {
            let mut found: Vec<String> = Vec::new();
            let mut i: usize = 0;
            let ghost all = json::trees(a@);
            assert(text::texts(found@) =~= block_texts(all, 0));
            while i < a.len()
                invariant
                    i <= a@.len(),
                    all == json::trees(a@),
                    text::texts(found@) == block_texts(all, i as int),
                decreases a@.len() - i,
            {
                assert(all[i as int] == a@[i as int]@);
                let ghost before = text::texts(found@);
                let kind = match a[i].get("type") {
                    Some(j) => j.as_str(),
                    None => None,
                };
                let is_text: bool = match kind {
                    Some(k) => same(k, "text"),
                    None => false,
                };
                if is_text {
                    if let Some(j) = a[i].get("text") {
                        if let Some(s) = j.as_str() {
                            found.push(s.to_owned());
                            assert(text::texts(found@) =~= before.push(s@));
                        }
                    }
                }
                i = i + 1;
            }
            joined(&found, "")
        },
        None => String::new(),
    }
}

/// What an answer of Anthropic means. A refusal is an error: there is nothing
/// to read in it.
pub fn parse_anthropic_response(body: &Json) -> (r: Result<ModelResponse>)
    ensures
        if anthropic_stop(body@) is Refusal {
            r matches Err(ClipKnowError::LlmRefusal)
        } else {
            r matches Ok(m) && m@ == anthropic_response(body@)
        },
{
    let said = match body.get("stop_reason") {
        Some(j) => j.as_str(),
        None => None,
    };
    let stop_reason = match said {
        Some(s) => if same(s, "end_turn") {
            StopReason::EndTurn
        } else if same(s, "max_tokens") {
            StopReason::MaxTokens
        } else if same(s, "refusal") {
            return Err(ClipKnowError::LlmRefusal);
        } else {
            StopReason::Other(s.to_owned())
        },
        None => StopReason::Other("missing".to_owned()),
    };
    let r = ModelResponse {
        text: read_anthropic_text(body),
        tool_calls: Vec::new(),
        stop_reason,
        input_tokens: tokens(body, "input_tokens"),
        output_tokens: tokens(body, "output_tokens"),
    };
    assert(r@.tool_calls =~= seq![]);
    Ok(r)
}

// ---------------------------------------------------------------------------
// DeepSeek
// ---------------------------------------------------------------------------

/// What is needed to ask DeepSeek.
#[derive(Debug, Clone)]
pub struct DeepSeekClient {
    pub api_key: String,
    pub model: String,
    pub base_url: String,
}

/// A call of a tool as DeepSeek reads it: the arguments are JSON in a string.
pub open spec fn call_tree(c: ToolCall) -> Tree {
    Tree::Object(
        seq![
            ("id"@, Tree::Str(c.id@)),
            ("type"@, Tree::Str("function"@)),
            (
                "function"@,
                Tree::Object(
                    seq![
                        ("name"@, Tree::Str(c.name@)),
                        ("arguments"@, Tree::Str(outside::json_text(c.args@))),
                    ],
                ),
            ),
        ],
    )
}

/// Calls of tools as DeepSeek reads them.
pub open spec fn call_trees(v: Seq<ToolCall>) -> Seq<Tree> {
    Seq::new(v.len(), |i: int| call_tree(v[i]))
}

/// A message as DeepSeek reads it. What came of a tool is a message of its own.
pub open spec fn openai_message(m: Msg) -> Tree {
    match m {
        Msg::User(t) => Tree::Object(
            seq![("role"@, Tree::Str("user"@)), ("content"@, Tree::Str(t@))],
        ),
        Msg::Assistant { text, reasoning, tool_calls } => Tree::Object(
            if tool_calls@.len() == 0 {
                seq![("role"@, Tree::Str("assistant"@)), ("content"@, Tree::Str(text@))]
            } else {
                seq![
                    ("role"@, Tree::Str("assistant"@)),
                    ("content"@, Tree::Str(text@)),
                    ("tool_calls"@, Tree::Array(call_trees(tool_calls@))),
                ]
            },
        ),
        Msg::Tool(r) => Tree::Object(
            seq![
                ("role"@, Tree::Str("tool"@)),
                ("tool_call_id"@, Tree::Str(r.call_id@)),
                ("content"@, Tree::Str(r.content@)),
            ],
        ),
    }
}

/// The messages of a conversation as DeepSeek reads them: the system prompt is
/// the first.
pub open spec fn openai_messages(system: Seq<char>, v: Seq<Msg>) -> Seq<Tree> {
    seq![
        Tree::Object(seq![("role"@, Tree::Str("system"@)), ("content"@, Tree::Str(system))]),
    ] + Seq::new(v.len(), |i: int| openai_message(v[i]))
}

/// A tool as DeepSeek reads it.
pub open spec fn tool_tree(t: ToolDef) -> Tree {
    Tree::Object(
        seq![
            ("type"@, Tree::Str("function"@)),
            (
                "function"@,
                Tree::Object(
                    seq![
                        ("name"@, Tree::Str(t.name@)),
                        ("description"@, Tree::Str(t.description@)),
                        ("parameters"@, t.params@),
                    ],
                ),
            ),
        ],
    )
}

/// Tools as DeepSeek reads them.
pub open spec fn tool_trees(v: Seq<ToolDef>) -> Seq<Tree> {
    Seq::new(v.len(), |i: int| tool_tree(v[i]))
}

/// A request as DeepSeek reads it. Tools are named only where there are any,
/// and no more is asked for than DeepSeek gives.
pub open spec fn openai_body(model: Seq<char>, req: ModelRequest) -> Tree {
    Tree::Object(
        seq![
            ("model"@, Tree::Str(model)),
            (
                "max_tokens"@,
                Tree::Number(
                    NumTree::Int(
                        if req.max_tokens <= DEEPSEEK_MAX_TOKENS {
                            req.max_tokens as int
                        } else {
                            DEEPSEEK_MAX_TOKENS as int
                        },
                    ),
                ),
            ),
            ("messages"@, Tree::Array(openai_messages(req.system@, req.messages@))),
            ("stream"@, Tree::Bool(false)),
        ] + (if req.tools@.len() > 0 {
            seq![("tools"@, Tree::Array(tool_trees(req.tools@)))]
        } else {
            seq![]
        }),
    )
}

/// Whether a call that was read from an answer comes back the same when it is
/// read again as it is sent.
pub open spec fn comes_back(c: ToolCall) -> bool {
    outside::written_back(c.args@) ==> call_view(call_tree(c)) == Some(c@)
}

fn to_call(c: &ToolCall) -> (r: Json)
    ensures
        r@ == call_tree(*c),
        comes_back(*c),
{
    let arguments = c.args.text();
    let function = object(
        vec![
            entry("name", string(c.name.as_str())),
            entry("arguments", string(arguments.as_str())),
        ],
    );
    let ghost inner = seq![
        ("name"@, Tree::Str(c.name@)),
        ("arguments"@, Tree::Str(outside::json_text(c.args@))),
    ];
    assert(function@->Object_0 =~= inner);
    let r = object(
        vec![
            entry("id", string(c.id.as_str())),
            entry("type", string("function")),
            entry("function", function),
        ],
    );
    assert(r@->Object_0 =~= call_tree(*c)->Object_0);
    proof {
        lemma_call_fields(*c);
    }
    r
}

proof fn lemma_call_fields(c: ToolCall)
    ensures
        call_id(call_tree(c)) == c.id@,
        call_name(call_tree(c)) == c.name@,
        call_arguments(call_tree(c)) == outside::json_text(c.args@),
{
    reveal_strlit("id");
    reveal_strlit("type");
    reveal_strlit("function");
    reveal_strlit("name");
    reveal_strlit("arguments");
    assert("id"@.len() != "function"@.len());
    assert("type"@.len() != "function"@.len());
    assert("name"@.len() != "arguments"@.len());
    let o = call_tree(c)->Object_0;
    assert(json::field_from(o, "function"@, 2) == Some(o[2].1));
    assert(json::field_from(o, "function"@, 1) == Some(o[2].1));
    let f = o[2].1->Object_0;
    assert(json::field_from(f, "arguments"@, 1) == Some(f[1].1));
}

fn to_openai_message(m: &Msg) -> (r: Json)
    ensures
        r@ == openai_message(*m),
        m matches Msg::Assistant { text, reasoning, tool_calls } ==> forall|k: int|
            0 <= k < tool_calls@.len() ==> comes_back(#[trigger] tool_calls@[k]),
{
    let fields = match m {
        Msg::User(t) => vec![entry("role", string("user")), entry("content", string(t.as_str()))],
        Msg::Assistant { text, reasoning, tool_calls } => {
            let mut fields = vec![
                entry("role", string("assistant")),
                entry("content", string(text.as_str())),
            ];
            let mut calls: Vec<Json> = Vec::new();
            let mut i: usize = 0;
            while i < tool_calls.len()
                invariant
                    i <= tool_calls@.len(),
                    json::trees(calls@) == call_trees(tool_calls@).take(i as int),
                    forall|k: int| 0 <= k < i ==> comes_back(#[trigger] tool_calls@[k]),
                decreases tool_calls@.len() - i,
            {
                let ghost before = json::trees(calls@);
                let c = to_call(&tool_calls[i]);
                calls.push(c);
                i = i + 1;
                assert(json::trees(calls@) =~= before.push(c@));
                assert(call_trees(tool_calls@).take(i as int) =~= before.push(c@));
            }
            assert(call_trees(tool_calls@).take(i as int) =~= call_trees(tool_calls@));
            if tool_calls.len() > 0 {
                fields.push(entry("tool_calls", array(calls)));
            }
            fields
        },
        Msg::Tool(r) => vec![
            entry("role", string("tool")),
            entry("tool_call_id", string(r.call_id.as_str())),
            entry("content", string(r.content.as_str())),
        ],
    };
    let r = object(fields);
    assert(r@->Object_0 =~= openai_message(*m)->Object_0);
    r
}

fn to_tool(t: &ToolDef) -> (r: Json)
    ensures
        r@ == tool_tree(*t),
{
    let function = object(
        vec![
            entry("name", string(t.name.as_str())),
            entry("description", string(t.description.as_str())),
            entry("parameters", t.params.copy()),
        ],
    );
    assert(function@->Object_0 =~= seq![
        ("name"@, Tree::Str(t.name@)),
        ("description"@, Tree::Str(t.description@)),
        ("parameters"@, t.params@),
    ]);
    let r = object(vec![entry("type", string("function")), entry("function", function)]);
    assert(r@->Object_0 =~= tool_tree(*t)->Object_0);
    r
}

fn to_openai_messages(req: &ModelRequest) -> (r: Vec<Json>)
    ensures
        json::trees(r@) == openai_messages(req.system@, req.messages@),
        calls_come_back(req.messages@),
{
    let first = object(
        vec![entry("role", string("system")), entry("content", string(req.system.as_str()))],
    );
    let ghost head = Tree::Object(
        seq![("role"@, Tree::Str("system"@)), ("content"@, Tree::Str(req.system@))],
    );
    assert(first@->Object_0 =~= head->Object_0);
    let mut r: Vec<Json> = vec![first];
    let ghost all = openai_messages(req.system@, req.messages@);
    let mut i: usize = 0;
    assert(json::trees(r@) =~= all.take(1));
    while i < req.messages.len()
        invariant
            i <= req.messages@.len(),
            all == openai_messages(req.system@, req.messages@),
            json::trees(r@) == all.take(i + 1),
            forall|k: int|
                0 <= k < i ==> (#[trigger] req.messages@[k] matches Msg::Assistant {
                    text,
                    reasoning,
                    tool_calls,
                } ==> forall|j: int|
                    0 <= j < tool_calls@.len() ==> comes_back(#[trigger] tool_calls@[j])),
        decreases req.messages@.len() - i,
    {
        let ghost before = json::trees(r@);
        let m = to_openai_message(&req.messages[i]);
        r.push(m);
        i = i + 1;
        assert(json::trees(r@) =~= before.push(m@));
        assert(all.take(i + 1) =~= before.push(m@));
    }
    assert(all.take(i + 1) =~= all);
    r
}

/// Whether the calls of tools in a conversation come back the same when they
/// are read again as they are sent.
pub open spec fn calls_come_back(v: Seq<Msg>) -> bool {
    forall|k: int|
        0 <= k < v.len() ==> (#[trigger] v[k] matches Msg::Assistant {
            text,
            reasoning,
            tool_calls,
        } ==> forall|j: int|
            0 <= j < tool_calls@.len() ==> comes_back(#[trigger] tool_calls@[j]))
}

impl DeepSeekClient {
    /// What is needed to ask DeepSeek.
    pub fn new(api_key: String, model: String) -> (r: Self)
        ensures
            r.api_key == api_key,
            r.model == model,
            r.base_url@ == "https://api.deepseek.com"@,
    {
        DeepSeekClient { api_key, model, base_url: "https://api.deepseek.com".to_owned() }
    }

    /// What is needed to ask DeepSeek, from the settings of the environment.
    pub fn from_settings(key: Option<String>, model: Option<String>) -> (r: Result<Self>)
        ensures
            match key {
                Some(k) => r matches Ok(c) && c.api_key == k && c.model@ == (match model {
                    Some(m) => m@,
                    None => DEEPSEEK_DEFAULT_MODEL@,
                }) && c.base_url@ == "https://api.deepseek.com"@,
                None => r matches Err(ClipKnowError::MissingEnv(n)) && n@ == "DEEPSEEK_API_KEY"@,
            },
    {
        match key {
            Some(k) => Ok(
                DeepSeekClient::new(
                    k,
                    match model {
                        Some(m) => m,
                        None => DEEPSEEK_DEFAULT_MODEL.to_owned(),
                    },
                ),
            ),
            None => Err(ClipKnowError::MissingEnv("DEEPSEEK_API_KEY")),
        }
    }

    /// Where requests go to.
    pub fn endpoint(&self) -> (r: String)
        ensures
            r@ == self.base_url@ + "/chat/completions"@,
    {
        self.base_url.clone().concat("/chat/completions")
    }

    /// The name of the model.
    pub fn model_name(&self) -> (r: &str)
        ensures
            r@ == self.model@,
    {
        self.model.as_str()
    }

    /// The most that may be asked for in one answer.
    pub fn max_tokens_limit(&self) -> (r: u32)
        ensures
            r == DEEPSEEK_MAX_TOKENS,
    {
        DEEPSEEK_MAX_TOKENS
    }

    /// A request as DeepSeek reads it. The calls of tools in it, where they were
    /// themselves read from an answer, mean the same as they did there.
    pub fn to_openai_body(&self, req: &ModelRequest) -> (r: Json)
        ensures
            r@ == openai_body(self.model@, *req),
            calls_come_back(req.messages@),
    {
        let messages = to_openai_messages(req);
        let limit: u32 = self.max_tokens_limit();
        let max: u32 = if req.max_tokens <= limit { req.max_tokens } else { limit };
        let mut fields = vec![
            entry("model", string(self.model.as_str())),
            entry("max_tokens", natural(max as u64)),
            entry("messages", array(messages)),
            entry("stream", boolean(false)),
        ];
        if req.tools.len() > 0 {
            let mut tools: Vec<Json> = Vec::new();
            let mut i: usize = 0;
            while i < req.tools.len()
                invariant
                    i <= req.tools@.len(),
                    json::trees(tools@) == tool_trees(req.tools@).take(i as int),
                decreases req.tools@.len() - i,
            {
                let ghost before = json::trees(tools@);
                let t = to_tool(&req.tools[i]);
                tools.push(t);
                i = i + 1;
                assert(json::trees(tools@) =~= before.push(t@));
                assert(tool_trees(req.tools@).take(i as int) =~= before.push(t@));
            }
            assert(tool_trees(req.tools@).take(i as int) =~= tool_trees(req.tools@));
            fields.push(entry("tools", array(tools)));
        }
        let r = object(fields);
        assert(r@->Object_0 =~= openai_body(self.model@, *req)->Object_0);
        r
    }
}

/// The first choice in an answer.
pub open spec fn first_choice(body: Tree) -> Option<Tree> {
    match json::field(body, "choices"@) {
        Some(c) => match c {
            Tree::Array(a) => json::element(c, 0),
            Tree::Object(o) => json::field(c, "0"@),
            _ => None,
        },
        None => None,
    }
}

/// Why DeepSeek says that it stopped.
pub open spec fn openai_stop(choice: Tree) -> StopView {
    match json::then_str(json::field(choice, "finish_reason"@)) {
        Some(s) => if s == "stop"@ {
            StopView::EndTurn
        } else if s == "length"@ {
            StopView::MaxTokens
        } else if s == "content_filter"@ {
            StopView::Refusal
        } else if s == "tool_calls"@ {
            StopView::ToolUse
        } else {
            StopView::Other(s)
        },
        None => StopView::Other("missing"@),
    }
}

/// What DeepSeek says.
pub open spec fn openai_text(choice: Tree) -> Seq<char> {
    or_empty(json::then_str(json::then_field(json::field(choice, "message"@), "content"@)))
}

/// The calls of tools in an answer.
pub open spec fn openai_calls(choice: Tree) -> Seq<Tree> {
    match json::then_array(json::then_field(json::field(choice, "message"@), "tool_calls"@)) {
        Some(a) => a,
        None => seq![],
    }
}

/// The identifier of a call.
pub open spec fn call_id(c: Tree) -> Seq<char> {
    or_empty(json::then_str(json::field(c, "id"@)))
}

/// The tool that a call is for.
pub open spec fn call_name(c: Tree) -> Seq<char> {
    or_empty(json::then_str(json::then_field(json::field(c, "function"@), "name"@)))
}

/// The arguments of a call, as JSON in a string.
pub open spec fn call_arguments(c: Tree) -> Seq<char> {
    match json::then_str(json::then_field(json::field(c, "function"@), "arguments"@)) {
        Some(s) => s,
        None => "{}"@,
    }
}

/// What a call asks for; none where its arguments are not JSON.
pub open spec fn call_view(c: Tree) -> Option<CallView> {
    match outside::json_tree(call_arguments(c)) {
        Some(args) => Some(CallView { id: call_id(c), name: call_name(c), args }),
        None => None,
    }
}

/// Whether `v` is what the calls `a` ask for.
pub open spec fn are_calls(v: Seq<CallView>, a: Seq<Tree>) -> bool {
    v.len() == a.len() && forall|i: int| 0 <= i < a.len() ==> call_view(a[i]) == Some(#[trigger] v[i])
}

/// Whether `m` says of the first call without JSON arguments what is wrong with
/// them.
pub open spec fn complains(m: Seq<char>, a: Seq<Tree>) -> bool {
    exists|i: int|
        0 <= i < a.len() && call_view(a[i]) is None && (forall|j: int|
            0 <= j < i ==> call_view(#[trigger] a[j]) is Some) && m == #[trigger] complaint(a[i])
}

/// What is said of a call without JSON arguments.
pub open spec fn complaint(c: Tree) -> Seq<char> {
    "工具 "@ + call_name(c) + " 的参数不是合法 JSON: "@ + outside::json_complaint(call_arguments(c))
        + "（原文: "@ + call_arguments(c) + "）"@
}

/// What DeepSeek answered, given what the calls of tools in it ask for.
pub open spec fn openai_response(body: Tree, choice: Tree, calls: Seq<CallView>) -> ResponseView {
    ResponseView {
        text: openai_text(choice),
        tool_calls: calls,
        stop_reason: openai_stop(choice),
        input_tokens: token_count(body, "prompt_tokens"@),
        output_tokens: token_count(body, "completion_tokens"@),
    }
}

fn choice_of(body: &Json) -> (r: Option<&Json>)
    ensures
        json::opt_tree(r) == first_choice(body@),
{
    match body.get("choices") {
        Some(c) => match c {
            Json::Array(_) => c.at(0),
            Json::Object(_) => c.get("0"),
            _ => None,
        },
        None => None,
    }
}

fn nested<'a>(v: &'a Json, outer: &str, inner: &str) -> (r: Option<&'a Json>)
    ensures
        json::opt_tree(r) == json::then_field(json::field(v@, outer@), inner@),
{
    match v.get(outer) {
        Some(j) => j.get(inner),
        None => None,
    }
}

fn text_or_empty(j: Option<&Json>) -> (r: String)
    ensures
        r@ == or_empty(json::then_str(json::opt_tree(j))),
{
    match j {
        Some(v) => match v.as_str() {
            Some(s) => s.to_owned(),
            None => String::new(),
        },
        None => String::new(),
    }
}

/// What an answer of DeepSeek means, given what the calls of tools in it ask
/// for. A refusal is an error: there is nothing to read in it.
pub fn openai_answer(body: &Json, tool_calls: Vec<ToolCall>) -> (r: Result<ModelResponse>)
    ensures
        match first_choice(body@) {
            None => r matches Err(ClipKnowError::Llm(m)) && m@ == "响应里没有 choices[0]"@,
            Some(choice) => if openai_stop(choice) is Refusal {
                r matches Err(ClipKnowError::LlmRefusal)
            } else {
                r matches Ok(m) && m@ == openai_response(
                    body@,
                    choice,
                    calls_view(tool_calls@),
                )
            },
        },
{
    let choice = match choice_of(body) {
        Some(c) => c,
        None => {
            return Err(ClipKnowError::Llm("响应里没有 choices[0]".to_owned()));
        },
    };
    let said = match choice.get("finish_reason") {
        Some(j) => j.as_str(),
        None => None,
    };
    let stop_reason = match said {
        Some(s) => if same(s, "stop") {
            StopReason::EndTurn
        } else if same(s, "length") {
            StopReason::MaxTokens
        } else if same(s, "content_filter") {
            return Err(ClipKnowError::LlmRefusal);
        } else if same(s, "tool_calls") {
            StopReason::ToolUse
        } else {
            StopReason::Other(s.to_owned())
        },
        None => StopReason::Other("missing".to_owned()),
    };
    Ok(
        ModelResponse {
            text: text_or_empty(nested(choice, "message", "content")),
            tool_calls,
            stop_reason,
            input_tokens: tokens(body, "prompt_tokens"),
            output_tokens: tokens(body, "completion_tokens"),
        },
    )
}

fn read_call(c: &Json) -> (r: Result<ToolCall>)
    ensures
        match r {
            Ok(k) => call_view(c@) == Some(k@),
            Err(e) => call_view(c@) is None && (e matches ClipKnowError::Llm(m) && m@ == complaint(
                c@,
            )),
        },
{
    let id = text_or_empty(c.get("id"));
    let name = text_or_empty(nested(c, "function", "name"));
    let said = match nested(c, "function", "arguments") {
        Some(j) => j.as_str(),
        None => None,
    };
    let raw = match said {
        Some(s) => s,
        None => "{}",
    };
    match read_json(raw) {
        Ok(args) => Ok(ToolCall { id, name, args }),
        Err(why) => Err(
            ClipKnowError::Llm(
                "工具 ".to_owned().concat(name.as_str()).concat(" 的参数不是合法 JSON: ").concat(
                    why.as_str(),
                ).concat("（原文: ").concat(raw).concat("）"),
            ),
        ),
    }
}

/// What an answer of DeepSeek means. The arguments of a call are read from the
/// string they come in; where they are not JSON, that is the error.
pub fn parse_openai_response(body: &Json) -> (r: Result<ModelResponse>)
    ensures
        match first_choice(body@) {
            None => r matches Err(ClipKnowError::Llm(m)) && m@ == "响应里没有 choices[0]"@,
            Some(choice) => if openai_stop(choice) is Refusal {
                r matches Err(ClipKnowError::LlmRefusal)
            } else {
                match r {
                    Ok(m) => are_calls(m@.tool_calls, openai_calls(choice)) && m@
                        == openai_response(body@, choice, m@.tool_calls),
                    Err(e) => e matches ClipKnowError::Llm(m) && complains(
                        m@,
                        openai_calls(choice),
                    ),
                }
            },
        },
{
    let mut tool_calls: Vec<ToolCall> = Vec::new();
    let choice = match choice_of(body) {
        Some(c) => c,
        None => {
            return openai_answer(body, tool_calls);
        },
    };
    let refused: bool = match choice.get("finish_reason") {
        Some(j) => match j.as_str() {
            Some(s) => same(s, "content_filter"),
            None => false,
        },
        None => false,
    };
    proof {
        reveal_strlit("stop");
        reveal_strlit("length");
        reveal_strlit("content_filter");
        assert("stop"@.len() != "content_filter"@.len());
        assert("length"@.len() != "content_filter"@.len());
        assert(refused == (openai_stop(choice@) is Refusal));
    }
    if refused {
        return openai_answer(body, tool_calls);
    }
    let ghost all = openai_calls(choice@);
    let list = match nested(choice, "message", "tool_calls") {
        Some(j) => j.as_array(),
        None => None,
    };
    if let Some(a) = list {
        assert(all =~= json::trees(a@));
        let mut i: usize = 0;
        while i < a.len()
            invariant
                i <= a@.len(),
                all == json::trees(a@),
                all == openai_calls(choice@),
                first_choice(body@) == Some(choice@),
                !(openai_stop(choice@) is Refusal),
                are_calls(calls_view(tool_calls@), all.take(i as int)),
            decreases a@.len() - i,
        {
            assert(all[i as int] == a@[i as int]@);
            let ghost before = calls_view(tool_calls@);
            match read_call(&a[i]) {
                Ok(c) => {
                    tool_calls.push(c);
                    assert(calls_view(tool_calls@) =~= before.push(c@));
                    assert(all.take(i + 1) =~= all.take(i as int).push(all[i as int]));
                },
                Err(e) => {
                    proof {
                        let m = e->Llm_0@;
                        assert forall|j: int| 0 <= j < i implies call_view(
                            #[trigger] all[j],
                        ) is Some by {
                            assert(all.take(i as int)[j] == all[j]);
                            assert(call_view(all.take(i as int)[j]) == Some(before[j]));
                        }
                        assert(call_view(all[i as int]) is None && m == complaint(all[i as int]));
                        assert(complains(m, all));
                    }
                    return Err(e);
                },
            }
            i = i + 1;
        }
        assert(all.take(i as int) =~= all);
    }
    openai_answer(body, tool_calls)
}

// ---------------------------------------------------------------------------
// Choosing a supplier
// ---------------------------------------------------------------------------

/// The suppliers of language models.
#[derive(Debug, Clone, Copy, PartialEq, Eq, Structural)]
pub enum Provider {
    Anthropic,
    DeepSeek,
}

/// The supplier that a name stands for, whatever the case of its letters.
pub open spec fn provider_named(s: Seq<char>) -> Option<Provider> {
    let t = text::lower(s);
    if t == "anthropic"@ {
        Some(Provider::Anthropic)
    } else if t == "deepseek"@ {
        Some(Provider::DeepSeek)
    } else {
        None
    }
}

impl Provider {
    /// The supplier that a name stands for.
    pub fn parse(s: &str) -> (r: Option<Provider>)
        ensures
            r == provider_named(s@),
    {
        let small = lowered(s);
        let t = small.as_str();
        if same(t, "anthropic") {
            Some(Provider::Anthropic)
        } else if same(t, "deepseek") {
            Some(Provider::DeepSeek)
        } else {
            None
        }
    }
}

/// The supplier to use: the one that was asked for, or else one whose key is
/// there. With both keys it is DeepSeek, which costs less.
pub fn choose_provider(explicit: Option<Provider>, has_deepseek: bool, has_anthropic: bool) -> (r:
    Result<Provider>)
    ensures
        match explicit {
            Some(p) => r matches Ok(q) && q == p,
            None => if has_deepseek {
                r matches Ok(q) && q == Provider::DeepSeek
            } else if has_anthropic {
                r matches Ok(q) && q == Provider::Anthropic
            } else {
                r matches Err(ClipKnowError::MissingEnv(n)) && n@
                    == "DEEPSEEK_API_KEY 或 ANTHROPIC_API_KEY"@
            },
        },
{
    match explicit {
        Some(p) => Ok(p),
        None => if has_deepseek {
            Ok(Provider::DeepSeek)
        } else if has_anthropic {
            Ok(Provider::Anthropic)
        } else {
            Err(ClipKnowError::MissingEnv("DEEPSEEK_API_KEY 或 ANTHROPIC_API_KEY"))
        },
    }
}

} // verus!
