//! What is chosen, and what is said of it.

use vstd::prelude::*;
use crate::agent::context;
use crate::agent::context::MsgView;
use crate::agent::llm;
use crate::agent::llm::{CallView, ModelResponse, Provider, StopReason};
use crate::agent::runner::{LoopConfig, TurnOutcome, TurnResult};
use crate::agent::tools;
use crate::agent::turn;
use crate::agent::turn::Next;
use crate::agent::vision;
use crate::cli;
use crate::cli::Choice;
use crate::content::evidence;
use crate::content::model;
use crate::content::model::{Artifact, ArtifactKind, FetchStatus, Item, ItemKind, Session};
use crate::error;
use crate::error::ClipKnowError;
use crate::ingest::discovery;
use crate::ingest::discovery::Endpoint;
use crate::ingest::scrapecreators;
use crate::ingest::url;
use crate::ingest::url::Platform;
use crate::json;
use crate::json::{Json, Tree};
use crate::laws::reading;
use crate::laws::runs;
use crate::laws::telling;
use crate::laws::texts;
use crate::outside;
use crate::store::migrate;
use crate::text;

verus! {

/// After an answer of a model tools are run exactly where it wants some and stopped for
/// them or at its end; the other reasons for which it stopped come first.
pub proof fn law_decisions(resp: &ModelResponse, r: Next)
    requires
        call_ensures(turn::decide, (resp,), r),
    ensures
        r is UseTools <==> resp.tool_calls@.len() > 0 && (resp.stop_reason is EndTurn
            || resp.stop_reason is ToolUse),
        r is Finish <==> resp.tool_calls@.len() == 0 && (resp.stop_reason is EndTurn
            || resp.stop_reason is ToolUse),
        r is CutOff <==> resp.stop_reason is MaxTokens,
        r is Refused <==> resp.stop_reason is Refusal,
        resp.stop_reason matches StopReason::Other(s) ==> (r matches Next::Odd(t) && t@ == s@),
{
}

/// A turn goes on only while the model was asked less often than it may be and the next
/// request has no more tokens than it may have; and what stops it says which.
pub proof fn law_limits_stop_a_turn(asked: usize, used: usize, cfg: &LoopConfig, r: Option<TurnOutcome>)
    requires
        call_ensures(turn::stopped, (asked, used, cfg), r),
    ensures
        r is None <==> asked < cfg.max_iterations && used <= cfg.context_budget_tokens,
        asked >= cfg.max_iterations ==> r == Some(TurnOutcome::IterationCap),
        asked < cfg.max_iterations && used > cfg.context_budget_tokens ==> (
        r matches Some(TurnOutcome::ContextBudget { used: u, limit }) && u == used && limit
            == cfg.context_budget_tokens),
{
}

/// The supplier that is named is taken; without a name the one for which there is a key,
/// DeepSeek before Anthropic; and without either, both keys are named.
pub proof fn law_suppliers_are_chosen(
    explicit: Option<Provider>,
    deepseek: bool,
    anthropic: bool,
    r: error::Result<Provider>,
)
    requires
        call_ensures(llm::choose_provider, (explicit, deepseek, anthropic), r),
    ensures
        r matches Ok(p) ==> (explicit matches Some(q) ==> p == q) && (explicit is None ==> (p
            == Provider::DeepSeek <==> deepseek)),
        r is Err <==> explicit is None && !deepseek && !anthropic,
        r matches Err(e) ==> (e matches ClipKnowError::MissingEnv(n) && text::contains(
            n@,
            "DEEPSEEK_API_KEY"@,
        ) && text::contains(n@, "ANTHROPIC_API_KEY"@)),
{
    reveal_strlit("DEEPSEEK_API_KEY 或 ANTHROPIC_API_KEY");
    reveal_strlit("DEEPSEEK_API_KEY");
    reveal_strlit("ANTHROPIC_API_KEY");
    let t = "DEEPSEEK_API_KEY 或 ANTHROPIC_API_KEY"@;
    assert(t.subrange(0, 16) =~= "DEEPSEEK_API_KEY"@);
    assert(t.subrange(19, 36) =~= "ANTHROPIC_API_KEY"@);
    assert(text::occurs_at(t, "DEEPSEEK_API_KEY"@, 0));
    assert(text::occurs_at(t, "ANTHROPIC_API_KEY"@, 19));
}

/// A conversation is gone on with only where that is wished and there is one; otherwise one
/// begins, and it is said that there is none only where one was wished for.
pub proof fn law_conversations_are_chosen(go_on: bool, latest: Option<Session>, r: Choice)
    requires
        call_ensures(cli::choose_session, (go_on, latest), r),
    ensures
        match r {
            Choice::Resume(s) => go_on && latest == Some(s),
            Choice::Begin { said } => !(go_on && latest is Some) && (said <==> go_on && latest is None),
        },
{
}

/// A question about a video is asked with the material before it, and the question stands
/// between its own tags, at the end.
pub proof fn law_questions_stand_between_their_tags(material: &str, question: &str, r: String)
    requires
        call_ensures(cli::ask_prompt, (material, question), r),
    ensures
        text::occurs_at(r@, material@, 0),
        text::contains(
            r@,
            evidence::QUESTION_OPEN@ + "\n"@ + question@ + "\n"@ + evidence::QUESTION_CLOSE@,
        ),
        text::occurs_at(
            r@,
            evidence::QUESTION_CLOSE@,
            r@.len() - evidence::QUESTION_CLOSE@.len(),
        ),
{
    let q = evidence::QUESTION_OPEN@ + "\n"@ + question@ + "\n"@ + evidence::QUESTION_CLOSE@;
    let c = evidence::QUESTION_CLOSE@;
    assert(r@ =~= material@ + "\n"@ + q);
    assert(r@.subrange(0, material@.len() as int) =~= material@);
    texts::lemma_contains_parts(material@ + "\n"@, q, q);
    assert(r@.subrange(r@.len() - c.len(), r@.len() as int) =~= c);
}

/// What is said of a question that came in: how long it is, and the question itself.
pub proof fn law_questions_are_echoed(question: &str, r: String)
    requires
        call_ensures(turn::echo_received, (question,), r),
    ensures
        text::contains(r@, text::int_text(question@.len() as int) + " 字"@),
        text::occurs_at(r@, question@, r@.len() - question@.len()),
{
    let n = text::int_text(question@.len() as int);
    reveal_strlit(" 字）：");
    reveal_strlit(" 字");
    let rest = " 字）："@.skip(2) + question@;
    assert(" 字）："@ =~= " 字"@ + " 字）："@.skip(2));
    assert(r@ =~= "· 收到问题（"@ + (n + " 字"@) + rest);
    texts::lemma_contains_middle("· 收到问题（"@, n + " 字"@, rest);
    assert(r@.subrange(r@.len() - question@.len(), r@.len() as int) =~= question@);
}

/// What is said of a video that was fetched: whether there is a transcript, and how many
/// comments there are.
pub proof fn law_fetching_is_reported(heard: bool, comments: usize, r: String)
    requires
        call_ensures(cli::fetched_line, (heard, comments), r),
    ensures
        heard ==> text::contains(r@, "文字稿 "@ + "有"@),
        !heard ==> text::contains(r@, "文字稿 "@ + "无"@),
        text::contains(r@, " / 评论 "@ + text::int_text(comments as int)),
{
    let w = if heard {
        "有"@
    } else {
        "无"@
    };
    runs::lemma_run_5(
        "· 抓取完成：文字稿 "@,
        w,
        " / 评论 "@,
        text::int_text(comments as int),
        " 条"@,
    );
    reveal_strlit("· 抓取完成：文字稿 ");
    reveal_strlit("文字稿 ");
    let a = "· 抓取完成：文字稿 "@;
    let p = "文字稿 "@ + w;
    let pre = a.take(a.len() - 4);
    assert(a =~= pre + "文字稿 "@);
    assert(a + w =~= pre + p);
    texts::lemma_contains_parts(pre, p, p);
    texts::lemma_contains_parts(r@, a + w, p);
}

/// What is said of the cost of an answer names the model, what went in as what went in, and
/// what came out as what came out.
pub proof fn law_costs_of_answers_are_told(model: &str, i: u32, o: u32, cost: &str, r: String)
    requires
        call_ensures(cli::answer_cost_line, (model, i, o, cost), r),
    ensures
        text::contains(r@, "\n— "@ + model@),
        text::contains(r@, text::int_text(i as int) + " 输入 / "@),
        text::contains(r@, text::int_text(o as int) + " 输出 token，约 $"@),
        text::contains(r@, " 输出 token，约 $"@ + cost@),
{
    runs::lemma_run_8(
        "\n— "@,
        model@,
        " · "@,
        text::int_text(i as int),
        " 输入 / "@,
        text::int_text(o as int),
        " 输出 token，约 $"@,
        cost@,
    );
}

/// What is said of a conversation that is gone on with: its title, and how many entries it
/// has; and at the beginning, which model answers and which looks at videos, or that none
/// does.
pub proof fn law_conversations_are_greeted(
    s: &Session,
    n: i64,
    r: String,
    model: &str,
    sight: Option<&str>,
    b: String,
)
    requires
        call_ensures(cli::resumed_line, (s, n), r),
        call_ensures(cli::banner, (model, sight), b),
    ensures
        s.title matches Some(t) ==> text::contains(r@, "· 接着聊："@ + t@),
        text::contains(r@, "（"@ + text::int_text(n as int)),
        text::contains(b@, "· "@ + model@),
        sight matches Some(v) ==> text::contains(b@, " · 画面 "@ + v@),
        sight is None ==> text::contains(b@, " · 画面 "@ + "未启用"@),
{
    let title = match s.title {
        Some(t) => t@,
        None => "(无标题)"@,
    };
    runs::lemma_run_5(
        "· 接着聊："@,
        title,
        "（"@,
        text::int_text(n as int),
        " 条历史）"@,
    );
    let v = match sight {
        Some(x) => x@,
        None => "未启用"@,
    };
    runs::lemma_run_5(
        "· "@,
        model@,
        " · 画面 "@,
        v,
        " · 输入问题回车；↑ 调历史；/new 开新会话，/quit 退出"@,
    );
}

/// A key is needed to ask a model; the name of the one that is missing is told. Which model
/// is asked is what is set, and for DeepSeek otherwise the usual one.
pub proof fn law_models_need_a_key(
    key: Option<String>,
    model: Option<String>,
    d: error::Result<llm::DeepSeekClient>,
    a: error::Result<llm::AnthropicClient>,
    v: Option<(String, String)>,
)
    requires
        call_ensures(llm::DeepSeekClient::from_settings, (key, model), d),
        call_ensures(llm::AnthropicClient::from_settings, (key, model), a),
        call_ensures(vision::vision_settings, (key, model), v),
    ensures
        d is Ok <==> key is Some,
        d matches Ok(c) ==> Some(c.api_key) == key && (model matches Some(m) ==> c.model@ == m@) && (
        model is None ==> c.model@ == "deepseek-chat"@),
        d matches Err(e) ==> (e matches ClipKnowError::MissingEnv(n) && n@ == "DEEPSEEK_API_KEY"@),
        a is Ok <==> key is Some && model is Some,
        a matches Ok(c) ==> Some(c.api_key) == key && Some(c.model) == model,
        key is None ==> (a matches Err(ClipKnowError::MissingEnv(n)) && n@ == "ANTHROPIC_API_KEY"@),
        v is Some <==> key is Some,
        v matches Some(x) ==> Some(x.0) == key && (model matches Some(m) ==> x.1@ == m@),
{
}

/// An entry that is made of a question, of what a model says, of a call or of what came of
/// it is sent as just that.
pub proof fn law_entries_are_sent_as_they_were_made(
    idx: i64,
    n: i64,
    a: &str,
    b: &str,
    args: &Json,
    bad: bool,
    raw: Option<String>,
    user: Item,
    said: Item,
    call: Item,
    result: Item,
)
    requires
        call_ensures(Item::user_message, (idx, a), user),
        call_ensures(Item::assistant_message_full, (idx, n, a, b), said),
        call_ensures(Item::function_call, (idx, n, a, b, args), call),
        call_ensures(Item::function_call_output, (idx, n, a, b, bad, raw), result),
    ensures
        user.idx == idx && said.idx == idx && call.idx == idx && result.idx == idx,
        user@.kind == ItemKind::UserMessage && context::payload_text(user@, "text"@) == a@,
        said@.kind == ItemKind::AssistantMessage && context::payload_text(said@, "text"@) == a@
            && context::payload_text(said@, "reasoning"@) == b@,
        call@.kind == ItemKind::FunctionCall && context::item_call(call@) == (CallView {
            id: a@,
            name: b@,
            args: args@,
        }),
        result@.kind == ItemKind::FunctionCallOutput && context::item_result(result@) == (
        MsgView::Tool { call_id: a@, content: b@, is_error: bad }),
        result@.raw_json == text::opt(raw),
{
    reveal_strlit("text");
    reveal_strlit("reasoning");
    reveal_strlit("name");
    reveal_strlit("args");
    reveal_strlit("content");
    reveal_strlit("is_error");
    assert("text"@.len() != "reasoning"@.len());
    assert("name"@[0] != "args"@[0]);
    assert("content"@.len() != "is_error"@.len());
    reveal_with_fuel(json::field_from, 4);
}

/// The version of a database is the highest that is noted in it, and zero where none is;
/// one with conversations and without a version is one from before versions were counted.
pub proof fn law_versions_are_read(
    has_table: bool,
    highest: Option<i64>,
    v: i64,
    has_sessions: bool,
    old: bool,
)
    requires
        call_ensures(migrate::current_version, (has_table, highest), v),
        call_ensures(migrate::is_legacy, (has_sessions, v), old),
    ensures
        has_table ==> (highest matches Some(n) ==> v == n),
        !has_table || highest is None ==> v == 0,
        old <==> has_sessions && v == 0,
{
}

/// A database is brought to each version that it lacks, in their order, up to the one that
/// the program wants; for one from before versions were counted the first is only noted.
pub proof fn law_versions_are_brought_about(current: i64, legacy: bool, r: Vec<migrate::Due>, i: int)
    requires
        0 <= current <= 2,
        call_ensures(migrate::pending, (current, legacy), r),
    ensures
        r@.len() == 2 - current,
        0 <= i < r@.len() ==> r@[i].version == current + 1 + i && (r@[i].runs <==> !(legacy
            && r@[i].version == 1)),
        0 <= i < r@.len() && r@[i].version == 1 ==> r@[i].name@ == "baseline"@,
        0 <= i < r@.len() && r@[i].version == 2 ==> r@[i].name@ == "multi_user"@,
{
    if 0 <= i < r@.len() {
        assert(migrate::is_due(r@[i], 3 - r@.len() + i, legacy));
    }
}

/// How an endpoint answered has a name of its own, and so has what it was asked.
pub proof fn law_names_of_answers_differ(a: FetchStatus, b: FetchStatus, k: ArtifactKind, m: ArtifactKind)
    ensures
        model::fetch_status_name(a) == model::fetch_status_name(b) ==> a == b,
        model::artifact_kind_label(k) == model::artifact_kind_label(m) ==> k == m,
{
    reveal_strlit("ok");
    reveal_strlit("unavailable");
    reveal_strlit("failed");
    reveal_strlit("视频详情");
    reveal_strlit("文字稿");
    reveal_strlit("评论");
    assert("ok"@.len() == 2 && "unavailable"@.len() == 11 && "failed"@.len() == 6);
    assert("视频详情"@.len() == 4 && "文字稿"@.len() == 3 && "评论"@.len() == 2);
}

/// How each of the endpoints answered is told, in their order.
pub proof fn law_states_are_told(v: Seq<Artifact>, i: int)
    requires
        0 <= i < v.len(),
    ensures
        cli::states(v).len() == v.len(),
        cli::states(v)[i] == model::artifact_kind_label(v[i].kind) + "="@ + model::fetch_status_name(
            v[i].status,
        ),
{
}

/// What somebody types is a question, without white space around it, unless it is empty or
/// one of the commands.
pub proof fn law_input_is_read(line: &str, r: cli::Input)
    requires
        call_ensures(cli::read_input, (line,), r),
    ensures
        text::blank(line@) <==> r is Nothing,
        text::trim(line@) == "/quit"@ || text::trim(line@) == "/exit"@ <==> r is Quit,
        text::trim(line@) == "/new"@ <==> r is NewSession,
        r matches cli::Input::Question(q) ==> q@ == text::trim(line@),
{
    reveal_strlit("/quit");
    reveal_strlit("/exit");
    reveal_strlit("/new");
    assert("/quit"@.len() != "/new"@.len());
    assert("/exit"@.len() != "/new"@.len());
    texts::law_trim_takes_white_space(line@);
}

/// Beside an answer it is said that the history is nearly as long as it may be, where it
/// is, and then what the turn cost; where nothing was sent, nothing is said.
pub proof fn law_notes_stand_beside_answers(
    res: TurnResult,
    cfg: LoopConfig,
    seen: Seq<char>,
    cost: Seq<char>,
)
    ensures
        ({
            let v = cli::side_notes(res, cfg, seen, cost);
            &&& res.outcome is ContextBudget <==> v.len() == 0
            &&& !(res.outcome is ContextBudget) ==> v.last() == cli::cost_text(res, seen, cost)
            &&& !(res.outcome is ContextBudget) ==> (v.len() == 2 <==> 10 * res.context_tokens > 9
                * cfg.context_budget_tokens)
        }),
{
}

/// A supplier that nobody knows is named.
pub proof fn law_unknown_suppliers_are_named(name: Seq<char>)
    ensures
        text::contains(cli::unknown_provider(name), name),
{
    texts::lemma_contains_middle("不认识的 provider: "@, name, "（可选 deepseek / anthropic）"@);
}

/// The day of a moment is told, and where it has none the moment itself.
pub proof fn law_days_are_told(ts: int)
    ensures
        outside::utc_day(ts) matches Some(d) ==> evidence::date_text(ts) == d,
        outside::utc_day(ts) is None ==> evidence::date_text(ts) == text::int_text(ts),
{
}

/// The schema of a tool says of each parameter what it is, and which are needed.
pub proof fn law_schemas(props: Seq<(Seq<char>, Tree)>, required: Seq<Seq<char>>, i: int)
    ensures
        ({
            let t = tools::tool_schema(props, required);
            &&& telling::words(t, "type"@, "object"@)
            &&& telling::tells(t, "properties"@, Tree::Object(props))
            &&& json::field(t, "required"@) matches Some(Tree::Array(v)) && v.len()
                == required.len() && (0 <= i < v.len() ==> v[i] == Tree::Str(required[i]))
        }),
{
    lemma_schema_names();
    reveal_with_fuel(json::field_from, 4);
}

/// What the model is told of each tool is how it is called and what it needs: what a tool
/// cannot do without is exactly what its schema names as needed.
pub proof fn law_tools_say_what_they_need(i: int)
    requires
        0 <= i < tools::tools().len(),
    ensures
        ({
            let d = tools::tools()[i];
            let props = json::field(d.params, "properties"@);
            let needed = json::field(d.params, "required"@);
            match tools::endpoint_of(d.name) {
                Some(ep) => {
                    &&& needed == Some(
                        Tree::Array(
                            seq![Tree::Str("platform"@), Tree::Str(tools::argument_name(ep))],
                        ),
                    )
                    &&& reading::below(props, tools::argument_name(ep)) is Some
                    &&& reading::below(reading::below(props, "platform"@), "enum"@) == Some(
                        tools::text_array(tools::platform_names(ep == Endpoint::SearchVideos)),
                    )
                    &&& reading::below(props, "max_videos"@) is Some <==> ep
                        == Endpoint::GetCreatorVideos
                },
                None => {
                    &&& d.name == "fetch_video"@
                    &&& needed == Some(Tree::Array(seq![Tree::Str("url"@)]))
                    &&& reading::below(props, "url"@) is Some
                    &&& reading::below(props, "question"@) is Some
                },
            }
        }),
{
    lemma_schema_names();
    lemma_tool_names();
    reveal_with_fuel(json::field_from, 4);
    let t = tools::tools();
    assert(t[0].name == "search_videos"@ && t[1].name == "search_creators"@ && t[2].name
        == "get_creator"@ && t[3].name == "get_creator_videos"@ && t[4].name == "fetch_video"@);
    assert(tools::text_array(seq!["platform"@, "query"@]) == Tree::Array(
        seq![Tree::Str("platform"@), Tree::Str("query"@)],
    )) by {
        assert(Seq::new(2, |k: int| Tree::Str(seq!["platform"@, "query"@][k])) =~= seq![
            Tree::Str("platform"@),
            Tree::Str("query"@),
        ]);
    }
    assert(tools::text_array(seq!["platform"@, "handle"@]) == Tree::Array(
        seq![Tree::Str("platform"@), Tree::Str("handle"@)],
    )) by {
        assert(Seq::new(2, |k: int| Tree::Str(seq!["platform"@, "handle"@][k])) =~= seq![
            Tree::Str("platform"@),
            Tree::Str("handle"@),
        ]);
    }
    assert(tools::text_array(seq!["url"@]) == Tree::Array(seq![Tree::Str("url"@)])) by {
        assert(Seq::new(1, |k: int| Tree::Str(seq!["url"@][k])) =~= seq![Tree::Str("url"@)]);
    }
    if i == 0 {
    } else if i == 1 {
    } else if i == 2 {
    } else if i == 3 {
    } else {
    }
}

proof fn lemma_schema_names()
    ensures
        "type"@ != "properties"@,
        "type"@ != "required"@,
        "properties"@ != "required"@,
        "platform"@ != "query"@,
        "platform"@ != "handle"@,
        "platform"@ != "max_videos"@,
        "handle"@ != "max_videos"@,
        "url"@ != "question"@,
        "type"@ != "enum"@,
        "query"@ != "max_videos"@,
{
    reveal_strlit("enum");
    reveal_strlit("handle");
    reveal_strlit("max_videos");
    reveal_strlit("platform");
    reveal_strlit("properties");
    reveal_strlit("query");
    reveal_strlit("question");
    reveal_strlit("required");
    reveal_strlit("type");
    reveal_strlit("url");
    assert("type"@.len() != "properties"@.len());
    assert("type"@.len() != "required"@.len());
    assert("properties"@.len() != "required"@.len());
    assert("platform"@.len() != "query"@.len());
    assert("platform"@.len() != "handle"@.len());
    assert("platform"@.len() != "max_videos"@.len());
    assert("handle"@.len() != "max_videos"@.len());
    assert("url"@.len() != "question"@.len());
    assert("type"@[0] != "enum"@[0]);
    assert("query"@.len() != "max_videos"@.len());
}

proof fn lemma_tool_names()
    ensures
        "search_videos"@ != "search_creators"@,
        "search_videos"@ != "get_creator"@,
        "search_creators"@ != "get_creator"@,
        "search_videos"@ != "get_creator_videos"@,
        "search_creators"@ != "get_creator_videos"@,
        "get_creator"@ != "get_creator_videos"@,
        "search_videos"@ != "fetch_video"@,
        "search_creators"@ != "fetch_video"@,
        "get_creator"@ != "fetch_video"@,
        "get_creator_videos"@ != "fetch_video"@,
{
    reveal_strlit("fetch_video");
    reveal_strlit("get_creator");
    reveal_strlit("get_creator_videos");
    reveal_strlit("search_creators");
    reveal_strlit("search_videos");
    assert("search_videos"@.len() != "search_creators"@.len());
    assert("search_videos"@.len() != "get_creator"@.len());
    assert("search_creators"@.len() != "get_creator"@.len());
    assert("search_videos"@.len() != "get_creator_videos"@.len());
    assert("search_creators"@.len() != "get_creator_videos"@.len());
    assert("get_creator"@.len() != "get_creator_videos"@.len());
    assert("search_videos"@.len() != "fetch_video"@.len());
    assert("search_creators"@.len() != "fetch_video"@.len());
    assert("get_creator"@[0] != "fetch_video"@[0]);
    assert("get_creator_videos"@.len() != "fetch_video"@.len());
}

/// A text that is to be read by lines: the first line ends at the first line feed, without
/// it and without a carriage return before it, and the others are those of the rest; what
/// has no line feed is one line, and nothing is none.
pub proof fn law_lines(a: Seq<char>, b: Seq<char>)
    requires
        !text::has_char(a, '\n'),
    ensures
        a.len() > 0 ==> text::lines(a) == seq![a],
        text::lines(Seq::<char>::empty()).len() == 0,
        text::lines(a + "\n"@ + b).len() == 1 + text::lines(b).len(),
        (a.len() == 0 || a.last() != '\r') ==> text::lines(a + "\n"@ + b) == seq![a] + text::lines(b),
        text::lines(a + "\r\n"@ + b) == seq![a] + text::lines(b),
{
    reveal_strlit("\n");
    reveal_strlit("\r\n");
    assert("\n"@ =~= seq!['\n']);
    lemma_no_feed(a, 0);
    assert(a.skip(0) =~= a);
    lemma_feed(a, b, 0);
    lemma_lines_shift(a + seq!['\n'], b, 0);
    let t = a + seq!['\n'] + b;
    assert(t.subrange(0, a.len() as int) =~= a);
    let c = a.push('\r');
    let u = c + seq!['\n'] + b;
    assert(!text::has_char(c, '\n')) by {
        if text::has_char(c, '\n') {
            let i = choose|i: int| 0 <= i < c.len() && c[i] == '\n';
            assert(a[i] == '\n');
        }
    }
    assert(a + "\r\n"@ + b =~= u);
    lemma_feed(c, b, 0);
    lemma_lines_shift(c + seq!['\n'], b, 0);
    assert(u.subrange(0, c.len() as int) =~= c);
    assert(c.drop_last() =~= a);
}

proof fn lemma_no_feed(t: Seq<char>, k: int)
    requires
        !text::has_char(t, '\n'),
        0 <= k <= t.len(),
    ensures
        text::index_of(t, '\n', k) == t.len(),
    decreases t.len() - k,
{
    if k < t.len() {
        assert(t[k] != '\n');
        lemma_no_feed(t, k + 1);
    }
}

proof fn lemma_feed(a: Seq<char>, b: Seq<char>, k: int)
    requires
        !text::has_char(a, '\n'),
        0 <= k <= a.len(),
    ensures
        text::index_of(a + seq!['\n'] + b, '\n', k) == a.len(),
    decreases a.len() - k,
{
    let t = a + seq!['\n'] + b;
    if k < a.len() {
        assert(t[k] == a[k]);
        lemma_feed(a, b, k + 1);
    }
}

proof fn lemma_feed_shift(x: Seq<char>, b: Seq<char>, k: int)
    requires
        0 <= k <= b.len(),
    ensures
        text::index_of(x + b, '\n', x.len() + k) == x.len() + text::index_of(b, '\n', k),
    decreases b.len() - k,
{
    if k < b.len() && b[k] != '\n' {
        lemma_feed_shift(x, b, k + 1);
    }
}

proof fn lemma_lines_shift(x: Seq<char>, b: Seq<char>, k: int)
    requires
        0 <= k <= b.len(),
    ensures
        text::lines_from(x + b, x.len() + k) == text::lines_from(b, k),
    decreases b.len() - k,
{
    lemma_feed_shift(x, b, k);
    text::lemma_index_of(b, '\n', k);
    let e = text::index_of(b, '\n', k);
    if k < b.len() {
        if e < b.len() {
            lemma_lines_shift(x, b, e + 1);
            assert((x + b).subrange(x.len() + k, x.len() + e) =~= b.subrange(k, e));
        } else {
            assert((x + b).skip(x.len() + k) =~= b.skip(k));
        }
    }
}

/// Digits are worth what they are worth in tens; a sign before them says which way; and
/// nothing but digits behind a sign is a number.
pub proof fn law_numbers_are_read(t: Seq<char>, c: char)
    ensures
        text::digits_value(Seq::<char>::empty()) == 0,
        '0' <= c <= '9' ==> text::digits_value(t.push(c)) == 10 * text::digits_value(t) + (c as int
            - '0' as int),
        text::all_digits(t) && text::digits_value(t) <= i64::MAX ==> text::read_i64(t) == Some(
            text::digits_value(t) as int,
        ) && text::read_i64(seq!['-'] + t) == Some(-(text::digits_value(t) as int))
            && text::read_i64(seq!['+'] + t) == Some(text::digits_value(t) as int),
        text::all_digits(t) && text::digits_value(t) > i64::MAX ==> text::read_i64(t) is None,
        !text::all_digits(t) ==> text::read_i64(seq!['-'] + t) is None && text::read_i64(
            seq!['+'] + t,
        ) is None,
        !text::all_digits(t) && (t.len() == 0 || t[0] != '-' && t[0] != '+') ==> text::read_i64(
            t,
        ) is None,
{
    assert(t.push(c).drop_last() =~= t);
    assert((seq!['-'] + t).skip(1) =~= t);
    assert((seq!['+'] + t).skip(1) =~= t);
    if text::all_digits(t) {
        assert(text::is_digit(t[0]));
    }
}

/// A path that is a number leads to the element at that place.
pub proof fn law_paths_lead_to_elements(t: Tree, n: u32)
    ensures
        scrapecreators::dug(t, text::int_text(n as int)) == json::element(t, n as int),
        json::element(t, n as int) == (match t {
            Tree::Array(a) => if n < a.len() {
                Some(a[n as int])
            } else {
                None
            },
            _ => None,
        }),
{
    let p = text::int_text(n as int);
    text::lemma_nat_text_value(n as nat);
    assert(!text::has_char(p, '.')) by {
        if text::has_char(p, '.') {
            let i = choose|i: int| 0 <= i < p.len() && p[i] == '.';
            assert(text::is_digit(p[i]));
        }
    }
    assert(text::is_digit(p[0]));
    reading::lemma_parts(p, Seq::empty(), '.');
    assert(text::read_index(p) == Some(n as int));
    if let Some(x) = json::element(t, n as int) {
        assert(scrapecreators::walk(x, seq![p], 1) == Some(x));
    }
}

/// A path of two names leads to the field of a field.
pub proof fn law_paths_lead_through_fields(t: Tree, a: Seq<char>, b: Seq<char>)
    requires
        reading::is_name(a),
        reading::is_name(b),
    ensures
        scrapecreators::dug(t, a) == json::field(t, a),
        scrapecreators::dug(t, a + "."@ + b) == reading::below(json::field(t, a), b),
{
    reading::lemma_path(Some(t), a);
    reading::lemma_longer_path(Some(t), a, b, a + "."@ + b);
    reading::lemma_path(json::field(t, a), b);
}

/// What a number is as one with 53 binary digits is itself where it has no more.
pub proof fn law_small_numbers_are_exact(n: int)
    requires
        -(0x20_0000_0000_0000) < n < 0x20_0000_0000_0000,
    ensures
        json::whole_of(Tree::Number(json::NumTree::Int(n))) == Some(n),
{
    let m: int = if n < 0 {
        -n
    } else {
        n
    };
    assert(m / 1 == m && m % 1 == 0);
}

/// A number as one with 53 binary digits is off by no more than one part in as many.
pub proof fn law_large_numbers_are_near(n: int)
    requires
        0 <= n,
    ensures
        ({
            let d = json::as_double(n) - n;
            -n <= 0x20_0000_0000_0000 * d <= n
        }),
{
    let u = json::double_unit(n, 1);
    lemma_unit(n, 1);
    let q = n / u;
    let r = n % u;
    assert(n == q * u + r && 0 <= r < u) by (nonlinear_arith)
        requires
            u >= 1,
            q == n / u,
            r == n % u,
    ;
    assert((q + 1) * u == q * u + u) by (nonlinear_arith);
    let d = json::as_double(n) - n;
    assert(-u <= 2 * d <= u);
    if u == 1 {
        assert(r == 0);
    }
}

proof fn lemma_unit(n: int, u: int)
    requires
        0 <= n,
        1 <= u,
    ensures
        ({
            let v = json::double_unit(n, u);
            &&& v >= u
            &&& v == u || n >= 0x10_0000_0000_0000 * v
        }),
    decreases n / u,
{
    if n / u >= 0x20_0000_0000_0000 {
        assert(0 <= n / (2 * u) < n / u) by (nonlinear_arith)
            requires
                n / u >= 0x20_0000_0000_0000,
                u > 0,
        ;
        assert(n >= 0x20_0000_0000_0000 * u) by (nonlinear_arith)
            requires
                n / u >= 0x20_0000_0000_0000,
                u > 0,
        ;
        lemma_unit(n, 2 * u);
    }
}

/// The endpoint for what is looked for is one that finds it: searching is done by those
/// that search, the videos of a creator come from those that list videos, and a creator from
/// those that describe one; each of them is one of the platform.
pub proof fn law_routes(p: Platform, ep: Endpoint)
    ensures
        discovery::route_path(ep, p) matches Some(t) ==> {
            &&& text::contains(t, "/"@ + url::platform_name(p) + "/"@)
            &&& (ep is SearchVideos || ep is SearchCreators) <==> text::contains(t, "/search"@)
            &&& ep is GetCreatorVideos <==> text::contains(t, "videos"@) || text::contains(
                t,
                "/reels"@,
            )
        },
{
    lemma_routes(p, ep);
}

proof fn lemma_route_v1_instagram_profile()
    ensures
        text::contains("/v1/instagram/profile"@, "/"@ + "instagram"@ + "/"@),
        !text::contains("/v1/instagram/profile"@, "/search"@),
        !text::contains("/v1/instagram/profile"@, "videos"@),
        !text::contains("/v1/instagram/profile"@, "/reels"@),
{
    reveal_strlit("/v1/instagram/profile");
    reveal_strlit("/");
    reveal_strlit("instagram");
    reveal_strlit("/search");
    reveal_strlit("videos");
    reveal_strlit("/reels");
    let t = "/v1/instagram/profile"@;
    lemma_stands(t, "/"@ + "instagram"@ + "/"@, 3);
    if text::contains(t, "/search"@) {
        let i = choose|i: int| text::occurs_at(t, "/search"@, i);
        lemma_letters(t, "/search"@, i);
        assert(false);
    }
    if text::contains(t, "videos"@) {
        let i = choose|i: int| text::occurs_at(t, "videos"@, i);
        lemma_letters(t, "videos"@, i);
        assert(false);
    }
    if text::contains(t, "/reels"@) {
        let i = choose|i: int| text::occurs_at(t, "/reels"@, i);
        lemma_letters(t, "/reels"@, i);
        assert(false);
    }
}

proof fn lemma_route_v1_instagram_search_profiles()
    ensures
        text::contains("/v1/instagram/search/profiles"@, "/"@ + "instagram"@ + "/"@),
        text::contains("/v1/instagram/search/profiles"@, "/search"@),
        !text::contains("/v1/instagram/search/profiles"@, "videos"@),
        !text::contains("/v1/instagram/search/profiles"@, "/reels"@),
{
    reveal_strlit("/v1/instagram/search/profiles");
    reveal_strlit("/");
    reveal_strlit("instagram");
    reveal_strlit("/search");
    reveal_strlit("videos");
    reveal_strlit("/reels");
    let t = "/v1/instagram/search/profiles"@;
    lemma_stands(t, "/"@ + "instagram"@ + "/"@, 3);
    lemma_stands(t, "/search"@, 13);
    if text::contains(t, "videos"@) {
        let i = choose|i: int| text::occurs_at(t, "videos"@, i);
        lemma_letters(t, "videos"@, i);
        assert(false);
    }
    if text::contains(t, "/reels"@) {
        let i = choose|i: int| text::occurs_at(t, "/reels"@, i);
        lemma_letters(t, "/reels"@, i);
        assert(false);
    }
}

proof fn lemma_route_v1_instagram_user_reels()
    ensures
        text::contains("/v1/instagram/user/reels"@, "/"@ + "instagram"@ + "/"@),
        !text::contains("/v1/instagram/user/reels"@, "/search"@),
        !text::contains("/v1/instagram/user/reels"@, "videos"@),
        text::contains("/v1/instagram/user/reels"@, "/reels"@),
{
    reveal_strlit("/v1/instagram/user/reels");
    reveal_strlit("/");
    reveal_strlit("instagram");
    reveal_strlit("/search");
    reveal_strlit("videos");
    reveal_strlit("/reels");
    let t = "/v1/instagram/user/reels"@;
    lemma_stands(t, "/"@ + "instagram"@ + "/"@, 3);
    if text::contains(t, "/search"@) {
        let i = choose|i: int| text::occurs_at(t, "/search"@, i);
        lemma_letters(t, "/search"@, i);
        assert(false);
    }
    if text::contains(t, "videos"@) {
        let i = choose|i: int| text::occurs_at(t, "videos"@, i);
        lemma_letters(t, "videos"@, i);
        assert(false);
    }
    lemma_stands(t, "/reels"@, 18);
}

proof fn lemma_route_v1_tiktok_profile()
    ensures
        text::contains("/v1/tiktok/profile"@, "/"@ + "tiktok"@ + "/"@),
        !text::contains("/v1/tiktok/profile"@, "/search"@),
        !text::contains("/v1/tiktok/profile"@, "videos"@),
        !text::contains("/v1/tiktok/profile"@, "/reels"@),
{
    reveal_strlit("/v1/tiktok/profile");
    reveal_strlit("/");
    reveal_strlit("tiktok");
    reveal_strlit("/search");
    reveal_strlit("videos");
    reveal_strlit("/reels");
    let t = "/v1/tiktok/profile"@;
    lemma_stands(t, "/"@ + "tiktok"@ + "/"@, 3);
    if text::contains(t, "/search"@) {
        let i = choose|i: int| text::occurs_at(t, "/search"@, i);
        lemma_letters(t, "/search"@, i);
        assert(false);
    }
    if text::contains(t, "videos"@) {
        let i = choose|i: int| text::occurs_at(t, "videos"@, i);
        lemma_letters(t, "videos"@, i);
        assert(false);
    }
    if text::contains(t, "/reels"@) {
        let i = choose|i: int| text::occurs_at(t, "/reels"@, i);
        lemma_letters(t, "/reels"@, i);
        assert(false);
    }
}

proof fn lemma_route_v1_tiktok_search_keyword()
    ensures
        text::contains("/v1/tiktok/search/keyword"@, "/"@ + "tiktok"@ + "/"@),
        text::contains("/v1/tiktok/search/keyword"@, "/search"@),
        !text::contains("/v1/tiktok/search/keyword"@, "videos"@),
        !text::contains("/v1/tiktok/search/keyword"@, "/reels"@),
{
    reveal_strlit("/v1/tiktok/search/keyword");
    reveal_strlit("/");
    reveal_strlit("tiktok");
    reveal_strlit("/search");
    reveal_strlit("videos");
    reveal_strlit("/reels");
    let t = "/v1/tiktok/search/keyword"@;
    lemma_stands(t, "/"@ + "tiktok"@ + "/"@, 3);
    lemma_stands(t, "/search"@, 10);
    if text::contains(t, "videos"@) {
        let i = choose|i: int| text::occurs_at(t, "videos"@, i);
        lemma_letters(t, "videos"@, i);
        assert(false);
    }
    if text::contains(t, "/reels"@) {
        let i = choose|i: int| text::occurs_at(t, "/reels"@, i);
        lemma_letters(t, "/reels"@, i);
        assert(false);
    }
}

proof fn lemma_route_v1_tiktok_search_users()
    ensures
        text::contains("/v1/tiktok/search/users"@, "/"@ + "tiktok"@ + "/"@),
        text::contains("/v1/tiktok/search/users"@, "/search"@),
        !text::contains("/v1/tiktok/search/users"@, "videos"@),
        !text::contains("/v1/tiktok/search/users"@, "/reels"@),
{
    reveal_strlit("/v1/tiktok/search/users");
    reveal_strlit("/");
    reveal_strlit("tiktok");
    reveal_strlit("/search");
    reveal_strlit("videos");
    reveal_strlit("/reels");
    let t = "/v1/tiktok/search/users"@;
    lemma_stands(t, "/"@ + "tiktok"@ + "/"@, 3);
    lemma_stands(t, "/search"@, 10);
    if text::contains(t, "videos"@) {
        let i = choose|i: int| text::occurs_at(t, "videos"@, i);
        lemma_letters(t, "videos"@, i);
        assert(false);
    }
    if text::contains(t, "/reels"@) {
        let i = choose|i: int| text::occurs_at(t, "/reels"@, i);
        lemma_letters(t, "/reels"@, i);
        assert(false);
    }
}

proof fn lemma_route_v1_youtube_channel()
    ensures
        text::contains("/v1/youtube/channel"@, "/"@ + "youtube"@ + "/"@),
        !text::contains("/v1/youtube/channel"@, "/search"@),
        !text::contains("/v1/youtube/channel"@, "videos"@),
        !text::contains("/v1/youtube/channel"@, "/reels"@),
{
    reveal_strlit("/v1/youtube/channel");
    reveal_strlit("/");
    reveal_strlit("youtube");
    reveal_strlit("/search");
    reveal_strlit("videos");
    reveal_strlit("/reels");
    let t = "/v1/youtube/channel"@;
    lemma_stands(t, "/"@ + "youtube"@ + "/"@, 3);
    if text::contains(t, "/search"@) {
        let i = choose|i: int| text::occurs_at(t, "/search"@, i);
        lemma_letters(t, "/search"@, i);
        assert(false);
    }
    if text::contains(t, "videos"@) {
        let i = choose|i: int| text::occurs_at(t, "videos"@, i);
        lemma_letters(t, "videos"@, i);
        assert(false);
    }
    if text::contains(t, "/reels"@) {
        let i = choose|i: int| text::occurs_at(t, "/reels"@, i);
        lemma_letters(t, "/reels"@, i);
        assert(false);
    }
}

proof fn lemma_route_v1_youtube_channel_videos()
    ensures
        text::contains("/v1/youtube/channel-videos"@, "/"@ + "youtube"@ + "/"@),
        !text::contains("/v1/youtube/channel-videos"@, "/search"@),
        text::contains("/v1/youtube/channel-videos"@, "videos"@),
        !text::contains("/v1/youtube/channel-videos"@, "/reels"@),
{
    reveal_strlit("/v1/youtube/channel-videos");
    reveal_strlit("/");
    reveal_strlit("youtube");
    reveal_strlit("/search");
    reveal_strlit("videos");
    reveal_strlit("/reels");
    let t = "/v1/youtube/channel-videos"@;
    lemma_stands(t, "/"@ + "youtube"@ + "/"@, 3);
    if text::contains(t, "/search"@) {
        let i = choose|i: int| text::occurs_at(t, "/search"@, i);
        lemma_letters(t, "/search"@, i);
        assert(false);
    }
    lemma_stands(t, "videos"@, 20);
    if text::contains(t, "/reels"@) {
        let i = choose|i: int| text::occurs_at(t, "/reels"@, i);
        lemma_letters(t, "/reels"@, i);
        assert(false);
    }
}

proof fn lemma_route_v1_youtube_search()
    ensures
        text::contains("/v1/youtube/search"@, "/"@ + "youtube"@ + "/"@),
        text::contains("/v1/youtube/search"@, "/search"@),
        !text::contains("/v1/youtube/search"@, "videos"@),
        !text::contains("/v1/youtube/search"@, "/reels"@),
{
    reveal_strlit("/v1/youtube/search");
    reveal_strlit("/");
    reveal_strlit("youtube");
    reveal_strlit("/search");
    reveal_strlit("videos");
    reveal_strlit("/reels");
    let t = "/v1/youtube/search"@;
    lemma_stands(t, "/"@ + "youtube"@ + "/"@, 3);
    lemma_stands(t, "/search"@, 11);
    if text::contains(t, "videos"@) {
        let i = choose|i: int| text::occurs_at(t, "videos"@, i);
        lemma_letters(t, "videos"@, i);
        assert(false);
    }
    if text::contains(t, "/reels"@) {
        let i = choose|i: int| text::occurs_at(t, "/reels"@, i);
        lemma_letters(t, "/reels"@, i);
        assert(false);
    }
}

proof fn lemma_route_v3_tiktok_profile_videos()
    ensures
        text::contains("/v3/tiktok/profile/videos"@, "/"@ + "tiktok"@ + "/"@),
        !text::contains("/v3/tiktok/profile/videos"@, "/search"@),
        text::contains("/v3/tiktok/profile/videos"@, "videos"@),
        !text::contains("/v3/tiktok/profile/videos"@, "/reels"@),
{
    reveal_strlit("/v3/tiktok/profile/videos");
    reveal_strlit("/");
    reveal_strlit("tiktok");
    reveal_strlit("/search");
    reveal_strlit("videos");
    reveal_strlit("/reels");
    let t = "/v3/tiktok/profile/videos"@;
    lemma_stands(t, "/"@ + "tiktok"@ + "/"@, 3);
    if text::contains(t, "/search"@) {
        let i = choose|i: int| text::occurs_at(t, "/search"@, i);
        lemma_letters(t, "/search"@, i);
        assert(false);
    }
    lemma_stands(t, "videos"@, 19);
    if text::contains(t, "/reels"@) {
        let i = choose|i: int| text::occurs_at(t, "/reels"@, i);
        lemma_letters(t, "/reels"@, i);
        assert(false);
    }
}

proof fn lemma_routes(p: Platform, ep: Endpoint)
    ensures
        discovery::route_path(ep, p) matches Some(t) ==> {
            &&& text::contains(t, "/"@ + url::platform_name(p) + "/"@)
            &&& (ep is SearchVideos || ep is SearchCreators) <==> text::contains(t, "/search"@)
            &&& ep is GetCreatorVideos <==> text::contains(t, "videos"@) || text::contains(
                t,
                "/reels"@,
            )
        },
{
    lemma_route_v1_instagram_profile();
    lemma_route_v1_instagram_search_profiles();
    lemma_route_v1_instagram_user_reels();
    lemma_route_v1_tiktok_profile();
    lemma_route_v1_tiktok_search_keyword();
    lemma_route_v1_tiktok_search_users();
    lemma_route_v1_youtube_channel();
    lemma_route_v1_youtube_channel_videos();
    lemma_route_v1_youtube_search();
    lemma_route_v3_tiktok_profile_videos();
}

/// A text stands at a place at which its characters stand.
proof fn lemma_stands(t: Seq<char>, p: Seq<char>, i: int)
    requires
        0 <= i,
        i + p.len() <= t.len(),
        forall|k: int| 0 <= k < p.len() ==> #[trigger] p[k] == t[i + k],
    ensures
        text::contains(t, p),
{
    assert(t.subrange(i, i + p.len()) =~= p);
    assert(text::occurs_at(t, p, i));
}

/// Where a text stands, its characters stand.
proof fn lemma_letters(t: Seq<char>, p: Seq<char>, i: int)
    requires
        text::occurs_at(t, p, i),
        p.len() >= 6,
    ensures
        0 <= i && i + p.len() <= t.len(),
        t[i] == p[0] && t[i + 1] == p[1] && t[i + 2] == p[2] && t[i + 3] == p[3] && t[i + 4] == p[4]
            && t[i + 5] == p[5],
{
    let s = t.subrange(i, i + p.len());
    assert(s[0] == t[i] && s[1] == t[i + 1] && s[2] == t[i + 2] && s[3] == t[i + 3] && s[4] == t[i
        + 4] && s[5] == t[i + 5]);
}

} // verus!
