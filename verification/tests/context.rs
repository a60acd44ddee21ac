//! From the entries of a history to messages.

use clipknow::agent::context::{to_messages, to_transcript};
use clipknow::agent::llm::Msg;
use clipknow::content::model::Item;
use clipknow::json::Json;

fn j(s: &str) -> Json {
    Json::parse(s).unwrap()
}

#[test]
fn a_stored_history_rebuilds_into_the_message_array() {
    let items = vec![
        Item::user_message(1, "帮我找几个做科普的博主"),
        Item::assistant_message(2, 1, "我先搜一下"),
        Item::function_call(3, 1, "call_00_A", "search_videos", &j(r#"{"query": "科普"}"#)),
        Item::function_call_output(4, 1, "call_00_A", "[结果：20 条]", false, None),
        Item::assistant_message(5, 2, "推荐毕导THU"),
    ];
    let msgs = to_messages(&items);

    assert_eq!(msgs.len(), 4);
    assert!(matches!(&msgs[0], Msg::User(t) if t.contains("科普")));
    match &msgs[1] {
        Msg::Assistant {
            text, tool_calls, ..
        } => {
            assert_eq!(text, "我先搜一下");
            assert_eq!(tool_calls.len(), 1, "工具请求要并进 assistant 消息");
            assert_eq!(tool_calls[0].id, "call_00_A");
            assert_eq!(tool_calls[0].args.get("query").unwrap().as_str(), Some("科普"));
        }
        other => panic!("应该是 assistant，实际 {other:?}"),
    }
    match &msgs[2] {
        Msg::Tool(r) => {
            assert_eq!(r.call_id, "call_00_A");
            assert_eq!(r.content, "[结果：20 条]");
        }
        other => panic!("应该是 tool，实际 {other:?}"),
    }
}

#[test]
fn several_calls_in_one_iteration_merge_into_a_single_assistant_message() {
    let items = vec![
        Item::assistant_message(1, 1, "我同时搜三个平台"),
        Item::function_call(2, 1, "c1", "search_videos", &j(r#"{}"#)),
        Item::function_call(3, 1, "c2", "search_videos", &j(r#"{}"#)),
        Item::function_call(4, 1, "c3", "search_videos", &j(r#"{}"#)),
        Item::function_call_output(5, 1, "c1", "a", false, None),
        Item::function_call_output(6, 1, "c2", "b", false, None),
        Item::function_call_output(7, 1, "c3", "c", false, None),
    ];
    let msgs = to_messages(&items);

    assert_eq!(msgs.len(), 4, "1 条 assistant + 3 条 tool");
    match &msgs[0] {
        Msg::Assistant { tool_calls, .. } => assert_eq!(tool_calls.len(), 3),
        other => panic!("实际 {other:?}"),
    }
}

#[test]
fn a_function_call_without_a_preceding_assistant_still_produces_one() {
    let items = vec![
        Item::user_message(1, "问题"),
        Item::function_call(2, 1, "c1", "search_videos", &j(r#"{}"#)),
        Item::function_call_output(3, 1, "c1", "结果", false, None),
    ];
    let msgs = to_messages(&items);

    assert_eq!(msgs.len(), 3);
    match &msgs[1] {
        Msg::Assistant {
            text, tool_calls, ..
        } => {
            assert!(text.is_empty());
            assert_eq!(tool_calls.len(), 1);
        }
        other => panic!("必须补一条 assistant，实际 {other:?}"),
    }
}

#[test]
fn error_results_come_back_marked_as_errors() {
    let items = vec![Item::function_call_output(
        1,
        1,
        "c1",
        "SC 返回 503",
        true,
        None,
    )];
    match &to_messages(&items)[0] {
        Msg::Tool(r) => assert!(r.is_error, "失败标记不能丢"),
        other => panic!("实际 {other:?}"),
    }
}

#[test]
fn an_empty_history_produces_no_messages() {
    assert!(to_messages(&Vec::new()).is_empty());
}

#[test]
fn reasoning_is_restored_when_rebuilding_the_message_array() {
    let items = vec![Item::assistant_message_full(1, 1, "我搜一下", "先搜关键词")];
    match &to_messages(&items)[0] {
        Msg::Assistant {
            text, reasoning, ..
        } => {
            assert_eq!(text, "我搜一下");
            assert_eq!(reasoning, "先搜关键词");
        }
        other => panic!("实际 {other:?}"),
    }
}

#[test]
fn a_transcript_holds_what_was_said_and_done() {
    let items = vec![
        Item::user_message(1, "找博主"),
        Item::function_call(2, 1, "c1", "search_videos", &j(r#"{"query":"科普"}"#)),
        Item::function_call_output(3, 1, "c1", "[结果：20 条]", false, None),
        Item::assistant_message(4, 2, "推荐毕导THU"),
    ];
    let t = to_transcript(&items);
    let at = |s: &str| t.find(s).unwrap_or_else(|| panic!("{s} 不在:\n{t}"));
    assert!(at("找博主") < at("search_videos"));
    assert!(at("search_videos") < at("[结果：20 条]"));
    assert!(at("[结果：20 条]") < at("推荐毕导THU"));
}

#[test]
fn raw_answers_are_not_sent() {
    let with = |raw: Option<&str>| {
        to_messages(&vec![
            Item::user_message(1, "问"),
            Item::function_call(2, 1, "c1", "search_videos", &Json::parse("{}").unwrap()),
            Item::function_call_output(3, 1, "c1", "结果", false, raw.map(str::to_string)),
        ])
    };
    let (a, b) = (with(Some("{\"很大\": true}")), with(None));
    assert_eq!(format!("{a:?}"), format!("{b:?}"));
    assert!(!format!("{a:?}").contains("很大"));
}
