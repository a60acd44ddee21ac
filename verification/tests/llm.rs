//! What is sent to language models, and what their answers mean.

use clipknow::agent::llm::{
    check_answer, choose_provider, parse_anthropic_response, parse_openai_response, AnthropicClient,
    DeepSeekClient, ModelRequest, Msg, Provider, StopReason, ToolCall, ToolDef, ToolResult,
    DEEPSEEK_DEFAULT_MODEL,
};
use clipknow::error::ClipKnowError;
use clipknow::ingest::scrapecreators::dig;
use clipknow::json::Json;

const MODEL: &str = "some-model";

fn j(s: &str) -> Json {
    Json::parse(s).unwrap()
}

fn at<'a>(v: &'a Json, path: &str) -> &'a Json {
    dig(v, path).unwrap_or_else(|| panic!("{path} 不在 {}", v.text()))
}

#[test]
fn parses_normal_response() {
    let body = j(r#"{"content": [{"type": "text", "text": "这个视频在讲早期获客。"}], "stop_reason": "end_turn", "usage": {"input_tokens": 5000, "output_tokens": 800}}"#);
    let r = parse_anthropic_response(&body).unwrap();
    assert_eq!(r.text, "这个视频在讲早期获客。");
    assert_eq!(r.stop_reason, StopReason::EndTurn);
    assert_eq!(r.input_tokens, 5000);
    assert_eq!(r.output_tokens, 800);
}

#[test]
fn skips_thinking_blocks_and_keeps_only_text() {
    let body = j(r#"{"content": [{"type": "thinking", "thinking": ""}, {"type": "text", "text": "答案第一段。"}, {"type": "text", "text": "第二段。"}], "stop_reason": "end_turn", "usage": {"input_tokens": 1, "output_tokens": 2}}"#);
    let r = parse_anthropic_response(&body).unwrap();
    assert_eq!(
        r.text, "答案第一段。第二段。",
        "thinking 块要跳过，text 块要拼接"
    );
}

#[test]
fn refusal_returns_error_instead_of_panicking_on_empty_content() {
    let body = j(r#"{"content": [], "stop_reason": "refusal"}"#);
    let err = parse_anthropic_response(&body).unwrap_err();
    assert!(matches!(err, ClipKnowError::LlmRefusal), "实际是: {}", err.message());
}

#[test]
fn detects_truncation() {
    let body = j(r#"{"content": [{"type": "text", "text": "说到一半就被"}], "stop_reason": "max_tokens", "usage": {"input_tokens": 1, "output_tokens": 16000}}"#);
    let r = parse_anthropic_response(&body).unwrap();
    assert_eq!(r.stop_reason, StopReason::MaxTokens);
}

#[test]
fn missing_usage_defaults_to_zero_not_error() {
    let body = j(r#"{"content": [{"type": "text", "text": "hi"}], "stop_reason": "end_turn"}"#);
    let r = parse_anthropic_response(&body).unwrap();
    assert_eq!(r.input_tokens, 0);
}

#[test]
fn request_body_has_no_sampling_params() {
    let c = AnthropicClient::new("k".into(), MODEL.into());
    let body = c.to_anthropic_body(&ModelRequest {
        system: "你是助手".into(),
        messages: vec![Msg::user("你好")],
        max_tokens: 16000,
        tools: vec![],
    });
    assert!(body.get("temperature").is_none(), "不能传 temperature");
    assert!(body.get("top_p").is_none(), "不能传 top_p");
    assert!(body.get("top_k").is_none(), "不能传 top_k");
    assert_eq!(at(&body, "model").as_str(), Some(MODEL));
    assert_eq!(at(&body, "system").as_str(), Some("你是助手"));
    assert_eq!(at(&body, "messages.0.role").as_str(), Some("user"));
    assert_eq!(at(&body, "messages.0.content").as_str(), Some("你好"));
}

#[test]
fn deepseek_puts_system_prompt_into_messages_array() {
    let c = DeepSeekClient::new("k".into(), DEEPSEEK_DEFAULT_MODEL.into());
    let body = c.to_openai_body(&ModelRequest {
        system: "你是助手".into(),
        messages: vec![Msg::user("你好")],
        max_tokens: 8192,
        tools: vec![],
    });

    assert!(
        body.get("system").is_none(),
        "OpenAI 格式没有顶层 system 字段"
    );
    assert_eq!(at(&body, "messages.0.role").as_str(), Some("system"));
    assert_eq!(at(&body, "messages.0.content").as_str(), Some("你是助手"));
    assert_eq!(at(&body, "messages.1.role").as_str(), Some("user"));
    assert_eq!(at(&body, "messages.1.content").as_str(), Some("你好"));
    assert_eq!(at(&body, "model").as_str(), Some(DEEPSEEK_DEFAULT_MODEL));
}

#[test]
fn deepseek_clamps_max_tokens_to_its_own_limit() {
    let c = DeepSeekClient::new("k".into(), DEEPSEEK_DEFAULT_MODEL.into());
    let body = c.to_openai_body(&ModelRequest {
        system: "s".into(),
        messages: vec![Msg::user("u")],
        max_tokens: 16_000,
        tools: vec![],
    });
    assert_eq!(at(&body, "max_tokens").as_i64(), Some(8192));
}

#[test]
fn parses_openai_style_response() {
    let body = j(r#"{"choices": [{"message": {"role": "assistant", "content": "这个视频在讲早期获客。"}, "finish_reason": "stop"}], "usage": {"prompt_tokens": 5000, "completion_tokens": 800, "total_tokens": 5800}}"#);
    let r = parse_openai_response(&body).unwrap();
    assert_eq!(r.text, "这个视频在讲早期获客。");
    assert_eq!(r.stop_reason, StopReason::EndTurn);
    assert_eq!(r.input_tokens, 5000);
    assert_eq!(r.output_tokens, 800);
}

#[test]
fn openai_length_maps_to_max_tokens() {
    let body = j(r#"{"choices": [{"message": {"content": "半句"}, "finish_reason": "length"}], "usage": {"prompt_tokens": 1, "completion_tokens": 8192}}"#);
    assert_eq!(
        parse_openai_response(&body).unwrap().stop_reason,
        StopReason::MaxTokens
    );
}

#[test]
fn openai_content_filter_maps_to_refusal() {
    let body = j(r#"{"choices": [{"message": {"content": null}, "finish_reason": "content_filter"}]}"#);
    let err = parse_openai_response(&body).unwrap_err();
    assert!(matches!(err, ClipKnowError::LlmRefusal), "实际是: {}", err.message());
}

#[test]
fn openai_missing_choices_errors_instead_of_panicking() {
    let err = parse_openai_response(&j(r#"{}"#)).unwrap_err();
    assert!(matches!(err, ClipKnowError::Llm(_)), "实际是: {}", err.message());
}

#[test]
fn openai_null_content_is_empty_not_panic() {
    let body = j(r#"{"choices": [{"message": {"content": null}, "finish_reason": "stop"}]}"#);
    assert_eq!(parse_openai_response(&body).unwrap().text, "");
}

#[test]
fn same_request_works_for_both_providers() {
    let req = ModelRequest {
        system: "你是助手".into(),
        messages: vec![Msg::user("你好")],
        max_tokens: 8000,
        tools: vec![],
    };

    let anthropic = AnthropicClient::new("k".into(), MODEL.into());
    let deepseek = DeepSeekClient::new("k".into(), DEEPSEEK_DEFAULT_MODEL.into());

    let a_body = anthropic.to_anthropic_body(&req);
    let d_body = deepseek.to_openai_body(&req);

    assert_eq!(at(&a_body, "system").as_str(), Some("你是助手"));
    assert_eq!(at(&d_body, "messages.0.content").as_str(), Some("你是助手"));

    assert_eq!(at(&a_body, "messages.0.content").as_str(), Some("你好"));
    assert_eq!(at(&d_body, "messages.1.content").as_str(), Some("你好"));
}

fn search_tool() -> ToolDef {
    ToolDef {
        name: "search_videos".into(),
        description: "在指定平台按关键词搜索视频".into(),
        params: j(r#"{"type": "object", "properties": {"platform": {"type": "string", "enum": ["youtube", "tiktok"]}, "query": {"type": "string"}}, "required": ["platform", "query"]}"#),
    }
}

#[test]
fn deepseek_wraps_tools_in_openai_function_envelope() {
    let c = DeepSeekClient::new("k".into(), DEEPSEEK_DEFAULT_MODEL.into());
    let body = c.to_openai_body(&ModelRequest {
        system: "s".into(),
        messages: vec![Msg::user("hi")],
        max_tokens: 100,
        tools: vec![search_tool()],
    });

    let t = at(&body, "tools.0");
    assert_eq!(at(t, "type").as_str(), Some("function"));
    assert_eq!(at(t, "function.name").as_str(), Some("search_videos"));
    assert_eq!(at(t, "function.description").as_str(), Some("在指定平台按关键词搜索视频"));
    assert_eq!(at(t, "function.parameters.required.0").as_str(), Some("platform"));
}

#[test]
fn deepseek_omits_tools_field_entirely_when_there_are_none() {
    let c = DeepSeekClient::new("k".into(), DEEPSEEK_DEFAULT_MODEL.into());
    let body = c.to_openai_body(&ModelRequest {
        system: "s".into(),
        messages: vec![Msg::user("hi")],
        max_tokens: 100,
        tools: vec![],
    });
    assert!(body.get("tools").is_none(), "没有工具时不该出现 tools 字段");
}

fn real_deepseek_tool_call_body() -> Json {
    j(r#"{"choices": [{"message": {"role": "assistant", "content": "我来帮你同时进行这两个操作：搜索YouTube上的科普视频，以及查询博主 @yykp 的粉丝数。", "tool_calls": [{"id": "call_00_hny590CbqPea0cQFPNti1601", "type": "function", "function": {"name": "search_videos", "arguments": "{\"platform\": \"youtube\", \"query\": \"科普\"}"}}, {"id": "call_01_eK895XXJgRj9tesmnoyP7932", "type": "function", "function": {"name": "get_creator", "arguments": "{\"platform\": \"youtube\", \"handle\": \"yykp\"}"}}]}, "finish_reason": "tool_calls"}], "usage": {"prompt_tokens": 406, "completion_tokens": 134}}"#)
}

#[test]
fn openai_tool_call_arguments_are_parsed_from_string_into_json() {
    let r = parse_openai_response(&real_deepseek_tool_call_body()).unwrap();

    assert_eq!(r.tool_calls.len(), 2);
    let first = &r.tool_calls[0];
    assert_eq!(first.id, "call_00_hny590CbqPea0cQFPNti1601");
    assert_eq!(first.name, "search_videos");
    assert_eq!(at(&first.args, "platform").as_str(), Some("youtube"));
    assert_eq!(at(&first.args, "query").as_str(), Some("科普"));
}

#[test]
fn openai_keeps_both_content_and_tool_calls() {
    let r = parse_openai_response(&real_deepseek_tool_call_body()).unwrap();
    assert!(r.text.contains("我来帮你同时进行这两个操作"));
    assert_eq!(r.tool_calls.len(), 2);
}

#[test]
fn openai_tool_calls_finish_reason_maps_to_tool_use() {
    let r = parse_openai_response(&real_deepseek_tool_call_body()).unwrap();
    assert_eq!(r.stop_reason, StopReason::ToolUse);
}

#[test]
fn openai_plain_answer_has_no_tool_calls() {
    let body = j(r#"{"choices": [{"message": {"role": "assistant", "content": "讲的是早期获客。"}, "finish_reason": "stop"}], "usage": {"prompt_tokens": 10, "completion_tokens": 5}}"#);
    let r = parse_openai_response(&body).unwrap();
    assert!(r.tool_calls.is_empty());
    assert_eq!(r.stop_reason, StopReason::EndTurn);
}

#[test]
fn openai_malformed_tool_arguments_error_instead_of_panicking() {
    let body = j(r#"{"choices": [{"message": {"role": "assistant", "content": "", "tool_calls": [{"id": "call_0", "type": "function", "function": {"name": "search_videos", "arguments": "{\"platform\": \"you"}}]}, "finish_reason": "tool_calls"}], "usage": {"prompt_tokens": 1, "completion_tokens": 1}}"#);
    assert!(parse_openai_response(&body).is_err());
}

#[test]
fn assistant_message_with_tool_calls_serializes_arguments_back_to_string() {
    let c = DeepSeekClient::new("k".into(), DEEPSEEK_DEFAULT_MODEL.into());
    let body = c.to_openai_body(&ModelRequest {
        system: "s".into(),
        messages: vec![
            Msg::user("找科普博主"),
            Msg::assistant_with_tools(
                "我来搜一下。",
                vec![ToolCall {
                    id: "call_00_abc".into(),
                    name: "search_videos".into(),
                    args: j(r#"{"platform": "youtube", "query": "科普"}"#),
                }],
            ),
        ],
        max_tokens: 100,
        tools: vec![search_tool()],
    });

    let a = at(&body, "messages.2");
    assert_eq!(at(a, "role").as_str(), Some("assistant"));
    assert_eq!(at(a, "content").as_str(), Some("我来搜一下。"));
    assert_eq!(at(a, "tool_calls.0.id").as_str(), Some("call_00_abc"));
    assert_eq!(at(a, "tool_calls.0.type").as_str(), Some("function"));
    assert_eq!(at(a, "tool_calls.0.function.name").as_str(), Some("search_videos"));

    let args = at(a, "tool_calls.0.function.arguments")
        .as_str()
        .expect("arguments 必须是字符串，不能是对象");
    let parsed = j(args);
    assert_eq!(at(&parsed, "query").as_str(), Some("科普"));
}

#[test]
fn tool_result_becomes_its_own_message_with_role_tool() {
    let c = DeepSeekClient::new("k".into(), DEEPSEEK_DEFAULT_MODEL.into());
    let body = c.to_openai_body(&ModelRequest {
        system: "s".into(),
        messages: vec![Msg::tool_result(ToolResult {
            call_id: "call_00_abc".into(),
            content: "[20 条视频]".into(),
            is_error: false,
        })],
        max_tokens: 100,
        tools: vec![],
    });

    let t = at(&body, "messages.1");
    assert_eq!(at(t, "role").as_str(), Some("tool"));
    assert_eq!(at(t, "tool_call_id").as_str(), Some("call_00_abc"));
    assert_eq!(at(t, "content").as_str(), Some("[20 条视频]"));
}

#[test]
fn failed_tool_result_still_goes_back_as_a_normal_tool_message() {
    let c = DeepSeekClient::new("k".into(), DEEPSEEK_DEFAULT_MODEL.into());
    let body = c.to_openai_body(&ModelRequest {
        system: "s".into(),
        messages: vec![Msg::tool_result(ToolResult {
            call_id: "call_00_abc".into(),
            content: "SC 返回 503".into(),
            is_error: true,
        })],
        max_tokens: 100,
        tools: vec![],
    });

    let t = at(&body, "messages.1");
    assert_eq!(at(t, "role").as_str(), Some("tool"));
    assert_eq!(at(t, "tool_call_id").as_str(), Some("call_00_abc"));
    assert!(
        at(t, "content").as_str().unwrap().contains("SC 返回 503"),
        "错误内容必须原样带给模型"
    );
}

#[test]
fn one_full_round_trip_keeps_call_ids_paired() {
    let resp = parse_openai_response(&real_deepseek_tool_call_body()).unwrap();
    let mut msgs = vec![Msg::user("找科普博主")];
    msgs.push(Msg::assistant_with_tools(
        &resp.text,
        resp.tool_calls
            .iter()
            .map(|c| ToolCall { id: c.id.clone(), name: c.name.clone(), args: c.args.copy() })
            .collect(),
    ));
    for tc in &resp.tool_calls {
        msgs.push(Msg::tool_result(ToolResult {
            call_id: tc.id.clone(),
            content: "ok".into(),
            is_error: false,
        }));
    }

    let c = DeepSeekClient::new("k".into(), DEEPSEEK_DEFAULT_MODEL.into());
    let body = c.to_openai_body(&ModelRequest {
        system: "s".into(),
        messages: msgs,
        max_tokens: 100,
        tools: vec![search_tool()],
    });

    let m = at(&body, "messages").as_array().unwrap();
    assert_eq!(m.len(), 5);
    assert_eq!(at(&m[3], "tool_call_id").as_str(), at(&m[2], "tool_calls.0.id").as_str());
    assert_eq!(at(&m[4], "tool_call_id").as_str(), at(&m[2], "tool_calls.1.id").as_str());
}

#[test]
fn anthropic_rejects_tools_with_a_clear_error_this_version() {
    let c = AnthropicClient::new("k".into(), MODEL.into());
    let err = c
        .check_request(&ModelRequest {
            system: "s".into(),
            messages: vec![Msg::user("hi")],
            max_tokens: 100,
            tools: vec![search_tool()],
        })
        .unwrap_err();
    assert!(
        err.message().contains("Anthropic"),
        "错误信息要说清是哪家不支持，实际: {}",
        err.message()
    );
}

#[test]
fn suppliers_are_known_by_their_names() {
    assert_eq!(Provider::parse("deepseek"), Some(Provider::DeepSeek));
    assert_eq!(Provider::parse("DeepSeek"), Some(Provider::DeepSeek));
    assert_eq!(Provider::parse("anthropic"), Some(Provider::Anthropic));
    assert_eq!(Provider::parse("gpt"), None);
}

#[test]
fn the_supplier_is_the_one_that_was_asked_for_or_whose_key_is_there() {
    assert_eq!(
        choose_provider(Some(Provider::Anthropic), true, false).unwrap(),
        Provider::Anthropic
    );
    assert_eq!(choose_provider(None, true, true).unwrap(), Provider::DeepSeek);
    assert_eq!(choose_provider(None, false, true).unwrap(), Provider::Anthropic);
    assert_eq!(
        choose_provider(None, false, false).unwrap_err().message(),
        "缺少环境变量 DEEPSEEK_API_KEY 或 ANTHROPIC_API_KEY，请在 ~/.zshrc 里设置后重开终端"
    );
}

#[test]
fn the_settings_name_the_key_and_the_model() {
    let c = DeepSeekClient::from_settings(Some("k".into()), None).unwrap();
    assert_eq!(c.model_name(), DEEPSEEK_DEFAULT_MODEL);
    let c = AnthropicClient::from_settings(Some("k".into()), Some("m".into())).unwrap();
    assert_eq!(c.model_name(), "m");
    assert!(matches!(
        DeepSeekClient::from_settings(None, None),
        Err(ClipKnowError::MissingEnv("DEEPSEEK_API_KEY"))
    ));
    assert!(matches!(
        AnthropicClient::from_settings(None, Some("m".into())),
        Err(ClipKnowError::MissingEnv("ANTHROPIC_API_KEY"))
    ));
    assert!(matches!(
        AnthropicClient::from_settings(Some("k".into()), None),
        Err(ClipKnowError::MissingEnv("ANTHROPIC_MODEL"))
    ));
}

#[test]
fn a_bad_status_says_what_the_supplier_says() {
    let body = j(r#"{"error": {"message": "Content Exists Risk"}}"#);
    let e = check_answer(false, "400 Bad Request", body).unwrap_err();
    assert_eq!(e.message(), "大模型调用失败: HTTP 400 Bad Request: Content Exists Risk");
    assert!(check_answer(true, "200 OK", j("{}")).is_ok());
}
