//! One value on each line.

use clipknow::agent::runner::{TurnEvent, TurnOutcome, TurnResult};
use clipknow::content::evidence::ANSWER_SIGNATURE;
use clipknow::ingest::scrapecreators::dig;
use clipknow::json::Json;
use clipknow::wire::{
    done_json, error_json, event_json, hello_json, ndjson_line, outcome_tag, usage_json, NdjsonSink,
    PROTOCOL_VERSION,
};

fn j(s: &str) -> Json {
    Json::parse(s).unwrap()
}

fn at<'a>(v: &'a Json, path: &str) -> &'a Json {
    dig(v, path).unwrap_or_else(|| panic!("{path} 不在 {}", v.text()))
}

#[test]
fn every_event_carries_a_discriminator() {
    let args = j(r#"{"url": "https://x"}"#);
    let evs = [
        TurnEvent::Compacted {
            summary_chars: 10,
            upto_seq: 2,
        },
        TurnEvent::Iteration { n: 1 },
        TurnEvent::ToolCall {
            id: "c1",
            name: "fetch_video",
            args: &args,
        },
        TurnEvent::ToolResult {
            id: "c1",
            name: "fetch_video",
            is_error: false,
            external_calls: 3,
            credits: 3,
            vision_calls: 1,
            preview: "abc",
        },
        TurnEvent::Token { text: "片" },
        TurnEvent::Answer { text: "hi" },
    ];
    for ev in &evs {
        let v = event_json(ev);
        assert!(
            v.get("t").and_then(|x| x.as_str()).is_some(),
            "缺 t 字段: {}",
            v.text()
        );
    }
}

#[test]
fn a_multiline_payload_still_serializes_to_exactly_one_line() {
    let v = event_json(&TurnEvent::Answer {
        text: "第一行\n第二行\r\n第三行",
    });
    let s = v.text();
    assert_eq!(s.lines().count(), 1, "序列化后不是一行: {s}");
    assert!(s.contains("\\n"), "换行该被转义成 \\\\n: {s}");
}

#[test]
fn the_sink_writes_one_line_per_event_and_flushes() {
    let mut buf = Vec::new();
    {
        let sink = NdjsonSink::new(&mut buf);
        sink.out.extend(ndjson_line(&event_json(&TurnEvent::Iteration { n: 1 })).into_bytes());
        sink.out.extend(ndjson_line(&event_json(&TurnEvent::Answer { text: "完成" })).into_bytes());
    }
    let s = String::from_utf8(buf).unwrap();
    let lines: Vec<&str> = s.lines().collect();
    assert_eq!(lines.len(), 2, "{s}");
    for l in &lines {
        Json::parse(l).unwrap_or_else(|e| panic!("解析失败 {l}: {}", e.message()));
    }
}

#[test]
fn the_answer_event_carries_the_signature() {
    let v = event_json(&TurnEvent::Answer {
        text: "结论是这样"
    });
    let t = at(&v, "text").as_str().unwrap();
    assert!(t.starts_with("结论是这样"));
    assert!(
        t.ends_with(ANSWER_SIGNATURE),
        "签名没拼上: {t}"
    );
    assert_eq!(v.text().lines().count(), 1);
}

#[test]
fn token_events_never_carry_the_signature() {
    let v = event_json(&TurnEvent::Token { text: "结论" });
    assert_eq!(at(&v, "text").as_str(), Some("结论"));
}

#[test]
fn a_token_carrying_a_newline_still_serializes_to_one_line() {
    let v = event_json(&TurnEvent::Token {
        text: "第一行\n第二",
    });
    let s = v.text();
    assert_eq!(s.lines().count(), 1, "序列化后不是一行: {s}");
    assert_eq!(at(&v, "t").as_str(), Some("token"));
}

#[test]
fn outcome_tags_are_frozen() {
    assert_eq!(outcome_tag(&TurnOutcome::Done), "done");
    assert_eq!(outcome_tag(&TurnOutcome::IterationCap), "iteration_cap");
    assert_eq!(outcome_tag(&TurnOutcome::Truncated), "truncated");
    assert_eq!(
        outcome_tag(&TurnOutcome::ProtocolError("x".into())),
        "protocol_error"
    );
    assert_eq!(
        outcome_tag(&TurnOutcome::ContextBudget { used: 1, limit: 2 }),
        "context_budget"
    );
    assert_eq!(
        outcome_tag(&TurnOutcome::ModelError("x".into())),
        "model_error"
    );
}

#[test]
fn hello_says_null_when_no_vision_model_is_configured() {
    let v = hello_json("s1", "deepseek-chat", None);
    assert!(at(&v, "vision").is_null());
    assert_eq!(at(&v, "protocol").as_i64(), Some(PROTOCOL_VERSION as i64));
    let v2 = hello_json("s1", "deepseek-chat", Some("qwen3-vl-plus"));
    assert_eq!(at(&v2, "vision").as_str(), Some("qwen3-vl-plus"));
}

#[test]
fn a_line_is_read_back() {
    let v = j(r#"{"a":["第一行\n第二行",-3,true,null]}"#);
    let l = ndjson_line(&v);
    assert!(l.ends_with('\n'));
    assert_eq!(l.matches('\n').count(), 1);
    assert_eq!(Json::parse(&l).unwrap().text(), v.text());
}

#[test]
fn the_last_lines_say_what_it_came_to_and_how_it_ended() {
    let res = TurnResult {
        outcome: TurnOutcome::IterationCap,
        answer: String::new(),
        items: vec![],
        pending_summary: None,
        iterations: 20,
        tool_calls_made: 7,
        credits_charged: -1,
        context_tokens: 5,
        compactions: 0,
        video_analyses: 2,
        video_tokens: 9,
        input_tokens: 11,
        cached_input_tokens: 0,
        output_tokens: 13,
    };
    let u = usage_json(&res, j("0.25"));
    assert_eq!(at(&u, "external_calls").as_i64(), Some(7));
    assert_eq!(at(&u, "credits").as_i64(), Some(-1));
    assert_eq!(at(&u, "cost_usd").text(), "0.25");
    let d = done_json(&res.outcome, "停了");
    assert_eq!(d.text(), r#"{"note":"停了","outcome":"iteration_cap","t":"done"}"#);
    assert_eq!(error_json("x").text(), r#"{"message":"x","t":"error"}"#);
}
