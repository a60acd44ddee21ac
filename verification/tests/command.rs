//! A turn that is run for another program.

use clipknow::agent::llm::Provider;
use clipknow::agent::runner::{TurnOutcome, TurnResult};
use clipknow::cli::GateOverrides;
use clipknow::command::{Event, Ran, Step, Task, TurnCommand, Who};
use clipknow::content::model::TurnStatus;
use clipknow::error::{ClipKnowError, Result};
use clipknow::json::{integer, Json};

fn begin(session: Option<&str>) -> Step {
    TurnCommand::start(
        &GateOverrides::default(),
        Some("deepseek"),
        session.map(str::to_string),
        "找几个博主",
    )
}

fn who() -> Who {
    Who { model: "m".into(), vision: None }
}

fn ran(outcome: TurnOutcome) -> Ran {
    Ran {
        res: TurnResult {
            outcome,
            answer: "答案".into(),
            items: vec![],
            pending_summary: None,
            iterations: 1,
            tool_calls_made: 0,
            credits_charged: 0,
            context_tokens: 0,
            compactions: 0,
            video_analyses: 0,
            video_tokens: 0,
            input_tokens: 0,
            cached_input_tokens: 0,
            output_tokens: 0,
        },
        is_first: true,
        cost: integer(0),
    }
}

fn go(step: Step) -> (TurnCommand, Option<Json>, Task) {
    match step {
        Step::Go { next, line, task } => (next, line, task),
        Step::Over { result, .. } => panic!("{result:?}"),
    }
}

fn over(step: Step) -> (Vec<String>, Result<()>) {
    match step {
        Step::Over { lines, result } => (lines.iter().map(Json::text).collect(), result),
        Step::Go { task, .. } => panic!("{task:?}"),
    }
}

fn until_running() -> TurnCommand {
    let (c, ..) = go(begin(None));
    let (c, ..) = go(c.advance(Event::Opened(Ok(()))));
    let (c, ..) = go(c.advance(Event::Connected(Ok(who()))));
    go(c.advance(Event::Created(Ok("s1".into())))).0
}

#[test]
fn a_turn_goes_through_its_steps() {
    let (c, line, task) = go(begin(None));
    assert!(line.is_none() && matches!(task, Task::OpenStore));
    let (c, line, task) = go(c.advance(Event::Opened(Ok(()))));
    assert!(line.is_none());
    assert!(matches!(task, Task::Connect { provider: Some(Provider::DeepSeek) }));
    let (c, line, task) = go(c.advance(Event::Connected(Ok(who()))));
    assert!(line.is_none() && matches!(task, Task::NewSession));
    let (c, line, task) = go(c.advance(Event::Created(Ok("s1".into()))));
    let hello = line.unwrap();
    assert_eq!(hello.get("t").unwrap().as_str(), Some("hello"));
    assert_eq!(hello.get("session").unwrap().as_str(), Some("s1"));
    assert!(matches!(task, Task::Run { session } if session == "s1"));
    let (c, line, task) = go(c.advance(Event::Finished(Ok(ran(TurnOutcome::Done)))));
    assert!(line.is_none());
    match task {
        Task::Save { session, record } => {
            assert_eq!(session, "s1");
            assert_eq!(record.status, TurnStatus::Done);
            assert_eq!(record.title.as_deref(), Some("找几个博主"));
        }
        other => panic!("{other:?}"),
    }
    let (lines, result) = over(c.advance(Event::Saved(Ok(()))));
    assert!(result.is_ok());
    assert_eq!(lines.len(), 2);
    assert!(lines[0].contains(r#""t":"usage""#));
    assert!(lines[1].contains(r#""t":"done""#) && lines[1].contains(r#""outcome":"done""#));
}

#[test]
fn wrong_arguments_are_refused_before_anything_is_opened() {
    let bad = GateOverrides { max_iterations: Some(0), ..Default::default() };
    let (lines, result) = over(TurnCommand::start(&bad, Some("nobody"), None, "问"));
    assert_eq!(lines, [r#"{"message":"max-iterations 不能是 0","t":"error"}"#]);
    assert_eq!(result.unwrap_err().message(), "max-iterations 不能是 0");

    let (lines, result) = over(TurnCommand::start(&GateOverrides::default(), Some("nobody"), None, "问"));
    assert!(lines[0].contains("不认识的 provider: nobody"));
    assert!(result.is_err());
}

#[test]
fn a_database_that_does_not_open_is_told() {
    let (c, ..) = go(begin(None));
    let (lines, result) = over(c.advance(Event::Opened(Err(ClipKnowError::Db("locked".into())))));
    assert_eq!(lines, [r#"{"message":"数据库错误: locked","t":"error"}"#]);
    assert!(matches!(result, Err(ClipKnowError::Db(_))));
}

#[test]
fn a_conversation_that_was_named_has_to_be_there() {
    let find = || {
        let (c, ..) = go(begin(Some("s9")));
        let (c, ..) = go(c.advance(Event::Opened(Ok(()))));
        let (c, _, task) = go(c.advance(Event::Connected(Ok(who()))));
        assert!(matches!(task, Task::FindSession { id } if id == "s9"));
        c
    };
    let (_, line, task) = go(find().advance(Event::Found(Ok(true))));
    assert_eq!(line.unwrap().get("session").unwrap().as_str(), Some("s9"));
    assert!(matches!(task, Task::Run { .. }));

    let (lines, result) = over(find().advance(Event::Found(Ok(false))));
    assert_eq!(lines.len(), 1);
    assert_eq!(
        result.unwrap_err().message(),
        "没有这个会话: s9（会话由 `turn` 自己创建，id 在 hello 那一行里）"
    );
    let failed = find().advance(Event::Found(Err(ClipKnowError::Db("x".into()))));
    assert_eq!(over(failed).0.len(), 1, "查库失败也要说出来");
}

#[test]
fn what_was_not_stored_is_not_done() {
    let (c, ..) = go(until_running().advance(Event::Finished(Ok(ran(TurnOutcome::Done)))));
    let (lines, result) = over(c.advance(Event::Saved(Err(ClipKnowError::Db("full".into())))));
    assert_eq!(lines, [r#"{"message":"写库失败: 数据库错误: full","t":"error"}"#]);
    assert!(result.is_err());
}

#[test]
fn where_nothing_was_sent_nothing_is_stored() {
    let out = TurnOutcome::ContextBudget { used: 2, limit: 1 };
    let (lines, result) = over(until_running().advance(Event::Finished(Ok(ran(out)))));
    assert!(result.is_ok());
    assert!(lines[1].contains("context_budget"));
}

#[test]
fn the_missing_clients_are_told() {
    let (c, ..) = go(begin(None));
    let (c, ..) = go(c.advance(Event::Opened(Ok(()))));
    let e = ClipKnowError::MissingEnv("SCRAPECREATORS_API_KEY");
    let (lines, _) = over(c.advance(Event::Connected(Err(e))));
    assert!(lines[0].contains("缺少环境变量 SCRAPECREATORS_API_KEY"));
    let (lines, _) = over(until_running().advance(Event::Finished(Err(ClipKnowError::Db("x".into())))));
    assert_eq!(lines.len(), 1);
}
