//! A turn that is run for another program, step by step.
//!
//! Whoever started the program reads its lines and nothing else. So whatever goes
//! wrong becomes a line; arguments are looked at before anything is opened, for
//! what fails later would hide what is wrong with them; and a turn is stored
//! before it is said to be done, for whoever reads that looks it up.

use vstd::prelude::*;
use crate::agent::llm;
use crate::agent::llm::Provider;
use crate::agent::runner;
use crate::agent::runner::{LoopConfig, TurnResult};
use crate::cli;
use crate::cli::{outcome_note, parse_provider, record_of, GateOverrides, Record};
use crate::error;
use crate::error::{ClipKnowError, Result};
use crate::json::Json;
use crate::text;
use crate::wire;
use crate::wire::{done_json, error_json, hello_json, usage_json};

verus! {

/// Who answers: a model, and one that looks at videos, where there is one.
#[derive(Debug)]
pub struct Who {
    pub model: String,
    pub vision: Option<String>,
}

/// A turn that was run: what came of it, whether it is the first of its
/// conversation, and the dollars that it cost, as a number.
#[derive(Debug)]
pub struct Ran {
    pub res: TurnResult,
    pub is_first: bool,
    pub cost: Json,
}

/// How far the command is.
#[derive(Debug)]
pub enum CommandStage {
    Opening { provider: Option<Provider>, session: Option<String> },
    Connecting { session: Option<String> },
    Finding { id: String, who: Who },
    Creating { who: Who },
    Running { session: String },
    Saving { session: String, ran: Ran },
}

/// The command.
#[derive(Debug)]
pub struct TurnCommand {
    pub cfg: LoopConfig,
    pub question: String,
    pub stage: CommandStage,
}

/// What has to be done next.
#[derive(Debug)]
pub enum Task {
    OpenStore,
    /// Make ready a model of a supplier, or of any, and the scraping service.
    Connect { provider: Option<Provider> },
    /// See whether there is a conversation.
    FindSession { id: String },
    NewSession,
    /// Load the history of a conversation, and run the turn.
    Run { session: String },
    /// Store the turn, then its summary and its title, where there are some.
    Save { session: String, record: Record },
}

/// What came of it.
#[derive(Debug)]
pub enum Event {
    Opened(Result<()>),
    Connected(Result<Who>),
    Found(Result<bool>),
    Created(Result<String>),
    Finished(Result<Ran>),
    Saved(Result<()>),
}

/// What follows: something to do, after a line was written where there is one, or
/// the last lines and how it ended.
#[derive(Debug)]
pub enum Step {
    Go { next: TurnCommand, line: Option<Json>, task: Task },
    Over { lines: Vec<Json>, result: Result<()> },
}

/// Whether a step is the end with an error, of which a line tells a sentence.
pub open spec fn is_failure(r: Step, e: ClipKnowError, said: Seq<char>) -> bool {
    r matches Step::Over { lines, result } && result == Err::<(), ClipKnowError>(e) && lines@.len()
        == 1 && lines@[0]@ == wire::error_tree(said)
}

/// Whether a step is the end with an error that is told as it is.
pub open spec fn fails_with(r: Step, e: ClipKnowError) -> bool {
    is_failure(r, e, error::error_text(e))
}

/// Whether a step is the end with a complaint about what was asked.
pub open spec fn refuses(r: Step, why: Seq<char>) -> bool {
    r matches Step::Over { lines, result } && (result matches Err(
        ClipKnowError::BadRequest(m),
    ) && m@ == why) && lines@.len() == 1 && lines@[0]@ == wire::error_tree(why)
}

/// Whether a step goes on with the same limits and question.
pub open spec fn goes_on(c: TurnCommand, r: Step) -> bool {
    r matches Step::Go { next, line, task } && next.cfg == c.cfg && next.question == c.question
}

/// What somebody is told of who answers.
pub open spec fn greeting(session: Seq<char>, who: Who) -> crate::json::Tree {
    wire::hello_tree(session, who.model@, text::opt(who.vision))
}

/// Whether a step runs the turn in a conversation, after it was said who answers.
pub open spec fn runs(r: Step, session: Seq<char>, who: Who) -> bool {
    r matches Step::Go { next, line, task } && (line matches Some(l) && l@ == greeting(session, who))
        && (next.stage matches CommandStage::Running { session: s } && s@ == session) && (
    task matches Task::Run { session: s } && s@ == session)
}

/// Whether a step is the end of a turn that was run.
pub open spec fn ends_well(r: Step, ran: Ran, cfg: LoopConfig) -> bool {
    r matches Step::Over { lines, result } && result is Ok && lines@.len() == 2 && lines@[0]@
        == wire::usage_tree(ran.res, ran.cost@) && lines@[1]@ == wire::done_tree(
        ran.res.outcome,
        cli::note_on(ran.res, cfg),
    )
}

/// Whether an event is what came of what had to be done.
pub open spec fn fits(s: CommandStage, e: Event) -> bool {
    match s {
        CommandStage::Opening { provider, session } => e is Opened,
        CommandStage::Connecting { session } => e is Connected,
        CommandStage::Finding { id, who } => e is Found,
        CommandStage::Creating { who } => e is Created,
        CommandStage::Running { session } => e is Finished,
        CommandStage::Saving { session, ran } => e is Saved,
    }
}

/// What is said where there is no such conversation.
pub open spec fn no_session_text(id: Seq<char>) -> Seq<char> {
    "没有这个会话: "@ + id + "（会话由 `turn` 自己创建，id 在 hello 那一行里）"@
}

/// Whether a step saves a turn that was run.
pub open spec fn saves(c: TurnCommand, r: Step, session: String, ran: Ran) -> bool {
    r matches Step::Go { next, line, task } && line is None && next.stage == (
    CommandStage::Saving { session, ran }) && (task matches Task::Save { session: s, record } && s@
        == session@ && cli::is_record(record, ran.res, c.question@, ran.is_first))
}

/// Whether a step is what follows an event.
pub open spec fn follows(c: TurnCommand, e: Event, r: Step) -> bool {
    match (c.stage, e) {
        (CommandStage::Opening { provider, session }, Event::Opened(x)) => match x {
            Err(e) => fails_with(r, e),
            Ok(_) => goes_on(c, r) && (r matches Step::Go { next, line, task } && line is None
                && next.stage == (CommandStage::Connecting { session }) && task == (Task::Connect {
                provider,
            })),
        },
        (CommandStage::Connecting { session }, Event::Connected(x)) => match x {
            Err(e) => fails_with(r, e),
            Ok(who) => goes_on(c, r) && (r matches Step::Go { next, line, task } && line is None
                && match session {
                Some(id) => next.stage == (CommandStage::Finding { id, who }) && (
                task matches Task::FindSession { id: s } && s@ == id@),
                None => next.stage == (CommandStage::Creating { who }) && task == Task::NewSession,
            }),
        },
        (CommandStage::Finding { id, who }, Event::Found(x)) => match x {
            Err(e) => fails_with(r, e),
            Ok(there) => if there {
                goes_on(c, r) && runs(r, id@, who)
            } else {
                refuses(r, no_session_text(id@))
            },
        },
        (CommandStage::Creating { who }, Event::Created(x)) => match x {
            Err(e) => fails_with(r, e),
            Ok(id) => goes_on(c, r) && runs(r, id@, who),
        },
        (CommandStage::Running { session }, Event::Finished(x)) => match x {
            Err(e) => fails_with(r, e),
            Ok(ran) => if ran.res.outcome is ContextBudget {
                ends_well(r, ran, c.cfg)
            } else {
                goes_on(c, r) && saves(c, r, session, ran)
            },
        },
        (CommandStage::Saving { session, ran }, Event::Saved(x)) => match x {
            Err(e) => is_failure(r, e, "写库失败: "@ + error::error_text(e)),
            Ok(_) => ends_well(r, ran, c.cfg),
        },
        _ => false,
    }
}

fn fail(e: ClipKnowError) -> (r: Step)
    ensures
        fails_with(r, e),
{
    let line = error_json(e.message().as_str());
    Step::Over { lines: vec![line], result: Err(e) }
}

fn end(ran: &Ran, cost: Json, cfg: &LoopConfig) -> (r: Step)
    requires
        cost@ == ran.cost@,
    ensures
        ends_well(r, *ran, *cfg),
{
    let usage = usage_json(&ran.res, cost);
    let done = done_json(&ran.res.outcome, outcome_note(&ran.res, cfg).as_str());
    Step::Over { lines: vec![usage, done], result: Ok(()) }
}

fn run_in(cfg: LoopConfig, question: String, session: String, who: Who) -> (r: Step)
    ensures
        r matches Step::Go { next, line, task } && next.cfg == cfg && next.question == question,
        runs(r, session@, who),
{
    let vision = match &who.vision {
        Some(v) => Some(v.as_str()),
        None => None,
    };
    let line = hello_json(session.as_str(), who.model.as_str(), vision);
    let task = Task::Run { session: session.as_str().to_owned() };
    Step::Go {
        next: TurnCommand { cfg, question, stage: CommandStage::Running { session } },
        line: Some(line),
        task,
    }
}

impl TurnCommand {
    /// Looks at the arguments: the limits first, and then the supplier. Nothing is
    /// opened where something is wrong with them.
    pub fn start(
        overrides: &GateOverrides,
        provider: Option<&str>,
        session: Option<String>,
        question: &str,
    ) -> (r: Step)
        ensures
            match (cli::objection(cli::overridden(*overrides)), provider) {
                (Some(why), _) => refuses(r, why),
                (None, Some(name)) if llm::provider_named(name@) is None => refuses(
                    r,
                    cli::unknown_provider(name@),
                ),
                _ => r matches Step::Go { next, line, task } && line is None && task
                    == Task::OpenStore && next.cfg == cli::overridden(*overrides)
                    && runner::consistent(next.cfg) && next.question@ == question@ && next.stage == (
                CommandStage::Opening {
                    provider: match provider {
                        Some(name) => llm::provider_named(name@),
                        None => None,
                    },
                    session,
                }),
            },
    {
        let cfg = match overrides.apply() {
            Ok(c) => c,
            Err(e) => return fail(e),
        };
        let chosen = match parse_provider(provider) {
            Ok(p) => p,
            Err(e) => return fail(e),
        };
        Step::Go {
            next: TurnCommand {
                cfg,
                question: question.to_owned(),
                stage: CommandStage::Opening { provider: chosen, session },
            },
            line: None,
            task: Task::OpenStore,
        }
    }

    /// What follows what came of the last thing that had to be done.
    pub fn advance(self, event: Event) -> (r: Step)
        requires
            fits(self.stage, event),
        ensures
            follows(self, event, r),
    {
        let TurnCommand { cfg, question, stage } = self;
        match (stage, event) {
            (CommandStage::Opening { provider, session }, Event::Opened(x)) => match x {
                Err(e) => fail(e),
                Ok(_) => Step::Go {
                    next: TurnCommand { cfg, question, stage: CommandStage::Connecting { session } },
                    line: None,
                    task: Task::Connect { provider },
                },
            },
            (CommandStage::Connecting { session }, Event::Connected(x)) => match (x, session) {
                (Err(e), _) => fail(e),
                (Ok(who), Some(id)) => {
                    let task = Task::FindSession { id: id.as_str().to_owned() };
                    Step::Go {
                        next: TurnCommand {
                            cfg,
                            question,
                            stage: CommandStage::Finding { id, who },
                        },
                        line: None,
                        task,
                    }
                },
                (Ok(who), None) => Step::Go {
                    next: TurnCommand { cfg, question, stage: CommandStage::Creating { who } },
                    line: None,
                    task: Task::NewSession,
                },
            },
            (CommandStage::Finding { id, who }, Event::Found(x)) => match x {
                Err(e) => fail(e),
                Ok(there) => if there {
                    run_in(cfg, question, id, who)
                } else {
                    fail(
                        ClipKnowError::BadRequest(
                            "没有这个会话: ".to_owned().concat(id.as_str()).concat(
                                "（会话由 `turn` 自己创建，id 在 hello 那一行里）",
                            ),
                        ),
                    )
                },
            },
            (CommandStage::Creating { who }, Event::Created(x)) => match x {
                Err(e) => fail(e),
                Ok(id) => run_in(cfg, question, id, who),
            },
            (CommandStage::Running { session }, Event::Finished(x)) => match x {
                Err(e) => fail(e),
                Ok(ran) => match record_of(&ran.res, question.as_str(), ran.is_first) {
                    None => end(&ran, ran.cost.copy(), &cfg),
                    Some(record) => {
                        let task = Task::Save { session: session.as_str().to_owned(), record };
                        Step::Go {
                            next: TurnCommand {
                                cfg,
                                question,
                                stage: CommandStage::Saving { session, ran },
                            },
                            line: None,
                            task,
                        }
                    },
                },
            },
            (CommandStage::Saving { session: _, ran }, Event::Saved(x)) => match x {
                Err(e) => {
                    let line = error_json(
                        "写库失败: ".to_owned().concat(e.message().as_str()).as_str(),
                    );
                    Step::Over { lines: vec![line], result: Err(e) }
                },
                Ok(_) => end(&ran, ran.cost.copy(), &cfg),
            },
            (_, _) => {
                assert(false);
                Step::Over { lines: Vec::new(), result: Ok(()) }
            },
        }
    }
}

// ---------------------------------------------------------------------------
// What holds of every run
// ---------------------------------------------------------------------------

/// Whatever goes wrong is told: an end with an error has one line, and the line is
/// an error.
pub proof fn law_failures_are_told(c: TurnCommand, e: Event, r: Step)
    requires
        follows(c, e, r),
        r matches Step::Over { lines, result } && result is Err,
    ensures
        r matches Step::Over { lines, result } && lines@.len() == 1 && exists|said: Seq<char>|
            lines@[0]@ == wire::error_tree(said),
{
}

/// Nothing is said to be done that was not stored, unless nothing was sent and
/// there is nothing to store.
pub proof fn law_done_means_stored(c: TurnCommand, e: Event, r: Step)
    requires
        follows(c, e, r),
        r matches Step::Over { lines, result } && result is Ok,
    ensures
        (c.stage is Saving && (e matches Event::Saved(x) && x is Ok)) || (c.stage is Running && (
        e matches Event::Finished(Ok(ran)) && ran.res.outcome is ContextBudget)),
{
}

/// How many things are left to do, at most.
pub open spec fn tasks_left(s: CommandStage) -> int {
    match s {
        CommandStage::Opening { provider, session } => 5,
        CommandStage::Connecting { session } => 4,
        CommandStage::Finding { id, who } => 3,
        CommandStage::Creating { who } => 3,
        CommandStage::Running { session } => 2,
        CommandStage::Saving { session, ran } => 1,
    }
}

/// The command comes to its end.
pub proof fn law_the_end_comes_nearer(c: TurnCommand, e: Event, r: Step)
    requires
        follows(c, e, r),
    ensures
        r matches Step::Go { next, line, task } ==> tasks_left(next.stage) < tasks_left(c.stage),
{
}

/// It is said once who answers, and before the turn is run.
pub proof fn law_hello_comes_before_the_turn(c: TurnCommand, e: Event, r: Step)
    requires
        follows(c, e, r),
    ensures
        r matches Step::Go { next, line, task } ==> (line is Some <==> task is Run) && (
        task is Run <==> next.stage is Running),
{
}

} // verus!
