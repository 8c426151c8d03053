//! Named test cases, the order in which they run, and how one run ends.
//!
//! A test case is run in three steps. [`TestCase::start`] makes the fresh
//! context. The caller then runs the body, which is opaque to this module,
//! against that context. [`TestCase::run`] takes the context back together
//! with what the body returned and says how the run ends: which rockets are
//! still to be killed, which lines are to be printed, and whether the test
//! case passed. The kills come first and do not depend on the outcome.

use vstd::prelude::*;

use crate::api::Api;
use crate::context::TestCtx;
use crate::logger::LoggerRef;
use crate::rocket::{pending_kills, KillOrder, RocketShared, RocketState, KILL_TIMEOUT_MS, RocketRef};

verus! {

/// A test case: its name, and its body, which the caller knows how to run.
#[derive(Clone, Debug)]
pub struct TestCase<B> {
    pub path: String,
    pub run: B,
}

/// The test cases of a run, in the order in which they are executed.
#[derive(Debug)]
pub struct Registry<B> {
    pub cases: Vec<TestCase<B>>,
}

/// Why a test case failed.
#[derive(Debug, PartialEq, Eq)]
pub enum TestFailure<E> {
    /// The body returned this error.
    Body(E),
    /// The body returned without an error, and soft failures were recorded;
    /// this is the message of the first.
    Soft(String),
}

/// How the run of a test case ends.
#[derive(Debug)]
pub struct RunReport<E> {
    /// The terminations to carry out, in this order, before anything else.
    pub kills: Vec<KillOrder>,
    /// The lines to print after that: one for each soft failure.
    pub lines: Vec<String>,
    /// The log, for the next test case.
    pub logger: LoggerRef,
    /// Whether the test case passed.
    pub outcome: Result<(), TestFailure<E>>,
}

/// The line that reports a soft failure.
pub open spec fn failure_line(message: Seq<char>) -> Seq<char> {
    "\u{274c} "@ + message
}

/// The outcome of a test case whose body returned `result` and recorded
/// the soft failures `errors`: the error of the body if there is one, else
/// the first soft failure if there is one, else success.
pub open spec fn outcome_of<E>(result: Result<(), E>, errors: Seq<String>) -> Result<
    (),
    TestFailure<E>,
> {
    match result {
        Err(error) => Err(TestFailure::Body(error)),
        Ok(_) => if errors.len() > 0 {
            Err(TestFailure::Soft(errors[0]))
        } else {
            Ok(())
        },
    }
}

fn orders(rockets: &Vec<RocketShared>) -> (kills: Vec<KillOrder>)
    ensures
        kills@ == pending_kills(rockets@),
{
    let mut kills: Vec<KillOrder> = Vec::new();
    let mut i: usize = 0;
    while i < rockets.len()
        invariant
            i <= rockets.len(),
            kills@ == pending_kills(rockets@.take(i as int)),
        decreases rockets.len() - i,
    {
        assert(rockets@.take(i + 1).drop_last() =~= rockets@.take(i as int));
        match rockets[i].state {
            RocketState::Killed => {},
            _ => {
                kills.push(KillOrder { rocket: RocketRef(i), timeout_ms: KILL_TIMEOUT_MS });
            },
        }
        i = i + 1;
    }
    assert(rockets@.take(i as int) =~= rockets@);
    kills
}

fn report_lines(errors: &Vec<String>) -> (lines: Vec<String>)
    ensures
        lines@.len() == errors@.len(),
        forall|i: int| 0 <= i < lines@.len() ==> (#[trigger] lines@[i])@ == failure_line(errors@[i]@),
{
    let mut lines: Vec<String> = Vec::new();
    let mut i: usize = 0;
    while i < errors.len()
        invariant
            i <= errors.len(),
            lines@.len() == i,
            forall|j: int| 0 <= j < i ==> (#[trigger] lines@[j])@ == failure_line(errors@[j]@),
        decreases errors.len() - i,
    {
        lines.push("\u{274c} ".to_owned().concat(errors[i].as_str()));
        i = i + 1;
    }
    lines
}

impl<B> TestCase<B> {
    /// A test case with the name `path` and the body `run`.
    pub fn new(path: String, run: B) -> (case: TestCase<B>)
        ensures
            case.path == path,
            case.run == run,
    {
        TestCase { path, run }
    }

    /// The name of the test case.
    pub fn path(&self) -> (path: &str)
        ensures
            path@ == self.path@,
    {
        self.path.as_str()
    }

    /// The fresh context for one run of the test case: no soft failure and
    /// no rocket yet.
    pub fn start(&self, logger: LoggerRef, jar: String, api: Api, bonus: bool) -> (ctx: TestCtx)
        ensures
            ctx.jar == jar,
            ctx.api == api,
            ctx.logger == logger,
            ctx.bonus == bonus,
            ctx.errors@.len() == 0,
            ctx.rockets@.len() == 0,
    {
        TestCtx::new(logger, jar, api, bonus)
    }

    /// Ends a run of the test case, given the context as the body left it
    /// and what the body returned. Every rocket of the context that was not
    /// killed yet is to be killed, whatever the body returned; every soft
    /// failure is to be printed; and only the first of them decides the
    /// outcome, and only if the body itself returned without an error.
    pub fn run<E>(&self, ctx: TestCtx, result: Result<(), E>) -> (report: RunReport<E>)
        ensures
            report.kills@ == pending_kills(ctx.rockets@),
            report.lines@.len() == ctx.errors@.len(),
            forall|i: int|
                0 <= i < report.lines@.len() ==> (#[trigger] report.lines@[i])@ == failure_line(
                    ctx.errors@[i]@,
                ),
            report.logger == ctx.logger,
            report.outcome == outcome_of(result, ctx.errors@),
    {
        let kills = orders(&ctx.rockets);
        let lines = report_lines(&ctx.errors);
        let outcome = match result {
            Err(error) => Err(TestFailure::Body(error)),
            Ok(_) => if ctx.errors.len() > 0 {
                Err(TestFailure::Soft(ctx.errors[0].clone()))
            } else {
                Ok(())
            },
        };
        RunReport { kills, lines, logger: ctx.logger, outcome }
    }
}

impl<B> Default for Registry<B> {
    fn default() -> (registry: Registry<B>)
        ensures
            registry.cases@.len() == 0,
    {
        Registry { cases: Vec::new() }
    }
}

impl<B> Registry<B> {
    /// Adds a test case behind those that are there.
    pub fn register(&mut self, case: TestCase<B>)
        ensures
            final(self).cases@ == old(self).cases@.push(case),
    {
        self.cases.push(case);
    }

    /// The test cases in the order in which they were registered, which is
    /// the order in which they run.
    pub fn iter(&self) -> (cases: &[TestCase<B>])
        ensures
            cases@ == self.cases@,
    {
        self.cases.as_slice()
    }
}

} // verus!
