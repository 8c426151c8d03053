//! The life of one launched instance of the system under test.
//!
//! A rocket is spawned, may be found to have exited during the grace period
//! after its start, and is killed at most once. The process itself belongs to
//! the caller; this module decides with which arguments it starts and
//! whether a termination is still due.

use vstd::prelude::*;

use crate::context::TestCtx;
use crate::text::{decimal_text, u64_text};

verus! {

/// How long a launched process is given before it is looked at, in
/// milliseconds.
pub const GRACE_PERIOD_MS: u64 = 200;

/// How long a forced termination may take before it is given up, in
/// milliseconds.
pub const KILL_TIMEOUT_MS: u64 = 1000;

/// Where a rocket stands in its life.
#[derive(Clone, Copy, Debug, PartialEq, Eq, Structural)]
pub enum RocketState {
    /// The process was started and was alive after the grace period.
    Spawned,
    /// The process was started and had exited by the end of the grace
    /// period.
    ExitedEarly,
    /// The termination of the process was ordered. Nothing follows.
    Killed,
}

/// The record of one rocket, which the context of the test case holds.
#[derive(Clone, Copy, Debug, PartialEq, Eq, Structural)]
pub struct RocketShared {
    pub state: RocketState,
}

/// A handle to a rocket: its place among the rockets of its context, in the
/// order in which they were registered. Copies of a handle name the same
/// rocket.
#[derive(Clone, Copy, Debug, PartialEq, Eq, Structural)]
pub struct RocketRef(pub usize);

/// The order to terminate the process of a rocket by force, within a bound.
#[derive(Clone, Copy, Debug, PartialEq, Eq, Structural)]
pub struct KillOrder {
    pub rocket: RocketRef,
    pub timeout_ms: u64,
}

/// How the attempt to terminate a process ended.
#[derive(Clone, Copy, Debug, PartialEq, Eq, Structural)]
pub enum KillOutcome {
    /// The process is gone, or was gone already.
    Done,
    /// The bound passed first.
    TimedOut,
}

/// The rockets of `rockets` whose termination is still due, in their order.
pub open spec fn pending_kills(rockets: Seq<RocketShared>) -> Seq<KillOrder>
    decreases rockets.len(),
{
    if rockets.len() == 0 {
        Seq::empty()
    } else {
        let earlier = pending_kills(rockets.drop_last());
        if rockets.last().state != RocketState::Killed {
            earlier.push(
                KillOrder {
                    rocket: RocketRef((rockets.len() - 1) as usize),
                    timeout_ms: KILL_TIMEOUT_MS,
                },
            )
        } else {
            earlier
        }
    }
}

/// The state after the process was found gone: a spawned rocket has exited
/// early, and any other state stays.
pub open spec fn exit_step(state: RocketState) -> RocketState {
    if state == RocketState::Spawned {
        RocketState::ExitedEarly
    } else {
        state
    }
}

/// One kill: the state that follows, and whether a termination is due.
pub open spec fn kill_step(state: RocketState) -> (RocketState, bool) {
    (RocketState::Killed, state != RocketState::Killed)
}

impl RocketShared {
    /// The record of a process that was just started.
    pub fn new() -> (rocket: RocketShared)
        ensures
            rocket.state == RocketState::Spawned,
    {
        RocketShared { state: RocketState::Spawned }
    }

    /// Records that the process was found gone after the grace period. This
    /// is no failure, and it changes nothing once the rocket is killed.
    pub fn note_exit(&mut self)
        ensures
            final(self).state == exit_step(old(self).state),
    {
        match self.state {
            RocketState::Spawned => {
                self.state = RocketState::ExitedEarly;
            },
            _ => {},
        }
    }

    /// Marks the rocket as killed and says whether a termination is due: it
    /// is due the first time, also for a process that exited early, and
    /// never again.
    pub fn kill(&mut self) -> (due: bool)
        ensures
            (final(self).state, due) == kill_step(old(self).state),
    {
        let due = match self.state {
            RocketState::Killed => false,
            _ => true,
        };
        self.state = RocketState::Killed;
        due
    }
}

impl RocketRef {
    /// Kills the rocket that the handle names, if that is still due. The
    /// caller carries out the order that comes back. A handle that names no
    /// rocket of `ctx`, or one that was killed already, changes nothing.
    pub fn kill(&self, ctx: &mut TestCtx) -> (order: Option<KillOrder>)
        ensures
            final(ctx).same_but_rockets(*old(ctx)),
            self.0 < old(ctx).rockets.len() && old(ctx).rockets[self.0 as int].state
                != RocketState::Killed ==> {
                &&& order == Some(KillOrder { rocket: *self, timeout_ms: KILL_TIMEOUT_MS })
                &&& final(ctx).rockets@ == old(ctx).rockets@.update(
                    self.0 as int,
                    RocketShared { state: RocketState::Killed },
                )
            },
            !(self.0 < old(ctx).rockets.len() && old(ctx).rockets[self.0 as int].state
                != RocketState::Killed) ==> order is None && final(ctx).rockets@ == old(
                ctx,
            ).rockets@,
    {
        if self.0 < ctx.rockets.len() {
            let mut rocket = ctx.rockets[self.0];
            if rocket.kill() {
                ctx.rockets.set(self.0, rocket);
                return Some(KillOrder { rocket: *self, timeout_ms: KILL_TIMEOUT_MS });
            }
        }
        None
    }
}

/// What is to be said of a termination: a warning if the bound passed, and
/// nothing otherwise. Neither outcome is an error.
pub fn kill_warning(outcome: KillOutcome) -> (warning: Option<&'static str>)
    ensures
        outcome == KillOutcome::Done ==> warning is None,
        outcome == KillOutcome::TimedOut ==> (warning matches Some(text) && text@
            == "Rocket kill timeout has expired."@),
{
    match outcome {
        KillOutcome::Done => None,
        KillOutcome::TimedOut => Some("Rocket kill timeout has expired."),
    }
}

/// The command that starts one instance of the system under test.
#[derive(Debug)]
pub struct Launcher {
    pub program: String,
    pub args: Vec<String>,
    pub kill_on_drop: bool,
}

/// The arguments that every launch has: assertions on, the archive to run,
/// and the mark of the bonus variant if that is asked for.
pub open spec fn base_args(jar: Seq<char>, bonus: bool) -> Seq<Seq<char>> {
    let fixed = seq!["-ea"@, "-jar"@, jar];
    if bonus {
        fixed.push("-bonus"@)
    } else {
        fixed
    }
}

impl Launcher {
    /// The arguments of the command, one text each.
    pub open spec fn args_view(&self) -> Seq<Seq<char>> {
        self.args@.map_values(|arg: String| arg@)
    }

    /// The command for the archive of `ctx`, with no option set. The process
    /// is to die with the harness.
    pub fn new(ctx: &TestCtx) -> (launcher: Launcher)
        ensures
            launcher.program@ == "java"@,
            launcher.args_view() == base_args(ctx.jar@, ctx.bonus),
            launcher.kill_on_drop,
    {
        let mut args: Vec<String> = Vec::new();
        args.push("-ea".to_owned());
        args.push("-jar".to_owned());
        args.push(ctx.jar.clone());
        if ctx.bonus {
            args.push("-bonus".to_owned());
        }
        Launcher { program: "java".to_owned(), args, kill_on_drop: true }
    }

    fn with_option(self, flag: &str, value: u64) -> (launcher: Launcher)
        ensures
            launcher.program == self.program,
            launcher.kill_on_drop == self.kill_on_drop,
            launcher.args_view() == self.args_view().push(flag@).push(decimal_text(value as nat)),
    {
        let Launcher { program, mut args, kill_on_drop } = self;
        args.push(flag.to_owned());
        args.push(u64_text(value));
        Launcher { program, args, kill_on_drop }
    }

    /// Sets the number of tickets that the service starts with.
    pub fn with_tickets(self, available: u64) -> (launcher: Launcher)
        ensures
            launcher.program == self.program,
            launcher.kill_on_drop == self.kill_on_drop,
            launcher.args_view() == self.args_view().push("-tickets"@).push(
                decimal_text(available as nat),
            ),
    {
        self.with_option("-tickets", available)
    }

    /// Sets the number of threads of the load balancer.
    pub fn with_balancer_threads(self, threads: u16) -> (launcher: Launcher)
        ensures
            launcher.program == self.program,
            launcher.kill_on_drop == self.kill_on_drop,
            launcher.args_view() == self.args_view().push("-balancer-threads"@).push(
                decimal_text(threads as nat),
            ),
    {
        self.with_option("-balancer-threads", threads as u64)
    }

    /// Sets the timeout of the operations of the service.
    pub fn with_timeout(self, timeout: u16) -> (launcher: Launcher)
        ensures
            launcher.program == self.program,
            launcher.kill_on_drop == self.kill_on_drop,
            launcher.args_view() == self.args_view().push("-timeout"@).push(
                decimal_text(timeout as nat),
            ),
    {
        self.with_option("-timeout", timeout as u64)
    }

    /// Records the process that the caller started with this command and
    /// looked at after the grace period, so that the context kills it when
    /// the test case is over. An early exit is recorded, and is no failure.
    pub fn launch(self, ctx: &mut TestCtx, exited_early: bool) -> (rocket: RocketRef)
        ensures
            final(ctx).same_but_rockets(*old(ctx)),
            rocket.0 == old(ctx).rockets.len(),
            final(ctx).rockets@ == old(ctx).rockets@.push(
                RocketShared {
                    state: if exited_early {
                        RocketState::ExitedEarly
                    } else {
                        RocketState::Spawned
                    },
                },
            ),
    {
        let mut rocket = RocketShared::new();
        if exited_early {
            rocket.note_exit();
        }
        ctx.register_rocket(rocket)
    }
}

/// Teardown kills each rocket at most once. The terminations that are due
/// name rockets of the context that were not killed yet, each within the
/// same bound, in the order in which the rockets were registered and
/// without a repetition; and none that is due is left out.
pub proof fn lemma_pending_kills(rockets: Seq<RocketShared>)
    requires
        rockets.len() <= usize::MAX,
    ensures
        pending_kills(rockets).len() <= rockets.len(),
        forall|k: int|
            0 <= k < pending_kills(rockets).len() ==> {
                let order = #[trigger] pending_kills(rockets)[k];
                &&& order.rocket.0 < rockets.len()
                &&& rockets[order.rocket.0 as int].state != RocketState::Killed
                &&& order.timeout_ms == KILL_TIMEOUT_MS
            },
        forall|j: int, k: int|
            0 <= j < k < pending_kills(rockets).len() ==> (#[trigger] pending_kills(
                rockets,
            )[j]).rocket.0 < (#[trigger] pending_kills(rockets)[k]).rocket.0,
        forall|i: int|
            0 <= i < rockets.len() && (#[trigger] rockets[i]).state != RocketState::Killed
                ==> exists|k: int|
                0 <= k < pending_kills(rockets).len() && (#[trigger] pending_kills(
                    rockets,
                )[k]).rocket.0 == i,
    decreases rockets.len(),
{
    if rockets.len() > 0 {
        let earlier = rockets.drop_last();
        lemma_pending_kills(earlier);
        let orders = pending_kills(rockets);
        let before = pending_kills(earlier);
        assert forall|i: int|
            0 <= i < rockets.len() && (#[trigger] rockets[i]).state
                != RocketState::Killed implies exists|k: int|
            0 <= k < orders.len() && (#[trigger] orders[k]).rocket.0 == i by {
            if i < rockets.len() - 1 {
                assert(earlier[i].state != RocketState::Killed);
                let k = choose|k: int|
                    0 <= k < before.len() && (#[trigger] before[k]).rocket.0 == i;
                assert(orders[k].rocket.0 == i);
            } else {
                assert(orders[orders.len() - 1].rocket.0 == i);
            }
        }
    }
}

/// A rocket is killed exactly once. Whatever its state, also after an early
/// exit, the first kill is due and leaves it killed; a second kill is never
/// due, and nothing leads out of the killed state.
pub proof fn lemma_kill_once(state: RocketState)
    ensures
        kill_step(state).0 == RocketState::Killed,
        kill_step(state).1 == (state != RocketState::Killed),
        kill_step(RocketState::ExitedEarly) == (RocketState::Killed, true),
        kill_step(kill_step(state).0) == (RocketState::Killed, false),
        exit_step(kill_step(state).0) == RocketState::Killed,
{
}

} // verus!
