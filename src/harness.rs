//! The control protocol of the execution thread: commands from the observer
//! drive a paused / running / stopped state, and each decision says what the
//! thread does next with the machine.

use vstd::prelude::*;

use crate::machine::ArchState;
use crate::model::{fetchable, tick_spec, Fault, MachineView};

verus! {

/// A command from the observer, applied in the order sent.
#[derive(Clone, Copy, Debug, PartialEq, Eq, Structural)]
pub enum Command {
    /// `true` pauses execution, `false` resumes it.
    SetPause(bool),
    /// Executes exactly one instruction while paused.
    Step,
    /// Stops execution for good.
    Quit,
}

/// Why execution stopped.
#[derive(Clone, Copy, Debug, PartialEq, Eq, Structural)]
pub enum Stop {
    /// The observer sent `Quit`.
    Quit,
    /// `tick` reported `fault` with the program counter at `pc`.
    Fault { fault: Fault, pc: i64 },
}

/// Where the execution thread stands.
#[derive(Clone, Copy, Debug, PartialEq, Eq, Structural)]
pub enum RunState {
    Paused,
    Running,
    Stopped { reason: Stop },
}

/// What the execution thread does next.
#[derive(Clone, Copy, Debug, PartialEq, Eq, Structural)]
pub enum Action {
    /// Block until the next command arrives.
    WaitForCommand,
    /// Take any pending commands, then run one `tick`.
    Tick,
    /// Leave the loop.
    Exit,
}

/// The run state after one `tick` whose outcome is `r`, from a state at
/// program counter `pc`: a fault stops execution, otherwise it stays `after`.
pub open spec fn after_tick(after: RunState, r: Result<(), Fault>, pc: int) -> RunState {
    match r {
        Ok(()) => after,
        Err(f) => RunState::Stopped { reason: Stop::Fault { fault: f, pc: pc as i64 } },
    }
}

/// The run state and machine after `cmd` arrives in state `st` with machine `m`.
pub open spec fn on_command(st: RunState, cmd: Command, m: MachineView) -> (RunState, MachineView) {
    match st {
        RunState::Stopped { .. } => (st, m),
        _ => match cmd {
            Command::Quit => (RunState::Stopped { reason: Stop::Quit }, m),
            Command::SetPause(p) => (if p { RunState::Paused } else { RunState::Running }, m),
            Command::Step => if st is Paused {
                let (m2, r) = tick_spec(m);
                (after_tick(RunState::Paused, r, m.pc), m2)
            } else {
                (st, m)
            },
        },
    }
}

/// The run state and machine after one free-running step in state `st`.
pub open spec fn on_idle(st: RunState, m: MachineView) -> (RunState, MachineView) {
    if st is Running {
        let (m2, r) = tick_spec(m);
        (after_tick(RunState::Running, r, m.pc), m2)
    } else {
        (st, m)
    }
}

/// The action that the thread takes in state `st`.
pub open spec fn action_of(st: RunState) -> Action {
    match st {
        RunState::Paused => Action::WaitForCommand,
        RunState::Running => Action::Tick,
        RunState::Stopped { .. } => Action::Exit,
    }
}

/// The decisions of the execution thread.
pub struct Harness {
    pub state: RunState,
}

impl Harness {
    /// A harness in its initial state, `Paused`.
    pub fn new() -> (r: Harness)
        ensures
            r.state == RunState::Paused,
    {
        Harness { state: RunState::Paused }
    }

    /// What the thread does next: wait for a command while paused, tick while
    /// running, leave once stopped.
    pub fn next_action(&self) -> (a: Action)
        ensures
            a == action_of(self.state),
    {
        match self.state {
            RunState::Paused => Action::WaitForCommand,
            RunState::Running => Action::Tick,
            RunState::Stopped { .. } => Action::Exit,
        }
    }

    /// Whether the thread has left its loop for good.
    pub fn is_stopped(&self) -> (b: bool)
        ensures
            b == (self.state is Stopped),
    {
        matches!(self.state, RunState::Stopped { .. })
    }

    /// Applies one command; a `Step` while paused runs exactly one `tick` on
    /// `machine`, and a fault from it stops execution.
    pub fn handle(&mut self, machine: &mut ArchState, cmd: Command)
        ensures
            (final(self).state, final(machine)@) == on_command(old(self).state, cmd, old(machine)@),
    {
        if self.is_stopped() {
            return;
        }
        match cmd {
            Command::Quit => {
                self.state = RunState::Stopped { reason: Stop::Quit };
            },
            Command::SetPause(p) => {
                self.state = if p {
                    RunState::Paused
                } else {
                    RunState::Running
                };
            },
            Command::Step => {
                if matches!(self.state, RunState::Paused) {
                    let pc = machine.pc();
                    let r = machine.tick();
                    self.state = Self::settle(RunState::Paused, r, pc);
                }
            },
        }
    }

    /// One free-running step: while running, runs exactly one `tick` on
    /// `machine`, and a fault from it stops execution; otherwise nothing.
    pub fn run_once(&mut self, machine: &mut ArchState)
        ensures
            (final(self).state, final(machine)@) == on_idle(old(self).state, old(machine)@),
    {
        if matches!(self.state, RunState::Running) {
            let pc = machine.pc();
            let r = machine.tick();
            self.state = Self::settle(RunState::Running, r, pc);
        }
    }

    fn settle(after: RunState, r: Result<(), Fault>, pc: i64) -> (st: RunState)
        ensures
            st == after_tick(after, r, pc as int),
    {
        match r {
            Ok(()) => after,
            Err(f) => RunState::Stopped { reason: Stop::Fault { fault: f, pc } },
        }
    }
}

/// While paused, one `Step` changes the machine by exactly one tick, and the
/// thread then waits for the next command: no further tick follows without
/// one. Without a command a paused thread changes nothing.
pub proof fn lemma_step_is_one_tick(m: MachineView)
    ensures
        on_command(RunState::Paused, Command::Step, m).1 == tick_spec(m).0,
        action_of(on_command(RunState::Paused, Command::Step, m).0) != Action::Tick,
        tick_spec(m).1 is Ok ==> on_command(RunState::Paused, Command::Step, m).0
            == RunState::Paused,
        on_idle(RunState::Paused, m) == (RunState::Paused, m),
{
}

/// A fetch outside memory faults with `MemoryOutOfBounds` and changes nothing.
pub proof fn lemma_fetch_out_of_bounds(m: MachineView)
    requires
        !fetchable(m),
    ensures
        tick_spec(m) == (m, Err::<(), Fault>(Fault::MemoryOutOfBounds)),
{
}

/// A fault from the tick of a `Step` or of a free-running step stops the
/// harness with that fault and the program counter it happened at, leaves the
/// machine as it was, and the thread then leaves its loop; once stopped, no
/// command ticks again.
pub proof fn lemma_fault_stops(m: MachineView, cmd: Command)
    requires
        tick_spec(m).1 is Err,
    ensures
        ({
            let stopped = RunState::Stopped {
                reason: Stop::Fault { fault: tick_spec(m).1->Err_0, pc: m.pc as i64 },
            };
            &&& on_command(RunState::Paused, Command::Step, m) == (stopped, m)
            &&& on_idle(RunState::Running, m) == (stopped, m)
            &&& action_of(stopped) == Action::Exit
            &&& on_command(stopped, cmd, m) == (stopped, m)
            &&& on_idle(stopped, m) == (stopped, m)
        }),
{
}

} // verus!
