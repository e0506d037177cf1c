//! The debug controller: a state machine over the engine with breakpoints.
use vstd::prelude::*;

use crate::command::Command;
use crate::disassembler::{mnemonic, Disassembler};
use crate::emulator::{opcode_at, redraws, step_next, Emulator, ExecError, Machine, MEMORY_SIZE};

verus! {

/// Where the debug controller stands.
#[derive(Clone, Copy, Debug, PartialEq, Eq, Structural)]
pub enum State {
    /// Running, for the given number of further instructions or without end.
    Running(Option<u32>),
    /// Waiting for a command.
    Paused,
    /// The program counter has reached a breakpoint.
    HitBreakpoint,
    /// The session is over.
    Stopped,
}

/// What one iteration of the controller loop does besides changing state.
#[derive(Clone, Copy, Debug, PartialEq, Eq, Structural)]
pub enum Action {
    /// Execute one instruction.
    StepEngine,
    /// Read the next command.
    AwaitCommand,
    /// Report the breakpoint at the program counter.
    ReportBreakpoint,
    /// Leave the loop.
    Exit,
    /// Nothing.
    Idle,
}

/// What an iteration of the controller loop did.
#[derive(Clone, Copy, Debug, PartialEq, Eq, Structural)]
pub enum Tick {
    /// One instruction was executed; tells whether the framebuffer may have changed.
    Stepped(bool),
    /// The controller waits for a command.
    AwaitCommand,
    /// The program counter reached a breakpoint, at the given address.
    BreakpointHit(usize),
    /// The session is over.
    Exit,
    /// Only the state changed.
    Idle,
}

/// The answer to a command, for the operator.
pub enum Reply {
    /// Nothing to show.
    Nothing,
    /// The breakpoint addresses, in the order they were added.
    Breakpoints(Vec<u16>),
    /// Show the program counter, index, registers and stack.
    Registers,
    /// The mnemonic of the instruction asked for.
    Disassembly(String),
    /// Show the help text.
    Help,
    /// The line named no command.
    UnknownCommand,
    /// The address given was malformed or outside memory.
    InvalidAddress,
}

/// One iteration of the controller loop: the next state, the next value of
/// the one-shot suppression flag, and the action taken. The breakpoint
/// check applies only while running, and not on the first iteration after
/// a step or continue command.
pub open spec fn decide(state: State, skip: bool, at_breakpoint: bool) -> (State, bool, Action) {
    let s = if !skip && state is Running && at_breakpoint {
        State::HitBreakpoint
    } else {
        state
    };
    match s {
        State::Running(None) => (s, false, Action::StepEngine),
        State::Running(Some(n)) => if n == 0 {
            (State::Paused, false, Action::Idle)
        } else {
            (State::Running(Some((n - 1) as u32)), false, Action::StepEngine)
        },
        State::Paused => (s, false, Action::AwaitCommand),
        State::Stopped => (s, false, Action::Exit),
        State::HitBreakpoint => (State::Paused, false, Action::ReportBreakpoint),
    }
}

/// One iteration of the controller loop over machine `m` with breakpoints
/// `bps`: the next state and suppression flag, the machine afterwards, and
/// what the iteration reports.
pub open spec fn tick_next(state: State, skip: bool, bps: Seq<u16>, m: Machine) -> (
    State,
    bool,
    Machine,
    Result<Tick, ExecError>,
) {
    let (s, k, a) = decide(state, skip, bps.contains(m.pc as u16));
    match a {
        Action::StepEngine => match step_next(m) {
            Ok(m2) => (s, k, m2, Ok(Tick::Stepped(redraws(opcode_at(m.memory, m.pc))))),
            Err(e) => (State::Stopped, k, m, Err(e)),
        },
        Action::AwaitCommand => (s, k, m, Ok(Tick::AwaitCommand)),
        Action::ReportBreakpoint => (s, k, m, Ok(Tick::BreakpointHit(m.pc as usize))),
        Action::Exit => (s, k, m, Ok(Tick::Exit)),
        Action::Idle => (s, k, m, Ok(Tick::Idle)),
    }
}

/// State, suppression flag and machine after `k` iterations of the loop
/// that read no command.
pub open spec fn ticks(state: State, skip: bool, bps: Seq<u16>, m: Machine, k: nat) -> (
    State,
    bool,
    Machine,
)
    decreases k,
{
    if k == 0 {
        (state, skip, m)
    } else {
        let (s, sk, m2, _) = tick_next(state, skip, bps, m);
        ticks(s, sk, bps, m2, (k - 1) as nat)
    }
}

/// State and suppression flag after command `cmd`.
pub open spec fn after_command(state: State, skip: bool, cmd: Command) -> (State, bool) {
    match cmd {
        Command::Step(n) => (State::Running(Some(n)), true),
        Command::Continue => (State::Running(None), true),
        Command::Quit => (State::Stopped, skip),
        _ => (state, skip),
    }
}

/// The interactive controller: a state, a set of breakpoint addresses and
/// the one-shot flag that suppresses the breakpoint check once after resuming.
pub struct Debugger {
    pub state: State,
    pub breakpoints: Vec<u16>,
    pub skip: bool,
}

impl Debugger {
    /// A stopped controller without breakpoints.
    pub fn new() -> (r: Debugger)
        ensures
            r.state == State::Stopped,
            r.breakpoints@.len() == 0,
            !r.skip,
    {
        Debugger { state: State::Stopped, breakpoints: Vec::new(), skip: false }
    }

    /// Starts a session: the controller pauses for its first command.
    pub fn start(&mut self)
        ensures
            final(self).state == State::Paused,
            !final(self).skip,
            final(self).breakpoints@ == old(self).breakpoints@,
    {
        self.state = State::Paused;
        self.skip = false;
    }

    /// Whether `addr` is a breakpoint.
    pub fn is_breakpoint(&self, addr: u16) -> (r: bool)
        ensures
            r == self.breakpoints@.contains(addr),
    {
        let mut i: usize = 0;
        while i < self.breakpoints.len()
            invariant
                i <= self.breakpoints@.len(),
                forall|j: int| 0 <= j < i ==> self.breakpoints@[j] != addr,
            decreases self.breakpoints@.len() - i,
        {
            if self.breakpoints[i] == addr {
                return true;
            }
            i = i + 1;
        }
        false
    }

    /// One iteration of the controller loop, short of reading a command, as
    /// `tick_next` says: checks for a breakpoint, moves the state on and
    /// executes an instruction where `decide` says so. An engine error stops
    /// the session and is returned.
    pub fn tick(&mut self, emu: &mut Emulator) -> (r: Result<Tick, ExecError>)
        ensures
            (final(self).state, final(self).skip, final(emu)@, r) == tick_next(
                old(self).state,
                old(self).skip,
                old(self).breakpoints@,
                old(emu)@,
            ),
            final(self).breakpoints@ == old(self).breakpoints@,
    {
        let running = match self.state {
            State::Running(_) => true,
            _ => false,
        };
        if !self.skip && running {
            if self.is_breakpoint(emu.pc as u16) {
                self.state = State::HitBreakpoint;
            }
        } else {
            self.skip = false;
        }
        match self.state {
            State::Running(None) => {},
            State::Running(Some(n)) => {
                if n == 0 {
                    self.state = State::Paused;
                    return Ok(Tick::Idle);
                }
                self.state = State::Running(Some(n - 1));
            },
            State::Paused => {
                return Ok(Tick::AwaitCommand);
            },
            State::Stopped => {
                return Ok(Tick::Exit);
            },
            State::HitBreakpoint => {
                self.state = State::Paused;
                return Ok(Tick::BreakpointHit(emu.pc));
            },
        }
        match emu.step() {
            Ok(redraw) => Ok(Tick::Stepped(redraw)),
            Err(e) => {
                self.state = State::Stopped;
                Err(e)
            },
        }
    }

    /// Carries out command `cmd` against `emu`: moves the state on as
    /// `after_command` says, edits the breakpoints, or answers a query.
    pub fn command(&mut self, cmd: Command, emu: &Emulator) -> (r: Reply)
        ensures
            (final(self).state, final(self).skip) == after_command(
                old(self).state,
                old(self).skip,
                cmd,
            ),
            match cmd {
                Command::AddBreakpoint(a) => final(self).breakpoints@ == if old(
                    self,
                ).breakpoints@.contains(a) {
                    old(self).breakpoints@
                } else {
                    old(self).breakpoints@.push(a)
                },
                Command::DeleteBreakpoint(a) => forall|b: u16|
                    final(self).breakpoints@.contains(b) <==> old(self).breakpoints@.contains(b)
                        && b != a,
                _ => final(self).breakpoints@ == old(self).breakpoints@,
            },
            match cmd {
                Command::ListBreakpoints => r is Breakpoints && r->Breakpoints_0@ == old(
                    self,
                ).breakpoints@,
                Command::Print => r is Registers,
                Command::Examine(a) => if a + 1 < MEMORY_SIZE {
                    r is Disassembly && r->Disassembly_0@ == mnemonic(
                        opcode_at(emu@.memory, a as int),
                    )
                } else {
                    r is InvalidAddress
                },
                Command::Help => r is Help,
                Command::Unknown => r is UnknownCommand,
                Command::InvalidAddress => r is InvalidAddress,
                _ => r is Nothing,
            },
    {
        match cmd {
            Command::Step(n) => {
                self.state = State::Running(Some(n));
                self.skip = true;
                Reply::Nothing
            },
            Command::Continue => {
                self.state = State::Running(None);
                self.skip = true;
                Reply::Nothing
            },
            Command::AddBreakpoint(a) => {
                if !self.is_breakpoint(a) {
                    self.breakpoints.push(a);
                }
                Reply::Nothing
            },
            Command::DeleteBreakpoint(a) => {
                let mut kept: Vec<u16> = Vec::new();
                let mut i: usize = 0;
                while i < self.breakpoints.len()
                    invariant
                        i <= self.breakpoints@.len(),
                        self.breakpoints@ == old(self).breakpoints@,
                        forall|b: u16|
                            kept@.contains(b) <==> (exists|j: int|
                                0 <= j < i && self.breakpoints@[j] == b) && b != a,
                    decreases self.breakpoints@.len() - i,
                {
                    let b = self.breakpoints[i];
                    let ghost before = kept@;
                    if b != a {
                        kept.push(b);
                    }
                    assert forall|c: u16|
                        kept@.contains(c) <==> (exists|j: int|
                            0 <= j < i + 1 && self.breakpoints@[j] == c) && c != a by {
                        if kept@.contains(c) && !before.contains(c) {
                            assert(c == b);
                        }
                        if exists|j: int| 0 <= j < i + 1 && self.breakpoints@[j] == c {
                            let j = choose|j: int| 0 <= j < i + 1 && self.breakpoints@[j] == c;
                            if j == i && c != a {
                                assert(kept@[kept@.len() - 1] == c);
                            }
                        }
                        if before.contains(c) {
                            let k = choose|k: int| 0 <= k < before.len() && before[k] == c;
                            assert(kept@[k] == c);
                        }
                    }
                    i = i + 1;
                }
                self.breakpoints = kept;
                Reply::Nothing
            },
            Command::ListBreakpoints => Reply::Breakpoints(self.breakpoints.clone()),
            Command::Print => Reply::Registers,
            Command::Examine(a) => {
                if a as usize + 1 >= MEMORY_SIZE {
                    return Reply::InvalidAddress;
                }
                let op = emu.memory[a as usize] as u16 * 256 + emu.memory[a as usize + 1] as u16;
                let dis = Disassembler::new();
                Reply::Disassembly(dis.disassemble_opcode(op))
            },
            Command::Help => Reply::Help,
            Command::Quit => {
                self.state = State::Stopped;
                Reply::Nothing
            },
            Command::Empty => Reply::Nothing,
            Command::Unknown => Reply::UnknownCommand,
            Command::InvalidAddress => Reply::InvalidAddress,
        }
    }
}

impl Default for Debugger {
    fn default() -> (r: Debugger)
        ensures
            r.state == State::Stopped,
            r.breakpoints@.len() == 0,
            !r.skip,
    {
        Debugger::new()
    }
}

} // verus!
