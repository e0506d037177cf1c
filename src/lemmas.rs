//! Laws that relate several operations of the engine and the controller.
use vstd::prelude::*;

use crate::command::Command;
use crate::debugger::{after_command, decide, tick_next, ticks, Action, State, Tick};
use crate::disassembler::mnemonic;
use crate::emulator::{
    op_class, op_n, op_nn, op_nnn, op_x, op_y, opcode_at, run_from, step_next, ExecError, Machine,
};

verus! {

/// The shape every machine built by `Emulator` has.
pub open spec fn well_formed(m: Machine) -> bool {
    m.memory.len() == 4096 && m.screen.len() == 2048 && m.regs.len() == 16
}

/// Whether the program counter of `m` leaves room to fetch an instruction.
pub open spec fn can_fetch(m: Machine) -> bool {
    0 <= m.pc && m.pc + 1 < 4096
}

proof fn lemma_fields(class: int, x: int, y: int, n: int)
    requires
        0 <= class < 16,
        0 <= x < 16,
        0 <= y < 16,
        0 <= n < 16,
    ensures
        ({
            let op = (class * 4096 + x * 256 + y * 16 + n) as u16;
            &&& op_class(op) == class
            &&& op_x(op) == x
            &&& op_y(op) == y
            &&& op_n(op) == n
            &&& op_nn(op) == y * 16 + n
            &&& op_nnn(op) == x * 256 + y * 16 + n
        }),
{
    let v = class * 4096 + x * 256 + y * 16 + n;
    assert(v < 65536) by (nonlinear_arith)
        requires
            v == class * 4096 + x * 256 + y * 16 + n,
            0 <= class < 16,
            0 <= x < 16,
            0 <= y < 16,
            0 <= n < 16,
    ;
    assert(v / 4096 == class && (v / 256) % 16 == x && (v / 16) % 16 == y && v % 16 == n && v
        % 256 == y * 16 + n && v % 4096 == x * 256 + y * 16 + n) by (nonlinear_arith)
        requires
            v == class * 4096 + x * 256 + y * 16 + n,
            0 <= class < 16,
            0 <= x < 16,
            0 <= y < 16,
            0 <= n < 16,
    ;
}

/// A jump `1nnn` moves the program counter to `nnn`.
pub proof fn lemma_jump_sets_pc(m: Machine, nnn: u16)
    requires
        well_formed(m),
        can_fetch(m),
        nnn < 0x1000,
        opcode_at(m.memory, m.pc) == 0x1000 + nnn,
    ensures
        step_next(m) is Ok,
        step_next(m)->Ok_0.pc == nnn,
{
    lemma_fields(1, (nnn / 256) as int, ((nnn / 16) % 16) as int, (nnn % 16) as int);
}

/// `3xnn` skips the next instruction exactly when `Vx == nn`: the program
/// counter moves on by 4 from the instruction's start, and by 2 otherwise.
pub proof fn lemma_skip_if_equal(m: Machine, x: u16, nn: u16)
    requires
        well_formed(m),
        can_fetch(m),
        x < 16,
        nn < 256,
        opcode_at(m.memory, m.pc) == 0x3000 + x * 256 + nn,
    ensures
        step_next(m) is Ok,
        step_next(m)->Ok_0.pc == m.pc + if m.regs[x as int] == nn {
            4int
        } else {
            2int
        },
{
    lemma_fields(3, x as int, (nn / 16) as int, (nn % 16) as int);
}

/// `7xnn` adds `nn` to `Vx` modulo 256 and, for any `x` other than the flag
/// register itself, leaves the flag register as it was.
pub proof fn lemma_add_immediate(m: Machine, x: u16, nn: u16)
    requires
        well_formed(m),
        can_fetch(m),
        x < 16,
        nn < 256,
        opcode_at(m.memory, m.pc) == 0x7000 + x * 256 + nn,
    ensures
        step_next(m) is Ok,
        step_next(m)->Ok_0.regs[x as int] == (m.regs[x as int] + nn) % 256,
        x != 15 ==> step_next(m)->Ok_0.regs[15] == m.regs[15],
{
    lemma_fields(7, x as int, (nn / 16) as int, (nn % 16) as int);
}

/// `8xy4` sets the flag register to 1 exactly when the unwrapped sum
/// `Vx + Vy` exceeds 255, and to 0 otherwise.
pub proof fn lemma_add_carry(m: Machine, x: u16, y: u16)
    requires
        well_formed(m),
        can_fetch(m),
        x < 16,
        y < 16,
        opcode_at(m.memory, m.pc) == 0x8004 + x * 256 + y * 16,
    ensures
        step_next(m) is Ok,
        step_next(m)->Ok_0.regs[15] == 1 <==> m.regs[x as int] + m.regs[y as int] > 255,
        step_next(m)->Ok_0.regs[15] == 0 <==> m.regs[x as int] + m.regs[y as int] <= 255,
{
    lemma_fields(8, x as int, y as int, 4);
}

/// `8xy5` sets the flag register to 1 exactly when `Vx > Vy` before the
/// subtraction, and to 0 otherwise, whatever the wrapped difference is.
pub proof fn lemma_sub_borrow(m: Machine, x: u16, y: u16)
    requires
        well_formed(m),
        can_fetch(m),
        x < 16,
        y < 16,
        opcode_at(m.memory, m.pc) == 0x8005 + x * 256 + y * 16,
    ensures
        step_next(m) is Ok,
        step_next(m)->Ok_0.regs[15] == 1 <==> m.regs[x as int] > m.regs[y as int],
        step_next(m)->Ok_0.regs[15] == 0 <==> m.regs[x as int] <= m.regs[y as int],
        x != 15 ==> step_next(m)->Ok_0.regs[x as int] == (m.regs[x as int] - m.regs[y as int]
            + 256) % 256,
{
    lemma_fields(8, x as int, y as int, 5);
}

/// `Fx33` stores the three decimal digits of `Vx` at the index register:
/// hundreds, tens and ones, each below 10, and together worth `Vx`.
pub proof fn lemma_bcd(m: Machine, x: u16)
    requires
        well_formed(m),
        can_fetch(m),
        x < 16,
        m.index + 3 <= 4096,
        opcode_at(m.memory, m.pc) == 0xF033 + x * 256,
    ensures
        step_next(m) is Ok,
        ({
            let mem = step_next(m)->Ok_0.memory;
            let i = m.index as int;
            &&& mem[i] < 10 && mem[i + 1] < 10 && mem[i + 2] < 10
            &&& mem[i] * 100 + mem[i + 1] * 10 + mem[i + 2] == m.regs[x as int]
        }),
{
    lemma_fields(0xF, x as int, 3, 3);
}

/// While running without end and with the suppression flag clear, the
/// controller executes one instruction per iteration as long as no
/// instruction fails and no program counter it meets is a breakpoint.
proof fn lemma_running_follows_engine(bps: Seq<u16>, m: Machine, k: nat)
    requires
        run_from(m, k).1 is None,
        forall|j: nat| j < k ==> !bps.contains(#[trigger] run_from(m, j).0.pc as u16),
    ensures
        ticks(State::Running(None), false, bps, m, k) == (
            State::Running(None),
            false,
            run_from(m, k).0,
        ),
    decreases k,
{
    if k > 0 {
        assert(run_from(m, 0).0 == m);
        assert(!bps.contains(run_from(m, 0).0.pc as u16));
        let m2 = step_next(m)->Ok_0;
        assert forall|j: nat| j < (k - 1) as nat implies !bps.contains(
            #[trigger] run_from(m2, j).0.pc as u16,
        ) by {
            assert(run_from(m, j + 1) == run_from(m2, j));
        }
        lemma_running_follows_engine(bps, m2, (k - 1) as nat);
    }
}

/// Once `continue` is issued, the controller executes one instruction per
/// iteration, the first even where the program counter is a breakpoint (the
/// one-shot suppression), and keeps running as long as no instruction fails
/// and no later program counter is a breakpoint: after `k` iterations the
/// machine is the one that `k` steps of the engine reach. There, a
/// breakpoint is reported and the controller pauses; otherwise a failing
/// instruction stops the session.
pub proof fn lemma_continue_runs_to_breakpoint(
    state: State,
    skip: bool,
    bps: Seq<u16>,
    m: Machine,
    k: nat,
)
    requires
        k > 0,
        run_from(m, k).1 is None,
        forall|j: nat| 1 <= j < k ==> !bps.contains(#[trigger] run_from(m, j).0.pc as u16),
    ensures
        ({
            let (s, sk) = after_command(state, skip, Command::Continue);
            ticks(s, sk, bps, m, k) == (State::Running(None), false, run_from(m, k).0)
        }),
        ({
            let reached = run_from(m, k).0;
            &&& bps.contains(reached.pc as u16) ==> tick_next(
                State::Running(None),
                false,
                bps,
                reached,
            ) == (State::Paused, false, reached, Ok::<Tick, ExecError>(
                Tick::BreakpointHit(reached.pc as usize),
            ))
            &&& !bps.contains(reached.pc as u16) && step_next(reached) is Err ==> tick_next(
                State::Running(None),
                false,
                bps,
                reached,
            ) == (State::Stopped, false, reached, Err::<Tick, ExecError>(
                step_next(reached)->Err_0,
            ))
        }),
{
    let m2 = step_next(m)->Ok_0;
    assert forall|j: nat| j < (k - 1) as nat implies !bps.contains(
        #[trigger] run_from(m2, j).0.pc as u16,
    ) by {
        assert(run_from(m, j + 1) == run_from(m2, j));
    }
    lemma_running_follows_engine(bps, m2, (k - 1) as nat);
}

/// Stepping `n` instructions from a breakpoint likewise executes the first
/// one without re-triggering the breakpoint.
pub proof fn lemma_step_leaves_breakpoint(state: State, skip: bool, n: u32, at_breakpoint: bool)
    requires
        n > 0,
    ensures
        ({
            let (s, k) = after_command(state, skip, Command::Step(n));
            decide(s, k, at_breakpoint) == (
                State::Running(Some((n - 1) as u32)),
                false,
                Action::StepEngine,
            )
        }),
{
}

/// The mnemonic of an opcode depends on the opcode alone: two renderings of
/// the same opcode, as `disassemble_opcode` returns them, are the same text.
pub proof fn lemma_disassembly_repeatable(op: u16, first: Seq<char>, second: Seq<char>)
    requires
        first == mnemonic(op),
        second == mnemonic(op),
    ensures
        first == second,
{
}

} // verus!
