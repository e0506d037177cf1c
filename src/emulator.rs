//! The execution engine: guest state, its mathematical model, and the
//! fetch-decode-execute cycle proved against that model.
use vstd::prelude::*;

use crate::font::FONT_BASE_ADDRESS;

verus! {

/// Bytes of guest memory.
pub const MEMORY_SIZE: usize = 4096;

/// Width of the framebuffer in pixels.
pub const SCREEN_WIDTH: usize = 64;

/// Height of the framebuffer in pixels.
pub const SCREEN_HEIGHT: usize = 32;

/// Number of pixels of the framebuffer.
pub const SCREEN_PIXELS: usize = 2048;

/// Address at which guest programs start.
pub const PROGRAM_START: usize = 0x200;

/// The 64x32 monochrome framebuffer, row-major, one byte per pixel
/// (0 is off, anything else is on).
#[derive(Clone)]
pub struct Graphics {
    pub buffer: [u8; 2048],
}

impl Graphics {
    /// A framebuffer with every pixel off.
    pub fn new() -> (r: Graphics)
        ensures
            r.buffer@ == Seq::new(2048, |p: int| 0u8),
    {
        let r = Graphics { buffer: [0u8; 2048] };
        assert(r.buffer@ =~= Seq::new(2048, |p: int| 0u8));
        r
    }

    /// Whether the pixel at column `x`, row `y` is on.
    pub fn pixel(&self, x: usize, y: usize) -> (r: bool)
        requires
            x < SCREEN_WIDTH,
            y < SCREEN_HEIGHT,
        ensures
            r == (self.buffer@[x + y * 64] != 0),
    {
        self.buffer[x + y * 64] != 0
    }
}

/// The key currently held on the 16-key pad, if any.
pub struct KeyState {
    pub key: Option<u8>,
}

/// One general-purpose 8-bit register.
#[derive(Clone, Copy, Debug)]
pub struct Register {
    pub v: u8,
}

/// A fatal condition met while executing a guest program.
#[derive(Clone, Copy, Debug, PartialEq, Eq, Structural)]
pub enum ExecError {
    /// The program counter does not leave room for a two-byte instruction.
    PcOutOfBounds { pc: usize },
    /// A return instruction found the call stack empty.
    StackUnderflow { pc: usize },
    /// The opcode at `pc` names no operation.
    IllegalInstruction { opcode: u16, pc: usize },
    /// A memory access through the index register reaches past memory.
    IndexOutOfBounds { index: u16, pc: usize },
}

/// A program image that cannot be loaded.
#[derive(Clone, Copy, Debug, PartialEq, Eq, Structural)]
pub enum LoadError {
    /// The image holds more bytes than fit.
    ProgramTooLarge { len: usize },
}

/// The guest machine as a mathematical value.
pub struct Machine {
    pub memory: Seq<u8>,
    pub screen: Seq<u8>,
    pub key: Option<u8>,
    pub pc: int,
    pub stack: Seq<u16>,
    pub regs: Seq<u8>,
    pub index: u16,
    pub delay: u8,
    pub sound: u8,
    pub shift_quirk: bool,
}

/// Opcode class: bits 15 to 12.
pub open spec fn op_class(op: u16) -> u16 {
    op / 4096
}

/// First register operand: bits 11 to 8.
pub open spec fn op_x(op: u16) -> u16 {
    (op / 256) % 16
}

/// Second register operand: bits 7 to 4.
pub open spec fn op_y(op: u16) -> u16 {
    (op / 16) % 16
}

/// Low nibble: bits 3 to 0.
pub open spec fn op_n(op: u16) -> u16 {
    op % 16
}

/// Low byte: bits 7 to 0.
pub open spec fn op_nn(op: u16) -> u16 {
    op % 256
}

/// Address operand: bits 11 to 0.
pub open spec fn op_nnn(op: u16) -> u16 {
    op % 4096
}

/// `m` with the program counter moved on by `k` bytes.
pub open spec fn advance(m: Machine, k: int) -> Machine {
    Machine { pc: m.pc + k, ..m }
}

/// `m` past the current instruction, with register `x` set to `v`.
pub open spec fn with_reg(m: Machine, x: int, v: u8) -> Machine {
    Machine { regs: m.regs.update(x, v), pc: m.pc + 2, ..m }
}

/// `m` past the current instruction, with register `x` set to `v` and then
/// the flag register set to `f`.
pub open spec fn with_reg_flag(m: Machine, x: int, v: u8, f: u8) -> Machine {
    Machine { regs: m.regs.update(x, v).update(15, f), pc: m.pc + 2, ..m }
}

/// `m` past the current instruction, skipping the next one as well when `c` holds.
pub open spec fn skip_if(m: Machine, c: bool) -> Machine {
    if c {
        advance(m, 4)
    } else {
        advance(m, 2)
    }
}

/// The error for an opcode that names no operation.
pub open spec fn illegal(m: Machine, op: u16) -> Result<Machine, ExecError> {
    Err(ExecError::IllegalInstruction { opcode: op, pc: m.pc as usize })
}

/// The register-to-register operations of class 8.
pub open spec fn alu_next(m: Machine, op: u16) -> Result<Machine, ExecError> {
    let x = op_x(op) as int;
    let vx = m.regs[x];
    let vy = m.regs[op_y(op) as int];
    let src = if m.shift_quirk { vy } else { vx };
    let n = op_n(op);
    if n == 0 {
        Ok(with_reg(m, x, vy))
    } else if n == 1 {
        Ok(with_reg(m, x, vx | vy))
    } else if n == 2 {
        Ok(with_reg(m, x, vx & vy))
    } else if n == 3 {
        Ok(with_reg(m, x, vx ^ vy))
    } else if n == 4 {
        Ok(with_reg_flag(m, x, ((vx + vy) % 256) as u8, if vx + vy > 255 { 1 } else { 0 }))
    } else if n == 5 {
        Ok(with_reg_flag(m, x, ((vx - vy + 256) % 256) as u8, if vx > vy { 1 } else { 0 }))
    } else if n == 6 {
        Ok(with_reg_flag(m, x, src / 2, src % 2))
    } else if n == 7 {
        Ok(with_reg_flag(m, x, ((vy - vx + 256) % 256) as u8, if vy > vx { 1 } else { 0 }))
    } else if n == 0xE {
        Ok(with_reg_flag(m, x, ((src * 2) % 256) as u8, src / 128))
    } else {
        illegal(m, op)
    }
}

/// Row of the sprite that pixel `p` falls in, for a sprite whose top row is `y0`.
pub open spec fn sprite_row(p: int, y0: int) -> int {
    (p / 64 + 32 - y0) % 32
}

/// Column of the sprite that pixel `p` falls in, for a sprite whose left column is `x0`.
pub open spec fn sprite_col(p: int, x0: int) -> int {
    (p % 64 + 64 - x0) % 64
}

/// Whether an `n`-row sprite read from `mem` at `index` and placed at
/// (`x0`, `y0`), wrapping at both edges, has a set bit over pixel `p`.
/// Each sprite row is one byte, drawn most significant bit first.
pub open spec fn sprite_bit(mem: Seq<u8>, index: int, n: int, x0: int, y0: int, p: int) -> bool {
    let r = sprite_row(p, y0);
    let c = sprite_col(p, x0);
    r < n && c < 8 && (mem[index + r] >> ((7 - c) as u8)) & 1u8 == 1u8
}

/// Pixel `p` after the sprite has been XORed onto `screen`.
pub open spec fn drawn_pixel(
    screen: Seq<u8>,
    mem: Seq<u8>,
    index: int,
    n: int,
    x0: int,
    y0: int,
    p: int,
) -> u8 {
    if (screen[p] != 0) != sprite_bit(mem, index, n, x0, y0, p) {
        1
    } else {
        0
    }
}

/// Whether drawing the sprite turns some pixel off.
pub open spec fn collides(
    screen: Seq<u8>,
    mem: Seq<u8>,
    index: int,
    n: int,
    x0: int,
    y0: int,
) -> bool {
    exists|p: int| 0 <= p < 2048 && screen[p] != 0 && sprite_bit(mem, index, n, x0, y0, p)
}

/// The draw instruction `Dxyn`.
pub open spec fn draw_next(m: Machine, op: u16) -> Result<Machine, ExecError> {
    let n = op_n(op) as int;
    let x0 = (m.regs[op_x(op) as int] % 64) as int;
    let y0 = (m.regs[op_y(op) as int] % 32) as int;
    let i = m.index as int;
    if n > 0 && i + n > 4096 {
        Err(ExecError::IndexOutOfBounds { index: m.index, pc: m.pc as usize })
    } else {
        Ok(
            Machine {
                screen: Seq::new(2048, |p: int| drawn_pixel(m.screen, m.memory, i, n, x0, y0, p)),
                regs: m.regs.update(15, if collides(m.screen, m.memory, i, n, x0, y0) { 1 } else { 0 }),
                pc: m.pc + 2,
                ..m
            },
        )
    }
}

/// The timer, key, index and memory-block operations of class F.
pub open spec fn misc_next(m: Machine, op: u16) -> Result<Machine, ExecError> {
    let x = op_x(op) as int;
    let vx = m.regs[x];
    let i = m.index as int;
    let nn = op_nn(op);
    let next = advance(m, 2);
    if nn == 0x07 {
        Ok(with_reg(m, x, m.delay))
    } else if nn == 0x15 {
        Ok(Machine { delay: vx, ..next })
    } else if nn == 0x18 {
        Ok(Machine { sound: vx, ..next })
    } else if nn == 0x1E {
        Ok(Machine { index: ((i + vx) % 65536) as u16, ..next })
    } else if nn == 0x0A {
        match m.key {
            Some(k) => Ok(with_reg(m, x, k)),
            None => Ok(m),
        }
    } else if nn == 0x29 {
        Ok(Machine { index: (vx * 5 + 0x50) as u16, ..next })
    } else if nn == 0x33 {
        if i + 3 > 4096 {
            Err(ExecError::IndexOutOfBounds { index: m.index, pc: m.pc as usize })
        } else {
            Ok(
                Machine {
                    memory: m.memory.update(i, vx / 100).update(i + 1, (vx / 10) % 10).update(
                        i + 2,
                        vx % 10,
                    ),
                    ..next
                },
            )
        }
    } else if nn == 0x55 {
        if i + x + 1 > 4096 {
            Err(ExecError::IndexOutOfBounds { index: m.index, pc: m.pc as usize })
        } else {
            Ok(
                Machine {
                    memory: Seq::new(
                        m.memory.len(),
                        |a: int|
                            if i <= a <= i + x {
                                m.regs[a - i]
                            } else {
                                m.memory[a]
                            },
                    ),
                    ..next
                },
            )
        }
    } else if nn == 0x65 {
        if i + x + 1 > 4096 {
            Err(ExecError::IndexOutOfBounds { index: m.index, pc: m.pc as usize })
        } else {
            Ok(
                Machine {
                    regs: Seq::new(
                        16,
                        |r: int|
                            if r <= x {
                                m.memory[i + r]
                            } else {
                                m.regs[r]
                            },
                    ),
                    ..next
                },
            )
        }
    } else {
        illegal(m, op)
    }
}

/// The machine after executing opcode `op`, fetched at `m.pc`, where `rnd`
/// is the random byte that a `Cxnn` instruction draws.
pub open spec fn next_state(m: Machine, op: u16, rnd: u8) -> Result<Machine, ExecError> {
    let class = op_class(op);
    let x = op_x(op) as int;
    let nn = op_nn(op);
    let nnn = op_nnn(op);
    let vx = m.regs[x];
    let vy = m.regs[op_y(op) as int];
    if class == 0x0 {
        if nnn == 0x0E0 {
            Ok(Machine { screen: Seq::new(2048, |p: int| 0u8), pc: m.pc + 2, ..m })
        } else if nnn == 0x0EE {
            if m.stack.len() == 0 {
                Err(ExecError::StackUnderflow { pc: m.pc as usize })
            } else {
                Ok(Machine { pc: m.stack.last() as int, stack: m.stack.drop_last(), ..m })
            }
        } else {
            illegal(m, op)
        }
    } else if class == 0x1 {
        Ok(Machine { pc: nnn as int, ..m })
    } else if class == 0x2 {
        Ok(Machine { pc: nnn as int, stack: m.stack.push((m.pc + 2) as u16), ..m })
    } else if class == 0x3 {
        Ok(skip_if(m, vx as u16 == nn))
    } else if class == 0x4 {
        Ok(skip_if(m, vx as u16 != nn))
    } else if class == 0x5 {
        Ok(skip_if(m, vx == vy))
    } else if class == 0x6 {
        Ok(with_reg(m, x, nn as u8))
    } else if class == 0x7 {
        Ok(with_reg(m, x, ((vx + nn) % 256) as u8))
    } else if class == 0x8 {
        alu_next(m, op)
    } else if class == 0x9 {
        Ok(skip_if(m, vx != vy))
    } else if class == 0xA {
        Ok(Machine { index: nnn, pc: m.pc + 2, ..m })
    } else if class == 0xB {
        Ok(Machine { pc: nnn + m.regs[0], ..m })
    } else if class == 0xC {
        Ok(with_reg(m, x, rnd & (nn as u8)))
    } else if class == 0xD {
        draw_next(m, op)
    } else if class == 0xF {
        misc_next(m, op)
    } else {
        illegal(m, op)
    }
}

/// Whether opcode `op` changes the framebuffer when it succeeds.
pub open spec fn redraws(op: u16) -> bool {
    op_class(op) == 0xD || (op_class(op) == 0x0 && op_nnn(op) == 0x0E0)
}


/// The guest machine: memory, registers, timers, call stack, framebuffer
/// and the key cell.
pub struct Emulator {
    pub memory: [u8; 4096],
    pub graphics: Graphics,
    pub key_buffer: KeyState,
    pub pc: usize,
    pub stack: Vec<u16>,
    pub registers: [Register; 16],
    pub index: u16,
    pub delay_timer: u8,
    pub sound_timer: u8,
    /// Whether `8xy6` and `8xyE` shift a copy of `Vy` (set) or `Vx` in place.
    pub shift_quirk: bool,
}

impl View for Emulator {
    type V = Machine;

    open spec fn view(&self) -> Machine {
        Machine {
            memory: self.memory@,
            screen: self.graphics.buffer@,
            key: self.key_buffer.key,
            pc: self.pc as int,
            stack: self.stack@,
            regs: self.registers@.map_values(|r: Register| r.v),
            index: self.index,
            delay: self.delay_timer,
            sound: self.sound_timer,
            shift_quirk: self.shift_quirk,
        }
    }
}

/// The fields of an opcode.
#[derive(Clone, Copy, Debug, PartialEq, Eq, Structural)]
pub struct Decoded {
    pub class: u16,
    pub x: u16,
    pub y: u16,
    pub n: u16,
    pub nn: u16,
    pub nnn: u16,
}

impl Emulator {
    /// A machine with zeroed memory and registers, the program counter at
    /// the program start and the shift quirk on.
    pub fn new() -> (r: Emulator)
        ensures
            r@.memory == Seq::new(4096, |a: int| 0u8),
            r@.screen == Seq::new(2048, |p: int| 0u8),
            r@.regs == Seq::new(16, |i: int| 0u8),
            r@.pc == PROGRAM_START,
            r@.stack.len() == 0,
            r@.index == 0,
            r@.delay == 0,
            r@.sound == 0,
            r@.key is None,
            r@.shift_quirk,
    {
        let r = Emulator {
            memory: [0u8; 4096],
            graphics: Graphics::new(),
            key_buffer: KeyState { key: None },
            pc: PROGRAM_START,
            stack: Vec::new(),
            registers: [Register { v: 0 }; 16],
            index: 0,
            delay_timer: 0,
            sound_timer: 0,
            shift_quirk: true,
        };
        assert(r@.memory =~= Seq::new(4096, |a: int| 0u8));
        assert(r@.regs =~= Seq::new(16, |i: int| 0u8));
        r
    }

    /// Value of register `i`.
    pub fn reg(&self, i: usize) -> (r: u8)
        requires
            i < 16,
        ensures
            r == self@.regs[i as int],
    {
        self.registers[i].v
    }

    /// Sets register `i` to `v`, leaving everything else as it was.
    pub fn set_reg(&mut self, i: usize, v: u8)
        requires
            i < 16,
        ensures
            final(self)@ == (Machine { regs: old(self)@.regs.update(i as int, v), ..old(self)@ }),
    {
        self.registers[i] = Register { v };
        assert(self@.regs =~= old(self)@.regs.update(i as int, v));
    }

    /// Splits an opcode into its fields.
    pub fn decode(op: u16) -> (r: Decoded)
        ensures
            r.class == op_class(op),
            r.x == op_x(op),
            r.y == op_y(op),
            r.n == op_n(op),
            r.nn == op_nn(op),
            r.nnn == op_nnn(op),
    {
        Decoded {
            class: op / 4096,
            x: (op / 256) % 16,
            y: (op / 16) % 16,
            n: op % 16,
            nn: op % 256,
            nnn: op % 4096,
        }
    }

    /// Reads the big-endian opcode at the program counter.
    pub fn fetch(&self) -> (r: Result<u16, ExecError>)
        ensures
            self.pc + 1 < MEMORY_SIZE ==> r == Ok::<u16, ExecError>(
                (self@.memory[self.pc as int] * 256 + self@.memory[self.pc + 1]) as u16,
            ),
            self.pc + 1 >= MEMORY_SIZE ==> r == Err::<u16, ExecError>(
                ExecError::PcOutOfBounds { pc: self.pc },
            ),
    {
        if self.pc >= MEMORY_SIZE - 1 {
            return Err(ExecError::PcOutOfBounds { pc: self.pc });
        }
        let first = self.memory[self.pc] as u16;
        let second = self.memory[self.pc + 1] as u16;
        Ok(first * 256 + second)
    }
}


impl Emulator {
    /// Executes the register-to-register operation `op` of class 8.
    #[verifier::rlimit(40)]
    fn execute_alu(&mut self, op: u16) -> (r: Result<(), ExecError>)
        requires
            op_class(op) == 0x8,
            old(self).pc < MEMORY_SIZE,
        ensures
            match alu_next(old(self)@, op) {
                Ok(m) => r is Ok && final(self)@ == m,
                Err(e) => r == Err::<(), ExecError>(e) && final(self)@ == old(self)@,
            },
    {
        let d = Emulator::decode(op);
        let x = d.x as usize;
        let vx = self.reg(x);
        let vy = self.reg(d.y as usize);
        let src = if self.shift_quirk { vy } else { vx };
        let (value, flag): (u8, Option<u8>) = match d.n {
            0x0 => (vy, None),
            0x1 => (vx | vy, None),
            0x2 => (vx & vy, None),
            0x3 => (vx ^ vy, None),
            0x4 => (vx.wrapping_add(vy), Some(if vx as u16 + vy as u16 > 0xFF { 1u8 } else { 0u8 })),
            0x5 => (vx.wrapping_sub(vy), Some(if vx > vy { 1u8 } else { 0u8 })),
            0x6 => (src / 2, Some(src % 2)),
            0x7 => (vy.wrapping_sub(vx), Some(if vy > vx { 1u8 } else { 0u8 })),
            0xE => (src.wrapping_mul(2), Some(src / 128)),
            _ => {
                return Err(ExecError::IllegalInstruction { opcode: op, pc: self.pc });
            },
        };
        self.set_reg(x, value);
        if let Some(f) = flag {
            self.set_reg(15, f);
        }
        self.pc = self.pc + 2;
        Ok(())
    }
}

impl Emulator {
    /// Executes the draw instruction `op` (class D): XORs an `n`-row sprite
    /// read at the index register onto the framebuffer at (`Vx` mod 64,
    /// `Vy` mod 32), wrapping at the right and bottom edges, and sets the
    /// flag register to whether some pixel was turned off.
    fn execute_draw(&mut self, op: u16) -> (r: Result<(), ExecError>)
        requires
            op_class(op) == 0xD,
            old(self).pc < MEMORY_SIZE,
        ensures
            match draw_next(old(self)@, op) {
                Ok(m) => r is Ok && final(self)@ == m,
                Err(e) => r == Err::<(), ExecError>(e) && final(self)@ == old(self)@,
            },
    {
        let d = Emulator::decode(op);
        let n = d.n as usize;
        let index = self.index as usize;
        if n > 0 && index + n > MEMORY_SIZE {
            return Err(ExecError::IndexOutOfBounds { index: self.index, pc: self.pc });
        }
        let x0 = (self.reg(d.x as usize) % 64) as usize;
        let y0 = (self.reg(d.y as usize) % 32) as usize;
        let ghost m0 = self@;
        let mut buf = self.graphics.buffer;
        let mut hit = false;
        let mut p: usize = 0;
        while p < SCREEN_PIXELS
            invariant
                p <= SCREEN_PIXELS,
                m0 == self@,
                n == op_n(op),
                index == self.index,
                n == 0 || index + n <= MEMORY_SIZE,
                x0 == m0.regs[op_x(op) as int] % 64,
                y0 == m0.regs[op_y(op) as int] % 32,
                forall|q: int|
                    0 <= q < p ==> buf@[q] == drawn_pixel(
                        m0.screen,
                        m0.memory,
                        index as int,
                        n as int,
                        x0 as int,
                        y0 as int,
                        q,
                    ),
                forall|q: int| p <= q < SCREEN_PIXELS ==> buf@[q] == m0.screen[q],
                hit == exists|q: int|
                    0 <= q < p && m0.screen[q] != 0 && sprite_bit(
                        m0.memory,
                        index as int,
                        n as int,
                        x0 as int,
                        y0 as int,
                        q,
                    ),
            decreases SCREEN_PIXELS - p,
        {
            let row = (p / 64 + 32 - y0) % 32;
            let col = (p % 64 + 64 - x0) % 64;
            let bit = row < n && col < 8 && (self.memory[index + row] >> ((7 - col) as u8)) & 1u8
                == 1u8;
            let old_on = buf[p] != 0;
            if old_on && bit {
                hit = true;
            }
            buf[p] = if old_on != bit { 1u8 } else { 0u8 };
            p = p + 1;
        }
        self.graphics.buffer = buf;
        let flag: u8 = if hit { 1 } else { 0 };
        self.set_reg(15, flag);
        self.pc = self.pc + 2;
        assert(self@.screen =~= Seq::new(
            2048,
            |q: int| drawn_pixel(m0.screen, m0.memory, index as int, n as int, x0 as int, y0 as int, q),
        ));
        Ok(())
    }
}

impl Emulator {
    /// Executes the timer, key, index or memory-block operation `op` of class F.
    fn execute_misc(&mut self, op: u16) -> (r: Result<(), ExecError>)
        requires
            op_class(op) == 0xF,
            old(self).pc < MEMORY_SIZE,
        ensures
            match misc_next(old(self)@, op) {
                Ok(m) => r is Ok && final(self)@ == m,
                Err(e) => r == Err::<(), ExecError>(e) && final(self)@ == old(self)@,
            },
    {
        let d = Emulator::decode(op);
        let x = d.x as usize;
        let vx = self.reg(x);
        let index = self.index as usize;
        match d.nn {
            0x07 => {
                let t = self.delay_timer;
                self.set_reg(x, t);
            },
            0x15 => {
                self.delay_timer = vx;
            },
            0x18 => {
                self.sound_timer = vx;
            },
            0x1E => {
                self.index = self.index.wrapping_add(vx as u16);
            },
            0x0A => {
                match self.key_buffer.key {
                    Some(k) => {
                        self.set_reg(x, k);
                    },
                    None => {
                        // No key held: the instruction runs again on the next step.
                        return Ok(());
                    },
                }
            },
            0x29 => {
                self.index = vx as u16 * 5 + FONT_BASE_ADDRESS as u16;
            },
            0x33 => {
                if index + 3 > MEMORY_SIZE {
                    return Err(ExecError::IndexOutOfBounds { index: self.index, pc: self.pc });
                }
                self.memory[index] = vx / 100;
                self.memory[index + 1] = (vx / 10) % 10;
                self.memory[index + 2] = vx % 10;
            },
            0x55 => {
                if index + x + 1 > MEMORY_SIZE {
                    return Err(ExecError::IndexOutOfBounds { index: self.index, pc: self.pc });
                }
                let ghost m0 = self@;
                let mut i: usize = 0;
                while i <= x
                    invariant
                        x < 16,
                        index + x + 1 <= MEMORY_SIZE,
                        i <= x + 1,
                        self@ == (Machine { memory: self@.memory, ..m0 }),
                        self@.memory.len() == MEMORY_SIZE,
                        forall|a: int|
                            0 <= a < MEMORY_SIZE ==> self@.memory[a] == if index <= a < index + i {
                                m0.regs[a - index]
                            } else {
                                m0.memory[a]
                            },
                    decreases x + 1 - i,
                {
                    let v = self.registers[i].v;
                    self.memory[index + i] = v;
                    i = i + 1;
                }
                assert(self@.memory =~= Seq::new(
                    m0.memory.len(),
                    |a: int|
                        if index <= a <= index + x {
                            m0.regs[a - index]
                        } else {
                            m0.memory[a]
                        },
                ));
            },
            0x65 => {
                if index + x + 1 > MEMORY_SIZE {
                    return Err(ExecError::IndexOutOfBounds { index: self.index, pc: self.pc });
                }
                let ghost m0 = self@;
                let mut i: usize = 0;
                while i <= x
                    invariant
                        x < 16,
                        index == m0.index,
                        index + x + 1 <= MEMORY_SIZE,
                        i <= x + 1,
                        self@ == (Machine { regs: self@.regs, ..m0 }),
                        self@.regs.len() == 16,
                        forall|r: int|
                            0 <= r < 16 ==> self@.regs[r] == if r < i {
                                m0.memory[index + r]
                            } else {
                                m0.regs[r]
                            },
                    decreases x + 1 - i,
                {
                    let v = self.memory[index + i];
                    self.set_reg(i, v);
                    i = i + 1;
                }
                assert(self@.regs =~= Seq::new(
                    16,
                    |r: int|
                        if r <= x {
                            m0.memory[index + r]
                        } else {
                            m0.regs[r]
                        },
                ));
            },
            _ => {
                return Err(ExecError::IllegalInstruction { opcode: op, pc: self.pc });
            },
        }
        self.pc = self.pc + 2;
        Ok(())
    }
}

/// The first output of oorandom's 32-bit generator seeded with `seed`.
pub uninterp spec fn pcg32_first(seed: u64) -> u32;

/// Seed of the generator that a `Cxnn` instruction draws from.
pub const RANDOM_SEED: u64 = 0;

/// Relies on `oorandom::Rand32::new` and `oorandom::Rand32::rand_u32`: a
/// generator made from `seed` is a pure function of it, so its first draw is too.
#[verifier::external_body]
fn first_random(seed: u64) -> (r: u32)
    ensures
        r == pcg32_first(seed),
{
    oorandom::Rand32::new(seed).rand_u32()
}

/// The random byte that a `Cxnn` instruction combines with `nn`.
pub open spec fn random_byte() -> u8 {
    pcg32_first(RANDOM_SEED) as u8
}

/// The big-endian opcode stored at address `a`.
pub open spec fn opcode_at(mem: Seq<u8>, a: int) -> u16 {
    (mem[a] * 256 + mem[a + 1]) as u16
}

/// One fetch-decode-execute cycle from `m`.
pub open spec fn step_next(m: Machine) -> Result<Machine, ExecError> {
    if m.pc < 0 || m.pc + 1 >= 4096 {
        Err(ExecError::PcOutOfBounds { pc: m.pc as usize })
    } else {
        next_state(m, opcode_at(m.memory, m.pc), random_byte())
    }
}

/// Runs up to `k` cycles from `m`: the last machine reached, and the error
/// that stopped the run early, if one did.
pub open spec fn run_from(m: Machine, k: nat) -> (Machine, Option<ExecError>)
    decreases k,
{
    if k == 0 {
        (m, None)
    } else {
        match step_next(m) {
            Ok(m2) => run_from(m2, (k - 1) as nat),
            Err(e) => (m, Some(e)),
        }
    }
}

impl KeyState {
    /// Records that key `k` went down: it becomes the held key.
    pub fn press(&mut self, k: u8)
        ensures
            final(self).key == Some(k),
    {
        self.key = Some(k);
    }

    /// Records that key `k` went up: the cell empties if `k` was the held key.
    pub fn release(&mut self, k: u8)
        ensures
            final(self).key == (if old(self).key == Some(k) {
                None
            } else {
                old(self).key
            }),
    {
        if self.key == Some(k) {
            self.key = None;
        }
    }
}

impl Emulator {
    /// Executes opcode `op`, fetched at the program counter, using `rnd` as
    /// the random byte of a `Cxnn` instruction. On success, tells whether the
    /// framebuffer may have changed; on an error the machine is unchanged.
    pub fn execute(&mut self, op: u16, rnd: u8) -> (r: Result<bool, ExecError>)
        requires
            old(self).pc < MEMORY_SIZE,
        ensures
            match next_state(old(self)@, op, rnd) {
                Ok(m) => r == Ok::<bool, ExecError>(redraws(op)) && final(self)@ == m,
                Err(e) => r == Err::<bool, ExecError>(e) && final(self)@ == old(self)@,
            },
    {
        let d = Emulator::decode(op);
        let x = d.x as usize;
        match d.class {
            0x0 => {
                if d.nnn == 0x0E0 {
                    self.clear_screen();
                    self.pc = self.pc + 2;
                } else if d.nnn == 0x0EE {
                    match self.stack.pop() {
                        Some(a) => {
                            self.pc = a as usize;
                        },
                        None => {
                            return Err(ExecError::StackUnderflow { pc: self.pc });
                        },
                    }
                } else {
                    return Err(ExecError::IllegalInstruction { opcode: op, pc: self.pc });
                }
            },
            0x1 => {
                self.pc = d.nnn as usize;
            },
            0x2 => {
                self.stack.push((self.pc + 2) as u16);
                self.pc = d.nnn as usize;
            },
            0x3 => {
                let skip = self.reg(x) as u16 == d.nn;
                self.pc = if skip { self.pc + 4 } else { self.pc + 2 };
            },
            0x4 => {
                let skip = self.reg(x) as u16 != d.nn;
                self.pc = if skip { self.pc + 4 } else { self.pc + 2 };
            },
            0x5 => {
                let skip = self.reg(x) == self.reg(d.y as usize);
                self.pc = if skip { self.pc + 4 } else { self.pc + 2 };
            },
            0x6 => {
                self.set_reg(x, d.nn as u8);
                self.pc = self.pc + 2;
            },
            0x7 => {
                let v = self.reg(x).wrapping_add(d.nn as u8);
                self.set_reg(x, v);
                self.pc = self.pc + 2;
            },
            0x8 => {
                let r = self.execute_alu(op);
                if let Err(e) = r {
                    return Err(e);
                }
            },
            0x9 => {
                let skip = self.reg(x) != self.reg(d.y as usize);
                self.pc = if skip { self.pc + 4 } else { self.pc + 2 };
            },
            0xA => {
                self.index = d.nnn;
                self.pc = self.pc + 2;
            },
            0xB => {
                self.pc = d.nnn as usize + self.reg(0) as usize;
            },
            0xC => {
                self.set_reg(x, rnd & (d.nn as u8));
                self.pc = self.pc + 2;
            },
            0xD => {
                let r = self.execute_draw(op);
                if let Err(e) = r {
                    return Err(e);
                }
            },
            0xF => {
                let r = self.execute_misc(op);
                if let Err(e) = r {
                    return Err(e);
                }
            },
            _ => {
                return Err(ExecError::IllegalInstruction { opcode: op, pc: self.pc });
            },
        }
        Ok(d.class == 0xD || (d.class == 0x0 && d.nnn == 0x0E0))
    }

    /// Performs one fetch-decode-execute cycle. On success, tells whether
    /// the framebuffer may have changed; on an error the machine is unchanged.
    pub fn step(&mut self) -> (r: Result<bool, ExecError>)
        ensures
            match step_next(old(self)@) {
                Ok(m) => r == Ok::<bool, ExecError>(
                    redraws(opcode_at(old(self)@.memory, old(self).pc as int)),
                ) && final(self)@ == m,
                Err(e) => r == Err::<bool, ExecError>(e) && final(self)@ == old(self)@,
            },
    {
        let op = match self.fetch() {
            Ok(op) => op,
            Err(e) => {
                return Err(e);
            },
        };
        let rnd: u8 = if op / 4096 == 0xC {
            first_random(RANDOM_SEED) as u8
        } else {
            0
        };
        proof {
            assert(op_class(op) == 0xC ==> rnd == random_byte());
        }
        self.execute(op, rnd)
    }

    /// Performs `steps` cycles, stopping at the first error.
    pub fn run(&mut self, steps: u32) -> (r: Result<(), ExecError>)
        ensures
            final(self)@ == run_from(old(self)@, steps as nat).0,
            r == (match run_from(old(self)@, steps as nat).1 {
                Some(e) => Err::<(), ExecError>(e),
                None => Ok(()),
            }),
    {
        let mut left: u32 = steps;
        while left > 0
            invariant
                run_from(self@, left as nat) == run_from(old(self)@, steps as nat),
            decreases left,
        {
            match self.step() {
                Ok(_) => {},
                Err(e) => {
                    return Err(e);
                },
            }
            left = left - 1;
        }
        Ok(())
    }

    /// Copies `program` into memory from address 0, leaving the bytes past
    /// it as they were; refuses an image larger than memory.
    pub fn load(&mut self, program: &[u8]) -> (r: Result<(), LoadError>)
        ensures
            program@.len() > MEMORY_SIZE ==> r == Err::<(), LoadError>(
                LoadError::ProgramTooLarge { len: program@.len() as usize },
            ) && final(self)@ == old(self)@,
            program@.len() <= MEMORY_SIZE ==> r is Ok && final(self)@ == (Machine {
                memory: program@ + old(self)@.memory.subrange(program@.len() as int, 4096),
                ..old(self)@
            }),
    {
        if program.len() > MEMORY_SIZE {
            return Err(LoadError::ProgramTooLarge { len: program.len() });
        }
        let ghost m0 = self@;
        let mut i: usize = 0;
        while i < program.len()
            invariant
                i <= program@.len() <= MEMORY_SIZE,
                self@ == (Machine { memory: self@.memory, ..m0 }),
                self@.memory.len() == MEMORY_SIZE,
                forall|a: int|
                    0 <= a < MEMORY_SIZE ==> self@.memory[a] == if a < i {
                        program@[a]
                    } else {
                        m0.memory[a]
                    },
            decreases program@.len() - i,
        {
            self.memory[i] = program[i];
            i = i + 1;
        }
        assert(self@.memory =~= program@ + m0.memory.subrange(program@.len() as int, 4096));
        Ok(())
    }

    /// Turns every pixel off.
    pub fn clear_screen(&mut self)
        ensures
            final(self)@ == (Machine { screen: Seq::new(2048, |p: int| 0u8), ..old(self)@ }),
    {
        self.graphics = Graphics::new();
    }

    /// One tick of the 60 Hz clock: each timer counts down by one, stopping at zero.
    pub fn timer_tick(&mut self)
        ensures
            final(self)@ == (Machine {
                delay: if old(self)@.delay > 0 { (old(self)@.delay - 1) as u8 } else { 0 },
                sound: if old(self)@.sound > 0 { (old(self)@.sound - 1) as u8 } else { 0 },
                ..old(self)@
            }),
    {
        if self.delay_timer > 0 {
            self.delay_timer = self.delay_timer - 1;
        }
        if self.sound_timer > 0 {
            self.sound_timer = self.sound_timer - 1;
        }
    }
}

} // verus!
