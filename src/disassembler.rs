//! Mnemonics for opcodes and listings of program images.
use vstd::prelude::*;

use crate::emulator::{
    opcode_at, op_class, op_n, op_nn, op_nnn, op_x, op_y, Emulator, LoadError, MEMORY_SIZE,
    PROGRAM_START,
};
use vstd::string::StringExecFns;

verus! {

/// Hexadecimal digit `d`, upper or lower case.
pub open spec fn hex_char(d: int, upper: bool) -> char {
    if upper {
        seq!['0', '1', '2', '3', '4', '5', '6', '7', '8', '9', 'A', 'B', 'C', 'D', 'E', 'F'][d]
    } else {
        seq!['0', '1', '2', '3', '4', '5', '6', '7', '8', '9', 'a', 'b', 'c', 'd', 'e', 'f'][d]
    }
}

/// The last `width` hexadecimal digits of `v`, most significant first.
pub open spec fn hex_text(v: u16, width: nat, upper: bool) -> Seq<char>
    decreases width,
{
    if width == 0 {
        Seq::empty()
    } else {
        hex_text(v / 16, (width - 1) as nat, upper).push(hex_char((v % 16) as int, upper))
    }
}

/// The human-readable mnemonic of opcode `op`.
pub open spec fn mnemonic(op: u16) -> Seq<char> {
    let class = op_class(op);
    let x = op_x(op);
    let y = op_y(op);
    let n = op_n(op);
    let nn = op_nn(op);
    let nnn = op_nnn(op);
    if class == 0x0 {
        if nnn == 0x0E0 {
            "clear screen"@
        } else if nnn == 0x0EE {
            "return from subroutine"@
        } else {
            "unknown"@
        }
    } else if class == 0x1 {
        "jump to 0x"@ + hex_text(nnn, 3, true)
    } else if class == 0x2 {
        "call subroutine at 0x"@ + hex_text(nnn, 3, true)
    } else if class == 0x3 {
        "skip next instruction if V"@ + hex_text(x, 1, true) + " == 0x"@ + hex_text(nn, 2, false)
    } else if class == 0x4 {
        "skip next instruction if V"@ + hex_text(x, 1, true) + " != 0x"@ + hex_text(nn, 2, false)
    } else if class == 0x5 {
        "skip next instruction if V"@ + hex_text(x, 1, true) + " == V"@ + hex_text(y, 1, true)
    } else if class == 0x6 {
        "set V"@ + hex_text(x, 1, true) + " to 0x"@ + hex_text(nn, 2, false)
    } else if class == 0x7 {
        "add 0x"@ + hex_text(nn, 2, false) + " to V"@ + hex_text(x, 1, true)
    } else if class == 0x8 {
        if n == 0x0 {
            "set V"@ + hex_text(x, 1, true) + " to V"@ + hex_text(y, 1, true)
        } else if n == 0x1 {
            "set V"@ + hex_text(x, 1, true) + " to V"@ + hex_text(x, 1, true) + " | V"@ + hex_text(y, 1, true)
        } else if n == 0x2 {
            "set V"@ + hex_text(x, 1, true) + " to V"@ + hex_text(x, 1, true) + " & V"@ + hex_text(y, 1, true)
        } else if n == 0x3 {
            "set V"@ + hex_text(x, 1, true) + " to V"@ + hex_text(x, 1, true) + " ^ V"@ + hex_text(y, 1, true)
        } else if n == 0x4 {
            "add V"@ + hex_text(x, 1, true) + " to V"@ + hex_text(y, 1, true)
        } else if n == 0x5 {
            "subtract V"@ + hex_text(y, 1, true) + " from V"@ + hex_text(x, 1, true)
        } else if n == 0x6 {
            "shift V"@ + hex_text(x, 1, true) + " right"@
        } else if n == 0x7 {
            "subtract V"@ + hex_text(x, 1, true) + " from V"@ + hex_text(y, 1, true)
        } else if n == 0xE {
            "shift V"@ + hex_text(x, 1, true) + " left"@
        } else {
            "unknown"@
        }
    } else if class == 0x9 {
        "skip next instruction if V"@ + hex_text(x, 1, true) + " != V"@ + hex_text(y, 1, true)
    } else if class == 0xA {
        "set index to 0x"@ + hex_text(nnn, 3, true)
    } else if class == 0xB {
        "jump to 0x"@ + hex_text(nnn, 3, true) + " + V0"@
    } else if class == 0xC {
        "set V"@ + hex_text(x, 1, true) + " to random number & 0x"@ + hex_text(nn, 2, false)
    } else if class == 0xD {
        "display at V"@ + hex_text(x, 1, true) + ", V"@ + hex_text(y, 1, true) + ", 0x"@ + hex_text(n, 1, true)
    } else if class == 0xF {
        if nn == 0x07 {
            "set V"@ + hex_text(x, 1, true) + " to delay timer"@
        } else if nn == 0x15 {
            "set delay timer to V"@ + hex_text(x, 1, true)
        } else if nn == 0x18 {
            "set sound timer to V"@ + hex_text(x, 1, true)
        } else if nn == 0x1E {
            "add V"@ + hex_text(x, 1, true) + " to index"@
        } else if nn == 0x0A {
            "wait for key press and store in V"@ + hex_text(x, 1, true)
        } else if nn == 0x29 {
            "set index to location of sprite for digit V"@ + hex_text(x, 1, true)
        } else if nn == 0x33 {
            "store BCD representation of V"@ + hex_text(x, 1, true) + " in memory locations I, I+1, I+2"@
        } else if nn == 0x55 {
            "store V0 to V"@ + hex_text(x, 1, true) + " in memory starting at I"@
        } else if nn == 0x65 {
            "fill V0 to V"@ + hex_text(x, 1, true) + " with memory starting at I"@
        } else {
            "unknown"@
        }
    } else {
        "unknown"@
    }
}

/// The one-character text of hexadecimal digit `d`.
fn digit_str(d: u16, upper: bool) -> (r: &'static str)
    requires
        d < 16,
    ensures
        r@ == seq![hex_char(d as int, upper)],
{
    proof {
        reveal_strlit("0");
        reveal_strlit("1");
        reveal_strlit("2");
        reveal_strlit("3");
        reveal_strlit("4");
        reveal_strlit("5");
        reveal_strlit("6");
        reveal_strlit("7");
        reveal_strlit("8");
        reveal_strlit("9");
        reveal_strlit("A");
        reveal_strlit("B");
        reveal_strlit("C");
        reveal_strlit("D");
        reveal_strlit("E");
        reveal_strlit("F");
        reveal_strlit("a");
        reveal_strlit("b");
        reveal_strlit("c");
        reveal_strlit("d");
        reveal_strlit("e");
        reveal_strlit("f");
    }
    let r = match d {
        0 => "0",
        1 => "1",
        2 => "2",
        3 => "3",
        4 => "4",
        5 => "5",
        6 => "6",
        7 => "7",
        8 => "8",
        9 => "9",
        10 => if upper { "A" } else { "a" },
        11 => if upper { "B" } else { "b" },
        12 => if upper { "C" } else { "c" },
        13 => if upper { "D" } else { "d" },
        14 => if upper { "E" } else { "e" },
        _ => if upper { "F" } else { "f" },
    };
    assert(r@ =~= seq![hex_char(d as int, upper)]);
    r
}

/// Appends the last `width` hexadecimal digits of `v` to `s`.
fn push_hex(s: &mut String, v: u16, width: usize, upper: bool)
    ensures
        final(s)@ == old(s)@ + hex_text(v, width as nat, upper),
    decreases width,
{
    if width == 0 {
        assert(old(s)@ + hex_text(v, 0, upper) =~= old(s)@);
        return;
    }
    push_hex(s, v / 16, width - 1, upper);
    s.append(digit_str(v % 16, upper));
    assert(final(s)@ =~= old(s)@ + hex_text(v, width as nat, upper));
}

/// Renders opcodes as mnemonics and lists the instructions of a program image.
pub struct Disassembler {
    pub memory: [u8; 4096],
}

impl Disassembler {
    /// A disassembler over zeroed memory.
    pub fn new() -> (r: Disassembler)
        ensures
            r.memory@ == Seq::new(4096, |a: int| 0u8),
    {
        let r = Disassembler { memory: [0u8; 4096] };
        assert(r.memory@ =~= Seq::new(4096, |a: int| 0u8));
        r
    }

    /// The mnemonic of `opcode`.
    pub fn disassemble_opcode(&self, opcode: u16) -> (r: String)
        ensures
            r@ == mnemonic(opcode),
    {
        let d = Emulator::decode(opcode);
        if d.class == 0x0 {
            if d.nnn == 0x0E0 {
                String::from_str("clear screen")
            } else if d.nnn == 0x0EE {
                String::from_str("return from subroutine")
            } else {
                String::from_str("unknown")
            }
        } else if d.class == 0x1 {
            let mut s = String::from_str("jump to 0x");
            push_hex(&mut s, d.nnn, 3, true);
            s
        } else if d.class == 0x2 {
            let mut s = String::from_str("call subroutine at 0x");
            push_hex(&mut s, d.nnn, 3, true);
            s
        } else if d.class == 0x3 {
            let mut s = String::from_str("skip next instruction if V");
            push_hex(&mut s, d.x, 1, true);
            s.append(" == 0x");
            push_hex(&mut s, d.nn, 2, false);
            s
        } else if d.class == 0x4 {
            let mut s = String::from_str("skip next instruction if V");
            push_hex(&mut s, d.x, 1, true);
            s.append(" != 0x");
            push_hex(&mut s, d.nn, 2, false);
            s
        } else if d.class == 0x5 {
            let mut s = String::from_str("skip next instruction if V");
            push_hex(&mut s, d.x, 1, true);
            s.append(" == V");
            push_hex(&mut s, d.y, 1, true);
            s
        } else if d.class == 0x6 {
            let mut s = String::from_str("set V");
            push_hex(&mut s, d.x, 1, true);
            s.append(" to 0x");
            push_hex(&mut s, d.nn, 2, false);
            s
        } else if d.class == 0x7 {
            let mut s = String::from_str("add 0x");
            push_hex(&mut s, d.nn, 2, false);
            s.append(" to V");
            push_hex(&mut s, d.x, 1, true);
            s
        } else if d.class == 0x8 {
            if d.n == 0x0 {
                let mut s = String::from_str("set V");
                push_hex(&mut s, d.x, 1, true);
                s.append(" to V");
                push_hex(&mut s, d.y, 1, true);
                s
            } else if d.n == 0x1 {
                let mut s = String::from_str("set V");
                push_hex(&mut s, d.x, 1, true);
                s.append(" to V");
                push_hex(&mut s, d.x, 1, true);
                s.append(" | V");
                push_hex(&mut s, d.y, 1, true);
                s
            } else if d.n == 0x2 {
                let mut s = String::from_str("set V");
                push_hex(&mut s, d.x, 1, true);
                s.append(" to V");
                push_hex(&mut s, d.x, 1, true);
                s.append(" & V");
                push_hex(&mut s, d.y, 1, true);
                s
            } else if d.n == 0x3 {
                let mut s = String::from_str("set V");
                push_hex(&mut s, d.x, 1, true);
                s.append(" to V");
                push_hex(&mut s, d.x, 1, true);
                s.append(" ^ V");
                push_hex(&mut s, d.y, 1, true);
                s
            } else if d.n == 0x4 {
                let mut s = String::from_str("add V");
                push_hex(&mut s, d.x, 1, true);
                s.append(" to V");
                push_hex(&mut s, d.y, 1, true);
                s
            } else if d.n == 0x5 {
                let mut s = String::from_str("subtract V");
                push_hex(&mut s, d.y, 1, true);
                s.append(" from V");
                push_hex(&mut s, d.x, 1, true);
                s
            } else if d.n == 0x6 {
                let mut s = String::from_str("shift V");
                push_hex(&mut s, d.x, 1, true);
                s.append(" right");
                s
            } else if d.n == 0x7 {
                let mut s = String::from_str("subtract V");
                push_hex(&mut s, d.x, 1, true);
                s.append(" from V");
                push_hex(&mut s, d.y, 1, true);
                s
            } else if d.n == 0xE {
                let mut s = String::from_str("shift V");
                push_hex(&mut s, d.x, 1, true);
                s.append(" left");
                s
            } else {
                String::from_str("unknown")
            }
        } else if d.class == 0x9 {
            let mut s = String::from_str("skip next instruction if V");
            push_hex(&mut s, d.x, 1, true);
            s.append(" != V");
            push_hex(&mut s, d.y, 1, true);
            s
        } else if d.class == 0xA {
            let mut s = String::from_str("set index to 0x");
            push_hex(&mut s, d.nnn, 3, true);
            s
        } else if d.class == 0xB {
            let mut s = String::from_str("jump to 0x");
            push_hex(&mut s, d.nnn, 3, true);
            s.append(" + V0");
            s
        } else if d.class == 0xC {
            let mut s = String::from_str("set V");
            push_hex(&mut s, d.x, 1, true);
            s.append(" to random number & 0x");
            push_hex(&mut s, d.nn, 2, false);
            s
        } else if d.class == 0xD {
            let mut s = String::from_str("display at V");
            push_hex(&mut s, d.x, 1, true);
            s.append(", V");
            push_hex(&mut s, d.y, 1, true);
            s.append(", 0x");
            push_hex(&mut s, d.n, 1, true);
            s
        } else if d.class == 0xF {
            if d.nn == 0x07 {
                let mut s = String::from_str("set V");
                push_hex(&mut s, d.x, 1, true);
                s.append(" to delay timer");
                s
            } else if d.nn == 0x15 {
                let mut s = String::from_str("set delay timer to V");
                push_hex(&mut s, d.x, 1, true);
                s
            } else if d.nn == 0x18 {
                let mut s = String::from_str("set sound timer to V");
                push_hex(&mut s, d.x, 1, true);
                s
            } else if d.nn == 0x1E {
                let mut s = String::from_str("add V");
                push_hex(&mut s, d.x, 1, true);
                s.append(" to index");
                s
            } else if d.nn == 0x0A {
                let mut s = String::from_str("wait for key press and store in V");
                push_hex(&mut s, d.x, 1, true);
                s
            } else if d.nn == 0x29 {
                let mut s = String::from_str("set index to location of sprite for digit V");
                push_hex(&mut s, d.x, 1, true);
                s
            } else if d.nn == 0x33 {
                let mut s = String::from_str("store BCD representation of V");
                push_hex(&mut s, d.x, 1, true);
                s.append(" in memory locations I, I+1, I+2");
                s
            } else if d.nn == 0x55 {
                let mut s = String::from_str("store V0 to V");
                push_hex(&mut s, d.x, 1, true);
                s.append(" in memory starting at I");
                s
            } else if d.nn == 0x65 {
                let mut s = String::from_str("fill V0 to V");
                push_hex(&mut s, d.x, 1, true);
                s.append(" with memory starting at I");
                s
            } else {
                String::from_str("unknown")
            }
        } else {
            String::from_str("unknown")
        }
    }
}

/// Number of instruction slots between the program start and the end of memory.
pub const LISTING_SLOTS: usize = 1792;

/// One listed instruction: its offset from the program start, its opcode
/// and its mnemonic.
pub struct Line {
    pub offset: u16,
    pub opcode: u16,
    pub text: String,
}

/// Offset and opcode of each non-zero instruction among the first `k`
/// two-byte slots from the program start, in address order.
pub open spec fn listing(mem: Seq<u8>, k: nat) -> Seq<(u16, u16)>
    decreases k,
{
    if k == 0 {
        Seq::empty()
    } else {
        let prev = listing(mem, (k - 1) as nat);
        let a = 0x200 + 2 * (k - 1);
        let op = opcode_at(mem, a);
        if op == 0 {
            prev
        } else {
            prev.push(((2 * (k - 1)) as u16, op))
        }
    }
}

impl Disassembler {
    /// Copies `program` into memory from address 0, leaving the bytes past
    /// it as they were; refuses an image larger than memory.
    pub fn load(&mut self, program: &[u8]) -> (r: Result<(), LoadError>)
        ensures
            program@.len() > MEMORY_SIZE ==> r == Err::<(), LoadError>(
                LoadError::ProgramTooLarge { len: program@.len() as usize },
            ) && final(self).memory@ == old(self).memory@,
            program@.len() <= MEMORY_SIZE ==> r is Ok && final(self).memory@ == program@ + old(
                self,
            ).memory@.subrange(program@.len() as int, 4096),
    {
        if program.len() > MEMORY_SIZE {
            return Err(LoadError::ProgramTooLarge { len: program.len() });
        }
        let ghost m0 = self.memory@;
        let mut i: usize = 0;
        while i < program.len()
            invariant
                i <= program@.len() <= MEMORY_SIZE,
                self.memory@.len() == MEMORY_SIZE,
                forall|a: int|
                    0 <= a < MEMORY_SIZE ==> self.memory@[a] == if a < i {
                        program@[a]
                    } else {
                        m0[a]
                    },
            decreases program@.len() - i,
        {
            self.memory[i] = program[i];
            i = i + 1;
        }
        assert(self.memory@ =~= program@ + m0.subrange(program@.len() as int, 4096));
        Ok(())
    }

    /// Lists every non-zero instruction from the program start to the end
    /// of memory, with its offset from the program start and its mnemonic.
    pub fn disassemble(&self) -> (r: Vec<Line>)
        ensures
            r@.map_values(|l: Line| (l.offset, l.opcode)) == listing(
                self.memory@,
                LISTING_SLOTS as nat,
            ),
            forall|k: int| 0 <= k < r@.len() ==> #[trigger] r@[k].text@ == mnemonic(r@[k].opcode),
    {
        let mut out: Vec<Line> = Vec::new();
        let mut k: usize = 0;
        while k < LISTING_SLOTS
            invariant
                k <= LISTING_SLOTS,
                out@.map_values(|l: Line| (l.offset, l.opcode)) == listing(self.memory@, k as nat),
                forall|j: int|
                    0 <= j < out@.len() ==> #[trigger] out@[j].text@ == mnemonic(out@[j].opcode),
            decreases LISTING_SLOTS - k,
        {
            let a = PROGRAM_START + 2 * k;
            let opcode = self.memory[a] as u16 * 256 + self.memory[a + 1] as u16;
            let ghost before = out@;
            if opcode != 0 {
                let text = self.disassemble_opcode(opcode);
                out.push(Line { offset: (2 * k) as u16, opcode, text });
                assert(out@.map_values(|l: Line| (l.offset, l.opcode)) =~= before.map_values(
                    |l: Line| (l.offset, l.opcode),
                ).push(((2 * k) as u16, opcode)));
            }
            k = k + 1;
        }
        out
    }
}

/// Lists the instructions of a program image, as `Disassembler::disassemble`
/// does after loading it; refuses an image larger than memory.
pub fn disassemble(program: &[u8]) -> (r: Result<Vec<Line>, LoadError>)
    ensures
        program@.len() > MEMORY_SIZE ==> r == Err::<Vec<Line>, LoadError>(
            LoadError::ProgramTooLarge { len: program@.len() as usize },
        ),
        program@.len() <= MEMORY_SIZE ==> r is Ok && ({
            let mem = program@ + Seq::new((4096 - program@.len()) as nat, |a: int| 0u8);
            &&& r->Ok_0@.map_values(|l: Line| (l.offset, l.opcode)) == listing(
                mem,
                LISTING_SLOTS as nat,
            )
            &&& forall|k: int|
                0 <= k < r->Ok_0@.len() ==> #[trigger] r->Ok_0@[k].text@ == mnemonic(
                    r->Ok_0@[k].opcode,
                )
        }),
{
    let mut disassembler = Disassembler::new();
    match disassembler.load(program) {
        Ok(()) => {},
        Err(e) => {
            return Err(e);
        },
    }
    assert(disassembler.memory@ =~= program@ + Seq::new(
        (4096 - program@.len()) as nat,
        |a: int| 0u8,
    ));
    Ok(disassembler.disassemble())
}

} // verus!
