//! An interpreter for an 8-bit guest machine with 4 KB of memory, sixteen
//! registers and a 64x32 monochrome framebuffer, with its disassembler and
//! an interactive debug controller.
use vstd::prelude::*;

pub mod command;
pub mod debugger;
pub mod disassembler;
pub mod emulator;
pub mod font;
pub mod lemmas;

use crate::emulator::{LoadError, MEMORY_SIZE, PROGRAM_START};
use crate::font::{font, font_glyphs, FONT_BASE_ADDRESS, FONT_LEN};

verus! {

/// Byte `a` of the reserved area below the program start: the glyph block
/// at its base address, zero elsewhere.
pub open spec fn reserved_byte(a: int) -> u8 {
    if 0x50 <= a < 0xA0 {
        font_glyphs()[a - 0x50]
    } else {
        0
    }
}

/// `image` with its first `len - 0x200` bytes moved up to the program start
/// and the reserved area below filled in.
pub open spec fn prepared(image: Seq<u8>) -> Seq<u8> {
    Seq::new(
        image.len(),
        |a: int|
            if a < 0x200 {
                reserved_byte(a)
            } else {
                image[a - 0x200]
            },
    )
}

/// The 4096-byte memory image of `program`: the reserved area, then the
/// program at the program start, then zeros.
pub open spec fn memory_image(program: Seq<u8>) -> Seq<u8> {
    Seq::new(
        4096,
        |a: int|
            if a < 0x200 {
                reserved_byte(a)
            } else if a - 0x200 < program.len() {
                program[a - 0x200]
            } else {
                0
            },
    )
}

/// Moves the program at the front of `buffer` up to the program start,
/// zeroes the reserved area below it and installs the glyph block there.
pub fn prep_buffer(buffer: &mut Vec<u8>)
    requires
        old(buffer)@.len() >= PROGRAM_START,
    ensures
        final(buffer)@ == prepared(old(buffer)@),
{
    let ghost b0 = buffer@;
    let len = buffer.len();
    let mut i: usize = len;
    while i > PROGRAM_START
        invariant
            PROGRAM_START <= i <= len == buffer@.len() == b0.len(),
            forall|a: int|
                0 <= a < len ==> buffer@[a] == if a >= i {
                    b0[a - 0x200]
                } else {
                    b0[a]
                },
        decreases i,
    {
        i = i - 1;
        let v = buffer[i - PROGRAM_START];
        buffer.set(i, v);
    }
    let glyphs = font();
    let mut j: usize = 0;
    while j < PROGRAM_START
        invariant
            j <= PROGRAM_START <= len == buffer@.len() == b0.len(),
            glyphs@ == font_glyphs(),
            forall|a: int|
                0 <= a < len ==> buffer@[a] == if a >= 0x200 {
                    b0[a - 0x200]
                } else if a < j {
                    reserved_byte(a)
                } else {
                    b0[a]
                },
        decreases PROGRAM_START - j,
    {
        if FONT_BASE_ADDRESS <= j && j < FONT_BASE_ADDRESS + FONT_LEN {
            buffer.set(j, glyphs[j - FONT_BASE_ADDRESS]);
        } else {
            buffer.set(j, 0);
        }
        j = j + 1;
    }
    assert(buffer@ =~= prepared(b0));
}

/// Builds the memory image of `program`, refusing one that does not fit
/// between the program start and the end of memory.
pub fn build_image(program: &[u8]) -> (r: Result<Vec<u8>, LoadError>)
    ensures
        program@.len() > MEMORY_SIZE - PROGRAM_START ==> r == Err::<Vec<u8>, LoadError>(
            LoadError::ProgramTooLarge { len: program@.len() as usize },
        ),
        program@.len() <= MEMORY_SIZE - PROGRAM_START ==> r is Ok && r->Ok_0@ == memory_image(
            program@,
        ),
{
    if program.len() > MEMORY_SIZE - PROGRAM_START {
        return Err(LoadError::ProgramTooLarge { len: program.len() });
    }
    let mut buffer: Vec<u8> = Vec::new();
    let mut i: usize = 0;
    while i < MEMORY_SIZE
        invariant
            i <= MEMORY_SIZE,
            program@.len() <= MEMORY_SIZE - PROGRAM_START,
            buffer@.len() == i,
            forall|a: int|
                0 <= a < i ==> buffer@[a] == if a < program@.len() {
                    program@[a]
                } else {
                    0
                },
        decreases MEMORY_SIZE - i,
    {
        if i < program.len() {
            buffer.push(program[i]);
        } else {
            buffer.push(0);
        }
        i = i + 1;
    }
    prep_buffer(&mut buffer);
    assert(buffer@ =~= memory_image(program@));
    Ok(buffer)
}

} // verus!
