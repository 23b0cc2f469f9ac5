//! The abstract machine: a view of the interpreter state over mathematical
//! sequences, and the meaning of each instruction as a spec function on it.

use vstd::prelude::*;

verus! {

/// Bytes of addressable memory.
pub const RAM_SIZE: usize = 4096;

/// Entries in the return-address stack.
pub const STACK_LENGTH: usize = 16;

/// Width of the frame buffer in cells.
pub const SCREEN_WIDTH: usize = 64;

/// Height of the frame buffer in cells.
pub const SCREEN_HEIGHT: usize = 32;

/// Cells of the frame buffer, one byte each, row-major.
pub const SCREEN_CELLS: usize = 2048;

/// Where programs are loaded and where execution starts.
pub const PROGRAM_START: usize = 0x200;

/// How an instruction went.
#[derive(PartialEq, Eq, Structural, Debug, Clone, Copy)]
pub enum ExecStatus {
    /// The instruction was recognized and carried out.
    Executed,
    /// The word is not one of the instruction set; nothing changed.
    UnknownInstruction,
    /// The instruction would have touched memory past its end; nothing changed.
    MemoryRefused,
}

/// The machine state as mathematical values.
pub struct CpuState {
    pub pc: u16,
    pub prev_pc: u16,
    pub index_reg: u16,
    pub memory: Seq<u8>,
    pub stack: Seq<u16>,
    pub stack_pointer: u8,
    pub sound_timer: u8,
    pub delay_timer: u8,
    pub gprs: Seq<u8>,
    pub key_pressed: Option<u8>,
    pub quirk_shift: bool,
    pub clipping: bool,
}

/// The shape every machine state has: full memory, stack and register file,
/// and a stack pointer that names a slot.
pub open spec fn valid(s: CpuState) -> bool {
    &&& s.memory.len() == RAM_SIZE
    &&& s.stack.len() == STACK_LENGTH
    &&& s.gprs.len() == 16
    &&& s.stack_pointer < STACK_LENGTH
}

// ---- instruction fields ----

/// Top nibble: the opcode family.
pub open spec fn family(i: u16) -> int {
    i as int / 4096
}

/// Second nibble: the X register.
pub open spec fn reg_x(i: u16) -> int {
    (i as int / 256) % 16
}

/// Third nibble: the Y register.
pub open spec fn reg_y(i: u16) -> int {
    (i as int / 16) % 16
}

/// Low nibble.
pub open spec fn low_nibble(i: u16) -> int {
    i as int % 16
}

/// Low byte: the immediate NN.
pub open spec fn low_byte(i: u16) -> int {
    i as int % 256
}

/// Low twelve bits: the address NNN.
pub open spec fn address(i: u16) -> int {
    i as int % 4096
}

/// The instruction word stored big-endian at `pc` and `pc + 1`.
pub open spec fn word_at(memory: Seq<u8>, pc: int) -> int {
    memory[pc] as int * 256 + memory[pc + 1] as int
}

// ---- small state updates ----

pub open spec fn set_reg(s: CpuState, x: int, v: int) -> CpuState {
    CpuState { gprs: s.gprs.update(x, v as u8), ..s }
}

pub open spec fn set_pc(s: CpuState, pc: int) -> CpuState {
    CpuState { pc: (pc % 65536) as u16, ..s }
}

/// Skips the next instruction when `cond` holds; the program counter wraps at 16 bits.
pub open spec fn skip_if(s: CpuState, cond: bool) -> CpuState {
    if cond {
        set_pc(s, s.pc + 2)
    } else {
        s
    }
}

// ---- control flow ----

#[verifier::opaque]
pub open spec fn call_result(s: CpuState, i: u16) -> CpuState {
    CpuState {
        stack: s.stack.update(s.stack_pointer as int, s.pc),
        stack_pointer: ((s.stack_pointer + 1) % 16) as u8,
        pc: address(i) as u16,
        ..s
    }
}

#[verifier::opaque]
pub open spec fn return_result(s: CpuState) -> CpuState {
    let sp = (s.stack_pointer + 15) % 16;
    CpuState { stack_pointer: sp as u8, pc: s.stack[sp], ..s }
}

// ---- the 8XY? family ----

pub open spec fn alu_known(i: u16) -> bool {
    let op = low_nibble(i);
    0 <= op <= 7 || op == 14
}

#[verifier::opaque]
pub open spec fn alu_result(s: CpuState, i: u16) -> CpuState {
    let x = reg_x(i);
    let vx = s.gprs[x];
    let vy = s.gprs[reg_y(i)];
    let src = if s.quirk_shift { vx } else { vy };
    let op = low_nibble(i);
    if op == 0 {
        set_reg(s, x, vy as int)
    } else if op == 1 {
        set_reg(s, x, (vx | vy) as int)
    } else if op == 2 {
        set_reg(s, x, (vx & vy) as int)
    } else if op == 3 {
        set_reg(s, x, (vx ^ vy) as int)
    } else if op == 4 {
        set_reg(set_reg(s, x, (vx + vy) % 256), 15, if vx + vy > 255 { 1 } else { 0 })
    } else if op == 5 {
        set_reg(set_reg(s, x, (vx - vy + 256) % 256), 15, if vx >= vy { 1 } else { 0 })
    } else if op == 7 {
        set_reg(set_reg(s, x, (vy - vx + 256) % 256), 15, if vy >= vx { 1 } else { 0 })
    } else if op == 6 {
        set_reg(set_reg(s, x, (src >> 1u8) as int), 15, (src & 1u8) as int)
    } else if op == 14 {
        set_reg(set_reg(s, x, (src << 1u8) as int), 15, ((src >> 7u8) & 1u8) as int)
    } else {
        s
    }
}

// ---- the EX?? family ----

pub open spec fn key_known(i: u16) -> bool {
    low_byte(i) == 0x9E || low_byte(i) == 0xA1
}

#[verifier::opaque]
pub open spec fn key_result(s: CpuState, i: u16) -> CpuState {
    let vx = s.gprs[reg_x(i)];
    if low_byte(i) == 0x9E {
        skip_if(s, s.key_pressed == Some(vx))
    } else if low_byte(i) == 0xA1 {
        skip_if(s, s.key_pressed != Some(vx))
    } else {
        s
    }
}

// ---- the FX?? family ----

pub open spec fn misc_known(i: u16) -> bool {
    let op = low_byte(i);
    op == 0x07 || op == 0x0A || op == 0x15 || op == 0x18 || op == 0x1E || op == 0x33
        || op == 0x55 || op == 0x65
}

/// The memory that an `FX??` instruction would touch lies inside memory.
pub open spec fn misc_in_bounds(s: CpuState, i: u16) -> bool {
    let op = low_byte(i);
    if op == 0x33 {
        s.index_reg + 2 < RAM_SIZE
    } else if op == 0x55 || op == 0x65 {
        s.index_reg + reg_x(i) < RAM_SIZE
    } else {
        true
    }
}

/// Decimal digits of a byte, most significant first.
pub open spec fn bcd_digit(v: u8, k: int) -> int {
    if k == 0 {
        (v / 100) as int
    } else if k == 1 {
        ((v / 10) % 10) as int
    } else {
        (v % 10) as int
    }
}

pub open spec fn bcd_memory(memory: Seq<u8>, at: int, v: u8) -> Seq<u8> {
    memory.update(at, bcd_digit(v, 0) as u8).update(at + 1, bcd_digit(v, 1) as u8).update(
        at + 2,
        bcd_digit(v, 2) as u8,
    )
}

/// Memory after `V0..=V[last]` are stored from `at` on.
pub open spec fn saved_memory(memory: Seq<u8>, gprs: Seq<u8>, at: int, last: int) -> Seq<u8> {
    Seq::new(
        memory.len(),
        |a: int|
            if at <= a <= at + last {
                gprs[a - at]
            } else {
                memory[a]
            },
    )
}

/// Registers after `V0..=V[last]` are loaded from memory at `at` on.
pub open spec fn loaded_gprs(memory: Seq<u8>, gprs: Seq<u8>, at: int, last: int) -> Seq<u8> {
    Seq::new(
        gprs.len(),
        |r: int|
            if r <= last {
                memory[at + r]
            } else {
                gprs[r]
            },
    )
}

#[verifier::opaque]
pub open spec fn misc_result(s: CpuState, i: u16) -> CpuState {
    let x = reg_x(i);
    let vx = s.gprs[x];
    let op = low_byte(i);
    if !misc_in_bounds(s, i) {
        s
    } else if op == 0x07 {
        set_reg(s, x, s.delay_timer as int)
    } else if op == 0x15 {
        CpuState { delay_timer: vx, ..s }
    } else if op == 0x18 {
        CpuState { sound_timer: vx, ..s }
    } else if op == 0x1E {
        CpuState { index_reg: ((s.index_reg + vx) % 65536) as u16, ..s }
    } else if op == 0x33 {
        CpuState { memory: bcd_memory(s.memory, s.index_reg as int, vx), ..s }
    } else if op == 0x55 {
        CpuState { memory: saved_memory(s.memory, s.gprs, s.index_reg as int, x), ..s }
    } else if op == 0x65 {
        CpuState { gprs: loaded_gprs(s.memory, s.gprs, s.index_reg as int, x), ..s }
    } else if op == 0x0A {
        match s.key_pressed {
            Some(k) => set_reg(s, x, k as int),
            None => set_pc(s, s.pc - 2 + 65536),
        }
    } else {
        s
    }
}

#[verifier::opaque]
pub open spec fn misc_status(s: CpuState, i: u16) -> ExecStatus {
    if !misc_known(i) {
        ExecStatus::UnknownInstruction
    } else if !misc_in_bounds(s, i) {
        ExecStatus::MemoryRefused
    } else {
        ExecStatus::Executed
    }
}

// ---- the display ----

/// Bit `col` of a sprite row, counted from the most significant (leftmost) bit.
pub open spec fn sprite_bit(row: u8, col: int) -> u8 {
    (row >> ((7 - col) as u8)) & 1u8
}

/// Anchor column of a draw: `VX` wrapped once to the screen width.
pub open spec fn anchor_x(s: CpuState, i: u16) -> int {
    s.gprs[reg_x(i)] as int % 64
}

/// Anchor row of a draw: `VY` wrapped once to the screen height.
pub open spec fn anchor_y(s: CpuState, i: u16) -> int {
    s.gprs[reg_y(i)] as int % 32
}

/// The sprite column that would land on frame-buffer cell `cell`.
pub open spec fn sprite_col(s: CpuState, i: u16, cell: int) -> int {
    if s.clipping {
        cell % 64 - anchor_x(s, i)
    } else {
        (cell % 64 - anchor_x(s, i)) % 64
    }
}

/// The sprite row that would land on frame-buffer cell `cell`.
pub open spec fn sprite_row(s: CpuState, i: u16, cell: int) -> int {
    if s.clipping {
        cell / 64 - anchor_y(s, i)
    } else {
        (cell / 64 - anchor_y(s, i)) % 32
    }
}

/// The sprite's bytes lie inside memory.
pub open spec fn sprite_in_bounds(s: CpuState, i: u16) -> bool {
    s.index_reg + low_nibble(i) <= RAM_SIZE
}

/// A set bit of the sprite lands on cell `cell`.
pub open spec fn sprite_covers(s: CpuState, i: u16, cell: int) -> bool {
    let c = sprite_col(s, i, cell);
    let r = sprite_row(s, i, cell);
    &&& sprite_in_bounds(s, i)
    &&& 0 <= c < 8
    &&& 0 <= r < low_nibble(i)
    &&& sprite_bit(s.memory[s.index_reg + r], c) == 1
}

/// The frame buffer after `DXYN`: each covered cell is flipped.
#[verifier::opaque]
pub open spec fn drawn_frame(s: CpuState, i: u16, fb: Seq<u8>) -> Seq<u8> {
    Seq::new(
        fb.len(),
        |cell: int|
            if sprite_covers(s, i, cell) {
                fb[cell] ^ 1u8
            } else {
                fb[cell]
            },
    )
}

/// Some covered cell was already lit.
pub open spec fn draw_collides(s: CpuState, i: u16, fb: Seq<u8>) -> bool {
    exists|cell: int| 0 <= cell < fb.len() && sprite_covers(s, i, cell) && fb[cell] == 1
}

#[verifier::opaque]
pub open spec fn draw_result(s: CpuState, i: u16, fb: Seq<u8>) -> CpuState {
    set_reg(s, 15, if draw_collides(s, i, fb) { 1 } else { 0 })
}

// ---- one whole instruction ----

pub open spec fn is_clear(i: u16) -> bool {
    i == 0x00E0
}

pub open spec fn is_return(i: u16) -> bool {
    i == 0x00EE
}

pub open spec fn is_draw(i: u16) -> bool {
    !is_clear(i) && !is_return(i) && family(i) == 0xD
}

/// The machine state after executing `i`.
#[verifier::opaque]
pub open spec fn execute_result(s: CpuState, i: u16, fb: Seq<u8>) -> CpuState {
    let f = family(i);
    let x = reg_x(i);
    if is_clear(i) {
        s
    } else if is_return(i) {
        return_result(s)
    } else if f == 0x1 {
        set_pc(s, address(i))
    } else if f == 0x2 {
        call_result(s, i)
    } else if f == 0x3 {
        skip_if(s, s.gprs[x] as int == low_byte(i))
    } else if f == 0x4 {
        skip_if(s, s.gprs[x] as int != low_byte(i))
    } else if f == 0x5 {
        skip_if(s, s.gprs[x] == s.gprs[reg_y(i)])
    } else if f == 0x6 {
        set_reg(s, x, low_byte(i))
    } else if f == 0x7 {
        set_reg(s, x, (s.gprs[x] + low_byte(i)) % 256)
    } else if f == 0x8 {
        alu_result(s, i)
    } else if f == 0x9 {
        skip_if(s, s.gprs[x] != s.gprs[reg_y(i)])
    } else if f == 0xA {
        CpuState { index_reg: address(i) as u16, ..s }
    } else if f == 0xB {
        set_pc(s, address(i) + s.gprs[0])
    } else if f == 0xD {
        if sprite_in_bounds(s, i) {
            draw_result(s, i, fb)
        } else {
            set_reg(s, 15, 0)
        }
    } else if f == 0xE {
        key_result(s, i)
    } else if f == 0xF {
        misc_result(s, i)
    } else {
        s
    }
}

/// The frame buffer after executing `i`.
#[verifier::opaque]
pub open spec fn execute_frame(s: CpuState, i: u16, fb: Seq<u8>) -> Seq<u8> {
    if is_clear(i) {
        Seq::new(fb.len(), |cell: int| 0u8)
    } else if is_draw(i) && sprite_in_bounds(s, i) {
        drawn_frame(s, i, fb)
    } else {
        fb
    }
}

/// What executing `i` reports.
#[verifier::opaque]
pub open spec fn execute_status(s: CpuState, i: u16) -> ExecStatus {
    let f = family(i);
    if is_clear(i) || is_return(i) {
        ExecStatus::Executed
    } else if f == 0x0 || (f == 0x8 && !alu_known(i)) || (f == 0xE && !key_known(i)) || f == 0xC {
        ExecStatus::UnknownInstruction
    } else if f == 0xF {
        misc_status(s, i)
    } else if f == 0xD && !sprite_in_bounds(s, i) {
        ExecStatus::MemoryRefused
    } else {
        ExecStatus::Executed
    }
}

} // verus!
