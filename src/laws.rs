//! Laws of the instruction set, stated over the abstract machine and proved
//! from the meaning of each instruction.

use vstd::prelude::*;

use crate::model::{
    address, call_result, draw_result, drawn_frame, execute_frame, execute_result,
    family, is_draw, low_byte, misc_result, reg_x, reg_y, return_result, set_pc, sprite_covers,
    sprite_in_bounds, valid, CpuState, RAM_SIZE,
};

verus! {

/// `1NNN` sets the program counter to `NNN`, whatever else the state holds.
pub proof fn law_jump_sets_pc(s: CpuState, nnn: u16, fb: Seq<u8>)
    requires
        nnn < 0x1000,
    ensures
        execute_result(s, (0x1000 + nnn) as u16, fb).pc == nnn,
{
    reveal(execute_result);
}

/// `00E0` leaves every cell of the frame buffer at 0, whatever it held, and
/// changes nothing else.
pub proof fn law_clear_zeroes_frame(s: CpuState, fb: Seq<u8>)
    ensures
        execute_frame(s, 0x00E0, fb).len() == fb.len(),
        forall|cell: int| 0 <= cell < fb.len() ==> execute_frame(s, 0x00E0, fb)[cell] == 0,
        execute_result(s, 0x00E0, fb) == s,
{
    reveal(execute_result);
    reveal(execute_frame);
}

/// The condition under which `3XNN`, `4XNN`, `5XY0` and `9XY0` skip.
pub open spec fn skip_taken(s: CpuState, i: u16) -> bool {
    let vx = s.gprs[reg_x(i)];
    let vy = s.gprs[reg_y(i)];
    if family(i) == 0x3 {
        vx as int == low_byte(i)
    } else if family(i) == 0x4 {
        vx as int != low_byte(i)
    } else if family(i) == 0x5 {
        vx == vy
    } else {
        vx != vy
    }
}

/// Fetching a conditional skip and executing it moves the program counter on
/// by exactly 4 when the condition holds and by exactly 2 when it does not.
pub proof fn law_skip_advance(s: CpuState, i: u16, fb: Seq<u8>)
    requires
        valid(s),
        s.pc + 1 < RAM_SIZE,
        family(i) == 0x3 || family(i) == 0x4 || family(i) == 0x5 || family(i) == 0x9,
    ensures
        skip_taken(s, i) ==> execute_result(set_pc(s, s.pc + 2), i, fb).pc == s.pc + 4,
        !skip_taken(s, i) ==> execute_result(set_pc(s, s.pc + 2), i, fb).pc == s.pc + 2,
{
    reveal(execute_result);
}

/// Two nested calls followed by two returns come back first to where the
/// second call was made, then to where the first was made, and leave the
/// stack pointer where it started.
pub proof fn law_nested_calls_return(s: CpuState, a: u16, b: u16, fb: Seq<u8>)
    requires
        valid(s),
        a < 0x1000,
        b < 0x1000,
    ensures
        ({
            let s1 = execute_result(s, (0x2000 + a) as u16, fb);
            let s2 = execute_result(s1, (0x2000 + b) as u16, fb);
            let s3 = execute_result(s2, 0x00EE, fb);
            let s4 = execute_result(s3, 0x00EE, fb);
            &&& s1.pc == a
            &&& s2.pc == b
            &&& s3.pc == s1.pc
            &&& s3.stack_pointer == s1.stack_pointer
            &&& s4.pc == s.pc
            &&& s4.stack_pointer == s.stack_pointer
        }),
{
    let i1 = (0x2000 + a) as u16;
    let i2 = (0x2000 + b) as u16;
    lemma_execute_call(s, a, fb);
    let s1 = execute_result(s, i1, fb);
    lemma_execute_call(s1, b, fb);
    let s2 = execute_result(s1, i2, fb);
    lemma_execute_return(s2, fb);
    let s3 = execute_result(s2, 0x00EE, fb);
    lemma_execute_return(s3, fb);
    reveal(call_result);
    reveal(return_result);
    assert(s3.stack == s2.stack);
}

proof fn lemma_execute_call(s: CpuState, a: u16, fb: Seq<u8>)
    requires
        a < 0x1000,
    ensures
        execute_result(s, (0x2000 + a) as u16, fb) == call_result(s, (0x2000 + a) as u16),
        address((0x2000 + a) as u16) == a,
{
    reveal(execute_result);
}

proof fn lemma_execute_return(s: CpuState, fb: Seq<u8>)
    ensures
        execute_result(s, 0x00EE, fb) == return_result(s),
{
    reveal(execute_result);
}

/// Saving `V0..=VX` with `FX55` and then loading them with `FX65` from the same
/// place into any other register file gives back the saved values, and leaves
/// the registers above `X` as they were.
pub proof fn law_save_load_round_trip(s: CpuState, x: u16, fresh: Seq<u8>, fb: Seq<u8>)
    requires
        valid(s),
        x < 16,
        s.index_reg + x < RAM_SIZE,
        fresh.len() == 16,
    ensures
        ({
            let saved = execute_result(s, (0xF055 + x * 256) as u16, fb);
            let loaded = execute_result(
                CpuState { gprs: fresh, ..saved },
                (0xF065 + x * 256) as u16,
                fb,
            );
            &&& forall|r: int| 0 <= r <= x ==> loaded.gprs[r] == s.gprs[r]
            &&& forall|r: int| x < r < 16 ==> loaded.gprs[r] == fresh[r]
        }),
{
    reveal(execute_result);
    reveal(misc_result);
}

/// Drawing the same sprite twice at the same place on a blank screen turns
/// every cell it lit off again, and the second draw reports a collision. This
/// holds where the sprite lights at least one cell and neither coordinate
/// register is `VF`, which the first draw overwrites.
pub proof fn law_draw_twice_restores(s: CpuState, i: u16, fb: Seq<u8>)
    requires
        valid(s),
        is_draw(i),
        sprite_in_bounds(s, i),
        reg_x(i) != 15,
        reg_y(i) != 15,
        fb.len() == 2048,
        forall|cell: int| 0 <= cell < fb.len() ==> fb[cell] == 0,
        exists|cell: int| 0 <= cell < fb.len() && sprite_covers(s, i, cell),
    ensures
        ({
            let s1 = execute_result(s, i, fb);
            let fb1 = execute_frame(s, i, fb);
            let s2 = execute_result(s1, i, fb1);
            let fb2 = execute_frame(s1, i, fb1);
            &&& fb2 == fb
            &&& s2.gprs[15] == 1
        }),
{
    reveal(execute_result);
    reveal(execute_frame);
    reveal(drawn_frame);
    reveal(draw_result);
    let s1 = execute_result(s, i, fb);
    let fb1 = execute_frame(s, i, fb);
    assert forall|cell: int| 0 <= cell < fb.len() implies sprite_covers(s1, i, cell)
        == sprite_covers(s, i, cell) by {}
    assert forall|v: u8| (v ^ 1u8) ^ 1u8 == v by {
        assert((v ^ 1u8) ^ 1u8 == v) by (bit_vector);
    }
    assert(0u8 ^ 1u8 == 1u8) by (bit_vector);
    let fb2 = execute_frame(s1, i, fb1);
    assert(fb2 =~= fb);
    let cell = choose|cell: int| 0 <= cell < fb.len() && sprite_covers(s, i, cell);
    assert(sprite_covers(s1, i, cell) && fb1[cell] == 1);
}

} // verus!
