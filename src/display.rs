//! The display unit: sprite drawing by XOR with collision detection.

use vstd::prelude::*;

use vstd::arithmetic::div_mod::{lemma_fundamental_div_mod, lemma_fundamental_div_mod_converse};
use vstd::arithmetic::div_mod::lemma_mod_pos_bound;

use crate::cpu::{field_n, field_x, field_y, CPU};
use crate::model::{
    anchor_x, anchor_y, drawn_frame, draw_collides, draw_result, low_nibble, reg_x, reg_y,
    set_reg, sprite_bit, sprite_col, sprite_covers, sprite_in_bounds, sprite_row, CpuState,
    RAM_SIZE, SCREEN_CELLS, SCREEN_HEIGHT, SCREEN_WIDTH,
};

verus! {

/// The cell that sprite row `row`, column `col` lands on, once wrapped.
spec fn target_cell(s: CpuState, i: u16, row: int, col: int) -> int {
    ((anchor_y(s, i) + row) % 32) * 64 + (anchor_x(s, i) + col) % 64
}

/// The cell is covered by a sprite bit that comes before (`row`, `col`) in
/// drawing order.
spec fn covered_before(s: CpuState, i: u16, cell: int, row: int, col: int) -> bool {
    &&& sprite_covers(s, i, cell)
    &&& (sprite_row(s, i, cell) < row || (sprite_row(s, i, cell) == row && sprite_col(s, i, cell)
        < col))
}

/// Within one wrap of `m`, the offset from `a` to `p` is `k` exactly when `p`
/// is `a + k` wrapped.
proof fn lemma_mod_offset(p: int, a: int, k: int, m: int)
    requires
        0 < m,
        0 <= p < m,
        0 <= a < m,
        0 <= k < m,
    ensures
        ((p - a) % m == k) == (p == (a + k) % m),
{
    if p >= a {
        lemma_fundamental_div_mod_converse(p - a, m, 0, p - a);
    } else {
        lemma_fundamental_div_mod_converse(p - a, m, -1, p - a + m);
    }
    if a + k < m {
        lemma_fundamental_div_mod_converse(a + k, m, 0, a + k);
    } else {
        lemma_fundamental_div_mod_converse(a + k, m, 1, a + k - m);
    }
}

/// A cell index splits into its row and column.
proof fn lemma_cell_split(cell: int)
    requires
        0 <= cell < SCREEN_CELLS,
    ensures
        cell == (cell / 64) * 64 + cell % 64,
        0 <= cell % 64 < 64,
        0 <= cell / 64 < 32,
{
    lemma_fundamental_div_mod(cell, 64);
    lemma_mod_pos_bound(cell, 64);
}

/// Sprite position (`row`, `col`) lands on exactly one cell, `target_cell`,
/// unless clipping leaves it off the screen, where it lands on none.
proof fn lemma_target(s: CpuState, i: u16, row: int, col: int)
    requires
        s.gprs.len() == 16,
        0 <= row < 16,
        0 <= col < 8,
    ensures
        !s.clipping || (anchor_x(s, i) + col < 64 && anchor_y(s, i) + row < 32) ==> {
            let t = target_cell(s, i, row, col);
            &&& 0 <= t < SCREEN_CELLS
            &&& sprite_col(s, i, t) == col
            &&& sprite_row(s, i, t) == row
            &&& forall|cell: int|
                0 <= cell < SCREEN_CELLS && sprite_col(s, i, cell) == col && sprite_row(s, i, cell)
                    == row ==> cell == t
        },
        s.clipping && !(anchor_x(s, i) + col < 64 && anchor_y(s, i) + row < 32) ==> forall|
            cell: int,
        |
            0 <= cell < SCREEN_CELLS ==> !(sprite_col(s, i, cell) == col && sprite_row(s, i, cell)
                == row),
{
    let ax = anchor_x(s, i);
    let ay = anchor_y(s, i);
    lemma_mod_pos_bound(s.gprs[reg_x(i)] as int, 64);
    lemma_mod_pos_bound(s.gprs[reg_y(i)] as int, 32);
    lemma_mod_pos_bound(ax + col, 64);
    lemma_mod_pos_bound(ay + row, 32);
    let px = (ax + col) % 64;
    let py = (ay + row) % 32;
    let t = py * 64 + px;
    if !s.clipping || (ax + col < 64 && ay + row < 32) {
        lemma_fundamental_div_mod_converse(t, 64, py, px);
        if s.clipping {
            lemma_fundamental_div_mod_converse(ax + col, 64, 0, ax + col);
            lemma_fundamental_div_mod_converse(ay + row, 32, 0, ay + row);
        } else {
            lemma_mod_offset(px, ax, col, 64);
            lemma_mod_offset(py, ay, row, 32);
        }
        assert forall|cell: int|
            0 <= cell < SCREEN_CELLS && sprite_col(s, i, cell) == col && sprite_row(s, i, cell)
                == row implies cell == t by {
            lemma_cell_split(cell);
            if !s.clipping {
                lemma_mod_offset(cell % 64, ax, col, 64);
                lemma_mod_offset(cell / 64, ay, row, 32);
            }
        }
    } else {
        assert forall|cell: int| 0 <= cell < SCREEN_CELLS implies !(sprite_col(s, i, cell) == col
            && sprite_row(s, i, cell) == row) by {
            lemma_cell_split(cell);
        }
    }
}

impl CPU {
    /// The `length` bytes of memory from `offset` on, or `None` where they
    /// would pass the end of memory.
    fn read_bytes(&self, offset: usize, length: usize) -> (r: Option<&[u8]>)
        ensures
            offset + length <= RAM_SIZE ==> (r matches Some(b) && b@ == self.memory@.subrange(
                offset as int,
                offset + length,
            )),
            offset + length > RAM_SIZE ==> r is None,
    {
        if offset <= RAM_SIZE && length <= RAM_SIZE - offset {
            let all = vstd::array::array_as_slice(&self.memory);
            Some(vstd::slice::slice_subrange(all, offset, offset + length))
        } else {
            None
        }
    }

    /// `DXYN`: draws the `N`-byte sprite at `index_reg` with its top-left corner at
    /// (`VX` mod 64, `VY` mod 32). Each set sprite bit flips its cell; `VF` becomes 1
    /// when a flipped cell was lit, else 0. With clipping, bits past the right or
    /// bottom edge are dropped; without, they wrap around. A sprite that would
    /// pass the end of memory draws nothing and leaves `VF` at 0.
    pub(crate) fn draw(&mut self, instruction: u16, frame_buffer: &mut [u8])
        requires
            old(frame_buffer)@.len() == SCREEN_CELLS,
        ensures
            final(frame_buffer)@ == if sprite_in_bounds(old(self)@, instruction) {
                drawn_frame(old(self)@, instruction, old(frame_buffer)@)
            } else {
                old(frame_buffer)@
            },
            final(self)@ == if sprite_in_bounds(old(self)@, instruction) {
                draw_result(old(self)@, instruction, old(frame_buffer)@)
            } else {
                set_reg(old(self)@, 15, 0)
            },
            final(self).stack_pointer == old(self).stack_pointer,
    {
        proof {
            reveal(drawn_frame);
            reveal(draw_result);
        }
        let ghost s = self@;
        let ghost fb0 = frame_buffer@;
        let vx = field_x(instruction);
        let vy = field_y(instruction);
        let n = field_n(instruction);
        let x = self.gprs[vx] as usize % SCREEN_WIDTH;
        let y = self.gprs[vy] as usize % SCREEN_HEIGHT;
        let clipping = self.clipping;
        let mut vf: u8 = 0;
        if let Some(sprite_bytes) = self.read_bytes(self.index_reg as usize, n) {
            let mut row: usize = 0;
            while row < n
                invariant
                    s == self@,
                    sprite_in_bounds(s, instruction),
                    n == low_nibble(instruction),
                    x == anchor_x(s, instruction),
                    y == anchor_y(s, instruction),
                    clipping == s.clipping,
                    sprite_bytes@ == s.memory.subrange(s.index_reg as int, s.index_reg + n),
                    row <= n,
                    n < 16,
                    frame_buffer@.len() == SCREEN_CELLS,
                    vf == 0 || vf == 1,
                    forall|cell: int|
                        0 <= cell < SCREEN_CELLS ==> frame_buffer@[cell] == if covered_before(
                            s,
                            instruction,
                            cell,
                            row as int,
                            0,
                        ) {
                            fb0[cell] ^ 1u8
                        } else {
                            fb0[cell]
                        },
                    (vf == 1) == exists|cell: int|
                        0 <= cell < SCREEN_CELLS && covered_before(
                            s,
                            instruction,
                            cell,
                            row as int,
                            0,
                        ) && #[trigger] fb0[cell] == 1,
                decreases n - row,
            {
                let byte = sprite_bytes[row];
                let mut col: usize = 0;
                while col < 8
                    invariant
                        s == self@,
                        sprite_in_bounds(s, instruction),
                        n == low_nibble(instruction),
                        x == anchor_x(s, instruction),
                        y == anchor_y(s, instruction),
                        clipping == s.clipping,
                        byte == s.memory[s.index_reg + row],
                        row < n,
                        n < 16,
                        col <= 8,
                        frame_buffer@.len() == SCREEN_CELLS,
                        vf == 0 || vf == 1,
                        forall|cell: int|
                            0 <= cell < SCREEN_CELLS ==> frame_buffer@[cell] == if covered_before(
                                s,
                                instruction,
                                cell,
                                row as int,
                                col as int,
                            ) {
                                fb0[cell] ^ 1u8
                            } else {
                                fb0[cell]
                            },
                        (vf == 1) == exists|cell: int|
                            0 <= cell < SCREEN_CELLS && covered_before(
                                s,
                                instruction,
                                cell,
                                row as int,
                                col as int,
                            ) && #[trigger] fb0[cell] == 1,
                    decreases 8 - col,
                {
                    let sprite_pixel = (byte >> (7 - col as u8)) & 1;
                    assert(sprite_pixel == sprite_bit(byte, col as int));
                    let ghost fb1 = frame_buffer@;
                    let ghost vf1 = vf;
                    proof {
                        lemma_target(s, instruction, row as int, col as int);
                    }
                    let fb_x = x + col;
                    let fb_y = y + row;
                    if !clipping || (fb_y < SCREEN_HEIGHT && fb_x < SCREEN_WIDTH) {
                        let fb_index = (fb_y % SCREEN_HEIGHT) * SCREEN_WIDTH + fb_x % SCREEN_WIDTH;
                        let ghost t = target_cell(s, instruction, row as int, col as int);
                        assert(fb_index == t);
                        if sprite_pixel == 1 {
                            assert(covered_before(s, instruction, t, row as int, col as int + 1));
                            assert(!covered_before(s, instruction, t, row as int, col as int));
                            if frame_buffer[fb_index] == 1 {
                                vf = 1;
                            }
                            frame_buffer[fb_index] = frame_buffer[fb_index] ^ 1;
                            assert forall|cell: int|
                                0 <= cell < SCREEN_CELLS && cell != t implies covered_before(
                                    s,
                                    instruction,
                                    cell,
                                    row as int,
                                    col as int + 1,
                                ) == covered_before(
                                    s,
                                    instruction,
                                    cell,
                                    row as int,
                                    col as int,
                                ) by {}
                            proof {
                                if vf1 == 0 && vf == 1 {
                                    assert(covered_before(
                                        s,
                                        instruction,
                                        t,
                                        row as int,
                                        col as int + 1,
                                    ) && fb0[t] == 1);
                                }
                            }
                        } else {
                            assert forall|cell: int|
                                0 <= cell < SCREEN_CELLS implies covered_before(
                                    s,
                                    instruction,
                                    cell,
                                    row as int,
                                    col as int + 1,
                                ) == covered_before(
                                    s,
                                    instruction,
                                    cell,
                                    row as int,
                                    col as int,
                                ) by {}
                        }
                    } else {
                        assert forall|cell: int|
                            0 <= cell < SCREEN_CELLS implies covered_before(
                                s,
                                instruction,
                                cell,
                                row as int,
                                col as int + 1,
                            ) == covered_before(s, instruction, cell, row as int, col as int) by {}
                    }
                    col = col + 1;
                }
                assert forall|cell: int|
                    0 <= cell < SCREEN_CELLS implies covered_before(
                        s,
                        instruction,
                        cell,
                        row as int,
                        8,
                    ) == covered_before(s, instruction, cell, row as int + 1, 0) by {}
                row = row + 1;
            }
            assert(frame_buffer@ =~= drawn_frame(s, instruction, fb0));
            assert((vf == 1) == draw_collides(s, instruction, fb0));
        }
        self.gprs[15] = vf;
    }
}

} // verus!
