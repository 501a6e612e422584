//! The display operations: clear, and the sprite blit with wraparound
//! addressing, XOR plotting and collision detection.

use vstd::prelude::*;
use crate::machine::{Chip8, Fault, MEM_SIZE, CELLS, didx};
use crate::ops::pc2;
use crate::decode::{nib_x, nib_y, low_nib, lemma_field_bounds};

verus! {

/// Display row hit by sprite row `row` drawn at vertical position `vy`,
/// wrapping past the 32-row edge.
pub open spec fn wrap_row(vy: u8, row: u8) -> u16 {
    ((vy + row) as u16) & 31
}

/// Display column hit by sprite column `col` drawn at horizontal position
/// `vx`, wrapping past the 64-column edge.
pub open spec fn wrap_col(vx: u8, col: u8) -> u16 {
    ((vx + col) as u16) & 63
}

/// Whether bit `col` (0 is the leftmost, highest bit) of a sprite byte is set.
pub open spec fn sprite_bit(b: u8, col: u8) -> bool {
    b & (1u8 << ((7 - col) as u8)) != 0
}

/// Flat index of the display cell that sprite pixel (row, col) lands on.
pub open spec fn tgt(vx: u8, vy: u8, row: u8, col: u8) -> int {
    didx(wrap_row(vy, row) as int, wrap_col(vx, col) as int)
}

/// Sprite pixel (row, col) is set and lands on display cell `k`.
pub open spec fn flips_cell(pre: Chip8, vx: u8, vy: u8, row: u8, col: u8, k: int) -> bool {
    &&& sprite_bit(pre.memory@[pre.i + row], col)
    &&& k == tgt(vx, vy, row, col)
}

/// Sprite pixel (row, col) comes before position (ri, ci) in blit order.
pub open spec fn in_prefix(row: u8, col: u8, ri: u8, ci: u8) -> bool {
    col < 8 && (row < ri || (row == ri && col < ci))
}

/// Some sprite pixel before (ri, ci) is set and lands on cell `k`.
pub open spec fn flipped_upto(pre: Chip8, vx: u8, vy: u8, ri: u8, ci: u8, k: int) -> bool {
    exists|row: u8, col: u8|
        in_prefix(row, col, ri, ci) && #[trigger] flips_cell(pre, vx, vy, row, col, k)
}

/// Sprite pixel (row, col) is set and lands on a cell that was already lit.
pub open spec fn collides(pre: Chip8, vx: u8, vy: u8, row: u8, col: u8) -> bool {
    &&& sprite_bit(pre.memory@[pre.i + row], col)
    &&& pre.display@[tgt(vx, vy, row, col)]
}

/// Sprite pixel (row, col) is set and its target cell is unlit, so drawing
/// would light it.
pub open spec fn lights(pre: Chip8, vx: u8, vy: u8, row: u8, col: u8) -> bool {
    &&& sprite_bit(pre.memory@[pre.i + row], col)
    &&& !pre.display@[tgt(vx, vy, row, col)]
}

/// Some sprite pixel before (ri, ci) unsets a previously lit cell.
pub open spec fn collision_upto(pre: Chip8, vx: u8, vy: u8, ri: u8, ci: u8) -> bool {
    exists|row: u8, col: u8|
        in_prefix(row, col, ri, ci) && #[trigger] collides(pre, vx, vy, row, col)
}

/// 00E0: every display cell becomes unlit; only display and pc change.
pub open spec fn clear_post(pre: Chip8, post: Chip8) -> bool {
    &&& post == (Chip8 { pc: pc2(pre), display: post.display, ..pre })
    &&& post.display@.len() == CELLS
    &&& forall|k: int| 0 <= k < CELLS ==> post.display@[k] == false
}

/// Dxyn: each set sprite bit flips its wrapped target cell, each cell is hit
/// at most once, and the flags register reports whether any lit cell was
/// unset. A sprite row read past the end of memory is fatal.
pub open spec fn draw_post(
    pre: Chip8,
    post: Chip8,
    x: int,
    y: int,
    n: u8,
    r: Result<(), Fault>,
) -> bool {
    if pre.i + n > MEM_SIZE {
        &&& r == Err::<(), Fault>(Fault::MemoryOutOfRange)
        &&& post == pre
    } else {
        let vx = pre.v@[x];
        let vy = pre.v@[y];
        &&& r == Ok::<(), Fault>(())
        &&& post == (Chip8 { pc: pc2(pre), v: post.v, display: post.display, ..pre })
        &&& post.display@.len() == CELLS
        &&& forall|k: int|
            0 <= k < CELLS ==> post.display@[k] == (pre.display@[k] != flipped_upto(
                pre,
                vx,
                vy,
                n,
                0,
                k,
            ))
        &&& post.v@ == pre.v@.update(
            15,
            if collision_upto(pre, vx, vy, n, 0) {
                1u8
            } else {
                0u8
            },
        )
    }
}

/// Two distinct sprite rows land on distinct display rows: the wrap keeps
/// offsets below 16 apart modulo 32.
proof fn lemma_wrap_row_inj(vy: u8, r1: u8, r2: u8)
    requires
        r1 < 16,
        r2 < 16,
        wrap_row(vy, r1) == wrap_row(vy, r2),
    ensures
        r1 == r2,
{
    assert(r1 == r2) by (bit_vector)
        requires
            r1 < 16,
            r2 < 16,
            ((vy + r1) as u16) & 31 == ((vy + r2) as u16) & 31,
    ;
}

/// Two distinct sprite columns land on distinct display columns.
proof fn lemma_wrap_col_inj(vx: u8, c1: u8, c2: u8)
    requires
        c1 < 8,
        c2 < 8,
        wrap_col(vx, c1) == wrap_col(vx, c2),
    ensures
        c1 == c2,
{
    assert(c1 == c2) by (bit_vector)
        requires
            c1 < 8,
            c2 < 8,
            ((vx + c1) as u16) & 63 == ((vx + c2) as u16) & 63,
    ;
}

/// The wrapped coordinates stay inside the grid.
pub proof fn lemma_wrap_bounds(vx: u8, vy: u8, row: u8, col: u8)
    ensures
        wrap_row(vy, row) < 32,
        wrap_col(vx, col) < 64,
{
    assert(((vy + row) as u16) & 31 < 32) by (bit_vector);
    assert(((vx + col) as u16) & 63 < 64) by (bit_vector);
}

/// Distinct sprite pixels land on distinct display cells.
proof fn lemma_tgt_inj(vx: u8, vy: u8, r1: u8, c1: u8, r2: u8, c2: u8)
    requires
        r1 < 16,
        r2 < 16,
        c1 < 8,
        c2 < 8,
        tgt(vx, vy, r1, c1) == tgt(vx, vy, r2, c2),
    ensures
        r1 == r2,
        c1 == c2,
{
    lemma_wrap_bounds(vx, vy, r1, c1);
    lemma_wrap_bounds(vx, vy, r2, c2);
    assert(wrap_row(vy, r1) == wrap_row(vy, r2) && wrap_col(vx, c1) == wrap_col(vx, c2));
    lemma_wrap_row_inj(vy, r1, r2);
    lemma_wrap_col_inj(vx, c1, c2);
}

/// Nothing comes before position (0, 0) in blit order.
proof fn lemma_prefix_empty(pre: Chip8, vx: u8, vy: u8)
    ensures
        forall|k: int| !(#[trigger] flipped_upto(pre, vx, vy, 0, 0, k)),
        !collision_upto(pre, vx, vy, 0, 0),
{
    assert forall|k: int| !(#[trigger] flipped_upto(pre, vx, vy, 0, 0, k)) by {
        if flipped_upto(pre, vx, vy, 0, 0, k) {
            let (r0, c0) = choose|r0: u8, c0: u8|
                in_prefix(r0, c0, 0, 0) && #[trigger] flips_cell(pre, vx, vy, r0, c0, k);
            assert(false);
        }
    }
    if collision_upto(pre, vx, vy, 0, 0) {
        let (r0, c0) = choose|r0: u8, c0: u8|
            in_prefix(r0, c0, 0, 0) && #[trigger] collides(pre, vx, vy, r0, c0);
        assert(false);
    }
}

/// Advancing the blit position by one column extends the prefix by exactly
/// the pixel (row, col).
proof fn lemma_prefix_step(pre: Chip8, vx: u8, vy: u8, row: u8, col: u8)
    requires
        col < 8,
    ensures
        forall|k: int|
            #[trigger] flipped_upto(pre, vx, vy, row, (col + 1) as u8, k) == (flipped_upto(
                pre,
                vx,
                vy,
                row,
                col,
                k,
            ) || flips_cell(pre, vx, vy, row, col, k)),
        collision_upto(pre, vx, vy, row, (col + 1) as u8) == (collision_upto(
            pre,
            vx,
            vy,
            row,
            col,
        ) || collides(pre, vx, vy, row, col)),
{
    let ci1 = (col + 1) as u8;
    assert forall|k: int|
        #[trigger] flipped_upto(pre, vx, vy, row, ci1, k) == (flipped_upto(pre, vx, vy, row, col, k)
            || flips_cell(pre, vx, vy, row, col, k)) by {
        if flipped_upto(pre, vx, vy, row, ci1, k) {
            let (r0, c0) = choose|r0: u8, c0: u8|
                in_prefix(r0, c0, row, ci1) && #[trigger] flips_cell(pre, vx, vy, r0, c0, k);
            if r0 == row && c0 == col {
                assert(flips_cell(pre, vx, vy, row, col, k));
            } else {
                assert(in_prefix(r0, c0, row, col));
                assert(flipped_upto(pre, vx, vy, row, col, k));
            }
        }
        if flipped_upto(pre, vx, vy, row, col, k) {
            let (r0, c0) = choose|r0: u8, c0: u8|
                in_prefix(r0, c0, row, col) && #[trigger] flips_cell(pre, vx, vy, r0, c0, k);
            assert(in_prefix(r0, c0, row, ci1));
            assert(flipped_upto(pre, vx, vy, row, ci1, k));
        }
        if flips_cell(pre, vx, vy, row, col, k) {
            assert(in_prefix(row, col, row, ci1));
            assert(flipped_upto(pre, vx, vy, row, ci1, k));
        }
    }
    if collision_upto(pre, vx, vy, row, ci1) {
        let (r0, c0) = choose|r0: u8, c0: u8|
            in_prefix(r0, c0, row, ci1) && #[trigger] collides(pre, vx, vy, r0, c0);
        if r0 == row && c0 == col {
            assert(collides(pre, vx, vy, row, col));
        } else {
            assert(in_prefix(r0, c0, row, col));
            assert(collision_upto(pre, vx, vy, row, col));
        }
    }
    if collision_upto(pre, vx, vy, row, col) {
        let (r0, c0) = choose|r0: u8, c0: u8|
            in_prefix(r0, c0, row, col) && #[trigger] collides(pre, vx, vy, r0, c0);
        assert(in_prefix(r0, c0, row, ci1));
        assert(collision_upto(pre, vx, vy, row, ci1));
    }
    if collides(pre, vx, vy, row, col) {
        assert(in_prefix(row, col, row, ci1));
        assert(collision_upto(pre, vx, vy, row, ci1));
    }
}

/// A finished row: position (row + 1, 0) bounds the same prefix as (row, 8).
proof fn lemma_prefix_row_wrap(pre: Chip8, vx: u8, vy: u8, row: u8)
    requires
        row < 255,
    ensures
        forall|k: int|
            #[trigger] flipped_upto(pre, vx, vy, (row + 1) as u8, 0, k) == flipped_upto(
                pre,
                vx,
                vy,
                row,
                8,
                k,
            ),
        collision_upto(pre, vx, vy, (row + 1) as u8, 0) == collision_upto(pre, vx, vy, row, 8),
{
    let ri1 = (row + 1) as u8;
    assert forall|k: int|
        #[trigger] flipped_upto(pre, vx, vy, ri1, 0, k) == flipped_upto(pre, vx, vy, row, 8, k) by {
        if flipped_upto(pre, vx, vy, ri1, 0, k) {
            let (r0, c0) = choose|r0: u8, c0: u8|
                in_prefix(r0, c0, ri1, 0) && #[trigger] flips_cell(pre, vx, vy, r0, c0, k);
            assert(in_prefix(r0, c0, row, 8));
            assert(flipped_upto(pre, vx, vy, row, 8, k));
        }
        if flipped_upto(pre, vx, vy, row, 8, k) {
            let (r0, c0) = choose|r0: u8, c0: u8|
                in_prefix(r0, c0, row, 8) && #[trigger] flips_cell(pre, vx, vy, r0, c0, k);
            assert(in_prefix(r0, c0, ri1, 0));
            assert(flipped_upto(pre, vx, vy, ri1, 0, k));
        }
    }
    if collision_upto(pre, vx, vy, ri1, 0) {
        let (r0, c0) = choose|r0: u8, c0: u8|
            in_prefix(r0, c0, ri1, 0) && #[trigger] collides(pre, vx, vy, r0, c0);
        assert(in_prefix(r0, c0, row, 8));
        assert(collision_upto(pre, vx, vy, row, 8));
    }
    if collision_upto(pre, vx, vy, row, 8) {
        let (r0, c0) = choose|r0: u8, c0: u8|
            in_prefix(r0, c0, row, 8) && #[trigger] collides(pre, vx, vy, r0, c0);
        assert(in_prefix(r0, c0, ri1, 0));
        assert(collision_upto(pre, vx, vy, ri1, 0));
    }
}

/// No sprite pixel earlier in blit order lands on (row, col)'s target cell.
proof fn lemma_no_earlier_hit(pre: Chip8, vx: u8, vy: u8, n: u8, row: u8, col: u8)
    requires
        n <= 15,
        row < n,
        col < 8,
    ensures
        !flipped_upto(pre, vx, vy, row, col, tgt(vx, vy, row, col)),
{
    let k = tgt(vx, vy, row, col);
    if flipped_upto(pre, vx, vy, row, col, k) {
        let (r0, c0) = choose|r0: u8, c0: u8|
            in_prefix(r0, c0, row, col) && #[trigger] flips_cell(pre, vx, vy, r0, c0, k);
        lemma_tgt_inj(vx, vy, r0, c0, row, col);
        assert(false);
    }
}

impl Chip8 {
    /// 00E0: reset every display cell to unlit.
    pub fn clear(&mut self, _instruction: u16)
        requires
            old(self).wf(),
            old(self).pc <= 0xfffd,
        ensures
            final(self).wf(),
            clear_post(*old(self), *final(self)),
    {
        let mut j: usize = 0;
        while j < CELLS
            invariant
                old(self).wf(),
                j <= CELLS,
                *self == (Chip8 { display: self.display, ..*old(self) }),
                self.display@.len() == CELLS,
                forall|k: int| 0 <= k < j ==> self.display@[k] == false,
            decreases CELLS - j,
        {
            self.display.set(j, false);
            j = j + 1;
        }
        self.pc = self.pc + 2;
    }

    /// Dxyn: read the n-row sprite at the address register and XOR it into
    /// the display at (Vx, Vy), wrapping at both edges; the flags register
    /// reports whether any lit cell was unset.
    pub fn draw(&mut self, instruction: u16) -> (r: Result<(), Fault>)
        requires
            old(self).wf(),
            old(self).pc <= 0xfffd,
        ensures
            final(self).wf(),
            draw_post(
                *old(self),
                *final(self),
                nib_x(instruction) as int,
                nib_y(instruction) as int,
                low_nib(instruction) as u8,
                r,
            ),
    {
        proof {
            lemma_field_bounds(instruction);
        }
        let x = ((instruction >> 8) & 0xf) as usize;
        let y = ((instruction >> 4) & 0xf) as usize;
        let n = (instruction & 0xf) as u8;
        if self.i as usize + n as usize > MEM_SIZE {
            return Err(Fault::MemoryOutOfRange);
        }
        let vx = self.v[x];
        let vy = self.v[y];
        self.v.set(15, 0);
        proof {
            lemma_prefix_empty(*old(self), vx, vy);
        }
        let mut row: u8 = 0;
        while row < n
            invariant
                old(self).wf(),
                n <= 15,
                row <= n,
                old(self).i + n <= MEM_SIZE,
                x < 16,
                y < 16,
                vx == old(self).v@[x as int],
                vy == old(self).v@[y as int],
                *self == (Chip8 { v: self.v, display: self.display, ..*old(self) }),
                self.display@.len() == CELLS,
                forall|k: int|
                    0 <= k < CELLS ==> self.display@[k] == (old(self).display@[k] != flipped_upto(
                        *old(self),
                        vx,
                        vy,
                        row,
                        0,
                        k,
                    )),
                self.v@ == old(self).v@.update(
                    15,
                    if collision_upto(*old(self), vx, vy, row, 0) {
                        1u8
                    } else {
                        0u8
                    },
                ),
            decreases n - row,
        {
            let mut col: u8 = 0;
            while col < 8
                invariant
                    old(self).wf(),
                    n <= 15,
                    row < n,
                    col <= 8,
                    old(self).i + n <= MEM_SIZE,
                    x < 16,
                    y < 16,
                    vx == old(self).v@[x as int],
                    vy == old(self).v@[y as int],
                    *self == (Chip8 { v: self.v, display: self.display, ..*old(self) }),
                    self.display@.len() == CELLS,
                    forall|k: int|
                        0 <= k < CELLS ==> self.display@[k] == (old(self).display@[k]
                            != flipped_upto(*old(self), vx, vy, row, col, k)),
                    self.v@ == old(self).v@.update(
                        15,
                        if collision_upto(*old(self), vx, vy, row, col) {
                            1u8
                        } else {
                            0u8
                        },
                    ),
                decreases 8 - col,
            {
                let b = self.memory[self.i as usize + row as usize];
                let mask: u8 = 1u8 << (7 - col);
                proof {
                    assert(mask == 1u8 << ((7 - col) as u8));
                    lemma_prefix_step(*old(self), vx, vy, row, col);
                }
                if b & mask != 0 {
                    let nx = ((vy as u16) + (row as u16)) & 31;
                    let ny = ((vx as u16) + (col as u16)) & 63;
                    proof {
                        lemma_wrap_bounds(vx, vy, row, col);
                        assert(nx == wrap_row(vy, row));
                        assert(ny == wrap_col(vx, col));
                    }
                    let idx = (nx as usize) * 64 + (ny as usize);
                    proof {
                        assert(idx as int == tgt(vx, vy, row, col));
                        assert(idx < CELLS);
                        lemma_no_earlier_hit(*old(self), vx, vy, n, row, col);
                        assert(sprite_bit(old(self).memory@[old(self).i + row], col));
                    }
                    let cur = self.display[idx];
                    self.display.set(idx, !cur);
                    proof {
                        let pre = *old(self);
                        let t = tgt(vx, vy, row, col);
                        assert(cur == pre.display@[t]);
                        assert forall|k: int|
                            0 <= k < CELLS implies self.display@[k] == (pre.display@[k]
                                != flipped_upto(pre, vx, vy, row, (col + 1) as u8, k)) by {
                            if k == t {
                                assert(flips_cell(pre, vx, vy, row, col, k));
                                assert(!flipped_upto(pre, vx, vy, row, col, k));
                            } else {
                                assert(!flips_cell(pre, vx, vy, row, col, k));
                            }
                        }
                    }
                    if cur {
                        self.v.set(15, 1);
                        proof {
                            let pre = *old(self);
                            assert(collides(pre, vx, vy, row, col));
                            assert(collision_upto(pre, vx, vy, row, (col + 1) as u8));
                            assert(self.v@ =~= pre.v@.update(15, 1u8));
                        }
                    } else {
                        proof {
                            let pre = *old(self);
                            assert(!collides(pre, vx, vy, row, col));
                        }
                    }
                } else {
                    proof {
                        let pre = *old(self);
                        assert(!sprite_bit(pre.memory@[pre.i + row], col));
                        assert forall|k: int|
                            0 <= k < CELLS implies self.display@[k] == (pre.display@[k]
                                != flipped_upto(pre, vx, vy, row, (col + 1) as u8, k)) by {
                            assert(!flips_cell(pre, vx, vy, row, col, k));
                        }
                        assert(!collides(pre, vx, vy, row, col));
                    }
                }
                col = col + 1;
            }
            proof {
                lemma_prefix_row_wrap(*old(self), vx, vy, row);
            }
            row = row + 1;
        }
        self.pc = self.pc + 2;
        Ok(())
    }
}

} // verus!
