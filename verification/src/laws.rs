//! The laws of the machine: properties relating several operations or
//! several steps, proved from the operations' contracts.

use vstd::prelude::*;
use crate::machine::{Chip8, Fault, CELLS, MEM_SIZE, didx};
use crate::ops::{add_reg_post, sub_reg_post};
use crate::draw::{
    draw_post, clear_post, flipped_upto, flips_cell, in_prefix, collides, collision_upto, lights,
    tgt, lemma_wrap_bounds,
};
use crate::sched::{instr_clock_post, timer_post, key_event_post};

verus! {

/// Law: for all registers x, y and all register contents, the register add
/// instruction stores the 8-bit wraparound sum in the destination and sets
/// the flags register to 1 exactly when the sum did not overflow — the
/// deliberately inverted carry polarity. The one destination left out is the
/// flags register itself, which the flag write overwrites.
pub proof fn lemma_add_wraps_and_inverts_carry(pre: Chip8, post: Chip8, x: int, y: int)
    requires
        pre.wf(),
        0 <= x < 16,
        0 <= y < 16,
        x != 15,
        add_reg_post(pre, post, x, y),
    ensures
        post.v@[x] == (pre.v@[x] + pre.v@[y]) % 256,
        (post.v@[15] == 1) <==> (pre.v@[x] + pre.v@[y] < 256),
{
}

/// Law: for all registers x, y and all register contents, the register
/// subtract instruction stores the 8-bit wraparound difference in the
/// destination and sets the flags register to 1 exactly when no borrow
/// occurred (Vx at least Vy). The one destination left out is the flags
/// register itself, which the flag write overwrites.
pub proof fn lemma_sub_wraps_and_flags_no_borrow(pre: Chip8, post: Chip8, x: int, y: int)
    requires
        pre.wf(),
        0 <= x < 16,
        0 <= y < 16,
        x != 15,
        sub_reg_post(pre, post, x, y),
    ensures
        post.v@[x] == (pre.v@[x] - pre.v@[y] + 256) % 256,
        (post.v@[15] == 1) <==> (pre.v@[x] >= pre.v@[y]),
{
}

/// Some sprite pixel of the draw at registers (x, y) is set and aimed at an
/// unlit cell: the draw would light it.
pub open spec fn some_pixel_lit(pre: Chip8, x: int, y: int, n: u8) -> bool {
    exists|row: u8, col: u8|
        in_prefix(row, col, n, 0) && #[trigger] lights(pre, pre.v@[x], pre.v@[y], row, col)
}

/// Law: drawing the same sprite at the same position twice returns the
/// display to its pre-draw state, and the second draw reports a collision
/// whenever the first draw lit any pixel from darkness. The operand
/// registers must not be the flags register, which the draw itself writes.
pub proof fn lemma_draw_twice_restores_display(
    s0: Chip8,
    s1: Chip8,
    s2: Chip8,
    x: int,
    y: int,
    n: u8,
)
    requires
        s0.wf(),
        0 <= x < 16,
        0 <= y < 16,
        x != 15,
        y != 15,
        n <= 15,
        s0.i + n <= MEM_SIZE,
        draw_post(s0, s1, x, y, n, Ok(())),
        draw_post(s1, s2, x, y, n, Ok(())),
    ensures
        s2.display@ == s0.display@,
        some_pixel_lit(s0, x, y, n) ==> s2.v@[15] == 1,
{
    let vx = s0.v@[x];
    let vy = s0.v@[y];
    assert(s1.memory@ == s0.memory@);
    assert(s1.i == s0.i);
    assert(s1.v@[x] == vx);
    assert(s1.v@[y] == vy);
    assert forall|k: int|
        #[trigger] flipped_upto(s1, vx, vy, n, 0, k) == flipped_upto(s0, vx, vy, n, 0, k) by {
        if flipped_upto(s1, vx, vy, n, 0, k) {
            let (r0, c0) = choose|r0: u8, c0: u8|
                in_prefix(r0, c0, n, 0) && #[trigger] flips_cell(s1, vx, vy, r0, c0, k);
            assert(flips_cell(s0, vx, vy, r0, c0, k));
            assert(flipped_upto(s0, vx, vy, n, 0, k));
        }
        if flipped_upto(s0, vx, vy, n, 0, k) {
            let (r0, c0) = choose|r0: u8, c0: u8|
                in_prefix(r0, c0, n, 0) && #[trigger] flips_cell(s0, vx, vy, r0, c0, k);
            assert(flips_cell(s1, vx, vy, r0, c0, k));
            assert(flipped_upto(s1, vx, vy, n, 0, k));
        }
    }
    assert forall|k: int| 0 <= k < CELLS implies s2.display@[k] == s0.display@[k] by {
        assert(s1.display@[k] == (s0.display@[k] != flipped_upto(s0, vx, vy, n, 0, k)));
        assert(s2.display@[k] == (s1.display@[k] != flipped_upto(s1, vx, vy, n, 0, k)));
    }
    assert(s2.display@ =~= s0.display@);
    if some_pixel_lit(s0, x, y, n) {
        let (row, col) = choose|row: u8, col: u8|
            in_prefix(row, col, n, 0) && #[trigger] lights(s0, vx, vy, row, col);
        let t = tgt(vx, vy, row, col);
        lemma_wrap_bounds(vx, vy, row, col);
        assert(0 <= t < CELLS);
        assert(flips_cell(s0, vx, vy, row, col, t));
        assert(flipped_upto(s0, vx, vy, n, 0, t));
        assert(s1.display@[t] == (s0.display@[t] != true));
        assert(s1.display@[t]);
        assert(collides(s1, vx, vy, row, col));
        assert(collision_upto(s1, vx, vy, n, 0));
        assert(s2.v@[15] == 1);
    }
}

/// Law: after clear, a read of any display cell yields unlit, whatever the
/// prior display state was.
pub proof fn lemma_clear_blanks_every_cell(pre: Chip8, post: Chip8)
    requires
        clear_post(pre, post),
    ensures
        forall|r: int, c: int| 0 <= r < 32 && 0 <= c < 64 ==> !post.display@[#[trigger] didx(r, c)],
{
    assert forall|r: int, c: int|
        0 <= r < 32 && 0 <= c < 64 implies !post.display@[#[trigger] didx(r, c)] by {
        assert(0 <= didx(r, c) < CELLS);
    }
}

/// Law: while the machine waits for a key, an instruction-clock check
/// executes nothing at all — the program counter and every other part of
/// the machine stay as they are.
pub proof fn lemma_key_wait_suspends_execution(
    pre: Chip8,
    post: Chip8,
    now: u64,
    r: Result<(), Fault>,
)
    requires
        pre.is_waiting,
        instr_clock_post(pre, post, now, r),
    ensures
        post == pre,
        r == Ok::<(), Fault>(()),
{
}

/// Law: a key press while waiting lands the key code in the recorded
/// register, ends the wait, and re-arms the instruction clock at the present
/// moment, so execution resumes on the next due check.
pub proof fn lemma_key_press_releases_wait(pre: Chip8, post: Chip8, key: u8, now: u64)
    requires
        pre.wf(),
        pre.is_waiting,
        key < 16,
        key_event_post(pre, post, key, true, now),
    ensures
        post.v@[pre.waiting_register as int] == key,
        !post.is_waiting,
        post.next_clock == now,
        post.pc == pre.pc,
{
}

/// Law: a timer-clock check never drives a timer below zero: each timer
/// steps down by at most one and a timer that reached zero stays at zero,
/// however many further checks elapse.
pub proof fn lemma_timer_floor(pre: Chip8, post: Chip8, now: u64)
    requires
        timer_post(pre, post, now),
    ensures
        post.delay <= pre.delay,
        post.sound <= pre.sound,
        pre.delay == 0 ==> post.delay == 0,
        pre.sound == 0 ==> post.sound == 0,
{
}

} // verus!
