//! The instruction handlers other than the display operations: each one's
//! contract pins the whole machine transition, field by field.

use vstd::prelude::*;
use crate::machine::{Chip8, Fault, MEM_SIZE};
use crate::decode::{nib_x, nib_y, low_byte, addr_field, lemma_field_bounds};

verus! {

/// Program counter advanced by one instruction width.
pub open spec fn pc2(pre: Chip8) -> u16 {
    (pre.pc + 2) as u16
}

/// Program counter advanced by two widths when `skip` holds, else by one.
pub open spec fn pc_skip(pre: Chip8, skip: bool) -> u16 {
    if skip {
        (pre.pc + 4) as u16
    } else {
        (pre.pc + 2) as u16
    }
}

/// 8-bit wraparound sum.
pub open spec fn wrap_add8(a: u8, b: u8) -> u8 {
    if a + b < 256 {
        (a + b) as u8
    } else {
        (a + b - 256) as u8
    }
}

/// 8-bit wraparound difference.
pub open spec fn wrap_sub8(a: u8, b: u8) -> u8 {
    if a >= b {
        (a - b) as u8
    } else {
        (a - b + 256) as u8
    }
}

/// Only the program counter changes.
pub open spec fn pc_only_post(pre: Chip8, post: Chip8, pc: u16) -> bool {
    post == (Chip8 { pc: pc, ..pre })
}

/// Register `x` becomes `val`, the program counter advances, nothing else.
pub open spec fn set_reg_post(pre: Chip8, post: Chip8, x: int, val: u8) -> bool {
    &&& post == (Chip8 { pc: pc2(pre), v: post.v, ..pre })
    &&& post.v@ == pre.v@.update(x, val)
}

/// 00EE: pop the call stack and resume just after the popped call address.
/// An empty stack is a fatal corrupt-control-flow condition.
pub open spec fn ret_post(pre: Chip8, post: Chip8, r: Result<(), Fault>) -> bool {
    if pre.sp == 0 {
        &&& r == Err::<(), Fault>(Fault::StackUnderflow)
        &&& post == pre
    } else {
        &&& r == Ok::<(), Fault>(())
        &&& post == (Chip8 {
            pc: (pre.stack@[pre.sp - 1] + 2) as u16,
            sp: (pre.sp - 1) as u16,
            ..pre
        })
    }
}

/// 2nnn: push the current program counter, then jump. A full stack is fatal.
pub open spec fn call_sub_post(pre: Chip8, post: Chip8, w: u16, r: Result<(), Fault>) -> bool {
    if pre.sp >= 16 {
        &&& r == Err::<(), Fault>(Fault::StackOverflow)
        &&& post == pre
    } else {
        &&& r == Ok::<(), Fault>(())
        &&& post == (Chip8 {
            pc: addr_field(w),
            sp: (pre.sp + 1) as u16,
            stack: post.stack,
            ..pre
        })
        &&& post.stack@ == pre.stack@.update(pre.sp as int, pre.pc)
    }
}

/// 8xy4: flags register first gets 1 exactly when the sum does not overflow
/// (the deliberately inverted carry polarity), then Vx gets the wrapped sum.
pub open spec fn add_reg_post(pre: Chip8, post: Chip8, x: int, y: int) -> bool {
    let a = pre.v@[x];
    let b = pre.v@[y];
    let flag: u8 = if a + b < 256 { 1u8 } else { 0u8 };
    &&& post == (Chip8 { pc: pc2(pre), v: post.v, ..pre })
    &&& post.v@ == pre.v@.update(15, flag).update(x, wrap_add8(a, b))
}

/// 8xy5: Vx first gets the wrapped difference, then the flags register gets 1
/// exactly when no borrow occurred.
pub open spec fn sub_reg_post(pre: Chip8, post: Chip8, x: int, y: int) -> bool {
    let a = pre.v@[x];
    let b = pre.v@[y];
    let flag: u8 = if a >= b { 1u8 } else { 0u8 };
    &&& post == (Chip8 { pc: pc2(pre), v: post.v, ..pre })
    &&& post.v@ == pre.v@.update(x, wrap_sub8(a, b)).update(15, flag)
}

/// 8xy7: flags register first gets the no-borrow flag of Vy - Vx, then Vx
/// gets the wrapped difference.
pub open spec fn subn_reg_post(pre: Chip8, post: Chip8, x: int, y: int) -> bool {
    let a = pre.v@[x];
    let b = pre.v@[y];
    let flag: u8 = if b >= a { 1u8 } else { 0u8 };
    &&& post == (Chip8 { pc: pc2(pre), v: post.v, ..pre })
    &&& post.v@ == pre.v@.update(15, flag).update(x, wrap_sub8(b, a))
}

/// 8xy6: flags register first gets the low bit of Vx, then Vx (re-read, so a
/// flags-register destination sees the new value) shifts right by one.
pub open spec fn shr_post(pre: Chip8, post: Chip8, x: int) -> bool {
    let v1 = pre.v@.update(15, pre.v@[x] & 1);
    &&& post == (Chip8 { pc: pc2(pre), v: post.v, ..pre })
    &&& post.v@ == v1.update(x, v1[x] >> 1u8)
}

/// 8xyE: flags register first gets the raw masked high bit of Vx (0 or 0x80,
/// not normalized), then Vx (re-read) shifts left by one, dropping that bit.
pub open spec fn shl_post(pre: Chip8, post: Chip8, x: int) -> bool {
    let v1 = pre.v@.update(15, pre.v@[x] & 0x80);
    &&& post == (Chip8 { pc: pc2(pre), v: post.v, ..pre })
    &&& post.v@ == v1.update(x, v1[x] << 1u8)
}

/// Cxkk: Vx gets some byte masked by kk; which byte is the random source's
/// business, so only its existence is stated.
pub open spec fn rnd_post(pre: Chip8, post: Chip8, x: int, kk: u8) -> bool {
    &&& post == (Chip8 { pc: pc2(pre), v: post.v, ..pre })
    &&& exists|b: u8| post.v@ == pre.v@.update(x, b & kk)
}

/// Ex9E / ExA1: skip when key Vx is down (`want_down`) or up. A register
/// value outside the 16-key matrix is fatal.
pub open spec fn skip_key_post(
    pre: Chip8,
    post: Chip8,
    x: int,
    want_down: bool,
    r: Result<(), Fault>,
) -> bool {
    if pre.v@[x] >= 16 {
        &&& r == Err::<(), Fault>(Fault::KeyOutOfRange)
        &&& post == pre
    } else {
        &&& r == Ok::<(), Fault>(())
        &&& post == (Chip8 {
            pc: pc_skip(pre, pre.keys@[pre.v@[x] as int] == want_down),
            ..pre
        })
    }
}

/// Fx0A: record the waiting register and suspend instruction execution.
pub open spec fn wait_key_post(pre: Chip8, post: Chip8, x: int) -> bool {
    post == (Chip8 {
        pc: pc2(pre),
        is_waiting: true,
        waiting_register: x as usize,
        ..pre
    })
}

/// Fx15: the delay timer gets Vx.
pub open spec fn set_delay_post(pre: Chip8, post: Chip8, x: int) -> bool {
    post == (Chip8 { pc: pc2(pre), delay: pre.v@[x], ..pre })
}

/// Fx18: the sound timer gets Vx.
pub open spec fn set_sound_post(pre: Chip8, post: Chip8, x: int) -> bool {
    post == (Chip8 { pc: pc2(pre), sound: pre.v@[x], ..pre })
}

/// Fx1E: the address register grows by Vx; 16-bit overflow is fatal.
pub open spec fn add_i_post(pre: Chip8, post: Chip8, x: int, r: Result<(), Fault>) -> bool {
    if pre.i + pre.v@[x] > 0xffff {
        &&& r == Err::<(), Fault>(Fault::MemoryOutOfRange)
        &&& post == pre
    } else {
        &&& r == Ok::<(), Fault>(())
        &&& post == (Chip8 { pc: pc2(pre), i: (pre.i + pre.v@[x]) as u16, ..pre })
    }
}

/// Fx29: the address register points at the 5-byte glyph for digit Vx.
pub open spec fn load_sprite_post(pre: Chip8, post: Chip8, x: int) -> bool {
    post == (Chip8 { pc: pc2(pre), i: (pre.v@[x] * 5) as u16, ..pre })
}

/// Fx33: the three decimal digits of Vx land at I, I+1, I+2; an address
/// window leaving the memory array is fatal.
pub open spec fn bcd_post(pre: Chip8, post: Chip8, x: int, r: Result<(), Fault>) -> bool {
    if pre.i + 2 >= MEM_SIZE {
        &&& r == Err::<(), Fault>(Fault::MemoryOutOfRange)
        &&& post == pre
    } else {
        let val = pre.v@[x];
        &&& r == Ok::<(), Fault>(())
        &&& post == (Chip8 { pc: pc2(pre), memory: post.memory, ..pre })
        &&& post.memory@ == pre.memory@.update(pre.i as int, (val / 100) as u8).update(
            pre.i + 1,
            ((val / 10) % 10) as u8,
        ).update(pre.i + 2, (val % 10) as u8)
    }
}

/// Fx55: registers V0..=Vx go to memory at I, ascending; a window leaving
/// the memory array is fatal.
pub open spec fn store_regs_post(pre: Chip8, post: Chip8, x: int, r: Result<(), Fault>) -> bool {
    if pre.i + x >= MEM_SIZE {
        &&& r == Err::<(), Fault>(Fault::MemoryOutOfRange)
        &&& post == pre
    } else {
        &&& r == Ok::<(), Fault>(())
        &&& post == (Chip8 { pc: pc2(pre), memory: post.memory, ..pre })
        &&& post.memory@.len() == MEM_SIZE
        &&& forall|a: int|
            0 <= a < MEM_SIZE ==> post.memory@[a] == (if pre.i <= a <= pre.i + x {
                pre.v@[a - pre.i]
            } else {
                pre.memory@[a]
            })
    }
}

/// Fx65: registers V0..=Vx are filled from memory at I, ascending; a window
/// leaving the memory array is fatal.
pub open spec fn load_regs_post(pre: Chip8, post: Chip8, x: int, r: Result<(), Fault>) -> bool {
    if pre.i + x >= MEM_SIZE {
        &&& r == Err::<(), Fault>(Fault::MemoryOutOfRange)
        &&& post == pre
    } else {
        &&& r == Ok::<(), Fault>(())
        &&& post == (Chip8 { pc: pc2(pre), v: post.v, ..pre })
        &&& post.v@.len() == 16
        &&& forall|k: int|
            0 <= k < 16 ==> post.v@[k] == (if k <= x {
                pre.memory@[pre.i + k]
            } else {
                pre.v@[k]
            })
    }
}

impl Chip8 {
    /// 0nnn: machine call on the original hardware; here a no-op that
    /// advances past the instruction word.
    pub fn call(&mut self, _instruction: u16)
        requires
            old(self).wf(),
            old(self).pc <= 0xfffd,
        ensures
            final(self).wf(),
            pc_only_post(*old(self), *final(self), pc2(*old(self))),
    {
        self.pc = self.pc + 2;
    }

    /// 00EE: return from subroutine. The popped value is the address of the
    /// call instruction itself, so one instruction width is added after it.
    pub fn return_subroutine(&mut self, _instruction: u16) -> (r: Result<(), Fault>)
        requires
            old(self).wf(),
        ensures
            final(self).wf(),
            ret_post(*old(self), *final(self), r),
    {
        if self.sp == 0 {
            return Err(Fault::StackUnderflow);
        }
        let top = self.stack[(self.sp - 1) as usize];
        self.pc = top + 2;
        self.sp = self.sp - 1;
        Ok(())
    }

    /// 1nnn: jump to the 12-bit address.
    pub fn jump(&mut self, instruction: u16)
        requires
            old(self).wf(),
        ensures
            final(self).wf(),
            pc_only_post(*old(self), *final(self), addr_field(instruction)),
    {
        self.pc = instruction & 0xfff;
    }

    /// 2nnn: call the subroutine at the 12-bit address.
    pub fn call_subroutine(&mut self, instruction: u16) -> (r: Result<(), Fault>)
        requires
            old(self).wf(),
            old(self).pc <= 0xfffd,
        ensures
            final(self).wf(),
            call_sub_post(*old(self), *final(self), instruction, r),
    {
        if self.sp >= 16 {
            return Err(Fault::StackOverflow);
        }
        self.stack.set(self.sp as usize, self.pc);
        self.sp = self.sp + 1;
        self.pc = instruction & 0xfff;
        Ok(())
    }

    /// 3xkk: skip the next instruction when Vx equals the byte.
    pub fn skip_eq_xkk(&mut self, instruction: u16)
        requires
            old(self).wf(),
            old(self).pc <= 0xfffb,
        ensures
            final(self).wf(),
            pc_only_post(
                *old(self),
                *final(self),
                pc_skip(
                    *old(self),
                    old(self).v@[nib_x(instruction) as int] == low_byte(instruction),
                ),
            ),
    {
        proof {
            lemma_field_bounds(instruction);
        }
        let x = ((instruction >> 8) & 0xf) as usize;
        let kk = (instruction & 0xff) as u8;
        if self.v[x] == kk {
            self.pc = self.pc + 2;
        }
        self.pc = self.pc + 2;
    }

    /// 4xkk: skip the next instruction when Vx differs from the byte.
    pub fn skip_ne_xkk(&mut self, instruction: u16)
        requires
            old(self).wf(),
            old(self).pc <= 0xfffb,
        ensures
            final(self).wf(),
            pc_only_post(
                *old(self),
                *final(self),
                pc_skip(
                    *old(self),
                    old(self).v@[nib_x(instruction) as int] != low_byte(instruction),
                ),
            ),
    {
        proof {
            lemma_field_bounds(instruction);
        }
        let x = ((instruction >> 8) & 0xf) as usize;
        let kk = (instruction & 0xff) as u8;
        if self.v[x] != kk {
            self.pc = self.pc + 2;
        }
        self.pc = self.pc + 2;
    }

    /// 5xy0: skip the next instruction when Vx equals Vy.
    pub fn skip_eq_xy(&mut self, instruction: u16)
        requires
            old(self).wf(),
            old(self).pc <= 0xfffb,
        ensures
            final(self).wf(),
            pc_only_post(
                *old(self),
                *final(self),
                pc_skip(
                    *old(self),
                    old(self).v@[nib_x(instruction) as int]
                        == old(self).v@[nib_y(instruction) as int],
                ),
            ),
    {
        proof {
            lemma_field_bounds(instruction);
        }
        let x = ((instruction >> 8) & 0xf) as usize;
        let y = ((instruction >> 4) & 0xf) as usize;
        if self.v[x] == self.v[y] {
            self.pc = self.pc + 2;
        }
        self.pc = self.pc + 2;
    }

    /// 9xyn: skip the next instruction when Vx differs from Vy.
    pub fn skip_ne_xy(&mut self, instruction: u16)
        requires
            old(self).wf(),
            old(self).pc <= 0xfffb,
        ensures
            final(self).wf(),
            pc_only_post(
                *old(self),
                *final(self),
                pc_skip(
                    *old(self),
                    old(self).v@[nib_x(instruction) as int]
                        != old(self).v@[nib_y(instruction) as int],
                ),
            ),
    {
        proof {
            lemma_field_bounds(instruction);
        }
        let x = ((instruction >> 8) & 0xf) as usize;
        let y = ((instruction >> 4) & 0xf) as usize;
        if self.v[x] != self.v[y] {
            self.pc = self.pc + 2;
        }
        self.pc = self.pc + 2;
    }

    /// 6xkk: set Vx to the byte.
    pub fn set_vx_kk(&mut self, instruction: u16)
        requires
            old(self).wf(),
            old(self).pc <= 0xfffd,
        ensures
            final(self).wf(),
            set_reg_post(
                *old(self),
                *final(self),
                nib_x(instruction) as int,
                low_byte(instruction),
            ),
    {
        proof {
            lemma_field_bounds(instruction);
        }
        let x = ((instruction >> 8) & 0xf) as usize;
        let kk = (instruction & 0xff) as u8;
        self.v.set(x, kk);
        self.pc = self.pc + 2;
    }

    /// 7xkk: add the byte into Vx with 8-bit wraparound; flags untouched.
    pub fn add_vx_kk(&mut self, instruction: u16)
        requires
            old(self).wf(),
            old(self).pc <= 0xfffd,
        ensures
            final(self).wf(),
            set_reg_post(
                *old(self),
                *final(self),
                nib_x(instruction) as int,
                wrap_add8(old(self).v@[nib_x(instruction) as int], low_byte(instruction)),
            ),
    {
        proof {
            lemma_field_bounds(instruction);
        }
        let x = ((instruction >> 8) & 0xf) as usize;
        let kk = (instruction & 0xff) as u8;
        let res = self.v[x].wrapping_add(kk);
        self.v.set(x, res);
        self.pc = self.pc + 2;
    }

    /// 8xy0: set Vx to Vy.
    pub fn set_vx_vy(&mut self, instruction: u16)
        requires
            old(self).wf(),
            old(self).pc <= 0xfffd,
        ensures
            final(self).wf(),
            set_reg_post(
                *old(self),
                *final(self),
                nib_x(instruction) as int,
                old(self).v@[nib_y(instruction) as int],
            ),
    {
        proof {
            lemma_field_bounds(instruction);
        }
        let x = ((instruction >> 8) & 0xf) as usize;
        let y = ((instruction >> 4) & 0xf) as usize;
        let val = self.v[y];
        self.v.set(x, val);
        self.pc = self.pc + 2;
    }

    /// 8xy1: or Vy into Vx.
    pub fn or_vx_vy(&mut self, instruction: u16)
        requires
            old(self).wf(),
            old(self).pc <= 0xfffd,
        ensures
            final(self).wf(),
            set_reg_post(
                *old(self),
                *final(self),
                nib_x(instruction) as int,
                old(self).v@[nib_x(instruction) as int]
                    | old(self).v@[nib_y(instruction) as int],
            ),
    {
        proof {
            lemma_field_bounds(instruction);
        }
        let x = ((instruction >> 8) & 0xf) as usize;
        let y = ((instruction >> 4) & 0xf) as usize;
        let val = self.v[x] | self.v[y];
        self.v.set(x, val);
        self.pc = self.pc + 2;
    }

    /// 8xy2: and Vy into Vx.
    pub fn and_vx_vy(&mut self, instruction: u16)
        requires
            old(self).wf(),
            old(self).pc <= 0xfffd,
        ensures
            final(self).wf(),
            set_reg_post(
                *old(self),
                *final(self),
                nib_x(instruction) as int,
                old(self).v@[nib_x(instruction) as int]
                    & old(self).v@[nib_y(instruction) as int],
            ),
    {
        proof {
            lemma_field_bounds(instruction);
        }
        let x = ((instruction >> 8) & 0xf) as usize;
        let y = ((instruction >> 4) & 0xf) as usize;
        let val = self.v[x] & self.v[y];
        self.v.set(x, val);
        self.pc = self.pc + 2;
    }

    /// 8xy3: xor Vy into Vx.
    pub fn xor_vx_vy(&mut self, instruction: u16)
        requires
            old(self).wf(),
            old(self).pc <= 0xfffd,
        ensures
            final(self).wf(),
            set_reg_post(
                *old(self),
                *final(self),
                nib_x(instruction) as int,
                old(self).v@[nib_x(instruction) as int]
                    ^ old(self).v@[nib_y(instruction) as int],
            ),
    {
        proof {
            lemma_field_bounds(instruction);
        }
        let x = ((instruction >> 8) & 0xf) as usize;
        let y = ((instruction >> 4) & 0xf) as usize;
        let val = self.v[x] ^ self.v[y];
        self.v.set(x, val);
        self.pc = self.pc + 2;
    }

    /// 8xy4: add Vy into Vx; the flags register records the inverted carry.
    pub fn add_vx_vy(&mut self, instruction: u16)
        requires
            old(self).wf(),
            old(self).pc <= 0xfffd,
        ensures
            final(self).wf(),
            add_reg_post(
                *old(self),
                *final(self),
                nib_x(instruction) as int,
                nib_y(instruction) as int,
            ),
    {
        proof {
            lemma_field_bounds(instruction);
        }
        let x = ((instruction >> 8) & 0xf) as usize;
        let y = ((instruction >> 4) & 0xf) as usize;
        let a = self.v[x];
        let b = self.v[y];
        let res = a.wrapping_add(b);
        let flag: u8 = if (a as u16) + (b as u16) < 256 {
            1
        } else {
            0
        };
        self.v.set(15, flag);
        self.v.set(x, res);
        self.pc = self.pc + 2;
    }

    /// 8xy5: subtract Vy from Vx; the flags register records no-borrow.
    pub fn sub_vx_vy(&mut self, instruction: u16)
        requires
            old(self).wf(),
            old(self).pc <= 0xfffd,
        ensures
            final(self).wf(),
            sub_reg_post(
                *old(self),
                *final(self),
                nib_x(instruction) as int,
                nib_y(instruction) as int,
            ),
    {
        proof {
            lemma_field_bounds(instruction);
        }
        let x = ((instruction >> 8) & 0xf) as usize;
        let y = ((instruction >> 4) & 0xf) as usize;
        let a = self.v[x];
        let b = self.v[y];
        let res = a.wrapping_sub(b);
        let flag: u8 = if a >= b {
            1
        } else {
            0
        };
        self.v.set(x, res);
        self.v.set(15, flag);
        self.pc = self.pc + 2;
    }

    /// 8xy6: shift Vx right by one; the flags register gets the old low bit.
    pub fn shr_vx_vy(&mut self, instruction: u16)
        requires
            old(self).wf(),
            old(self).pc <= 0xfffd,
        ensures
            final(self).wf(),
            shr_post(*old(self), *final(self), nib_x(instruction) as int),
    {
        proof {
            lemma_field_bounds(instruction);
        }
        let x = ((instruction >> 8) & 0xf) as usize;
        let f = self.v[x] & 1;
        self.v.set(15, f);
        let res = self.v[x] >> 1u8;
        self.v.set(x, res);
        self.pc = self.pc + 2;
    }

    /// 8xy7: set Vx to Vy minus Vx; the flags register records no-borrow.
    pub fn subn_vx_vy(&mut self, instruction: u16)
        requires
            old(self).wf(),
            old(self).pc <= 0xfffd,
        ensures
            final(self).wf(),
            subn_reg_post(
                *old(self),
                *final(self),
                nib_x(instruction) as int,
                nib_y(instruction) as int,
            ),
    {
        proof {
            lemma_field_bounds(instruction);
        }
        let x = ((instruction >> 8) & 0xf) as usize;
        let y = ((instruction >> 4) & 0xf) as usize;
        let a = self.v[x];
        let b = self.v[y];
        let res = b.wrapping_sub(a);
        let flag: u8 = if b >= a {
            1
        } else {
            0
        };
        self.v.set(15, flag);
        self.v.set(x, res);
        self.pc = self.pc + 2;
    }

    /// 8xyE: shift Vx left by one; the flags register gets the raw high bit.
    pub fn shl_vx_vy(&mut self, instruction: u16)
        requires
            old(self).wf(),
            old(self).pc <= 0xfffd,
        ensures
            final(self).wf(),
            shl_post(*old(self), *final(self), nib_x(instruction) as int),
    {
        proof {
            lemma_field_bounds(instruction);
        }
        let x = ((instruction >> 8) & 0xf) as usize;
        let f = self.v[x] & 0x80;
        self.v.set(15, f);
        let res = self.v[x] << 1u8;
        self.v.set(x, res);
        self.pc = self.pc + 2;
    }

    /// Annn: set the address register to the 12-bit address.
    pub fn set_i_nnn(&mut self, instruction: u16)
        requires
            old(self).wf(),
            old(self).pc <= 0xfffd,
        ensures
            final(self).wf(),
            *final(self) == (Chip8 {
                pc: pc2(*old(self)),
                i: addr_field(instruction),
                ..*old(self)
            }),
    {
        self.i = instruction & 0xfff;
        self.pc = self.pc + 2;
    }

    /// Bnnn: jump to the 12-bit address plus V0.
    pub fn jump_v0(&mut self, instruction: u16)
        requires
            old(self).wf(),
        ensures
            final(self).wf(),
            pc_only_post(
                *old(self),
                *final(self),
                (old(self).v@[0] + addr_field(instruction)) as u16,
            ),
    {
        proof {
            lemma_field_bounds(instruction);
        }
        let nnn = instruction & 0xfff;
        self.pc = (self.v[0] as u16) + nnn;
    }

    /// Cxkk with the random byte handed in: the deterministic rest of the
    /// random instruction, verified for every byte the source may produce.
    pub fn rnd_with(&mut self, instruction: u16, random: u8)
        requires
            old(self).wf(),
            old(self).pc <= 0xfffd,
        ensures
            final(self).wf(),
            set_reg_post(
                *old(self),
                *final(self),
                nib_x(instruction) as int,
                random & low_byte(instruction),
            ),
    {
        proof {
            lemma_field_bounds(instruction);
        }
        let x = ((instruction >> 8) & 0xf) as usize;
        let kk = (instruction & 0xff) as u8;
        self.v.set(x, random & kk);
        self.pc = self.pc + 2;
    }

    /// Cxkk: draw a byte from the process-wide random source, mask it with
    /// kk, store it in Vx.
    pub fn rnd(&mut self, instruction: u16)
        requires
            old(self).wf(),
            old(self).pc <= 0xfffd,
        ensures
            final(self).wf(),
            rnd_post(
                *old(self),
                *final(self),
                nib_x(instruction) as int,
                low_byte(instruction),
            ),
    {
        let b = crate::rng::random_byte();
        self.rnd_with(instruction, b);
    }

    /// Ex9E: skip the next instruction when key Vx is down.
    pub fn skip_key_pressed(&mut self, instruction: u16) -> (r: Result<(), Fault>)
        requires
            old(self).wf(),
            old(self).pc <= 0xfffb,
        ensures
            final(self).wf(),
            skip_key_post(*old(self), *final(self), nib_x(instruction) as int, true, r),
    {
        proof {
            lemma_field_bounds(instruction);
        }
        let x = ((instruction >> 8) & 0xf) as usize;
        let key = self.v[x];
        if key >= 16 {
            return Err(Fault::KeyOutOfRange);
        }
        if self.keys[key as usize] {
            self.pc = self.pc + 2;
        }
        self.pc = self.pc + 2;
        Ok(())
    }

    /// ExA1: skip the next instruction when key Vx is up.
    pub fn skip_key_not_pressed(&mut self, instruction: u16) -> (r: Result<(), Fault>)
        requires
            old(self).wf(),
            old(self).pc <= 0xfffb,
        ensures
            final(self).wf(),
            skip_key_post(*old(self), *final(self), nib_x(instruction) as int, false, r),
    {
        proof {
            lemma_field_bounds(instruction);
        }
        let x = ((instruction >> 8) & 0xf) as usize;
        let key = self.v[x];
        if key >= 16 {
            return Err(Fault::KeyOutOfRange);
        }
        if !self.keys[key as usize] {
            self.pc = self.pc + 2;
        }
        self.pc = self.pc + 2;
        Ok(())
    }

    /// Fx07: set Vx to the delay timer.
    pub fn set_vx_dt(&mut self, instruction: u16)
        requires
            old(self).wf(),
            old(self).pc <= 0xfffd,
        ensures
            final(self).wf(),
            set_reg_post(
                *old(self),
                *final(self),
                nib_x(instruction) as int,
                old(self).delay,
            ),
    {
        proof {
            lemma_field_bounds(instruction);
        }
        let x = ((instruction >> 8) & 0xf) as usize;
        let val = self.delay;
        self.v.set(x, val);
        self.pc = self.pc + 2;
    }

    /// Fx0A: suspend instruction execution until a key press lands in Vx.
    pub fn wait_key(&mut self, instruction: u16)
        requires
            old(self).wf(),
            old(self).pc <= 0xfffd,
        ensures
            final(self).wf(),
            wait_key_post(*old(self), *final(self), nib_x(instruction) as int),
    {
        proof {
            lemma_field_bounds(instruction);
        }
        let x = ((instruction >> 8) & 0xf) as usize;
        self.waiting_register = x;
        self.is_waiting = true;
        self.pc = self.pc + 2;
    }

    /// Fx15: set the delay timer to Vx.
    pub fn set_dt_vx(&mut self, instruction: u16)
        requires
            old(self).wf(),
            old(self).pc <= 0xfffd,
        ensures
            final(self).wf(),
            set_delay_post(*old(self), *final(self), nib_x(instruction) as int),
    {
        proof {
            lemma_field_bounds(instruction);
        }
        let x = ((instruction >> 8) & 0xf) as usize;
        self.delay = self.v[x];
        self.pc = self.pc + 2;
    }

    /// Fx18: set the sound timer to Vx.
    pub fn set_sound_vx(&mut self, instruction: u16)
        requires
            old(self).wf(),
            old(self).pc <= 0xfffd,
        ensures
            final(self).wf(),
            set_sound_post(*old(self), *final(self), nib_x(instruction) as int),
    {
        proof {
            lemma_field_bounds(instruction);
        }
        let x = ((instruction >> 8) & 0xf) as usize;
        self.sound = self.v[x];
        self.pc = self.pc + 2;
    }

    /// Fx1E: add Vx into the address register.
    pub fn add_i_vx(&mut self, instruction: u16) -> (r: Result<(), Fault>)
        requires
            old(self).wf(),
            old(self).pc <= 0xfffd,
        ensures
            final(self).wf(),
            add_i_post(*old(self), *final(self), nib_x(instruction) as int, r),
    {
        proof {
            lemma_field_bounds(instruction);
        }
        let x = ((instruction >> 8) & 0xf) as usize;
        let val = self.v[x] as u16;
        if self.i > 0xffff - val {
            return Err(Fault::MemoryOutOfRange);
        }
        self.i = self.i + val;
        self.pc = self.pc + 2;
        Ok(())
    }

    /// Fx29: point the address register at the built-in glyph for digit Vx.
    pub fn load_sprite(&mut self, instruction: u16)
        requires
            old(self).wf(),
            old(self).pc <= 0xfffd,
        ensures
            final(self).wf(),
            load_sprite_post(*old(self), *final(self), nib_x(instruction) as int),
    {
        proof {
            lemma_field_bounds(instruction);
        }
        let x = ((instruction >> 8) & 0xf) as usize;
        self.i = (self.v[x] as u16) * 5;
        self.pc = self.pc + 2;
    }

    /// Fx33: write the hundreds, tens and ones digits of Vx to I, I+1, I+2.
    pub fn bcd(&mut self, instruction: u16) -> (r: Result<(), Fault>)
        requires
            old(self).wf(),
            old(self).pc <= 0xfffd,
        ensures
            final(self).wf(),
            bcd_post(*old(self), *final(self), nib_x(instruction) as int, r),
    {
        proof {
            lemma_field_bounds(instruction);
        }
        let x = ((instruction >> 8) & 0xf) as usize;
        if self.i as usize + 2 >= MEM_SIZE {
            return Err(Fault::MemoryOutOfRange);
        }
        let base = self.i as usize;
        let val = self.v[x];
        let mut num = val;
        self.memory.set(base + 2, num % 10);
        num = num / 10;
        self.memory.set(base + 1, num % 10);
        num = num / 10;
        self.memory.set(base, num % 10);
        self.pc = self.pc + 2;
        proof {
            vstd::arithmetic::div_mod::lemma_div_denominator(val as int, 10, 10);
            assert(val / 10 / 10 == val / 100);
            assert(val / 100 < 10);
            assert((val / 100) % 10 == val / 100);
            assert(self.memory@ =~= old(self).memory@.update(
                old(self).i as int,
                (val / 100) as u8,
            ).update(old(self).i + 1, ((val / 10) % 10) as u8).update(
                old(self).i + 2,
                (val % 10) as u8,
            ));
        }
        Ok(())
    }

    /// Fx55: store registers V0..=Vx to memory starting at I.
    pub fn load_v0_vx_i(&mut self, instruction: u16) -> (r: Result<(), Fault>)
        requires
            old(self).wf(),
            old(self).pc <= 0xfffd,
        ensures
            final(self).wf(),
            store_regs_post(*old(self), *final(self), nib_x(instruction) as int, r),
    {
        proof {
            lemma_field_bounds(instruction);
        }
        let x = ((instruction >> 8) & 0xf) as usize;
        if self.i as usize + x >= MEM_SIZE {
            return Err(Fault::MemoryOutOfRange);
        }
        let base = self.i as usize;
        let mut k: usize = 0;
        while k <= x
            invariant
                old(self).wf(),
                x < 16,
                k <= x + 1,
                base == old(self).i as usize,
                base + x < MEM_SIZE,
                *self == (Chip8 { memory: self.memory, ..*old(self) }),
                self.memory@.len() == MEM_SIZE,
                forall|a: int|
                    0 <= a < MEM_SIZE ==> self.memory@[a] == (if base <= a < base + k {
                        old(self).v@[a - base]
                    } else {
                        old(self).memory@[a]
                    }),
            decreases x + 1 - k,
        {
            let val = self.v[k];
            self.memory.set(base + k, val);
            k = k + 1;
        }
        self.pc = self.pc + 2;
        Ok(())
    }

    /// Fx65: load registers V0..=Vx from memory starting at I.
    pub fn load_i_v0_vx(&mut self, instruction: u16) -> (r: Result<(), Fault>)
        requires
            old(self).wf(),
            old(self).pc <= 0xfffd,
        ensures
            final(self).wf(),
            load_regs_post(*old(self), *final(self), nib_x(instruction) as int, r),
    {
        proof {
            lemma_field_bounds(instruction);
        }
        let x = ((instruction >> 8) & 0xf) as usize;
        if self.i as usize + x >= MEM_SIZE {
            return Err(Fault::MemoryOutOfRange);
        }
        let base = self.i as usize;
        let mut k: usize = 0;
        while k <= x
            invariant
                old(self).wf(),
                x < 16,
                k <= x + 1,
                base == old(self).i as usize,
                base + x < MEM_SIZE,
                *self == (Chip8 { v: self.v, ..*old(self) }),
                self.v@.len() == 16,
                forall|j: int|
                    0 <= j < 16 ==> self.v@[j] == (if 0 <= j < k {
                        old(self).memory@[base + j]
                    } else {
                        old(self).v@[j]
                    }),
            decreases x + 1 - k,
        {
            let val = self.memory[base + k];
            self.v.set(k, val);
            k = k + 1;
        }
        self.pc = self.pc + 2;
        Ok(())
    }
}

} // verus!
