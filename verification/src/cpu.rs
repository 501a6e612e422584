//! The instruction engine: fetch the word at the program counter, decode it,
//! and execute exactly one handler. The contract pins the whole transition.

use vstd::prelude::*;
use crate::machine::{Chip8, Fault, MEM_SIZE};
use crate::decode::{Instr, decode, decode_spec};
use crate::ops::{
    pc2, pc_skip, wrap_add8, pc_only_post, set_reg_post, ret_post, call_sub_post, add_reg_post,
    sub_reg_post, subn_reg_post, shr_post, shl_post, rnd_post, skip_key_post, wait_key_post,
    set_delay_post, set_sound_post, add_i_post, load_sprite_post, bcd_post, store_regs_post,
    load_regs_post,
};
use crate::draw::{clear_post, draw_post};

verus! {

/// The 16-bit instruction word at the program counter, big-endian.
pub open spec fn fetch_word(s: Chip8) -> u16 {
    ((s.memory@[s.pc as int] as u16) << 8u16) | (s.memory@[s.pc as int + 1] as u16)
}

/// What executing the decoded operation `ins` does to the machine.
pub open spec fn instr_post(pre: Chip8, post: Chip8, w: u16, ins: Instr, r: Result<
    (),
    Fault,
>) -> bool {
    match ins {
        Instr::Sys => r == Ok::<(), Fault>(()) && pc_only_post(pre, post, pc2(pre)),
        Instr::Cls => r == Ok::<(), Fault>(()) && clear_post(pre, post),
        Instr::Ret => ret_post(pre, post, r),
        Instr::Jp(nnn) => r == Ok::<(), Fault>(()) && pc_only_post(pre, post, nnn),
        Instr::CallSub(_) => call_sub_post(pre, post, w, r),
        Instr::SeImm(x, kk) => r == Ok::<(), Fault>(()) && pc_only_post(
            pre,
            post,
            pc_skip(pre, pre.v@[x as int] == kk),
        ),
        Instr::SneImm(x, kk) => r == Ok::<(), Fault>(()) && pc_only_post(
            pre,
            post,
            pc_skip(pre, pre.v@[x as int] != kk),
        ),
        Instr::SeReg(x, y) => r == Ok::<(), Fault>(()) && pc_only_post(
            pre,
            post,
            pc_skip(pre, pre.v@[x as int] == pre.v@[y as int]),
        ),
        Instr::LdImm(x, kk) => r == Ok::<(), Fault>(()) && set_reg_post(pre, post, x as int, kk),
        Instr::AddImm(x, kk) => r == Ok::<(), Fault>(()) && set_reg_post(
            pre,
            post,
            x as int,
            wrap_add8(pre.v@[x as int], kk),
        ),
        Instr::LdReg(x, y) => r == Ok::<(), Fault>(()) && set_reg_post(
            pre,
            post,
            x as int,
            pre.v@[y as int],
        ),
        Instr::OrReg(x, y) => r == Ok::<(), Fault>(()) && set_reg_post(
            pre,
            post,
            x as int,
            pre.v@[x as int] | pre.v@[y as int],
        ),
        Instr::AndReg(x, y) => r == Ok::<(), Fault>(()) && set_reg_post(
            pre,
            post,
            x as int,
            pre.v@[x as int] & pre.v@[y as int],
        ),
        Instr::XorReg(x, y) => r == Ok::<(), Fault>(()) && set_reg_post(
            pre,
            post,
            x as int,
            pre.v@[x as int] ^ pre.v@[y as int],
        ),
        Instr::AddReg(x, y) => r == Ok::<(), Fault>(()) && add_reg_post(
            pre,
            post,
            x as int,
            y as int,
        ),
        Instr::SubReg(x, y) => r == Ok::<(), Fault>(()) && sub_reg_post(
            pre,
            post,
            x as int,
            y as int,
        ),
        Instr::ShrReg(x) => r == Ok::<(), Fault>(()) && shr_post(pre, post, x as int),
        Instr::SubnReg(x, y) => r == Ok::<(), Fault>(()) && subn_reg_post(
            pre,
            post,
            x as int,
            y as int,
        ),
        Instr::ShlReg(x) => r == Ok::<(), Fault>(()) && shl_post(pre, post, x as int),
        Instr::SneReg(x, y) => r == Ok::<(), Fault>(()) && pc_only_post(
            pre,
            post,
            pc_skip(pre, pre.v@[x as int] != pre.v@[y as int]),
        ),
        Instr::LdI(nnn) => r == Ok::<(), Fault>(()) && post == (Chip8 {
            pc: pc2(pre),
            i: nnn,
            ..pre
        }),
        Instr::JpV0(nnn) => r == Ok::<(), Fault>(()) && pc_only_post(
            pre,
            post,
            (pre.v@[0] + nnn) as u16,
        ),
        Instr::Rnd(x, kk) => r == Ok::<(), Fault>(()) && rnd_post(pre, post, x as int, kk),
        Instr::Drw(x, y, n) => draw_post(pre, post, x as int, y as int, n, r),
        Instr::SkipKey(x) => skip_key_post(pre, post, x as int, true, r),
        Instr::SkipNoKey(x) => skip_key_post(pre, post, x as int, false, r),
        Instr::LdFromDt(x) => r == Ok::<(), Fault>(()) && set_reg_post(
            pre,
            post,
            x as int,
            pre.delay,
        ),
        Instr::WaitKey(x) => r == Ok::<(), Fault>(()) && wait_key_post(pre, post, x as int),
        Instr::LdDt(x) => r == Ok::<(), Fault>(()) && set_delay_post(pre, post, x as int),
        Instr::LdSt(x) => r == Ok::<(), Fault>(()) && set_sound_post(pre, post, x as int),
        Instr::AddI(x) => add_i_post(pre, post, x as int, r),
        Instr::LdFont(x) => r == Ok::<(), Fault>(()) && load_sprite_post(pre, post, x as int),
        Instr::Bcd(x) => bcd_post(pre, post, x as int, r),
        Instr::StoreRegs(x) => store_regs_post(pre, post, x as int, r),
        Instr::LoadRegs(x) => load_regs_post(pre, post, x as int, r),
    }
}

/// One instruction-engine step: fatal when the program counter leaves the
/// memory array; a zero word halts; an unknown form is fatal; otherwise the
/// decoded operation's transition holds.
pub open spec fn clock_post(pre: Chip8, post: Chip8, r: Result<(), Fault>) -> bool {
    if pre.pc + 1 >= MEM_SIZE {
        &&& r == Err::<(), Fault>(Fault::MemoryOutOfRange)
        &&& post == pre
    } else {
        let w = fetch_word(pre);
        if w == 0 {
            &&& r == Ok::<(), Fault>(())
            &&& post == (Chip8 { halt: true, ..pre })
        } else {
            match decode_spec(w) {
                Option::Some(ins) => instr_post(pre, post, w, ins, r),
                Option::None => r == Err::<(), Fault>(Fault::Unsupported) && post == pre,
            }
        }
    }
}

impl Chip8 {
    /// Fetch, decode and execute exactly one instruction.
    pub fn clock(&mut self) -> (r: Result<(), Fault>)
        requires
            old(self).wf(),
        ensures
            final(self).wf(),
            clock_post(*old(self), *final(self), r),
    {
        if self.pc as usize + 1 >= MEM_SIZE {
            return Err(Fault::MemoryOutOfRange);
        }
        let p = self.pc as usize;
        let hi = self.memory[p];
        let lo = self.memory[p + 1];
        let w = ((hi as u16) << 8u16) | (lo as u16);
        if w == 0 {
            self.halt = true;
            return Ok(());
        }
        match decode(w) {
            None => Err(Fault::Unsupported),
            Some(ins) => match ins {
                Instr::Sys => {
                    self.call(w);
                    Ok(())
                },
                Instr::Cls => {
                    self.clear(w);
                    Ok(())
                },
                Instr::Ret => self.return_subroutine(w),
                Instr::Jp(_) => {
                    self.jump(w);
                    Ok(())
                },
                Instr::CallSub(_) => self.call_subroutine(w),
                Instr::SeImm(_, _) => {
                    self.skip_eq_xkk(w);
                    Ok(())
                },
                Instr::SneImm(_, _) => {
                    self.skip_ne_xkk(w);
                    Ok(())
                },
                Instr::SeReg(_, _) => {
                    self.skip_eq_xy(w);
                    Ok(())
                },
                Instr::LdImm(_, _) => {
                    self.set_vx_kk(w);
                    Ok(())
                },
                Instr::AddImm(_, _) => {
                    self.add_vx_kk(w);
                    Ok(())
                },
                Instr::LdReg(_, _) => {
                    self.set_vx_vy(w);
                    Ok(())
                },
                Instr::OrReg(_, _) => {
                    self.or_vx_vy(w);
                    Ok(())
                },
                Instr::AndReg(_, _) => {
                    self.and_vx_vy(w);
                    Ok(())
                },
                Instr::XorReg(_, _) => {
                    self.xor_vx_vy(w);
                    Ok(())
                },
                Instr::AddReg(_, _) => {
                    self.add_vx_vy(w);
                    Ok(())
                },
                Instr::SubReg(_, _) => {
                    self.sub_vx_vy(w);
                    Ok(())
                },
                Instr::ShrReg(_) => {
                    self.shr_vx_vy(w);
                    Ok(())
                },
                Instr::SubnReg(_, _) => {
                    self.subn_vx_vy(w);
                    Ok(())
                },
                Instr::ShlReg(_) => {
                    self.shl_vx_vy(w);
                    Ok(())
                },
                Instr::SneReg(_, _) => {
                    self.skip_ne_xy(w);
                    Ok(())
                },
                Instr::LdI(_) => {
                    self.set_i_nnn(w);
                    Ok(())
                },
                Instr::JpV0(_) => {
                    self.jump_v0(w);
                    Ok(())
                },
                Instr::Rnd(_, _) => {
                    self.rnd(w);
                    Ok(())
                },
                Instr::Drw(_, _, _) => self.draw(w),
                Instr::SkipKey(_) => self.skip_key_pressed(w),
                Instr::SkipNoKey(_) => self.skip_key_not_pressed(w),
                Instr::LdFromDt(_) => {
                    self.set_vx_dt(w);
                    Ok(())
                },
                Instr::WaitKey(_) => {
                    self.wait_key(w);
                    Ok(())
                },
                Instr::LdDt(_) => {
                    self.set_dt_vx(w);
                    Ok(())
                },
                Instr::LdSt(_) => {
                    self.set_sound_vx(w);
                    Ok(())
                },
                Instr::AddI(_) => self.add_i_vx(w),
                Instr::LdFont(_) => {
                    self.load_sprite(w);
                    Ok(())
                },
                Instr::Bcd(_) => self.bcd(w),
                Instr::StoreRegs(_) => self.load_v0_vx_i(w),
                Instr::LoadRegs(_) => self.load_i_v0_vx(w),
            },
        }
    }
}

} // verus!
