//! Instruction decode: a 16-bit instruction word is split into its fields and
//! mapped to exactly one of the 35 defined operation forms, or rejected.

use vstd::prelude::*;

verus! {

/// The second nibble: the Vx register index field.
pub open spec fn nib_x(w: u16) -> u16 {
    (w >> 8) & 0xf
}

/// The third nibble: the Vy register index field.
pub open spec fn nib_y(w: u16) -> u16 {
    (w >> 4) & 0xf
}

/// The lowest nibble: the 4-bit count field.
pub open spec fn low_nib(w: u16) -> u16 {
    w & 0xf
}

/// The low byte: the immediate operand field.
pub open spec fn low_byte(w: u16) -> u8 {
    (w & 0xff) as u8
}

/// The low 12 bits: the address operand field.
pub open spec fn addr_field(w: u16) -> u16 {
    w & 0xfff
}

/// Ranges of the packed operand fields.
pub proof fn lemma_field_bounds(w: u16)
    ensures
        nib_x(w) < 16,
        nib_y(w) < 16,
        low_nib(w) < 16,
        low_byte(w) == w & 0xff,
        addr_field(w) < 0x1000,
{
    assert((w >> 8) & 0xf < 16) by (bit_vector);
    assert((w >> 4) & 0xf < 16) by (bit_vector);
    assert(w & 0xf < 16) by (bit_vector);
    assert(w & 0xff < 256) by (bit_vector);
    assert(w & 0xfff < 0x1000) by (bit_vector);
}

/// A decoded operation: one variant per defined instruction form. Register
/// indices are always in 0..16, immediates are the raw operand bytes.
#[derive(Clone, Copy, PartialEq, Eq, Structural, Debug)]
pub enum Instr {
    /// 0nnn: machine call, executed as a no-op.
    Sys,
    /// 00E0: clear the display.
    Cls,
    /// 00EE: return from subroutine.
    Ret,
    /// 1nnn: jump to address.
    Jp(u16),
    /// 2nnn: call subroutine at address.
    CallSub(u16),
    /// 3xkk: skip next instruction if Vx equals the byte.
    SeImm(usize, u8),
    /// 4xkk: skip next instruction if Vx differs from the byte.
    SneImm(usize, u8),
    /// 5xy0: skip next instruction if Vx equals Vy.
    SeReg(usize, usize),
    /// 6xkk: set Vx to the byte.
    LdImm(usize, u8),
    /// 7xkk: add the byte to Vx, wrapping, flags untouched.
    AddImm(usize, u8),
    /// 8xy0: set Vx to Vy.
    LdReg(usize, usize),
    /// 8xy1: or Vy into Vx.
    OrReg(usize, usize),
    /// 8xy2: and Vy into Vx.
    AndReg(usize, usize),
    /// 8xy3: xor Vy into Vx.
    XorReg(usize, usize),
    /// 8xy4: add Vy into Vx; flags register gets 1 when the sum does not
    /// overflow, 0 when it does (deliberately inverted carry polarity).
    AddReg(usize, usize),
    /// 8xy5: subtract Vy from Vx; flags register gets 1 when no borrow.
    SubReg(usize, usize),
    /// 8xy6: shift Vx right by one; flags register gets the old low bit.
    ShrReg(usize),
    /// 8xy7: set Vx to Vy minus Vx; flags register gets 1 when no borrow.
    SubnReg(usize, usize),
    /// 8xyE: shift Vx left by one; flags register gets the old high bit raw.
    ShlReg(usize),
    /// 9xyn: skip next instruction if Vx differs from Vy.
    SneReg(usize, usize),
    /// Annn: set the address register.
    LdI(u16),
    /// Bnnn: jump to address plus V0.
    JpV0(u16),
    /// Cxkk: set Vx to a random byte masked by kk.
    Rnd(usize, u8),
    /// Dxyn: draw an n-row sprite at (Vx, Vy) with wraparound and collision.
    Drw(usize, usize, u8),
    /// Ex9E: skip next instruction if key Vx is down.
    SkipKey(usize),
    /// ExA1: skip next instruction if key Vx is up.
    SkipNoKey(usize),
    /// Fx07: set Vx to the delay timer.
    LdFromDt(usize),
    /// Fx0A: suspend execution until a key press lands in Vx.
    WaitKey(usize),
    /// Fx15: set the delay timer to Vx.
    LdDt(usize),
    /// Fx18: set the sound timer to Vx.
    LdSt(usize),
    /// Fx1E: add Vx to the address register.
    AddI(usize),
    /// Fx29: point the address register at the glyph for digit Vx.
    LdFont(usize),
    /// Fx33: store the three decimal digits of Vx at I, I+1, I+2.
    Bcd(usize),
    /// Fx55: store V0..=Vx to memory from I.
    StoreRegs(usize),
    /// Fx65: load V0..=Vx from memory at I.
    LoadRegs(usize),
}

/// The decode table: which form, if any, an instruction word takes. The
/// word 0x0000 decodes as Sys, but execution treats it as a halt signal
/// before decoding.
pub open spec fn decode_spec(w: u16) -> Option<Instr> {
    let x = nib_x(w) as usize;
    let y = nib_y(w) as usize;
    let kk = low_byte(w);
    let nnn = addr_field(w);
    let n = low_nib(w) as u8;
    let hi = w >> 12;
    if hi == 0x0 {
        if w == 0x00e0 {
            Some(Instr::Cls)
        } else if w == 0x00ee {
            Some(Instr::Ret)
        } else {
            Some(Instr::Sys)
        }
    } else if hi == 0x1 {
        Some(Instr::Jp(nnn))
    } else if hi == 0x2 {
        Some(Instr::CallSub(nnn))
    } else if hi == 0x3 {
        Some(Instr::SeImm(x, kk))
    } else if hi == 0x4 {
        Some(Instr::SneImm(x, kk))
    } else if hi == 0x5 {
        if low_nib(w) == 0 {
            Some(Instr::SeReg(x, y))
        } else {
            None
        }
    } else if hi == 0x6 {
        Some(Instr::LdImm(x, kk))
    } else if hi == 0x7 {
        Some(Instr::AddImm(x, kk))
    } else if hi == 0x8 {
        let sel = low_nib(w);
        if sel == 0x0 {
            Some(Instr::LdReg(x, y))
        } else if sel == 0x1 {
            Some(Instr::OrReg(x, y))
        } else if sel == 0x2 {
            Some(Instr::AndReg(x, y))
        } else if sel == 0x3 {
            Some(Instr::XorReg(x, y))
        } else if sel == 0x4 {
            Some(Instr::AddReg(x, y))
        } else if sel == 0x5 {
            Some(Instr::SubReg(x, y))
        } else if sel == 0x6 {
            Some(Instr::ShrReg(x))
        } else if sel == 0x7 {
            Some(Instr::SubnReg(x, y))
        } else if sel == 0xe {
            Some(Instr::ShlReg(x))
        } else {
            None
        }
    } else if hi == 0x9 {
        Some(Instr::SneReg(x, y))
    } else if hi == 0xa {
        Some(Instr::LdI(nnn))
    } else if hi == 0xb {
        Some(Instr::JpV0(nnn))
    } else if hi == 0xc {
        Some(Instr::Rnd(x, kk))
    } else if hi == 0xd {
        Some(Instr::Drw(x, y, n))
    } else if hi == 0xe {
        let sel = w & 0xff;
        if sel == 0x9e {
            Some(Instr::SkipKey(x))
        } else if sel == 0xa1 {
            Some(Instr::SkipNoKey(x))
        } else {
            None
        }
    } else {
        let sel = w & 0xff;
        if sel == 0x07 {
            Some(Instr::LdFromDt(x))
        } else if sel == 0x0a {
            Some(Instr::WaitKey(x))
        } else if sel == 0x15 {
            Some(Instr::LdDt(x))
        } else if sel == 0x18 {
            Some(Instr::LdSt(x))
        } else if sel == 0x1e {
            Some(Instr::AddI(x))
        } else if sel == 0x29 {
            Some(Instr::LdFont(x))
        } else if sel == 0x33 {
            Some(Instr::Bcd(x))
        } else if sel == 0x55 {
            Some(Instr::StoreRegs(x))
        } else if sel == 0x65 {
            Some(Instr::LoadRegs(x))
        } else {
            None
        }
    }
}

/// Decode one instruction word, exactly as the decode table says.
pub fn decode(w: u16) -> (r: Option<Instr>)
    ensures
        r == decode_spec(w),
{
    proof {
        lemma_field_bounds(w);
    }
    let x = ((w >> 8) & 0xf) as usize;
    let y = ((w >> 4) & 0xf) as usize;
    let kk = (w & 0xff) as u8;
    let nnn = w & 0xfff;
    let n = (w & 0xf) as u8;
    let hi = w >> 12;
    if hi == 0x0 {
        if w == 0x00e0 {
            Some(Instr::Cls)
        } else if w == 0x00ee {
            Some(Instr::Ret)
        } else {
            Some(Instr::Sys)
        }
    } else if hi == 0x1 {
        Some(Instr::Jp(nnn))
    } else if hi == 0x2 {
        Some(Instr::CallSub(nnn))
    } else if hi == 0x3 {
        Some(Instr::SeImm(x, kk))
    } else if hi == 0x4 {
        Some(Instr::SneImm(x, kk))
    } else if hi == 0x5 {
        if w & 0xf == 0 {
            Some(Instr::SeReg(x, y))
        } else {
            None
        }
    } else if hi == 0x6 {
        Some(Instr::LdImm(x, kk))
    } else if hi == 0x7 {
        Some(Instr::AddImm(x, kk))
    } else if hi == 0x8 {
        let sel = w & 0xf;
        if sel == 0x0 {
            Some(Instr::LdReg(x, y))
        } else if sel == 0x1 {
            Some(Instr::OrReg(x, y))
        } else if sel == 0x2 {
            Some(Instr::AndReg(x, y))
        } else if sel == 0x3 {
            Some(Instr::XorReg(x, y))
        } else if sel == 0x4 {
            Some(Instr::AddReg(x, y))
        } else if sel == 0x5 {
            Some(Instr::SubReg(x, y))
        } else if sel == 0x6 {
            Some(Instr::ShrReg(x))
        } else if sel == 0x7 {
            Some(Instr::SubnReg(x, y))
        } else if sel == 0xe {
            Some(Instr::ShlReg(x))
        } else {
            None
        }
    } else if hi == 0x9 {
        Some(Instr::SneReg(x, y))
    } else if hi == 0xa {
        Some(Instr::LdI(nnn))
    } else if hi == 0xb {
        Some(Instr::JpV0(nnn))
    } else if hi == 0xc {
        Some(Instr::Rnd(x, kk))
    } else if hi == 0xd {
        Some(Instr::Drw(x, y, n))
    } else if hi == 0xe {
        let sel = w & 0xff;
        if sel == 0x9e {
            Some(Instr::SkipKey(x))
        } else if sel == 0xa1 {
            Some(Instr::SkipNoKey(x))
        } else {
            None
        }
    } else {
        let sel = w & 0xff;
        if sel == 0x07 {
            Some(Instr::LdFromDt(x))
        } else if sel == 0x0a {
            Some(Instr::WaitKey(x))
        } else if sel == 0x15 {
            Some(Instr::LdDt(x))
        } else if sel == 0x18 {
            Some(Instr::LdSt(x))
        } else if sel == 0x1e {
            Some(Instr::AddI(x))
        } else if sel == 0x29 {
            Some(Instr::LdFont(x))
        } else if sel == 0x33 {
            Some(Instr::Bcd(x))
        } else if sel == 0x55 {
            Some(Instr::StoreRegs(x))
        } else if sel == 0x65 {
            Some(Instr::LoadRegs(x))
        } else {
            None
        }
    }
}

} // verus!
