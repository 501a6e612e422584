//! Tests of the interpreter: instruction semantics, edge cases, fatal
//! conditions, and the scheduling policy under an injected clock.

use chip8::machine::{Chip8, Fault};
use chip8::decode::{decode, Instr};

fn fresh(rom: &[u8]) -> Chip8 {
    let rom: Vec<u8> = rom.to_vec();
    Chip8::new(&rom)
}

fn cell(m: &Chip8, row: usize, col: usize) -> bool {
    m.display[row * 64 + col]
}

#[test]
fn new_loads_font_and_program() {
    let m = fresh(&[0xAB, 0xCD]);
    assert_eq!(m.pc, 0x200);
    assert_eq!(m.sp, 0);
    assert_eq!(m.i, 0);
    assert_eq!(m.delay, 0);
    assert_eq!(m.sound, 0);
    assert!(!m.halt && !m.pause && !m.is_waiting);
    // glyph 0 and glyph 1
    assert_eq!(&m.memory[0..5], &[0xF0, 0x90, 0x90, 0x90, 0xF0]);
    assert_eq!(&m.memory[5..10], &[0x20, 0x60, 0x20, 0x20, 0x70]);
    // glyph A at offset 50
    assert_eq!(&m.memory[50..55], &[0xF0, 0x90, 0xF0, 0x90, 0x90]);
    // program image at 0x200, zeroes beyond
    assert_eq!(m.memory[0x200], 0xAB);
    assert_eq!(m.memory[0x201], 0xCD);
    assert_eq!(m.memory[0x202], 0x00);
    assert!(m.display.iter().all(|p| !p));
    assert!(m.keys.iter().all(|k| !k));
}

#[test]
fn decode_covers_the_forms() {
    assert_eq!(decode(0x0123), Some(Instr::Sys));
    assert_eq!(decode(0x00E0), Some(Instr::Cls));
    assert_eq!(decode(0x00EE), Some(Instr::Ret));
    assert_eq!(decode(0x1ABC), Some(Instr::Jp(0xABC)));
    assert_eq!(decode(0x2ABC), Some(Instr::CallSub(0xABC)));
    assert_eq!(decode(0x3A42), Some(Instr::SeImm(0xA, 0x42)));
    assert_eq!(decode(0x4A42), Some(Instr::SneImm(0xA, 0x42)));
    assert_eq!(decode(0x5AB0), Some(Instr::SeReg(0xA, 0xB)));
    assert_eq!(decode(0x5AB1), None);
    assert_eq!(decode(0x6A42), Some(Instr::LdImm(0xA, 0x42)));
    assert_eq!(decode(0x7A42), Some(Instr::AddImm(0xA, 0x42)));
    assert_eq!(decode(0x8AB0), Some(Instr::LdReg(0xA, 0xB)));
    assert_eq!(decode(0x8AB1), Some(Instr::OrReg(0xA, 0xB)));
    assert_eq!(decode(0x8AB2), Some(Instr::AndReg(0xA, 0xB)));
    assert_eq!(decode(0x8AB3), Some(Instr::XorReg(0xA, 0xB)));
    assert_eq!(decode(0x8AB4), Some(Instr::AddReg(0xA, 0xB)));
    assert_eq!(decode(0x8AB5), Some(Instr::SubReg(0xA, 0xB)));
    assert_eq!(decode(0x8AB6), Some(Instr::ShrReg(0xA)));
    assert_eq!(decode(0x8AB7), Some(Instr::SubnReg(0xA, 0xB)));
    assert_eq!(decode(0x8ABE), Some(Instr::ShlReg(0xA)));
    assert_eq!(decode(0x8AB8), None);
    // the 9 family ignores the low nibble
    assert_eq!(decode(0x9AB0), Some(Instr::SneReg(0xA, 0xB)));
    assert_eq!(decode(0x9AB7), Some(Instr::SneReg(0xA, 0xB)));
    assert_eq!(decode(0xAABC), Some(Instr::LdI(0xABC)));
    assert_eq!(decode(0xBABC), Some(Instr::JpV0(0xABC)));
    assert_eq!(decode(0xCA42), Some(Instr::Rnd(0xA, 0x42)));
    assert_eq!(decode(0xDAB7), Some(Instr::Drw(0xA, 0xB, 7)));
    assert_eq!(decode(0xEA9E), Some(Instr::SkipKey(0xA)));
    assert_eq!(decode(0xEAA1), Some(Instr::SkipNoKey(0xA)));
    assert_eq!(decode(0xEA00), None);
    assert_eq!(decode(0xFA07), Some(Instr::LdFromDt(0xA)));
    assert_eq!(decode(0xFA0A), Some(Instr::WaitKey(0xA)));
    assert_eq!(decode(0xFA15), Some(Instr::LdDt(0xA)));
    assert_eq!(decode(0xFA18), Some(Instr::LdSt(0xA)));
    assert_eq!(decode(0xFA1E), Some(Instr::AddI(0xA)));
    assert_eq!(decode(0xFA29), Some(Instr::LdFont(0xA)));
    assert_eq!(decode(0xFA33), Some(Instr::Bcd(0xA)));
    assert_eq!(decode(0xFA55), Some(Instr::StoreRegs(0xA)));
    assert_eq!(decode(0xFA65), Some(Instr::LoadRegs(0xA)));
    assert_eq!(decode(0xFA66), None);
}

#[test]
fn add_sets_inverted_carry_flag() {
    // no overflow: flag 1
    let mut m = fresh(&[]);
    m.v[0] = 100;
    m.v[1] = 27;
    m.add_vx_vy(0x8014);
    assert_eq!(m.v[0], 127);
    assert_eq!(m.v[15], 1);
    assert_eq!(m.pc, 0x202);
    // overflow: wrapped sum, flag 0
    let mut m = fresh(&[]);
    m.v[0] = 200;
    m.v[1] = 100;
    m.add_vx_vy(0x8014);
    assert_eq!(m.v[0], 44);
    assert_eq!(m.v[15], 0);
}

#[test]
fn sub_sets_no_borrow_flag() {
    let mut m = fresh(&[]);
    m.v[0] = 20;
    m.v[1] = 10;
    m.sub_vx_vy(0x8015);
    assert_eq!(m.v[0], 10);
    assert_eq!(m.v[15], 1);
    let mut m = fresh(&[]);
    m.v[0] = 10;
    m.v[1] = 20;
    m.sub_vx_vy(0x8015);
    assert_eq!(m.v[0], 246);
    assert_eq!(m.v[15], 0);
    // equal operands: no borrow
    let mut m = fresh(&[]);
    m.v[0] = 7;
    m.v[1] = 7;
    m.sub_vx_vy(0x8015);
    assert_eq!(m.v[0], 0);
    assert_eq!(m.v[15], 1);
}

#[test]
fn subn_reverses_operands() {
    let mut m = fresh(&[]);
    m.v[2] = 10;
    m.v[3] = 30;
    m.subn_vx_vy(0x8237);
    assert_eq!(m.v[2], 20);
    assert_eq!(m.v[15], 1);
}

#[test]
fn shr_flags_low_bit() {
    let mut m = fresh(&[]);
    m.v[4] = 5;
    m.shr_vx_vy(0x8406);
    assert_eq!(m.v[4], 2);
    assert_eq!(m.v[15], 1);
}

#[test]
fn shl_flags_raw_high_bit() {
    let mut m = fresh(&[]);
    m.v[4] = 0x81;
    m.shl_vx_vy(0x840E);
    assert_eq!(m.v[4], 0x02);
    // the raw masked bit, not normalized to 1
    assert_eq!(m.v[15], 0x80);
}

#[test]
fn immediate_and_logic_ops() {
    let mut m = fresh(&[]);
    m.set_vx_kk(0x6A42);
    assert_eq!(m.v[0xA], 0x42);
    m.add_vx_kk(0x7AFF);
    assert_eq!(m.v[0xA], 0x41);
    m.v[0xB] = 0x0F;
    m.or_vx_vy(0x8AB1);
    assert_eq!(m.v[0xA], 0x4F);
    m.and_vx_vy(0x8AB2);
    assert_eq!(m.v[0xA], 0x0F);
    m.xor_vx_vy(0x8AB3);
    assert_eq!(m.v[0xA], 0x00);
    m.v[0xC] = 9;
    m.set_vx_vy(0x8AC0);
    assert_eq!(m.v[0xA], 9);
    assert_eq!(m.pc, 0x200 + 12);
}

#[test]
fn skip_families() {
    let mut m = fresh(&[]);
    m.v[3] = 0x42;
    m.skip_eq_xkk(0x3342);
    assert_eq!(m.pc, 0x204);
    m.skip_eq_xkk(0x3341);
    assert_eq!(m.pc, 0x206);
    m.skip_ne_xkk(0x4341);
    assert_eq!(m.pc, 0x20A);
    m.v[4] = 0x42;
    m.skip_eq_xy(0x5340);
    assert_eq!(m.pc, 0x20E);
    m.skip_ne_xy(0x9340);
    assert_eq!(m.pc, 0x210);
    m.v[4] = 0;
    m.skip_ne_xy(0x9340);
    assert_eq!(m.pc, 0x214);
}

#[test]
fn jump_and_jump_v0() {
    let mut m = fresh(&[]);
    m.jump(0x1ABC);
    assert_eq!(m.pc, 0xABC);
    m.v[0] = 0x10;
    m.jump_v0(0xB300);
    assert_eq!(m.pc, 0x310);
}

#[test]
fn call_and_return_round_trip() {
    let mut m = fresh(&[]);
    assert_eq!(m.call_subroutine(0x2300), Ok(()));
    assert_eq!(m.pc, 0x300);
    assert_eq!(m.sp, 1);
    assert_eq!(m.stack[0], 0x200);
    assert_eq!(m.return_subroutine(0x00EE), Ok(()));
    // the popped address is the call site, plus one instruction width
    assert_eq!(m.pc, 0x202);
    assert_eq!(m.sp, 0);
}

#[test]
fn return_on_empty_stack_is_fatal() {
    let mut m = fresh(&[]);
    assert_eq!(m.return_subroutine(0x00EE), Err(Fault::StackUnderflow));
    assert_eq!(m.pc, 0x200);
}

#[test]
fn call_on_full_stack_is_fatal() {
    let mut m = fresh(&[]);
    for _ in 0..16 {
        assert_eq!(m.call_subroutine(0x2300), Ok(()));
    }
    assert_eq!(m.sp, 16);
    assert_eq!(m.call_subroutine(0x2300), Err(Fault::StackOverflow));
    assert_eq!(m.sp, 16);
}

#[test]
fn rnd_applies_the_mask() {
    let mut m = fresh(&[]);
    m.rnd_with(0xC1FF, 0xAB);
    assert_eq!(m.v[1], 0xAB);
    m.rnd_with(0xC20F, 0xAB);
    assert_eq!(m.v[2], 0x0B);
    // through the real random source: a zero mask pins the result, so this
    // fails if the source's byte were stored unmasked
    for _ in 0..8 {
        m.rnd(0xC300);
        assert_eq!(m.v[3], 0);
    }
}

#[test]
fn timers_and_registers() {
    let mut m = fresh(&[]);
    m.v[6] = 77;
    m.set_dt_vx(0xF615);
    assert_eq!(m.delay, 77);
    m.set_sound_vx(0xF618);
    assert_eq!(m.sound, 77);
    m.set_vx_dt(0xF707);
    assert_eq!(m.v[7], 77);
    assert!(m.sound_active());
    m.sound = 0;
    assert!(!m.sound_active());
}

#[test]
fn add_i_and_load_sprite() {
    let mut m = fresh(&[]);
    m.i = 10;
    m.v[0] = 5;
    assert_eq!(m.add_i_vx(0xF01E), Ok(()));
    assert_eq!(m.i, 15);
    m.i = 0xFFFF;
    m.v[0] = 1;
    assert_eq!(m.add_i_vx(0xF01E), Err(Fault::MemoryOutOfRange));
    assert_eq!(m.i, 0xFFFF);
    m.v[3] = 0xA;
    m.load_sprite(0xF329);
    assert_eq!(m.i, 50);
}

#[test]
fn bcd_writes_the_three_digits() {
    let mut m = fresh(&[]);
    m.v[2] = 205;
    m.i = 0x400;
    assert_eq!(m.bcd(0xF233), Ok(()));
    assert_eq!(m.memory[0x400], 2);
    assert_eq!(m.memory[0x401], 0);
    assert_eq!(m.memory[0x402], 5);
    // window leaving memory is fatal
    let mut m = fresh(&[]);
    m.i = 0xFFE;
    assert_eq!(m.bcd(0xF233), Err(Fault::MemoryOutOfRange));
}

#[test]
fn block_store_and_load() {
    let mut m = fresh(&[]);
    m.v[0] = 1;
    m.v[1] = 2;
    m.v[2] = 3;
    m.v[3] = 4;
    m.i = 0x500;
    assert_eq!(m.load_v0_vx_i(0xF355), Ok(()));
    assert_eq!(&m.memory[0x500..0x504], &[1, 2, 3, 4]);
    assert_eq!(m.memory[0x504], 0);
    let mut m2 = fresh(&[]);
    m2.memory[0x500] = 9;
    m2.memory[0x501] = 8;
    m2.i = 0x500;
    m2.v[2] = 0xEE;
    assert_eq!(m2.load_i_v0_vx(0xF165), Ok(()));
    assert_eq!(m2.v[0], 9);
    assert_eq!(m2.v[1], 8);
    // registers past x stay
    assert_eq!(m2.v[2], 0xEE);
    // window leaving memory is fatal
    let mut m3 = fresh(&[]);
    m3.i = 0xFFE;
    assert_eq!(m3.load_v0_vx_i(0xF355), Err(Fault::MemoryOutOfRange));
}

#[test]
fn clear_blanks_any_display() {
    let mut m = fresh(&[]);
    for k in (0..2048).step_by(3) {
        m.display[k] = true;
    }
    m.clear(0x00E0);
    assert!(m.display.iter().all(|p| !p));
    assert_eq!(m.pc, 0x202);
}

#[test]
fn draw_plots_and_reports_collision() {
    let mut m = fresh(&[]);
    m.memory[0x300] = 0xA5; // 1010_0101
    m.i = 0x300;
    m.v[0] = 0;
    m.v[1] = 0;
    assert_eq!(m.draw(0xD011), Ok(()));
    assert_eq!(m.v[15], 0);
    for c in 0..8 {
        let want = [true, false, true, false, false, true, false, true][c];
        assert_eq!(cell(&m, 0, c), want);
    }
    // drawing again: every lit pixel collides and is unset
    assert_eq!(m.draw(0xD011), Ok(()));
    assert_eq!(m.v[15], 1);
    assert!(m.display.iter().all(|p| !p));
}

#[test]
fn draw_wraps_rows_past_the_bottom() {
    let mut m = fresh(&[]);
    for r in 0..4 {
        m.memory[0x300 + r] = 0xFF;
    }
    m.i = 0x300;
    m.v[0] = 0; // column
    m.v[1] = 30; // row
    assert_eq!(m.draw(0xD014), Ok(()));
    for c in 0..8 {
        assert!(cell(&m, 30, c));
        assert!(cell(&m, 31, c));
        assert!(cell(&m, 0, c));
        assert!(cell(&m, 1, c));
    }
    for c in 0..8 {
        assert!(!cell(&m, 2, c));
        assert!(!cell(&m, 29, c));
    }
}

#[test]
fn draw_wraps_columns_past_the_right_edge() {
    let mut m = fresh(&[]);
    m.memory[0x300] = 0xFF;
    m.i = 0x300;
    m.v[0] = 60; // column
    m.v[1] = 5; // row
    assert_eq!(m.draw(0xD011), Ok(()));
    for c in [60, 61, 62, 63, 0, 1, 2, 3] {
        assert!(cell(&m, 5, c));
    }
    for c in 4..60 {
        assert!(!cell(&m, 5, c));
    }
}

#[test]
fn draw_reading_past_memory_is_fatal() {
    let mut m = fresh(&[]);
    m.i = 0xFFE;
    m.v[0] = 0;
    m.v[1] = 0;
    assert_eq!(m.draw(0xD014), Err(Fault::MemoryOutOfRange));
}

#[test]
fn key_skips() {
    let mut m = fresh(&[]);
    m.v[0] = 4;
    m.key_event(4, true, 0);
    assert_eq!(m.skip_key_pressed(0xE09E), Ok(()));
    assert_eq!(m.pc, 0x204);
    assert_eq!(m.skip_key_not_pressed(0xE0A1), Ok(()));
    assert_eq!(m.pc, 0x206);
    m.key_event(4, false, 0);
    assert_eq!(m.skip_key_not_pressed(0xE0A1), Ok(()));
    assert_eq!(m.pc, 0x20A);
    // a register value outside the key matrix is fatal
    m.v[0] = 200;
    assert_eq!(m.skip_key_pressed(0xE09E), Err(Fault::KeyOutOfRange));
}

#[test]
fn wait_key_suspends_until_a_press() {
    // F50A: wait for a key into V5; then 0000 would halt if executed
    let mut m = fresh(&[0xF5, 0x0A, 0x00, 0x00]);
    assert_eq!(m.step_instruction_clock(0), Ok(()));
    assert_eq!(m.pc, 0x202);
    assert!(m.is_waiting);
    assert_eq!(m.waiting_register, 5);
    // however long the clock runs, nothing executes while waiting
    for step in 1..200u64 {
        assert_eq!(m.step_instruction_clock(step * 1_000_000), Ok(()));
        assert_eq!(m.pc, 0x202);
        assert!(!m.halt);
        assert!(m.is_waiting);
    }
    // a release alone does not end the wait
    m.key_event(7, false, 200_000_000);
    assert!(m.is_waiting);
    // the press lands the key code and re-arms the clock at now
    m.key_event(7, true, 200_000_000);
    assert!(!m.is_waiting);
    assert_eq!(m.v[5], 7);
    assert_eq!(m.next_clock, 200_000_000);
    // execution resumes on the next due check: the zero word halts
    assert_eq!(m.step_instruction_clock(200_000_000), Ok(()));
    assert!(m.halt);
}

#[test]
fn pause_freezes_both_clocks() {
    let mut m = fresh(&[0x12, 0x00]); // jump to self
    m.delay = 10;
    m.toggle_pause(0);
    assert!(m.pause);
    for step in 0..100u64 {
        assert_eq!(m.step_instruction_clock(step * 1_000_000), Ok(()));
        m.step_timer_clock(step * 1_000_000);
    }
    assert_eq!(m.pc, 0x200);
    assert_eq!(m.delay, 10);
    // unpausing re-arms both deadlines at now: no backlog fires
    m.toggle_pause(100_000_000);
    assert!(!m.pause);
    assert_eq!(m.next_clock, 100_000_000);
    assert_eq!(m.next_timer, 100_000_000);
    m.step_timer_clock(100_000_000);
    assert_eq!(m.delay, 9);
    m.step_timer_clock(100_000_001);
    assert_eq!(m.delay, 9);
}

#[test]
fn timers_floor_at_zero() {
    let mut m = fresh(&[]);
    m.delay = 2;
    m.sound = 1;
    // each check is due: the deadline advances one period per check
    let far: u64 = 1 << 60;
    for _ in 0..300 {
        m.step_timer_clock(far);
    }
    assert_eq!(m.delay, 0);
    assert_eq!(m.sound, 0);
}

#[test]
fn clock_halts_on_zero_word() {
    let mut m = fresh(&[]);
    assert_eq!(m.clock(), Ok(()));
    assert!(m.halt);
    assert_eq!(m.pc, 0x200);
}

#[test]
fn clock_rejects_unknown_forms() {
    for rom in [[0x5A, 0xB1], [0x8A, 0xB8], [0xE0, 0x00], [0xF0, 0x66]] {
        let mut m = fresh(&rom);
        assert_eq!(m.clock(), Err(Fault::Unsupported));
        assert_eq!(m.pc, 0x200);
        assert!(!m.halt);
    }
}

#[test]
fn clock_rejects_program_counter_out_of_range() {
    let mut m = fresh(&[]);
    m.pc = 4095;
    assert_eq!(m.clock(), Err(Fault::MemoryOutOfRange));
}

#[test]
fn clock_dispatches_and_advances() {
    // 6A42: V10 = 0x42, then 7A01: V10 += 1
    let mut m = fresh(&[0x6A, 0x42, 0x7A, 0x01]);
    assert_eq!(m.clock(), Ok(()));
    assert_eq!(m.v[10], 0x42);
    assert_eq!(m.pc, 0x202);
    assert_eq!(m.clock(), Ok(()));
    assert_eq!(m.v[10], 0x43);
    assert_eq!(m.pc, 0x204);
}

#[test]
fn clear_jump_loop_runs_without_halting() {
    // 00E0 (clear), 1200 (jump back to 0x200)
    let mut m = fresh(&[0x00, 0xE0, 0x12, 0x00]);
    for k in (0..2048).step_by(7) {
        m.display[k] = true;
    }
    m.delay = 120;
    m.sound = 7;
    let mut expect_deadline: u64 = 0;
    let mut expect_delay: u8 = 120;
    let mut expect_sound: u8 = 7;
    for step in 0..=600u64 {
        let now = step * 1_000_000;
        assert_eq!(m.step_instruction_clock(now), Ok(()));
        m.step_timer_clock(now);
        if expect_deadline <= now {
            expect_deadline += 16_666_667;
            if expect_delay > 0 {
                expect_delay -= 1;
            }
            if expect_sound > 0 {
                expect_sound -= 1;
            }
        }
        assert_eq!(m.delay, expect_delay);
        assert_eq!(m.sound, expect_sound);
        assert!(!m.halt);
        assert!(m.pc == 0x200 || m.pc == 0x202);
    }
    // the 60 Hz cadence really elapsed: 600 ms holds 36 due deadlines
    assert_eq!(m.delay, 120 - 36);
    assert_eq!(m.sound, 0);
    assert!(m.display.iter().all(|p| !p));
}

#[test]
fn instruction_clock_paces_execution() {
    // 7001 repeated: V0 += 1 each executed instruction
    let mut m = fresh(&[0x70, 0x01, 0x12, 0x00]);
    // run 10 ms in 1 ms ticks: deadlines at 0, then every ~1.85 ms
    let mut fired: u32 = 0;
    let mut expect_deadline: u64 = 0;
    for step in 0..=10u64 {
        let now = step * 1_000_000;
        assert_eq!(m.step_instruction_clock(now), Ok(()));
        if expect_deadline <= now {
            expect_deadline += 1_851_852;
            fired += 1;
        }
    }
    // at most one instruction per due check
    assert_eq!(m.next_clock, expect_deadline);
    assert!(fired >= 6);
    assert_eq!(m.v[0] as u32, (fired + 1) / 2);
}

#[test]
fn pixel_reads_the_grid() {
    let mut m = fresh(&[]);
    m.display[3 * 64 + 17] = true;
    assert!(m.pixel(3, 17));
    assert!(!m.pixel(3, 18));
}

#[test]
fn single_step_respects_the_key_wait() {
    let mut m = fresh(&[0xF5, 0x0A, 0x6A, 0x42]);
    assert_eq!(m.single_step(), Ok(()));
    assert!(m.is_waiting);
    assert_eq!(m.pc, 0x202);
    // stepping while waiting executes nothing
    assert_eq!(m.single_step(), Ok(()));
    assert_eq!(m.pc, 0x202);
    assert_eq!(m.v[0xA], 0);
    m.key_event(3, true, 0);
    assert_eq!(m.single_step(), Ok(()));
    assert_eq!(m.v[0xA], 0x42);
    assert_eq!(m.pc, 0x204);
}

#[test]
fn largest_program_image_loads() {
    let rom = vec![0x77u8; 4096 - 0x200];
    let m = Chip8::new(&rom);
    assert_eq!(m.memory[0x200], 0x77);
    assert_eq!(m.memory[4095], 0x77);
    assert_eq!(m.memory[0x1FF], 0x00);
}

#[test]
fn draw_of_zero_rows_changes_nothing() {
    let mut m = fresh(&[]);
    m.display[100] = true;
    m.v[15] = 1;
    assert_eq!(m.draw(0xD010), Ok(()));
    // the flags register is still reset at the start of every draw
    assert_eq!(m.v[15], 0);
    assert!(m.display[100]);
    assert_eq!(m.pc, 0x202);
}
