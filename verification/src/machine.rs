//! The machine state: memory, register file, display buffer, input matrix,
//! and the timing state of the cooperative scheduler.

use vstd::prelude::*;

verus! {

/// Number of bytes of addressable memory.
pub const MEM_SIZE: usize = 4096;

/// First address of the loaded program image.
pub const PROG_START: usize = 0x200;

/// Number of display rows.
pub const ROWS: usize = 32;

/// Number of display columns.
pub const COLS: usize = 64;

/// Total number of display cells (row-major).
pub const CELLS: usize = 2048;

/// Nanoseconds between two instruction executions (about 540 per second).
pub const CLOCK_PERIOD: u64 = 1851852;

/// Nanoseconds between two timer decrements (60 per second).
pub const TIMER_PERIOD: u64 = 16666667;

/// Largest clock reading (nanoseconds since start) the scheduler accepts;
/// about 146 years, so deadline arithmetic never overflows a `u64`.
pub const MAX_TIME: u64 = 0x4000_0000_0000_0000;

/// A fatal condition: the interpreter session cannot continue.
#[derive(Clone, Copy, PartialEq, Eq, Structural, Debug)]
pub enum Fault {
    /// The instruction word matches none of the defined forms.
    Unsupported,
    /// A return was executed with an empty call stack.
    StackUnderflow,
    /// A call was executed with a full call stack.
    StackOverflow,
    /// A memory access lies outside the 4096-byte array.
    MemoryOutOfRange,
    /// A key index taken from a register is not in 0..16.
    KeyOutOfRange,
}

/// The whole machine. One value of this type is the single execution session.
pub struct Chip8 {
    /// Flat 4096-byte memory: font table at 0, program image from 0x200 up.
    pub memory: Vec<u8>,
    /// The sixteen general-purpose 8-bit registers; index 15 doubles as flags.
    pub v: Vec<u8>,
    /// The 16-bit address register.
    pub i: u16,
    /// The delay timer.
    pub delay: u8,
    /// The sound timer; nonzero means a tone should be audible.
    pub sound: u8,
    /// The program counter.
    pub pc: u16,
    /// The call-stack depth, in 0..=16.
    pub sp: u16,
    /// The 16-entry call stack of return addresses.
    pub stack: Vec<u16>,
    /// Set when the run loop must terminate.
    pub halt: bool,
    /// The 32x64 bit grid, row-major: cell (r, c) at index r * 64 + c.
    pub display: Vec<bool>,
    /// Next instruction-clock deadline, nanoseconds since start.
    pub next_clock: u64,
    /// Next timer-decay deadline, nanoseconds since start.
    pub next_timer: u64,
    /// While set, neither deadline fires.
    pub pause: bool,
    /// Key-down state for the sixteen logical keys.
    pub keys: Vec<bool>,
    /// Set while instruction execution is suspended waiting for a key press.
    pub is_waiting: bool,
    /// The register that receives the next pressed key while waiting.
    pub waiting_register: usize,
}

/// Index of display cell (r, c) in the flat row-major grid.
pub open spec fn didx(r: int, c: int) -> int {
    r * 64 + c
}

/// The built-in glyph table: 16 glyphs of 5 bytes each, digits 0 to 9 then A to F.
pub open spec fn font_seq() -> Seq<u8> {
    seq![
        0xf0u8, 0x90, 0x90, 0x90, 0xf0, // 0
        0x20, 0x60, 0x20, 0x20, 0x70, // 1
        0xf0, 0x10, 0xf0, 0x80, 0xf0, // 2
        0xf0, 0x10, 0xf0, 0x10, 0xf0, // 3
        0x90, 0x90, 0xf0, 0x10, 0x10, // 4
        0xf0, 0x80, 0xf0, 0x10, 0xf0, // 5
        0xf0, 0x80, 0xf0, 0x90, 0xf0, // 6
        0xf0, 0x10, 0x20, 0x40, 0x40, // 7
        0xf0, 0x90, 0xf0, 0x90, 0xf0, // 8
        0xf0, 0x90, 0xf0, 0x10, 0xf0, // 9
        0xf0, 0x90, 0xf0, 0x90, 0x90, // A
        0xe0, 0x90, 0xe0, 0x90, 0xe0, // B
        0xf0, 0x80, 0x80, 0x80, 0xf0, // C
        0xe0, 0x90, 0x90, 0x90, 0xe0, // D
        0xf0, 0x80, 0xf0, 0x80, 0xf0, // E
        0xf0, 0x80, 0xf0, 0x80, 0x80, // F
    ]
}

/// The glyph table as a vector, for writing it into memory.
fn font_vec() -> (r: Vec<u8>)
    ensures
        r@ == font_seq(),
{
    let mut f: Vec<u8> = Vec::new();
    f.push(0xf0); f.push(0x90); f.push(0x90); f.push(0x90); f.push(0xf0);
    f.push(0x20); f.push(0x60); f.push(0x20); f.push(0x20); f.push(0x70);
    f.push(0xf0); f.push(0x10); f.push(0xf0); f.push(0x80); f.push(0xf0);
    f.push(0xf0); f.push(0x10); f.push(0xf0); f.push(0x10); f.push(0xf0);
    f.push(0x90); f.push(0x90); f.push(0xf0); f.push(0x10); f.push(0x10);
    f.push(0xf0); f.push(0x80); f.push(0xf0); f.push(0x10); f.push(0xf0);
    f.push(0xf0); f.push(0x80); f.push(0xf0); f.push(0x90); f.push(0xf0);
    f.push(0xf0); f.push(0x10); f.push(0x20); f.push(0x40); f.push(0x40);
    f.push(0xf0); f.push(0x90); f.push(0xf0); f.push(0x90); f.push(0xf0);
    f.push(0xf0); f.push(0x90); f.push(0xf0); f.push(0x10); f.push(0xf0);
    f.push(0xf0); f.push(0x90); f.push(0xf0); f.push(0x90); f.push(0x90);
    f.push(0xe0); f.push(0x90); f.push(0xe0); f.push(0x90); f.push(0xe0);
    f.push(0xf0); f.push(0x80); f.push(0x80); f.push(0x80); f.push(0xf0);
    f.push(0xe0); f.push(0x90); f.push(0x90); f.push(0x90); f.push(0xe0);
    f.push(0xf0); f.push(0x80); f.push(0xf0); f.push(0x80); f.push(0xf0);
    f.push(0xf0); f.push(0x80); f.push(0xf0); f.push(0x80); f.push(0x80);
    proof {
        assert(f@ =~= font_seq());
    }
    f
}

impl Chip8 {
    /// Well-formedness: the fixed array sizes, the stack-depth bound, the
    /// bound on stored return addresses that keeps the return's program
    /// counter arithmetic in 16 bits, and the deadline bounds that keep
    /// scheduler arithmetic free of overflow.
    pub open spec fn wf(self) -> bool {
        &&& self.memory@.len() == MEM_SIZE
        &&& self.v@.len() == 16
        &&& self.stack@.len() == 16
        &&& self.display@.len() == CELLS
        &&& self.keys@.len() == 16
        &&& self.sp <= 16
        &&& forall|k: int| 0 <= k < 16 ==> self.stack@[k] <= 0xfffd
        &&& self.waiting_register < 16
        &&& self.next_clock <= MAX_TIME + CLOCK_PERIOD
        &&& self.next_timer <= MAX_TIME + TIMER_PERIOD
    }

    /// Build a fresh machine: zeroed state, the glyph table at address 0, the
    /// program image copied verbatim from `buffer` starting at 0x200, and the
    /// program counter at 0x200. Oversize images are the loader's error and
    /// are excluded here.
    pub fn new(buffer: &Vec<u8>) -> (r: Chip8)
        requires
            buffer@.len() <= MEM_SIZE - PROG_START,
        ensures
            r.wf(),
            forall|a: int| 0 <= a < 80 ==> r.memory@[a] == font_seq()[a],
            forall|a: int| 80 <= a < PROG_START ==> r.memory@[a] == 0u8,
            forall|a: int|
                0 <= a < buffer@.len() ==> r.memory@[PROG_START + a] == buffer@[a],
            forall|a: int|
                PROG_START + buffer@.len() <= a < MEM_SIZE ==> r.memory@[a] == 0u8,
            forall|k: int| 0 <= k < 16 ==> r.v@[k] == 0u8,
            forall|k: int| 0 <= k < 16 ==> r.stack@[k] == 0u16,
            forall|k: int| 0 <= k < 16 ==> r.keys@[k] == false,
            forall|k: int| 0 <= k < CELLS ==> r.display@[k] == false,
            r.i == 0 && r.delay == 0 && r.sound == 0,
            r.pc == PROG_START && r.sp == 0,
            !r.halt && !r.pause && !r.is_waiting,
            r.waiting_register == 0,
            r.next_clock == 0 && r.next_timer == 0,
    {
        let mut memory: Vec<u8> = Vec::new();
        while memory.len() < MEM_SIZE
            invariant
                memory@.len() <= MEM_SIZE,
                forall|a: int| 0 <= a < memory@.len() ==> memory@[a] == 0u8,
            decreases MEM_SIZE - memory@.len(),
        {
            memory.push(0u8);
        }
        let font = font_vec();
        let mut fi: usize = 0;
        while fi < 80
            invariant
                fi <= 80,
                memory@.len() == MEM_SIZE,
                font@ == font_seq(),
                forall|a: int| 0 <= a < fi ==> memory@[a] == font_seq()[a],
                forall|a: int| fi <= a < MEM_SIZE ==> memory@[a] == 0u8,
            decreases 80 - fi,
        {
            memory.set(fi, font[fi]);
            fi = fi + 1;
        }
        let mut pi: usize = 0;
        while pi < buffer.len()
            invariant
                pi <= buffer@.len(),
                buffer@.len() <= MEM_SIZE - PROG_START,
                memory@.len() == MEM_SIZE,
                forall|a: int| 0 <= a < 80 ==> memory@[a] == font_seq()[a],
                forall|a: int| 80 <= a < PROG_START ==> memory@[a] == 0u8,
                forall|a: int| 0 <= a < pi ==> memory@[PROG_START + a] == buffer@[a],
                forall|a: int| PROG_START + pi <= a < MEM_SIZE ==> memory@[a] == 0u8,
            decreases buffer@.len() - pi,
        {
            memory.set(PROG_START + pi, buffer[pi]);
            pi = pi + 1;
        }
        let mut v: Vec<u8> = Vec::new();
        while v.len() < 16
            invariant
                v@.len() <= 16,
                forall|k: int| 0 <= k < v@.len() ==> v@[k] == 0u8,
            decreases 16 - v@.len(),
        {
            v.push(0u8);
        }
        let mut stack: Vec<u16> = Vec::new();
        while stack.len() < 16
            invariant
                stack@.len() <= 16,
                forall|k: int| 0 <= k < stack@.len() ==> stack@[k] == 0u16,
            decreases 16 - stack@.len(),
        {
            stack.push(0u16);
        }
        let mut keys: Vec<bool> = Vec::new();
        while keys.len() < 16
            invariant
                keys@.len() <= 16,
                forall|k: int| 0 <= k < keys@.len() ==> keys@[k] == false,
            decreases 16 - keys@.len(),
        {
            keys.push(false);
        }
        let mut display: Vec<bool> = Vec::new();
        while display.len() < CELLS
            invariant
                display@.len() <= CELLS,
                forall|k: int| 0 <= k < display@.len() ==> display@[k] == false,
            decreases CELLS - display@.len(),
        {
            display.push(false);
        }
        Chip8 {
            memory,
            v,
            i: 0,
            delay: 0,
            sound: 0,
            pc: PROG_START as u16,
            sp: 0,
            stack,
            halt: false,
            display,
            next_clock: 0,
            next_timer: 0,
            pause: false,
            keys,
            is_waiting: false,
            waiting_register: 0,
        }
    }

    /// One display cell, for the render collaborator.
    pub fn pixel(&self, row: usize, col: usize) -> (r: bool)
        requires
            self.wf(),
            row < ROWS,
            col < COLS,
        ensures
            r == self.display@[didx(row as int, col as int)],
    {
        self.display[row * 64 + col]
    }

    /// Whether a tone should be audible, for the audio collaborator.
    pub fn sound_active(&self) -> (r: bool)
        ensures
            r == (self.sound > 0),
    {
        self.sound > 0
    }
}

} // verus!
