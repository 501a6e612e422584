//! The scheduling policy: a pure function of the injected clock reading and
//! the machine flags. The platform event pump hands in the current time in
//! nanoseconds since start, key events, and pause toggles; the policy decides
//! what fires.

use vstd::prelude::*;
use crate::machine::{Chip8, Fault, CLOCK_PERIOD, TIMER_PERIOD, MAX_TIME};
use crate::cpu::clock_post;

verus! {

/// One timer decrement: down by one, floored at zero.
pub open spec fn dec_timer(t: u8) -> u8 {
    if t > 0 {
        (t - 1) as u8
    } else {
        0u8
    }
}

/// One instruction-clock check: when not paused, not waiting for a key, and
/// the deadline has passed, the deadline advances by exactly one period and
/// exactly one instruction executes; otherwise nothing happens at all.
pub open spec fn instr_clock_post(pre: Chip8, post: Chip8, now: u64, r: Result<
    (),
    Fault,
>) -> bool {
    if !pre.pause && !pre.is_waiting && pre.next_clock <= now {
        clock_post(
            Chip8 { next_clock: (pre.next_clock + CLOCK_PERIOD) as u64, ..pre },
            post,
            r,
        )
    } else {
        &&& r == Ok::<(), Fault>(())
        &&& post == pre
    }
}

/// One timer-clock check: when not paused and the deadline has passed, the
/// deadline advances by exactly one period and each timer decrements once,
/// floored at zero; otherwise nothing happens.
pub open spec fn timer_post(pre: Chip8, post: Chip8, now: u64) -> bool {
    if !pre.pause && pre.next_timer <= now {
        post == (Chip8 {
            next_timer: (pre.next_timer + TIMER_PERIOD) as u64,
            delay: dec_timer(pre.delay),
            sound: dec_timer(pre.sound),
            ..pre
        })
    } else {
        post == pre
    }
}

/// A key press or release: the key state is recorded; a press while waiting
/// for a key also lands the key code in the waiting register, ends the wait,
/// and re-arms the instruction clock at the present moment.
pub open spec fn key_event_post(pre: Chip8, post: Chip8, key: u8, pressed: bool, now: u64) -> bool {
    if pressed && pre.is_waiting {
        &&& post == (Chip8 {
            keys: post.keys,
            v: post.v,
            is_waiting: false,
            next_clock: now,
            ..pre
        })
        &&& post.keys@ == pre.keys@.update(key as int, pressed)
        &&& post.v@ == pre.v@.update(pre.waiting_register as int, key)
    } else {
        &&& post == (Chip8 { keys: post.keys, ..pre })
        &&& post.keys@ == pre.keys@.update(key as int, pressed)
    }
}

impl Chip8 {
    /// The instruction-clock side of one loop iteration.
    pub fn step_instruction_clock(&mut self, now: u64) -> (r: Result<(), Fault>)
        requires
            old(self).wf(),
            now <= MAX_TIME,
        ensures
            final(self).wf(),
            instr_clock_post(*old(self), *final(self), now, r),
    {
        if !self.pause && !self.is_waiting && self.next_clock <= now {
            self.next_clock = self.next_clock + CLOCK_PERIOD;
            self.clock()
        } else {
            Ok(())
        }
    }

    /// The timer-clock side of one loop iteration.
    pub fn step_timer_clock(&mut self, now: u64)
        requires
            old(self).wf(),
            now <= MAX_TIME,
        ensures
            final(self).wf(),
            timer_post(*old(self), *final(self), now),
    {
        if !self.pause && self.next_timer <= now {
            self.next_timer = self.next_timer + TIMER_PERIOD;
            if self.delay > 0 {
                self.delay = self.delay - 1;
            }
            if self.sound > 0 {
                self.sound = self.sound - 1;
            }
        }
    }

    /// Record a key press or release from the input collaborator.
    pub fn key_event(&mut self, key: u8, pressed: bool, now: u64)
        requires
            old(self).wf(),
            key < 16,
            now <= MAX_TIME,
        ensures
            final(self).wf(),
            key_event_post(*old(self), *final(self), key, pressed, now),
    {
        self.keys.set(key as usize, pressed);
        if pressed && self.is_waiting {
            let wr = self.waiting_register;
            self.v.set(wr, key);
            self.is_waiting = false;
            self.next_clock = now;
        }
    }

    /// A single-step request from the input collaborator: execute one
    /// instruction immediately, unless the machine is waiting for a key.
    pub fn single_step(&mut self) -> (r: Result<(), Fault>)
        requires
            old(self).wf(),
        ensures
            final(self).wf(),
            old(self).is_waiting ==> *final(self) == *old(self) && r == Ok::<(), Fault>(()),
            !old(self).is_waiting ==> clock_post(*old(self), *final(self), r),
    {
        if self.is_waiting {
            Ok(())
        } else {
            self.clock()
        }
    }

    /// Toggle the pause flag. Unpausing re-arms both deadlines at the present
    /// moment, so no backlog of elapsed periods fires at once.
    pub fn toggle_pause(&mut self, now: u64)
        requires
            old(self).wf(),
            now <= MAX_TIME,
        ensures
            final(self).wf(),
            old(self).pause ==> *final(self) == (Chip8 {
                pause: false,
                next_clock: now,
                next_timer: now,
                ..*old(self)
            }),
            !old(self).pause ==> *final(self) == (Chip8 { pause: true, ..*old(self) }),
    {
        if self.pause {
            self.pause = false;
            self.next_clock = now;
            self.next_timer = now;
        } else {
            self.pause = true;
        }
    }
}

} // verus!
