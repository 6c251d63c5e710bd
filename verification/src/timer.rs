//! Hardware timer: DIV advances every 256 machine cycles unconditionally;
//! TIMA advances at the TAC-selected rate while TAC's enable bit is set and
//! reloads from TMA on overflow, requesting a Timer interrupt.

use vstd::prelude::*;

use crate::interrupt::InterruptController;
use crate::interrupt::INTERRUPT_TIMER;
use crate::interrupt::bit_set;
use crate::interrupt::with_bit;

verus! {

pub struct Timer {
    /// Divider register, always counting.
    pub div: u8,
    /// Timer counter, counting while enabled.
    pub tima: u8,
    /// Timer modulo, reloaded into TIMA on overflow.
    pub tma: u8,
    /// Timer control: bit 2 enables TIMA, bits 0..2 select its rate.
    pub tac: u8,
    /// Cycles accumulated toward the next TIMA tick.
    pub last_tick: u64,
    /// Cycles accumulated toward the next DIV tick.
    pub last_div_tick: u64,
}

/// Machine cycles per TIMA tick for each TAC clock-select value.
pub open spec fn cycles_per_tick(tac: u8) -> u64 {
    if tac % 4 == 0 {
        1024
    } else if tac % 4 == 1 {
        16
    } else if tac % 4 == 2 {
        64
    } else {
        256
    }
}

/// One advance of the timer by `cycles` machine cycles: at most one TIMA
/// tick and one DIV tick, with the Timer interrupt raised (IME permitting)
/// when TIMA overflows and reloads from TMA.
pub open spec fn spec_run(t: Timer, i: InterruptController, cycles: u64) -> (Timer,
    InterruptController) {
    let (t1, i1) = if bit_set(t.tac, 4) {
        let cpt = cycles_per_tick(t.tac);
        let acc = t.last_tick + cycles;
        if acc >= cpt {
            let tima2 = (t.tima + 1) % 256;
            if tima2 == 0 {
                (
                    Timer { last_tick: (acc - cpt) as u64, tima: t.tma, ..t },
                    if i.master_enable {
                        InterruptController { flag: with_bit(i.flag, INTERRUPT_TIMER), ..i }
                    } else {
                        i
                    },
                )
            } else {
                (Timer { last_tick: (acc - cpt) as u64, tima: tima2 as u8, ..t }, i)
            }
        } else {
            (Timer { last_tick: acc as u64, ..t }, i)
        }
    } else {
        (t, i)
    };
    let dacc = t1.last_div_tick + cycles;
    let t2 = if dacc >= 256 {
        Timer { last_div_tick: (dacc - 256) as u64, div: ((t1.div + 1) % 256) as u8, ..t1 }
    } else {
        Timer { last_div_tick: dacc as u64, ..t1 }
    };
    (t2, i1)
}

impl Timer {
    pub fn new() -> (r: Timer)
        ensures
            r.div == 0,
            r.tima == 0,
            r.tma == 0,
            r.tac == 0,
            r.last_tick == 0,
            r.last_div_tick == 0,
    {
        Timer { div: 0, tima: 0, tma: 0, tac: 0, last_tick: 0, last_div_tick: 0 }
    }

    /// Advances the timer by the machine cycles the CPU just reported.
    pub fn run(&mut self, ints: &mut InterruptController, cycles: u64)
        requires
            old(self).last_tick + cycles <= u64::MAX,
            old(self).last_div_tick + cycles <= u64::MAX,
        ensures
            (*final(self), *final(ints)) == spec_run(*old(self), *old(ints), cycles),
    {
        if (self.tac / 4) % 2 == 1 {
            let cycles_per_tick: u64 = match self.tac % 4 {
                0 => 1024,
                1 => 16,
                2 => 64,
                _ => 256,
            };

            // Advance TIMA on the selected clock.
            self.last_tick = self.last_tick + cycles;
            if self.last_tick >= cycles_per_tick {
                self.last_tick = self.last_tick - cycles_per_tick;
                self.tima = if self.tima == 255 {
                    0
                } else {
                    self.tima + 1
                };

                // Overflow: reload from TMA and request a Timer interrupt.
                if self.tima == 0 {
                    self.tima = self.tma;
                    if ints.master_enable {
                        ints.raise(INTERRUPT_TIMER);
                    }
                }
            }
        }

        // Advance DIV, which always runs at one tick per 256 cycles.
        self.last_div_tick = self.last_div_tick + cycles;
        if self.last_div_tick >= 256 {
            self.last_div_tick = self.last_div_tick - 256;
            self.div = if self.div == 255 {
                0
            } else {
                self.div + 1
            };
        }
    }
}

} // verus!
