//! Sound peripheral registers: the four channels' control bytes, wave RAM,
//! and the length/envelope counters that the shared cycle count advances.
//! Waveform synthesis itself belongs to the host's audio sink.

use vstd::prelude::*;

use crate::interrupt::bit_set;

verus! {

pub struct Sound {
    // Channel 1: tone and sweep.
    pub nr10: u8,
    pub nr11: u8,
    pub nr12: u8,
    pub nr13: u8,
    pub nr14: u8,
    pub ch1_length_cycles: u64,
    pub ch1_volume: u8,
    pub ch1_envelope_cycles: u64,
    // Channel 2: tone.
    pub nr21: u8,
    pub nr22: u8,
    pub nr23: u8,
    pub nr24: u8,
    pub ch2_length_cycles: u64,
    pub ch2_volume: u8,
    pub ch2_envelope_cycles: u64,
    // Channel 3: wave output.
    pub nr30: u8,
    pub nr31: u8,
    pub nr32: u8,
    pub nr33: u8,
    pub nr34: u8,
    pub wave_ram: Vec<u8>,
    // Channel 4: noise.
    pub nr41: u8,
    pub nr42: u8,
    pub nr43: u8,
    pub nr44: u8,
    pub ch4_length_cycles: u64,
    pub ch4_volume: u8,
    pub ch4_envelope_cycles: u64,
    // Control.
    pub nr50: u8,
    pub nr51: u8,
    pub nr52: u8,
}

/// The sound state with wave RAM as a sequence; the shape contracts use.
pub struct SoundModel {
    pub nr10: u8,
    pub nr11: u8,
    pub nr12: u8,
    pub nr13: u8,
    pub nr14: u8,
    pub ch1_length_cycles: u64,
    pub ch1_volume: u8,
    pub ch1_envelope_cycles: u64,
    pub nr21: u8,
    pub nr22: u8,
    pub nr23: u8,
    pub nr24: u8,
    pub ch2_length_cycles: u64,
    pub ch2_volume: u8,
    pub ch2_envelope_cycles: u64,
    pub nr30: u8,
    pub nr31: u8,
    pub nr32: u8,
    pub nr33: u8,
    pub nr34: u8,
    pub wave_ram: Seq<u8>,
    pub nr41: u8,
    pub nr42: u8,
    pub nr43: u8,
    pub nr44: u8,
    pub ch4_length_cycles: u64,
    pub ch4_volume: u8,
    pub ch4_envelope_cycles: u64,
    pub nr50: u8,
    pub nr51: u8,
    pub nr52: u8,
}

impl View for Sound {
    type V = SoundModel;

    open spec fn view(&self) -> SoundModel {
        SoundModel {
            nr10: self.nr10,
            nr11: self.nr11,
            nr12: self.nr12,
            nr13: self.nr13,
            nr14: self.nr14,
            ch1_length_cycles: self.ch1_length_cycles,
            ch1_volume: self.ch1_volume,
            ch1_envelope_cycles: self.ch1_envelope_cycles,
            nr21: self.nr21,
            nr22: self.nr22,
            nr23: self.nr23,
            nr24: self.nr24,
            ch2_length_cycles: self.ch2_length_cycles,
            ch2_volume: self.ch2_volume,
            ch2_envelope_cycles: self.ch2_envelope_cycles,
            nr30: self.nr30,
            nr31: self.nr31,
            nr32: self.nr32,
            nr33: self.nr33,
            nr34: self.nr34,
            wave_ram: self.wave_ram@,
            nr41: self.nr41,
            nr42: self.nr42,
            nr43: self.nr43,
            nr44: self.nr44,
            ch4_length_cycles: self.ch4_length_cycles,
            ch4_volume: self.ch4_volume,
            ch4_envelope_cycles: self.ch4_envelope_cycles,
            nr50: self.nr50,
            nr51: self.nr51,
            nr52: self.nr52,
        }
    }
}

impl Sound {
    pub open spec fn wf(&self) -> bool {
        self.wave_ram.len() == 16
    }
}

/// The register byte a read of `addr` returns; unmapped addresses read 0.
pub open spec fn reg_read(s: SoundModel, addr: u16) -> u8 {
    if addr == 0xff10 {
        s.nr10
    } else if addr == 0xff11 {
        s.nr11
    } else if addr == 0xff12 {
        s.nr12
    } else if addr == 0xff13 {
        s.nr13
    } else if addr == 0xff14 {
        s.nr14
    } else if addr == 0xff16 {
        s.nr21
    } else if addr == 0xff17 {
        s.nr22
    } else if addr == 0xff18 {
        s.nr23
    } else if addr == 0xff19 {
        s.nr24
    } else if addr == 0xff1a {
        s.nr30
    } else if addr == 0xff1b {
        s.nr31
    } else if addr == 0xff1c {
        s.nr32
    } else if addr == 0xff1d {
        s.nr33
    } else if addr == 0xff1e {
        s.nr34
    } else if addr == 0xff20 {
        s.nr41
    } else if addr == 0xff21 {
        s.nr42
    } else if addr == 0xff22 {
        s.nr43
    } else if addr == 0xff23 {
        s.nr44
    } else if addr == 0xff24 {
        s.nr50
    } else if addr == 0xff25 {
        s.nr51
    } else if addr == 0xff26 {
        s.nr52
    } else if 0xff30 <= addr && addr <= 0xff3f {
        s.wave_ram[addr - 0xff30]
    } else {
        0
    }
}

/// The state after writing `val` to `addr`: stores the register, and for
/// the length/envelope registers also reloads the channel's volume and
/// resets its counters; unmapped addresses are ignored.
pub open spec fn reg_write(s: SoundModel, addr: u16, val: u8) -> SoundModel {
    if addr == 0xff10 {
        SoundModel { nr10: val, ..s }
    } else if addr == 0xff11 {
        SoundModel { nr11: val, ch1_length_cycles: 0, ..s }
    } else if addr == 0xff12 {
        SoundModel { nr12: val, ch1_volume: (val as int / 16) as u8, ch1_envelope_cycles: 0, ..s }
    } else if addr == 0xff13 {
        SoundModel { nr13: val, ..s }
    } else if addr == 0xff14 {
        SoundModel { nr14: val, ..s }
    } else if addr == 0xff16 {
        SoundModel { nr21: val, ch2_length_cycles: 0, ..s }
    } else if addr == 0xff17 {
        SoundModel { nr22: val, ch2_volume: (val as int / 16) as u8, ch2_envelope_cycles: 0, ..s }
    } else if addr == 0xff18 {
        SoundModel { nr23: val, ..s }
    } else if addr == 0xff19 {
        SoundModel { nr24: val, ..s }
    } else if addr == 0xff1a {
        SoundModel { nr30: val, ..s }
    } else if addr == 0xff1b {
        SoundModel { nr31: val, ..s }
    } else if addr == 0xff1c {
        SoundModel { nr32: val, ..s }
    } else if addr == 0xff1d {
        SoundModel { nr33: val, ..s }
    } else if addr == 0xff1e {
        SoundModel { nr34: val, ..s }
    } else if addr == 0xff20 {
        SoundModel { nr41: val, ..s }
    } else if addr == 0xff21 {
        SoundModel { nr42: val, ch4_volume: (val as int / 16) as u8, ch4_length_cycles: 0, ..s }
    } else if addr == 0xff22 {
        SoundModel { nr43: val, ..s }
    } else if addr == 0xff23 {
        SoundModel { nr44: val, ..s }
    } else if addr == 0xff24 {
        SoundModel { nr50: val, ..s }
    } else if addr == 0xff25 {
        SoundModel { nr51: val, ..s }
    } else if addr == 0xff26 {
        SoundModel { nr52: val, ..s }
    } else if 0xff30 <= addr && addr <= 0xff3f {
        SoundModel { wave_ram: s.wave_ram.update(addr - 0xff30, val), ..s }
    } else {
        s
    }
}

/// One channel's length countdown: once the configured play time has
/// elapsed, and the length-enable bit is set, the volume drops to zero.
pub open spec fn length_step(length_reg: u8, enable_reg: u8, acc: u64, vol: u8, cycles: u64) -> (
    u64, u8) {
    let n = (64 - length_reg % 64) * 16384;
    if bit_set(enable_reg, 64) {
        let acc2 = acc + cycles;
        if acc2 > n {
            (acc2 as u64, 0u8)
        } else {
            (acc2 as u64, vol)
        }
    } else {
        (acc, vol)
    }
}

/// One channel's envelope: every configured period the volume steps up or
/// down one notch, saturating at 0 and 15.
pub open spec fn envelope_step(env_reg: u8, acc: u64, vol: u8, cycles: u64) -> (u64, u8) {
    let n = (env_reg % 8) * 65536;
    if n > 0 {
        let acc2 = acc + cycles;
        if acc2 > n {
            let vol2: u8 = if bit_set(env_reg, 8) {
                if vol < 15 {
                    (vol + 1) as u8
                } else {
                    vol
                }
            } else {
                if vol > 0 {
                    (vol - 1) as u8
                } else {
                    vol
                }
            };
            ((acc2 - n) as u64, vol2)
        } else {
            (acc2 as u64, vol)
        }
    } else {
        (acc, vol)
    }
}

/// One advance of the length and envelope counters of channels 1, 2 and 4
/// by `cycles` machine cycles.
pub open spec fn spec_run(s: SoundModel, cycles: u64) -> SoundModel {
    let (l1, v1) = length_step(s.nr11, s.nr14, s.ch1_length_cycles, s.ch1_volume, cycles);
    let (l2, v2) = length_step(s.nr21, s.nr24, s.ch2_length_cycles, s.ch2_volume, cycles);
    let (l4, v4) = length_step(s.nr41, s.nr44, s.ch4_length_cycles, s.ch4_volume, cycles);
    let (e1, w1) = envelope_step(s.nr12, s.ch1_envelope_cycles, v1, cycles);
    let (e2, w2) = envelope_step(s.nr22, s.ch2_envelope_cycles, v2, cycles);
    let (e4, w4) = envelope_step(s.nr42, s.ch4_envelope_cycles, v4, cycles);
    SoundModel {
        ch1_length_cycles: l1,
        ch1_volume: w1,
        ch1_envelope_cycles: e1,
        ch2_length_cycles: l2,
        ch2_volume: w2,
        ch2_envelope_cycles: e2,
        ch4_length_cycles: l4,
        ch4_volume: w4,
        ch4_envelope_cycles: e4,
        ..s
    }
}

impl Sound {
    pub fn new() -> (r: Sound)
        ensures
            r.wf(),
            r@ == spec_new(),
    {
        let mut wave: Vec<u8> = Vec::new();
        let mut i: usize = 0;
        while i < 16
            invariant
                wave@.len() == i,
                i <= 16,
                forall|k: int| 0 <= k < i ==> wave@[k] == 0u8,
            decreases 16 - i,
        {
            wave.push(0u8);
            i = i + 1;
        }
        proof {
            assert(wave@ =~= Seq::new(16, |k: int| 0u8));
        }
        Sound {
            nr10: 0,
            nr11: 0,
            nr12: 0,
            nr13: 0,
            nr14: 0,
            ch1_length_cycles: 0,
            ch1_volume: 0,
            ch1_envelope_cycles: 0,
            nr21: 0,
            nr22: 0,
            nr23: 0,
            nr24: 0,
            ch2_length_cycles: 0,
            ch2_volume: 0,
            ch2_envelope_cycles: 0,
            nr30: 0,
            nr31: 0,
            nr32: 0,
            nr33: 0,
            nr34: 0,
            wave_ram: wave,
            nr41: 0,
            nr42: 0,
            nr43: 0,
            nr44: 0,
            ch4_length_cycles: 0,
            ch4_volume: 0,
            ch4_envelope_cycles: 0,
            nr50: 0,
            nr51: 0,
            nr52: 0,
        }
    }

    /// Advances the length and envelope counters by the machine cycles the
    /// CPU reported.
    #[verifier::rlimit(80)]
    pub fn run(&mut self, cycles: u64)
        requires
            old(self).wf(),
            old(self).ch1_length_cycles + cycles <= u64::MAX,
            old(self).ch2_length_cycles + cycles <= u64::MAX,
            old(self).ch4_length_cycles + cycles <= u64::MAX,
            old(self).ch1_envelope_cycles + cycles <= u64::MAX,
            old(self).ch2_envelope_cycles + cycles <= u64::MAX,
            old(self).ch4_envelope_cycles + cycles <= u64::MAX,
        ensures
            final(self).wf(),
            final(self)@ == spec_run(old(self)@, cycles),
    {
        // Channel 1 length.
        if (self.nr14 / 64) % 2 == 1 {
            self.ch1_length_cycles = self.ch1_length_cycles + cycles;
            let n: u64 = (64 - (self.nr11 % 64) as u64) * 16384;
            if self.ch1_length_cycles > n {
                self.ch1_volume = 0;
            }
        }
        // Channel 2 length.
        if (self.nr24 / 64) % 2 == 1 {
            self.ch2_length_cycles = self.ch2_length_cycles + cycles;
            let n: u64 = (64 - (self.nr21 % 64) as u64) * 16384;
            if self.ch2_length_cycles > n {
                self.ch2_volume = 0;
            }
        }
        // Channel 4 length.
        if (self.nr44 / 64) % 2 == 1 {
            self.ch4_length_cycles = self.ch4_length_cycles + cycles;
            let n: u64 = (64 - (self.nr41 % 64) as u64) * 16384;
            if self.ch4_length_cycles > n {
                self.ch4_volume = 0;
            }
        }
        // Channel 1 envelope.
        {
            let n: u64 = (self.nr12 % 8) as u64 * 65536;
            if n > 0 {
                self.ch1_envelope_cycles = self.ch1_envelope_cycles + cycles;
                if self.ch1_envelope_cycles > n {
                    self.ch1_envelope_cycles = self.ch1_envelope_cycles - n;
                    if (self.nr12 / 8) % 2 == 1 {
                        if self.ch1_volume < 15 {
                            self.ch1_volume = self.ch1_volume + 1;
                        }
                    } else {
                        if self.ch1_volume > 0 {
                            self.ch1_volume = self.ch1_volume - 1;
                        }
                    }
                }
            }
        }
        // Channel 2 envelope.
        {
            let n: u64 = (self.nr22 % 8) as u64 * 65536;
            if n > 0 {
                self.ch2_envelope_cycles = self.ch2_envelope_cycles + cycles;
                if self.ch2_envelope_cycles > n {
                    self.ch2_envelope_cycles = self.ch2_envelope_cycles - n;
                    if (self.nr22 / 8) % 2 == 1 {
                        if self.ch2_volume < 15 {
                            self.ch2_volume = self.ch2_volume + 1;
                        }
                    } else {
                        if self.ch2_volume > 0 {
                            self.ch2_volume = self.ch2_volume - 1;
                        }
                    }
                }
            }
        }
        // Channel 4 envelope.
        {
            let n: u64 = (self.nr42 % 8) as u64 * 65536;
            if n > 0 {
                self.ch4_envelope_cycles = self.ch4_envelope_cycles + cycles;
                if self.ch4_envelope_cycles > n {
                    self.ch4_envelope_cycles = self.ch4_envelope_cycles - n;
                    if (self.nr42 / 8) % 2 == 1 {
                        if self.ch4_volume < 15 {
                            self.ch4_volume = self.ch4_volume + 1;
                        }
                    } else {
                        if self.ch4_volume > 0 {
                            self.ch4_volume = self.ch4_volume - 1;
                        }
                    }
                }
            }
        }
    }

    /// Reads or writes one sound register; returns the register's value
    /// after the access, as the memory map's port decode expects.
    pub fn handle_addr(&mut self, addr: u16, write: bool, val: u8) -> (r: u8)
        requires
            old(self).wf(),
        ensures
            final(self).wf(),
            final(self)@ == (if write {
                reg_write(old(self)@, addr, val)
            } else {
                old(self)@
            }),
            r == reg_read(final(self)@, addr),
    {
        if write {
            if addr == 0xff10 {
                self.nr10 = val;
            } else if addr == 0xff11 {
                self.nr11 = val;
                self.ch1_length_cycles = 0;
            } else if addr == 0xff12 {
                self.nr12 = val;
                self.ch1_volume = val / 16;
                self.ch1_envelope_cycles = 0;
            } else if addr == 0xff13 {
                self.nr13 = val;
            } else if addr == 0xff14 {
                self.nr14 = val;
            } else if addr == 0xff16 {
                self.nr21 = val;
                self.ch2_length_cycles = 0;
            } else if addr == 0xff17 {
                self.nr22 = val;
                self.ch2_volume = val / 16;
                self.ch2_envelope_cycles = 0;
            } else if addr == 0xff18 {
                self.nr23 = val;
            } else if addr == 0xff19 {
                self.nr24 = val;
            } else if addr == 0xff1a {
                self.nr30 = val;
            } else if addr == 0xff1b {
                self.nr31 = val;
            } else if addr == 0xff1c {
                self.nr32 = val;
            } else if addr == 0xff1d {
                self.nr33 = val;
            } else if addr == 0xff1e {
                self.nr34 = val;
            } else if addr == 0xff20 {
                self.nr41 = val;
            } else if addr == 0xff21 {
                self.nr42 = val;
                self.ch4_volume = val / 16;
                self.ch4_length_cycles = 0;
            } else if addr == 0xff22 {
                self.nr43 = val;
            } else if addr == 0xff23 {
                self.nr44 = val;
            } else if addr == 0xff24 {
                self.nr50 = val;
            } else if addr == 0xff25 {
                self.nr51 = val;
            } else if addr == 0xff26 {
                self.nr52 = val;
            } else if 0xff30 <= addr && addr <= 0xff3f {
                self.wave_ram[(addr - 0xff30) as usize] = val;
            }
        }
        self.read_reg(addr)
    }

    /// The current value of one sound register.
    pub fn read_reg(&self, addr: u16) -> (r: u8)
        requires
            self.wf(),
        ensures
            r == reg_read(self@, addr),
    {
        if addr == 0xff10 {
            self.nr10
        } else if addr == 0xff11 {
            self.nr11
        } else if addr == 0xff12 {
            self.nr12
        } else if addr == 0xff13 {
            self.nr13
        } else if addr == 0xff14 {
            self.nr14
        } else if addr == 0xff16 {
            self.nr21
        } else if addr == 0xff17 {
            self.nr22
        } else if addr == 0xff18 {
            self.nr23
        } else if addr == 0xff19 {
            self.nr24
        } else if addr == 0xff1a {
            self.nr30
        } else if addr == 0xff1b {
            self.nr31
        } else if addr == 0xff1c {
            self.nr32
        } else if addr == 0xff1d {
            self.nr33
        } else if addr == 0xff1e {
            self.nr34
        } else if addr == 0xff20 {
            self.nr41
        } else if addr == 0xff21 {
            self.nr42
        } else if addr == 0xff22 {
            self.nr43
        } else if addr == 0xff23 {
            self.nr44
        } else if addr == 0xff24 {
            self.nr50
        } else if addr == 0xff25 {
            self.nr51
        } else if addr == 0xff26 {
            self.nr52
        } else if 0xff30 <= addr && addr <= 0xff3f {
            self.wave_ram[(addr - 0xff30) as usize]
        } else {
            0
        }
    }
}

/// The power-on sound state: every register and counter zero, wave RAM
/// cleared.
pub open spec fn spec_new() -> SoundModel {
    SoundModel {
        nr10: 0,
        nr11: 0,
        nr12: 0,
        nr13: 0,
        nr14: 0,
        ch1_length_cycles: 0,
        ch1_volume: 0,
        ch1_envelope_cycles: 0,
        nr21: 0,
        nr22: 0,
        nr23: 0,
        nr24: 0,
        ch2_length_cycles: 0,
        ch2_volume: 0,
        ch2_envelope_cycles: 0,
        nr30: 0,
        nr31: 0,
        nr32: 0,
        nr33: 0,
        nr34: 0,
        wave_ram: Seq::new(16, |i: int| 0u8),
        nr41: 0,
        nr42: 0,
        nr43: 0,
        nr44: 0,
        ch4_length_cycles: 0,
        ch4_volume: 0,
        ch4_envelope_cycles: 0,
        nr50: 0,
        nr51: 0,
        nr52: 0,
    }
}

} // verus!
