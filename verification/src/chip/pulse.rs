use vstd::prelude::*;
use crate::system::Fault;
use super::length_counter::{LengthCounter, length_table};
use super::envelope::Envelope;

verus! {

/// A pulse (square wave) channel's state.
#[derive(Clone, Copy)]
pub struct Pulse {
    pub id: usize,
    pub duty: u8,
    pub length_counter: LengthCounter,
    pub envelope: Envelope,
    pub timer: u16,
    pub muted: bool,
    pub output_i: usize,
}

/// One step of a pulse waveform for the audio side: the envelope level,
/// whether the duty cycle is high at this step, and the step's length in
/// CPU cycles.
#[derive(Clone, Copy, Debug, PartialEq, Eq, Structural)]
pub struct PulseSample {
    pub level: u8,
    pub duty_on: bool,
    pub period_cycles: u16,
}

/// The duty cycle waveforms: 12.5%, 25%, 50% and 75% (negated 25%).
pub open spec fn duty_table() -> Seq<Seq<bool>> {
    seq![
        seq![false, true, false, false, false, false, false, false],
        seq![false, true, true, false, false, false, false, false],
        seq![false, true, true, true, true, false, false, false],
        seq![true, false, false, true, true, true, true, true],
    ]
}

fn duty_lookup(duty: u8, i: usize) -> (r: bool)
    requires
        duty < 4,
        i < 8,
    ensures
        r == duty_table()[duty as int][i as int],
{
    let output_table: [[u8; 8]; 4] = [
        [0, 1, 0, 0, 0, 0, 0, 0],
        [0, 1, 1, 0, 0, 0, 0, 0],
        [0, 1, 1, 1, 1, 0, 0, 0],
        [1, 0, 0, 1, 1, 1, 1, 1],
    ];
    let row = output_table[duty as usize];
    assert(duty == 0 ==> row@ =~= seq![0u8, 1, 0, 0, 0, 0, 0, 0]);
    assert(duty == 1 ==> row@ =~= seq![0u8, 1, 1, 0, 0, 0, 0, 0]);
    assert(duty == 2 ==> row@ =~= seq![0u8, 1, 1, 1, 1, 0, 0, 0]);
    assert(duty == 3 ==> row@ =~= seq![1u8, 0, 0, 1, 1, 1, 1, 1]);
    row[i] == 1
}

/// Whether the channel produces sound: not muted, length counter running,
/// period at least 8.
pub open spec fn pulse_sounding(p: Pulse) -> bool {
    !p.muted && p.length_counter.length > 0 && p.timer >= 8
}

/// The waveform position after one step: 0 to 7, wrapping.
pub open spec fn next_index(i: usize, last: usize) -> Result<usize, Fault> {
    if i == last {
        Ok(0)
    } else if i == usize::MAX {
        Err(Fault::Overflow)
    } else {
        Ok((i + 1) as usize)
    }
}

/// One waveform step of the channel: the sample it outputs, if sounding, and
/// the clock cycles until the next step (the period in APU cycles, times 6).
pub open spec fn pulse_next(p: Pulse) -> Result<(Pulse, Option<PulseSample>, u64), Fault> {
    if p.timer == 0xffff {
        Err(Fault::Overflow)
    } else {
        let timer_cycles = (p.timer + 1) as u16;
        let sample: Result<Option<PulseSample>, Fault> = if pulse_sounding(p) {
            if p.duty >= 4 || p.output_i >= 8 {
                Err(Fault::OutOfBounds)
            } else if timer_cycles * 2 > 0xffff {
                Err(Fault::Overflow)
            } else {
                Ok(
                    Some(
                        PulseSample {
                            level: if p.envelope.constant_vol { p.envelope.volume } else { p.envelope.decay },
                            duty_on: duty_table()[p.duty as int][p.output_i as int],
                            period_cycles: (timer_cycles * 2) as u16,
                        },
                    ),
                )
            }
        } else {
            Ok(None)
        };
        match sample {
            Err(e) => Err(e),
            Ok(s) => match next_index(p.output_i, 7) {
                Err(e) => Err(e),
                Ok(i) => Ok((Pulse { output_i: i, ..p }, s, ((timer_cycles as u64) * 2 * 3) as u64)),
            },
        }
    }
}

/// The channel after a write of `val` to its register `loc` (0 to 3).
pub open spec fn pulse_set_reg(p: Pulse, loc: usize, val: u8) -> Pulse {
    if loc == 0 {
        Pulse {
            duty: (val & 0xc0) >> 6u8,
            length_counter: LengthCounter { halt: (val & 0x20) != 0, ..p.length_counter },
            envelope: Envelope { constant_vol: (val & 0x10) != 0, volume: (val & 0x0f) & 0x0f, ..p.envelope },
            ..p
        }
    } else if loc == 1 {
        p
    } else if loc == 2 {
        Pulse { timer: (p.timer & !0x00ffu16) | (val as u16), ..p }
    } else {
        Pulse {
            timer: (p.timer & !0x0f00u16) | (((val as u16) & 0x07) << 8u16),
            length_counter: LengthCounter {
                length: if p.length_counter.enabled {
                    length_table(((val >> 3u8) & 0x1f) as int)
                } else {
                    p.length_counter.length
                },
                ..p.length_counter
            },
            envelope: Envelope { start: true, ..p.envelope },
            ..p
        }
    }
}

/// The length counter after enabling or disabling it; enabling clears it.
pub open spec fn set_enabled_spec(l: LengthCounter, val: bool) -> LengthCounter {
    LengthCounter { enabled: val, length: if val { 0 } else { l.length }, ..l }
}

/// One length counter clock.
pub open spec fn length_tick(l: LengthCounter) -> LengthCounter {
    LengthCounter {
        length: if l.enabled && !l.halt && l.length > 0 { (l.length - 1) as u8 } else { l.length },
        ..l
    }
}

impl Pulse {
    /// A silent channel with everything cleared.
    pub open spec fn new_spec(id: usize, muted: bool) -> Pulse {
        Pulse {
            id,
            duty: 0,
            length_counter: LengthCounter { enabled: false, halt: false, length: 0 },
            envelope: Envelope { volume: 0, divider: 0, decay: 0, start: false, constant_vol: false, loop_flag: false },
            timer: 0,
            muted,
            output_i: 0,
        }
    }

    pub fn new(id: usize, muted: bool) -> (r: Self)
        ensures
            r == Pulse::new_spec(id, muted),
    {
        Self {
            id: id,
            duty: 0,
            length_counter: LengthCounter::new(),
            envelope: Envelope::new(),
            timer: 0,
            muted: muted,
            output_i: 0,
        }
    }

    fn increment_output_i(&mut self) -> (r: Result<(), Fault>)
        ensures
            match next_index(old(self).output_i, 7) {
                Ok(i) => r is Ok && *final(self) == (Pulse { output_i: i, ..*old(self) }),
                Err(e) => r == Err::<(), Fault>(e),
            },
    {
        let output_i = self.output_i;
        if output_i == 7 {
            self.output_i = 0;
        } else {
            if output_i == usize::MAX {
                return Err(Fault::Overflow);
            }
            self.output_i = output_i + 1;
        }
        Ok(())
    }

    /// Produces the channel's next waveform step and the cycles to wait
    /// before the one after.
    pub fn next_output(&mut self) -> (r: Result<(Option<PulseSample>, u64), Fault>)
        ensures
            match pulse_next(*old(self)) {
                Ok((p, s, n)) => r == Ok::<(Option<PulseSample>, u64), Fault>((s, n)) && *final(self) == p,
                Err(e) => r == Err::<(Option<PulseSample>, u64), Fault>(e),
            },
    {
        if self.timer == 0xffff {
            return Err(Fault::Overflow);
        }
        let timer_cycles = self.timer + 1;
        let sample = if !self.muted && self.length_counter.unmuted() && self.timer >= 8 {
            if self.duty >= 4 || self.output_i >= 8 {
                return Err(Fault::OutOfBounds);
            }
            let duty_on = duty_lookup(self.duty, self.output_i);
            if timer_cycles > 0x7fff {
                return Err(Fault::Overflow);
            }
            Some(PulseSample { level: self.envelope.output_level(), duty_on: duty_on, period_cycles: timer_cycles * 2 })
        } else {
            None
        };
        self.increment_output_i()?;
        Ok((sample, timer_cycles as u64 * 2 * 3))
    }

    pub fn tick_length(&mut self)
        ensures
            *final(self) == (Pulse { length_counter: length_tick(old(self).length_counter), ..*old(self) }),
    {
        self.length_counter.tick();
    }

    /// The quarter-frame clock of the channel. It clocks the length counter,
    /// as the half-frame clock does; the envelope is not clocked.
    pub fn tick_envelope(&mut self)
        ensures
            *final(self) == (Pulse { length_counter: length_tick(old(self).length_counter), ..*old(self) }),
    {
        self.length_counter.tick();
    }

    pub fn get_enabled(&self) -> (r: bool)
        ensures
            r == self.length_counter.enabled,
    {
        self.length_counter.get_enabled()
    }

    pub fn set_enabled(&mut self, val: bool)
        ensures
            *final(self) == (Pulse { length_counter: set_enabled_spec(old(self).length_counter, val), ..*old(self) }),
    {
        self.length_counter.set_enabled(val)
    }

    /// A write to channel register `loc`: duty, halt and volume (0), sweep
    /// (1, not modelled), timer low (2), timer high and length (3).
    pub fn set_reg(&mut self, loc: usize, val: u8)
        requires
            loc < 4,
        ensures
            *final(self) == pulse_set_reg(*old(self), loc, val),
    {
        if loc == 0 {
            self.duty = (val & 0xc0) >> 6u8;
            self.length_counter.halt = (val & 0x20) != 0;
            self.envelope.set_constant_vol((val & 0x10) != 0);
            self.envelope.set_volume(val & 0x0f);
        } else if loc == 1 {
            // The sweep register has no effect here
        } else if loc == 2 {
            self.timer = self.timer & !0x00ffu16;
            self.timer = self.timer | val as u16;
        } else {
            self.timer = self.timer & !0x0f00u16;
            self.timer = self.timer | (val as u16 & 0x07) << 8u16;
            self.length_counter.set(val >> 3u8);
            self.envelope.set_start();
        }
    }
}

} // verus!
