use vstd::prelude::*;
use crate::system::Fault;
use super::length_counter::{LengthCounter, length_table};
use super::pulse::{next_index, length_tick, set_enabled_spec};

verus! {

/// The triangle channel's state.
#[derive(Clone, Copy)]
pub struct Triangle {
    pub counter_reload_flag: bool,
    pub counter_reload: u8,
    pub counter: u8,
    pub length_counter: LengthCounter,
    pub timer: u16,
    pub muted: bool,
    pub output_i: usize,
}

/// One step of the triangle waveform for the audio side: the level (0 to
/// 15) and the step's length in CPU cycles.
#[derive(Clone, Copy, Debug, PartialEq, Eq, Structural)]
pub struct TriangleSample {
    pub level: u8,
    pub timer_cycles: u16,
}

/// The 32-step triangle waveform: 15 down to 0, then 0 up to 15.
pub open spec fn triangle_sequence() -> Seq<u8> {
    seq![15u8, 14, 13, 12, 11, 10, 9, 8, 7, 6, 5, 4, 3, 2, 1, 0, 0, 1, 2, 3, 4, 5, 6, 7, 8, 9, 10, 11, 12, 13, 14, 15]
}

fn triangle_level(i: usize) -> (r: u8)
    requires
        i < 32,
    ensures
        r == triangle_sequence()[i as int],
{
    let raw: [u8; 32] = [
        15, 14, 13, 12, 11, 10, 9, 8, 7, 6, 5, 4, 3, 2, 1, 0,
        0, 1, 2, 3, 4, 5, 6, 7, 8, 9, 10, 11, 12, 13, 14, 15,
    ];
    assert(raw@ =~= triangle_sequence());
    raw[i]
}

/// Whether the channel produces sound.
pub open spec fn triangle_sounding(t: Triangle) -> bool {
    !t.muted && t.length_counter.length > 0 && t.counter > 0 && t.timer >= 8
}

/// One waveform step: the sample, if sounding, and the clock cycles until
/// the next step (the period in CPU cycles, times 3).
pub open spec fn triangle_next(t: Triangle) -> Result<(Triangle, Option<TriangleSample>, u64), Fault> {
    if t.timer == 0xffff {
        Err(Fault::Overflow)
    } else {
        let timer_cycles = (t.timer + 1) as u16;
        let sample: Result<Option<TriangleSample>, Fault> = if triangle_sounding(t) {
            if t.output_i >= 32 {
                Err(Fault::OutOfBounds)
            } else {
                Ok(Some(TriangleSample { level: triangle_sequence()[t.output_i as int], timer_cycles }))
            }
        } else {
            Ok(None)
        };
        match sample {
            Err(e) => Err(e),
            Ok(s) => match next_index(t.output_i, 31) {
                Err(e) => Err(e),
                Ok(i) => Ok((Triangle { output_i: i, ..t }, s, ((timer_cycles as u64) * 3) as u64)),
            },
        }
    }
}

/// The channel after a write of `val` to its register `loc` (0 to 3).
pub open spec fn triangle_set_reg(t: Triangle, loc: usize, val: u8) -> Triangle {
    if loc == 0 {
        Triangle {
            length_counter: LengthCounter { halt: (val & 0x80) != 0, ..t.length_counter },
            counter_reload: val & 0x7f,
            ..t
        }
    } else if loc == 1 {
        t
    } else if loc == 2 {
        Triangle { timer: (t.timer & !0x00ffu16) | (val as u16), ..t }
    } else {
        Triangle {
            timer: (t.timer & !0x0f00u16) | (((val as u16) & 0x07) << 8u16),
            length_counter: LengthCounter {
                length: if t.length_counter.enabled {
                    length_table(((val >> 3u8) & 0x1f) as int)
                } else {
                    t.length_counter.length
                },
                ..t.length_counter
            },
            counter_reload_flag: true,
            ..t
        }
    }
}

/// One linear counter clock: reload when flagged, otherwise count down to
/// zero; the flag clears unless the length counter is halted.
pub open spec fn linear_tick(t: Triangle) -> Triangle {
    let counter = if t.counter_reload_flag {
        t.counter_reload
    } else if t.counter > 0 {
        (t.counter - 1) as u8
    } else {
        t.counter
    };
    Triangle {
        counter,
        counter_reload_flag: if !t.length_counter.halt { false } else { t.counter_reload_flag },
        ..t
    }
}

impl Triangle {
    /// A silent channel with everything cleared.
    pub open spec fn new_spec(muted: bool) -> Triangle {
        Triangle {
            counter_reload_flag: false,
            counter_reload: 0,
            counter: 0,
            length_counter: LengthCounter { enabled: false, halt: false, length: 0 },
            timer: 0,
            muted: muted,
            output_i: 0,
        }
    }

    pub fn new(muted: bool) -> (r: Self)
        ensures
            r == Triangle::new_spec(muted),
    {
        Self {
            counter_reload_flag: false,
            counter_reload: 0,
            counter: 0,
            length_counter: LengthCounter::new(),
            timer: 0,
            muted: muted,
            output_i: 0,
        }
    }

    pub fn get_enabled(&self) -> (r: bool)
        ensures
            r == self.length_counter.enabled,
    {
        self.length_counter.get_enabled()
    }

    pub fn set_enabled(&mut self, val: bool)
        ensures
            *final(self) == (Triangle { length_counter: set_enabled_spec(old(self).length_counter, val), ..*old(self) }),
    {
        self.length_counter.set_enabled(val)
    }

    fn increment_output_i(&mut self) -> (r: Result<(), Fault>)
        ensures
            match next_index(old(self).output_i, 31) {
                Ok(i) => r is Ok && *final(self) == (Triangle { output_i: i, ..*old(self) }),
                Err(e) => r == Err::<(), Fault>(e),
            },
    {
        let output_i = self.output_i;
        if output_i == 31 {
            self.output_i = 0;
        } else {
            if output_i == usize::MAX {
                return Err(Fault::Overflow);
            }
            self.output_i = output_i + 1;
        }
        Ok(())
    }

    /// Produces the channel's next waveform step and the cycles to wait
    /// before the one after.
    pub fn next_output(&mut self) -> (r: Result<(Option<TriangleSample>, u64), Fault>)
        ensures
            match triangle_next(*old(self)) {
                Ok((t, s, n)) => r == Ok::<(Option<TriangleSample>, u64), Fault>((s, n)) && *final(self) == t,
                Err(e) => r == Err::<(Option<TriangleSample>, u64), Fault>(e),
            },
    {
        if self.timer == 0xffff {
            return Err(Fault::Overflow);
        }
        let timer_cycles = self.timer + 1;
        let sample = if !self.muted && self.length_counter.unmuted() && self.counter > 0 && self.timer >= 8 {
            if self.output_i >= 32 {
                return Err(Fault::OutOfBounds);
            }
            Some(TriangleSample { level: triangle_level(self.output_i), timer_cycles: timer_cycles })
        } else {
            None
        };
        self.increment_output_i()?;
        Ok((sample, timer_cycles as u64 * 3))
    }

    /// A write to channel register `loc`: halt and linear reload (0),
    /// unused (1), timer low (2), timer high and length (3).
    pub fn set_reg(&mut self, loc: usize, val: u8)
        requires
            loc < 4,
        ensures
            *final(self) == triangle_set_reg(*old(self), loc, val),
    {
        if loc == 0 {
            self.length_counter.halt = (val & 0x80) != 0;
            self.counter_reload = val & 0x7f;
        } else if loc == 1 {
            // Unused register
        } else if loc == 2 {
            let t = self.timer & !0x00ffu16;
            self.timer = t | val as u16;
        } else {
            let t = self.timer & !0x0f00u16;
            self.timer = t | (val as u16 & 0x07) << 8u16;
            self.length_counter.set(val >> 3u8);
            self.counter_reload_flag = true;
        }
    }

    pub fn tick_linear_counter(&mut self)
        ensures
            *final(self) == linear_tick(*old(self)),
    {
        if self.counter_reload_flag {
            self.counter = self.counter_reload;
        } else {
            if self.counter > 0 {
                self.counter = self.counter - 1;
            }
        }
        // The linear counter shares the length counter's halt flag
        if !self.length_counter.halt {
            self.counter_reload_flag = false;
        }
    }

    pub fn tick_length(&mut self)
        ensures
            *final(self) == (Triangle { length_counter: length_tick(old(self).length_counter), ..*old(self) }),
    {
        self.length_counter.tick();
    }
}

} // verus!
