use vstd::prelude::*;
use super::length_counter::LengthCounter;
use super::envelope::Envelope;

verus! {

/// The noise channel's registers.
pub struct Noise {
    pub mode: bool,
    pub timer: u8,
    pub envelope: Envelope,
    pub length_counter: LengthCounter,
    pub muted: bool,
}

impl Noise {
    pub fn new(muted: bool) -> (r: Self)
        ensures
            !r.mode,
            r.timer == 0,
            r.muted == muted,
            r.envelope == (Envelope { volume: 0, divider: 0, decay: 0, start: false, constant_vol: false, loop_flag: false }),
            r.length_counter == (LengthCounter { enabled: false, halt: false, length: 0 }),
    {
        Self { mode: false, timer: 0, envelope: Envelope::new(), length_counter: LengthCounter::new(), muted: muted }
    }

    /// Clocks the length counter and reports whether the channel sounds.
    pub fn tick(&mut self) -> (r: bool)
        ensures
            final(self).length_counter == super::pulse::length_tick(old(self).length_counter),
            final(self).mode == old(self).mode,
            final(self).timer == old(self).timer,
            final(self).envelope == old(self).envelope,
            final(self).muted == old(self).muted,
            r == (!final(self).muted && final(self).length_counter.length > 0 && final(self).timer >= 8),
    {
        self.length_counter.tick();
        !self.muted && self.length_counter.unmuted() && self.timer >= 8
    }

    /// A write to channel register `loc`: halt and volume (0), unused (1),
    /// mode and period (2), length (3).
    pub fn set_reg(&mut self, loc: usize, val: u8)
        requires
            loc < 4,
        ensures
            loc == 0 ==> final(self).length_counter == (LengthCounter { halt: (val & 0x20) != 0, ..old(self).length_counter })
                && final(self).envelope == (Envelope {
                constant_vol: (val & 0x10) != 0,
                volume: (val & 0x0f) & 0x0f,
                ..old(self).envelope
            }) && final(self).timer == old(self).timer && final(self).mode == old(self).mode,
            loc == 1 ==> final(self).length_counter == old(self).length_counter && final(self).envelope
                == old(self).envelope && final(self).timer == old(self).timer && final(self).mode == old(self).mode,
            loc == 2 ==> final(self).timer == (old(self).timer & !0x0fu8) | (val & 0x0f) && final(self).mode == (val
                & 0x80 != 0) && final(self).length_counter == old(self).length_counter && final(self).envelope
                == old(self).envelope,
            loc == 3 ==> final(self).length_counter == (LengthCounter {
                length: if old(self).length_counter.enabled {
                    super::length_counter::length_table(((val >> 3u8) & 0x1f) as int)
                } else {
                    old(self).length_counter.length
                },
                ..old(self).length_counter
            }) && final(self).envelope == (Envelope { start: true, ..old(self).envelope }) && final(self).timer
                == old(self).timer && final(self).mode == old(self).mode,
            final(self).muted == old(self).muted,
    {
        if loc == 0 {
            self.length_counter.halt = (val & 0x20) != 0;
            self.envelope.set_constant_vol((val & 0x10) != 0);
            self.envelope.set_volume(val & 0x0f);
        } else if loc == 1 {
            // Unused
        } else if loc == 2 {
            self.timer = self.timer & !0x0fu8;
            self.timer = self.timer | (val & 0x0f);
            self.mode = val & 0x80 != 0;
        } else {
            self.length_counter.set(val >> 3u8);
            self.envelope.set_start();
        }
    }
}

} // verus!
