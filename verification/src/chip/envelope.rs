use vstd::prelude::*;

verus! {

/// The volume envelope of a channel: a constant volume, or a decay from 15
/// clocked by a divider.
#[derive(Clone, Copy)]
pub struct Envelope {
    pub volume: u8,
    pub divider: u8,
    pub decay: u8,
    pub start: bool,
    pub constant_vol: bool,
    pub loop_flag: bool,
}

/// The decay level after one clock of the decay counter.
pub open spec fn decay_step(e: Envelope) -> u8 {
    if e.decay > 0 {
        (e.decay - 1) as u8
    } else if e.loop_flag {
        15
    } else {
        0
    }
}

/// The envelope after one clock.
pub open spec fn envelope_tick(e: Envelope) -> Envelope {
    if e.start {
        Envelope { start: false, decay: 15, divider: e.volume, ..e }
    } else if e.divider == 0 {
        Envelope { divider: e.volume, decay: decay_step(e), ..e }
    } else {
        Envelope { divider: (e.divider - 1) as u8, ..e }
    }
}

/// The decay level stays within 0 to 15: a start sets it to 15, and it
/// only counts down from there, or reloads 15 when looping.
pub proof fn lemma_decay_bounded(e: Envelope)
    requires
        e.decay <= 15,
    ensures
        envelope_tick(e).decay <= 15,
        envelope_tick(e).volume == e.volume,
        !e.start && e.divider == 0 && e.decay > 0 ==> envelope_tick(e).decay == e.decay - 1,
{
}

impl Envelope {
    pub fn new() -> (r: Self)
        ensures
            r == (Envelope { volume: 0, divider: 0, decay: 0, start: false, constant_vol: false, loop_flag: false }),
    {
        Self { volume: 0, divider: 0, decay: 0, start: false, constant_vol: false, loop_flag: false }
    }

    pub fn set_constant_vol(&mut self, val: bool)
        ensures
            *final(self) == (Envelope { constant_vol: val, ..*old(self) }),
    {
        self.constant_vol = val;
    }

    pub fn set_start(&mut self)
        ensures
            *final(self) == (Envelope { start: true, ..*old(self) }),
    {
        self.start = true;
    }

    /// Sets the volume (and divider period) from the low four bits.
    pub fn set_volume(&mut self, volume: u8)
        ensures
            *final(self) == (Envelope { volume: volume & 0x0f, ..*old(self) }),
    {
        self.volume = volume & 0x0f;
    }

    /// One clock of the envelope: a pending start reloads the decay level
    /// at 15; otherwise the divider counts down and, when it passes zero,
    /// reloads and clocks the decay level.
    pub fn tick(&mut self)
        ensures
            *final(self) == envelope_tick(*old(self)),
    {
        if self.start {
            self.start = false;
            self.decay = 15;
            self.divider = self.volume;
        } else if self.divider == 0 {
            self.divider = self.volume;
            self.tick_decay();
        } else {
            self.divider -= 1;
        }
    }

    fn tick_decay(&mut self)
        ensures
            *final(self) == (Envelope { decay: decay_step(*old(self)), ..*old(self) }),
    {
        if self.decay > 0 {
            self.decay -= 1;
        } else if self.decay == 0 && self.loop_flag {
            self.decay = 15;
        }
    }

    /// The output level, 0 to 15 in use: the constant volume or the decay
    /// level. The audio side scales it to an amplitude.
    pub fn output_level(&self) -> (r: u8)
        ensures
            r == if self.constant_vol { self.volume } else { self.decay },
    {
        if self.constant_vol {
            self.volume
        } else {
            self.decay
        }
    }
}

} // verus!
