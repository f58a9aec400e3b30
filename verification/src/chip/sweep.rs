use vstd::prelude::*;

verus! {

/// The sweep unit of a pulse channel: periodically moves the timer period
/// up or down by a shifted copy of itself.
pub struct Sweep {
    pub enabled: bool,
    pub negate: bool,
    pub counter_reload: u8,
    pub timer: u16,
    pub counter: u8,
    pub shift_amount: u8,
    pub reload_flag: bool,
    pub twos_complement: bool,
}

/// The period the sweep would move to: the timer plus or minus the timer
/// shifted right by the shift amount. Ones' complement negation subtracts
/// one less. Subtraction stops at zero.
pub open spec fn target_period_spec(s: Sweep) -> int {
    let change = (s.timer >> s.shift_amount) as int;
    if s.negate {
        let sub = if s.twos_complement { change } else { change - 1 };
        if s.timer - sub < 0 { 0 } else { s.timer - sub }
    } else {
        s.timer + change
    }
}

/// The timer fits eleven bits, the shift three bits, the reload three bits,
/// and negation is two's complement.
pub open spec fn sweep_wf(s: Sweep) -> bool {
    &&& s.timer <= 0x7ff
    &&& s.shift_amount < 8
    &&& s.counter_reload < 8
    &&& s.twos_complement
}

/// The sweep keeps its channel sounding: the period is at least 8 and the
/// target does not pass 0x7ff.
pub open spec fn sweep_unmuted(s: Sweep) -> bool {
    s.timer >= 8 && target_period_spec(s) <= 0x7ff
}

/// The sweep after one half-frame clock.
pub open spec fn sweep_tick(s: Sweep) -> Sweep {
    let timer = if s.enabled && s.counter == 0 && s.shift_amount > 0 && sweep_unmuted(s) {
        target_period_spec(s) as u16
    } else {
        s.timer
    };
    if s.counter == 0 || s.reload_flag {
        Sweep { timer, counter: s.counter_reload, reload_flag: false, ..s }
    } else {
        Sweep { timer, counter: (s.counter - 1) as u8, ..s }
    }
}

impl Sweep {
    pub fn new() -> (r: Self)
        ensures
            sweep_wf(r),
            r == (Sweep {
                enabled: false,
                negate: false,
                counter: 0,
                counter_reload: 0,
                timer: 0,
                shift_amount: 0,
                reload_flag: false,
                twos_complement: true,
            }),
    {
        Self {
            enabled: false,
            negate: false,
            counter: 0,
            counter_reload: 0,
            timer: 0,
            shift_amount: 0,
            reload_flag: false,
            twos_complement: true,
        }
    }

    fn target_period(&self) -> (r: u16)
        requires
            sweep_wf(*self),
        ensures
            r == target_period_spec(*self),
    {
        let current = self.timer;
        let sh = self.shift_amount;
        let change = current >> sh;
        assert(change <= current) by (bit_vector)
            requires
                change == current >> sh,
        ;
        if self.negate {
            if self.twos_complement {
                current.saturating_sub(change)
            } else {
                current.saturating_sub(change - 1)
            }
        } else {
            current + change
        }
    }

    pub fn unmuted(&self) -> (r: bool)
        requires
            sweep_wf(*self),
        ensures
            r == sweep_unmuted(*self),
    {
        self.timer >= 8 && self.target_period() <= 0x7ff
    }

    pub fn tick(&mut self)
        requires
            sweep_wf(*old(self)),
        ensures
            sweep_wf(*final(self)),
            *final(self) == sweep_tick(*old(self)),
    {
        if self.enabled && self.counter == 0 && self.shift_amount > 0 {
            if self.unmuted() {
                self.timer = self.target_period();
            }
        }
        if self.counter == 0 || self.reload_flag {
            self.counter = self.counter_reload;
            self.reload_flag = false;
        } else {
            self.counter = self.counter.saturating_sub(1);
        }
    }

    /// Loads the sweep register: enable (bit 7), reload value (bits 4-6),
    /// negate (bit 3), shift (bits 0-2); the counter reloads next clock.
    pub fn set_reg(&mut self, val: u8)
        requires
            sweep_wf(*old(self)),
        ensures
            sweep_wf(*final(self)),
            *final(self) == (Sweep {
                enabled: val & 0x80 != 0,
                negate: val & 0x08 != 0,
                counter_reload: (val & 0x70) >> 4u8,
                shift_amount: val & 0x07,
                reload_flag: true,
                ..*old(self)
            }),
    {
        self.enabled = val & 0x80 != 0;
        self.negate = val & 0x08 != 0;
        self.counter_reload = (val & 0x70) >> 4u8;
        self.shift_amount = val & 0x07;
        self.reload_flag = true;
        assert((val & 0x70) >> 4u8 < 8 && val & 0x07 < 8) by (bit_vector);
    }

    pub fn get_timer(&self) -> (r: u16)
        ensures
            r == self.timer,
    {
        self.timer
    }

    /// Sets timer bits 8-10 from the low three bits of `val`.
    pub fn set_timer_upper(&mut self, val: u8)
        requires
            sweep_wf(*old(self)),
        ensures
            sweep_wf(*final(self)),
            *final(self) == (Sweep { timer: (old(self).timer & !0xf00u16) | (((val as u16) & 0x07) << 8u16), ..*old(self) }),
    {
        let t = self.timer;
        self.timer = (t & !0xf00u16) | (((val as u16) & 0x07) << 8u16);
        assert((t & !0xf00u16) | (((val as u16) & 0x07) << 8u16) <= 0x7ff) by (bit_vector)
            requires
                t <= 0x7ff,
        ;
    }

    /// Sets timer bits 0-7 from `val`.
    pub fn set_timer_lower(&mut self, val: u8)
        requires
            sweep_wf(*old(self)),
        ensures
            sweep_wf(*final(self)),
            *final(self) == (Sweep { timer: (old(self).timer & !0x0ffu16) | (val as u16), ..*old(self) }),
    {
        let t = self.timer;
        self.timer = (t & !0x0ffu16) | (val as u16);
        assert((t & !0x0ffu16) | (val as u16) <= 0x7ff) by (bit_vector)
            requires
                t <= 0x7ff,
        ;
    }
}

} // verus!
