use vstd::prelude::*;

verus! {

/// Silences a channel once its programmed duration has elapsed.
#[derive(Clone, Copy)]
pub struct LengthCounter {
    pub enabled: bool,
    pub halt: bool,
    pub length: u8,
}

/// Load values of the length counter, indexed by the five bit value written
/// to a channel's fourth register.
pub open spec fn length_table(ind: int) -> u8 {
    seq![
        10u8, 254, 20, 2, 40, 4, 80, 6, 160, 8, 60, 10, 14, 12, 26, 14,
        12, 16, 24, 18, 48, 20, 96, 22, 192, 24, 72, 26, 16, 28, 32, 30,
    ][ind]
}

fn length_table_lookup(ind: u8) -> (r: u8)
    requires
        ind < 32,
    ensures
        r == length_table(ind as int),
{
    let table: [u8; 32] = [
        10, 254, 20, 2, 40, 4, 80, 6, 160, 8, 60, 10, 14, 12, 26, 14,
        12, 16, 24, 18, 48, 20, 96, 22, 192, 24, 72, 26, 16, 28, 32, 30,
    ];
    assert(table@ =~= seq![
        10u8, 254, 20, 2, 40, 4, 80, 6, 160, 8, 60, 10, 14, 12, 26, 14,
        12, 16, 24, 18, 48, 20, 96, 22, 192, 24, 72, 26, 16, 28, 32, 30,
    ]);
    table[ind as usize]
}

impl LengthCounter {
    pub fn new() -> (r: Self)
        ensures
            r == (LengthCounter { enabled: false, halt: false, length: 0 }),
    {
        Self { enabled: false, halt: false, length: 0 }
    }

    /// Counts down by one, saturating at zero, when enabled and not halted.
    pub fn tick(&mut self)
        ensures
            final(self).enabled == old(self).enabled,
            final(self).halt == old(self).halt,
            final(self).length == if old(self).enabled && !old(self).halt && old(self).length > 0 {
                (old(self).length - 1) as u8
            } else {
                old(self).length
            },
    {
        if self.enabled && !self.halt {
            self.length = self.length.saturating_sub(1);
        }
    }

    pub fn unmuted(&self) -> (r: bool)
        ensures
            r == (self.length > 0),
    {
        self.length > 0
    }

    /// Loads the counter from the table, using the low five bits of `ind`,
    /// when the counter is enabled.
    pub fn set(&mut self, ind: u8)
        ensures
            final(self).enabled == old(self).enabled,
            final(self).halt == old(self).halt,
            final(self).length == if old(self).enabled {
                length_table((ind & 0x1f) as int)
            } else {
                old(self).length
            },
    {
        if self.enabled {
            let i = ind & 0x1f;
            assert(i < 32) by (bit_vector)
                requires
                    i == ind & 0x1f,
            ;
            self.length = length_table_lookup(i);
        }
    }

    /// Enables or disables the counter; enabling it clears the length.
    pub fn set_enabled(&mut self, val: bool)
        ensures
            final(self).enabled == val,
            final(self).halt == old(self).halt,
            final(self).length == if val { 0 } else { old(self).length },
    {
        self.enabled = val;
        if val {
            self.length = 0;
        }
    }

    pub fn get_enabled(&self) -> (r: bool)
        ensures
            r == self.enabled,
    {
        self.enabled
    }
}

} // verus!
