pub mod length_counter;
pub mod envelope;
pub mod sweep;
pub mod pulse;
pub mod triangle;
pub mod noise;

use vstd::prelude::*;
use crate::input::{GamepadState, serialise_spec, bit};
use pulse::{Pulse, pulse_set_reg, length_tick};
use triangle::{Triangle, triangle_set_reg, linear_tick};

verus! {

/// Clock cycles per APU cycle (two CPU cycles of three clock ticks).
pub const APU_CYCLE: u64 = 6;

/// The audio processing unit and the controller ports: the registers at
/// 0x4000 to 0x4017 of the CPU bus.
pub struct Chip {
    pub pulse1: Pulse,
    pub pulse2: Pulse,
    pub triangle: Triangle,
    /// Bytes still to be read from each controller port, last first.
    pub gamepad_fifo_0: Vec<u8>,
    pub gamepad_fifo_1: Vec<u8>,
    pub seq_mode: bool,
    pub int_flag: bool,
    pub int_set: bool,
    /// The controllers as last sampled from the input side.
    pub active_gamepads: Vec<(usize, GamepadState)>,
    /// Where the frame sequencer resumes after its current wait.
    pub sequencer_step: u8,
}

pub struct ChipView {
    pub pulse1: Pulse,
    pub pulse2: Pulse,
    pub triangle: Triangle,
    pub fifo0: Seq<u8>,
    pub fifo1: Seq<u8>,
    pub seq_mode: bool,
    pub int_flag: bool,
    pub int_set: bool,
    pub gamepads: Seq<(usize, GamepadState)>,
    pub sequencer_step: u8,
}

impl View for Chip {
    type V = ChipView;

    open spec fn view(&self) -> ChipView {
        ChipView {
            pulse1: self.pulse1,
            pulse2: self.pulse2,
            triangle: self.triangle,
            fifo0: self.gamepad_fifo_0@,
            fifo1: self.gamepad_fifo_1@,
            seq_mode: self.seq_mode,
            int_flag: self.int_flag,
            int_set: self.int_set,
            gamepads: self.active_gamepads@,
            sequencer_step: self.sequencer_step,
        }
    }
}

pub open spec fn pop_spec(fifo: Seq<u8>) -> (Seq<u8>, u8) {
    if fifo.len() > 0 {
        (fifo.drop_last(), fifo.last())
    } else {
        (fifo, 0)
    }
}

/// What a CPU read of register `addr` (the low byte of 0x40xx) gives.
pub open spec fn chip_get_spec(c: ChipView, addr: usize) -> (ChipView, u8) {
    if addr == 0x15 {
        (
            c,
            (if c.pulse1.length_counter.enabled { 1u8 } else { 0u8 }) | ((if c.pulse2.length_counter.enabled {
                1u8
            } else {
                0u8
            }) << 1u8) | ((if c.triangle.length_counter.enabled { 1u8 } else { 0u8 }) << 1u8),
        )
    } else if addr == 0x16 {
        (ChipView { fifo0: pop_spec(c.fifo0).0, ..c }, pop_spec(c.fifo0).1)
    } else if addr == 0x17 {
        (ChipView { fifo1: pop_spec(c.fifo1).0, ..c }, pop_spec(c.fifo1).1)
    } else {
        (c, 0)
    }
}

/// The state after a controller strobe: each port with a connected
/// controller is loaded with that controller's buttons.
pub open spec fn strobe_spec(c: ChipView) -> ChipView {
    ChipView {
        fifo0: if c.gamepads.len() > 0 { serialise_spec(c.gamepads[0].1) } else { c.fifo0 },
        fifo1: if c.gamepads.len() > 1 { serialise_spec(c.gamepads[1].1) } else { c.fifo1 },
        ..c
    }
}

/// What a CPU write of `val` to register `addr` does.
pub open spec fn chip_set_spec(c: ChipView, addr: usize, val: u8) -> ChipView {
    if addr < 0x04 {
        ChipView { pulse1: pulse_set_reg(c.pulse1, addr & 0x3, val), ..c }
    } else if addr < 0x08 {
        ChipView { pulse2: pulse_set_reg(c.pulse2, addr & 0x3, val), ..c }
    } else if addr == 0x15 {
        ChipView {
            pulse1: Pulse {
                length_counter: pulse::set_enabled_spec(c.pulse1.length_counter, val & 0x01 != 0),
                ..c.pulse1
            },
            pulse2: Pulse {
                length_counter: pulse::set_enabled_spec(c.pulse2.length_counter, val & 0x02 != 0),
                ..c.pulse2
            },
            triangle: Triangle {
                length_counter: pulse::set_enabled_spec(c.triangle.length_counter, val & 0x04 != 0),
                ..c.triangle
            },
            ..c
        }
    } else if addr < 0x0c {
        ChipView { triangle: triangle_set_reg(c.triangle, addr & 0x3, val), ..c }
    } else if addr == 0x16 {
        if val & 0x01 != 0 {
            strobe_spec(c)
        } else {
            c
        }
    } else if addr == 0x17 {
        let int_flag = 0x40 & val != 0;
        ChipView { seq_mode: 0x80 & val != 0, int_flag, int_set: if int_flag { false } else { c.int_set }, ..c }
    } else {
        c
    }
}

/// A quarter-frame clock: the pulse channels' quarter clocks and the
/// triangle's linear counter.
pub open spec fn quarter_frame(c: ChipView) -> ChipView {
    ChipView {
        pulse1: Pulse { length_counter: length_tick(c.pulse1.length_counter), ..c.pulse1 },
        pulse2: Pulse { length_counter: length_tick(c.pulse2.length_counter), ..c.pulse2 },
        triangle: linear_tick(c.triangle),
        ..c
    }
}

/// A half-frame clock: the length counters.
pub open spec fn half_frame(c: ChipView) -> ChipView {
    ChipView {
        pulse1: Pulse { length_counter: length_tick(c.pulse1.length_counter), ..c.pulse1 },
        pulse2: Pulse { length_counter: length_tick(c.pulse2.length_counter), ..c.pulse2 },
        triangle: triangle::Triangle { length_counter: length_tick(c.triangle.length_counter), ..c.triangle },
        ..c
    }
}

/// One step of the frame sequencer, resuming at `sequencer_step` after its
/// last wait: the clocks it gives, where it resumes next, and how many
/// clock ticks to wait first. Steps 1, 2 and 4 (or 5, in five-step mode)
/// fall 3728, 7456, 11185 and 14914 (or 18640) APU cycles into the frame.
pub open spec fn sequencer_spec(c: ChipView) -> (ChipView, u64) {
    if c.sequencer_step == 1 {
        (ChipView { sequencer_step: 2, ..quarter_frame(c) }, (3728 * APU_CYCLE) as u64)
    } else if c.sequencer_step == 2 {
        (ChipView { sequencer_step: 3, ..quarter_frame(half_frame(quarter_frame(c))) }, (3729 * APU_CYCLE) as u64)
    } else if c.sequencer_step == 3 {
        (ChipView { sequencer_step: 4, ..c }, (3729 * APU_CYCLE) as u64)
    } else if c.sequencer_step == 4 {
        let c1 = if !c.seq_mode { ChipView { int_set: true, ..c } } else { c };
        if c1.seq_mode {
            (ChipView { sequencer_step: 5, ..c1 }, (3726 * APU_CYCLE) as u64)
        } else {
            (ChipView { sequencer_step: 1, ..half_frame(quarter_frame(c1)) }, (3728 * APU_CYCLE) as u64)
        }
    } else if c.sequencer_step == 5 {
        (ChipView { sequencer_step: 1, ..half_frame(quarter_frame(c)) }, (3728 * APU_CYCLE) as u64)
    } else {
        (ChipView { sequencer_step: 1, ..c }, (3728 * APU_CYCLE) as u64)
    }
}

impl Chip {
    pub fn new() -> (r: Self)
        ensures
            r@.pulse1 == Pulse::new_spec(1, false),
            r@.pulse2 == Pulse::new_spec(2, false),
            r@.triangle == Triangle::new_spec(false),
            r@.fifo0 == Seq::<u8>::empty(),
            r@.fifo1 == Seq::<u8>::empty(),
            !r@.seq_mode && !r@.int_flag && !r@.int_set,
            r@.gamepads == Seq::<(usize, GamepadState)>::empty(),
            r@.sequencer_step == 0,
    {
        Self {
            pulse1: Pulse::new(1, false),
            pulse2: Pulse::new(2, false),
            triangle: Triangle::new(false),
            gamepad_fifo_0: Vec::new(),
            gamepad_fifo_1: Vec::new(),
            seq_mode: false,
            int_flag: false,
            int_set: false,
            active_gamepads: Vec::new(),
            sequencer_step: 0,
        }
    }

    /// Takes a new sample of the connected controllers, in port order.
    pub fn set_gamepads(&mut self, gamepads: Vec<(usize, GamepadState)>)
        ensures
            final(self)@ == (ChipView { gamepads: gamepads@, ..old(self)@ }),
    {
        self.active_gamepads = gamepads;
    }

    /// Runs the frame sequencer up to its next wait and returns the number
    /// of clock ticks to wait.
    pub fn clock_sequencer(&mut self) -> (r: u64)
        ensures
            (final(self)@, r) == sequencer_spec(old(self)@),
    {
        if self.sequencer_step == 1 {
            self.quarter_frame();
            self.sequencer_step = 2;
            3728 * APU_CYCLE
        } else if self.sequencer_step == 2 {
            self.quarter_frame();
            self.half_frame();
            self.quarter_frame();
            self.sequencer_step = 3;
            3729 * APU_CYCLE
        } else if self.sequencer_step == 3 {
            self.sequencer_step = 4;
            3729 * APU_CYCLE
        } else if self.sequencer_step == 4 {
            if !self.seq_mode {
                self.int_set = true;
            }
            if self.seq_mode {
                self.sequencer_step = 5;
                3726 * APU_CYCLE
            } else {
                self.quarter_frame();
                self.half_frame();
                self.sequencer_step = 1;
                3728 * APU_CYCLE
            }
        } else if self.sequencer_step == 5 {
            self.quarter_frame();
            self.half_frame();
            self.sequencer_step = 1;
            3728 * APU_CYCLE
        } else {
            self.sequencer_step = 1;
            3728 * APU_CYCLE
        }
    }

    fn quarter_frame(&mut self)
        ensures
            final(self)@ == quarter_frame(old(self)@),
    {
        self.pulse1.tick_envelope();
        self.pulse2.tick_envelope();
        self.triangle.tick_linear_counter();
    }

    fn half_frame(&mut self)
        ensures
            final(self)@ == half_frame(old(self)@),
    {
        self.pulse1.tick_length();
        self.pulse2.tick_length();
        self.triangle.tick_length();
    }

    fn read_game_pad(&mut self, index: usize) -> (r: u8)
        requires
            index < 2,
        ensures
            index == 0 ==> final(self)@ == (ChipView { fifo0: pop_spec(old(self)@.fifo0).0, ..old(self)@ }) && r
                == pop_spec(old(self)@.fifo0).1,
            index == 1 ==> final(self)@ == (ChipView { fifo1: pop_spec(old(self)@.fifo1).0, ..old(self)@ }) && r
                == pop_spec(old(self)@.fifo1).1,
    {
        let popped = if index == 0 {
            self.gamepad_fifo_0.pop()
        } else {
            self.gamepad_fifo_1.pop()
        };
        match popped {
            Some(v) => v,
            None => 0,
        }
    }

    pub fn int_request(&self) -> (r: bool)
        ensures
            r == self.int_flag,
    {
        self.int_flag
    }

    /// A CPU read of register `addr` (the low byte of 0x40xx): channel
    /// enables (0x15) or the next bit of a controller (0x16, 0x17).
    pub fn get_reg(&mut self, addr: usize) -> (r: u8)
        ensures
            (final(self)@, r) == chip_get_spec(old(self)@, addr),
    {
        if addr == 0x15 {
            let p1: u8 = if self.pulse1.get_enabled() { 1 } else { 0 };
            let p2: u8 = if self.pulse2.get_enabled() { 1 } else { 0 };
            let tr: u8 = if self.triangle.get_enabled() { 1 } else { 0 };
            p1 | (p2 << 1u8) | (tr << 1u8)
        } else if addr == 0x16 {
            self.read_game_pad(0)
        } else if addr == 0x17 {
            self.read_game_pad(1)
        } else {
            0
        }
    }

    fn load_fifo(fifo: &mut Vec<u8>, state: GamepadState)
        ensures
            final(fifo)@ == serialise_spec(state),
    {
        fifo.clear();
        let bytes = state.serialise();
        let mut i: usize = 0;
        while i < 8
            invariant
                0 <= i <= 8,
                bytes@ == serialise_spec(state),
                fifo@ == bytes@.take(i as int),
            decreases 8 - i,
        {
            fifo.push(bytes[i]);
            i = i + 1;
            assert(fifo@ =~= bytes@.take(i as int));
        }
        assert(bytes@.take(8) =~= bytes@);
    }

    /// A CPU write of `val` to register `addr` (the low byte of 0x40xx).
    pub fn set_reg(&mut self, addr: usize, val: u8)
        ensures
            final(self)@ == chip_set_spec(old(self)@, addr, val),
    {
        assert(addr & 0x3 < 4) by (bit_vector);
        if addr < 0x04 {
            self.pulse1.set_reg(addr & 0x3, val);
        } else if addr < 0x08 {
            self.pulse2.set_reg(addr & 0x3, val);
        } else if addr == 0x15 {
            self.pulse1.set_enabled(val & 0x01 != 0);
            self.pulse2.set_enabled(val & 0x02 != 0);
            self.triangle.set_enabled(val & 0x04 != 0);
        } else if addr < 0x0c {
            self.triangle.set_reg(addr & 0x3, val);
        } else if addr == 0x16 {
            // Controller strobe
            if val & 0x01 != 0 {
                if self.active_gamepads.len() > 0 {
                    let state = self.active_gamepads[0].1;
                    Self::load_fifo(&mut self.gamepad_fifo_0, state);
                }
                if self.active_gamepads.len() > 1 {
                    let state = self.active_gamepads[1].1;
                    Self::load_fifo(&mut self.gamepad_fifo_1, state);
                }
            }
        } else if addr == 0x17 {
            self.seq_mode = 0x80 & val != 0;
            self.int_flag = 0x40 & val != 0;
            // Clear the interrupt if interrupt inhibit is set
            if self.int_flag {
                self.int_set = false;
            }
        }
    }
}

/// What `n` successive CPU reads of register `addr` give, in order.
pub open spec fn register_reads(c: ChipView, addr: usize, n: nat) -> Seq<u8>
    decreases n,
{
    if n == 0 {
        Seq::empty()
    } else {
        seq![chip_get_spec(c, addr).1] + register_reads(chip_get_spec(c, addr).0, addr, (n - 1) as nat)
    }
}

/// Reading the first controller port empties its buffer from the back, one
/// byte per read, then gives 0.
proof fn lemma_fifo_reads(c: ChipView, f: Seq<u8>)
    ensures
        register_reads(ChipView { fifo0: f, ..c }, 0x16, f.len() + 1) == f.reverse() + seq![0u8],
    decreases f.len(),
{
    let cf = ChipView { fifo0: f, ..c };
    if f.len() == 0 {
        reveal_with_fuel(register_reads, 2);
        assert(f.reverse() + seq![0u8] =~= seq![0u8]);
        assert(register_reads(cf, 0x16, 1) =~= seq![0u8]);
    } else {
        lemma_fifo_reads(c, f.drop_last());
        assert(chip_get_spec(cf, 0x16).0 == ChipView { fifo0: f.drop_last(), ..c });
        assert(f.reverse() + seq![0u8] =~= seq![f.last()] + (f.drop_last().reverse() + seq![0u8]));
    }
}

/// After a strobe (a write to 0x4016 with bit 0 set), the first controller
/// port reads out the first connected controller's buttons one per read, in
/// the order A, B, Select, Start, Up, Down, Left, Right, each as 1 when
/// pressed; further reads give 0.
pub proof fn lemma_controller_read_order(c: ChipView, val: u8)
    requires
        c.gamepads.len() > 0,
        val & 0x01 != 0,
    ensures
        ({
            let g = c.gamepads[0].1;
            register_reads(chip_set_spec(c, 0x16, val), 0x16, 9) == seq![
                bit(g.a),
                bit(g.b),
                bit(g.select),
                bit(g.start),
                bit(g.up),
                bit(g.down),
                bit(g.left),
                bit(g.right),
                0u8,
            ]
        }),
{
    let s = strobe_spec(c);
    assert(chip_set_spec(c, 0x16, val) == s);
    let f = serialise_spec(c.gamepads[0].1);
    lemma_fifo_reads(s, f);
    assert(ChipView { fifo0: f, ..s } == s);
}

/// A whole frame of the frame sequencer, from step 1 back to step 1: in
/// four-step mode four steps wait 14914 APU cycles in all and raise the
/// frame interrupt; in five-step mode five steps wait 18640 APU cycles and
/// leave the interrupt as it was.
pub proof fn lemma_frame_period(c: ChipView)
    requires
        c.sequencer_step == 1,
    ensures
        ({
            let (c1, w1) = sequencer_spec(c);
            let (c2, w2) = sequencer_spec(c1);
            let (c3, w3) = sequencer_spec(c2);
            let (c4, w4) = sequencer_spec(c3);
            let (c5, w5) = sequencer_spec(c4);
            &&& !c.seq_mode ==> w1 + w2 + w3 + w4 == 14914 * APU_CYCLE && c4.sequencer_step == 1 && c4.int_set
                && c4.seq_mode == c.seq_mode
            &&& c.seq_mode ==> w1 + w2 + w3 + w4 + w5 == 18640 * APU_CYCLE && c5.sequencer_step == 1 && c5.int_set
                == c.int_set && c5.seq_mode == c.seq_mode
        }),
{
}

/// A length counter after `n` clocks: it counts down to zero when enabled
/// and not halted, and holds otherwise.
pub open spec fn counted_down(l: length_counter::LengthCounter, n: int) -> int {
    if l.enabled && !l.halt {
        if l.length >= n {
            l.length - n
        } else {
            0
        }
    } else {
        l.length as int
    }
}

/// The length counters over a whole frame of the frame sequencer, from step
/// 1 back to step 1, in either mode: the triangle's gets the two half-frame
/// clocks; each pulse channel's gets those two and, since the pulse
/// channels' quarter-frame clock also clocks their length counters, four
/// more. Enabled and halt flags stay.
pub proof fn lemma_frame_length_clocks(c: ChipView)
    requires
        c.sequencer_step == 1,
    ensures
        ({
            let (c1, w1) = sequencer_spec(c);
            let (c2, w2) = sequencer_spec(c1);
            let (c3, w3) = sequencer_spec(c2);
            let (c4, w4) = sequencer_spec(c3);
            let (c5, w5) = sequencer_spec(c4);
            let end = if c.seq_mode { c5 } else { c4 };
            &&& end.sequencer_step == 1
            &&& end.triangle.length_counter.length == counted_down(c.triangle.length_counter, 2)
            &&& end.pulse1.length_counter.length == counted_down(c.pulse1.length_counter, 6)
            &&& end.pulse2.length_counter.length == counted_down(c.pulse2.length_counter, 6)
            &&& end.triangle.length_counter.enabled == c.triangle.length_counter.enabled
            &&& end.triangle.length_counter.halt == c.triangle.length_counter.halt
            &&& end.pulse1.length_counter.enabled == c.pulse1.length_counter.enabled
            &&& end.pulse1.length_counter.halt == c.pulse1.length_counter.halt
            &&& end.pulse2.length_counter.enabled == c.pulse2.length_counter.enabled
            &&& end.pulse2.length_counter.halt == c.pulse2.length_counter.halt
        }),
{
}

} // verus!
