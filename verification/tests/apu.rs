use rnes::chip::envelope::Envelope;
use rnes::chip::length_counter::LengthCounter;
use rnes::chip::noise::Noise;
use rnes::chip::pulse::{Pulse, PulseSample};
use rnes::chip::sweep::Sweep;
use rnes::chip::triangle::{Triangle, TriangleSample};
use rnes::chip::{Chip, APU_CYCLE};
use rnes::input::GamepadState;

fn pad(a: bool, b: bool, select: bool, start: bool, up: bool, down: bool, left: bool, right: bool) -> GamepadState {
    GamepadState { a, b, select, start, up, down, left, right }
}

#[test]
fn controller_reads_in_button_order() {
    let mut chip = Chip::new();
    chip.set_gamepads(vec![(0, pad(true, false, true, false, false, true, false, true))]);
    chip.set_reg(0x16, 1);
    let reads: Vec<u8> = (0..9).map(|_| chip.get_reg(0x16)).collect();
    assert_eq!(reads, vec![1, 0, 1, 0, 0, 1, 0, 1, 0]);
}

#[test]
fn second_controller_port() {
    let mut chip = Chip::new();
    chip.set_gamepads(vec![
        (0, GamepadState::new()),
        (7, pad(false, true, false, false, false, false, false, false)),
    ]);
    chip.set_reg(0x16, 1);
    assert_eq!(chip.get_reg(0x17), 0);
    assert_eq!(chip.get_reg(0x17), 1);
}

#[test]
fn strobe_without_bit_zero_loads_nothing() {
    let mut chip = Chip::new();
    chip.set_gamepads(vec![(0, pad(true, true, true, true, true, true, true, true))]);
    chip.set_reg(0x16, 0);
    assert_eq!(chip.get_reg(0x16), 0);
}

#[test]
fn four_step_frame_sequence() {
    let mut chip = Chip::new();
    // The first call starts the sequence.
    assert_eq!(chip.clock_sequencer(), 3728 * APU_CYCLE);
    let waits: Vec<u64> = (0..4).map(|_| chip.clock_sequencer()).collect();
    assert_eq!(waits.iter().sum::<u64>(), 14914 * APU_CYCLE);
    // The interrupt request follows bit 6 of register 0x17.
    assert!(!chip.int_request());
    chip.set_reg(0x17, 0x40);
    assert!(chip.int_request());
}

#[test]
fn five_step_frame_sequence() {
    let mut chip = Chip::new();
    chip.set_reg(0x17, 0x80);
    chip.clock_sequencer();
    let waits: Vec<u64> = (0..5).map(|_| chip.clock_sequencer()).collect();
    assert_eq!(waits, vec![3728 * 6, 3729 * 6, 3729 * 6, 3726 * 6, 3728 * 6]);
    assert_eq!(waits.iter().sum::<u64>(), 18640 * APU_CYCLE);
}

#[test]
fn status_register_reports_enabled_channels() {
    let mut chip = Chip::new();
    chip.set_reg(0x15, 0x03);
    assert_eq!(chip.get_reg(0x15), 0x03);
    chip.set_reg(0x15, 0x04);
    // The triangle's bit lands on bit 1.
    assert_eq!(chip.get_reg(0x15), 0x02);
    assert_eq!(chip.get_reg(0x18), 0);
}

#[test]
fn length_counter_loads_and_counts() {
    let mut l = LengthCounter::new();
    l.set(0x01);
    assert!(!l.unmuted());
    l.set_enabled(true);
    l.set(0x01);
    assert!(l.unmuted());
    assert_eq!(l.length, 254);
    l.tick();
    assert_eq!(l.length, 253);
    l.halt = true;
    l.tick();
    assert_eq!(l.length, 253);
    l.set(0x23);
    assert_eq!(l.length, 2);
    l.halt = false;
    l.tick();
    l.tick();
    l.tick();
    assert_eq!(l.length, 0);
    assert!(l.get_enabled());
}

#[test]
fn envelope_decays_and_loops() {
    let mut e = Envelope::new();
    e.set_volume(0x12);
    assert_eq!(e.volume, 2);
    e.set_start();
    e.tick();
    assert_eq!(e.decay, 15);
    assert_eq!(e.divider, 2);
    e.tick();
    e.tick();
    assert_eq!(e.decay, 15);
    e.tick();
    assert_eq!(e.decay, 14);
    assert_eq!(e.output_level(), 14);
    e.set_constant_vol(true);
    assert_eq!(e.output_level(), 2);
    let mut e = Envelope::new();
    e.loop_flag = true;
    e.tick();
    assert_eq!(e.decay, 15);
}

#[test]
fn sweep_moves_period() {
    let mut s = Sweep::new();
    s.set_timer_lower(0x00);
    s.set_timer_upper(0x01);
    assert_eq!(s.get_timer(), 0x100);
    // Enabled, reload 0, shift 1: the period grows by half each clock.
    s.set_reg(0x81);
    assert!(s.unmuted());
    s.tick();
    assert_eq!(s.get_timer(), 0x180);
    s.tick();
    assert_eq!(s.get_timer(), 0x240);
    // Negated: shrinks by half.
    s.set_reg(0x89);
    s.tick();
    assert_eq!(s.get_timer(), 0x120);
    // Disabled: stays.
    s.set_reg(0x01);
    s.tick();
    assert_eq!(s.get_timer(), 0x120);
}

#[test]
fn sweep_mutes_on_small_or_overflowing_period() {
    let mut s = Sweep::new();
    s.set_timer_lower(0x07);
    assert!(!s.unmuted());
    s.set_timer_lower(0xff);
    s.set_timer_upper(0x07);
    assert!(!s.unmuted());
}

#[test]
fn pulse_outputs_its_duty_cycle() {
    let mut p = Pulse::new(1, false);
    p.set_enabled(true);
    // Duty 50%, constant volume 9.
    p.set_reg(0, 0x99);
    p.set_reg(2, 0x20);
    p.set_reg(3, 0x08);
    let mut duty = Vec::new();
    for _ in 0..8 {
        let (sample, wait) = p.next_output().unwrap();
        let s: PulseSample = sample.unwrap();
        assert_eq!(s.level, 9);
        assert_eq!(s.period_cycles, 0x42);
        assert_eq!(wait, 0x21 * 2 * 3);
        duty.push(s.duty_on);
    }
    assert_eq!(duty, vec![false, true, true, true, true, false, false, false]);
    assert_eq!(p.output_i, 0);
}

#[test]
fn pulse_silent_when_disabled_or_short_period() {
    let mut p = Pulse::new(2, false);
    p.set_reg(2, 0x20);
    let (sample, wait) = p.next_output().unwrap();
    assert!(sample.is_none());
    assert_eq!(wait, 0x21 * 6);
    let mut p = Pulse::new(2, false);
    p.set_enabled(true);
    p.set_reg(3, 0x08);
    p.set_reg(2, 0x07);
    assert!(p.next_output().unwrap().0.is_none());
}

#[test]
fn triangle_walks_its_sequence() {
    let mut t = Triangle::new(false);
    t.set_enabled(true);
    t.set_reg(0, 0x7f);
    t.set_reg(2, 0x40);
    t.set_reg(3, 0x08);
    t.tick_linear_counter();
    assert_eq!(t.counter, 0x7f);
    let mut levels = Vec::new();
    for _ in 0..32 {
        let (sample, wait) = t.next_output().unwrap();
        let s: TriangleSample = sample.unwrap();
        assert_eq!(s.timer_cycles, 0x41);
        assert_eq!(wait, 0x41 * 3);
        levels.push(s.level);
    }
    let expected: Vec<u8> = (0..16).rev().chain(0..16).collect();
    assert_eq!(levels, expected);
}

#[test]
fn triangle_linear_counter_counts_down() {
    let mut t = Triangle::new(false);
    t.set_reg(0, 0x02);
    t.set_reg(3, 0x00);
    t.tick_linear_counter();
    assert_eq!(t.counter, 2);
    t.tick_linear_counter();
    t.tick_linear_counter();
    t.tick_linear_counter();
    assert_eq!(t.counter, 0);
    assert!(t.next_output().unwrap().0.is_none());
}

#[test]
fn noise_registers_and_tick() {
    let mut n = Noise::new(false);
    n.set_reg(0, 0x3f);
    assert!(n.length_counter.halt);
    assert_eq!(n.envelope.volume, 0x0f);
    n.set_reg(2, 0x8a);
    assert!(n.mode);
    assert_eq!(n.timer, 0x0a);
    n.length_counter.set_enabled(true);
    n.set_reg(3, 0x08);
    assert_eq!(n.length_counter.length, 254);
    assert!(n.envelope.start);
    assert!(n.tick());
}
