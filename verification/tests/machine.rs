use rnes::clock::{Clock, CycleDelay, Sleeper};
use rnes::input::{Button, GamepadEvent, GamepadList, GamepadState, InputManager, Key, KeyboardManager, CODE_A, CODE_SELECT, CODE_START, CODE_X_AXIS, CODE_Y_AXIS};
use rnes::system::Fault;
use rnes::system_control::SystemControl;

#[test]
fn clock_starts_at_cpu_start_cycle() {
    let clock = Clock::new();
    assert_eq!(clock.current_cycle, 21);
    assert_eq!(clock.last_catchup_cycle, 0);
}

#[test]
fn registered_task_wakes_on_its_cycle() {
    let mut clock = Clock::new();
    let delay = CycleDelay::new(&clock, 3, false).unwrap();
    assert_eq!(delay.until, 24);
    assert!(!delay.poll(&mut clock, 7));
    assert!(clock.tick().unwrap().is_empty());
    assert!(clock.tick().unwrap().is_empty());
    let woken = clock.tick().unwrap();
    assert_eq!(woken.len(), 1);
    assert_eq!(woken[0].task, 7);
    assert_eq!(woken[0].catchup_cycles, None);
    assert!(delay.poll(&mut clock, 7));
}

#[test]
fn wakeups_keep_registration_order_and_catch_up() {
    let mut clock = Clock::new();
    clock.register(22, Sleeper { task: 1, catchup: true, frame_done: false });
    clock.register(22, Sleeper { task: 2, catchup: true, frame_done: true });
    let woken = clock.tick().unwrap();
    assert_eq!(woken.iter().map(|w| w.task).collect::<Vec<_>>(), vec![1, 2]);
    assert_eq!(woken[0].catchup_cycles, Some(22));
    assert_eq!(woken[1].catchup_cycles, Some(0));
    assert!(woken[1].frame_done);
    assert_eq!(clock.last_catchup_cycle, 22);
}

#[test]
fn frame_done_delay_is_next_cycle() {
    let clock = Clock::new();
    let d = CycleDelay::frame_done(&clock, true).unwrap();
    assert_eq!(d.until, 22);
    assert!(d.frame_done);
    assert!(!d.catchup);
}

#[test]
fn delay_past_the_end_of_time_faults() {
    let mut clock = Clock::new();
    clock.current_cycle = u64::MAX;
    assert!(matches!(CycleDelay::new(&clock, 1, false), Err(Fault::Overflow)));
    assert!(matches!(CycleDelay::frame_done(&clock, false), Err(Fault::Overflow)));
    assert!(matches!(clock.tick(), Err(Fault::Overflow)));
}

#[test]
fn pause_toggles() {
    let mut control = SystemControl::new();
    assert!(!control.wait_on_pause());
    assert!(!control.toggle_pause());
    assert!(control.wait_on_pause());
    assert!(control.toggle_pause());
    assert!(!control.wait_on_pause());
}

#[test]
fn gamepad_serialise_order() {
    let mut g = GamepadState::new();
    g.set_button(Button::A, true);
    g.set_button(Button::Right, true);
    assert_eq!(g.serialise(), [1, 0, 0, 0, 0, 0, 0, 1]);
    g.set_button(Button::A, false);
    g.set_button(Button::Up, true);
    assert_eq!(g.serialise(), [1, 0, 0, 1, 0, 0, 0, 0]);
}

#[test]
fn keyboard_drives_first_controller() {
    let mut input = InputManager::new(true);
    assert_eq!(input.get_gamepads().len(), 1);
    input.handle_key_event(Key::J, true);
    input.handle_key_event(Key::W, true);
    input.handle_key_event(Key::Other, true);
    let pads = input.get_gamepads();
    assert_eq!(pads[0].0, 0);
    assert!(pads[0].1.a && pads[0].1.up);
    assert!(!pads[0].1.b);
    input.handle_key_event(Key::J, false);
    assert!(!input.get_gamepads()[0].1.a);
}

#[test]
fn without_keyboard_keys_are_ignored() {
    let mut input = InputManager::new(false);
    input.handle_key_event(Key::J, true);
    assert!(input.get_gamepads().is_empty());
    assert!(input.keyboard_manager.is_none());
}

#[test]
fn keyboard_goes_to_the_front() {
    let mut list = GamepadList::new();
    list.apply_event(5, GamepadEvent::Connected);
    let _k = KeyboardManager::new(&mut list);
    assert_eq!(list.pads[0].0, 0);
    assert_eq!(list.pads[1].0, 5);
}

#[test]
fn controller_events() {
    let mut list = GamepadList::new();
    list.apply_event(3, GamepadEvent::Connected);
    list.apply_event(4, GamepadEvent::Connected);
    list.apply_event(3, GamepadEvent::Connected);
    assert_eq!(list.pads.len(), 2);
    list.apply_event(4, GamepadEvent::ButtonChanged { code: CODE_A, pressed: true });
    assert!(list.pads[1].1.a);
    list.apply_event(4, GamepadEvent::AxisChanged { code: CODE_X_AXIS, direction: -1 });
    assert!(list.pads[1].1.left && !list.pads[1].1.right);
    list.apply_event(4, GamepadEvent::AxisChanged { code: CODE_Y_AXIS, direction: 1 });
    assert!(list.pads[1].1.up && !list.pads[1].1.down);
    list.apply_event(4, GamepadEvent::AxisChanged { code: CODE_X_AXIS, direction: 0 });
    assert!(!list.pads[1].1.left && !list.pads[1].1.right);
    assert_eq!(list.position(4), Some(1));
    // An event of an unknown controller is ignored.
    list.apply_event(9, GamepadEvent::ButtonChanged { code: CODE_A, pressed: true });
    assert_eq!(list.pads.len(), 2);
    list.apply_event(3, GamepadEvent::Disconnected);
    assert_eq!(list.pads.len(), 1);
    assert_eq!(list.pads[0].0, 4);
    assert_eq!(list.position(3), None);
}

#[test]
fn connect_then_disconnect_restores_list() {
    let mut list = GamepadList::new();
    list.apply_event(1, GamepadEvent::Connected);
    list.apply_event(1, GamepadEvent::ButtonChanged { code: CODE_A, pressed: true });
    let before: Vec<(usize, bool)> = list.pads.iter().map(|(i, g)| (*i, g.a)).collect();
    list.apply_event(2, GamepadEvent::Connected);
    list.apply_event(2, GamepadEvent::Disconnected);
    let after: Vec<(usize, bool)> = list.pads.iter().map(|(i, g)| (*i, g.a)).collect();
    assert_eq!(before, after);
}

#[test]
fn start_and_select_codes() {
    assert_eq!(CODE_START, 0x90009);
    assert_eq!(CODE_SELECT, 0x9000a);
    let mut list = GamepadList::new();
    list.apply_event(1, GamepadEvent::Connected);
    list.apply_event(1, GamepadEvent::ButtonChanged { code: 0x90009, pressed: true });
    assert!(list.pads[0].1.start && !list.pads[0].1.select);
    list.apply_event(1, GamepadEvent::ButtonChanged { code: 0x9000a, pressed: true });
    assert!(list.pads[0].1.select);
}
