use vstd::prelude::*;
use std::collections::VecDeque;

verus! {

/// The buttons of a controller and whether each is held.
#[derive(Clone, Copy, Debug, PartialEq, Eq, Structural)]
pub struct GamepadState {
    pub a: bool,
    pub b: bool,
    pub select: bool,
    pub start: bool,
    pub up: bool,
    pub down: bool,
    pub left: bool,
    pub right: bool,
}

/// A controller button.
#[derive(Clone, Copy, Debug, PartialEq, Eq, Structural)]
pub enum Button {
    A,
    B,
    Select,
    Start,
    Up,
    Down,
    Left,
    Right,
}

/// A keyboard key as the emulator tells keys apart.
#[derive(Clone, Copy, Debug, PartialEq, Eq, Structural)]
pub enum Key {
    W,
    A,
    S,
    D,
    U,
    I,
    J,
    K,
    Other,
}

pub open spec fn bit(b: bool) -> u8 {
    if b {
        1
    } else {
        0
    }
}

/// The order in which the controller's shift register reports buttons,
/// last first: the bytes are popped from the end, so A is read first.
pub open spec fn serialise_spec(g: GamepadState) -> Seq<u8> {
    seq![bit(g.right), bit(g.left), bit(g.down), bit(g.up), bit(g.start), bit(g.select), bit(g.b), bit(g.a)]
}

/// The state with one button set to `pressed`.
pub open spec fn with_button(g: GamepadState, button: Button, pressed: bool) -> GamepadState {
    match button {
        Button::A => GamepadState { a: pressed, ..g },
        Button::B => GamepadState { b: pressed, ..g },
        Button::Select => GamepadState { select: pressed, ..g },
        Button::Start => GamepadState { start: pressed, ..g },
        Button::Up => GamepadState { up: pressed, ..g },
        Button::Down => GamepadState { down: pressed, ..g },
        Button::Left => GamepadState { left: pressed, ..g },
        Button::Right => GamepadState { right: pressed, ..g },
    }
}

/// The keyboard layout: WASD for the directions, U select, I start, J A,
/// K B.
pub open spec fn key_button(key: Key) -> Option<Button> {
    match key {
        Key::W => Some(Button::Up),
        Key::A => Some(Button::Left),
        Key::S => Some(Button::Down),
        Key::D => Some(Button::Right),
        Key::U => Some(Button::Select),
        Key::I => Some(Button::Start),
        Key::J => Some(Button::A),
        Key::K => Some(Button::B),
        Key::Other => None,
    }
}

impl GamepadState {
    /// No button held.
    pub fn new() -> (r: Self)
        ensures
            r == (GamepadState {
                a: false,
                b: false,
                select: false,
                start: false,
                up: false,
                down: false,
                left: false,
                right: false,
            }),
    {
        GamepadState {
            a: false,
            b: false,
            select: false,
            start: false,
            up: false,
            down: false,
            left: false,
            right: false,
        }
    }

    /// The buttons as the bytes the CPU reads from the controller port, in
    /// the order they are popped from the back.
    pub fn serialise(&self) -> (r: [u8; 8])
        ensures
            r@ == serialise_spec(*self),
    {
        let r = [
            self.right as u8,
            self.left as u8,
            self.down as u8,
            self.up as u8,
            self.start as u8,
            self.select as u8,
            self.b as u8,
            self.a as u8,
        ];
        assert(r@ =~= serialise_spec(*self));
        r
    }

    pub fn set_button(&mut self, button: Button, pressed: bool)
        ensures
            *final(self) == with_button(*old(self), button, pressed),
    {
        match button {
            Button::A => self.a = pressed,
            Button::B => self.b = pressed,
            Button::Select => self.select = pressed,
            Button::Start => self.start = pressed,
            Button::Up => self.up = pressed,
            Button::Down => self.down = pressed,
            Button::Left => self.left = pressed,
            Button::Right => self.right = pressed,
        }
    }
}

pub fn key_to_button(key: Key) -> (r: Option<Button>)
    ensures
        r == key_button(key),
{
    match key {
        Key::W => Some(Button::Up),
        Key::A => Some(Button::Left),
        Key::S => Some(Button::Down),
        Key::D => Some(Button::Right),
        Key::U => Some(Button::Select),
        Key::I => Some(Button::Start),
        Key::J => Some(Button::A),
        Key::K => Some(Button::B),
        Key::Other => None,
    }
}


/// A change reported for a controller. Button and axis values are rounded
/// by the input side: a button is pressed when its value rounds to 1, an
/// axis direction is the sign of its rounded value.
#[derive(Clone, Copy, Debug, PartialEq, Eq, Structural)]
pub enum GamepadEvent {
    Connected,
    Disconnected,
    ButtonChanged { code: u32, pressed: bool },
    AxisChanged { code: u32, direction: i8 },
    Other,
}

/// Button code of A on the supported controller.
pub const CODE_A: u32 = 0x90002;
/// Button code of B.
pub const CODE_B: u32 = 0x90003;
/// Button code of Start.
pub const CODE_START: u32 = 0x90009;
/// Button code of Select.
pub const CODE_SELECT: u32 = 0x9000a;
/// Axis code of the left/right axis.
pub const CODE_X_AXIS: u32 = 0x10030;
/// Axis code of the up/down axis.
pub const CODE_Y_AXIS: u32 = 0x10031;

/// The connected controllers with their ids, in port order.
pub struct GamepadList {
    pub pads: VecDeque<(usize, GamepadState)>,
}

/// The first position of controller `id` in `pads`.
pub open spec fn position_spec(pads: Seq<(usize, GamepadState)>, id: usize) -> Option<usize> {
    if exists|i: int| 0 <= i < pads.len() && pads[i].0 == id {
        let i = choose|i: int| 0 <= i < pads.len() && pads[i].0 == id && forall|j: int| 0 <= j < i ==> pads[j].0 != id;
        Some(i as usize)
    } else {
        None
    }
}

/// A controller's state after a button change: the four buttons the
/// controller reports by code; others are ignored.
pub open spec fn button_event(g: GamepadState, code: u32, pressed: bool) -> GamepadState {
    if code == CODE_A {
        GamepadState { a: pressed, ..g }
    } else if code == CODE_B {
        GamepadState { b: pressed, ..g }
    } else if code == CODE_START {
        GamepadState { start: pressed, ..g }
    } else if code == CODE_SELECT {
        GamepadState { select: pressed, ..g }
    } else {
        g
    }
}

/// A controller's state after an axis change: a direction holds one of the
/// two opposite buttons, or neither when centred.
pub open spec fn axis_event(g: GamepadState, code: u32, direction: i8) -> GamepadState {
    if code == CODE_X_AXIS {
        GamepadState { right: direction > 0, left: direction < 0, ..g }
    } else if code == CODE_Y_AXIS {
        GamepadState { up: direction > 0, down: direction < 0, ..g }
    } else {
        g
    }
}

/// The controller list after an event from controller `id`: a known
/// controller is removed on disconnection or updated; an unknown one is
/// added at the back when it connects.
pub open spec fn apply_event_spec(pads: Seq<(usize, GamepadState)>, id: usize, event: GamepadEvent) -> Seq<
    (usize, GamepadState),
> {
    match position_spec(pads, id) {
        Some(pos) => match event {
            GamepadEvent::Disconnected => pads.remove(pos as int),
            GamepadEvent::ButtonChanged { code, pressed } => pads.update(
                pos as int,
                (pads[pos as int].0, button_event(pads[pos as int].1, code, pressed)),
            ),
            GamepadEvent::AxisChanged { code, direction } => pads.update(
                pos as int,
                (pads[pos as int].0, axis_event(pads[pos as int].1, code, direction)),
            ),
            _ => pads,
        },
        None => match event {
            GamepadEvent::Connected => pads.push((id, GamepadState::new_spec())),
            _ => pads,
        },
    }
}

impl GamepadState {
    pub open spec fn new_spec() -> GamepadState {
        GamepadState {
            a: false,
            b: false,
            select: false,
            start: false,
            up: false,
            down: false,
            left: false,
            right: false,
        }
    }
}

impl GamepadList {
    pub fn new() -> (r: Self)
        ensures
            r.pads@ == Seq::<(usize, GamepadState)>::empty(),
    {
        GamepadList { pads: VecDeque::new() }
    }

    /// Where controller `id` is in the list.
    pub fn position(&self, id: usize) -> (r: Option<usize>)
        ensures
            r == position_spec(self.pads@, id),
            r matches Some(i) ==> i < self.pads@.len() && self.pads@[i as int].0 == id,
    {
        let mut i: usize = 0;
        while i < self.pads.len()
            invariant
                0 <= i <= self.pads@.len(),
                forall|j: int| 0 <= j < i ==> self.pads@[j].0 != id,
            decreases self.pads@.len() - i,
        {
            if self.pads[i].0 == id {
                proof {
                    let k = choose|k: int|
                        0 <= k < self.pads@.len() && self.pads@[k].0 == id && forall|j: int|
                            0 <= j < k ==> self.pads@[j].0 != id;
                    assert(0 <= k < self.pads@.len() && self.pads@[k].0 == id && forall|j: int|
                        0 <= j < k ==> self.pads@[j].0 != id) by {
                        assert(0 <= i < self.pads@.len() && self.pads@[i as int].0 == id && forall|j: int|
                            0 <= j < i ==> self.pads@[j].0 != id);
                    }
                    if k < i {
                    } else if k > i {
                        assert(self.pads@[i as int].0 != id);
                    }
                }
                return Some(i);
            }
            i = i + 1;
        }
        None
    }

    /// Replaces the controller at `pos`.
    fn replace(&mut self, pos: usize, pad: (usize, GamepadState))
        requires
            pos < old(self).pads@.len(),
        ensures
            final(self).pads@ == old(self).pads@.update(pos as int, pad),
    {
        let _ = self.pads.remove(pos);
        self.pads.insert(pos, pad);
        assert(old(self).pads@.remove(pos as int).insert(pos as int, pad) =~= old(self).pads@.update(pos as int, pad));
    }

    /// Applies a controller event (the body of the controller thread).
    pub fn apply_event(&mut self, id: usize, event: GamepadEvent)
        ensures
            final(self).pads@ == apply_event_spec(old(self).pads@, id, event),
    {
        match self.position(id) {
            Some(pos) => match event {
                GamepadEvent::Disconnected => {
                    let _ = self.pads.remove(pos);
                },
                GamepadEvent::ButtonChanged { code, pressed } => {
                    let (pad_id, mut state) = self.pads[pos];
                    if code == CODE_A {
                        state.a = pressed;
                    } else if code == CODE_B {
                        state.b = pressed;
                    } else if code == CODE_START {
                        state.start = pressed;
                    } else if code == CODE_SELECT {
                        state.select = pressed;
                    }
                    self.replace(pos, (pad_id, state));
                },
                GamepadEvent::AxisChanged { code, direction } => {
                    let (pad_id, mut state) = self.pads[pos];
                    if code == CODE_X_AXIS {
                        if direction > 0 {
                            state.right = true;
                            state.left = false;
                        } else if direction < 0 {
                            state.right = false;
                            state.left = true;
                        } else {
                            state.right = false;
                            state.left = false;
                        }
                    } else if code == CODE_Y_AXIS {
                        if direction > 0 {
                            state.up = true;
                            state.down = false;
                        } else if direction < 0 {
                            state.up = false;
                            state.down = true;
                        } else {
                            state.up = false;
                            state.down = false;
                        }
                    }
                    self.replace(pos, (pad_id, state));
                },
                _ => {},
            },
            None => match event {
                GamepadEvent::Connected => {
                    self.pads.push_back((id, GamepadState::new()));
                },
                _ => {},
            },
        }
    }
}

/// The keyboard as controller 0.
pub struct KeyboardManager;

impl KeyboardManager {
    /// Puts a keyboard controller with id 0 at the front of the list.
    pub fn new(gamepads: &mut GamepadList) -> (r: Self)
        ensures
            final(gamepads).pads@ == seq![(0usize, GamepadState::new_spec())] + old(gamepads).pads@,
    {
        gamepads.pads.push_front((0, GamepadState::new()));
        assert(gamepads.pads@ =~= seq![(0usize, GamepadState::new_spec())] + old(gamepads).pads@);
        KeyboardManager
    }

    /// A key press or release: a mapped key sets its button on the first
    /// controller.
    pub fn handle_key_event(&self, gamepads: &mut GamepadList, key: Key, pressed: bool)
        requires
            old(gamepads).pads@.len() > 0,
        ensures
            final(gamepads).pads@ == match key_button(key) {
                Some(b) => old(gamepads).pads@.update(
                    0,
                    (old(gamepads).pads@[0].0, with_button(old(gamepads).pads@[0].1, b, pressed)),
                ),
                None => old(gamepads).pads@,
            },
    {
        if let Some(button) = key_to_button(key) {
            let (id, mut gamepad) = gamepads.pads[0];
            gamepad.set_button(button, pressed);
            gamepads.replace(0, (id, gamepad));
        }
        assert(key_button(key) is None ==> gamepads.pads@ =~= old(gamepads).pads@);
    }
}

/// The controllers the machine sees, and the keyboard when it stands in as
/// the first of them. Without the keyboard, controllers come and go through
/// `GamepadList::apply_event`.
pub struct InputManager {
    pub gamepads: GamepadList,
    pub keyboard_manager: Option<KeyboardManager>,
}

impl InputManager {
    /// With the keyboard, the list starts with the keyboard's controller;
    /// without it, the list starts empty.
    pub fn new(use_keyboard: bool) -> (r: Self)
        ensures
            use_keyboard ==> r.keyboard_manager is Some && r.gamepads.pads@ == seq![(0usize, GamepadState::new_spec())],
            !use_keyboard ==> r.keyboard_manager is None && r.gamepads.pads@ == Seq::<(usize, GamepadState)>::empty(),
    {
        let mut gamepads = GamepadList::new();
        let keyboard_manager = if use_keyboard {
            Some(KeyboardManager::new(&mut gamepads))
        } else {
            None
        };
        assert(use_keyboard ==> gamepads.pads@ =~= seq![(0usize, GamepadState::new_spec())]);
        InputManager { gamepads, keyboard_manager }
    }

    /// A key press or release, which reaches the first controller when the
    /// keyboard stands in for it and is ignored otherwise.
    pub fn handle_key_event(&mut self, key: Key, pressed: bool)
        requires
            old(self).keyboard_manager is Some ==> old(self).gamepads.pads@.len() > 0,
        ensures
            final(self).keyboard_manager == old(self).keyboard_manager,
            old(self).keyboard_manager is None ==> final(self).gamepads.pads@ == old(self).gamepads.pads@,
            old(self).keyboard_manager is Some ==> final(self).gamepads.pads@ == match key_button(key) {
                Some(b) => old(self).gamepads.pads@.update(
                    0,
                    (old(self).gamepads.pads@[0].0, with_button(old(self).gamepads.pads@[0].1, b, pressed)),
                ),
                None => old(self).gamepads.pads@,
            },
    {
        if let Some(keyboard_manager) = &self.keyboard_manager {
            keyboard_manager.handle_key_event(&mut self.gamepads, key, pressed);
        }
    }

    /// The connected controllers, in port order.
    pub fn get_gamepads(&self) -> (r: Vec<(usize, GamepadState)>)
        ensures
            r@ == self.gamepads.pads@,
    {
        let mut r: Vec<(usize, GamepadState)> = Vec::new();
        let mut i: usize = 0;
        while i < self.gamepads.pads.len()
            invariant
                0 <= i <= self.gamepads.pads@.len(),
                r@ == self.gamepads.pads@.take(i as int),
            decreases self.gamepads.pads@.len() - i,
        {
            r.push(self.gamepads.pads[i]);
            i = i + 1;
            assert(r@ =~= self.gamepads.pads@.take(i as int));
        }
        assert(self.gamepads.pads@.take(i as int) =~= self.gamepads.pads@);
        r
    }
}

/// No controller id occurs twice in the list.
pub open spec fn ids_unique(pads: Seq<(usize, GamepadState)>) -> bool {
    forall|i: int, j: int| 0 <= i < j < pads.len() ==> #[trigger] pads[i].0 != #[trigger] pads[j].0
}

/// The position of a controller in a list without repeated ids.
proof fn lemma_position_unique(pads: Seq<(usize, GamepadState)>, id: usize, k: int)
    requires
        ids_unique(pads),
        0 <= k < pads.len(),
        pads[k].0 == id,
    ensures
        position_spec(pads, id) == Some(k as usize),
{
    let i = choose|i: int| 0 <= i < pads.len() && pads[i].0 == id && forall|j: int| 0 <= j < i ==> pads[j].0 != id;
    assert(0 <= k < pads.len() && pads[k].0 == id && forall|j: int| 0 <= j < k ==> pads[j].0 != id);
    if i != k {
        if i < k {
            assert(pads[i].0 != pads[k].0);
        } else {
            assert(pads[k].0 != pads[i].0);
        }
    }
}

/// Controller events never make an id occur twice: a controller is added
/// only when its id is not yet in the list.
pub proof fn lemma_apply_event_ids_unique(pads: Seq<(usize, GamepadState)>, id: usize, event: GamepadEvent)
    requires
        ids_unique(pads),
    ensures
        ids_unique(apply_event_spec(pads, id, event)),
{
    let r = apply_event_spec(pads, id, event);
    match position_spec(pads, id) {
        Some(pos) => {
            let i0 = choose|i: int| 0 <= i < pads.len() && pads[i].0 == id && forall|j: int| 0 <= j < i ==> pads[j].0 != id;
            assert(0 <= i0 < pads.len());
            match event {
                GamepadEvent::Disconnected => {
                    assert forall|i: int, j: int| 0 <= i < j < r.len() implies #[trigger] r[i].0 != #[trigger] r[j].0 by {
                        let a = if i < pos { i } else { i + 1 };
                        let b = if j < pos { j } else { j + 1 };
                        assert(r[i] == pads[a]);
                        assert(r[j] == pads[b]);
                        assert(pads[a].0 != pads[b].0);
                    }
                },
                _ => {
                    assert forall|i: int, j: int| 0 <= i < j < r.len() implies #[trigger] r[i].0 != #[trigger] r[j].0 by {
                        assert(r[i].0 == pads[i].0);
                        assert(r[j].0 == pads[j].0);
                    }
                },
            }
        },
        None => {
            match event {
                GamepadEvent::Connected => {
                    assert forall|i: int, j: int| 0 <= i < j < r.len() implies #[trigger] r[i].0 != #[trigger] r[j].0 by {
                        if j == pads.len() {
                            assert(r[i] == pads[i]);
                            if pads[i].0 == id {
                                assert(exists|k: int| 0 <= k < pads.len() && pads[k].0 == id);
                            }
                        } else {
                            assert(r[i] == pads[i] && r[j] == pads[j]);
                        }
                    }
                },
                _ => {},
            }
        },
    }
}

/// A controller that connects and then disconnects leaves the list as it
/// was.
pub proof fn lemma_connect_then_disconnect(pads: Seq<(usize, GamepadState)>, id: usize)
    requires
        ids_unique(pads),
        position_spec(pads, id) is None,
        pads.len() < usize::MAX,
    ensures
        apply_event_spec(apply_event_spec(pads, id, GamepadEvent::Connected), id, GamepadEvent::Disconnected) == pads,
{
    let p1 = apply_event_spec(pads, id, GamepadEvent::Connected);
    assert(p1 == pads.push((id, GamepadState::new_spec())));
    lemma_apply_event_ids_unique(pads, id, GamepadEvent::Connected);
    lemma_position_unique(p1, id, pads.len() as int);
    assert(p1.remove(pads.len() as int) =~= pads);
}
} // verus!
