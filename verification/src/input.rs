//! Keyboard and mouse state.

use vstd::prelude::*;

verus! {

/// A key of the keyboard, named by the code that the window system gives it.
#[derive(Clone, Copy, Debug, PartialEq, Eq, Structural)]
pub struct KeyCode {
    pub code: u32,
}

/// A button of the mouse.
#[derive(Clone, Copy, Debug, PartialEq, Eq, Structural)]
pub enum MouseButton {
    Left,
    Right,
    Middle,
    Other(u16),
}

/// Whether a key or button went down or up.
#[derive(Clone, Copy, Debug, PartialEq, Eq, Structural)]
pub enum ElementState {
    Pressed,
    Released,
}

/// Where the cursor is, in window coordinates. Each coordinate is held as
/// the bits of its double-precision encoding.
#[derive(Clone, Copy, Debug, PartialEq, Eq, Structural)]
pub struct CursorPosition {
    pub x: u64,
    pub y: u64,
}

/// What the window system reports, as far as input is concerned.
#[derive(Clone, Copy, Debug, PartialEq, Eq, Structural)]
pub enum WindowEvent {
    /// A key changed its state. `key` is `None` for a key without a code.
    KeyboardInput { key: Option<KeyCode>, state: ElementState },
    /// A mouse button changed its state.
    MouseInput { button: MouseButton, state: ElementState },
    /// The cursor moved.
    CursorMoved { position: CursorPosition },
    /// Anything else.
    Other,
}

/// An input event, as the game sees it.
#[derive(Clone, Copy, Debug, PartialEq, Eq, Structural)]
pub enum InputEvent {
    KeyPressed(KeyCode),
    KeyReleased(KeyCode),
    MouseMoved { x: u64, y: u64 },
    MouseButtonPressed(MouseButton),
    MouseButtonReleased(MouseButton),
}

/// `held` after `item` went down: `item` is added unless it is there.
pub open spec fn after_press<T>(held: Seq<T>, item: T) -> Seq<T> {
    if held.contains(item) {
        held
    } else {
        held.push(item)
    }
}

/// The test for being another item than `item`.
pub open spec fn differs_from<T>(item: T) -> spec_fn(T) -> bool {
    |other: T| other != item
}

/// `held` after `item` went up: every occurrence of `item` is removed, the
/// rest keeps its order.
pub open spec fn after_release<T>(held: Seq<T>, item: T) -> Seq<T> {
    held.filter(differs_from(item))
}

/// The keys and mouse buttons that are held down, and where the cursor is.
#[derive(Debug)]
pub struct InputState {
    /// The keys that are held down, in the order in which they went down.
    pub keys_pressed: Vec<KeyCode>,
    /// The mouse buttons that are held down, in the order in which they went
    /// down.
    pub mouse_buttons: Vec<MouseButton>,
    /// Where the cursor was last seen, if it was seen.
    pub cursor_position: Option<CursorPosition>,
}

/// Whether `key` is among `keys`.
fn holds_key(keys: &Vec<KeyCode>, key: KeyCode) -> (found: bool)
    ensures
        found == keys@.contains(key),
{
    let mut i: usize = 0;
    while i < keys.len()
        invariant
            i <= keys.len(),
            forall|k: int| 0 <= k < i ==> keys@[k] != key,
        decreases keys.len() - i,
    {
        if keys[i] == key {
            return true;
        }
        i += 1;
    }
    false
}

/// Whether `button` is among `buttons`.
fn holds_button(buttons: &Vec<MouseButton>, button: MouseButton) -> (found: bool)
    ensures
        found == buttons@.contains(button),
{
    let mut i: usize = 0;
    while i < buttons.len()
        invariant
            i <= buttons.len(),
            forall|k: int| 0 <= k < i ==> buttons@[k] != button,
        decreases buttons.len() - i,
    {
        if buttons[i] == button {
            return true;
        }
        i += 1;
    }
    false
}

/// `keys` without `key`.
fn without_key(keys: &Vec<KeyCode>, key: KeyCode) -> (kept: Vec<KeyCode>)
    ensures
        kept@ == after_release(keys@, key),
{
    let mut kept: Vec<KeyCode> = Vec::new();
    let ghost differs = differs_from(key);
    let mut i: usize = 0;
    proof {
        reveal(Seq::filter);
        assert(keys@.take(0).filter(differs) =~= kept@);
    }
    while i < keys.len()
        invariant
            i <= keys.len(),
            differs == differs_from(key),
            kept@ == keys@.take(i as int).filter(differs),
        decreases keys.len() - i,
    {
        proof {
            reveal(Seq::filter);
            assert(keys@.take(i + 1).drop_last() =~= keys@.take(i as int));
        }
        if keys[i] != key {
            kept.push(keys[i]);
        }
        i += 1;
    }
    assert(keys@.take(i as int) =~= keys@);
    kept
}

/// `buttons` without `button`.
fn without_button(buttons: &Vec<MouseButton>, button: MouseButton) -> (kept: Vec<MouseButton>)
    ensures
        kept@ == after_release(buttons@, button),
{
    let mut kept: Vec<MouseButton> = Vec::new();
    let ghost differs = differs_from(button);
    let mut i: usize = 0;
    proof {
        reveal(Seq::filter);
        assert(buttons@.take(0).filter(differs) =~= kept@);
    }
    while i < buttons.len()
        invariant
            i <= buttons.len(),
            differs == differs_from(button),
            kept@ == buttons@.take(i as int).filter(differs),
        decreases buttons.len() - i,
    {
        proof {
            reveal(Seq::filter);
            assert(buttons@.take(i + 1).drop_last() =~= buttons@.take(i as int));
        }
        if buttons[i] != button {
            kept.push(buttons[i]);
        }
        i += 1;
    }
    assert(buttons@.take(i as int) =~= buttons@);
    kept
}

impl Default for InputState {
    /// Nothing is held down and the cursor was not seen.
    fn default() -> (state: InputState)
        ensures
            state.keys_pressed@.len() == 0,
            state.mouse_buttons@.len() == 0,
            state.cursor_position is None,
    {
        InputState {
            keys_pressed: Vec::new(),
            mouse_buttons: Vec::new(),
            cursor_position: None,
        }
    }
}

impl InputState {
    /// The keys that are held down after `event`.
    pub open spec fn keys_after(self, event: WindowEvent) -> Seq<KeyCode> {
        match event {
            WindowEvent::KeyboardInput { key: Some(key), state: ElementState::Pressed } => {
                after_press(self.keys_pressed@, key)
            },
            WindowEvent::KeyboardInput { key: Some(key), state: ElementState::Released } => {
                after_release(self.keys_pressed@, key)
            },
            _ => self.keys_pressed@,
        }
    }

    /// The mouse buttons that are held down after `event`.
    pub open spec fn buttons_after(self, event: WindowEvent) -> Seq<MouseButton> {
        match event {
            WindowEvent::MouseInput { button, state: ElementState::Pressed } => after_press(
                self.mouse_buttons@,
                button,
            ),
            WindowEvent::MouseInput { button, state: ElementState::Released } => after_release(
                self.mouse_buttons@,
                button,
            ),
            _ => self.mouse_buttons@,
        }
    }

    /// Where the cursor was last seen after `event`.
    pub open spec fn cursor_after(self, event: WindowEvent) -> Option<CursorPosition> {
        match event {
            WindowEvent::CursorMoved { position } => Some(position),
            _ => self.cursor_position,
        }
    }

    /// Takes note of an event of the window system.
    pub fn update(&mut self, event: &WindowEvent)
        ensures
            final(self).keys_pressed@ == old(self).keys_after(*event),
            final(self).mouse_buttons@ == old(self).buttons_after(*event),
            final(self).cursor_position == old(self).cursor_after(*event),
    {
        match *event {
            WindowEvent::KeyboardInput { key, state } => {
                if let Some(key) = key {
                    match state {
                        ElementState::Pressed => {
                            if !holds_key(&self.keys_pressed, key) {
                                self.keys_pressed.push(key);
                            }
                        },
                        ElementState::Released => {
                            self.keys_pressed = without_key(&self.keys_pressed, key);
                        },
                    }
                }
            },
            WindowEvent::MouseInput { button, state } => {
                match state {
                    ElementState::Pressed => {
                        if !holds_button(&self.mouse_buttons, button) {
                            self.mouse_buttons.push(button);
                        }
                    },
                    ElementState::Released => {
                        self.mouse_buttons = without_button(&self.mouse_buttons, button);
                    },
                }
            },
            WindowEvent::CursorMoved { position } => {
                self.cursor_position = Some(position);
            },
            WindowEvent::Other => {},
        }
    }
}

/// The input event that an event of the window system gives rise to, if any.
pub open spec fn input_event_of(event: WindowEvent) -> Option<InputEvent> {
    match event {
        WindowEvent::KeyboardInput { key: Some(key), state: ElementState::Pressed } => Some(
            InputEvent::KeyPressed(key),
        ),
        WindowEvent::KeyboardInput { key: Some(key), state: ElementState::Released } => Some(
            InputEvent::KeyReleased(key),
        ),
        WindowEvent::KeyboardInput { key: None, state } => None,
        WindowEvent::CursorMoved { position } => Some(
            InputEvent::MouseMoved { x: position.x, y: position.y },
        ),
        WindowEvent::MouseInput { button, state: ElementState::Pressed } => Some(
            InputEvent::MouseButtonPressed(button),
        ),
        WindowEvent::MouseInput { button, state: ElementState::Released } => Some(
            InputEvent::MouseButtonReleased(button),
        ),
        WindowEvent::Other => None,
    }
}

/// A queue of input events.
pub struct InputDispatcher {
    events: Vec<InputEvent>,
}

impl InputDispatcher {
    /// The events that wait in the queue, oldest first.
    pub closed spec fn pending(&self) -> Seq<InputEvent> {
        self.events@
    }

    /// An empty queue.
    pub fn new() -> (d: InputDispatcher)
        ensures
            d.pending().len() == 0,
    {
        InputDispatcher { events: Vec::new() }
    }

    /// Appends the input event that `event` gives rise to, if any.
    pub fn dispatch(&mut self, event: &WindowEvent)
        ensures
            final(self).pending() == match input_event_of(*event) {
                Some(e) => old(self).pending().push(e),
                None => old(self).pending(),
            },
    {
        match *event {
            WindowEvent::KeyboardInput { key, state } => {
                if let Some(key) = key {
                    match state {
                        ElementState::Pressed => {
                            self.events.push(InputEvent::KeyPressed(key));
                        },
                        ElementState::Released => {
                            self.events.push(InputEvent::KeyReleased(key));
                        },
                    }
                }
            },
            WindowEvent::CursorMoved { position } => {
                self.events.push(InputEvent::MouseMoved { x: position.x, y: position.y });
            },
            WindowEvent::MouseInput { button, state } => {
                match state {
                    ElementState::Pressed => {
                        self.events.push(InputEvent::MouseButtonPressed(button));
                    },
                    ElementState::Released => {
                        self.events.push(InputEvent::MouseButtonReleased(button));
                    },
                }
            },
            WindowEvent::Other => {},
        }
    }

    /// Takes all events out of the queue, oldest first.
    pub fn drain(&mut self) -> (events: Vec<InputEvent>)
        ensures
            events@ == old(self).pending(),
            final(self).pending().len() == 0,
    {
        let mut events: Vec<InputEvent> = Vec::new();
        std::mem::swap(&mut self.events, &mut events);
        events
    }
}

} // verus!
