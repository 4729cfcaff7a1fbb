//! Which of the keys and buttons that steer the demo are held down.

use vstd::prelude::*;

verus! {

/// A key, as far as the demo tells keys apart.
#[derive(Debug, Clone, Copy, PartialEq, Eq, Structural)]
pub enum Key {
    Up,
    Down,
    Left,
    Right,
    Slash,
    RShift,
    Return,
    Space,
    /// Any other key.
    Other,
}

/// An event of the window, as far as the input state reads it.
#[derive(Debug, Clone, Copy, PartialEq, Eq, Structural)]
pub enum InputEvent {
    /// A key that the keyboard could name went down or up.
    Keyboard { key: Key, pressed: bool },
    /// The left mouse button went down or up.
    LeftMouse { pressed: bool },
    /// Anything else.
    Other,
}

/// The keys and buttons that are held down.
#[derive(Debug, Clone, Copy, PartialEq, Eq, Structural)]
pub struct Input {
    pub up_pressed: bool,
    pub down_pressed: bool,
    pub right_pressed: bool,
    pub left_pressed: bool,
    pub slash_pressed: bool,
    pub right_shift_pressed: bool,
    pub enter_pressed: bool,
    pub space_pressed: bool,
    pub left_mouse_pressed: bool,
}

impl Input {
    /// The state in which nothing is held down.
    pub open spec fn released() -> Input {
        Input {
            up_pressed: false,
            down_pressed: false,
            right_pressed: false,
            left_pressed: false,
            slash_pressed: false,
            right_shift_pressed: false,
            enter_pressed: false,
            space_pressed: false,
            left_mouse_pressed: false,
        }
    }

    /// The state after an event.
    pub open spec fn after(self, event: InputEvent) -> Input {
        match event {
            InputEvent::Keyboard { key, pressed } => match key {
                Key::Up => Input { up_pressed: pressed, ..self },
                Key::Down => Input { down_pressed: pressed, ..self },
                Key::Left => Input { left_pressed: pressed, ..self },
                Key::Right => Input { right_pressed: pressed, ..self },
                Key::Slash => Input { slash_pressed: pressed, ..self },
                Key::RShift => Input { right_shift_pressed: pressed, ..self },
                Key::Return => Input { enter_pressed: pressed, ..self },
                Key::Space => Input { space_pressed: pressed, ..self },
                Key::Other => self,
            },
            InputEvent::LeftMouse { pressed } => Input { left_mouse_pressed: pressed, ..self },
            InputEvent::Other => self,
        }
    }

    /// Whether the event is one that the input state has a use for: all but
    /// the keys it does not know.
    pub open spec fn handles(event: InputEvent) -> bool {
        !(event matches InputEvent::Keyboard { key: Key::Other, .. })
    }

    /// The state in which nothing is held down.
    pub fn new() -> (input: Self)
        ensures
            input == Self::released(),
    {
        Input {
            up_pressed: false,
            down_pressed: false,
            right_pressed: false,
            left_pressed: false,
            slash_pressed: false,
            right_shift_pressed: false,
            enter_pressed: false,
            space_pressed: false,
            left_mouse_pressed: false,
        }
    }

    /// Takes note of an event, and says whether it had a use for it.
    pub fn update(&mut self, event: &InputEvent) -> (handled: bool)
        ensures
            *final(self) == old(self).after(*event),
            handled == Self::handles(*event),
    {
        match event {
            InputEvent::Keyboard { key, pressed } => {
                match key {
                    Key::Up => {
                        self.up_pressed = *pressed;
                    },
                    Key::Down => {
                        self.down_pressed = *pressed;
                    },
                    Key::Left => {
                        self.left_pressed = *pressed;
                    },
                    Key::Right => {
                        self.right_pressed = *pressed;
                    },
                    Key::Slash => {
                        self.slash_pressed = *pressed;
                    },
                    Key::RShift => {
                        self.right_shift_pressed = *pressed;
                    },
                    Key::Return => {
                        self.enter_pressed = *pressed;
                    },
                    Key::Space => {
                        self.space_pressed = *pressed;
                    },
                    Key::Other => {
                        return false;
                    },
                };
            },
            InputEvent::LeftMouse { pressed } => {
                self.left_mouse_pressed = *pressed;
            },
            InputEvent::Other => {},
        }
        true
    }
}

} // verus!
