//! Input state: which keys and mouse buttons are down, where the pointer
//! is, and the window focus. Events arrive as plain values (key codes,
//! button ids, fixed-point motion deltas) from the platform shell.

use vstd::prelude::*;

verus! {

/// A platform input event, reduced to plain values.
#[derive(Clone, Copy, Debug, PartialEq, Eq, Structural)]
pub enum DeviceEvent {
    Key { key: u32, pressed: bool },
    Button { button: u32, pressed: bool },
    MouseMotion { dx: i64, dy: i64 },
    Other,
}

/// A fixed-point 2D point.
#[derive(Clone, Copy, Debug, PartialEq, Eq, Structural)]
pub struct Point2 {
    pub x: i64,
    pub y: i64,
}

/// The aggregated input state the simulation reads.
#[derive(Clone, Debug, PartialEq)]
pub struct Input {
    pub is_focused: bool,
    pub is_mouse_inside_window: bool,
    pub pressed_keys: Vec<u32>,
    pub released_keys: Vec<u32>,
    pub pressed_mouse_buttons: Vec<u32>,
    pub released_mouse_buttons: Vec<u32>,
    /// Pointer motion since the last frame, fixed-point pixels.
    pub mouse_delta: Point2,
    /// Pointer position relative to the window's center, fixed-point
    /// pixels, y up.
    pub mouse_pos: Point2,
    /// Modifier keys held, as the platform's bit flags.
    pub modifiers_state: u32,
}

impl Input {
    /// The blank state: nothing pressed, the pointer at the center,
    /// unfocused.
    pub fn default() -> (r: Input)
        ensures
            !r.is_focused,
            !r.is_mouse_inside_window,
            r.pressed_keys@.len() == 0,
            r.released_keys@.len() == 0,
            r.pressed_mouse_buttons@.len() == 0,
            r.released_mouse_buttons@.len() == 0,
            r.mouse_delta == (Point2 { x: 0, y: 0 }),
            r.mouse_pos == (Point2 { x: 0, y: 0 }),
            r.modifiers_state == 0,
    {
        Input {
            is_focused: false,
            is_mouse_inside_window: false,
            pressed_keys: Vec::new(),
            released_keys: Vec::new(),
            pressed_mouse_buttons: Vec::new(),
            released_mouse_buttons: Vec::new(),
            mouse_delta: Point2 { x: 0, y: 0 },
            mouse_pos: Point2 { x: 0, y: 0 },
            modifiers_state: 0,
        }
    }

    /// Zero the per-frame pointer motion.
    pub fn reset_mouse_delta(&mut self)
        ensures
            *final(self) == (Input { mouse_delta: (Point2 { x: 0, y: 0 }), ..*old(self) }),
    {
        self.mouse_delta = Point2 { x: 0, y: 0 };
    }

    /// Fold one platform event into the state. The released-key list holds
    /// only the keys released by this very event; a key event replaces the
    /// pressed set, a button release accumulates into the released-button
    /// list.
    pub fn process_device_event(&mut self, event: &DeviceEvent)
        ensures
            match *event {
                DeviceEvent::Key { key, pressed } => if pressed {
                    *final(self) == (Input {
                        pressed_keys: final(self).pressed_keys,
                        released_keys: final(self).released_keys,
                        ..*old(self)
                    })
                    && final(self).pressed_keys@ == seq![key]
                    && final(self).released_keys@ == Seq::<u32>::empty()
                } else {
                    *final(self) == (Input {
                        pressed_keys: final(self).pressed_keys,
                        released_keys: final(self).released_keys,
                        ..*old(self)
                    })
                    && final(self).pressed_keys@ == Seq::<u32>::empty()
                    && final(self).released_keys@ == seq![key]
                },
                DeviceEvent::Button { button, pressed } => if pressed {
                    *final(self) == (Input {
                        pressed_mouse_buttons: final(self).pressed_mouse_buttons,
                        released_keys: final(self).released_keys,
                        ..*old(self)
                    })
                    && final(self).pressed_mouse_buttons@ == seq![button]
                    && final(self).released_keys@ == Seq::<u32>::empty()
                } else {
                    *final(self) == (Input {
                        pressed_mouse_buttons: final(self).pressed_mouse_buttons,
                        released_keys: final(self).released_keys,
                        released_mouse_buttons: final(self).released_mouse_buttons,
                        ..*old(self)
                    })
                    && final(self).pressed_mouse_buttons@ == Seq::<u32>::empty()
                    && final(self).released_keys@ == Seq::<u32>::empty()
                    && final(self).released_mouse_buttons@
                        == old(self).released_mouse_buttons@.push(button)
                },
                DeviceEvent::MouseMotion { dx, dy } => *final(self) == (Input {
                    mouse_delta: (Point2 { x: dx, y: dy }),
                    released_keys: final(self).released_keys,
                    ..*old(self)
                }) && final(self).released_keys@ == Seq::<u32>::empty(),
                DeviceEvent::Other => *final(self) == (Input {
                    released_keys: final(self).released_keys,
                    ..*old(self)
                }) && final(self).released_keys@ == Seq::<u32>::empty(),
            },
    {
        self.released_keys = Vec::new();
        match *event {
            DeviceEvent::Key { key, pressed } => {
                self.pressed_keys = Vec::new();
                if pressed {
                    self.pressed_keys.push(key);
                } else {
                    self.released_keys.push(key);
                }
            },
            DeviceEvent::Button { button, pressed } => {
                self.pressed_mouse_buttons = Vec::new();
                if pressed {
                    self.pressed_mouse_buttons.push(button);
                } else {
                    self.released_mouse_buttons.push(button);
                }
            },
            DeviceEvent::MouseMotion { dx, dy } => {
                self.mouse_delta = Point2 { x: dx, y: dy };
            },
            DeviceEvent::Other => {},
        }
    }

    /// Recenter a window-relative pointer position (fixed-point pixels,
    /// y down from the top-left corner) around the window's center with y
    /// up.
    pub fn update_mouse_pos(&mut self, pos: Point2, window_width: u32, window_height: u32)
        requires
            -0x1_0000_0000_0000 <= pos.x <= 0x1_0000_0000_0000,
            -0x1_0000_0000_0000 <= pos.y <= 0x1_0000_0000_0000,
        ensures
            *final(self) == (Input { mouse_pos: final(self).mouse_pos, ..*old(self) }),
            final(self).mouse_pos.x == pos.x - (window_width as int / 2) * 65536,
            final(self).mouse_pos.y == -pos.y + (window_height as int / 2) * 65536,
    {
        let half_w: i64 = ((window_width / 2) as i64) * 65536;
        let half_h: i64 = ((window_height / 2) as i64) * 65536;
        self.mouse_pos = Point2 { x: pos.x - half_w, y: -pos.y + half_h };
    }

    /// Record whether the pointer is over the window.
    pub fn set_mouse_inside_window(&mut self, is_inside: bool)
        ensures
            *final(self) == (Input { is_mouse_inside_window: is_inside, ..*old(self) }),
    {
        self.is_mouse_inside_window = is_inside;
    }

    /// Record the modifier keys held.
    pub fn update_modifiers_state(&mut self, state: u32)
        ensures
            *final(self) == (Input { modifiers_state: state, ..*old(self) }),
    {
        self.modifiers_state = state;
    }

    /// Record the window focus.
    pub fn set_focused(&mut self, focused: bool)
        ensures
            *final(self) == (Input { is_focused: focused, ..*old(self) }),
    {
        self.is_focused = focused;
    }
}

} // verus!
