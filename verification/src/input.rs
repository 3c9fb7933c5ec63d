//! Keyboard and mouse handling: the movement the camera controller derives
//! from held keys, key and mouse-button events, and the per-frame decisions
//! of the event loop.

use vstd::prelude::*;

verus! {

/// The keys the renderer tells apart.
#[derive(Debug, Clone, Copy, PartialEq, Eq, Structural)]
pub enum Key {
    Escape,
    ShiftLeft,
    ControlLeft,
    Space,
    KeyW,
    KeyA,
    KeyS,
    KeyD,
    Other,
}

/// The mouse buttons the renderer tells apart.
#[derive(Debug, Clone, Copy, PartialEq, Eq, Structural)]
pub enum MouseButton {
    Left,
    Right,
    Middle,
    Other,
}

/// Which of the camera controller's keys are held.
#[derive(Debug, Clone, Copy, PartialEq, Eq, Structural)]
pub struct MovementKeys {
    pub shift_left: bool,
    pub control_left: bool,
    pub space: bool,
    pub w: bool,
    pub a: bool,
    pub s: bool,
    pub d: bool,
}

/// Movement asked for by the held keys: each axis is -1, 0 or 1, and the
/// speed multiplier is 2 while shift is held, else 1.
#[derive(Debug, Clone, Copy, PartialEq, Eq, Structural)]
pub struct Movement {
    pub right: i32,
    pub up: i32,
    pub forward: i32,
    pub multiplier: i32,
}

/// 1 for a held key, 0 otherwise.
pub open spec fn held(b: bool) -> int {
    if b { 1 } else { 0 }
}

/// Whether the camera controller reads the key.
pub open spec fn is_movement_key(key: Key) -> bool {
    key != Key::Escape && key != Key::Other
}

/// The held keys after `key` is pressed or released: a key the controller
/// reads takes the new state, any other key changes nothing.
pub open spec fn with_key(k: MovementKeys, key: Key, pressed: bool) -> MovementKeys {
    MovementKeys {
        shift_left: if key == Key::ShiftLeft { pressed } else { k.shift_left },
        control_left: if key == Key::ControlLeft { pressed } else { k.control_left },
        space: if key == Key::Space { pressed } else { k.space },
        w: if key == Key::KeyW { pressed } else { k.w },
        a: if key == Key::KeyA { pressed } else { k.a },
        s: if key == Key::KeyS { pressed } else { k.s },
        d: if key == Key::KeyD { pressed } else { k.d },
    }
}

fn held_value(b: bool) -> (v: i32)
    ensures
        v == held(b),
{
    if b { 1 } else { 0 }
}

impl MovementKeys {
    /// No key held.
    pub fn none() -> (k: MovementKeys)
        ensures
            !k.shift_left && !k.control_left && !k.space && !k.w && !k.a && !k.s && !k.d,
    {
        MovementKeys { shift_left: false, control_left: false, space: false, w: false, a: false, s: false, d: false }
    }

    /// The movement the held keys ask for: D/A move right/left, Space/Control
    /// up/down, W/S forward/backward, and shift doubles the speed.
    pub fn movement(&self) -> (m: Movement)
        ensures
            m.right == held(self.d) - held(self.a),
            m.up == held(self.space) - held(self.control_left),
            m.forward == held(self.w) - held(self.s),
            m.multiplier == held(self.shift_left) + 1,
    {
        Movement {
            right: held_value(self.d) - held_value(self.a),
            up: held_value(self.space) - held_value(self.control_left),
            forward: held_value(self.w) - held_value(self.s),
            multiplier: held_value(self.shift_left) + 1,
        }
    }

    /// Records a key press or release; returns whether the key is one the
    /// camera controller reads (and so is consumed by it).
    pub fn set_key(&mut self, key: Key, pressed: bool) -> (consumed: bool)
        ensures
            consumed == is_movement_key(key),
            *final(self) == with_key(*old(self), key, pressed),
            final(self).shift_left == (if key == Key::ShiftLeft { pressed } else { old(self).shift_left }),
            final(self).control_left == (if key == Key::ControlLeft { pressed } else { old(self).control_left }),
            final(self).space == (if key == Key::Space { pressed } else { old(self).space }),
            final(self).w == (if key == Key::KeyW { pressed } else { old(self).w }),
            final(self).a == (if key == Key::KeyA { pressed } else { old(self).a }),
            final(self).s == (if key == Key::KeyS { pressed } else { old(self).s }),
            final(self).d == (if key == Key::KeyD { pressed } else { old(self).d }),
    {
        match key {
            Key::ShiftLeft => { self.shift_left = pressed; true },
            Key::ControlLeft => { self.control_left = pressed; true },
            Key::Space => { self.space = pressed; true },
            Key::KeyW => { self.w = pressed; true },
            Key::KeyA => { self.a = pressed; true },
            Key::KeyS => { self.s = pressed; true },
            Key::KeyD => { self.d = pressed; true },
            Key::Escape => false,
            Key::Other => false,
        }
    }
}

/// The renderer's input state: the controller's keys and whether the right
/// mouse button is pressed.
#[derive(Debug, Clone, Copy, PartialEq, Eq, Structural)]
pub struct EngineInput {
    pub keys: MovementKeys,
    pub mouse_pressed: bool,
}

impl EngineInput {
    /// No key held, no button pressed.
    pub fn new() -> (e: EngineInput)
        ensures
            e.keys == MovementKeys::none_spec(),
            !e.mouse_pressed,
    {
        EngineInput { keys: MovementKeys::none(), mouse_pressed: false }
    }

    /// Handles a key event; returns whether the application should exit:
    /// when Escape is pressed and the controller did not consume it.
    pub fn handle_key(&mut self, key: Key, pressed: bool) -> (exit: bool)
        ensures
            exit == (!is_movement_key(key) && key == Key::Escape && pressed),
            exit == (key == Key::Escape && pressed),
            final(self).mouse_pressed == old(self).mouse_pressed,
            final(self).keys == with_key(old(self).keys, key, pressed),
    {
        let consumed = self.keys.set_key(key, pressed);
        !consumed && key == Key::Escape && pressed
    }

    /// Handles a mouse-button event: only the right button is tracked.
    pub fn handle_mouse_button(&mut self, button: MouseButton, pressed: bool)
        ensures
            final(self).mouse_pressed == (if button == MouseButton::Right { pressed } else { old(self).mouse_pressed }),
            final(self).keys == old(self).keys,
    {
        if button == MouseButton::Right {
            self.mouse_pressed = pressed;
        }
    }
}

impl MovementKeys {
    /// No key held.
    pub open spec fn none_spec() -> MovementKeys {
        MovementKeys { shift_left: false, control_left: false, space: false, w: false, a: false, s: false, d: false }
    }
}

/// What the event loop saw between two frames.
#[derive(Debug, Clone, Copy, PartialEq, Eq, Structural)]
pub struct FrameInput {
    pub close_requested: bool,
    pub right_mouse_held: bool,
    pub escape_pressed: bool,
}

/// What the event loop does before waiting for the next events.
#[derive(Debug, Clone, Copy, PartialEq, Eq, Structural)]
pub struct FrameActions {
    /// Leave the event loop.
    pub exit: bool,
    /// Hand the mouse motion to the camera controller.
    pub forward_mouse_motion: bool,
}

/// The event loop exits when the window asked to close or Escape was
/// pressed, and the mouse steers the camera while the right button is held.
pub fn frame_actions(input: FrameInput) -> (a: FrameActions)
    ensures
        a.exit == (input.close_requested || input.escape_pressed),
        a.forward_mouse_motion == input.right_mouse_held,
{
    FrameActions {
        exit: input.close_requested || input.escape_pressed,
        forward_mouse_motion: input.right_mouse_held,
    }
}

/// A key event sets exactly its own key's held state: every other key keeps
/// its state. So pressing A moves left (D moves right), Control down (Space
/// up), S backward (W forward), and shift doubles the speed.
pub proof fn key_event_steers_its_own_axis(k: MovementKeys, key: Key, pressed: bool)
    ensures
        key == Key::KeyA ==> with_key(k, key, pressed).a == pressed,
        key == Key::KeyD ==> with_key(k, key, pressed).d == pressed,
        key == Key::KeyW ==> with_key(k, key, pressed).w == pressed,
        key == Key::KeyS ==> with_key(k, key, pressed).s == pressed,
        key == Key::Space ==> with_key(k, key, pressed).space == pressed,
        key == Key::ControlLeft ==> with_key(k, key, pressed).control_left == pressed,
        key == Key::ShiftLeft ==> with_key(k, key, pressed).shift_left == pressed,
        key != Key::KeyA ==> with_key(k, key, pressed).a == k.a,
        key != Key::KeyD ==> with_key(k, key, pressed).d == k.d,
        key != Key::KeyW ==> with_key(k, key, pressed).w == k.w,
        key != Key::KeyS ==> with_key(k, key, pressed).s == k.s,
        key != Key::Space ==> with_key(k, key, pressed).space == k.space,
        key != Key::ControlLeft ==> with_key(k, key, pressed).control_left == k.control_left,
        key != Key::ShiftLeft ==> with_key(k, key, pressed).shift_left == k.shift_left,
        !k.d ==> held(with_key(k, Key::KeyA, true).d) - held(with_key(k, Key::KeyA, true).a) == -1,
        !k.a ==> held(with_key(k, Key::KeyD, true).d) - held(with_key(k, Key::KeyD, true).a) == 1,
        !k.space ==> held(with_key(k, Key::ControlLeft, true).space) - held(with_key(k, Key::ControlLeft, true).control_left) == -1,
        !k.control_left ==> held(with_key(k, Key::Space, true).space) - held(with_key(k, Key::Space, true).control_left) == 1,
        !k.w ==> held(with_key(k, Key::KeyS, true).w) - held(with_key(k, Key::KeyS, true).s) == -1,
        !k.s ==> held(with_key(k, Key::KeyW, true).w) - held(with_key(k, Key::KeyW, true).s) == 1,
        held(with_key(k, Key::ShiftLeft, true).shift_left) + 1 == 2,
{
}

/// The movement stays within one unit per axis and the multiplier is 1 or 2,
/// and pressing opposite keys together cancels out.
pub proof fn movement_is_bounded(k: MovementKeys)
    ensures
        -1 <= held(k.d) - held(k.a) <= 1,
        -1 <= held(k.space) - held(k.control_left) <= 1,
        -1 <= held(k.w) - held(k.s) <= 1,
        1 <= held(k.shift_left) + 1 <= 2,
        k.w && k.s ==> held(k.w) - held(k.s) == 0,
        k.a && k.d ==> held(k.d) - held(k.a) == 0,
{
}

} // verus!
