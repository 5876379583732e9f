//! Discrete input accumulation: movement-key flags and pointer tracking.

use vstd::prelude::*;

use crate::fx::FX_ONE;
use crate::vec3::Vec3;

verus! {

/// Largest pointer coordinate magnitude the input state accepts.
pub const POINTER_BOUND: i64 = 0x10_0000;

/// A movement or action key, as the host event loop reports it.
#[derive(Clone, Copy, PartialEq, Eq, Structural, Debug)]
pub enum KeyEvent {
    W,
    A,
    S,
    D,
    Space,
}

/// A pointer button, as the host event loop reports it.
#[derive(Clone, Copy, PartialEq, Eq, Structural, Debug)]
pub enum MouseButton {
    Left,
    Right,
    Middle,
    Other,
}

/// A pointer event: a button changing state, or a move to pixel coordinates.
#[derive(Clone, Copy, PartialEq, Eq, Structural, Debug)]
pub enum MouseEvent {
    /// `Button(pressed, which)`.
    Button(bool, MouseButton),
    /// `Moved(x, y)` in pixels from the window's top-left corner.
    Moved(i64, i64),
}

/// Movement-key flags plus the current and previous pointer position.
///
/// Both pointer positions start at the origin sentinel `(0, 0)`; the first
/// move event snaps the previous position onto the current one so that it
/// cannot produce a spurious first-frame drag.
#[derive(Clone, Copy, PartialEq, Eq, Structural, Debug)]
pub struct InputState {
    pub w: bool,
    pub a: bool,
    pub s: bool,
    pub d: bool,
    pub prev_x: i64,
    pub prev_y: i64,
    pub mouse_x: i64,
    pub mouse_y: i64,
}

impl InputState {
    /// The state after recording that `key` went down or up.
    pub open spec fn with_key(self, key: KeyEvent, pressed: bool) -> InputState {
        InputState {
            w: if key == KeyEvent::W { pressed } else { self.w },
            a: if key == KeyEvent::A { pressed } else { self.a },
            s: if key == KeyEvent::S { pressed } else { self.s },
            d: if key == KeyEvent::D { pressed } else { self.d },
            ..self
        }
    }

    /// Both pointer positions still sit at the origin sentinel: no move has
    /// been recorded yet.
    pub open spec fn is_first_move(self) -> bool {
        self.mouse_x == self.prev_x && self.mouse_y == self.prev_y && self.mouse_x == 0
            && self.mouse_y == 0
    }

    /// The state after a pointer move to `(x, y)`: on the first move the
    /// previous position snaps onto the new one, afterwards it trails the
    /// current one.
    pub open spec fn after_move(self, x: i64, y: i64) -> InputState {
        if self.is_first_move() {
            InputState { prev_x: x, prev_y: y, mouse_x: x, mouse_y: y, ..self }
        } else {
            InputState {
                prev_x: self.mouse_x,
                prev_y: self.mouse_y,
                mouse_x: x,
                mouse_y: y,
                ..self
            }
        }
    }

    /// The horizontal drag delta a move to `(x, y)` produces: previous x
    /// minus new x, and zero on the first move.
    pub open spec fn move_delta(self, x: i64) -> int {
        if self.is_first_move() {
            0
        } else {
            self.mouse_x - x
        }
    }

    /// Stored pointer coordinates are in range.
    pub open spec fn wf(self) -> bool {
        &&& -POINTER_BOUND <= self.prev_x <= POINTER_BOUND
        &&& -POINTER_BOUND <= self.prev_y <= POINTER_BOUND
        &&& -POINTER_BOUND <= self.mouse_x <= POINTER_BOUND
        &&& -POINTER_BOUND <= self.mouse_y <= POINTER_BOUND
    }

    /// All keys up, both pointer positions at the origin sentinel.
    pub open spec fn new_spec() -> InputState {
        InputState {
            w: false,
            a: false,
            s: false,
            d: false,
            prev_x: 0,
            prev_y: 0,
            mouse_x: 0,
            mouse_y: 0,
        }
    }

    /// All keys up, both pointer positions at the origin sentinel.
    pub fn new() -> (r: InputState)
        ensures
            r == Self::new_spec(),
            r.wf(),
    {
        InputState {
            w: false,
            a: false,
            s: false,
            d: false,
            prev_x: 0,
            prev_y: 0,
            mouse_x: 0,
            mouse_y: 0,
        }
    }

    /// Record a movement key going down or up.  `Space` carries no flag.
    pub fn set_key(&mut self, key: KeyEvent, pressed: bool)
        ensures
            *final(self) == old(self).with_key(key, pressed),
    {
        match key {
            KeyEvent::W => self.w = pressed,
            KeyEvent::A => self.a = pressed,
            KeyEvent::S => self.s = pressed,
            KeyEvent::D => self.d = pressed,
            KeyEvent::Space => (),
        }
    }

    /// Record a pointer move and return the horizontal drag delta,
    /// `previous x - new x`.
    ///
    /// On the very first move after initialization (both stored positions
    /// still at the origin sentinel) the previous position snaps onto the new
    /// one, so the returned delta is zero.
    pub fn pointer_moved(&mut self, x: i64, y: i64) -> (dx: i64)
        requires
            old(self).wf(),
            -POINTER_BOUND <= x <= POINTER_BOUND,
            -POINTER_BOUND <= y <= POINTER_BOUND,
        ensures
            final(self).wf(),
            *final(self) == old(self).after_move(x, y),
            dx == old(self).move_delta(x),
            old(self).is_first_move() ==> dx == 0,
            -2 * POINTER_BOUND <= dx <= 2 * POINTER_BOUND,
    {
        if self.mouse_x == self.prev_x && self.mouse_y == self.prev_y && self.mouse_x == 0
            && self.mouse_y == 0 {
            self.prev_x = x;
            self.prev_y = y;
            self.mouse_x = x;
            self.mouse_y = y;
        } else {
            self.prev_x = self.mouse_x;
            self.prev_y = self.mouse_y;
            self.mouse_x = x;
            self.mouse_y = y;
        }
        self.prev_x - self.mouse_x
    }

    /// The local-space movement intent: the plain sum of one unit vector per
    /// held movement key.  Held opposite keys cancel; held diagonal pairs
    /// exceed unit speed, which is the documented movement policy.
    pub fn move_intent(&self) -> (v: Vec3)
        ensures
            v.x == (if self.a { -FX_ONE as int } else { 0 }) + (if self.d {
                FX_ONE as int
            } else {
                0
            }),
            v.y == 0,
            v.z == (if self.w { -FX_ONE as int } else { 0 }) + (if self.s {
                FX_ONE as int
            } else {
                0
            }),
    {
        let mut v = Vec3 { x: 0, y: 0, z: 0 };
        if self.w {
            v.z = v.z - FX_ONE;
        }
        if self.a {
            v.x = v.x - FX_ONE;
        }
        if self.s {
            v.z = v.z + FX_ONE;
        }
        if self.d {
            v.x = v.x + FX_ONE;
        }
        v
    }
}

} // verus!
