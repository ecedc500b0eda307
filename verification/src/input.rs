//! Modifier, button, and pressure state carried by normalized events.

use vstd::prelude::*;

verus! {

/// The snapshot of keyboard modifiers held while an event was produced.
/// One flag per modifier key.
#[derive(Clone, Copy, Debug, PartialEq, Eq, Structural)]
pub struct ModifiersState {
    pub shift: bool,
    pub control: bool,
    pub alt: bool,
    pub meta: bool,
}

/// Bit held in `ButtonsState` while the primary (left) button is down.
pub const BUTTONS_LEFT: u16 = 1;

/// Bit held in `ButtonsState` while the secondary (right) button is down.
pub const BUTTONS_RIGHT: u16 = 2;

/// Bit held in `ButtonsState` while the auxiliary (middle) button is down.
pub const BUTTONS_MIDDLE: u16 = 4;

/// The bitmask of mouse buttons currently held, exactly as the host reports
/// it. Meaningful only for mouse-classified events; zero for touch.
#[derive(Clone, Copy, Debug, PartialEq, Eq, Structural)]
pub struct ButtonsState {
    pub bits: u16,
}

impl ButtonsState {
    pub fn left(&self) -> (r: bool)
        ensures
            r == ((self.bits & BUTTONS_LEFT) != 0),
    {
        (self.bits & BUTTONS_LEFT) != 0
    }

    pub fn right(&self) -> (r: bool)
        ensures
            r == ((self.bits & BUTTONS_RIGHT) != 0),
    {
        (self.bits & BUTTONS_RIGHT) != 0
    }

    pub fn middle(&self) -> (r: bool)
        ensures
            r == ((self.bits & BUTTONS_MIDDLE) != 0),
    {
        (self.bits & BUTTONS_MIDDLE) != 0
    }
}

/// The single mouse button whose state changed in a press or release
/// transition.
#[derive(Clone, Copy, Debug, PartialEq, Eq, Structural)]
pub enum MouseButton {
    Left,
    Right,
    Middle,
    Back,
    Forward,
    Other(u16),
}

/// Denominator of the fixed-point pressure scale: a `Force` value of
/// `FORCE_UNIT` millionths is full pressure, `1.0`.
pub const FORCE_UNIT: u32 = 1_000_000;

/// Normalized touch pressure, in millionths of full pressure, so that a
/// well-formed value always lies in `[0, 1]`. Mouse interactions never
/// produce a `Force`.
#[derive(Clone, Copy, Debug, PartialEq, Eq, Structural)]
pub enum Force {
    Normalized(u32),
}

impl Force {
    /// The pressure lies within the normalized `[0, 1]` range.
    pub open spec fn wf(self) -> bool {
        match self {
            Force::Normalized(v) => v <= FORCE_UNIT,
        }
    }

    /// The raw fixed-point value in millionths of full pressure.
    pub fn value(&self) -> (r: u32)
        ensures
            *self matches Force::Normalized(v) && r == v,
    {
        match self {
            Force::Normalized(v) => *v,
        }
    }
}

} // verus!
