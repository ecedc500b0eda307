//! The raw pointer event as delivered by the host, and the pure attribute
//! extractors the dispatch routines apply to it.

use vstd::prelude::*;

use crate::geometry::{
    surface_relative, to_physical, LogicalPosition, PhysicalPosition, PlatformContext,
    spec_surface_relative, spec_to_physical,
};
use crate::input::{ButtonsState, Force, ModifiersState, MouseButton, FORCE_UNIT};

verus! {

/// One raw delivery on the host's unified pointer channel, reduced to the
/// plain values this library reads. Mouse and touch devices both arrive in
/// this shape; the device kind is derived per event from `pointer_type` and
/// never stored.
pub struct RawPointerEvent {
    /// Host-reported device type string; `"mouse"` and `"touch"` are the
    /// recognized values.
    pub pointer_type: String,
    /// Identifies the contact for the lifetime of its interaction.
    pub pointer_id: i32,
    /// Index of the button whose state changed: negative when none did,
    /// `0` primary, `1` auxiliary, `2` secondary, `3` back, `4` forward.
    pub button: i16,
    /// Bitmask of currently-held mouse buttons.
    pub buttons: u16,
    /// Whether each modifier key was held when the event was produced.
    pub shift: bool,
    pub control: bool,
    pub alt: bool,
    pub meta: bool,
    /// Surface-relative position in logical pixels (the mouse path reads it).
    pub position: LogicalPosition,
    /// Viewport-relative position in logical pixels (the touch path maps it
    /// through the surface origin).
    pub client_position: LogicalPosition,
    /// Motion since the previous event, in logical pixels.
    pub delta: LogicalPosition,
    /// Contact pressure in millionths of full pressure, in
    /// `[0, FORCE_UNIT]`.
    pub pressure: u32,
}

impl RawPointerEvent {
    /// What the host guarantees of every delivery: coordinates within the
    /// representable bound and pressure normalized to `[0, 1]`.
    pub open spec fn wf(self) -> bool {
        &&& self.position.wf()
        &&& self.client_position.wf()
        &&& self.delta.wf()
        &&& self.pressure <= FORCE_UNIT
    }
}

/// What `mouse_modifiers` returns: the event's modifier-key snapshot.
pub open spec fn spec_mouse_modifiers(e: RawPointerEvent) -> ModifiersState {
    ModifiersState { shift: e.shift, control: e.control, alt: e.alt, meta: e.meta }
}

/// What `mouse_buttons` returns: the held-buttons bitmask.
pub open spec fn spec_mouse_buttons(e: RawPointerEvent) -> ButtonsState {
    ButtonsState { bits: e.buttons }
}

/// What `mouse_button` returns for a host button index: `None` when no
/// button changed (a negative index), otherwise the identified button.
pub open spec fn spec_button_of(button: int) -> Option<MouseButton> {
    if button < 0 {
        None
    } else if button == 0 {
        Some(MouseButton::Left)
    } else if button == 1 {
        Some(MouseButton::Middle)
    } else if button == 2 {
        Some(MouseButton::Right)
    } else if button == 3 {
        Some(MouseButton::Back)
    } else if button == 4 {
        Some(MouseButton::Forward)
    } else {
        Some(MouseButton::Other(button as u16))
    }
}

/// What `mouse_position` returns: the surface-relative position scaled to
/// physical coordinates.
pub open spec fn spec_mouse_position(e: RawPointerEvent, ctx: PlatformContext) -> PhysicalPosition {
    spec_to_physical(e.position, ctx.scale)
}

/// What `mouse_delta` returns: the motion delta scaled to physical
/// coordinates.
pub open spec fn spec_mouse_delta(e: RawPointerEvent, ctx: PlatformContext) -> PhysicalPosition {
    spec_to_physical(e.delta, ctx.scale)
}

/// What `touch_position` returns: the viewport-relative position mapped to
/// surface-relative coordinates, scaled to physical ones.
pub open spec fn spec_touch_position(e: RawPointerEvent, ctx: PlatformContext) -> PhysicalPosition {
    spec_to_physical(spec_surface_relative(e.client_position, ctx.surface), ctx.scale)
}

/// What `touch_force` returns: the event's pressure as a normalized force.
pub open spec fn spec_touch_force(e: RawPointerEvent) -> Force {
    Force::Normalized(e.pressure)
}

/// Snapshot of the modifier keys held while the event was produced.
pub fn mouse_modifiers(e: &RawPointerEvent) -> (r: ModifiersState)
    ensures
        r == spec_mouse_modifiers(*e),
{
    ModifiersState { shift: e.shift, control: e.control, alt: e.alt, meta: e.meta }
}

/// Bitmask of the mouse buttons held while the event was produced.
pub fn mouse_buttons(e: &RawPointerEvent) -> (r: ButtonsState)
    ensures
        r == spec_mouse_buttons(*e),
{
    ButtonsState { bits: e.buttons }
}

/// The single button whose state changed, if one did.
pub fn mouse_button(e: &RawPointerEvent) -> (r: Option<MouseButton>)
    ensures
        r == spec_button_of(e.button as int),
{
    if e.button < 0 {
        None
    } else if e.button == 0 {
        Some(MouseButton::Left)
    } else if e.button == 1 {
        Some(MouseButton::Middle)
    } else if e.button == 2 {
        Some(MouseButton::Right)
    } else if e.button == 3 {
        Some(MouseButton::Back)
    } else if e.button == 4 {
        Some(MouseButton::Forward)
    } else {
        Some(MouseButton::Other(e.button as u16))
    }
}

/// The pointer's position in physical coordinates (mouse path).
pub fn mouse_position(e: &RawPointerEvent, ctx: &PlatformContext) -> (r: PhysicalPosition)
    ensures
        r == spec_mouse_position(*e, *ctx),
{
    to_physical(e.position, ctx.scale)
}

/// The pointer's motion since the previous event, in physical coordinates.
pub fn mouse_delta(e: &RawPointerEvent, ctx: &PlatformContext) -> (r: PhysicalPosition)
    ensures
        r == spec_mouse_delta(*e, *ctx),
{
    to_physical(e.delta, ctx.scale)
}

/// The contact's surface-relative position in physical coordinates (touch
/// path); the surface maps the viewport-relative point it owns.
pub fn touch_position(e: &RawPointerEvent, ctx: &PlatformContext) -> (r: PhysicalPosition)
    requires
        e.wf(),
        ctx.wf(),
    ensures
        r == spec_touch_position(*e, *ctx),
{
    to_physical(surface_relative(e.client_position, &ctx.surface), ctx.scale)
}

/// The contact's pressure as a normalized force (touch path).
pub fn touch_force(e: &RawPointerEvent) -> (r: Force)
    ensures
        r == spec_touch_force(*e),
        e.wf() ==> r.wf(),
{
    Force::Normalized(e.pressure)
}

} // verus!
