//! Normalized handler invocations and the specification of what each
//! dispatch routine produces for a given registry state, raw event, and
//! platform context.
//!
//! A dispatch routine does not run caller closures itself: it returns the
//! ordered invocations to make, each tagged with the handle of the handler
//! that was registered when the delivery arrived. The host plumbing then
//! performs them.

use vstd::prelude::*;

use crate::device::{spec_classify, DeviceKind};
use crate::event::{
    spec_button_of, spec_mouse_buttons, spec_mouse_delta, spec_mouse_modifiers,
    spec_mouse_position, spec_touch_force, spec_touch_position, RawPointerEvent,
};
use crate::geometry::{PhysicalPosition, PlatformContext};
use crate::handler::{MoveListener, PointerHandler};
use crate::input::{ButtonsState, Force, ModifiersState, MouseButton};

verus! {

/// One normalized callback invocation, tagged with the handle of the
/// registered handler it is addressed to.
#[derive(Clone, Copy, Debug, PartialEq, Eq, Structural)]
pub enum Invocation {
    CursorEnter { handler: u64, pointer: i32, modifiers: ModifiersState },
    CursorLeave { handler: u64, pointer: i32, modifiers: ModifiersState },
    MousePress {
        handler: u64,
        pointer: i32,
        position: PhysicalPosition,
        button: MouseButton,
        modifiers: ModifiersState,
    },
    TouchPress { handler: u64, pointer: i32, position: PhysicalPosition, force: Force },
    MouseRelease { handler: u64, pointer: i32, button: MouseButton, modifiers: ModifiersState },
    TouchRelease { handler: u64, pointer: i32, position: PhysicalPosition, force: Force },
    MouseMove {
        handler: u64,
        pointer: i32,
        position: PhysicalPosition,
        delta: PhysicalPosition,
        modifiers: ModifiersState,
        buttons: ButtonsState,
        button: Option<MouseButton>,
    },
    TouchMove { handler: u64, pointer: i32, position: PhysicalPosition, force: Force },
    TouchCancel { handler: u64, pointer: i32, position: PhysicalPosition, force: Force },
}

impl Invocation {
    /// The handle of the registered handler this invocation is addressed to.
    pub open spec fn handler(self) -> u64 {
        match self {
            Invocation::CursorEnter { handler, .. } => handler,
            Invocation::CursorLeave { handler, .. } => handler,
            Invocation::MousePress { handler, .. } => handler,
            Invocation::TouchPress { handler, .. } => handler,
            Invocation::MouseRelease { handler, .. } => handler,
            Invocation::TouchRelease { handler, .. } => handler,
            Invocation::MouseMove { handler, .. } => handler,
            Invocation::TouchMove { handler, .. } => handler,
            Invocation::TouchCancel { handler, .. } => handler,
        }
    }

    /// Every force this invocation carries lies in the normalized `[0, 1]`
    /// range. Vacuously true of invocations that carry none.
    pub open spec fn force_wf(self) -> bool {
        match self {
            Invocation::TouchPress { force, .. } => force.wf(),
            Invocation::TouchRelease { force, .. } => force.wf(),
            Invocation::TouchMove { force, .. } => force.wf(),
            Invocation::TouchCancel { force, .. } => force.wf(),
            _ => true,
        }
    }
}

/// A host/platform inconsistency no dispatch routine can paper over.
#[derive(Clone, Copy, Debug, PartialEq, Eq, Structural)]
pub enum DispatchError {
    /// A mouse press or release carried no identifiable button: the
    /// application has no way to represent "a button changed, we don't know
    /// which", so the delivery's processing is aborted.
    MissingButton,
}

/// What a press delivery produces: at most one invocation, and possibly a
/// best-effort pointer-capture request for the pressed pointer. The host
/// performs the invocation first, then the capture request, discarding the
/// capture's outcome.
#[derive(Clone, Copy, Debug, PartialEq, Eq, Structural)]
pub struct PressOutcome {
    pub invocation: Option<Invocation>,
    pub capture_request: Option<i32>,
}

/// What a move delivery produces: one invocation per expanded sub-event, in
/// host order, and whether default host scrolling is to be prevented (applied
/// once, for the root delivery, before the invocations).
pub struct MoveOutcome {
    pub invocations: Vec<Invocation>,
    pub prevent_default: bool,
}

/// The empty press outcome: nothing fires, nothing is captured.
pub open spec fn press_nothing() -> Result<PressOutcome, DispatchError> {
    Ok(PressOutcome { invocation: None, capture_request: None })
}

/// What the enter routine produces: the registered handler fires only for a
/// mouse-classified event; touch contacts are represented by press/release
/// instead, and unrecognized devices are dropped.
pub open spec fn enter_invocation_of(reg: PointerHandler, e: RawPointerEvent) -> Option<
    Invocation,
> {
    match reg.on_cursor_enter {
        Some(l) => if spec_classify(e.pointer_type@) == DeviceKind::Mouse {
            Some(
                Invocation::CursorEnter {
                    handler: l.handler,
                    pointer: e.pointer_id,
                    modifiers: spec_mouse_modifiers(e),
                },
            )
        } else {
            None
        },
        None => None,
    }
}

/// What the leave routine produces; mouse only, as for enter.
pub open spec fn leave_invocation_of(reg: PointerHandler, e: RawPointerEvent) -> Option<
    Invocation,
> {
    match reg.on_cursor_leave {
        Some(l) => if spec_classify(e.pointer_type@) == DeviceKind::Mouse {
            Some(
                Invocation::CursorLeave {
                    handler: l.handler,
                    pointer: e.pointer_id,
                    modifiers: spec_mouse_modifiers(e),
                },
            )
        } else {
            None
        },
        None => None,
    }
}

/// What the press routine produces. A touch press fires the touch handler
/// with position and force; a mouse press fires the mouse handler with
/// position, button, and modifiers, and then requests capture of the pressed
/// pointer. A mouse press whose button cannot be identified is an
/// unrecoverable contract violation and aborts the delivery with an error.
pub open spec fn press_result_of(
    reg: PointerHandler,
    e: RawPointerEvent,
    ctx: PlatformContext,
) -> Result<PressOutcome, DispatchError> {
    match reg.on_pointer_press {
        None => press_nothing(),
        Some(l) => match spec_classify(e.pointer_type@) {
            DeviceKind::Touch => Ok(
                PressOutcome {
                    invocation: Some(
                        Invocation::TouchPress {
                            handler: l.touch,
                            pointer: e.pointer_id,
                            position: spec_touch_position(e, ctx),
                            force: spec_touch_force(e),
                        },
                    ),
                    capture_request: None,
                },
            ),
            DeviceKind::Mouse => match spec_button_of(e.button as int) {
                None => Err(DispatchError::MissingButton),
                Some(button) => Ok(
                    PressOutcome {
                        invocation: Some(
                            Invocation::MousePress {
                                handler: l.mouse,
                                pointer: e.pointer_id,
                                position: spec_mouse_position(e, ctx),
                                button,
                                modifiers: spec_mouse_modifiers(e),
                            },
                        ),
                        capture_request: Some(e.pointer_id),
                    },
                ),
            },
            DeviceKind::Other => press_nothing(),
        },
    }
}

/// What the release routine produces. A touch release fires the touch
/// handler with position and force; a mouse release fires the mouse handler
/// with button and modifiers, or aborts when no button can be identified.
pub open spec fn release_result_of(
    reg: PointerHandler,
    e: RawPointerEvent,
    ctx: PlatformContext,
) -> Result<Option<Invocation>, DispatchError> {
    match reg.on_pointer_release {
        None => Ok(None),
        Some(l) => match spec_classify(e.pointer_type@) {
            DeviceKind::Touch => Ok(
                Some(
                    Invocation::TouchRelease {
                        handler: l.touch,
                        pointer: e.pointer_id,
                        position: spec_touch_position(e, ctx),
                        force: spec_touch_force(e),
                    },
                ),
            ),
            DeviceKind::Mouse => match spec_button_of(e.button as int) {
                None => Err(DispatchError::MissingButton),
                Some(button) => Ok(
                    Some(
                        Invocation::MouseRelease {
                            handler: l.mouse,
                            pointer: e.pointer_id,
                            button,
                            modifiers: spec_mouse_modifiers(e),
                        },
                    ),
                ),
            },
            DeviceKind::Other => Ok(None),
        },
    }
}

/// What the cancel routine produces: touch only; everything else is dropped.
pub open spec fn cancel_invocation_of(
    reg: PointerHandler,
    e: RawPointerEvent,
    ctx: PlatformContext,
) -> Option<Invocation> {
    match reg.on_touch_cancel {
        Some(l) => if spec_classify(e.pointer_type@) == DeviceKind::Touch {
            Some(
                Invocation::TouchCancel {
                    handler: l.handler,
                    pointer: e.pointer_id,
                    position: spec_touch_position(e, ctx),
                    force: spec_touch_force(e),
                },
            )
        } else {
            None
        },
        None => None,
    }
}

/// The ordered sub-events one move delivery stands for. A host without the
/// coalesced accessor, or an empty batch (the host's signal of a chorded
/// button change), yields the root event alone; a non-empty batch yields
/// exactly its contents, in host order, and the root is not separately
/// emitted.
pub open spec fn expanded_events(
    root: RawPointerEvent,
    coalesced: Option<Seq<RawPointerEvent>>,
) -> Seq<RawPointerEvent> {
    match coalesced {
        Some(batch) => if batch.len() > 0 {
            batch
        } else {
            seq![root]
        },
        None => seq![root],
    }
}

/// The invocation one expanded sub-event turns into on the move path chosen
/// by the root's classification. Every attribute is extracted from the
/// sub-event itself, never taken over from the root.
pub open spec fn move_invocation_of(
    l: MoveListener,
    kind: DeviceKind,
    e: RawPointerEvent,
    ctx: PlatformContext,
) -> Invocation {
    if kind == DeviceKind::Mouse {
        Invocation::MouseMove {
            handler: l.mouse,
            pointer: e.pointer_id,
            position: spec_mouse_position(e, ctx),
            delta: spec_mouse_delta(e, ctx),
            modifiers: spec_mouse_modifiers(e),
            buttons: spec_mouse_buttons(e),
            button: spec_button_of(e.button as int),
        }
    } else {
        Invocation::TouchMove {
            handler: l.touch,
            pointer: e.pointer_id,
            position: spec_touch_position(e, ctx),
            force: spec_touch_force(e),
        }
    }
}

/// What the move routine produces: nothing without a registered listener or
/// for an unrecognized device; otherwise one invocation per expanded
/// sub-event, in order.
pub open spec fn move_invocations_of(
    reg: PointerHandler,
    root: RawPointerEvent,
    coalesced: Option<Seq<RawPointerEvent>>,
    ctx: PlatformContext,
) -> Seq<Invocation> {
    match reg.on_cursor_move {
        None => Seq::empty(),
        Some(l) => {
            let kind = spec_classify(root.pointer_type@);
            if kind == DeviceKind::Other {
                Seq::empty()
            } else {
                expanded_events(root, coalesced).map_values(
                    |e: RawPointerEvent| move_invocation_of(l, kind, e, ctx),
                )
            }
        },
    }
}

/// Whether a move delivery suppresses the host's default scrolling: only
/// when a listener configured for it is registered and the root delivery is
/// touch-classified, and then once, before the invocations.
pub open spec fn move_prevents_default(reg: PointerHandler, root: RawPointerEvent) -> bool {
    match reg.on_cursor_move {
        Some(l) => l.prevent_default && spec_classify(root.pointer_type@) == DeviceKind::Touch,
        None => false,
    }
}

/// The view of an optional coalesced batch: `None` models a host without the
/// coalesced accessor.
pub open spec fn batch_view(coalesced: Option<Vec<RawPointerEvent>>) -> Option<
    Seq<RawPointerEvent>,
> {
    match coalesced {
        Some(batch) => Some(batch@),
        None => None,
    }
}

/// Every event of an optional batch is well-formed.
pub open spec fn batch_wf(coalesced: Option<Seq<RawPointerEvent>>) -> bool {
    match coalesced {
        Some(batch) => forall|i: int| 0 <= i < batch.len() ==> (#[trigger] batch[i]).wf(),
        None => true,
    }
}

} // verus!
