//! The listener registry and the six dispatch routines.
//!
//! `PointerHandler` holds at most one active subscription per logical
//! interaction kind. The `on_*` registration methods install a handler,
//! replacing (and thereby revoking) any previous one for that kind;
//! `remove_listeners` tears all six down at once and is idempotent. The
//! `deliver_*` methods translate one raw host delivery into the normalized
//! invocations owed to the currently-registered handlers; a delivery on a
//! channel with no subscription produces nothing.

use vstd::prelude::*;

use crate::device::{classify, DeviceKind};
use crate::dispatch::{
    batch_view, batch_wf, cancel_invocation_of, enter_invocation_of, expanded_events,
    leave_invocation_of, move_invocation_of, move_invocations_of, move_prevents_default,
    press_result_of, release_result_of, DispatchError, Invocation, MoveOutcome, PressOutcome,
};
use crate::event::{
    mouse_button, mouse_buttons, mouse_delta, mouse_modifiers, mouse_position, touch_force,
    touch_position, RawPointerEvent,
};
use crate::geometry::PlatformContext;

verus! {

/// An active subscription that routes one logical event kind to a single
/// caller-supplied handler, named by an opaque handle the caller chose.
#[derive(Clone, Copy, Debug, PartialEq, Eq, Structural)]
pub struct Listener {
    pub handler: u64,
}

/// An active subscription for a kind that serves both device families, with
/// one handler per family.
#[derive(Clone, Copy, Debug, PartialEq, Eq, Structural)]
pub struct SplitListener {
    pub mouse: u64,
    pub touch: u64,
}

/// An active subscription for the move kind: one handler per device family,
/// and whether touch deliveries suppress the host's default scrolling.
#[derive(Clone, Copy, Debug, PartialEq, Eq, Structural)]
pub struct MoveListener {
    pub mouse: u64,
    pub touch: u64,
    pub prevent_default: bool,
}

/// The per-surface registry of pointer subscriptions: at most one active
/// subscription per logical dispatch routine.
#[derive(Clone, Copy, Debug, PartialEq, Eq, Structural)]
pub struct PointerHandler {
    pub on_cursor_leave: Option<Listener>,
    pub on_cursor_enter: Option<Listener>,
    pub on_cursor_move: Option<MoveListener>,
    pub on_pointer_press: Option<SplitListener>,
    pub on_pointer_release: Option<SplitListener>,
    pub on_touch_cancel: Option<Listener>,
}

impl PointerHandler {
    /// No subscription is active for any kind.
    pub open spec fn is_empty(self) -> bool {
        &&& self.on_cursor_leave is None
        &&& self.on_cursor_enter is None
        &&& self.on_cursor_move is None
        &&& self.on_pointer_press is None
        &&& self.on_pointer_release is None
        &&& self.on_touch_cancel is None
    }

    /// Creates the registry with no subscription active.
    pub fn new() -> (r: PointerHandler)
        ensures
            r.is_empty(),
    {
        PointerHandler {
            on_cursor_leave: None,
            on_cursor_enter: None,
            on_cursor_move: None,
            on_pointer_press: None,
            on_pointer_release: None,
            on_touch_cancel: None,
        }
    }

    /// Subscribes `handler` to the leave kind, superseding any previous
    /// leave subscription. The other kinds are untouched.
    pub fn on_cursor_leave(&mut self, handler: u64)
        ensures
            *final(self) == (PointerHandler {
                on_cursor_leave: Some(Listener { handler }),
                ..*old(self)
            }),
    {
        self.on_cursor_leave = Some(Listener { handler });
    }

    /// Subscribes `handler` to the enter kind, superseding any previous
    /// enter subscription.
    pub fn on_cursor_enter(&mut self, handler: u64)
        ensures
            *final(self) == (PointerHandler {
                on_cursor_enter: Some(Listener { handler }),
                ..*old(self)
            }),
    {
        self.on_cursor_enter = Some(Listener { handler });
    }

    /// Subscribes a mouse handler and a touch handler to the press kind,
    /// superseding any previous press subscription.
    pub fn on_mouse_press(&mut self, mouse_handler: u64, touch_handler: u64)
        ensures
            *final(self) == (PointerHandler {
                on_pointer_press: Some(
                    SplitListener { mouse: mouse_handler, touch: touch_handler },
                ),
                ..*old(self)
            }),
    {
        self.on_pointer_press = Some(SplitListener { mouse: mouse_handler, touch: touch_handler });
    }

    /// Subscribes a mouse handler and a touch handler to the release kind,
    /// superseding any previous release subscription.
    pub fn on_mouse_release(&mut self, mouse_handler: u64, touch_handler: u64)
        ensures
            *final(self) == (PointerHandler {
                on_pointer_release: Some(
                    SplitListener { mouse: mouse_handler, touch: touch_handler },
                ),
                ..*old(self)
            }),
    {
        self.on_pointer_release = Some(
            SplitListener { mouse: mouse_handler, touch: touch_handler },
        );
    }

    /// Subscribes a mouse handler and a touch handler to the move kind,
    /// superseding any previous move subscription; `prevent_default`
    /// suppresses the host's default scrolling on touch deliveries.
    pub fn on_cursor_move(&mut self, mouse_handler: u64, touch_handler: u64, prevent_default: bool)
        ensures
            *final(self) == (PointerHandler {
                on_cursor_move: Some(
                    MoveListener { mouse: mouse_handler, touch: touch_handler, prevent_default },
                ),
                ..*old(self)
            }),
    {
        self.on_cursor_move = Some(
            MoveListener { mouse: mouse_handler, touch: touch_handler, prevent_default },
        );
    }

    /// Subscribes `handler` to the cancel kind, superseding any previous
    /// cancel subscription.
    pub fn on_touch_cancel(&mut self, handler: u64)
        ensures
            *final(self) == (PointerHandler {
                on_touch_cancel: Some(Listener { handler }),
                ..*old(self)
            }),
    {
        self.on_touch_cancel = Some(Listener { handler });
    }

    /// Tears every subscription down, whatever was active: after the call
    /// the registry is empty, so a pending host delivery fires no handler.
    /// Calling it again on the already-empty registry is a no-op.
    pub fn remove_listeners(&mut self)
        ensures
            final(self).is_empty(),
    {
        self.on_cursor_leave = None;
        self.on_cursor_enter = None;
        self.on_cursor_move = None;
        self.on_pointer_press = None;
        self.on_pointer_release = None;
        self.on_touch_cancel = None;
    }

    /// Translates one delivery on the enter channel.
    pub fn deliver_enter(&self, e: &RawPointerEvent) -> (r: Option<Invocation>)
        ensures
            r == enter_invocation_of(*self, *e),
    {
        match &self.on_cursor_enter {
            None => None,
            Some(l) => {
                if classify(e.pointer_type.as_str()) == DeviceKind::Mouse {
                    Some(
                        Invocation::CursorEnter {
                            handler: l.handler,
                            pointer: e.pointer_id,
                            modifiers: mouse_modifiers(e),
                        },
                    )
                } else {
                    None
                }
            },
        }
    }

    /// Translates one delivery on the leave channel.
    pub fn deliver_leave(&self, e: &RawPointerEvent) -> (r: Option<Invocation>)
        ensures
            r == leave_invocation_of(*self, *e),
    {
        match &self.on_cursor_leave {
            None => None,
            Some(l) => {
                if classify(e.pointer_type.as_str()) == DeviceKind::Mouse {
                    Some(
                        Invocation::CursorLeave {
                            handler: l.handler,
                            pointer: e.pointer_id,
                            modifiers: mouse_modifiers(e),
                        },
                    )
                } else {
                    None
                }
            },
        }
    }

    /// Translates one delivery on the press channel. `Err` exactly when a
    /// subscribed mouse press carries no identifiable button.
    pub fn deliver_press(&self, e: &RawPointerEvent, ctx: &PlatformContext) -> (r: Result<
        PressOutcome,
        DispatchError,
    >)
        requires
            e.wf(),
            ctx.wf(),
        ensures
            r == press_result_of(*self, *e, *ctx),
    {
        let l = match &self.on_pointer_press {
            None => {
                return Ok(PressOutcome { invocation: None, capture_request: None });
            },
            Some(l) => l,
        };
        match classify(e.pointer_type.as_str()) {
            DeviceKind::Touch => Ok(
                PressOutcome {
                    invocation: Some(
                        Invocation::TouchPress {
                            handler: l.touch,
                            pointer: e.pointer_id,
                            position: touch_position(e, ctx),
                            force: touch_force(e),
                        },
                    ),
                    capture_request: None,
                },
            ),
            DeviceKind::Mouse => match mouse_button(e) {
                None => Err(DispatchError::MissingButton),
                Some(button) => Ok(
                    PressOutcome {
                        invocation: Some(
                            Invocation::MousePress {
                                handler: l.mouse,
                                pointer: e.pointer_id,
                                position: mouse_position(e, ctx),
                                button,
                                modifiers: mouse_modifiers(e),
                            },
                        ),
                        capture_request: Some(e.pointer_id),
                    },
                ),
            },
            DeviceKind::Other => Ok(PressOutcome { invocation: None, capture_request: None }),
        }
    }

    /// Translates one delivery on the release channel. `Err` exactly when a
    /// subscribed mouse release carries no identifiable button.
    pub fn deliver_release(&self, e: &RawPointerEvent, ctx: &PlatformContext) -> (r: Result<
        Option<Invocation>,
        DispatchError,
    >)
        requires
            e.wf(),
            ctx.wf(),
        ensures
            r == release_result_of(*self, *e, *ctx),
    {
        let l = match &self.on_pointer_release {
            None => {
                return Ok(None);
            },
            Some(l) => l,
        };
        match classify(e.pointer_type.as_str()) {
            DeviceKind::Touch => Ok(
                Some(
                    Invocation::TouchRelease {
                        handler: l.touch,
                        pointer: e.pointer_id,
                        position: touch_position(e, ctx),
                        force: touch_force(e),
                    },
                ),
            ),
            DeviceKind::Mouse => match mouse_button(e) {
                None => Err(DispatchError::MissingButton),
                Some(button) => Ok(
                    Some(
                        Invocation::MouseRelease {
                            handler: l.mouse,
                            pointer: e.pointer_id,
                            button,
                            modifiers: mouse_modifiers(e),
                        },
                    ),
                ),
            },
            DeviceKind::Other => Ok(None),
        }
    }

    /// Translates one delivery on the cancel channel.
    pub fn deliver_cancel(&self, e: &RawPointerEvent, ctx: &PlatformContext) -> (r: Option<
        Invocation,
    >)
        requires
            e.wf(),
            ctx.wf(),
        ensures
            r == cancel_invocation_of(*self, *e, *ctx),
    {
        match &self.on_touch_cancel {
            None => None,
            Some(l) => {
                if classify(e.pointer_type.as_str()) == DeviceKind::Touch {
                    Some(
                        Invocation::TouchCancel {
                            handler: l.handler,
                            pointer: e.pointer_id,
                            position: touch_position(e, ctx),
                            force: touch_force(e),
                        },
                    )
                } else {
                    None
                }
            },
        }
    }

    /// Translates one delivery on the move channel. `coalesced` is the
    /// host's coalesced batch where the accessor exists (`None` where the
    /// host lacks it); the delivery expands into one invocation per
    /// sub-event, in host order.
    pub fn deliver_move(
        &self,
        root: RawPointerEvent,
        coalesced: Option<Vec<RawPointerEvent>>,
        ctx: &PlatformContext,
    ) -> (r: MoveOutcome)
        requires
            root.wf(),
            batch_wf(batch_view(coalesced)),
            ctx.wf(),
        ensures
            r.invocations@ == move_invocations_of(*self, root, batch_view(coalesced), *ctx),
            r.prevent_default == move_prevents_default(*self, root),
    {
        let ghost groot = root;
        let ghost gbatch = batch_view(coalesced);
        let l = match &self.on_cursor_move {
            None => {
                return MoveOutcome { invocations: Vec::new(), prevent_default: false };
            },
            Some(l) => l,
        };
        let kind = classify(root.pointer_type.as_str());
        if kind == DeviceKind::Other {
            return MoveOutcome { invocations: Vec::new(), prevent_default: false };
        }
        let prevent_default = l.prevent_default && kind == DeviceKind::Touch;
        let events: Vec<RawPointerEvent> = match coalesced {
            Some(batch) => {
                if batch.len() > 0 {
                    batch
                } else {
                    let mut singleton = Vec::new();
                    singleton.push(root);
                    singleton
                }
            },
            None => {
                let mut singleton = Vec::new();
                singleton.push(root);
                singleton
            },
        };
        proof {
            assert(events@ =~= expanded_events(groot, gbatch));
        }
        let ghost expanded = events@;
        let mut invocations: Vec<Invocation> = Vec::new();
        let mut i: usize = 0;
        while i < events.len()
            invariant
                0 <= i <= events.len(),
                events@ == expanded,
                kind == DeviceKind::Mouse || kind == DeviceKind::Touch,
                forall|j: int| 0 <= j < expanded.len() ==> (#[trigger] expanded[j]).wf(),
                ctx.wf(),
                invocations@.len() == i,
                forall|j: int|
                    0 <= j < i ==> #[trigger] invocations@[j] == move_invocation_of(
                        *l,
                        kind,
                        expanded[j],
                        *ctx,
                    ),
            decreases events.len() - i,
        {
            let e = &events[i];
            let invocation = if kind == DeviceKind::Mouse {
                Invocation::MouseMove {
                    handler: l.mouse,
                    pointer: e.pointer_id,
                    position: mouse_position(e, ctx),
                    delta: mouse_delta(e, ctx),
                    modifiers: mouse_modifiers(e),
                    buttons: mouse_buttons(e),
                    button: mouse_button(e),
                }
            } else {
                Invocation::TouchMove {
                    handler: l.touch,
                    pointer: e.pointer_id,
                    position: touch_position(e, ctx),
                    force: touch_force(e),
                }
            };
            invocations.push(invocation);
            i = i + 1;
        }
        proof {
            assert(invocations@ =~= move_invocations_of(*self, groot, gbatch, *ctx));
        }
        MoveOutcome { invocations, prevent_default }
    }
}

} // verus!
