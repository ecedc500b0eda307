//! The library-wide guarantees, each proved of the dispatch specifications
//! that the `deliver_*` methods' contracts are stated over.

use vstd::prelude::*;

use crate::device::{spec_classify, DeviceKind};
use crate::dispatch::{
    batch_wf, cancel_invocation_of, enter_invocation_of, expanded_events, leave_invocation_of,
    move_invocation_of, move_invocations_of, move_prevents_default, press_nothing,
    press_result_of, release_result_of, DispatchError, Invocation,
};
use crate::event::{spec_mouse_buttons, spec_mouse_modifiers, RawPointerEvent};
use crate::geometry::PlatformContext;
use crate::handler::{MoveListener, PointerHandler};

verus! {

/// Any force the invocation carries is normalized; vacuous for `None`.
pub open spec fn opt_force_wf(o: Option<Invocation>) -> bool {
    o matches Some(inv) ==> inv.force_wf()
}

/// Two raw events snapshot the same mouse state: the same modifier keys and
/// the same held-buttons bitmask.
pub open spec fn same_mouse_state(a: RawPointerEvent, b: RawPointerEvent) -> bool {
    &&& spec_mouse_modifiers(a) == spec_mouse_modifiers(b)
    &&& spec_mouse_buttons(a) == spec_mouse_buttons(b)
}

/// A raw event classified as neither mouse nor touch fires no handler on any
/// of the six routines: every one of them drops it silently, whatever is
/// registered.
pub proof fn lemma_other_device_dropped(
    reg: PointerHandler,
    e: RawPointerEvent,
    coalesced: Option<Seq<RawPointerEvent>>,
    ctx: PlatformContext,
)
    requires
        spec_classify(e.pointer_type@) == DeviceKind::Other,
    ensures
        enter_invocation_of(reg, e) is None,
        leave_invocation_of(reg, e) is None,
        press_result_of(reg, e, ctx) == press_nothing(),
        release_result_of(reg, e, ctx) == Ok::<Option<Invocation>, DispatchError>(None),
        cancel_invocation_of(reg, e, ctx) is None,
        move_invocations_of(reg, e, coalesced, ctx) =~= Seq::<Invocation>::empty(),
        !move_prevents_default(reg, e),
{
}

/// After teardown no handler may fire: the empty registry produces no
/// invocation, no capture request, and no prevent-default side effect on any
/// channel, even for a delivery already in flight on the host side.
pub proof fn lemma_empty_registry_silent(
    reg: PointerHandler,
    e: RawPointerEvent,
    coalesced: Option<Seq<RawPointerEvent>>,
    ctx: PlatformContext,
)
    requires
        reg.is_empty(),
    ensures
        enter_invocation_of(reg, e) is None,
        leave_invocation_of(reg, e) is None,
        press_result_of(reg, e, ctx) == press_nothing(),
        release_result_of(reg, e, ctx) == Ok::<Option<Invocation>, DispatchError>(None),
        cancel_invocation_of(reg, e, ctx) is None,
        move_invocations_of(reg, e, coalesced, ctx) =~= Seq::<Invocation>::empty(),
        !move_prevents_default(reg, e),
{
}

/// Every force handed to a handler is normalized: for well-formed deliveries
/// each invocation of any routine carries a force in `[0, 1]`, if it carries
/// one at all.
pub proof fn lemma_force_normalized(
    reg: PointerHandler,
    e: RawPointerEvent,
    coalesced: Option<Seq<RawPointerEvent>>,
    ctx: PlatformContext,
)
    requires
        e.wf(),
        batch_wf(coalesced),
    ensures
        opt_force_wf(enter_invocation_of(reg, e)),
        opt_force_wf(leave_invocation_of(reg, e)),
        press_result_of(reg, e, ctx) matches Ok(o) ==> opt_force_wf(o.invocation),
        release_result_of(reg, e, ctx) matches Ok(o) ==> opt_force_wf(o),
        opt_force_wf(cancel_invocation_of(reg, e, ctx)),
        forall|i: int|
            0 <= i < move_invocations_of(reg, e, coalesced, ctx).len() ==> (
            #[trigger] move_invocations_of(reg, e, coalesced, ctx)[i]).force_wf(),
{
    let out = move_invocations_of(reg, e, coalesced, ctx);
    assert forall|i: int| 0 <= i < out.len() implies (#[trigger] out[i]).force_wf() by {
        let expanded = expanded_events(e, coalesced);
        assert(expanded[i].wf());
    }
}

/// Coalesced expansion is exact. A delivery whose host exposes no coalesced
/// accessor, or an empty batch (a chorded button change), produces exactly
/// one invocation, built from the root event's own attributes. A batch of
/// `N > 0` sub-events produces exactly `N` invocations, in batch order, the
/// `i`-th built from the `i`-th sub-event's own attributes and not from the
/// root's.
pub proof fn lemma_coalesced_expansion(
    reg: PointerHandler,
    l: MoveListener,
    root: RawPointerEvent,
    coalesced: Option<Seq<RawPointerEvent>>,
    ctx: PlatformContext,
)
    requires
        reg.on_cursor_move == Some(l),
        spec_classify(root.pointer_type@) != DeviceKind::Other,
    ensures
        coalesced is None ==> move_invocations_of(reg, root, coalesced, ctx) =~= seq![
            move_invocation_of(l, spec_classify(root.pointer_type@), root, ctx),
        ],
        coalesced matches Some(b) ==> b.len() == 0 ==> move_invocations_of(
            reg,
            root,
            coalesced,
            ctx,
        ) =~= seq![move_invocation_of(l, spec_classify(root.pointer_type@), root, ctx)],
        coalesced matches Some(b) ==> b.len() > 0 ==> {
            &&& move_invocations_of(reg, root, coalesced, ctx).len() == b.len()
            &&& forall|i: int|
                0 <= i < b.len() ==> #[trigger] move_invocations_of(reg, root, coalesced, ctx)[i]
                    == move_invocation_of(l, spec_classify(root.pointer_type@), b[i], ctx)
        },
{
}

/// Within one mouse move delivery whose batch snapshots a single hardware
/// tick (no modifier or button changes mid-batch), every sub-event
/// invocation reports the same modifiers and the same buttons as every
/// other.
pub proof fn lemma_mouse_batch_uniform_state(
    reg: PointerHandler,
    root: RawPointerEvent,
    coalesced: Option<Seq<RawPointerEvent>>,
    ctx: PlatformContext,
)
    requires
        spec_classify(root.pointer_type@) == DeviceKind::Mouse,
        coalesced matches Some(b) ==> forall|i: int|
            0 <= i < b.len() ==> same_mouse_state(#[trigger] b[i], root),
    ensures
        forall|i: int|
            0 <= i < move_invocations_of(reg, root, coalesced, ctx).len() ==> (
            #[trigger] move_invocations_of(reg, root, coalesced, ctx)[i]) is MouseMove,
        forall|i: int, j: int|
            0 <= i < move_invocations_of(reg, root, coalesced, ctx).len() && 0 <= j
                < move_invocations_of(reg, root, coalesced, ctx).len() ==> {
                let a = #[trigger] move_invocations_of(reg, root, coalesced, ctx)[i];
                let b = #[trigger] move_invocations_of(reg, root, coalesced, ctx)[j];
                a->MouseMove_modifiers == b->MouseMove_modifiers && a->MouseMove_buttons
                    == b->MouseMove_buttons
            },
{
    let out = move_invocations_of(reg, root, coalesced, ctx);
    let expanded = expanded_events(root, coalesced);
    assert forall|i: int| 0 <= i < out.len() implies same_mouse_state(expanded[i], root) by {
        match coalesced {
            Some(b) => {
                if b.len() > 0 {
                    assert(same_mouse_state(b[i], root));
                }
            },
            None => {},
        }
    }
}

/// Installing a new move handler strictly supersedes the old one: once the
/// registry holds a listener whose handles differ from a superseded
/// handler's handle, no move delivery addresses that handler again.
pub proof fn lemma_replaced_handler_never_fires(
    reg: PointerHandler,
    l: MoveListener,
    superseded: u64,
    root: RawPointerEvent,
    coalesced: Option<Seq<RawPointerEvent>>,
    ctx: PlatformContext,
)
    requires
        reg.on_cursor_move == Some(l),
        l.mouse != superseded,
        l.touch != superseded,
    ensures
        forall|i: int|
            0 <= i < move_invocations_of(reg, root, coalesced, ctx).len() ==> (
            #[trigger] move_invocations_of(reg, root, coalesced, ctx)[i]).handler()
                != superseded,
{
}

} // verus!
