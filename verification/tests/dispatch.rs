use pointer_events::dispatch::{DispatchError, Invocation, PressOutcome};
use pointer_events::event::RawPointerEvent;
use pointer_events::geometry::{
    LogicalPosition, PhysicalPosition, PlatformContext, ScaleFactor, Surface,
};
use pointer_events::handler::PointerHandler;
use pointer_events::input::{Force, ModifiersState, MouseButton, FORCE_UNIT};

const ENTER: u64 = 10;
const LEAVE: u64 = 11;
const PRESS_MOUSE: u64 = 20;
const PRESS_TOUCH: u64 = 21;
const RELEASE_MOUSE: u64 = 30;
const RELEASE_TOUCH: u64 = 31;
const MOVE_MOUSE: u64 = 40;
const MOVE_TOUCH: u64 = 41;
const CANCEL: u64 = 50;

fn raw(pointer_type: &str) -> RawPointerEvent {
    RawPointerEvent {
        pointer_type: String::from(pointer_type),
        pointer_id: 0,
        button: -1,
        buttons: 0,
        shift: false,
        control: false,
        alt: false,
        meta: false,
        position: LogicalPosition { x: 0, y: 0 },
        client_position: LogicalPosition { x: 0, y: 0 },
        delta: LogicalPosition { x: 0, y: 0 },
        pressure: 0,
    }
}

fn unit_ctx() -> PlatformContext {
    PlatformContext {
        scale: ScaleFactor { per_mille: 1000 },
        surface: Surface { origin: LogicalPosition { x: 0, y: 0 } },
    }
}

fn full_registry() -> PointerHandler {
    let mut h = PointerHandler::new();
    h.on_cursor_enter(ENTER);
    h.on_cursor_leave(LEAVE);
    h.on_mouse_press(PRESS_MOUSE, PRESS_TOUCH);
    h.on_mouse_release(RELEASE_MOUSE, RELEASE_TOUCH);
    h.on_cursor_move(MOVE_MOUSE, MOVE_TOUCH, false);
    h.on_touch_cancel(CANCEL);
    h
}

#[test]
fn other_device_fires_no_handler() {
    let h = full_registry();
    let ctx = unit_ctx();
    assert_eq!(h.deliver_enter(&raw("pen")), None);
    assert_eq!(h.deliver_leave(&raw("pen")), None);
    assert_eq!(
        h.deliver_press(&raw("pen"), &ctx),
        Ok(PressOutcome { invocation: None, capture_request: None })
    );
    assert_eq!(h.deliver_release(&raw("pen"), &ctx), Ok(None));
    assert_eq!(h.deliver_cancel(&raw("pen"), &ctx), None);
    let out = h.deliver_move(raw("pen"), Some(vec![raw("pen")]), &ctx);
    assert!(out.invocations.is_empty());
    assert!(!out.prevent_default);
}

#[test]
fn enter_fires_for_mouse_only() {
    let h = full_registry();
    let mut e = raw("mouse");
    e.pointer_id = 3;
    e.control = true;
    assert_eq!(
        h.deliver_enter(&e),
        Some(Invocation::CursorEnter {
            handler: ENTER,
            pointer: 3,
            modifiers: ModifiersState { shift: false, control: true, alt: false, meta: false },
        })
    );
    assert_eq!(h.deliver_enter(&raw("touch")), None);
}

#[test]
fn leave_during_touch_fires_nothing() {
    let h = full_registry();
    assert_eq!(h.deliver_leave(&raw("touch")), None);
}

#[test]
fn mouse_press_without_button_fails() {
    let h = full_registry();
    let ctx = unit_ctx();
    let mut e = raw("mouse");
    e.button = -1;
    assert_eq!(h.deliver_press(&e, &ctx), Err(DispatchError::MissingButton));
    assert_eq!(h.deliver_release(&e, &ctx), Err(DispatchError::MissingButton));
}

#[test]
fn mouse_click_scenario() {
    let h = full_registry();
    let ctx = PlatformContext {
        scale: ScaleFactor { per_mille: 2000 },
        surface: Surface { origin: LogicalPosition { x: 0, y: 0 } },
    };
    let mut e = raw("mouse");
    e.pointer_id = 1;
    e.button = 0;
    e.position = LogicalPosition { x: 10, y: 20 };
    let out = h.deliver_press(&e, &ctx).unwrap();
    assert_eq!(
        out.invocation,
        Some(Invocation::MousePress {
            handler: PRESS_MOUSE,
            pointer: 1,
            position: PhysicalPosition { x: 20_000, y: 40_000 },
            button: MouseButton::Left,
            modifiers: ModifiersState { shift: false, control: false, alt: false, meta: false },
        })
    );
    assert_eq!(out.capture_request, Some(1));
}

#[test]
fn touch_press_reports_position_and_force() {
    let h = full_registry();
    let ctx = unit_ctx();
    let mut e = raw("touch");
    e.pointer_id = 9;
    e.client_position = LogicalPosition { x: 7, y: 8 };
    e.pressure = FORCE_UNIT;
    let out = h.deliver_press(&e, &ctx).unwrap();
    assert_eq!(
        out.invocation,
        Some(Invocation::TouchPress {
            handler: PRESS_TOUCH,
            pointer: 9,
            position: PhysicalPosition { x: 7_000, y: 8_000 },
            force: Force::Normalized(FORCE_UNIT),
        })
    );
    assert_eq!(out.capture_request, None);
}

#[test]
fn mouse_release_reports_button_and_modifiers() {
    let h = full_registry();
    let ctx = unit_ctx();
    let mut e = raw("mouse");
    e.pointer_id = 2;
    e.button = 2;
    e.alt = true;
    assert_eq!(
        h.deliver_release(&e, &ctx),
        Ok(Some(Invocation::MouseRelease {
            handler: RELEASE_MOUSE,
            pointer: 2,
            button: MouseButton::Right,
            modifiers: ModifiersState { shift: false, control: false, alt: true, meta: false },
        }))
    );
}

#[test]
fn touch_release_and_cancel_report_force() {
    let h = full_registry();
    let ctx = unit_ctx();
    let mut e = raw("touch");
    e.pointer_id = 4;
    e.client_position = LogicalPosition { x: 1, y: 2 };
    e.pressure = 250_000;
    assert_eq!(
        h.deliver_release(&e, &ctx),
        Ok(Some(Invocation::TouchRelease {
            handler: RELEASE_TOUCH,
            pointer: 4,
            position: PhysicalPosition { x: 1_000, y: 2_000 },
            force: Force::Normalized(250_000),
        }))
    );
    assert_eq!(
        h.deliver_cancel(&e, &ctx),
        Some(Invocation::TouchCancel {
            handler: CANCEL,
            pointer: 4,
            position: PhysicalPosition { x: 1_000, y: 2_000 },
            force: Force::Normalized(250_000),
        })
    );
    assert_eq!(h.deliver_cancel(&raw("mouse"), &ctx), None);
}

#[test]
fn forces_stay_in_unit_range() {
    let h = full_registry();
    let ctx = unit_ctx();
    for pressure in [0u32, 1, 437_500, FORCE_UNIT] {
        let mut e = raw("touch");
        e.pressure = pressure;
        let press = h.deliver_press(&e, &ctx).unwrap().invocation.unwrap();
        match press {
            Invocation::TouchPress { force, .. } => assert!(force.value() <= FORCE_UNIT),
            _ => panic!("expected a touch press"),
        }
        let moved = h.deliver_move(e, None, &ctx);
        match moved.invocations[0] {
            Invocation::TouchMove { force, .. } => assert!(force.value() <= FORCE_UNIT),
            _ => panic!("expected a touch move"),
        }
    }
}
