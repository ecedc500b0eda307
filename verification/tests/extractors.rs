use pointer_events::device::{classify, DeviceKind};
use pointer_events::event::{
    mouse_button, mouse_buttons, mouse_delta, mouse_modifiers, mouse_position, touch_force,
    touch_position, RawPointerEvent,
};
use pointer_events::geometry::{
    to_physical, LogicalPosition, PhysicalPosition, PlatformContext, ScaleFactor, Surface,
};
use pointer_events::input::{ButtonsState, Force, ModifiersState, MouseButton};

fn raw(pointer_type: &str) -> RawPointerEvent {
    RawPointerEvent {
        pointer_type: String::from(pointer_type),
        pointer_id: 0,
        button: -1,
        buttons: 0,
        shift: false,
        control: false,
        alt: false,
        meta: false,
        position: LogicalPosition { x: 0, y: 0 },
        client_position: LogicalPosition { x: 0, y: 0 },
        delta: LogicalPosition { x: 0, y: 0 },
        pressure: 0,
    }
}

fn ctx(per_mille: u32, origin_x: i32, origin_y: i32) -> PlatformContext {
    PlatformContext {
        scale: ScaleFactor { per_mille },
        surface: Surface { origin: LogicalPosition { x: origin_x, y: origin_y } },
    }
}

#[test]
fn classify_recognizes_device_types() {
    assert_eq!(classify("mouse"), DeviceKind::Mouse);
    assert_eq!(classify("touch"), DeviceKind::Touch);
    assert_eq!(classify("pen"), DeviceKind::Other);
    assert_eq!(classify(""), DeviceKind::Other);
    assert_eq!(classify("Mouse"), DeviceKind::Other);
}

#[test]
fn mouse_button_index_mapping() {
    let mut e = raw("mouse");
    e.button = -1;
    assert_eq!(mouse_button(&e), None);
    e.button = 0;
    assert_eq!(mouse_button(&e), Some(MouseButton::Left));
    e.button = 1;
    assert_eq!(mouse_button(&e), Some(MouseButton::Middle));
    e.button = 2;
    assert_eq!(mouse_button(&e), Some(MouseButton::Right));
    e.button = 3;
    assert_eq!(mouse_button(&e), Some(MouseButton::Back));
    e.button = 4;
    assert_eq!(mouse_button(&e), Some(MouseButton::Forward));
    e.button = 7;
    assert_eq!(mouse_button(&e), Some(MouseButton::Other(7)));
}

#[test]
fn modifiers_snapshot_reads_all_keys() {
    let mut e = raw("mouse");
    e.shift = true;
    e.meta = true;
    assert_eq!(
        mouse_modifiers(&e),
        ModifiersState { shift: true, control: false, alt: false, meta: true }
    );
}

#[test]
fn buttons_bitmask_queries() {
    let mut e = raw("mouse");
    e.buttons = 0b101;
    let b = mouse_buttons(&e);
    assert_eq!(b, ButtonsState { bits: 5 });
    assert!(b.left());
    assert!(!b.right());
    assert!(b.middle());
}

#[test]
fn to_physical_scales_exactly() {
    let p = to_physical(LogicalPosition { x: 10, y: 20 }, ScaleFactor { per_mille: 2000 });
    assert_eq!(p, PhysicalPosition { x: 20_000, y: 40_000 });
    let half = to_physical(LogicalPosition { x: -8, y: 3 }, ScaleFactor { per_mille: 1500 });
    assert_eq!(half, PhysicalPosition { x: -12_000, y: 4_500 });
}

#[test]
fn mouse_position_and_delta_use_surface_relative_fields() {
    let mut e = raw("mouse");
    e.position = LogicalPosition { x: 3, y: 4 };
    e.delta = LogicalPosition { x: -1, y: 2 };
    let c = ctx(1000, 100, 100);
    assert_eq!(mouse_position(&e, &c), PhysicalPosition { x: 3_000, y: 4_000 });
    assert_eq!(mouse_delta(&e, &c), PhysicalPosition { x: -1_000, y: 2_000 });
}

#[test]
fn touch_position_maps_through_surface_origin() {
    let mut e = raw("touch");
    e.client_position = LogicalPosition { x: 15, y: 25 };
    let c = ctx(1000, 5, 5);
    assert_eq!(touch_position(&e, &c), PhysicalPosition { x: 10_000, y: 20_000 });
}

#[test]
fn touch_force_is_normalized_pressure() {
    let mut e = raw("touch");
    e.pressure = 437_500;
    let f = touch_force(&e);
    assert_eq!(f, Force::Normalized(437_500));
    assert_eq!(f.value(), 437_500);
}
