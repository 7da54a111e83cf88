use web_pointer::buttons::{bit, button_held, mouse_button};
use web_pointer::events::{
    device_id, pointer_crossing, pointer_kind, pointer_move, pointer_press, pointer_release,
    pointer_type_from_name,
};
use web_pointer::handler::{event_type, ListenerSlot, PointerHandler};
use web_pointer::types::{
    ButtonSource, ElementState, Modifiers, MouseButton, MoveOutcome, PointerEventData, PointerKind,
    PointerSource, PointerType, SampleData,
};

fn mods(shift: bool) -> Modifiers {
    Modifiers { shift, control: false, alt: true, meta: false }
}

fn event(pointer_id: i32, pointer_type: PointerType, button: i16, buttons: u16) -> PointerEventData {
    PointerEventData { pointer_id, pointer_type, is_primary: true, button, buttons, modifiers: mods(true) }
}

#[test]
fn pointer_type_names() {
    assert_eq!(pointer_type_from_name(b"mouse"), PointerType::Mouse);
    assert_eq!(pointer_type_from_name(b"pen"), PointerType::Pen);
    assert_eq!(pointer_type_from_name(b"touch"), PointerType::Touch);
    assert_eq!(pointer_type_from_name(b""), PointerType::Other);
    assert_eq!(pointer_type_from_name(b"Mouse"), PointerType::Other);
    assert_eq!(pointer_type_from_name(b"touches"), PointerType::Other);
}

#[test]
fn device_ids() {
    assert_eq!(device_id(0), Some(0));
    assert_eq!(device_id(42), Some(42));
    assert_eq!(device_id(-1), None);
    assert_eq!(device_id(i32::MIN), None);
}

#[test]
fn pointer_kinds() {
    assert_eq!(pointer_kind(PointerType::Mouse, 1), PointerKind::Mouse);
    assert_eq!(pointer_kind(PointerType::Touch, 7), PointerKind::Touch(7));
    assert_eq!(pointer_kind(PointerType::Pen, 9), PointerKind::Pen(9));
    assert_eq!(pointer_kind(PointerType::Other, 9), PointerKind::Unknown);
}

#[test]
fn dom_buttons_decode() {
    assert_eq!(mouse_button(-1), None);
    assert_eq!(mouse_button(-5), None);
    assert_eq!(mouse_button(0), Some(MouseButton::Left));
    assert_eq!(mouse_button(1), Some(MouseButton::Middle));
    assert_eq!(mouse_button(2), Some(MouseButton::Right));
    assert_eq!(mouse_button(3), Some(MouseButton::Back));
    assert_eq!(mouse_button(4), Some(MouseButton::Forward));
    assert_eq!(mouse_button(5), Some(MouseButton::Other(5)));
}

#[test]
fn button_ids_and_bits() {
    assert_eq!(MouseButton::Left.to_id(), 0);
    assert_eq!(MouseButton::Right.to_id(), 1);
    assert_eq!(MouseButton::Middle.to_id(), 2);
    assert_eq!(MouseButton::Back.to_id(), 3);
    assert_eq!(MouseButton::Forward.to_id(), 4);
    assert_eq!(MouseButton::Other(12).to_id(), 12);
    assert_eq!(bit(0), 1);
    assert_eq!(bit(5), 32);
    assert_eq!(bit(15), 32768);
    assert_eq!(bit(16), 0);
}

#[test]
fn held_buttons() {
    // left and middle held
    let buttons = 1 | 4;
    assert!(button_held(buttons, MouseButton::Left));
    assert!(!button_held(buttons, MouseButton::Right));
    assert!(button_held(buttons, MouseButton::Middle));
    assert!(!button_held(buttons, MouseButton::Back));
    assert!(button_held(32, MouseButton::Other(5)));
    assert!(!button_held(u16::MAX, MouseButton::Other(16)));
}

#[test]
fn crossing_reports_the_event() {
    let r = pointer_crossing(&event(3, PointerType::Touch, -1, 0));
    assert_eq!(r.modifiers, mods(true));
    assert_eq!(r.device_id, Some(3));
    assert!(r.primary);
    assert_eq!(r.kind, PointerKind::Touch(3));
    let r = pointer_crossing(&event(-1, PointerType::Other, -1, 0));
    assert_eq!(r.device_id, None);
    assert_eq!(r.kind, PointerKind::Unknown);
}

#[test]
fn mouse_press_captures_the_pointer() {
    let o = pointer_press(&event(1, PointerType::Mouse, 2, 2), true);
    assert!(o.prevent_default);
    let p = o.pressed.unwrap();
    assert_eq!(p.capture_pointer, Some(1));
    assert_eq!(p.report.source, ButtonSource::Mouse(MouseButton::Right));
    assert_eq!(p.report.device_id, Some(1));
}

#[test]
fn touch_and_pen_presses_do_not_capture() {
    let o = pointer_press(&event(4, PointerType::Touch, 0, 1), false);
    assert!(!o.prevent_default);
    let p = o.pressed.unwrap();
    assert_eq!(p.capture_pointer, None);
    assert_eq!(p.report.source, ButtonSource::Touch { finger_id: 4 });
    let p = pointer_press(&event(6, PointerType::Pen, 0, 1), true).pressed.unwrap();
    assert_eq!(p.capture_pointer, None);
    assert_eq!(p.report.source, ButtonSource::Pen { pen_id: 6 });
}

#[test]
fn unknown_pointer_reports_the_button_id() {
    let r = pointer_release(&event(8, PointerType::Other, 2, 0));
    assert_eq!(r.source, ButtonSource::Unknown(1));
    let r = pointer_release(&event(8, PointerType::Other, 1, 0));
    assert_eq!(r.source, ButtonSource::Unknown(2));
}

#[test]
fn press_and_release_report_alike() {
    for ty in [PointerType::Mouse, PointerType::Pen, PointerType::Touch, PointerType::Other] {
        let ev = event(5, ty, 3, 8);
        assert_eq!(pointer_press(&ev, true).pressed.unwrap().report, pointer_release(&ev));
    }
}

#[test]
fn chorded_move_press_and_release() {
    let pressed = pointer_move(&event(1, PointerType::Mouse, 1, 4 | 1), &vec![], true);
    match pressed {
        MoveOutcome::Button { prevent_default, change, unexpected_touch_button } => {
            assert!(prevent_default);
            assert_eq!(unexpected_touch_button, None);
            assert_eq!(change.state, ElementState::Pressed);
            assert_eq!(change.source, ButtonSource::Mouse(MouseButton::Middle));
            assert_eq!(change.device_id, Some(1));
        },
        _ => panic!("expected a button change"),
    }
    let released = pointer_move(&event(2, PointerType::Touch, 0, 0), &vec![], false);
    match released {
        MoveOutcome::Button { prevent_default, change, unexpected_touch_button } => {
            assert!(!prevent_default);
            assert_eq!(unexpected_touch_button, Some(0));
            assert_eq!(change.state, ElementState::Released);
            assert_eq!(change.source, ButtonSource::Touch { finger_id: 2 });
        },
        _ => panic!("expected a button change"),
    }
}

#[test]
fn chorded_pen_move_reports_the_button_id() {
    let out = pointer_move(&event(9, PointerType::Pen, 5, 32), &vec![], false);
    match out {
        MoveOutcome::Button { change, .. } => {
            assert_eq!(change.state, ElementState::Pressed);
            assert_eq!(change.source, ButtonSource::Unknown(5));
        },
        _ => panic!("expected a button change"),
    }
}

#[test]
fn cursor_move_keeps_every_sample() {
    let samples = vec![
        SampleData { modifiers: mods(false), is_primary: true },
        SampleData { modifiers: mods(true), is_primary: false },
        SampleData { modifiers: mods(false), is_primary: true },
    ];
    let out = pointer_move(&event(11, PointerType::Pen, -1, 1), &samples, true);
    match out {
        MoveOutcome::Cursor { device_id, samples: got } => {
            assert_eq!(device_id, Some(11));
            assert_eq!(got.len(), 3);
            for (g, s) in got.iter().zip(samples.iter()) {
                assert_eq!(g.modifiers, s.modifiers);
                assert_eq!(g.primary, s.is_primary);
                assert_eq!(g.source, PointerSource::Pen { pen_id: 11 });
            }
        },
        _ => panic!("expected cursor movements"),
    }
    let out = pointer_move(&event(-1, PointerType::Mouse, -1, 0), &vec![], false);
    assert_eq!(out, MoveOutcome::Cursor { device_id: None, samples: vec![] });
}

#[test]
fn handler_registers_and_removes_listeners() {
    let mut h: PointerHandler<&str> = PointerHandler::new();
    let slots = [
        ListenerSlot::CursorLeave,
        ListenerSlot::CursorEnter,
        ListenerSlot::CursorMove,
        ListenerSlot::PointerPress,
        ListenerSlot::PointerRelease,
        ListenerSlot::TouchCancel,
    ];
    for s in slots {
        assert_eq!(h.listener(s), None);
    }
    h.on_pointer_leave("out");
    h.on_pointer_enter("over");
    h.on_pointer_move("move");
    h.on_pointer_press("down");
    h.on_pointer_release("up");
    assert_eq!(h.listener(ListenerSlot::CursorLeave), Some(&"out"));
    assert_eq!(h.listener(ListenerSlot::CursorEnter), Some(&"over"));
    assert_eq!(h.listener(ListenerSlot::CursorMove), Some(&"move"));
    assert_eq!(h.listener(ListenerSlot::PointerPress), Some(&"down"));
    assert_eq!(h.listener(ListenerSlot::PointerRelease), Some(&"up"));
    assert_eq!(h.listener(ListenerSlot::TouchCancel), None);
    h.on_pointer_press("down again");
    assert_eq!(h.listener(ListenerSlot::PointerPress), Some(&"down again"));
    h.remove_listeners();
    for s in slots {
        assert_eq!(h.listener(s), None);
    }
}

#[test]
fn sources_with_force_and_tilt() {
    assert!(ButtonSource::Touch { finger_id: 1 }.has_force());
    assert!(ButtonSource::Pen { pen_id: 1 }.has_force());
    assert!(!ButtonSource::Mouse(MouseButton::Left).has_force());
    assert!(!ButtonSource::Unknown(3).has_force());
    assert!(PointerSource::Touch { finger_id: 1 }.has_force());
    assert!(PointerSource::Pen { pen_id: 1 }.has_force());
    assert!(!PointerSource::Mouse.has_force());
    assert!(!PointerSource::Unknown.has_force());
    assert!(PointerSource::Pen { pen_id: 1 }.has_tilt());
    assert!(!PointerSource::Touch { finger_id: 1 }.has_tilt());
}

#[test]
fn press_without_a_button_still_prevents_default() {
    let o = pointer_press(&event(1, PointerType::Mouse, -1, 0), true);
    assert!(o.prevent_default);
    assert_eq!(o.pressed, None);
    let o = pointer_press(&event(1, PointerType::Touch, -1, 0), false);
    assert!(!o.prevent_default);
    assert_eq!(o.pressed, None);
}

#[test]
fn touch_chord_with_button_id_one_is_expected() {
    // DOM button 2 is the right button, whose id is 1
    match pointer_move(&event(3, PointerType::Touch, 2, 2), &vec![], false) {
        MoveOutcome::Button { change, unexpected_touch_button, .. } => {
            assert_eq!(unexpected_touch_button, None);
            assert_eq!(change.source, ButtonSource::Touch { finger_id: 3 });
        },
        _ => panic!("expected a button change"),
    }
    // a mouse chord is never reported as an unexpected touch button
    match pointer_move(&event(3, PointerType::Mouse, 0, 1), &vec![], false) {
        MoveOutcome::Button { unexpected_touch_button, .. } => assert_eq!(unexpected_touch_button, None),
        _ => panic!("expected a button change"),
    }
}

#[test]
fn slots_answer_their_dom_events() {
    assert_eq!(event_type(ListenerSlot::CursorLeave), "pointerout");
    assert_eq!(event_type(ListenerSlot::CursorEnter), "pointerover");
    assert_eq!(event_type(ListenerSlot::CursorMove), "pointermove");
    assert_eq!(event_type(ListenerSlot::PointerPress), "pointerdown");
    assert_eq!(event_type(ListenerSlot::PointerRelease), "pointerup");
    assert_eq!(event_type(ListenerSlot::TouchCancel), "pointercancel");
}
