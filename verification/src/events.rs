use vstd::prelude::*;
use crate::types::{
    ButtonChange, ButtonReport, ButtonSource, CrossingReport, CursorSample, ElementState, MouseButton,
    MoveOutcome, PointerEventData, PointerKind, PointerSource, PointerType, PressOutcome, PressedButton,
    SampleData,
};
use crate::buttons::{mouse_button, mouse_button_of, button_id_of, is_held, button_held};

verus! {

// ---------------------------------------------------------------------------
// Decoding the event
// ---------------------------------------------------------------------------

/// The DOM `pointerType` that a name stands for: "mouse", "pen" and
/// "touch", byte for byte; any other name is `Other`.
pub open spec fn pointer_type_of(name: Seq<u8>) -> PointerType {
    if name == seq![109u8, 111u8, 117u8, 115u8, 101u8] {
        PointerType::Mouse
    } else if name == seq![112u8, 101u8, 110u8] {
        PointerType::Pen
    } else if name == seq![116u8, 111u8, 117u8, 99u8, 104u8] {
        PointerType::Touch
    } else {
        PointerType::Other
    }
}

fn bytes_equal(a: &[u8], b: &[u8]) -> (r: bool)
    ensures
        r == (a@ == b@),
{
    if a.len() != b.len() {
        return false;
    }
    let mut i: usize = 0;
    while i < a.len()
        invariant
            a@.len() == b@.len(),
            i <= a@.len(),
            forall|j: int| 0 <= j < i ==> a@[j] == b@[j],
        decreases a@.len() - i,
    {
        if a[i] != b[i] {
            return false;
        }
        i = i + 1;
    }
    assert(a@ =~= b@);
    true
}

/// Classifies the DOM `pointerType` string, given as its UTF-8 bytes.
pub fn pointer_type_from_name(name: &[u8]) -> (r: PointerType)
    ensures
        r == pointer_type_of(name@),
{
    let mouse: [u8; 5] = [109u8, 111u8, 117u8, 115u8, 101u8];
    let pen: [u8; 3] = [112u8, 101u8, 110u8];
    let touch: [u8; 5] = [116u8, 111u8, 117u8, 99u8, 104u8];
    assert(mouse@ =~= seq![109u8, 111u8, 117u8, 115u8, 101u8]);
    assert(pen@ =~= seq![112u8, 101u8, 110u8]);
    assert(touch@ =~= seq![116u8, 111u8, 117u8, 99u8, 104u8]);
    if bytes_equal(name, mouse.as_slice()) {
        PointerType::Mouse
    } else if bytes_equal(name, pen.as_slice()) {
        PointerType::Pen
    } else if bytes_equal(name, touch.as_slice()) {
        PointerType::Touch
    } else {
        PointerType::Other
    }
}

/// The device that a pointer id names: a non-negative id is a device of
/// its own, a negative one (such as -1) names none.
pub open spec fn device_id_of(pointer_id: i32) -> Option<u32> {
    if pointer_id >= 0 {
        Some(pointer_id as u32)
    } else {
        None
    }
}

/// The device that a pointer id names (see `device_id_of`).
pub fn device_id(pointer_id: i32) -> (r: Option<u32>)
    ensures
        r == device_id_of(pointer_id),
{
    if pointer_id >= 0 {
        Some(pointer_id as u32)
    } else {
        None
    }
}

/// The kind of pointer of an event: a touch is the finger with the event's
/// pointer id, a pen the pen with that id.
pub open spec fn kind_of(ty: PointerType, pointer_id: i32) -> PointerKind {
    match ty {
        PointerType::Mouse => PointerKind::Mouse,
        PointerType::Touch => PointerKind::Touch(pointer_id),
        PointerType::Pen => PointerKind::Pen(pointer_id),
        PointerType::Other => PointerKind::Unknown,
    }
}

/// The kind of pointer of an event (see `kind_of`).
pub fn pointer_kind(ty: PointerType, pointer_id: i32) -> (r: PointerKind)
    ensures
        r == kind_of(ty, pointer_id),
{
    match ty {
        PointerType::Mouse => PointerKind::Mouse,
        PointerType::Touch => PointerKind::Touch(pointer_id),
        PointerType::Pen => PointerKind::Pen(pointer_id),
        PointerType::Other => PointerKind::Unknown,
    }
}

/// The event's kind of pointer.
pub open spec fn event_kind(ev: PointerEventData) -> PointerKind {
    kind_of(ev.pointer_type, ev.pointer_id)
}

/// Whether the event names a button whose state changed.
pub open spec fn has_button(ev: PointerEventData) -> bool {
    mouse_button_of(ev.button) is Some
}

// ---------------------------------------------------------------------------
// pointerover / pointerout
// ---------------------------------------------------------------------------

/// What a `pointerover` or `pointerout` reports.
pub open spec fn crossing_of(ev: PointerEventData) -> CrossingReport {
    CrossingReport {
        modifiers: ev.modifiers,
        device_id: device_id_of(ev.pointer_id),
        primary: ev.is_primary,
        kind: event_kind(ev),
    }
}

/// The report of a pointer entering (`pointerover`) or leaving
/// (`pointerout`) the canvas: both report the same fields.
pub fn pointer_crossing(ev: &PointerEventData) -> (r: CrossingReport)
    ensures
        r == crossing_of(*ev),
{
    CrossingReport {
        modifiers: ev.modifiers,
        device_id: device_id(ev.pointer_id),
        primary: ev.is_primary,
        kind: pointer_kind(ev.pointer_type, ev.pointer_id),
    }
}

// ---------------------------------------------------------------------------
// pointerdown / pointerup
// ---------------------------------------------------------------------------

/// The source of a button press or release: a mouse reports its button,
/// a touch its finger, a pen its pen, and an unknown pointer the button's
/// numeric id.
pub open spec fn button_source_of(kind: PointerKind, b: MouseButton) -> ButtonSource {
    match kind {
        PointerKind::Mouse => ButtonSource::Mouse(b),
        PointerKind::Touch(finger_id) => ButtonSource::Touch { finger_id },
        PointerKind::Pen(pen_id) => ButtonSource::Pen { pen_id },
        PointerKind::Unknown => ButtonSource::Unknown(button_id_of(b)),
    }
}

fn button_source(kind: PointerKind, b: MouseButton) -> (r: ButtonSource)
    ensures
        r == button_source_of(kind, b),
{
    match kind {
        PointerKind::Mouse => ButtonSource::Mouse(b),
        PointerKind::Touch(finger_id) => ButtonSource::Touch { finger_id },
        PointerKind::Pen(pen_id) => ButtonSource::Pen { pen_id },
        PointerKind::Unknown => ButtonSource::Unknown(b.to_id()),
    }
}

/// What a `pointerdown` or `pointerup` with a button reports.
pub open spec fn button_report_of(ev: PointerEventData) -> ButtonReport
    recommends
        has_button(ev),
{
    ButtonReport {
        modifiers: ev.modifiers,
        device_id: device_id_of(ev.pointer_id),
        primary: ev.is_primary,
        source: button_source_of(event_kind(ev), mouse_button_of(ev.button)->0),
    }
}

fn button_report(ev: &PointerEventData) -> (r: ButtonReport)
    requires
        has_button(*ev),
    ensures
        r == button_report_of(*ev),
{
    let kind = pointer_kind(ev.pointer_type, ev.pointer_id);
    let b = match mouse_button(ev.button) {
        Some(b) => b,
        None => MouseButton::Left,
    };
    ButtonReport {
        modifiers: ev.modifiers,
        device_id: device_id(ev.pointer_id),
        primary: ev.is_primary,
        source: button_source(kind, b),
    }
}

/// The report of a `pointerup`. A `pointerup` always names a button.
pub fn pointer_release(ev: &PointerEventData) -> (r: ButtonReport)
    requires
        has_button(*ev),
    ensures
        r == button_report_of(*ev),
{
    button_report(ev)
}

/// What a `pointerdown` asks and reports: the default action is prevented
/// (and the canvas focused) exactly when `prevent_default` is set, whatever
/// the event holds; an event that names a button presses it, and the
/// pointer is captured exactly when it is a mouse, and the report is that
/// of a release of the same event; an event that names none presses
/// nothing.
pub open spec fn press_of(ev: PointerEventData, prevent_default: bool) -> PressOutcome {
    PressOutcome {
        prevent_default,
        pressed: if has_button(ev) {
            Some(
                PressedButton {
                    capture_pointer: if event_kind(ev) is Mouse {
                        Some(ev.pointer_id)
                    } else {
                        None
                    },
                    report: button_report_of(ev),
                },
            )
        } else {
            None
        },
    }
}

/// The outcome of a `pointerdown` (see `press_of`).
pub fn pointer_press(ev: &PointerEventData, prevent_default: bool) -> (r: PressOutcome)
    ensures
        r == press_of(*ev, prevent_default),
{
    let pressed = match mouse_button(ev.button) {
        Some(_) => {
            let kind = pointer_kind(ev.pointer_type, ev.pointer_id);
            let capture_pointer = match kind {
                PointerKind::Mouse => Some(ev.pointer_id),
                _ => None,
            };
            Some(PressedButton { capture_pointer, report: button_report(ev) })
        },
        None => None,
    };
    PressOutcome { prevent_default, pressed }
}

// ---------------------------------------------------------------------------
// pointermove
// ---------------------------------------------------------------------------

/// The source of a button that changes state during a move: a mouse
/// reports its button, a touch its finger, any other pointer (a pen too)
/// the button's numeric id.
pub open spec fn chord_source_of(kind: PointerKind, b: MouseButton) -> ButtonSource {
    match kind {
        PointerKind::Mouse => ButtonSource::Mouse(b),
        PointerKind::Touch(finger_id) => ButtonSource::Touch { finger_id },
        _ => ButtonSource::Unknown(button_id_of(b)),
    }
}

/// The button change that a `pointermove` naming button `b` reports: the
/// button is pressed exactly when the `buttons` mask holds it.
pub open spec fn button_change_of(ev: PointerEventData, b: MouseButton) -> ButtonChange {
    ButtonChange {
        modifiers: ev.modifiers,
        device_id: device_id_of(ev.pointer_id),
        primary: ev.is_primary,
        state: if is_held(ev.buttons, b) {
            ElementState::Pressed
        } else {
            ElementState::Released
        },
        source: chord_source_of(event_kind(ev), b),
    }
}

/// The id of a touch's button that changes state during a move, where it
/// is not 1: such an id is unexpected.
pub open spec fn unexpected_touch_button_of(kind: PointerKind, b: MouseButton) -> Option<u16> {
    if kind is Touch && button_id_of(b) != 1 {
        Some(button_id_of(b))
    } else {
        None
    }
}

/// The source of a cursor movement.
pub open spec fn pointer_source_of(kind: PointerKind) -> PointerSource {
    match kind {
        PointerKind::Mouse => PointerSource::Mouse,
        PointerKind::Touch(finger_id) => PointerSource::Touch { finger_id },
        PointerKind::Pen(pen_id) => PointerSource::Pen { pen_id },
        PointerKind::Unknown => PointerSource::Unknown,
    }
}

/// The cursor movement that a coalesced event reports; the kind of
/// pointer is that of the `pointermove` it belongs to.
pub open spec fn sample_of(kind: PointerKind, s: SampleData) -> CursorSample {
    CursorSample { modifiers: s.modifiers, primary: s.is_primary, source: pointer_source_of(kind) }
}

/// What a `pointermove` stands for: if it names a button, that button's
/// change (and the default action is prevented exactly when
/// `prevent_default` is set); otherwise one cursor movement per coalesced
/// event, in order.
pub open spec fn move_outcome_is(
    r: MoveOutcome,
    ev: PointerEventData,
    samples: Seq<SampleData>,
    prevent_default: bool,
) -> bool {
    match mouse_button_of(ev.button) {
        Some(b) => r == MoveOutcome::Button {
            prevent_default,
            change: button_change_of(ev, b),
            unexpected_touch_button: unexpected_touch_button_of(event_kind(ev), b),
        },
        None => match r {
            MoveOutcome::Cursor { device_id, samples: out } => {
                &&& device_id == device_id_of(ev.pointer_id)
                &&& out@.len() == samples.len()
                &&& forall|i: int|
                    0 <= i < samples.len() ==> #[trigger] out@[i] == sample_of(event_kind(ev), samples[i])
            },
            _ => false,
        },
    }
}

fn pointer_source(kind: PointerKind) -> (r: PointerSource)
    ensures
        r == pointer_source_of(kind),
{
    match kind {
        PointerKind::Mouse => PointerSource::Mouse,
        PointerKind::Touch(finger_id) => PointerSource::Touch { finger_id },
        PointerKind::Pen(pen_id) => PointerSource::Pen { pen_id },
        PointerKind::Unknown => PointerSource::Unknown,
    }
}

/// The outcome of a `pointermove` with its coalesced events (see
/// `move_outcome_is`).
pub fn pointer_move(ev: &PointerEventData, samples: &Vec<SampleData>, prevent_default: bool) -> (r:
    MoveOutcome)
    ensures
        move_outcome_is(r, *ev, samples@, prevent_default),
{
    let kind = pointer_kind(ev.pointer_type, ev.pointer_id);
    match mouse_button(ev.button) {
        Some(b) => {
            let state = if button_held(ev.buttons, b) {
                ElementState::Pressed
            } else {
                ElementState::Released
            };
            let mut unexpected_touch_button = None;
            let source = match kind {
                PointerKind::Mouse => ButtonSource::Mouse(b),
                PointerKind::Touch(finger_id) => {
                    let button_id = b.to_id();
                    if button_id != 1 {
                        unexpected_touch_button = Some(button_id);
                    }
                    ButtonSource::Touch { finger_id }
                },
                _ => ButtonSource::Unknown(b.to_id()),
            };
            let change = ButtonChange {
                modifiers: ev.modifiers,
                device_id: device_id(ev.pointer_id),
                primary: ev.is_primary,
                state,
                source,
            };
            MoveOutcome::Button { prevent_default, change, unexpected_touch_button }
        },
        None => {
            let source = pointer_source(kind);
            let mut out: Vec<CursorSample> = Vec::new();
            let mut i: usize = 0;
            while i < samples.len()
                invariant
                    i <= samples@.len(),
                    out@.len() == i,
                    source == pointer_source_of(kind),
                    kind == event_kind(*ev),
                    forall|j: int| 0 <= j < i ==> #[trigger] out@[j] == sample_of(kind, samples@[j]),
                decreases samples@.len() - i,
            {
                let s = samples[i];
                out.push(CursorSample { modifiers: s.modifiers, primary: s.is_primary, source });
                i = i + 1;
            }
            MoveOutcome::Cursor { device_id: device_id(ev.pointer_id), samples: out }
        },
    }
}

} // verus!
