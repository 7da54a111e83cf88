use vstd::prelude::*;
use vstd::arithmetic::power2::{lemma2_to64, lemma_pow2_pos, lemma_pow2_strictly_increases, pow2};
use vstd::bits::{lemma_u16_pow2_no_overflow, lemma_u16_shl_is_mul};
use crate::types::{
    ButtonSource, ElementState, MouseButton, MoveOutcome, PointerEventData, PointerKind, PointerSource,
    SampleData,
};
use crate::buttons::{bit_of, mouse_button_of, button_flag_of, button_id_of, is_held};
use crate::handler::{event_type_of, ListenerSlot};
use crate::types::PointerType;
use crate::events::{
    button_report_of, chord_source_of, button_source_of, crossing_of, device_id_of, event_kind,
    has_button, move_outcome_is, pointer_type_of, press_of,
};

verus! {

/// A `pointerdown` reports what a `pointerup` of the same event reports:
/// the same modifiers, device, primary flag and button source.
pub proof fn press_reports_as_release(ev: PointerEventData, prevent_default: bool)
    requires
        has_button(ev),
    ensures
        press_of(ev, prevent_default).pressed matches Some(p) && p.report == button_report_of(ev),
{
}

/// A button that changes state during a move is reported from the same
/// source as a press of it, for a mouse and for a touch; for a pen or an
/// unknown pointer it is reported by the button's numeric id.
pub proof fn chord_source_matches_press(kind: PointerKind, b: MouseButton)
    ensures
        (kind is Mouse || kind is Touch) ==> chord_source_of(kind, b) == button_source_of(kind, b),
        !(kind is Mouse || kind is Touch) ==> chord_source_of(kind, b) == ButtonSource::Unknown(
            button_id_of(b),
        ),
{
}

/// Only a mouse captures the pointer on a press, and it captures the
/// pointer of the event.
pub proof fn only_a_mouse_captures(ev: PointerEventData, prevent_default: bool)
    requires
        has_button(ev),
    ensures
        press_of(ev, prevent_default).pressed matches Some(p) && (p.capture_pointer is Some
            <==> event_kind(ev) is Mouse),
        press_of(ev, prevent_default).pressed matches Some(p) && (p.capture_pointer matches Some(
            id,
        ) ==> id == ev.pointer_id),
{
}

/// A `pointerdown` prevents the default action exactly when asked to,
/// whether or not it names a button, and presses a button exactly when it
/// names one.
pub proof fn press_prevents_default_first(ev: PointerEventData, prevent_default: bool)
    ensures
        press_of(ev, prevent_default).prevent_default == prevent_default,
        press_of(ev, prevent_default).pressed is Some <==> has_button(ev),
{
}

/// A pointer id names a device exactly when it is non-negative, and the
/// device keeps the id's value.
pub proof fn device_id_keeps_pointer_id(pointer_id: i32)
    ensures
        device_id_of(pointer_id) is Some <==> pointer_id >= 0,
        device_id_of(pointer_id) matches Some(d) ==> d == pointer_id,
{
}

/// Two different non-negative DOM `button` values decode to different
/// buttons, and `-1` decodes to none.
pub proof fn distinct_buttons_decode_distinctly(a: i16, b: i16)
    requires
        a >= 0,
        b >= 0,
        a != b,
    ensures
        mouse_button_of(a) is Some,
        mouse_button_of(b) is Some,
        mouse_button_of(a) != mouse_button_of(b),
        mouse_button_of(-1i16) is None,
{
    if a > 4 && b > 4 {
        assert((a as u16) != (b as u16));
    }
}

/// The buttons decoded from DOM `button` values 0 to 15 each own a bit of
/// the `buttons` mask, and no two of them share one: the mask tells any
/// two of them apart.
pub proof fn button_bits_are_distinct(a: i16, b: i16)
    requires
        0 <= a < 16,
        0 <= b < 16,
        a != b,
    ensures
        button_flag_of(mouse_button_of(a)->0) != 0,
        button_flag_of(mouse_button_of(a)->0) != button_flag_of(mouse_button_of(b)->0),
{
    let ia = button_id_of(mouse_button_of(a)->0);
    let ib = button_id_of(mouse_button_of(b)->0);
    assert(ia < 16 && ib < 16 && ia != ib) by {
        if a > 4 && b > 4 {
            assert((a as u16) != (b as u16));
        }
    }
    lemma_pow2_pos(ia as nat);
    if ia < ib {
        lemma_pow2_strictly_increases(ia as nat, ib as nat);
    } else {
        lemma_pow2_strictly_increases(ib as nat, ia as nat);
    }
}

proof fn odd_quotient_is_bit(buttons: u16, n: u16)
    requires
        n < 16,
    ensures
        pow2(n as nat) == (1u16 << n) as nat,
        (buttons as nat / pow2(n as nat)) % 2 == 1 <==> buttons & (1u16 << n) != 0,
{
    lemma_u16_pow2_no_overflow(n as nat);
    lemma_u16_shl_is_mul(1u16, n);
    let f: u16 = 1u16 << n;
    assert((buttons / f) % 2 == 1 <==> buttons & f != 0) by (bit_vector)
        requires
            n < 16,
            f == 1u16 << n,
    ;
}

/// The `buttons` mask holds a button down exactly when the button's own bit
/// is set in it: bit 1 for the left button, 2 for the right, 4 for the
/// middle, 8 for back, 16 for forward, `1 << n` for button number `n` below
/// 16; a button numbered 16 or more is never held.
pub proof fn held_means_its_bit_is_set(buttons: u16, b: MouseButton)
    ensures
        b is Left ==> (is_held(buttons, b) <==> buttons & 1u16 != 0),
        b is Right ==> (is_held(buttons, b) <==> buttons & 2u16 != 0),
        b is Middle ==> (is_held(buttons, b) <==> buttons & 4u16 != 0),
        b is Back ==> (is_held(buttons, b) <==> buttons & 8u16 != 0),
        b is Forward ==> (is_held(buttons, b) <==> buttons & 16u16 != 0),
        b matches MouseButton::Other(n) ==> (is_held(buttons, b) <==> (n < 16 && buttons & (1u16
            << n) != 0)),
{
    lemma2_to64();
    let id = button_id_of(b);
    if id < 16 {
        odd_quotient_is_bit(buttons, id);
        assert(1u16 << 0u16 == 1u16 && 1u16 << 1u16 == 2u16 && 1u16 << 2u16 == 4u16 && 1u16 << 3u16
            == 8u16 && 1u16 << 4u16 == 16u16) by (bit_vector);
        lemma_pow2_pos(id as nat);
    }
}

/// A DOM `button` value names a button exactly when it is non-negative,
/// and each standard value names the button that owns the matching bit of
/// the `buttons` mask: 0 the left button (bit 1), 1 the middle (bit 4),
/// 2 the right (bit 2), 3 back (bit 8), 4 forward (bit 16); a larger value
/// names the button with that number.
pub proof fn dom_button_values(raw: i16)
    ensures
        mouse_button_of(raw) is Some <==> raw >= 0,
        raw == 0 ==> mouse_button_of(raw) == Some(MouseButton::Left) && button_flag_of(
            MouseButton::Left,
        ) == 1,
        raw == 1 ==> mouse_button_of(raw) == Some(MouseButton::Middle) && button_flag_of(
            MouseButton::Middle,
        ) == 4,
        raw == 2 ==> mouse_button_of(raw) == Some(MouseButton::Right) && button_flag_of(
            MouseButton::Right,
        ) == 2,
        raw == 3 ==> mouse_button_of(raw) == Some(MouseButton::Back) && button_flag_of(
            MouseButton::Back,
        ) == 8,
        raw == 4 ==> mouse_button_of(raw) == Some(MouseButton::Forward) && button_flag_of(
            MouseButton::Forward,
        ) == 16,
        raw > 4 ==> (mouse_button_of(raw) matches Some(b) && button_id_of(b) == raw),
{
    lemma2_to64();
}

/// A `pointerover` or `pointerout` reports the event's own modifiers,
/// primary flag and device (its pointer id where that is non-negative),
/// and the pointer it comes from: a mouse, the finger or the pen with the
/// event's pointer id, or an unknown pointer.
pub proof fn crossing_reports_the_event(ev: PointerEventData)
    ensures
        crossing_of(ev).modifiers == ev.modifiers,
        crossing_of(ev).primary == ev.is_primary,
        crossing_of(ev).device_id == (if ev.pointer_id >= 0 {
            Some(ev.pointer_id as u32)
        } else {
            None
        }),
        ev.pointer_type is Mouse ==> crossing_of(ev).kind == PointerKind::Mouse,
        ev.pointer_type is Touch ==> crossing_of(ev).kind == PointerKind::Touch(ev.pointer_id),
        ev.pointer_type is Pen ==> crossing_of(ev).kind == PointerKind::Pen(ev.pointer_id),
        ev.pointer_type is Other ==> crossing_of(ev).kind == PointerKind::Unknown,
{
}

/// A `pointerup` (and the button of a `pointerdown`) reports the event's own
/// modifiers, primary flag and device, and the source of the button: the
/// mouse button itself for a mouse, the finger or the pen with the event's
/// pointer id, and the button's numeric id for an unknown pointer.
pub proof fn button_report_keeps_the_event(ev: PointerEventData)
    requires
        ev.button >= 0,
    ensures
        button_report_of(ev).modifiers == ev.modifiers,
        button_report_of(ev).primary == ev.is_primary,
        button_report_of(ev).device_id == (if ev.pointer_id >= 0 {
            Some(ev.pointer_id as u32)
        } else {
            None
        }),
        ev.pointer_type is Mouse ==> button_report_of(ev).source == ButtonSource::Mouse(
            mouse_button_of(ev.button)->0,
        ),
        ev.pointer_type is Touch ==> button_report_of(ev).source == (ButtonSource::Touch { finger_id: ev.pointer_id }),
        ev.pointer_type is Pen ==> button_report_of(ev).source == (ButtonSource::Pen { pen_id: ev.pointer_id }),
        ev.pointer_type is Other ==> button_report_of(ev).source == ButtonSource::Unknown(
            button_id_of(mouse_button_of(ev.button)->0),
        ),
{
}

/// A `pointerdown` with a button reports the event's own modifiers,
/// primary flag and device, captures the event's pointer exactly when it
/// is a mouse, and prevents the default action exactly when asked to.
pub proof fn press_keeps_the_event(ev: PointerEventData, prevent_default: bool)
    requires
        ev.button >= 0,
    ensures
        press_of(ev, prevent_default).prevent_default == prevent_default,
        press_of(ev, prevent_default).pressed matches Some(p) && {
            &&& p.report.modifiers == ev.modifiers
            &&& p.report.primary == ev.is_primary
            &&& p.report.device_id == (if ev.pointer_id >= 0 {
                Some(ev.pointer_id as u32)
            } else {
                None
            })
            &&& ev.pointer_type is Mouse ==> p.capture_pointer == Some(ev.pointer_id)
            &&& !(ev.pointer_type is Mouse) ==> p.capture_pointer is None
        },
{
}

/// A `pointermove` that names no button reports, for each coalesced event
/// in order, that event's modifiers and primary flag, from the pointer of
/// the move: a mouse, the finger or the pen with the move's pointer id, or
/// an unknown pointer; and the move's device.
pub proof fn cursor_move_keeps_the_event(
    r: MoveOutcome,
    ev: PointerEventData,
    samples: Seq<SampleData>,
    prevent_default: bool,
)
    requires
        move_outcome_is(r, ev, samples, prevent_default),
        ev.button < 0,
    ensures
        r matches MoveOutcome::Cursor { device_id, samples: out } && {
            &&& device_id == (if ev.pointer_id >= 0 {
                Some(ev.pointer_id as u32)
            } else {
                None
            })
            &&& out@.len() == samples.len()
            &&& forall|i: int|
                0 <= i < samples.len() ==> {
                    &&& (#[trigger] out@[i]).modifiers == samples[i].modifiers
                    &&& out@[i].primary == samples[i].is_primary
                    &&& ev.pointer_type is Mouse ==> out@[i].source == PointerSource::Mouse
                    &&& ev.pointer_type is Touch ==> out@[i].source == (PointerSource::Touch { finger_id: ev.pointer_id })
                    &&& ev.pointer_type is Pen ==> out@[i].source == (PointerSource::Pen { pen_id: ev.pointer_id })
                    &&& ev.pointer_type is Other ==> out@[i].source == PointerSource::Unknown
                }
        },
{
}

/// A `pointermove` that names a button reports that button's change with
/// the event's own modifiers, primary flag and device; the button is
/// pressed exactly when the `buttons` mask holds it; it comes from the
/// mouse button for a mouse, from the finger with the event's pointer id
/// for a touch, and from the button's numeric id otherwise; a touch's
/// button with an id other than 1 is flagged; the default action is
/// prevented exactly when asked to.
pub proof fn button_move_keeps_the_event(
    r: MoveOutcome,
    ev: PointerEventData,
    samples: Seq<SampleData>,
    prevent_default: bool,
)
    requires
        move_outcome_is(r, ev, samples, prevent_default),
        ev.button >= 0,
    ensures
        r matches MoveOutcome::Button { prevent_default: p, change, unexpected_touch_button: u }
            && {
            let b = mouse_button_of(ev.button)->0;
            &&& p == prevent_default
            &&& change.modifiers == ev.modifiers
            &&& change.primary == ev.is_primary
            &&& change.device_id == (if ev.pointer_id >= 0 {
                Some(ev.pointer_id as u32)
            } else {
                None
            })
            &&& (change.state == ElementState::Pressed <==> is_held(ev.buttons, b))
            &&& (change.state == ElementState::Released <==> !is_held(ev.buttons, b))
            &&& ev.pointer_type is Mouse ==> change.source == ButtonSource::Mouse(b)
            &&& ev.pointer_type is Touch ==> change.source == (ButtonSource::Touch { finger_id: ev.pointer_id })
            &&& (ev.pointer_type is Pen || ev.pointer_type is Other) ==> change.source
                == ButtonSource::Unknown(button_id_of(b))
            &&& ev.pointer_type is Touch && button_id_of(b) != 1 ==> u == Some(button_id_of(b))
            &&& !(ev.pointer_type is Touch && button_id_of(b) != 1) ==> u is None
        },
{
}

/// Bit number `n` of the `buttons` mask is `1 << n` for `n` below 16; there
/// is none above.
pub proof fn bit_is_a_shifted_one(n: u16)
    ensures
        n < 16 ==> bit_of(n) == (1u16 << n) as nat,
        n >= 16 ==> bit_of(n) == 0,
{
    if n < 16 {
        odd_quotient_is_bit(0u16, n);
    }
}

/// The DOM `pointerType` names: "mouse" is a mouse, "pen" a pen, "touch" a
/// touch, and any other name (case matters) an other pointer.
pub proof fn pointer_type_names(name: Seq<u8>)
    ensures
        name =~= seq![109u8, 111u8, 117u8, 115u8, 101u8] ==> pointer_type_of(name) == PointerType::Mouse,
        name =~= seq![112u8, 101u8, 110u8] ==> pointer_type_of(name) == PointerType::Pen,
        name =~= seq![116u8, 111u8, 117u8, 99u8, 104u8] ==> pointer_type_of(name) == PointerType::Touch,
        !(name =~= seq![109u8, 111u8, 117u8, 115u8, 101u8]) && !(name =~= seq![112u8, 101u8, 110u8])
            && !(name =~= seq![116u8, 111u8, 117u8, 99u8, 104u8]) ==> pointer_type_of(name)
            == PointerType::Other,
{
}

/// Each listener slot answers its own DOM event: leaving `pointerout`,
/// entering `pointerover`, moving `pointermove`, pressing `pointerdown`,
/// releasing `pointerup`, a cancelled touch `pointercancel`.
pub proof fn slot_event_names()
    ensures
        event_type_of(ListenerSlot::CursorLeave) == "pointerout"@,
        event_type_of(ListenerSlot::CursorEnter) == "pointerover"@,
        event_type_of(ListenerSlot::CursorMove) == "pointermove"@,
        event_type_of(ListenerSlot::PointerPress) == "pointerdown"@,
        event_type_of(ListenerSlot::PointerRelease) == "pointerup"@,
        event_type_of(ListenerSlot::TouchCancel) == "pointercancel"@,
{
}

} // verus!
