use vstd::prelude::*;

verus! {

/// The keyboard modifiers held while a pointer event fired
/// (the DOM event's `shiftKey`, `ctrlKey`, `altKey` and `metaKey`).
#[derive(Clone, Copy, Debug, PartialEq, Eq)]
pub struct Modifiers {
    pub shift: bool,
    pub control: bool,
    pub alt: bool,
    pub meta: bool,
}

/// The DOM `pointerType` of an event.
#[derive(Clone, Copy, Debug, PartialEq, Eq)]
pub enum PointerType {
    Mouse,
    Pen,
    Touch,
    Other,
}

/// The kind of pointer an event comes from; touch and pen carry the
/// event's pointer id.
#[derive(Clone, Copy, Debug, PartialEq, Eq)]
pub enum PointerKind {
    Mouse,
    Touch(i32),
    Pen(i32),
    Unknown,
}

/// A mouse button, as decoded from the DOM `button` value.
#[derive(Clone, Copy, Debug, PartialEq, Eq)]
pub enum MouseButton {
    Left,
    Right,
    Middle,
    Back,
    Forward,
    Other(u16),
}

/// Whether a button is down or up.
#[derive(Clone, Copy, Debug, PartialEq, Eq)]
pub enum ElementState {
    Pressed,
    Released,
}

/// What a button event came from. The force of a touch or a pen (the
/// event's pressure) is a float and is attached by the caller.
#[derive(Clone, Copy, Debug, PartialEq, Eq)]
pub enum ButtonSource {
    Mouse(MouseButton),
    Touch { finger_id: i32 },
    Pen { pen_id: i32 },
    Unknown(u16),
}

/// What a cursor movement came from. The force and the tilt of a touch
/// or a pen are floats and are attached by the caller.
#[derive(Clone, Copy, Debug, PartialEq, Eq)]
pub enum PointerSource {
    Mouse,
    Touch { finger_id: i32 },
    Pen { pen_id: i32 },
    Unknown,
}

/// The integer and boolean fields of a DOM `PointerEvent` that the
/// decisions read.
#[derive(Clone, Copy, Debug, PartialEq, Eq)]
pub struct PointerEventData {
    /// `pointerId`
    pub pointer_id: i32,
    /// `pointerType`
    pub pointer_type: PointerType,
    /// `isPrimary`
    pub is_primary: bool,
    /// `button`: the button whose state changed, or -1 for none
    pub button: i16,
    /// `buttons`: the bit mask of the buttons held down
    pub buttons: u16,
    /// the modifier keys
    pub modifiers: Modifiers,
}

/// One of the coalesced events of a `pointermove`.
#[derive(Clone, Copy, Debug, PartialEq, Eq)]
pub struct SampleData {
    pub modifiers: Modifiers,
    pub is_primary: bool,
}

/// The report of a pointer entering or leaving the canvas
/// (without the position).
#[derive(Clone, Copy, Debug, PartialEq, Eq)]
pub struct CrossingReport {
    pub modifiers: Modifiers,
    pub device_id: Option<u32>,
    pub primary: bool,
    pub kind: PointerKind,
}

/// The report of a button going down or up (without the position).
#[derive(Clone, Copy, Debug, PartialEq, Eq)]
pub struct ButtonReport {
    pub modifiers: Modifiers,
    pub device_id: Option<u32>,
    pub primary: bool,
    pub source: ButtonSource,
}

/// The button that a `pointerdown` pressed: the pointer to capture, if
/// any, and the report.
#[derive(Clone, Copy, Debug, PartialEq, Eq)]
pub struct PressedButton {
    /// capture the pointer with this id
    pub capture_pointer: Option<i32>,
    pub report: ButtonReport,
}

/// What a `pointerdown` asks of the canvas and what it reports.
#[derive(Clone, Copy, Debug, PartialEq, Eq)]
pub struct PressOutcome {
    /// prevent the default action (text selection) and focus the canvas;
    /// this comes first, whatever the event holds
    pub prevent_default: bool,
    /// the button pressed, or `None` where the event names no button (a
    /// `pointerdown` always should; the caller fails there)
    pub pressed: Option<PressedButton>,
}

/// The report of a button changing state during a `pointermove`
/// (a chorded button press or release), without the position.
#[derive(Clone, Copy, Debug, PartialEq, Eq)]
pub struct ButtonChange {
    pub modifiers: Modifiers,
    pub device_id: Option<u32>,
    pub primary: bool,
    pub state: ElementState,
    pub source: ButtonSource,
}

/// One cursor movement of a `pointermove` (without the position).
#[derive(Clone, Copy, Debug, PartialEq, Eq)]
pub struct CursorSample {
    pub modifiers: Modifiers,
    pub primary: bool,
    pub source: PointerSource,
}

/// What a `pointermove` stands for.
#[derive(Debug, PartialEq, Eq)]
pub enum MoveOutcome {
    /// A button changed state; `prevent_default` asks the canvas to prevent
    /// the default action and to take the focus.
    /// `unexpected_touch_button` is the numeric id of a touch's button
    /// where it is not 1, for the caller to report as unexpected.
    Button { prevent_default: bool, change: ButtonChange, unexpected_touch_button: Option<u16> },
    /// The cursor moved, once per coalesced event.
    Cursor { device_id: Option<u32>, samples: Vec<CursorSample> },
}

impl ButtonSource {
    /// Whether the source carries a force (the event's pressure): a touch
    /// and a pen do, a mouse and an unknown pointer do not.
    pub fn has_force(&self) -> (r: bool)
        ensures
            r == (*self is Touch || *self is Pen),
    {
        match self {
            ButtonSource::Touch { .. } | ButtonSource::Pen { .. } => true,
            _ => false,
        }
    }
}

impl PointerSource {
    /// Whether the source carries a force (the event's pressure): a touch
    /// and a pen do, a mouse and an unknown pointer do not.
    pub fn has_force(&self) -> (r: bool)
        ensures
            r == (*self is Touch || *self is Pen),
    {
        match self {
            PointerSource::Touch { .. } | PointerSource::Pen { .. } => true,
            _ => false,
        }
    }

    /// Whether the source carries a tilt: only a pen does.
    pub fn has_tilt(&self) -> (r: bool)
        ensures
            r == (*self is Pen),
    {
        match self {
            PointerSource::Pen { .. } => true,
            _ => false,
        }
    }
}

} // verus!
