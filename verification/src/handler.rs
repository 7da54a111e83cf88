use vstd::prelude::*;

verus! {

/// The pointer listeners that a handler can hold on a canvas.
#[derive(Clone, Copy, Debug, PartialEq, Eq)]
pub enum ListenerSlot {
    /// `pointerout`
    CursorLeave,
    /// `pointerover`
    CursorEnter,
    /// `pointermove`
    CursorMove,
    /// `pointerdown`
    PointerPress,
    /// `pointerup`
    PointerRelease,
    /// `pointercancel` for touches
    TouchCancel,
}

/// The DOM event that the listener in a slot answers: `pointerout` for a
/// cursor leaving, `pointerover` for a cursor entering, `pointermove`,
/// `pointerdown` for a press, `pointerup` for a release and
/// `pointercancel` for a cancelled touch.
pub open spec fn event_type_of(s: ListenerSlot) -> Seq<char> {
    match s {
        ListenerSlot::CursorLeave => "pointerout"@,
        ListenerSlot::CursorEnter => "pointerover"@,
        ListenerSlot::CursorMove => "pointermove"@,
        ListenerSlot::PointerPress => "pointerdown"@,
        ListenerSlot::PointerRelease => "pointerup"@,
        ListenerSlot::TouchCancel => "pointercancel"@,
    }
}

/// The DOM event that the listener in a slot answers (see
/// `event_type_of`); a listener is registered for this event before it is
/// held in the slot.
pub fn event_type(s: ListenerSlot) -> (r: &'static str)
    ensures
        r@ == event_type_of(s),
{
    match s {
        ListenerSlot::CursorLeave => "pointerout",
        ListenerSlot::CursorEnter => "pointerover",
        ListenerSlot::CursorMove => "pointermove",
        ListenerSlot::PointerPress => "pointerdown",
        ListenerSlot::PointerRelease => "pointerup",
        ListenerSlot::TouchCancel => "pointercancel",
    }
}

/// The pointer listeners registered on a canvas, each held by its handle
/// (dropping a handle removes its listener). Its view maps each occupied
/// slot to the handle it holds.
pub struct PointerHandler<H> {
    on_cursor_leave: Option<H>,
    on_cursor_enter: Option<H>,
    on_cursor_move: Option<H>,
    on_pointer_press: Option<H>,
    on_pointer_release: Option<H>,
    on_touch_cancel: Option<H>,
}

impl<H> PointerHandler<H> {
    /// The handle in a slot, if any.
    pub closed spec fn slot(&self, s: ListenerSlot) -> Option<H> {
        match s {
            ListenerSlot::CursorLeave => self.on_cursor_leave,
            ListenerSlot::CursorEnter => self.on_cursor_enter,
            ListenerSlot::CursorMove => self.on_cursor_move,
            ListenerSlot::PointerPress => self.on_pointer_press,
            ListenerSlot::PointerRelease => self.on_pointer_release,
            ListenerSlot::TouchCancel => self.on_touch_cancel,
        }
    }

    /// The occupied slots and their handles.
    pub closed spec fn listeners(&self) -> Map<ListenerSlot, H> {
        Map::new(|s: ListenerSlot| self.slot(s) is Some, |s: ListenerSlot| self.slot(s)->0)
    }
}

impl<H> View for PointerHandler<H> {
    type V = Map<ListenerSlot, H>;

    open spec fn view(&self) -> Map<ListenerSlot, H> {
        self.listeners()
    }
}

impl<H> PointerHandler<H> {
    /// A handler with no listener.
    pub fn new() -> (r: Self)
        ensures
            r@ == Map::<ListenerSlot, H>::empty(),
    {
        let r = PointerHandler {
            on_cursor_leave: None,
            on_cursor_enter: None,
            on_cursor_move: None,
            on_pointer_press: None,
            on_pointer_release: None,
            on_touch_cancel: None,
        };
        assert(r.listeners() =~= Map::<ListenerSlot, H>::empty());
        r
    }

    /// Holds `listener` as the `pointerout` listener, dropping the one held
    /// before.
    pub fn on_pointer_leave(&mut self, listener: H)
        ensures
            final(self)@ == old(self)@.insert(ListenerSlot::CursorLeave, listener),
    {
        self.on_cursor_leave = Some(listener);
        assert(self.listeners() =~= old(self).listeners().insert(ListenerSlot::CursorLeave, listener));
    }

    /// Holds `listener` as the `pointerover` listener, dropping the one
    /// held before.
    pub fn on_pointer_enter(&mut self, listener: H)
        ensures
            final(self)@ == old(self)@.insert(ListenerSlot::CursorEnter, listener),
    {
        self.on_cursor_enter = Some(listener);
        assert(self.listeners() =~= old(self).listeners().insert(ListenerSlot::CursorEnter, listener));
    }

    /// Holds `listener` as the `pointerup` listener, dropping the one held
    /// before.
    pub fn on_pointer_release(&mut self, listener: H)
        ensures
            final(self)@ == old(self)@.insert(ListenerSlot::PointerRelease, listener),
    {
        self.on_pointer_release = Some(listener);
        assert(self.listeners() =~= old(self).listeners().insert(
            ListenerSlot::PointerRelease,
            listener,
        ));
    }

    /// Holds `listener` as the `pointerdown` listener, dropping the one
    /// held before.
    pub fn on_pointer_press(&mut self, listener: H)
        ensures
            final(self)@ == old(self)@.insert(ListenerSlot::PointerPress, listener),
    {
        self.on_pointer_press = Some(listener);
        assert(self.listeners() =~= old(self).listeners().insert(
            ListenerSlot::PointerPress,
            listener,
        ));
    }

    /// Holds `listener` as the `pointermove` listener, dropping the one
    /// held before.
    pub fn on_pointer_move(&mut self, listener: H)
        ensures
            final(self)@ == old(self)@.insert(ListenerSlot::CursorMove, listener),
    {
        self.on_cursor_move = Some(listener);
        assert(self.listeners() =~= old(self).listeners().insert(ListenerSlot::CursorMove, listener));
    }

    /// Drops every listener.
    pub fn remove_listeners(&mut self)
        ensures
            final(self)@ == Map::<ListenerSlot, H>::empty(),
    {
        self.on_cursor_leave = None;
        self.on_cursor_enter = None;
        self.on_cursor_move = None;
        self.on_pointer_press = None;
        self.on_pointer_release = None;
        self.on_touch_cancel = None;
        assert(self.listeners() =~= Map::<ListenerSlot, H>::empty());
    }

    /// The handle held in a slot, if any.
    pub fn listener(&self, s: ListenerSlot) -> (r: Option<&H>)
        ensures
            r matches Some(h) ==> self@.dom().contains(s) && *h == self@[s],
            r is None ==> !self@.dom().contains(s),
    {
        match s {
            ListenerSlot::CursorLeave => self.on_cursor_leave.as_ref(),
            ListenerSlot::CursorEnter => self.on_cursor_enter.as_ref(),
            ListenerSlot::CursorMove => self.on_cursor_move.as_ref(),
            ListenerSlot::PointerPress => self.on_pointer_press.as_ref(),
            ListenerSlot::PointerRelease => self.on_pointer_release.as_ref(),
            ListenerSlot::TouchCancel => self.on_touch_cancel.as_ref(),
        }
    }
}

} // verus!
