//! Mouse events, and the click that a widget reports when it is pressed.

use vstd::prelude::*;

use crate::event::{Event, EventBox, EventHandler, EventKind, EventPayload};
use crate::geometry::Point;
use crate::widget::template::{TemplateBase, TemplateParts};

verus! {

/// The buttons of a pointing device.
#[derive(Clone, Copy, Debug, PartialEq, Eq, Structural)]
pub enum MouseButton {
    Left,
    Middle,
    Right,
}

/// Whether a button went down or came up.
#[derive(Clone, Copy, Debug, PartialEq, Eq, Structural)]
pub enum ButtonState {
    Down,
    Up,
}

/// A button of the pointing device changed its state at a position.
#[derive(Clone, Copy, Debug, PartialEq, Eq, Structural)]
pub struct MouseEvent {
    pub position: Point,
    pub button: MouseButton,
    pub state: ButtonState,
}

impl Event for MouseEvent {
    open spec fn kind() -> EventKind {
        EventKind::Mouse
    }

    open spec fn pack(self) -> EventPayload {
        EventPayload::Mouse(self)
    }

    open spec fn unpack(payload: EventPayload) -> Option<Self> {
        match payload {
            EventPayload::Mouse(event) => Some(event),
            _ => None,
        }
    }

    proof fn lemma_pack_kind(self) {
    }

    proof fn lemma_unpack_pack(self) {
    }

    proof fn lemma_unpack_kind(payload: EventPayload) {
    }

    fn into_payload(self) -> (payload: EventPayload) {
        EventPayload::Mouse(self)
    }

    fn from_payload(payload: &EventPayload) -> (event: Option<&Self>) {
        match payload {
            EventPayload::Mouse(event) => Some(event),
            _ => None,
        }
    }
}

/// A widget was clicked at a position.
#[derive(Clone, Copy, Debug, PartialEq, Eq, Structural)]
pub struct ClickEvent {
    pub position: Point,
}

impl Event for ClickEvent {
    open spec fn kind() -> EventKind {
        EventKind::Click
    }

    open spec fn pack(self) -> EventPayload {
        EventPayload::Click(self)
    }

    open spec fn unpack(payload: EventPayload) -> Option<Self> {
        match payload {
            EventPayload::Click(event) => Some(event),
            _ => None,
        }
    }

    proof fn lemma_pack_kind(self) {
    }

    proof fn lemma_unpack_pack(self) {
    }

    proof fn lemma_unpack_kind(payload: EventPayload) {
    }

    fn into_payload(self) -> (payload: EventPayload) {
        EventPayload::Click(self)
    }

    fn from_payload(payload: &EventPayload) -> (event: Option<&Self>) {
        match payload {
            EventPayload::Click(event) => Some(event),
            _ => None,
        }
    }
}

/// Calls a closure with the position of each click.
pub struct ClickEventHandler<H: Fn(Point) -> bool> {
    handler: H,
}

impl<H: Fn(Point) -> bool> ClickEventHandler<H> {
    #[verifier::type_invariant]
    spec fn callable(self) -> bool {
        forall|position: Point| call_requires(self.handler, (position,))
    }

    /// The closure that is called.
    pub closed spec fn handler(self) -> H {
        self.handler
    }

    /// Creates a handler around a closure that accepts every position.
    pub fn new(handler: H) -> (created: Self)
        requires
            forall|position: Point| call_requires(handler, (position,)),
        ensures
            created.handler() == handler,
    {
        ClickEventHandler { handler }
    }
}

impl<H: Fn(Point) -> bool> EventHandler for ClickEventHandler<H> {
    open spec fn interest(&self) -> EventKind {
        EventKind::Click
    }

    open spec fn may_answer(&self, event: EventPayload, consumed: bool) -> bool {
        match event {
            EventPayload::Click(click) => call_ensures(self.handler(), (click.position,), consumed),
            _ => !consumed,
        }
    }

    fn kind(&self) -> (kind: EventKind) {
        EventKind::Click
    }

    /// Calls the closure with the position of a click and returns its answer;
    /// answers `false` to any other event without calling the closure.
    fn handle_event(&self, event: &EventBox) -> (consumed: bool)
        ensures
            match event@ {
                EventPayload::Click(click) => call_ensures(
                    self.handler(),
                    (click.position,),
                    consumed,
                ),
                _ => !consumed,
            },
    {
        proof {
            use_type_invariant(self);
        }
        if let Some(click) = event.downcast_ref::<ClickEvent>() {
            return (self.handler)(click.position);
        }
        false
    }
}

/// A builder for a widget that reacts to clicks.
pub trait ClickHandler: TemplateBase {
    /// Inserts a handler: attaches a handler that calls the closure with the
    /// position of each click, behind the handlers that the widget has.
    fn on_click<H: Fn(Point) -> bool + 'static>(self, handler: H) -> (builder: Self)
        requires
            forall|position: Point| call_requires(handler, (position,)),
        ensures
            builder.inner()@.event_handlers.len() == self.inner()@.event_handlers.len() + 1,
            builder.inner()@.event_handlers.last().interest() == EventKind::Click,
            builder.inner()@ == (TemplateParts {
                event_handlers: self.inner()@.event_handlers.push(
                    builder.inner()@.event_handlers.last(),
                ),
                ..self.inner()@
            }),
    {
        self.event_handler(ClickEventHandler::new(handler))
    }
}

} // verus!
