//! The event model: typed events, the container that carries one of them to
//! the handlers, and the handler capability itself.

pub mod key;
pub mod mouse;

use vstd::prelude::*;

use crate::event::key::{KeyDownEvent, KeyUpEvent};
use crate::event::mouse::{ClickEvent, MouseEvent};

verus! {

/// The kinds of event that the toolkit knows.
#[derive(Clone, Copy, Debug, PartialEq, Eq, Structural)]
pub enum EventKind {
    KeyDown,
    KeyUp,
    Mouse,
    Click,
}

/// One event of any kind, with the payload of its kind.
#[derive(Clone, Copy, Debug, PartialEq, Eq, Structural)]
pub enum EventPayload {
    KeyDown(KeyDownEvent),
    KeyUp(KeyUpEvent),
    Mouse(MouseEvent),
    Click(ClickEvent),
}

impl EventPayload {
    /// The kind of the event held.
    pub open spec fn kind(self) -> EventKind {
        match self {
            EventPayload::KeyDown(_) => EventKind::KeyDown,
            EventPayload::KeyUp(_) => EventKind::KeyUp,
            EventPayload::Mouse(_) => EventKind::Mouse,
            EventPayload::Click(_) => EventKind::Click,
        }
    }
}

/// A concrete event kind. An event is packed into the payload of its own kind
/// and is found again only in a payload of that kind.
pub trait Event: Sized {
    /// The kind that every event of this type has.
    spec fn kind() -> EventKind;

    /// The payload that carries this event.
    spec fn pack(self) -> EventPayload;

    /// The event of this type that a payload carries, if it carries one.
    spec fn unpack(payload: EventPayload) -> Option<Self>;

    /// Packing keeps the kind.
    proof fn lemma_pack_kind(self)
        ensures
            self.pack().kind() == Self::kind(),
    ;

    /// Unpacking undoes packing.
    proof fn lemma_unpack_pack(self)
        ensures
            Self::unpack(self.pack()) == Some(self),
    ;

    /// Only a payload of this kind can be unpacked.
    proof fn lemma_unpack_kind(payload: EventPayload)
        ensures
            Self::unpack(payload) is Some <==> payload.kind() == Self::kind(),
    ;

    /// Packs the event.
    fn into_payload(self) -> (payload: EventPayload)
        ensures
            payload == self.pack(),
    ;

    /// Looks for an event of this type in a payload.
    fn from_payload(payload: &EventPayload) -> (event: Option<&Self>)
        ensures
            match event {
                Some(found) => Self::unpack(*payload) == Some(*found),
                None => Self::unpack(*payload) is None,
            },
    ;
}

/// A container that holds exactly one event, whatever its kind. It is made
/// where the event is dispatched and handed by reference to the handlers.
pub struct EventBox {
    payload: EventPayload,
}

impl View for EventBox {
    type V = EventPayload;

    closed spec fn view(&self) -> EventPayload {
        self.payload
    }
}

impl EventBox {
    /// Boxes an event.
    pub fn new<E: Event>(event: E) -> (boxed: EventBox)
        ensures
            boxed@ == event.pack(),
    {
        EventBox { payload: event.into_payload() }
    }

    /// The kind of the event inside.
    pub fn kind(&self) -> (kind: EventKind)
        ensures
            kind == self@.kind(),
    {
        match self.payload {
            EventPayload::KeyDown(_) => EventKind::KeyDown,
            EventPayload::KeyUp(_) => EventKind::KeyUp,
            EventPayload::Mouse(_) => EventKind::Mouse,
            EventPayload::Click(_) => EventKind::Click,
        }
    }

    /// The event inside, if its kind is `E`; nothing otherwise.
    pub fn downcast_ref<E: Event>(&self) -> (event: Option<&E>)
        ensures
            match event {
                Some(found) => E::unpack(self@) == Some(*found),
                None => E::unpack(self@) is None,
            },
    {
        E::from_payload(&self.payload)
    }
}

/// Downcasting a box to the kind of the event it was built from gives that
/// event back.
pub proof fn lemma_downcast_same_kind<E: Event>(event: E)
    ensures
        E::unpack(event.pack()) == Some(event),
{
    event.lemma_unpack_pack();
}

/// Downcasting a box to another kind than that of the event it was built from
/// gives nothing.
pub proof fn lemma_downcast_other_kind<E1: Event, E2: Event>(event: E1)
    requires
        E1::kind() != E2::kind(),
    ensures
        E2::unpack(event.pack()) is None,
{
    event.lemma_pack_kind();
    E2::lemma_unpack_kind(event.pack());
}

/// The capability to handle events. A handler is for events of one kind. It
/// answers whether it consumed the event; to an event of another kind it
/// answers `false`.
pub trait EventHandler {
    /// The kind of event that the handler is for.
    spec fn interest(&self) -> EventKind;

    /// Whether `consumed` is an answer that the handler can give to this event.
    spec fn may_answer(&self, event: EventPayload, consumed: bool) -> bool;

    /// The kind of event that the handler is for.
    fn kind(&self) -> (kind: EventKind)
        ensures
            kind == self.interest(),
    ;

    /// Handles the event and says whether it was consumed.
    fn handle_event(&self, event: &EventBox) -> (consumed: bool)
        ensures
            self.may_answer(event@, consumed),
            event@.kind() != self.interest() ==> !consumed,
    ;
}

/// An event handler of any type, as a template keeps it: the handler behind
/// one type, with the kind of event that it is for. Events of another kind
/// are answered with `false` here and do not reach the handler.
pub struct Handler {
    interest: EventKind,
    inner: Box<dyn EventHandler>,
}

impl Handler {
    /// The kind of event that the handler is for.
    pub closed spec fn interest(&self) -> EventKind {
        self.interest
    }

    /// Whether the handler takes an interest in this event.
    pub open spec fn recognizes(&self, event: EventPayload) -> bool {
        event.kind() == self.interest()
    }

    /// Whether `consumed` is an answer that the handler behind this one can
    /// give to an event of its kind.
    pub closed spec fn answers(&self, event: EventPayload, consumed: bool) -> bool {
        self.inner.may_answer(event, consumed)
    }

    /// Whether `consumed` is an answer that the handler can give to this
    /// event: to an event of another kind than its own, only `false`.
    pub open spec fn may_answer(&self, event: EventPayload, consumed: bool) -> bool {
        if self.recognizes(event) {
            self.answers(event, consumed)
        } else {
            !consumed
        }
    }

    /// Keeps a handler behind one type, with the kind of event that it is for.
    pub(crate) fn new<H: EventHandler + 'static>(handler: H) -> (kept: Handler)
        ensures
            kept.interest() == handler.interest(),
    {
        let interest = handler.kind();
        Handler { interest, inner: Box::new(handler) }
    }

    /// The kind of event that the handler is for.
    pub fn kind(&self) -> (kind: EventKind)
        ensures
            kind == self.interest(),
    {
        self.interest
    }

    /// Hands an event of the handler's kind to the handler and returns its
    /// answer; answers `false` to an event of another kind.
    pub fn handle_event(&self, event: &EventBox) -> (consumed: bool)
        ensures
            self.may_answer(event@, consumed),
            !self.recognizes(event@) ==> !consumed,
    {
        if event.kind() == self.interest {
            self.inner.handle_event(event)
        } else {
            false
        }
    }
}

/// Whether the handlers, asked in order, may leave `event` to the handler at
/// `index` and have it consumed there: every earlier handler may pass the
/// event on, and this one may consume it.
pub open spec fn may_consume_at(handlers: Seq<Handler>, event: EventPayload, index: int) -> bool {
    &&& 0 <= index < handlers.len()
    &&& handlers[index].may_answer(event, true)
    &&& forall|j: int| 0 <= j < index ==> (#[trigger] handlers[j]).may_answer(event, false)
}

/// Whether `consumed` is an answer that the dispatcher can give: the event is
/// consumed by the first handler that consumes it, and is left unconsumed only
/// when every handler passes it on.
pub open spec fn may_dispatch(handlers: Seq<Handler>, event: EventPayload, consumed: bool) -> bool {
    if consumed {
        exists|index: int| may_consume_at(handlers, event, index)
    } else {
        forall|j: int| 0 <= j < handlers.len() ==> (#[trigger] handlers[j]).may_answer(event, false)
    }
}

/// Offers the event to the handlers in the order in which they were attached
/// and stops at the first one that consumes it.
pub fn dispatch(handlers: &Vec<Handler>, event: &EventBox) -> (consumed: bool)
    ensures
        may_dispatch(handlers@, event@, consumed),
        (forall|i: int| 0 <= i < handlers@.len() ==> !(#[trigger] handlers@[i]).recognizes(event@))
            ==> !consumed,
{
    let mut index: usize = 0;
    while index < handlers.len()
        invariant
            index <= handlers.len(),
            forall|j: int| 0 <= j < index ==> (#[trigger] handlers@[j]).may_answer(event@, false),
        decreases handlers.len() - index,
    {
        if handlers[index].handle_event(event) {
            assert(may_consume_at(handlers@, event@, index as int));
            return true;
        }
        index += 1;
    }
    false
}

} // verus!
