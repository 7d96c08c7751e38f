use std::cell::Cell;
use std::rc::Rc;

use orbtk::event::key::{Key, KeyDownEvent, KeyDownEventHandler, KeyUpEvent};
use orbtk::event::mouse::{
    ButtonState, ClickEvent, ClickEventHandler, MouseButton, MouseEvent,
};
use orbtk::event::{dispatch, EventBox, EventHandler, EventKind};
use orbtk::geometry::Point;
use orbtk::widget::template::Template;

fn mouse_down() -> MouseEvent {
    MouseEvent { position: Point::new(3, 4), button: MouseButton::Left, state: ButtonState::Down }
}

#[test]
fn box_of_key_down_downcasts_to_key_down_only() {
    let boxed = EventBox::new(KeyDownEvent { key: Key::A(false) });
    assert_eq!(boxed.kind(), EventKind::KeyDown);
    assert_eq!(boxed.downcast_ref::<KeyDownEvent>(), Some(&KeyDownEvent { key: Key::A(false) }));
    assert_eq!(boxed.downcast_ref::<KeyUpEvent>(), None);
    assert_eq!(boxed.downcast_ref::<MouseEvent>(), None);
    assert_eq!(boxed.downcast_ref::<ClickEvent>(), None);
}

#[test]
fn box_of_key_up_downcasts_to_key_up_only() {
    let boxed = EventBox::new(KeyUpEvent { key: Key::Enter });
    assert_eq!(boxed.kind(), EventKind::KeyUp);
    assert_eq!(boxed.downcast_ref::<KeyUpEvent>(), Some(&KeyUpEvent { key: Key::Enter }));
    assert_eq!(boxed.downcast_ref::<KeyDownEvent>(), None);
    assert_eq!(boxed.downcast_ref::<MouseEvent>(), None);
    assert_eq!(boxed.downcast_ref::<ClickEvent>(), None);
}

#[test]
fn box_of_mouse_event_downcasts_to_mouse_event_only() {
    let boxed = EventBox::new(mouse_down());
    assert_eq!(boxed.kind(), EventKind::Mouse);
    assert_eq!(boxed.downcast_ref::<MouseEvent>(), Some(&mouse_down()));
    assert_eq!(boxed.downcast_ref::<KeyDownEvent>(), None);
    assert_eq!(boxed.downcast_ref::<KeyUpEvent>(), None);
    assert_eq!(boxed.downcast_ref::<ClickEvent>(), None);
}

#[test]
fn box_of_click_downcasts_to_click_only() {
    let click = ClickEvent { position: Point::new(7, 9) };
    let boxed = EventBox::new(click);
    assert_eq!(boxed.kind(), EventKind::Click);
    assert_eq!(boxed.downcast_ref::<ClickEvent>(), Some(&click));
    assert_eq!(boxed.downcast_ref::<MouseEvent>(), None);
    assert_eq!(boxed.downcast_ref::<KeyDownEvent>(), None);
    assert_eq!(boxed.downcast_ref::<KeyUpEvent>(), None);
}

#[test]
fn key_down_handler_returns_the_closures_answer() {
    let consuming = KeyDownEventHandler::new(|key: Key| key == Key::Enter);
    assert!(consuming.handle_event(&EventBox::new(KeyDownEvent { key: Key::Enter })));
    assert!(!consuming.handle_event(&EventBox::new(KeyDownEvent { key: Key::Space })));
}

#[test]
fn key_down_handler_gets_the_key_of_the_event() {
    let seen = Rc::new(Cell::new(Key::Unknown));
    let sink = seen.clone();
    let handler = KeyDownEventHandler::new(move |key: Key| {
        sink.set(key);
        false
    });
    assert!(!handler.handle_event(&EventBox::new(KeyDownEvent { key: Key::Z(true) })));
    assert_eq!(seen.get(), Key::Z(true));
}

#[test]
fn key_down_handler_ignores_other_kinds_without_calling_the_closure() {
    let calls = Rc::new(Cell::new(0));
    let counter = calls.clone();
    let handler = KeyDownEventHandler::new(move |_key: Key| {
        counter.set(counter.get() + 1);
        true
    });
    assert!(!handler.handle_event(&EventBox::new(KeyUpEvent { key: Key::Enter })));
    assert!(!handler.handle_event(&EventBox::new(mouse_down())));
    assert!(!handler.handle_event(&EventBox::new(ClickEvent { position: Point::new(1, 1) })));
    assert_eq!(calls.get(), 0);
    assert!(handler.handle_event(&EventBox::new(KeyDownEvent { key: Key::Enter })));
    assert_eq!(calls.get(), 1);
}

#[test]
fn click_handler_gets_the_position_and_ignores_other_kinds() {
    let seen = Rc::new(Cell::new(Point::new(0, 0)));
    let sink = seen.clone();
    let handler = ClickEventHandler::new(move |position: Point| {
        sink.set(position);
        true
    });
    assert!(!handler.handle_event(&EventBox::new(mouse_down())));
    assert_eq!(seen.get(), Point::new(0, 0));
    assert!(handler.handle_event(&EventBox::new(ClickEvent { position: Point::new(12, 34) })));
    assert_eq!(seen.get(), Point::new(12, 34));
}

#[test]
fn dispatch_asks_in_attachment_order_and_stops_at_the_first_consumer() {
    let order = Rc::new(std::cell::RefCell::new(Vec::new()));
    let first = order.clone();
    let second = order.clone();
    let third = order.clone();
    let template = Template::new()
        .event_handler(KeyDownEventHandler::new(move |_key: Key| {
            first.borrow_mut().push(1);
            false
        }))
        .event_handler(KeyDownEventHandler::new(move |_key: Key| {
            second.borrow_mut().push(2);
            true
        }))
        .event_handler(KeyDownEventHandler::new(move |_key: Key| {
            third.borrow_mut().push(3);
            true
        }));
    let event = EventBox::new(KeyDownEvent { key: Key::A(false) });
    assert!(dispatch(template.event_handlers(), &event));
    assert_eq!(*order.borrow(), vec![1, 2]);
}

#[test]
fn dispatch_leaves_an_event_unconsumed_when_every_handler_passes() {
    let template = Template::new()
        .event_handler(KeyDownEventHandler::new(|_key: Key| false))
        .event_handler(ClickEventHandler::new(|_position: Point| true));
    let handlers = template.event_handlers();
    assert!(!dispatch(handlers, &EventBox::new(KeyDownEvent { key: Key::A(false) })));
    assert!(dispatch(handlers, &EventBox::new(ClickEvent { position: Point::new(0, 0) })));
    assert!(!dispatch(handlers, &EventBox::new(KeyUpEvent { key: Key::A(false) })));
}

#[test]
fn dispatch_without_handlers_consumes_nothing() {
    let template = Template::new();
    assert!(!dispatch(template.event_handlers(), &EventBox::new(mouse_down())));
    assert!(!template.handle_event(&EventBox::new(mouse_down())));
}

#[test]
fn handlers_say_the_kind_that_they_are_for() {
    assert_eq!(KeyDownEventHandler::new(|_key: Key| true).kind(), EventKind::KeyDown);
    assert_eq!(ClickEventHandler::new(|_position: Point| true).kind(), EventKind::Click);
}

#[test]
fn attached_handlers_keep_their_kind_and_see_no_other_event() {
    let calls = Rc::new(Cell::new(0));
    let counter = calls.clone();
    let template = Template::new()
        .event_handler(KeyDownEventHandler::new(move |_key: Key| {
            counter.set(counter.get() + 1);
            true
        }))
        .event_handler(ClickEventHandler::new(|_position: Point| false));
    let handlers = template.event_handlers();
    assert_eq!(handlers[0].kind(), EventKind::KeyDown);
    assert_eq!(handlers[1].kind(), EventKind::Click);
    assert!(!handlers[0].handle_event(&EventBox::new(KeyUpEvent { key: Key::Enter })));
    assert!(!handlers[0].handle_event(&EventBox::new(mouse_down())));
    assert_eq!(calls.get(), 0);
    assert!(handlers[0].handle_event(&EventBox::new(KeyDownEvent { key: Key::Enter })));
    assert_eq!(calls.get(), 1);
    assert!(!handlers[1].handle_event(&EventBox::new(ClickEvent { position: Point::new(1, 1) })));
}
