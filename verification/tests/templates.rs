use std::cell::Cell;
use std::rc::Rc;

use orbtk::event::key::{Key, KeyDownEvent, KeyDownHandler, KeyUpEvent};
use orbtk::event::mouse::{ClickEvent, ClickHandler};
use orbtk::event::EventBox;
use orbtk::geometry::{Point, Thickness};
use orbtk::properties::{
    Alignment, Constraint, Orientation, Property, PropertyKind, PropertyStore, SharedProperty,
};
use orbtk::widget::attributes::{
    FontIconProperty, OrientationProperty, PaddingProperty, PressedProperty, TextProperty,
};
use orbtk::widget::button::{Button, ButtonTemplate};
use orbtk::widget::container::Container;
use orbtk::widget::font_icon_block::FontIconBlock;
use orbtk::widget::stack::Stack;
use orbtk::widget::template::{ParentTemplate, Template, TemplateBase};
use orbtk::widget::text_block::TextBlock;
use orbtk::widget::text_box::TextBox;
use orbtk::widget::Widget;

fn named(name: &str) -> Template {
    Template::new().debug_name(name)
}

fn kinds(template: &Template) -> Vec<PropertyKind> {
    template.bindings().iter().map(|binding| binding.kind).collect()
}

#[test]
fn empty_template_holds_nothing() {
    let template = Template::new();
    assert_eq!(template.name(), "");
    assert_eq!(template.limits(), Constraint::create().build());
    assert!(template.properties().is_empty());
    assert!(template.bindings().is_empty());
    assert!(template.children().is_empty());
    assert!(template.event_handlers().is_empty());
}

#[test]
fn children_are_read_back_in_call_order() {
    let template = Template::new().child(named("c1")).child(named("c2")).child(named("c3"));
    let names: Vec<&str> = template.children().iter().map(|child| child.name().as_str()).collect();
    assert_eq!(names, vec!["c1", "c2", "c3"]);
}

#[test]
fn children_of_a_typed_builder_are_read_back_in_call_order() {
    let mut store = PropertyStore::new();
    let stack = Stack::create(&mut store)
        .child(TextBlock::create(&mut store).debug_name("c1"))
        .child(FontIconBlock::create(&mut store).debug_name("c2"))
        .child(Container::create(&mut store).debug_name("c3"))
        .into_template();
    let names: Vec<&str> = stack.children().iter().map(|child| child.name().as_str()).collect();
    assert_eq!(names, vec!["c1", "c2", "c3"]);
}

#[test]
fn builder_methods_change_one_part_each() {
    let mut store = PropertyStore::new();
    let selector = SharedProperty::new(&mut store, Property::Selector(String::from("s")));
    let template = Template::new()
        .debug_name("widget")
        .constraint(Constraint::create().width(5).build())
        .property(Property::Pressed(true))
        .property(Property::Text(String::from("hello")))
        .shared_property(PropertyKind::Selector, selector);
    assert_eq!(template.name(), "widget");
    assert_eq!(template.limits(), Constraint::create().width(5).build());
    assert_eq!(
        *template.properties(),
        vec![Property::Pressed(true), Property::Text(String::from("hello"))]
    );
    assert_eq!(kinds(&template), vec![PropertyKind::Selector]);
    assert!(template.bindings()[0].source.belongs_to(&store));
    assert!(template.children().is_empty());
    assert!(template.event_handlers().is_empty());
}

#[test]
fn template_transform_is_applied_to_the_held_template() {
    let builder = ButtonTemplate::new()
        .debug_name("before")
        .template(|template: Template| {
            template.debug_name("after").property(Property::Pressed(true))
        });
    let template = builder.into_template();
    assert_eq!(template.name(), "after");
    assert_eq!(*template.properties(), vec![Property::Pressed(true)]);
}

#[test]
fn pressed_state_is_a_property_of_the_button() {
    let button = ButtonTemplate::new().pressed(true).into_template();
    assert_eq!(*button.properties(), vec![Property::Pressed(true)]);
}

#[test]
fn simple_widgets_create_named_templates() {
    let mut store = PropertyStore::new();
    assert_eq!(Container::create(&mut store).into_template().name(), "Container");
    assert_eq!(Stack::create(&mut store).into_template().name(), "Stack");
    assert_eq!(TextBlock::create(&mut store).into_template().name(), "TextBlock");
    assert_eq!(FontIconBlock::create(&mut store).into_template().name(), "FontIconBlock");
    assert_eq!(store.len(), 0);
}

#[test]
fn accepted_properties_are_added_to_the_template() {
    let mut store = PropertyStore::new();
    let container =
        Container::create(&mut store).padding(Thickness::new(1, 2, 3, 4)).into_template();
    assert_eq!(*container.properties(), vec![Property::Padding(Thickness::new(1, 2, 3, 4))]);
    let stack = Stack::create(&mut store)
        .orientation(Orientation::Vertical)
        .vertical_alignment(Alignment::Start)
        .horizontal_alignment(Alignment::End)
        .margin(Thickness::new(4, 3, 2, 1))
        .into_template();
    assert_eq!(
        *stack.properties(),
        vec![
            Property::Orientation(Orientation::Vertical),
            Property::VerticalAlignment(Alignment::Start),
            Property::HorizontalAlignment(Alignment::End),
            Property::Margin(Thickness::new(4, 3, 2, 1)),
        ]
    );
    let text = TextBlock::create(&mut store).text(String::from("label")).into_template();
    assert_eq!(*text.properties(), vec![Property::Text(String::from("label"))]);
    let icon =
        FontIconBlock::create(&mut store).font_icon(String::from("\u{e5ca}")).into_template();
    assert_eq!(*icon.properties(), vec![Property::FontIcon(String::from("\u{e5ca}"))]);
}

#[test]
fn button_template_has_the_documented_shape() {
    let mut store = PropertyStore::new();
    let button = Button::create(&mut store).into_template();

    assert_eq!(store.len(), 3);
    assert_eq!(button.name(), "Button");
    assert_eq!(button.limits(), Constraint::create().height(32).min_width(80).build());
    assert_eq!(*button.properties(), vec![Property::Pressed(false)]);
    assert_eq!(
        kinds(&button),
        vec![PropertyKind::Text, PropertyKind::FontIcon, PropertyKind::Selector]
    );
    assert!(button.event_handlers().is_empty());
    assert_eq!(button.children().len(), 1);

    let container = &button.children()[0];
    assert_eq!(container.name(), "Container");
    assert_eq!(*container.properties(), vec![Property::Padding(Thickness::new(8, 0, 8, 0))]);
    assert_eq!(kinds(container), vec![PropertyKind::Selector]);
    assert_eq!(container.children().len(), 1);

    let stack = &container.children()[0];
    assert_eq!(stack.name(), "Stack");
    assert_eq!(
        *stack.properties(),
        vec![
            Property::Orientation(Orientation::Horizontal),
            Property::VerticalAlignment(Alignment::Center),
            Property::HorizontalAlignment(Alignment::Center),
        ]
    );
    assert!(stack.bindings().is_empty());
    assert_eq!(stack.children().len(), 2);

    let icon_block = &stack.children()[0];
    assert_eq!(icon_block.name(), "FontIconBlock");
    assert_eq!(*icon_block.properties(), vec![Property::Margin(Thickness::new(0, 0, 2, 0))]);
    assert_eq!(kinds(icon_block), vec![PropertyKind::FontIcon, PropertyKind::Selector]);
    assert!(icon_block.children().is_empty());

    let text_block = &stack.children()[1];
    assert_eq!(text_block.name(), "TextBlock");
    assert!(text_block.properties().is_empty());
    assert_eq!(kinds(text_block), vec![PropertyKind::Text, PropertyKind::Selector]);
    assert!(text_block.children().is_empty());
}

#[test]
fn button_cells_start_with_their_defaults() {
    let mut store = PropertyStore::new();
    let button = Button::create(&mut store).into_template();
    let bindings = button.bindings();
    assert_eq!(*bindings[0].source.get(&store), Property::Text(String::new()));
    assert_eq!(*bindings[1].source.get(&store), Property::FontIcon(String::new()));
    assert_eq!(*bindings[2].source.get(&store), Property::Selector(String::from("button")));
}

#[test]
fn button_text_reaches_the_text_block() {
    let mut store = PropertyStore::new();
    let button = Button::create(&mut store).into_template();
    let stack = &button.children()[0].children()[0];
    let icon_block = &stack.children()[0];
    let text_block = &stack.children()[1];

    button.bindings()[0].source.set(&mut store, Property::Text(String::from("OK")));
    assert_eq!(*text_block.bindings()[0].source.get(&store), Property::Text(String::from("OK")));

    icon_block.bindings()[0].source.set(&mut store, Property::FontIcon(String::from("x")));
    assert_eq!(*button.bindings()[1].source.get(&store), Property::FontIcon(String::from("x")));

    button.bindings()[2].source.set(&mut store, Property::Selector(String::from("primary")));
    for widget in [&button.children()[0], icon_block, text_block] {
        let selector = widget.bindings().last().unwrap();
        assert_eq!(selector.kind, PropertyKind::Selector);
        assert_eq!(*selector.source.get(&store), Property::Selector(String::from("primary")));
    }
}

#[test]
fn second_button_gets_cells_of_its_own() {
    let mut store = PropertyStore::new();
    let first = Button::create(&mut store).into_template();
    let second = Button::create(&mut store).into_template();
    assert_eq!(store.len(), 6);
    second.bindings()[0].source.set(&mut store, Property::Text(String::from("second")));
    assert_eq!(*first.bindings()[0].source.get(&store), Property::Text(String::new()));
    assert_eq!(*second.bindings()[0].source.get(&store), Property::Text(String::from("second")));
}

#[test]
fn click_and_key_handlers_are_asked_in_attachment_order() {
    let clicks = Rc::new(Cell::new(0));
    let counter = clicks.clone();
    let mut store = PropertyStore::new();
    let button = Button::create(&mut store)
        .on_click(move |_position: Point| {
            counter.set(counter.get() + 1);
            true
        })
        .into_template();
    assert_eq!(button.event_handlers().len(), 1);
    assert!(button.handle_event(&EventBox::new(ClickEvent { position: Point::new(1, 2) })));
    assert!(!button.handle_event(&EventBox::new(KeyDownEvent { key: Key::Enter })));
    assert_eq!(clicks.get(), 1);
}

#[test]
fn on_key_down_attaches_a_key_down_handler() {
    let seen = Rc::new(Cell::new(Key::Unknown));
    let sink = seen.clone();
    let mut store = PropertyStore::new();
    let field = TextBox::create(&mut store)
        .text(String::from("name"))
        .on_key_down(move |key: Key| {
            sink.set(key);
            key == Key::Enter
        })
        .into_template();
    assert_eq!(field.name(), "TextBox");
    assert_eq!(field.event_handlers().len(), 1);
    assert!(!field.handle_event(&EventBox::new(KeyDownEvent { key: Key::A(true) })));
    assert_eq!(seen.get(), Key::A(true));
    assert!(field.handle_event(&EventBox::new(KeyDownEvent { key: Key::Enter })));
    assert!(!field.handle_event(&EventBox::new(KeyUpEvent { key: Key::A(false) })));
    assert_eq!(seen.get(), Key::Enter);
}

#[test]
fn shared_picks_the_property_wired_last_for_the_kind() {
    let mut store = PropertyStore::new();
    let first = SharedProperty::new(&mut store, Property::Text(String::from("first")));
    let second = SharedProperty::new(&mut store, Property::Text(String::from("second")));
    let selector = SharedProperty::new(&mut store, Property::Selector(String::from("s")));
    let template = Template::new()
        .shared_property(PropertyKind::Text, first)
        .shared_property(PropertyKind::Text, second)
        .shared_property(PropertyKind::Selector, selector);
    let text = template.shared(PropertyKind::Text).unwrap();
    assert_eq!(*text.get(&store), Property::Text(String::from("second")));
    let found = template.shared(PropertyKind::Selector).unwrap();
    assert_eq!(*found.get(&store), Property::Selector(String::from("s")));
    assert!(template.shared(PropertyKind::FontIcon).is_none());
    assert!(Template::new().shared(PropertyKind::Text).is_none());
}

#[test]
fn own_picks_the_property_added_last_for_the_kind() {
    let template = Template::new()
        .property(Property::Pressed(false))
        .property(Property::Text(String::from("label")))
        .property(Property::Pressed(true));
    assert_eq!(template.own(PropertyKind::Pressed), Some(&Property::Pressed(true)));
    assert_eq!(template.own(PropertyKind::Text), Some(&Property::Text(String::from("label"))));
    assert_eq!(template.own(PropertyKind::Margin), None);
}

#[test]
fn value_prefers_the_shared_cell_to_the_own_property() {
    let mut store = PropertyStore::new();
    let text = SharedProperty::new(&mut store, Property::Text(String::from("shared")));
    let template = Template::new()
        .property(Property::Text(String::from("own")))
        .property(Property::Pressed(true))
        .shared_property(PropertyKind::Text, text);
    assert_eq!(
        template.value(PropertyKind::Text, &store),
        Some(&Property::Text(String::from("shared")))
    );
    assert_eq!(template.value(PropertyKind::Pressed, &store), Some(&Property::Pressed(true)));
    assert_eq!(template.value(PropertyKind::Selector, &store), None);
    let other: PropertyStore<Property> = PropertyStore::new();
    assert_eq!(
        template.value(PropertyKind::Text, &other),
        Some(&Property::Text(String::from("own")))
    );
}

#[test]
fn text_block_shows_what_is_written_through_the_button() {
    let mut store = PropertyStore::new();
    let button = Button::create(&mut store).into_template();
    let text_block = &button.children()[0].children()[0].children()[1];
    assert_eq!(text_block.value(PropertyKind::Text, &store), Some(&Property::Text(String::new())));
    let text = button.shared(PropertyKind::Text).unwrap();
    text.set(&mut store, Property::Text(String::from("Save")));
    assert_eq!(
        text_block.value(PropertyKind::Text, &store),
        Some(&Property::Text(String::from("Save")))
    );
    assert_eq!(
        button.value(PropertyKind::Text, &store),
        Some(&Property::Text(String::from("Save")))
    );
    assert_eq!(button.value(PropertyKind::Pressed, &store), Some(&Property::Pressed(false)));
}
