use orbtk::geometry::{Point, Rectangle, Thickness};
use orbtk::properties::{
    Constraint, Property, PropertyKind, PropertyStore, SharedProperty,
};

#[test]
fn write_through_one_handle_is_read_through_its_clone() {
    let mut store: PropertyStore<u32> = PropertyStore::new();
    let first = SharedProperty::new(&mut store, 1);
    let second = first.clone();
    assert_eq!(*second.get(&store), 1);
    first.set(&mut store, 42);
    assert_eq!(*second.get(&store), 42);
    second.set(&mut store, 7);
    assert_eq!(*first.get(&store), 7);
}

#[test]
fn write_leaves_other_cells_alone() {
    let mut store: PropertyStore<String> = PropertyStore::new();
    let text = SharedProperty::new(&mut store, String::from("text"));
    let icon = SharedProperty::new(&mut store, String::from("icon"));
    text.set(&mut store, String::from("changed"));
    assert_eq!(text.get(&store), "changed");
    assert_eq!(icon.get(&store), "icon");
    assert_eq!(store.len(), 2);
}

#[test]
fn handles_belong_to_the_store_that_has_their_cell() {
    let mut store: PropertyStore<bool> = PropertyStore::new();
    let empty: PropertyStore<bool> = PropertyStore::new();
    let handle = SharedProperty::new(&mut store, true);
    assert!(handle.belongs_to(&store));
    assert!(!handle.belongs_to(&empty));
    assert_eq!(empty.len(), 0);
}

#[test]
fn shared_property_values() {
    let mut store: PropertyStore<Property> = PropertyStore::new();
    let text = SharedProperty::new(&mut store, Property::Text(String::new()));
    let copy = text;
    copy.set(&mut store, Property::Text(String::from("OK")));
    assert_eq!(*text.get(&store), Property::Text(String::from("OK")));
    assert_eq!(text.get(&store).kind(), PropertyKind::Text);
}

#[test]
fn property_kinds() {
    assert_eq!(Property::FontIcon(String::new()).kind(), PropertyKind::FontIcon);
    assert_eq!(Property::Selector(String::from("button")).kind(), PropertyKind::Selector);
    assert_eq!(Property::Pressed(true).kind(), PropertyKind::Pressed);
    assert_eq!(Property::Padding(Thickness::new(1, 2, 3, 4)).kind(), PropertyKind::Padding);
    assert_eq!(Property::Margin(Thickness::new(1, 2, 3, 4)).kind(), PropertyKind::Margin);
}

#[test]
fn constraint_builder_sets_each_limit() {
    let constraint = Constraint::create().height(32).min_width(80).build();
    assert_eq!(
        constraint,
        Constraint {
            width: 0,
            height: 32,
            min_width: 80,
            max_width: u32::MAX,
            min_height: 0,
            max_height: u32::MAX,
        }
    );
    let other = Constraint::create().width(10).max_width(20).min_height(3).max_height(4).build();
    assert_eq!(
        other,
        Constraint {
            width: 10,
            height: 0,
            min_width: 0,
            max_width: 20,
            min_height: 3,
            max_height: 4,
        }
    );
}

#[test]
fn rectangle_parts() {
    let rectangle = Rectangle::new((100, 300), (50, 60));
    assert_eq!(rectangle.x(), 100);
    assert_eq!(rectangle.y(), 300);
    assert_eq!(rectangle.width(), 50);
    assert_eq!(rectangle.height(), 60);
    assert_eq!(Point::new(1, 2), Point { x: 1, y: 2 });
}

#[test]
fn clip_keeps_a_rectangle_inside_the_canvas() {
    let rectangle = Rectangle::new((100, 300), (50, 50));
    assert_eq!(rectangle.clip(200, 400), rectangle);
}

#[test]
fn clip_cuts_a_rectangle_at_the_canvas_edge() {
    let rectangle = Rectangle::new((100, 300), (50, 50));
    assert_eq!(rectangle.clip(120, 310), Rectangle::new((100, 300), (20, 10)));
}

#[test]
fn clip_of_a_rectangle_outside_the_canvas_is_empty() {
    let rectangle = Rectangle::new((100, 300), (50, 50));
    let part = rectangle.clip(80, 200);
    assert_eq!(part.width(), 0);
    assert_eq!(part.height(), 0);
    let huge = Rectangle::new((u32::MAX, u32::MAX), (u32::MAX, u32::MAX));
    assert_eq!(huge.clip(10, 10), Rectangle::new((10, 10), (0, 0)));
    let wide = Rectangle::new((0, 0), (u32::MAX, u32::MAX));
    assert_eq!(wide.clip(10, 20), Rectangle::new((0, 0), (10, 20)));
}
