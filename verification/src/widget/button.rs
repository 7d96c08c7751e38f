//! The button: a widget that the user clicks to perform an action.

use vstd::prelude::*;

use crate::event::mouse::ClickHandler;
use crate::geometry::Thickness;
use crate::properties::{
    Alignment, Constraint, Orientation, Property, PropertyKind, PropertyStore, PropertyValue,
    SharedProperty,
};
use crate::widget::attributes::{
    FontIconProperty, OrientationProperty, PaddingProperty, PressedProperty, TextProperty,
};
use crate::widget::container::Container;
use crate::widget::font_icon_block::FontIconBlock;
use crate::widget::stack::Stack;
use crate::widget::template::{
    shared_of, value_of, Binding, ParentTemplate, Template, TemplateBase, TemplateParts,
};
use crate::widget::text_block::TextBlock;
use crate::widget::Widget;

verus! {

/// The `Button` widget can be clicked by user. It's used to perform an action.
///
/// # Shared Properties
///
/// * `Text` - String used to display the text of the button.
/// * `FontIcon` - String used to display the font icon of the button.
/// * `Selector` - Selector with the element name `button`, used to request the theme of the widget.
///
/// # Properties
///
/// * `Pressed` - Bool value represents the pressed state of the button.
///
/// # Others
///
/// * `ParentType`- Single.
pub struct Button;

/// The builder of the template of a `Button`. It accepts a text, an icon, the
/// pressed state and click handlers.
pub struct ButtonTemplate {
    template: Template,
}

impl TemplateBase for ButtonTemplate {
    closed spec fn inner(self) -> Template {
        self.template
    }

    fn from_template(template: Template) -> (builder: Self) {
        ButtonTemplate { template }
    }

    fn into_template(self) -> (template: Template) {
        self.template
    }
}

impl ParentTemplate for ButtonTemplate {

}

impl TextProperty for ButtonTemplate {

}

impl FontIconProperty for ButtonTemplate {

}

impl PressedProperty for ButtonTemplate {

}

impl ClickHandler for ButtonTemplate {

}

impl Button {
    /// The shared text of a button whose cells start at `first`.
    pub open spec fn text(first: int) -> SharedProperty<Property> {
        SharedProperty::at(first)
    }

    /// The shared icon of a button whose cells start at `first`.
    pub open spec fn icon(first: int) -> SharedProperty<Property> {
        SharedProperty::at(first + 1)
    }

    /// The shared selector of a button whose cells start at `first`.
    pub open spec fn selector(first: int) -> SharedProperty<Property> {
        SharedProperty::at(first + 2)
    }

    /// The block that shows the button's text: it reads the text and the
    /// selector of the button.
    pub open spec fn is_text_block(block: Template, first: int) -> bool {
        block@ == (TemplateParts {
            bindings: seq![
                Binding { kind: PropertyKind::Text, source: Self::text(first) },
                Binding { kind: PropertyKind::Selector, source: Self::selector(first) },
            ],
            ..TextBlock::parts()
        })
    }

    /// The block that shows the button's icon: it reads the icon and the
    /// selector of the button, and keeps two pixels free on its right.
    pub open spec fn is_icon_block(block: Template, first: int) -> bool {
        block@ == (TemplateParts {
            properties: seq![Property::Margin(Thickness { left: 0, top: 0, right: 2, bottom: 0 })],
            bindings: seq![
                Binding { kind: PropertyKind::FontIcon, source: Self::icon(first) },
                Binding { kind: PropertyKind::Selector, source: Self::selector(first) },
            ],
            ..FontIconBlock::parts()
        })
    }

    /// The stack that centers the icon and the text side by side, the icon first.
    pub open spec fn is_stack(stack: Template, first: int) -> bool {
        &&& stack@.children.len() == 2
        &&& Self::is_icon_block(stack@.children[0], first)
        &&& Self::is_text_block(stack@.children[1], first)
        &&& stack@ == (TemplateParts {
            properties: seq![
                Property::Orientation(Orientation::Horizontal),
                Property::VerticalAlignment(Alignment::Center),
                Property::HorizontalAlignment(Alignment::Center),
            ],
            children: stack@.children,
            ..Stack::parts()
        })
    }

    /// The container that keeps eight pixels free to the left and to the right
    /// of the stack, and reads the selector of the button.
    pub open spec fn is_container(container: Template, first: int) -> bool {
        &&& container@.children.len() == 1
        &&& Self::is_stack(container@.children[0], first)
        &&& container@ == (TemplateParts {
            properties: seq![
                Property::Padding(Thickness { left: 8, top: 0, right: 8, bottom: 0 }),
            ],
            bindings: seq![
                Binding { kind: PropertyKind::Selector, source: Self::selector(first) },
            ],
            children: container@.children,
            ..Container::parts()
        })
    }

    /// The template of a button whose cells start at `first`: 32 pixels high
    /// and at least 80 wide, not pressed, with the container as its one child
    /// and with its text, its icon and its selector wired in.
    pub open spec fn is_button(button: Template, first: int) -> bool {
        &&& button@.children.len() == 1
        &&& Self::is_container(button@.children[0], first)
        &&& button@ == (TemplateParts {
            debug_name: "Button"@,
            constraint: Constraint { height: 32, min_width: 80, ..Constraint::unbounded() },
            properties: seq![Property::Pressed(false)],
            bindings: seq![
                Binding { kind: PropertyKind::Text, source: Self::text(first) },
                Binding { kind: PropertyKind::FontIcon, source: Self::icon(first) },
                Binding { kind: PropertyKind::Selector, source: Self::selector(first) },
            ],
            children: button@.children,
            event_handlers: Seq::empty(),
        })
    }

    /// Every shared property in the template of a button stands for one of
    /// the three cells of the button.
    pub proof fn lemma_bound(button: Template, first: int, cells: Seq<Property>)
        requires
            Self::is_button(button, first),
            0 <= first,
            first + 2 <= usize::MAX,
            first + 3 <= cells.len(),
        ensures
            button.bound_within(cells),
    {
        SharedProperty::<Property>::lemma_at(first);
        SharedProperty::<Property>::lemma_at(first + 1);
        SharedProperty::<Property>::lemma_at(first + 2);
        let container = button@.children[0];
        let stack = container@.children[0];
        let icon_block = stack@.children[0];
        let text_block = stack@.children[1];
        assert(icon_block.bound_within(cells));
        assert(text_block.bound_within(cells));
        assert(stack.bound_within(cells));
        assert(container.bound_within(cells));
    }

    /// A text written through the button's own text is the text that the
    /// block inside the button shows, whatever the cells held before.
    pub proof fn lemma_text_reaches_block(
        button: Template,
        first: int,
        cells: Seq<Property>,
        text: Property,
    )
        requires
            Self::is_button(button, first),
            0 <= first,
            first + 2 <= usize::MAX,
            first + 3 <= cells.len(),
        ensures
            shared_of(button@.bindings, PropertyKind::Text) == Some(Self::text(first)),
            value_of(
                button@.children[0]@.children[0]@.children[1]@,
                PropertyKind::Text,
                Self::text(first).written(cells, text),
            ) == Some(text),
    {
        SharedProperty::<Property>::lemma_at(first);
        let block = button@.children[0]@.children[0]@.children[1]@;
        assert(block.bindings.drop_last() == seq![
            Binding { kind: PropertyKind::Text, source: Self::text(first) },
        ]);
        assert(button@.bindings.drop_last().drop_last() == seq![
            Binding { kind: PropertyKind::Text, source: Self::text(first) },
        ]);
        reveal_with_fuel(shared_of, 4);
    }
}

impl Widget for Button {
    type Template = ButtonTemplate;

    /// Creates the template of a new button. The store gets three fresh cells
    /// behind those that it has: an empty text, an empty icon and the selector
    /// `button`.
    fn create(store: &mut PropertyStore<Property>) -> (template: Self::Template)
        ensures
            final(store)@.len() == old(store)@.len() + 3,
            final(store)@[old(store)@.len() as int]@ == PropertyValue::Text(Seq::empty()),
            final(store)@[old(store)@.len() as int + 1]@ == PropertyValue::FontIcon(Seq::empty()),
            final(store)@[old(store)@.len() as int + 2]@ == PropertyValue::Selector("button"@),
            Button::is_button(template.inner(), old(store)@.len() as int),
    {
        let ghost first = store@.len() as int;
        let text = SharedProperty::new(store, Property::Text(String::new()));
        let icon = SharedProperty::new(store, Property::FontIcon(String::new()));
        let selector = SharedProperty::new(store, Property::Selector("button".to_owned()));
        let ghost cells = store@;

        let text_block = TextBlock::create(store).shared_text(text.clone()).shared_selector(
            selector.clone(),
        );
        assert(Self::is_text_block(text_block.inner(), first)) by {
            assert(text_block.inner()@.bindings =~= seq![
                Binding { kind: PropertyKind::Text, source: Self::text(first) },
                Binding { kind: PropertyKind::Selector, source: Self::selector(first) },
            ]);
        }
        let icon_block = FontIconBlock::create(store).margin(
            Thickness::new(0, 0, 2, 0),
        ).shared_font_icon(icon.clone()).shared_selector(selector.clone());
        assert(Self::is_icon_block(icon_block.inner(), first)) by {
            assert(icon_block.inner()@.properties =~= seq![
                Property::Margin(Thickness { left: 0, top: 0, right: 2, bottom: 0 }),
            ]);
            assert(icon_block.inner()@.bindings =~= seq![
                Binding { kind: PropertyKind::FontIcon, source: Self::icon(first) },
                Binding { kind: PropertyKind::Selector, source: Self::selector(first) },
            ]);
        }
        let stack = Stack::create(store).orientation(Orientation::Horizontal).vertical_alignment(
            Alignment::Center,
        ).horizontal_alignment(Alignment::Center).child(icon_block).child(text_block);
        assert(Self::is_stack(stack.inner(), first)) by {
            assert(stack.inner()@.properties =~= seq![
                Property::Orientation(Orientation::Horizontal),
                Property::VerticalAlignment(Alignment::Center),
                Property::HorizontalAlignment(Alignment::Center),
            ]);
        }
        let container = Container::create(store).padding(Thickness::new(8, 0, 8, 0)).shared_selector(
            selector.clone(),
        ).child(stack);
        assert(Self::is_container(container.inner(), first)) by {
            assert(container.inner()@.properties =~= seq![
                Property::Padding(Thickness { left: 8, top: 0, right: 8, bottom: 0 }),
            ]);
            assert(container.inner()@.bindings =~= seq![
                Binding { kind: PropertyKind::Selector, source: Self::selector(first) },
            ]);
        }
        let button = ButtonTemplate::new().constraint(
            Constraint::create().height(32).min_width(80).build(),
        ).pressed(false).debug_name("Button").child(container).shared_text(text).shared_font_icon(
            icon,
        ).shared_selector(selector);
        assert(Self::is_button(button.inner(), first)) by {
            assert(button.inner()@.properties =~= seq![Property::Pressed(false)]);
            assert(button.inner()@.bindings =~= seq![
                Binding { kind: PropertyKind::Text, source: Self::text(first) },
                Binding { kind: PropertyKind::FontIcon, source: Self::icon(first) },
                Binding { kind: PropertyKind::Selector, source: Self::selector(first) },
            ]);
        }
        proof {
            selector.lemma_cell_bound();
            Self::lemma_bound(button.inner(), first, cells);
        }
        button
    }
}

} // verus!
