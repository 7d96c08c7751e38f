//! The properties that a widget can accept. A builder offers the methods of
//! a property only if the widget's kind accepts that property.

use vstd::prelude::*;

use crate::geometry::Thickness;
use crate::properties::{Orientation, Property, PropertyKind, SharedProperty};
use crate::widget::template::{Binding, TemplateBase, TemplateParts};

verus! {

/// For widgets that show a text.
pub trait TextProperty: TemplateBase {
    /// Sets the text as a property of the widget's own.
    fn text(self, text: String) -> (builder: Self)
        ensures
            builder.inner()@ == (TemplateParts {
                properties: self.inner()@.properties.push(Property::Text(text)),
                ..self.inner()@
            }),
    {
        self.property(Property::Text(text))
    }

    /// Wires a shared text into the widget.
    fn shared_text(self, text: SharedProperty<Property>) -> (builder: Self)
        ensures
            builder.inner()@ == (TemplateParts {
                bindings: self.inner()@.bindings.push(
                    Binding { kind: PropertyKind::Text, source: text },
                ),
                ..self.inner()@
            }),
    {
        self.shared_property(PropertyKind::Text, text)
    }
}

/// For widgets that show an icon of an icon font.
pub trait FontIconProperty: TemplateBase {
    /// Sets the icon as a property of the widget's own.
    fn font_icon(self, icon: String) -> (builder: Self)
        ensures
            builder.inner()@ == (TemplateParts {
                properties: self.inner()@.properties.push(Property::FontIcon(icon)),
                ..self.inner()@
            }),
    {
        self.property(Property::FontIcon(icon))
    }

    /// Wires a shared icon into the widget.
    fn shared_font_icon(self, icon: SharedProperty<Property>) -> (builder: Self)
        ensures
            builder.inner()@ == (TemplateParts {
                bindings: self.inner()@.bindings.push(
                    Binding { kind: PropertyKind::FontIcon, source: icon },
                ),
                ..self.inner()@
            }),
    {
        self.shared_property(PropertyKind::FontIcon, icon)
    }
}

/// For widgets that can be pressed.
pub trait PressedProperty: TemplateBase {
    /// Sets whether the widget is pressed.
    fn pressed(self, pressed: bool) -> (builder: Self)
        ensures
            builder.inner()@ == (TemplateParts {
                properties: self.inner()@.properties.push(Property::Pressed(pressed)),
                ..self.inner()@
            }),
    {
        self.property(Property::Pressed(pressed))
    }
}

/// For widgets that keep space around their content.
pub trait PaddingProperty: TemplateBase {
    /// Sets the space between the widget's border and its content.
    fn padding(self, padding: Thickness) -> (builder: Self)
        ensures
            builder.inner()@ == (TemplateParts {
                properties: self.inner()@.properties.push(Property::Padding(padding)),
                ..self.inner()@
            }),
    {
        self.property(Property::Padding(padding))
    }
}

/// For widgets that lay out their children in a direction.
pub trait OrientationProperty: TemplateBase {
    /// Sets the direction in which the children are laid out.
    fn orientation(self, orientation: Orientation) -> (builder: Self)
        ensures
            builder.inner()@ == (TemplateParts {
                properties: self.inner()@.properties.push(Property::Orientation(orientation)),
                ..self.inner()@
            }),
    {
        self.property(Property::Orientation(orientation))
    }
}

} // verus!
