//! A widget that takes a line of text from the keyboard.

use vstd::prelude::*;

use crate::event::key::KeyDownHandler;
use crate::widget::attributes::TextProperty;
use crate::properties::{Property, PropertyStore};
use crate::widget::template::{Template, TemplateBase, TemplateParts};
use crate::widget::Widget;

verus! {

/// A widget that takes a line of text from the keyboard.
pub struct TextBox;

/// The builder of the template of a `TextBox`.
pub struct TextBoxTemplate {
    template: Template,
}

impl TemplateBase for TextBoxTemplate {
    closed spec fn inner(self) -> Template {
        self.template
    }

    fn from_template(template: Template) -> (builder: Self) {
        TextBoxTemplate { template }
    }

    fn into_template(self) -> (template: Template) {
        self.template
    }
}

impl TextProperty for TextBoxTemplate {

}

impl KeyDownHandler for TextBoxTemplate {

}

impl TextBox {
    /// What the template of a new `TextBox` holds: its name and nothing else.
    pub open spec fn parts() -> TemplateParts {
        TemplateParts { debug_name: "TextBox"@, ..TemplateParts::empty() }
    }
}

impl Widget for TextBox {
    type Template = TextBoxTemplate;

    /// Creates the template of a new `TextBox`. The store stays as it is.
    fn create(store: &mut PropertyStore<Property>) -> (template: Self::Template)
        ensures
            final(store)@ == old(store)@,
            template.inner()@ == TextBox::parts(),
    {
        TextBoxTemplate::new().debug_name("TextBox")
    }
}

} // verus!
