//! A widget that shows a text.

use vstd::prelude::*;

use crate::widget::attributes::TextProperty;
use crate::properties::{Property, PropertyStore};
use crate::widget::template::{Template, TemplateBase, TemplateParts};
use crate::widget::Widget;

verus! {

/// A widget that shows a text.
pub struct TextBlock;

/// The builder of the template of a `TextBlock`.
pub struct TextBlockTemplate {
    template: Template,
}

impl TemplateBase for TextBlockTemplate {
    closed spec fn inner(self) -> Template {
        self.template
    }

    fn from_template(template: Template) -> (builder: Self) {
        TextBlockTemplate { template }
    }

    fn into_template(self) -> (template: Template) {
        self.template
    }
}

impl TextProperty for TextBlockTemplate {

}

impl TextBlock {
    /// What the template of a new `TextBlock` holds: its name and nothing else.
    pub open spec fn parts() -> TemplateParts {
        TemplateParts { debug_name: "TextBlock"@, ..TemplateParts::empty() }
    }
}

impl Widget for TextBlock {
    type Template = TextBlockTemplate;

    /// Creates the template of a new `TextBlock`. The store stays as it is.
    fn create(store: &mut PropertyStore<Property>) -> (template: Self::Template)
        ensures
            final(store)@ == old(store)@,
            template.inner()@ == TextBlock::parts(),
    {
        TextBlockTemplate::new().debug_name("TextBlock")
    }
}

} // verus!
