//! A widget that shows an icon of an icon font.

use vstd::prelude::*;

use crate::widget::attributes::FontIconProperty;
use crate::properties::{Property, PropertyStore};
use crate::widget::template::{Template, TemplateBase, TemplateParts};
use crate::widget::Widget;

verus! {

/// A widget that shows an icon of an icon font.
pub struct FontIconBlock;

/// The builder of the template of a `FontIconBlock`.
pub struct FontIconBlockTemplate {
    template: Template,
}

impl TemplateBase for FontIconBlockTemplate {
    closed spec fn inner(self) -> Template {
        self.template
    }

    fn from_template(template: Template) -> (builder: Self) {
        FontIconBlockTemplate { template }
    }

    fn into_template(self) -> (template: Template) {
        self.template
    }
}

impl FontIconProperty for FontIconBlockTemplate {

}

impl FontIconBlock {
    /// What the template of a new `FontIconBlock` holds: its name and nothing else.
    pub open spec fn parts() -> TemplateParts {
        TemplateParts { debug_name: "FontIconBlock"@, ..TemplateParts::empty() }
    }
}

impl Widget for FontIconBlock {
    type Template = FontIconBlockTemplate;

    /// Creates the template of a new `FontIconBlock`. The store stays as it is.
    fn create(store: &mut PropertyStore<Property>) -> (template: Self::Template)
        ensures
            final(store)@ == old(store)@,
            template.inner()@ == FontIconBlock::parts(),
    {
        FontIconBlockTemplate::new().debug_name("FontIconBlock")
    }
}

} // verus!
