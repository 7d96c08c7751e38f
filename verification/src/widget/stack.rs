//! A widget that lays out its children one after the other.

use vstd::prelude::*;

use crate::widget::attributes::OrientationProperty;
use crate::widget::template::ParentTemplate;
use crate::properties::{Property, PropertyStore};
use crate::widget::template::{Template, TemplateBase, TemplateParts};
use crate::widget::Widget;

verus! {

/// A widget that lays out its children one after the other.
pub struct Stack;

/// The builder of the template of a `Stack`.
pub struct StackTemplate {
    template: Template,
}

impl TemplateBase for StackTemplate {
    closed spec fn inner(self) -> Template {
        self.template
    }

    fn from_template(template: Template) -> (builder: Self) {
        StackTemplate { template }
    }

    fn into_template(self) -> (template: Template) {
        self.template
    }
}

impl ParentTemplate for StackTemplate {

}

impl OrientationProperty for StackTemplate {

}

impl Stack {
    /// What the template of a new `Stack` holds: its name and nothing else.
    pub open spec fn parts() -> TemplateParts {
        TemplateParts { debug_name: "Stack"@, ..TemplateParts::empty() }
    }
}

impl Widget for Stack {
    type Template = StackTemplate;

    /// Creates the template of a new `Stack`. The store stays as it is.
    fn create(store: &mut PropertyStore<Property>) -> (template: Self::Template)
        ensures
            final(store)@ == old(store)@,
            template.inner()@ == Stack::parts(),
    {
        StackTemplate::new().debug_name("Stack")
    }
}

} // verus!
