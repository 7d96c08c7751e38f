//! A widget that keeps space around its one child.

use vstd::prelude::*;

use crate::widget::attributes::PaddingProperty;
use crate::widget::template::ParentTemplate;
use crate::properties::{Property, PropertyStore};
use crate::widget::template::{Template, TemplateBase, TemplateParts};
use crate::widget::Widget;

verus! {

/// A widget that keeps space around its one child.
pub struct Container;

/// The builder of the template of a `Container`.
pub struct ContainerTemplate {
    template: Template,
}

impl TemplateBase for ContainerTemplate {
    closed spec fn inner(self) -> Template {
        self.template
    }

    fn from_template(template: Template) -> (builder: Self) {
        ContainerTemplate { template }
    }

    fn into_template(self) -> (template: Template) {
        self.template
    }
}

impl ParentTemplate for ContainerTemplate {

}

impl PaddingProperty for ContainerTemplate {

}

impl Container {
    /// What the template of a new `Container` holds: its name and nothing else.
    pub open spec fn parts() -> TemplateParts {
        TemplateParts { debug_name: "Container"@, ..TemplateParts::empty() }
    }
}

impl Widget for Container {
    type Template = ContainerTemplate;

    /// Creates the template of a new `Container`. The store stays as it is.
    fn create(store: &mut PropertyStore<Property>) -> (template: Self::Template)
        ensures
            final(store)@ == old(store)@,
            template.inner()@ == Container::parts(),
    {
        ContainerTemplate::new().debug_name("Container")
    }
}

} // verus!
