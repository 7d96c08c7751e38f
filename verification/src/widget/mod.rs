//! Widgets. A widget is a function from its properties to a template tree:
//! it has no state of its own, and larger widgets are made by nesting the
//! templates of smaller ones.

pub mod attributes;
pub mod button;
pub mod container;
pub mod font_icon_block;
pub mod stack;
pub mod template;
pub mod text_block;
pub mod text_box;

use vstd::prelude::*;

use crate::properties::{Property, PropertyStore};
use crate::widget::template::TemplateBase;

verus! {

/// The capability of a widget kind to create its template.
pub trait Widget {
    /// The builder of this widget's templates, which offers the properties
    /// and handlers that the widget accepts and no others.
    type Template: TemplateBase;

    /// Creates the template of a new widget of this kind. The shared
    /// properties of the widget get fresh cells in the store; the cells that
    /// were there keep their values, and every shared property in the
    /// template stands for a cell of the store.
    fn create(store: &mut PropertyStore<Property>) -> (template: Self::Template)
        ensures
            old(store)@.is_prefix_of(final(store)@),
            template.inner().bound_within(final(store)@),
    ;
}

} // verus!
