//! The description of one widget instance and its fluent builder.

use vstd::prelude::*;

use crate::event::{dispatch, may_dispatch, EventBox, EventHandler, Handler};
use crate::geometry::Thickness;
use crate::properties::{
    Alignment, Constraint, Property, PropertyKind, PropertyStore, SharedProperty,
};

verus! {

/// A shared property wired into a widget: the attribute of the widget that
/// the cell drives, and the handle to the cell.
#[derive(Clone, Copy)]
pub struct Binding {
    pub kind: PropertyKind,
    pub source: SharedProperty<Property>,
}

/// The description of one widget instance: its name for debugging, the limits
/// of its size, its own properties, the shared properties wired into it, its
/// children in layout order and its event handlers in the order in which they
/// are asked.
pub struct Template {
    debug_name: String,
    constraint: Constraint,
    properties: Vec<Property>,
    bindings: Vec<Binding>,
    children: Vec<Template>,
    event_handlers: Vec<Handler>,
}

/// What a template holds.
pub struct TemplateParts {
    pub debug_name: Seq<char>,
    pub constraint: Constraint,
    pub properties: Seq<Property>,
    pub bindings: Seq<Binding>,
    pub children: Seq<Template>,
    pub event_handlers: Seq<Handler>,
}

impl View for Template {
    type V = TemplateParts;

    closed spec fn view(&self) -> TemplateParts {
        TemplateParts {
            debug_name: self.debug_name@,
            constraint: self.constraint,
            properties: self.properties@,
            bindings: self.bindings@,
            children: self.children@,
            event_handlers: self.event_handlers@,
        }
    }
}

impl TemplateParts {
    /// What an empty template holds.
    pub open spec fn empty() -> TemplateParts {
        TemplateParts {
            debug_name: Seq::empty(),
            constraint: Constraint::unbounded(),
            properties: Seq::empty(),
            bindings: Seq::empty(),
            children: Seq::empty(),
            event_handlers: Seq::empty(),
        }
    }

    /// What a template holds after a child is appended to it.
    pub open spec fn with_child(self, child: Template) -> TemplateParts {
        TemplateParts { children: self.children.push(child), ..self }
    }
}

/// The shared property that drives an attribute of a widget: the one that was
/// wired last for that kind, if any was.
pub open spec fn shared_of(bindings: Seq<Binding>, kind: PropertyKind) -> Option<
    SharedProperty<Property>,
>
    decreases bindings.len(),
{
    if bindings.len() == 0 {
        None
    } else if bindings.last().kind == kind {
        Some(bindings.last().source)
    } else {
        shared_of(bindings.drop_last(), kind)
    }
}

/// The position of the widget's own property of a kind: that of the one that
/// was added last for that kind, if any was.
pub open spec fn own_of(properties: Seq<Property>, kind: PropertyKind) -> Option<int>
    decreases properties.len(),
{
    if properties.len() == 0 {
        None
    } else if properties.last().spec_kind() == kind {
        Some(properties.len() - 1)
    } else {
        own_of(properties.drop_last(), kind)
    }
}

/// The value that a widget shows for an attribute: the value of the cell that
/// drives the attribute where one is wired and the store has it, and the
/// widget's own property otherwise.
pub open spec fn value_of(parts: TemplateParts, kind: PropertyKind, cells: Seq<Property>) -> Option<
    Property,
> {
    match shared_of(parts.bindings, kind) {
        Some(source) if source.within(cells) => Some(source.read(cells)),
        _ => match own_of(parts.properties, kind) {
            Some(at) => Some(parts.properties[at]),
            None => None,
        },
    }
}

/// Children are read back in the order in which they were appended, behind
/// the children that were there before.
pub proof fn lemma_children_keep_order(
    parts: TemplateParts,
    first: Template,
    second: Template,
    third: Template,
)
    ensures
        parts.with_child(first).with_child(second).with_child(third).children == parts.children
            + seq![first, second, third],
{
    assert(parts.with_child(first).with_child(second).with_child(third).children
        =~= parts.children + seq![first, second, third]);
}

impl Template {
    /// Whether every shared property that is wired into the widget or into one
    /// of its descendants stands for a cell of a store with these cells.
    pub open spec fn bound_within(self, cells: Seq<Property>) -> bool
        decreases self,
    {
        &&& forall|i: int|
            0 <= i < self@.bindings.len() ==> (#[trigger] self@.bindings[i]).source.within(cells)
        &&& forall|j: int|
            0 <= j < self@.children.len() ==> (#[trigger] self@.children[j]).bound_within(cells)
    }

    /// Whether `other` is a child of this template or of one of its descendants.
    pub open spec fn has_descendant(self, other: Template) -> bool
        decreases self,
    {
        exists|j: int|
            0 <= j < self@.children.len() && ((#[trigger] self@.children[j]) == other
                || self@.children[j].has_descendant(other))
    }

    /// A descendant is strictly smaller than the template that it is under.
    pub proof fn lemma_descendant_is_smaller(self, other: Template)
        requires
            self.has_descendant(other),
        ensures
            decreases_to!(self => other),
        decreases self,
    {
        let j = choose|j: int|
            0 <= j < self@.children.len() && ((#[trigger] self@.children[j]) == other
                || self@.children[j].has_descendant(other));
        if self@.children[j] != other {
            self@.children[j].lemma_descendant_is_smaller(other);
        }
    }

    /// A template is a tree: no template is its own descendant.
    pub proof fn lemma_acyclic(self)
        ensures
            !self.has_descendant(self),
    {
        if self.has_descendant(self) {
            self.lemma_descendant_is_smaller(self);
        }
    }

    /// Creates a template without a name, limits, properties, children or handlers.
    pub fn new() -> (template: Template)
        ensures
            template@ == TemplateParts::empty(),
    {
        Template {
            debug_name: String::new(),
            constraint: Constraint::create().build(),
            properties: Vec::new(),
            bindings: Vec::new(),
            children: Vec::new(),
            event_handlers: Vec::new(),
        }
    }

    /// Sets the name for debugging.
    pub fn debug_name(self, name: &str) -> (template: Template)
        ensures
            template@ == (TemplateParts { debug_name: name@, ..self@ }),
    {
        let mut template = self;
        template.debug_name = name.to_owned();
        template
    }

    /// Sets the limits of the size.
    pub fn constraint(self, constraint: Constraint) -> (template: Template)
        ensures
            template@ == (TemplateParts { constraint, ..self@ }),
    {
        let mut template = self;
        template.constraint = constraint;
        template
    }

    /// Adds a property of the widget's own, behind those that it has.
    pub fn property(self, property: Property) -> (template: Template)
        ensures
            template@ == (TemplateParts { properties: self@.properties.push(property), ..self@ }),
    {
        let mut template = self;
        template.properties.push(property);
        template
    }

    /// Wires a shared property into the widget, behind those that it has.
    pub fn shared_property(self, kind: PropertyKind, source: SharedProperty<Property>) -> (template:
        Template)
        ensures
            template@ == (TemplateParts {
                bindings: self@.bindings.push(Binding { kind, source }),
                ..self@
            }),
    {
        let mut template = self;
        template.bindings.push(Binding { kind, source });
        template
    }

    /// Appends a child behind the children that the template has.
    pub fn child(self, child: Template) -> (template: Template)
        ensures
            template@ == self@.with_child(child),
    {
        let mut template = self;
        template.children.push(child);
        template
    }

    /// Attaches an event handler behind the handlers that the template has,
    /// for the kind of event that the handler is for.
    pub fn event_handler<H: EventHandler + 'static>(self, handler: H) -> (template: Template)
        ensures
            template@.event_handlers.len() == self@.event_handlers.len() + 1,
            template@.event_handlers.last().interest() == handler.interest(),
            template@ == (TemplateParts {
                event_handlers: self@.event_handlers.push(template@.event_handlers.last()),
                ..self@
            }),
    {
        let mut template = self;
        template.event_handlers.push(Handler::new(handler));
        template
    }

    /// The name for debugging.
    pub fn name(&self) -> (name: &String)
        ensures
            name@ == self@.debug_name,
    {
        &self.debug_name
    }

    /// The limits of the size.
    pub fn limits(&self) -> (constraint: Constraint)
        ensures
            constraint == self@.constraint,
    {
        self.constraint
    }

    /// The widget's own properties, in the order in which they were added.
    pub fn properties(&self) -> (properties: &Vec<Property>)
        ensures
            properties@ == self@.properties,
    {
        &self.properties
    }

    /// The shared properties of the widget, in the order in which they were wired.
    pub fn bindings(&self) -> (bindings: &Vec<Binding>)
        ensures
            bindings@ == self@.bindings,
    {
        &self.bindings
    }

    /// The children, in the order in which they were appended.
    pub fn children(&self) -> (children: &Vec<Template>)
        ensures
            children@ == self@.children,
    {
        &self.children
    }

    /// The event handlers, in the order in which they were attached.
    pub fn event_handlers(&self) -> (handlers: &Vec<Handler>)
        ensures
            handlers@ == self@.event_handlers,
    {
        &self.event_handlers
    }

    /// The shared property that drives an attribute: the one that was wired
    /// last for that kind, if any was.
    pub fn shared(&self, kind: PropertyKind) -> (source: Option<SharedProperty<Property>>)
        ensures
            source == shared_of(self@.bindings, kind),
    {
        let mut index: usize = self.bindings.len();
        proof {
            assert(self.bindings@.take(index as int) == self.bindings@);
        }
        while index > 0
            invariant
                index <= self.bindings.len(),
                shared_of(self.bindings@, kind) == shared_of(
                    self.bindings@.take(index as int),
                    kind,
                ),
            decreases index,
        {
            proof {
                assert(self.bindings@.take(index as int).drop_last() == self.bindings@.take(
                    index - 1,
                ));
            }
            index -= 1;
            if self.bindings[index].kind == kind {
                return Some(self.bindings[index].source);
            }
        }
        None
    }

    /// The widget's own property of a kind: the one that was added last for
    /// that kind, if any was.
    pub fn own(&self, kind: PropertyKind) -> (property: Option<&Property>)
        ensures
            match property {
                Some(found) => own_of(self@.properties, kind) is Some && *found
                    == self@.properties[own_of(self@.properties, kind).unwrap()],
                None => own_of(self@.properties, kind) is None,
            },
    {
        let mut index: usize = self.properties.len();
        proof {
            assert(self.properties@.take(index as int) == self.properties@);
        }
        while index > 0
            invariant
                index <= self.properties.len(),
                own_of(self.properties@, kind) == own_of(self.properties@.take(index as int), kind),
            decreases index,
        {
            proof {
                assert(self.properties@.take(index as int).drop_last() == self.properties@.take(
                    index - 1,
                ));
            }
            index -= 1;
            if self.properties[index].kind() == kind {
                return Some(&self.properties[index]);
            }
        }
        None
    }

    /// The value that the widget shows for an attribute: the value of the
    /// cell that drives the attribute where one is wired and the store has
    /// it, and the widget's own property otherwise.
    pub fn value<'a>(&'a self, kind: PropertyKind, store: &'a PropertyStore<Property>) -> (value:
        Option<&'a Property>)
        ensures
            match value {
                Some(found) => value_of(self@, kind, store@) == Some(*found),
                None => value_of(self@, kind, store@) is None,
            },
    {
        if let Some(source) = self.shared(kind) {
            if source.belongs_to(store) {
                return Some(source.get(store));
            }
        }
        self.own(kind)
    }

    /// Offers an event to the handlers of this widget in the order in which
    /// they were attached, and stops at the first one that consumes it.
    pub fn handle_event(&self, event: &EventBox) -> (consumed: bool)
        ensures
            may_dispatch(self@.event_handlers, event@, consumed),
            (forall|i: int|
                0 <= i < self@.event_handlers.len() ==> !(#[trigger] self@.event_handlers[i]).recognizes(
                    event@,
                )) ==> !consumed,
    {
        dispatch(&self.event_handlers, event)
    }
}

/// A builder of templates for one kind of widget. The builder holds a
/// template, and each of its methods takes the builder and gives it back with
/// the template changed.
pub trait TemplateBase: Sized {
    /// The template that the builder holds.
    spec fn inner(self) -> Template;

    /// Makes a builder that holds a template.
    fn from_template(template: Template) -> (builder: Self)
        ensures
            builder.inner() == template,
    ;

    /// Ends the chain and hands out the finished template.
    fn into_template(self) -> (template: Template)
        ensures
            template == self.inner(),
    ;

    /// Transforms the template that the builder holds.
    fn template<F: FnOnce(Template) -> Template>(self, transform: F) -> (builder: Self)
        requires
            call_requires(transform, (self.inner(),)),
        ensures
            call_ensures(transform, (self.inner(),), builder.inner()),
    {
        Self::from_template(transform(self.into_template()))
    }

    /// Starts a builder with an empty template.
    fn new() -> (builder: Self)
        ensures
            builder.inner()@ == TemplateParts::empty(),
    {
        Self::from_template(Template::new())
    }

    /// Sets the name for debugging.
    fn debug_name(self, name: &str) -> (builder: Self)
        ensures
            builder.inner()@ == (TemplateParts { debug_name: name@, ..self.inner()@ }),
    {
        Self::from_template(self.into_template().debug_name(name))
    }

    /// Adds a property of the widget's own, behind those that it has.
    fn property(self, property: Property) -> (builder: Self)
        ensures
            builder.inner()@ == (TemplateParts {
                properties: self.inner()@.properties.push(property),
                ..self.inner()@
            }),
    {
        Self::from_template(self.into_template().property(property))
    }

    /// Wires a shared property into the widget, behind those that it has.
    fn shared_property(self, kind: PropertyKind, source: SharedProperty<Property>) -> (builder: Self)
        ensures
            builder.inner()@ == (TemplateParts {
                bindings: self.inner()@.bindings.push(Binding { kind, source }),
                ..self.inner()@
            }),
    {
        Self::from_template(self.into_template().shared_property(kind, source))
    }

    /// Wires the shared selector by which the theme finds the widget's style.
    fn shared_selector(self, selector: SharedProperty<Property>) -> (builder: Self)
        ensures
            builder.inner()@ == (TemplateParts {
                bindings: self.inner()@.bindings.push(
                    Binding { kind: PropertyKind::Selector, source: selector },
                ),
                ..self.inner()@
            }),
    {
        self.shared_property(PropertyKind::Selector, selector)
    }

    /// Sets the space around the widget.
    fn margin(self, margin: Thickness) -> (builder: Self)
        ensures
            builder.inner()@ == (TemplateParts {
                properties: self.inner()@.properties.push(Property::Margin(margin)),
                ..self.inner()@
            }),
    {
        self.property(Property::Margin(margin))
    }

    /// Sets where the widget is placed vertically.
    fn vertical_alignment(self, alignment: Alignment) -> (builder: Self)
        ensures
            builder.inner()@ == (TemplateParts {
                properties: self.inner()@.properties.push(Property::VerticalAlignment(alignment)),
                ..self.inner()@
            }),
    {
        self.property(Property::VerticalAlignment(alignment))
    }

    /// Sets where the widget is placed horizontally.
    fn horizontal_alignment(self, alignment: Alignment) -> (builder: Self)
        ensures
            builder.inner()@ == (TemplateParts {
                properties: self.inner()@.properties.push(
                    Property::HorizontalAlignment(alignment),
                ),
                ..self.inner()@
            }),
    {
        self.property(Property::HorizontalAlignment(alignment))
    }

    /// Sets the limits of the size.
    fn constraint(self, constraint: Constraint) -> (builder: Self)
        ensures
            builder.inner()@ == (TemplateParts { constraint, ..self.inner()@ }),
    {
        Self::from_template(self.into_template().constraint(constraint))
    }

    /// Attaches an event handler behind the handlers that the widget has, for
    /// the kind of event that the handler is for.
    fn event_handler<H: EventHandler + 'static>(self, handler: H) -> (builder: Self)
        ensures
            builder.inner()@.event_handlers.len() == self.inner()@.event_handlers.len() + 1,
            builder.inner()@.event_handlers.last().interest() == handler.interest(),
            builder.inner()@ == (TemplateParts {
                event_handlers: self.inner()@.event_handlers.push(
                    builder.inner()@.event_handlers.last(),
                ),
                ..self.inner()@
            }),
    {
        Self::from_template(self.into_template().event_handler(handler))
    }
}

/// A builder for a widget that takes children.
pub trait ParentTemplate: TemplateBase {
    /// Appends a child behind the children that the widget has.
    fn child<C: TemplateBase>(self, child: C) -> (builder: Self)
        ensures
            builder.inner()@ == self.inner()@.with_child(child.inner()),
    {
        Self::from_template(self.into_template().child(child.into_template()))
    }
}

} // verus!
