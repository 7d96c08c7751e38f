//! The properties of widgets, and the cells through which several widgets
//! share one property.
//!
//! A shared property lives in a cell of a `PropertyStore`, which one owner
//! holds; the widgets hold handles to the cell. A handle is copied freely, and
//! every copy reads and writes the same cell, so a value written through one
//! handle is the value read through every other. The store is owned by one
//! thread at a time, which rules out concurrent writes by construction.

use vstd::prelude::*;

use core::marker::PhantomData;

use crate::geometry::Thickness;

verus! {

/// The direction in which a stack lays out its children.
#[derive(Clone, Copy, Debug, PartialEq, Eq, Structural)]
pub enum Orientation {
    Horizontal,
    Vertical,
}

/// Where a widget is placed in the space that it is given.
#[derive(Clone, Copy, Debug, PartialEq, Eq, Structural)]
pub enum Alignment {
    Start,
    Center,
    End,
    Stretch,
}

/// The limits of a widget's size, in pixels.
#[derive(Clone, Copy, Debug, PartialEq, Eq, Structural)]
pub struct Constraint {
    pub width: u32,
    pub height: u32,
    pub min_width: u32,
    pub max_width: u32,
    pub min_height: u32,
    pub max_height: u32,
}

impl Constraint {
    /// The constraint that limits nothing.
    pub open spec fn unbounded() -> Constraint {
        Constraint {
            width: 0,
            height: 0,
            min_width: 0,
            max_width: u32::MAX,
            min_height: 0,
            max_height: u32::MAX,
        }
    }

    /// Starts a constraint that limits nothing.
    pub fn create() -> (builder: ConstraintBuilder)
        ensures
            builder.constraint == Constraint::unbounded(),
    {
        ConstraintBuilder {
            constraint: Constraint {
                width: 0,
                height: 0,
                min_width: 0,
                max_width: u32::MAX,
                min_height: 0,
                max_height: u32::MAX,
            },
        }
    }
}

/// Builds a constraint limit by limit.
#[derive(Clone, Copy, Debug, PartialEq, Eq, Structural)]
pub struct ConstraintBuilder {
    pub constraint: Constraint,
}

impl ConstraintBuilder {
    /// Sets the width.
    pub fn width(self, width: u32) -> (builder: Self)
        ensures
            builder.constraint == (Constraint { width, ..self.constraint }),
    {
        let mut builder = self;
        builder.constraint.width = width;
        builder
    }

    /// Sets the height.
    pub fn height(self, height: u32) -> (builder: Self)
        ensures
            builder.constraint == (Constraint { height, ..self.constraint }),
    {
        let mut builder = self;
        builder.constraint.height = height;
        builder
    }

    /// Sets the least width.
    pub fn min_width(self, min_width: u32) -> (builder: Self)
        ensures
            builder.constraint == (Constraint { min_width, ..self.constraint }),
    {
        let mut builder = self;
        builder.constraint.min_width = min_width;
        builder
    }

    /// Sets the greatest width.
    pub fn max_width(self, max_width: u32) -> (builder: Self)
        ensures
            builder.constraint == (Constraint { max_width, ..self.constraint }),
    {
        let mut builder = self;
        builder.constraint.max_width = max_width;
        builder
    }

    /// Sets the least height.
    pub fn min_height(self, min_height: u32) -> (builder: Self)
        ensures
            builder.constraint == (Constraint { min_height, ..self.constraint }),
    {
        let mut builder = self;
        builder.constraint.min_height = min_height;
        builder
    }

    /// Sets the greatest height.
    pub fn max_height(self, max_height: u32) -> (builder: Self)
        ensures
            builder.constraint == (Constraint { max_height, ..self.constraint }),
    {
        let mut builder = self;
        builder.constraint.max_height = max_height;
        builder
    }

    /// The constraint that was built.
    pub fn build(self) -> (constraint: Constraint)
        ensures
            constraint == self.constraint,
    {
        self.constraint
    }
}

/// The kinds of property that a widget can have.
#[derive(Clone, Copy, Debug, PartialEq, Eq, Structural)]
pub enum PropertyKind {
    Text,
    FontIcon,
    Selector,
    Pressed,
    Padding,
    Margin,
    Orientation,
    VerticalAlignment,
    HorizontalAlignment,
}

/// A property of a widget with its value.
#[derive(Clone, Debug, PartialEq, Eq)]
pub enum Property {
    /// The text that the widget shows.
    Text(String),
    /// The icon that the widget shows, as a string of an icon font.
    FontIcon(String),
    /// The name by which the theme finds the widget's style.
    Selector(String),
    /// Whether the widget is pressed.
    Pressed(bool),
    /// The space between the widget's border and its content.
    Padding(Thickness),
    /// The space around the widget.
    Margin(Thickness),
    /// The direction in which the widget lays out its children.
    Orientation(Orientation),
    /// Where the widget is placed vertically.
    VerticalAlignment(Alignment),
    /// Where the widget is placed horizontally.
    HorizontalAlignment(Alignment),
}

/// A property with its value, strings taken by their characters.
pub enum PropertyValue {
    Text(Seq<char>),
    FontIcon(Seq<char>),
    Selector(Seq<char>),
    Pressed(bool),
    Padding(Thickness),
    Margin(Thickness),
    Orientation(Orientation),
    VerticalAlignment(Alignment),
    HorizontalAlignment(Alignment),
}

impl View for Property {
    type V = PropertyValue;

    open spec fn view(&self) -> PropertyValue {
        match *self {
            Property::Text(text) => PropertyValue::Text(text@),
            Property::FontIcon(icon) => PropertyValue::FontIcon(icon@),
            Property::Selector(selector) => PropertyValue::Selector(selector@),
            Property::Pressed(pressed) => PropertyValue::Pressed(pressed),
            Property::Padding(padding) => PropertyValue::Padding(padding),
            Property::Margin(margin) => PropertyValue::Margin(margin),
            Property::Orientation(orientation) => PropertyValue::Orientation(orientation),
            Property::VerticalAlignment(alignment) => PropertyValue::VerticalAlignment(alignment),
            Property::HorizontalAlignment(alignment) => PropertyValue::HorizontalAlignment(
                alignment,
            ),
        }
    }
}

impl Property {
    /// The kind of the property.
    pub open spec fn spec_kind(&self) -> PropertyKind {
        match *self {
            Property::Text(_) => PropertyKind::Text,
            Property::FontIcon(_) => PropertyKind::FontIcon,
            Property::Selector(_) => PropertyKind::Selector,
            Property::Pressed(_) => PropertyKind::Pressed,
            Property::Padding(_) => PropertyKind::Padding,
            Property::Margin(_) => PropertyKind::Margin,
            Property::Orientation(_) => PropertyKind::Orientation,
            Property::VerticalAlignment(_) => PropertyKind::VerticalAlignment,
            Property::HorizontalAlignment(_) => PropertyKind::HorizontalAlignment,
        }
    }

    /// The kind of the property.
    #[verifier::when_used_as_spec(spec_kind)]
    pub fn kind(&self) -> (kind: PropertyKind)
        ensures
            kind == self.spec_kind(),
    {
        match self {
            Property::Text(_) => PropertyKind::Text,
            Property::FontIcon(_) => PropertyKind::FontIcon,
            Property::Selector(_) => PropertyKind::Selector,
            Property::Pressed(_) => PropertyKind::Pressed,
            Property::Padding(_) => PropertyKind::Padding,
            Property::Margin(_) => PropertyKind::Margin,
            Property::Orientation(_) => PropertyKind::Orientation,
            Property::VerticalAlignment(_) => PropertyKind::VerticalAlignment,
            Property::HorizontalAlignment(_) => PropertyKind::HorizontalAlignment,
        }
    }
}

/// The cells of the shared properties of a widget tree.
pub struct PropertyStore<T> {
    cells: Vec<T>,
}

impl<T> View for PropertyStore<T> {
    type V = Seq<T>;

    closed spec fn view(&self) -> Seq<T> {
        self.cells@
    }
}

impl<T> PropertyStore<T> {
    /// Creates a store without cells.
    pub fn new() -> (store: PropertyStore<T>)
        ensures
            store@ == Seq::<T>::empty(),
    {
        PropertyStore { cells: Vec::new() }
    }

    /// The number of cells.
    pub fn len(&self) -> (count: usize)
        ensures
            count == self@.len(),
    {
        self.cells.len()
    }
}

/// A handle to a cell of a property store. Every copy of a handle stands for
/// the same cell.
pub struct SharedProperty<T> {
    cell: usize,
    marker: PhantomData<T>,
}

impl<T> SharedProperty<T> {
    /// The number of the cell that the handle stands for.
    pub closed spec fn cell(&self) -> int {
        self.cell as int
    }

    /// The handle that stands for the cell with a given number.
    pub closed spec fn at(cell: int) -> SharedProperty<T> {
        SharedProperty { cell: cell as usize, marker: PhantomData }
    }

    /// The handle for a cell number stands for that cell.
    pub proof fn lemma_at(cell: int)
        requires
            0 <= cell <= usize::MAX,
        ensures
            Self::at(cell).cell() == cell,
    {
    }

    /// Whether the handle stands for a cell of a store with these cells.
    pub open spec fn within(&self, cells: Seq<T>) -> bool {
        0 <= self.cell() < cells.len()
    }

    /// The value that is read through the handle from a store with these cells.
    pub open spec fn read(&self, cells: Seq<T>) -> T {
        cells[self.cell()]
    }

    /// The cells of a store after a value is written through the handle.
    pub open spec fn written(&self, cells: Seq<T>, value: T) -> Seq<T> {
        cells.update(self.cell(), value)
    }

    /// A cell number fits the machine's word.
    pub proof fn lemma_cell_bound(&self)
        ensures
            0 <= self.cell() <= usize::MAX,
    {
    }

    /// Two handles are equal when they stand for the same cell.
    pub proof fn lemma_same_cell(&self, other: &SharedProperty<T>)
        ensures
            self.cell() == other.cell() <==> *self == *other,
    {
    }

    /// Creates a fresh cell with an initial value and returns the handle to it.
    /// The cells that were there keep their values.
    pub fn new(store: &mut PropertyStore<T>, initial: T) -> (handle: SharedProperty<T>)
        ensures
            final(store)@ == old(store)@.push(initial),
            handle == Self::at(old(store)@.len() as int),
            handle.cell() == old(store)@.len(),
            handle.within(final(store)@),
    {
        let cell = store.cells.len();
        store.cells.push(initial);
        SharedProperty { cell, marker: PhantomData }
    }

    /// Whether the handle stands for a cell of this store.
    pub fn belongs_to(&self, store: &PropertyStore<T>) -> (belongs: bool)
        ensures
            belongs == self.within(store@),
    {
        self.cell < store.cells.len()
    }

    /// Reads the value of the cell.
    pub fn get<'a>(&self, store: &'a PropertyStore<T>) -> (value: &'a T)
        requires
            self.within(store@),
        ensures
            *value == self.read(store@),
    {
        &store.cells[self.cell]
    }

    /// Writes a value to the cell. The other cells keep their values.
    pub fn set(&self, store: &mut PropertyStore<T>, value: T)
        requires
            self.within(old(store)@),
        ensures
            final(store)@ == self.written(old(store)@, value),
    {
        store.cells.set(self.cell, value);
    }
}

impl<T> Clone for SharedProperty<T> {
    /// A second handle to the same cell.
    fn clone(&self) -> (handle: Self)
        ensures
            handle == *self,
    {
        SharedProperty { cell: self.cell, marker: PhantomData }
    }
}

impl<T> Copy for SharedProperty<T> {

}

/// A value written through a handle is the value read through every copy of
/// the handle, and the other way round.
pub proof fn lemma_write_reaches_every_copy<T>(
    cells: Seq<T>,
    first: SharedProperty<T>,
    second: SharedProperty<T>,
    value: T,
)
    requires
        second == first,
        first.within(cells),
    ensures
        second.read(first.written(cells, value)) == value,
        first.read(second.written(cells, value)) == value,
        second.within(first.written(cells, value)),
{
}

/// A value written through a handle leaves what is read through a handle to
/// another cell as it was.
pub proof fn lemma_write_keeps_other_cells<T>(
    cells: Seq<T>,
    written: SharedProperty<T>,
    other: SharedProperty<T>,
    value: T,
)
    requires
        written.within(cells),
        other.within(cells),
        other.cell() != written.cell(),
    ensures
        other.read(written.written(cells, value)) == other.read(cells),
{
}

} // verus!
