//! The builder of a window shell.

use vstd::prelude::*;
use vstd::std_specs::convert::IntoSpec;

use libremarkable::input::InputEvent;
use std::sync::mpsc::Receiver;

use crate::fonts::{lemma_fonts_of_insert, FontRegistry};
use crate::geometry::Rectangle;
use crate::render::RenderContext2D;
use crate::shell::window::Window;
use crate::shell::{Shell, ShellState, WindowAdapter, WindowRequest, WindowSettings};

verus! {

/// The `WindowBuilder` is used to construct a window shell for the device and
/// to add it to the shells of the application.
pub struct WindowBuilder<'a, A: WindowAdapter> {
    /// The shells of the application, to which the window is added.
    pub shell: &'a mut Shell<A>,
    /// The adapter that the window will drive.
    pub adapter: A,
    /// The fonts of the window by family.
    pub fonts: FontRegistry,
    /// The position and the size of the window.
    pub bounds: Rectangle,
    /// The channel of the application's requests, if one was registered.
    pub request_receiver: Option<Receiver<WindowRequest>>,
}

impl<'a, A: WindowAdapter> WindowBuilder<'a, A> {
    /// Creates a new window builder.
    pub fn new(shell: &'a mut Shell<A>, adapter: A) -> (builder: Self)
        ensures
            *builder.shell == *old(shell),
            *final(builder.shell) == *final(shell),
            builder.adapter == adapter,
            builder.fonts@ == Map::<Seq<char>, Seq<u8>>::empty(),
            builder.bounds == (Rectangle { x: 0, y: 0, width: 100, height: 75 }),
            builder.request_receiver is None,
    {
        WindowBuilder {
            shell,
            adapter,
            fonts: FontRegistry::new(),
            bounds: Rectangle::new((0, 0), (100, 75)),
            request_receiver: None,
        }
    }

    /// Creates the window builder from a settings object.
    pub fn from_settings(settings: WindowSettings, shell: &'a mut Shell<A>, adapter: A) -> (builder:
        Self)
        ensures
            *builder.shell == *old(shell),
            *final(builder.shell) == *final(shell),
            builder.adapter == adapter,
            builder.fonts == settings.fonts,
            builder.bounds == (Rectangle {
                x: settings.position.0,
                y: settings.position.1,
                width: settings.size.0,
                height: settings.size.1,
            }),
            builder.request_receiver is None,
    {
        WindowBuilder {
            shell,
            adapter,
            fonts: settings.fonts,
            bounds: Rectangle::new(settings.position, (settings.size.0, settings.size.1)),
            request_receiver: None,
        }
    }

    /// Sets the bounds to what the argument converts into.
    pub fn bounds<R: Into<Rectangle>>(self, bounds: R) -> (builder: Self)
        ensures
            call_ensures(R::into, (bounds,), builder.bounds),
            R::obeys_into_spec() ==> builder.bounds == bounds.into_spec(),
            builder.shell == self.shell,
            builder.adapter == self.adapter,
            builder.fonts == self.fonts,
            builder.request_receiver == self.request_receiver,
    {
        let mut builder = self;
        builder.bounds = bounds.into();
        builder
    }

    /// Registers a new font with family key, in place of the font that the
    /// family had, if it had one. The key is what the argument converts into.
    pub fn font<S: Into<String>>(self, family: S, font_file: &'static [u8]) -> (builder: Self)
        ensures
            exists|name: String|
                call_ensures(S::into, (family,), name) && builder.fonts@ == self.fonts@.insert(
                    name@,
                    font_file@,
                ),
            S::obeys_into_spec() ==> builder.fonts@ == self.fonts@.insert(
                family.into_spec()@,
                font_file@,
            ),
            builder.shell == self.shell,
            builder.adapter == self.adapter,
            builder.bounds == self.bounds,
            builder.request_receiver == self.request_receiver,
    {
        let mut builder = self;
        let name: String = family.into();
        builder.fonts.insert(name, font_file);
        builder
    }

    /// Register a window request receiver to communicate with the window shell from outside.
    pub fn request_receiver(self, request_receiver: Receiver<WindowRequest>) -> (builder: Self)
        ensures
            builder.request_receiver == Some(request_receiver),
            builder.shell == self.shell,
            builder.adapter == self.adapter,
            builder.fonts == self.fonts,
            builder.bounds == self.bounds,
    {
        let mut builder = self;
        builder.request_receiver = Some(request_receiver);
        builder
    }

    /// Builds the window shell and add it to the application `Shell`: the
    /// window gets a blank canvas of the size of the bounds with the fonts
    /// registered, takes its input from the given channel, and waits to be
    /// drawn for the first time.
    pub fn build(self, input_receiver: Receiver<InputEvent>)
        requires
            self.bounds.width * self.bounds.height * 4 <= usize::MAX,
        ensures
            final(self.shell).window_shells@.len() == old(self.shell).window_shells@.len() + 1,
            final(self.shell).window_shells@.drop_last() == old(self.shell).window_shells@,
            ({
                let window = final(self.shell).window_shells@.last();
                let canvas = window.spec_render_context();
                &&& window@ == ShellState::initial()
                &&& window.spec_adapter() == self.adapter
                &&& window.input_receiver() == input_receiver
                &&& window.request_receiver() == self.request_receiver
                &&& window.forwarded().len() == 0
                &&& canvas.spec_width() == self.bounds.width
                &&& canvas.spec_height() == self.bounds.height
                &&& canvas.pixels() == Seq::new(
                    (self.bounds.width * self.bounds.height * 4) as nat,
                    |i: int| 0u8,
                )
                &&& canvas.fonts() == self.fonts@
            }),
    {
        let mut render_context = RenderContext2D::new(self.bounds.width(), self.bounds.height());
        let count = self.fonts.len();
        let mut index: usize = 0;
        while index < count
            invariant
                index <= count,
                count == self.fonts.entries().len(),
                crate::fonts::distinct_families(self.fonts.entries()),
                render_context.spec_width() == self.bounds.width,
                render_context.spec_height() == self.bounds.height,
                render_context.pixels() == Seq::new(
                    (self.bounds.width * self.bounds.height * 4) as nat,
                    |i: int| 0u8,
                ),
                render_context.fonts() == crate::fonts::fonts_of(
                    self.fonts.entries().take(index as int),
                ),
            decreases count - index,
        {
            let (family, font) = self.fonts.entry(index);
            proof {
                let entries = self.fonts.entries();
                let before = entries.take(index as int);
                assert(crate::fonts::distinct_families(before));
                assert(entries.take(index + 1) == before.push(entries[index as int]));
                assert forall|i: int| 0 <= i < before.len() implies (#[trigger] before[i]).0@
                    != entries[index as int].0@ by {
                    assert(before[i] == entries[i]);
                }
                lemma_fonts_of_insert(
                    before,
                    before.push(entries[index as int]),
                    index as int,
                    entries[index as int],
                );
            }
            render_context.register_font(family.as_str(), font);
            index += 1;
        }
        proof {
            assert(self.fonts.entries().take(index as int) == self.fonts.entries());
        }
        self.shell.window_shells.push(
            Window::new(input_receiver, self.adapter, render_context, self.request_receiver),
        );
    }
}

} // verus!
