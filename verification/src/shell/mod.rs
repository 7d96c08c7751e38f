//! The window shell of the device: the state that decides when to draw, the
//! window that drives an adapter with it, and the builder that sets a window up.

pub mod window;
pub mod window_builder;

use vstd::prelude::*;

use crate::event::mouse::{ButtonState, MouseButton, MouseEvent};
use crate::fonts::FontRegistry;
use crate::geometry::{Point, Rectangle};
use crate::platform::HardwareInput;
use crate::render::RenderContext2D;
use crate::shell::window::Window;

verus! {

/// What the application can ask of a window shell from outside its loop.
#[derive(Clone, Debug, PartialEq, Eq)]
pub enum WindowRequest {
    /// Draw the widget tree again.
    Redraw,
    /// Change the title. The display has none, so the request changes nothing.
    ChangeTitle(String),
    /// Close the window.
    Close,
}

/// The root driver of a widget tree, which the application implements. The
/// shell hands it the translated input and lets it draw.
pub trait WindowAdapter {
    /// Takes a mouse event.
    fn mouse_event(&mut self, event: MouseEvent);

    /// Evaluates the widget tree against the canvas, draws what changed and
    /// returns the rectangle that bounds the changed pixels, if any changed.
    fn run(&mut self, render_context: &mut RenderContext2D) -> Option<Rectangle>;
}

/// The window shells of an application.
pub struct Shell<A: WindowAdapter> {
    pub window_shells: Vec<Window<A>>,
}

impl<A: WindowAdapter> Shell<A> {
    /// Creates a shell without windows.
    pub fn new() -> (shell: Shell<A>)
        ensures
            shell.window_shells@.len() == 0,
    {
        Shell { window_shells: Vec::new() }
    }
}

/// The settings that a window can be built from.
pub struct WindowSettings {
    pub title: String,
    pub borderless: bool,
    pub resizeable: bool,
    pub always_on_top: bool,
    pub position: (u32, u32),
    pub size: (u32, u32),
    pub fonts: FontRegistry,
}

/// The mouse event that a hardware input stands for: a finger that touches or
/// leaves the panel is the left button going down or coming up at that place.
/// Every other input is ignored.
pub open spec fn mouse_event_of(input: HardwareInput) -> Option<MouseEvent> {
    match input {
        HardwareInput::TouchPress { x, y } => Some(
            MouseEvent {
                position: Point { x: x as u32, y: y as u32 },
                button: MouseButton::Left,
                state: ButtonState::Down,
            },
        ),
        HardwareInput::TouchRelease { x, y } => Some(
            MouseEvent {
                position: Point { x: x as u32, y: y as u32 },
                button: MouseButton::Left,
                state: ButtonState::Up,
            },
        ),
        HardwareInput::TouchMove { .. } => None,
        HardwareInput::Stylus => None,
        HardwareInput::Button => None,
        HardwareInput::Unknown => None,
    }
}

/// The mouse events that a run of hardware inputs stands for, in their order.
pub open spec fn mouse_events_of(inputs: Seq<HardwareInput>) -> Seq<MouseEvent>
    decreases inputs.len(),
{
    if inputs.len() == 0 {
        Seq::empty()
    } else {
        match mouse_event_of(inputs.last()) {
            Some(event) => mouse_events_of(inputs.drop_last()).push(event),
            None => mouse_events_of(inputs.drop_last()),
        }
    }
}

/// Translates one hardware input.
pub fn translate(input: HardwareInput) -> (event: Option<MouseEvent>)
    ensures
        event == mouse_event_of(input),
{
    match input {
        HardwareInput::TouchPress { x, y } => Some(
            MouseEvent {
                position: Point::new(x as u32, y as u32),
                button: MouseButton::Left,
                state: ButtonState::Down,
            },
        ),
        HardwareInput::TouchRelease { x, y } => Some(
            MouseEvent {
                position: Point::new(x as u32, y as u32),
                button: MouseButton::Left,
                state: ButtonState::Up,
            },
        ),
        HardwareInput::TouchMove { .. } => None,
        HardwareInput::Stylus => None,
        HardwareInput::Button => None,
        HardwareInput::Unknown => None,
    }
}

/// Translates a run of hardware inputs and drops those that are ignored.
pub fn translate_all(inputs: &Vec<HardwareInput>) -> (events: Vec<MouseEvent>)
    ensures
        events@ == mouse_events_of(inputs@),
{
    let mut events: Vec<MouseEvent> = Vec::new();
    let mut index: usize = 0;
    while index < inputs.len()
        invariant
            index <= inputs.len(),
            events@ == mouse_events_of(inputs@.take(index as int)),
        decreases inputs.len() - index,
    {
        proof {
            assert(inputs@.take(index + 1).drop_last() == inputs@.take(index as int));
        }
        if let Some(event) = translate(inputs[index]) {
            events.push(event);
        }
        index += 1;
    }
    proof {
        assert(inputs@.take(index as int) == inputs@);
    }
    events
}

/// How the display is asked to wait for a refresh.
#[derive(Clone, Copy, Debug, PartialEq, Eq, Structural)]
pub enum RefreshMode {
    /// Only test whether the refresh would collide with another.
    DryRun,
    /// Return at once, while the panel settles.
    Async,
    /// Return when the panel has settled.
    Wait,
}

/// How the panel moves its pixels to their new values.
#[derive(Clone, Copy, Debug, PartialEq, Eq, Structural)]
pub enum WaveformMode {
    /// Clears the panel to white.
    Init,
    /// Black and white only, fast.
    Du,
    /// Sixteen levels of gray, high fidelity.
    Gc16,
    /// Sixteen levels of gray, medium fidelity, fast.
    Gc16Fast,
    /// Chosen by the panel.
    Auto,
}

/// The temperature that the panel assumes for the refresh.
#[derive(Clone, Copy, Debug, PartialEq, Eq, Structural)]
pub enum DisplayTemp {
    Ambient,
    Papyrus,
    RemarkableDraw,
    Max,
}

/// How the panel dithers.
#[derive(Clone, Copy, Debug, PartialEq, Eq, Structural)]
pub enum DitherMode {
    Passthrough,
    Drawing,
}

/// The parameters of a partial refresh of the display.
#[derive(Clone, Copy, Debug, PartialEq, Eq, Structural)]
pub struct Refresh {
    pub mode: RefreshMode,
    pub waveform: WaveformMode,
    pub temperature: DisplayTemp,
    pub dither: DitherMode,
    pub quant_bit: i32,
    pub force_full_refresh: bool,
}

impl Refresh {
    /// The refresh that the shell asks for after drawing: the fast gray
    /// waveform, without waiting for the panel.
    pub open spec fn fast() -> Refresh {
        Refresh {
            mode: RefreshMode::Async,
            waveform: WaveformMode::Gc16Fast,
            temperature: DisplayTemp::RemarkableDraw,
            dither: DitherMode::Passthrough,
            quant_bit: 0,
            force_full_refresh: false,
        }
    }
}

/// What the display is to show: the pixels of a region in the display's
/// encoding, and how to refresh that region.
#[derive(Debug)]
pub struct Frame {
    pub region: Rectangle,
    pub pixels: Vec<u8>,
    pub refresh: Refresh,
}

/// What a window shell remembers between the steps of its loop.
#[derive(Clone, Copy, Debug, PartialEq, Eq, Structural)]
pub struct ShellState {
    /// The widget tree has to be evaluated again.
    pub update: bool,
    /// The display has to be refreshed.
    pub redraw: bool,
    /// The window was asked to close.
    pub close: bool,
    /// The rectangle that the last evaluation changed.
    pub dirty_region: Option<Rectangle>,
}

impl ShellState {
    /// The state of a new window: everything is still to be drawn.
    pub open spec fn initial() -> ShellState {
        ShellState { update: true, redraw: true, close: false, dirty_region: None }
    }

    /// The state after one request. A redraw is taken up only while neither an
    /// update nor a refresh is pending; a change of title changes nothing.
    pub open spec fn after_request(self, request: WindowRequest) -> ShellState {
        match request {
            WindowRequest::Redraw => if !self.update && !self.redraw {
                ShellState { update: true, redraw: true, ..self }
            } else {
                self
            },
            WindowRequest::ChangeTitle(_) => self,
            WindowRequest::Close => ShellState { close: true, ..self },
        }
    }

    /// The state after a run of requests, taken in their order.
    pub open spec fn after_requests(self, requests: Seq<WindowRequest>) -> ShellState
        decreases requests.len(),
    {
        if requests.len() == 0 {
            self
        } else {
            self.after_requests(requests.drop_last()).after_request(requests.last())
        }
    }

    /// The state after the adapter has evaluated the widget tree and reported
    /// what it changed.
    pub open spec fn after_update(self, dirty_region: Option<Rectangle>) -> ShellState {
        ShellState { update: false, redraw: true, dirty_region, ..self }
    }

    /// The region that a render step writes to the display of a canvas of the
    /// given size: the dirty rectangle, cut down to the canvas, while a
    /// refresh is pending and that part is not empty.
    pub open spec fn render_region(self, width: u32, height: u32) -> Option<Rectangle> {
        match self.dirty_region {
            Some(dirty) => if self.redraw && !dirty.clipped(width, height).is_empty() {
                Some(dirty.clipped(width, height))
            } else {
                None
            },
            None => None,
        }
    }

    /// The state after a render step.
    pub open spec fn after_render(self, width: u32, height: u32) -> ShellState {
        if self.render_region(width, height) is Some {
            ShellState { redraw: false, ..self }
        } else {
            self
        }
    }

    /// Takes one request.
    pub fn request(self, request: &WindowRequest) -> (next: ShellState)
        ensures
            next == self.after_request(*request),
    {
        match request {
            WindowRequest::Redraw => {
                if !self.update && !self.redraw {
                    ShellState {
                        update: true,
                        redraw: true,
                        close: self.close,
                        dirty_region: self.dirty_region,
                    }
                } else {
                    self
                }
            },
            WindowRequest::ChangeTitle(_) => self,
            WindowRequest::Close => ShellState {
                update: self.update,
                redraw: self.redraw,
                close: true,
                dirty_region: self.dirty_region,
            },
        }
    }
}

/// Two redraw requests in a row leave the state that one leaves.
pub proof fn lemma_redraw_coalesces(state: ShellState)
    ensures
        state.after_request(WindowRequest::Redraw).after_request(WindowRequest::Redraw)
            == state.after_request(WindowRequest::Redraw),
        state.after_requests(seq![WindowRequest::Redraw, WindowRequest::Redraw])
            == state.after_requests(seq![WindowRequest::Redraw]),
{
    let one = seq![WindowRequest::Redraw];
    let two = seq![WindowRequest::Redraw, WindowRequest::Redraw];
    assert(one.drop_last() == Seq::<WindowRequest>::empty());
    assert(two.drop_last() == one);
    reveal_with_fuel(ShellState::after_requests, 3);
}

/// A window that was asked to close stays closed, whatever is asked of it
/// later and whatever its update and render steps do.
pub proof fn lemma_closed_stays_closed(
    state: ShellState,
    requests: Seq<WindowRequest>,
    dirty_region: Option<Rectangle>,
    width: u32,
    height: u32,
)
    requires
        state.close,
    ensures
        state.after_requests(requests).close,
        state.after_update(dirty_region).close,
        state.after_render(width, height).close,
    decreases requests.len(),
{
    if requests.len() > 0 {
        lemma_closed_stays_closed(state, requests.drop_last(), dirty_region, width, height);
    }
}

/// Without input there is no mouse event for the adapter, and without
/// requests the state stays as it is.
pub proof fn lemma_nothing_pending(state: ShellState)
    ensures
        mouse_events_of(Seq::empty()) == Seq::<MouseEvent>::empty(),
        state.after_requests(Seq::empty()) == state,
{
}

} // verus!
