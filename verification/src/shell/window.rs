//! The window of the device: it takes the hardware input to the adapter and
//! runs the update and render steps.

use vstd::prelude::*;

use libremarkable::input::InputEvent;
use std::sync::atomic::{AtomicBool, Ordering};
use std::sync::mpsc::Receiver;
use std::sync::Arc;

use crate::event::mouse::MouseEvent;
use crate::geometry::Rectangle;
use crate::platform::{hardware_input, pending, HardwareInput};
use crate::render::{native_frame, RenderContext2D};
use crate::shell::{
    mouse_events_of, translate_all, DisplayTemp, DitherMode, Frame, Refresh, RefreshMode,
    ShellState, WaveformMode, WindowAdapter, WindowRequest,
};

verus! {

/// A window on the display of the device. It takes input and requests from
/// its two channels, hands the input to its adapter, lets the adapter draw on
/// its canvas and says which part of the canvas the display has to show.
///
/// The window decides by its own state, which it alone changes. Whether a
/// refresh is pending is also published in an atomic flag, for producers
/// that run beside the loop of the window.
///
/// For proofs the window keeps a journal of the mouse events that it has
/// handed to its adapter. The journal is ghost: it takes no room in the
/// running program.
pub struct Window<A: WindowAdapter> {
    input_receiver: Receiver<InputEvent>,
    adapter: A,
    render_context: RenderContext2D,
    request_receiver: Option<Receiver<WindowRequest>>,
    state: ShellState,
    redraw: Arc<AtomicBool>,
    forwarded: Ghost<Seq<MouseEvent>>,
}

impl<A: WindowAdapter> View for Window<A> {
    type V = ShellState;

    closed spec fn view(&self) -> ShellState {
        self.state
    }
}

impl<A: WindowAdapter> Window<A> {
    /// The adapter that the window drives.
    pub closed spec fn spec_adapter(&self) -> A {
        self.adapter
    }

    /// The canvas that the adapter draws on.
    pub closed spec fn spec_render_context(&self) -> RenderContext2D {
        self.render_context
    }

    /// The channel that brings the hardware input.
    pub closed spec fn input_receiver(&self) -> Receiver<InputEvent> {
        self.input_receiver
    }

    /// The channel that brings the application's requests, if there is one.
    pub closed spec fn request_receiver(&self) -> Option<Receiver<WindowRequest>> {
        self.request_receiver
    }

    /// The flag in which the window publishes whether a refresh is pending.
    pub closed spec fn spec_redraw_flag(&self) -> Arc<AtomicBool> {
        self.redraw
    }

    /// The mouse events that the window has handed to its adapter since it
    /// was made, in the order in which it handed them over.
    pub closed spec fn forwarded(&self) -> Seq<MouseEvent> {
        self.forwarded@
    }

    /// Whether two windows have the same channels and the same flag.
    pub open spec fn same_channels(&self, other: &Self) -> bool {
        &&& self.input_receiver() == other.input_receiver()
        &&& self.request_receiver() == other.request_receiver()
        &&& self.spec_redraw_flag() == other.spec_redraw_flag()
    }

    /// Whether two windows differ in nothing but their state.
    pub open spec fn same_parts(&self, other: &Self) -> bool {
        &&& self.spec_adapter() == other.spec_adapter()
        &&& self.spec_render_context() == other.spec_render_context()
        &&& self.forwarded() == other.forwarded()
        &&& self.same_channels(other)
    }

    /// Creates a window, for which everything is still to be drawn.
    pub fn new(
        input_receiver: Receiver<InputEvent>,
        adapter: A,
        render_context: RenderContext2D,
        request_receiver: Option<Receiver<WindowRequest>>,
    ) -> (window: Self)
        ensures
            window@ == ShellState::initial(),
            window.spec_adapter() == adapter,
            window.spec_render_context() == render_context,
            window.input_receiver() == input_receiver,
            window.request_receiver() == request_receiver,
            window.forwarded() == Seq::<MouseEvent>::empty(),
    {
        Window {
            input_receiver,
            adapter,
            render_context,
            request_receiver,
            state: ShellState { update: true, redraw: true, close: false, dirty_region: None },
            redraw: Arc::new(AtomicBool::new(true)),
            forwarded: Ghost(Seq::empty()),
        }
    }

    /// Publishes whether a refresh is pending.
    fn publish(&self) {
        self.redraw.store(self.state.redraw, Ordering::Relaxed);
    }

    /// The flag in which the window publishes whether a refresh is pending.
    pub fn redraw_flag(&self) -> (flag: &Arc<AtomicBool>)
        ensures
            *flag == self.spec_redraw_flag(),
    {
        &self.redraw
    }

    /// The adapter that the window drives.
    pub fn adapter(&self) -> (adapter: &A)
        ensures
            *adapter == self.spec_adapter(),
    {
        &self.adapter
    }

    /// The canvas that the adapter draws on.
    pub fn render_context(&self) -> (render_context: &RenderContext2D)
        ensures
            *render_context == self.spec_render_context(),
    {
        &self.render_context
    }

    /// What the window remembers between the steps of its loop.
    pub fn state(&self) -> (state: ShellState)
        ensures
            state == self@,
    {
        self.state
    }

    /// Check if the window is open.
    pub fn is_open(&self) -> (open: bool)
        ensures
            open == !self@.close,
    {
        !self.state.close
    }

    /// Updates the clipboard. The device has none, so nothing changes.
    pub fn update_clipboard(&mut self)
        ensures
            *final(self) == *old(self),
    {
    }

    /// Hands the mouse events that a run of hardware inputs stands for to the
    /// adapter, in their order, and notes each of them as forwarded. The state
    /// of the shell stays as it is, and where no input stands for a mouse
    /// event the adapter is not called.
    pub fn deliver(&mut self, inputs: &Vec<HardwareInput>)
        ensures
            final(self).forwarded() == old(self).forwarded() + mouse_events_of(inputs@),
            final(self)@ == old(self)@,
            final(self).spec_render_context() == old(self).spec_render_context(),
            final(self).same_channels(old(self)),
            mouse_events_of(inputs@).len() == 0 ==> *final(self) == *old(self),
    {
        let events = translate_all(inputs);
        let mut index: usize = 0;
        while index < events.len()
            invariant
                index <= events.len(),
                self.forwarded() == old(self).forwarded() + events@.take(index as int),
                self@ == old(self)@,
                self.spec_render_context() == old(self).spec_render_context(),
                self.same_channels(old(self)),
                index == 0 ==> *self == *old(self),
            decreases events.len() - index,
        {
            self.adapter.mouse_event(events[index]);
            self.forwarded = Ghost(self.forwarded@.push(events@[index as int]));
            proof {
                assert(events@.take(index + 1) == events@.take(index as int).push(
                    events@[index as int],
                ));
            }
            index += 1;
        }
        proof {
            assert(events@.take(index as int) == events@);
        }
    }

    /// Drain events and propagate the events to the adapter: takes the
    /// hardware input that is waiting in the channel, without blocking, and
    /// delivers it. What is waiting is not known here; whatever it is, the
    /// adapter gets the mouse events that it stands for, and the state of the
    /// shell stays as it is.
    pub fn drain_events(&mut self)
        ensures
            exists|inputs: Seq<HardwareInput>|
                final(self).forwarded() == old(self).forwarded() + mouse_events_of(inputs),
            final(self)@ == old(self)@,
            final(self).spec_render_context() == old(self).spec_render_context(),
            final(self).same_channels(old(self)),
    {
        let events = pending(&self.input_receiver);
        let mut inputs: Vec<HardwareInput> = Vec::new();
        let mut index: usize = 0;
        while index < events.len()
            invariant
                index <= events.len(),
            decreases events.len() - index,
        {
            inputs.push(hardware_input(&events[index]));
            index += 1;
        }
        self.deliver(&inputs);
    }

    /// Takes a run of requests in their order.
    pub fn handle_requests(&mut self, requests: &Vec<WindowRequest>)
        ensures
            final(self)@ == old(self)@.after_requests(requests@),
            final(self).same_parts(old(self)),
            requests@.len() == 0 ==> *final(self) == *old(self),
    {
        let mut index: usize = 0;
        while index < requests.len()
            invariant
                index <= requests.len(),
                self@ == old(self)@.after_requests(requests@.take(index as int)),
                self.same_parts(old(self)),
                index == 0 ==> *self == *old(self),
            decreases requests.len() - index,
        {
            proof {
                assert(requests@.take(index + 1).drop_last() == requests@.take(index as int));
            }
            self.state = self.state.request(&requests[index]);
            index += 1;
        }
        proof {
            assert(requests@.take(index as int) == requests@);
        }
        self.publish();
    }

    /// Receives window request from the application and handles them: takes
    /// the requests that are waiting in the channel, without blocking, in
    /// their order. What is waiting is not known here; a window without a
    /// request channel stays as it is.
    pub fn receive_requests(&mut self)
        ensures
            exists|requests: Seq<WindowRequest>|
                final(self)@ == old(self)@.after_requests(requests),
            old(self).request_receiver() is None ==> *final(self) == *old(self),
            final(self).same_parts(old(self)),
    {
        let requests = match &self.request_receiver {
            Some(request_receiver) => pending(request_receiver),
            None => Vec::new(),
        };
        self.handle_requests(&requests);
    }

    /// Takes what the adapter reported of its evaluation of the widget tree.
    pub fn finish_update(&mut self, dirty_region: Option<Rectangle>)
        ensures
            final(self)@ == old(self)@.after_update(dirty_region),
            final(self).same_parts(old(self)),
    {
        self.state = ShellState {
            update: false,
            redraw: true,
            close: self.state.close,
            dirty_region,
        };
        self.publish();
    }

    /// Runs update on the adapter, if an update is pending: the adapter
    /// evaluates the widget tree and draws on the canvas, and the window
    /// keeps the rectangle that it reports and asks for a refresh. Without a
    /// pending update nothing changes.
    pub fn update(&mut self)
        ensures
            !old(self)@.update ==> *final(self) == *old(self),
            old(self)@.update ==> exists|dirty_region: Option<Rectangle>|
                final(self)@ == old(self)@.after_update(dirty_region),
            final(self).same_channels(old(self)),
            final(self).forwarded() == old(self).forwarded(),
    {
        if !self.state.update {
            return ;
        }
        let dirty_region = self.adapter.run(&mut self.render_context);
        self.finish_update(dirty_region);
    }

    /// Swaps the current frame buffer: while a refresh is pending and the
    /// dirty rectangle has a part on the canvas, converts that part to the
    /// display's encoding, clears the pending refresh and returns the frame
    /// for the display, to be refreshed fast and without waiting. Otherwise
    /// nothing is returned and nothing changes.
    pub fn render(&mut self) -> (frame: Option<Frame>)
        ensures
            final(self)@ == old(self)@.after_render(
                old(self).spec_render_context().spec_width(),
                old(self).spec_render_context().spec_height(),
            ),
            final(self).same_parts(old(self)),
            match frame {
                Some(frame) => {
                    &&& old(self)@.render_region(
                        old(self).spec_render_context().spec_width(),
                        old(self).spec_render_context().spec_height(),
                    ) == Some(frame.region)
                    &&& frame.pixels@ == native_frame(
                        old(self).spec_render_context().pixels(),
                        old(self).spec_render_context().spec_width(),
                        frame.region,
                    )
                    &&& frame.refresh == Refresh::fast()
                },
                None => old(self)@.render_region(
                    old(self).spec_render_context().spec_width(),
                    old(self).spec_render_context().spec_height(),
                ) is None,
            },
    {
        if !self.state.redraw {
            return None;
        }
        let dirty_region = match self.state.dirty_region {
            Some(dirty_region) => dirty_region,
            None => {
                return None;
            },
        };
        let region = dirty_region.clip(self.render_context.width(), self.render_context.height());
        if region.width == 0 || region.height == 0 {
            return None;
        }
        let pixels = self.render_context.frame(region);
        self.state = ShellState {
            update: self.state.update,
            redraw: false,
            close: self.state.close,
            dirty_region: self.state.dirty_region,
        };
        self.publish();
        Some(
            Frame {
                region,
                pixels,
                refresh: Refresh {
                    mode: RefreshMode::Async,
                    waveform: WaveformMode::Gc16Fast,
                    temperature: DisplayTemp::RemarkableDraw,
                    dither: DitherMode::Passthrough,
                    quant_bit: 0,
                    force_full_refresh: false,
                },
            },
        )
    }
}

} // verus!
