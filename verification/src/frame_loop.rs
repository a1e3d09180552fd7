//! The frame loop: what each host event asks of the render state, and how a
//! failed presentation is recovered from.
//!
//! The loop itself performs no call. It decides, and the host carries the
//! decision out: [`FrameLoop::dispatch`] says what an event calls for, and
//! once the render state has answered, [`FrameLoop::interpret`] or
//! [`FrameLoop::recover`] says what follows from the answer.

use vstd::prelude::*;
use crate::event::{is_exit_key, Event, PhysicalSize, WindowEvent};
use crate::surface::{SurfaceOutcome, TransientError};

pub mod laws;

verus! {

/// Whether the loop goes on. `ExitRequested` is final.
#[derive(Clone, Copy, Debug, PartialEq, Eq, Structural)]
pub enum LoopControl {
    Running,
    ExitRequested,
}

/// What the host has to do when an event arrives.
#[derive(Clone, Copy, Debug, PartialEq, Eq, Structural)]
pub enum Dispatch {
    /// Offer the event to the render state's `input`, then hand the answer
    /// to [`FrameLoop::interpret`].
    OfferInput(WindowEvent),
    /// Call the render state's `update`, then its `render`, and hand the
    /// outcome to [`FrameLoop::recover`].
    Redraw,
    /// Ask the window for another redraw.
    RequestRedraw,
    /// Nothing.
    Ignore,
}

/// One call that the loop makes on the render state, the window or the host.
#[derive(Clone, Copy, Debug, PartialEq, Eq, Structural)]
pub enum Call {
    /// `input`, with the event offered.
    Input(WindowEvent),
    /// `update`.
    Update,
    /// `render`.
    Render,
    /// `resize`, with the size to configure the surface for.
    Resize(PhysicalSize),
    /// The window's redraw request.
    RequestRedraw,
    /// The host is told to leave its event loop.
    Exit,
    /// A diagnostic line for a failure that needs no other action.
    Log(TransientError),
}

/// One host event together with what the render state answers when the loop
/// turns to it for that event. Where the event is not for the loop's window
/// the render state is not asked, and the answer is not read.
#[derive(Debug, PartialEq, Eq, Structural)]
pub enum Delivery {
    /// A window event; `consumed` is the answer of `input`.
    Input { window_id: u64, event: WindowEvent, consumed: bool },
    /// A redraw request; `outcome` is the answer of `render`.
    Redraw { window_id: u64, outcome: SurfaceOutcome },
    MainEventsCleared,
    Other,
}

impl Delivery {
    /// The host event of this delivery.
    pub open spec fn event(self) -> Event {
        match self {
            Delivery::Input { window_id, event, .. } => Event::WindowEvent { window_id, event },
            Delivery::Redraw { window_id, .. } => Event::RedrawRequested { window_id },
            Delivery::MainEventsCleared => Event::MainEventsCleared,
            Delivery::Other => Event::Other,
        }
    }
}

/// The state of a frame loop as contracts see it.
pub struct LoopState {
    pub control: LoopControl,
    /// The window whose events the loop handles.
    pub window_id: u64,
    /// The size the surface was last configured for.
    pub size: PhysicalSize,
}

impl LoopState {
    /// A loop that has just been started.
    pub open spec fn start(window_id: u64, size: PhysicalSize) -> LoopState {
        LoopState { control: LoopControl::Running, window_id, size }
    }

    /// This state with exit requested.
    pub open spec fn exited(self) -> LoopState {
        LoopState { control: LoopControl::ExitRequested, ..self }
    }

    /// This state after the surface was configured for `size`.
    pub open spec fn resized(self, size: PhysicalSize) -> LoopState {
        LoopState { size, ..self }
    }

    /// What `event` calls for. Events of other windows are ignored, and once
    /// exit is requested no further redraw is asked for.
    pub open spec fn dispatch(self, event: Event) -> Dispatch {
        match event {
            Event::WindowEvent { window_id, event } => if window_id == self.window_id {
                Dispatch::OfferInput(event)
            } else {
                Dispatch::Ignore
            },
            Event::RedrawRequested { window_id } => if window_id == self.window_id {
                Dispatch::Redraw
            } else {
                Dispatch::Ignore
            },
            Event::MainEventsCleared => if self.control == LoopControl::Running {
                Dispatch::RequestRedraw
            } else {
                Dispatch::Ignore
            },
            Event::Other => Dispatch::Ignore,
        }
    }

    /// The generic reading of a window event, after the render state said
    /// whether it consumed it: the next state and the call to make, if any.
    pub open spec fn interpret(self, event: WindowEvent, consumed: bool) -> (LoopState, Option<Call>) {
        if consumed {
            (self, None)
        } else {
            match event {
                WindowEvent::CloseRequested => (self.exited(), Some(Call::Exit)),
                WindowEvent::KeyboardInput(input) => if is_exit_key(input) {
                    (self.exited(), Some(Call::Exit))
                } else {
                    (self, None)
                },
                WindowEvent::Resized(size) => (self.resized(size), Some(Call::Resize(size))),
                WindowEvent::ScaleFactorChanged { new_inner_size } => (
                    self.resized(new_inner_size),
                    Some(Call::Resize(new_inner_size)),
                ),
                WindowEvent::Other => (self, None),
            }
        }
    }

    /// The recovery policy for one render outcome: the next state and the
    /// call to make, if any.
    pub open spec fn recover(self, outcome: SurfaceOutcome) -> (LoopState, Option<Call>) {
        match outcome {
            SurfaceOutcome::Presented => (self, None),
            SurfaceOutcome::Lost => (self, Some(Call::Resize(self.size))),
            SurfaceOutcome::OutOfMemory => (self.exited(), Some(Call::Exit)),
            SurfaceOutcome::Transient(error) => (self, Some(Call::Log(error))),
        }
    }

    /// The next state and the calls made, in order, for one delivery.
    pub open spec fn step(self, delivery: Delivery) -> (LoopState, Seq<Call>) {
        match self.dispatch(delivery.event()) {
            Dispatch::OfferInput(event) => {
                let (next, call) = self.interpret(event, delivery->consumed);
                (next, seq![Call::Input(event)] + call_seq(call))
            },
            Dispatch::Redraw => {
                let (next, call) = self.recover(delivery->outcome);
                (next, seq![Call::Update, Call::Render] + call_seq(call))
            },
            Dispatch::RequestRedraw => (self, seq![Call::RequestRedraw]),
            Dispatch::Ignore => (self, Seq::empty()),
        }
    }

    /// The state after all deliveries of `trace`, handled in order, and the
    /// calls made on the way.
    pub open spec fn run(self, trace: Seq<Delivery>) -> (LoopState, Seq<Call>)
        decreases trace.len(),
    {
        if trace.len() == 0 {
            (self, Seq::empty())
        } else {
            let (before, calls) = self.run(trace.drop_last());
            let (after, more) = before.step(trace.last());
            (after, calls + more)
        }
    }
}

/// No call, or the one call.
pub open spec fn call_seq(call: Option<Call>) -> Seq<Call> {
    match call {
        Some(c) => seq![c],
        None => Seq::empty(),
    }
}

/// The loop's own state: whether it goes on, which window it serves, and the
/// size its surface was last configured for.
pub struct FrameLoop {
    control: LoopControl,
    window_id: u64,
    size: PhysicalSize,
}

impl View for FrameLoop {
    type V = LoopState;

    closed spec fn view(&self) -> LoopState {
        LoopState { control: self.control, window_id: self.window_id, size: self.size }
    }
}

impl FrameLoop {
    /// A running loop for the window `window_id`, whose surface is
    /// configured for `size`.
    pub fn new(window_id: u64, size: PhysicalSize) -> (frame_loop: FrameLoop)
        ensures
            frame_loop@ == LoopState::start(window_id, size),
    {
        FrameLoop { control: LoopControl::Running, window_id, size }
    }

    pub fn control(&self) -> (control: LoopControl)
        ensures
            control == self@.control,
    {
        self.control
    }

    pub fn window_id(&self) -> (window_id: u64)
        ensures
            window_id == self@.window_id,
    {
        self.window_id
    }

    /// The size the surface was last configured for.
    pub fn size(&self) -> (size: PhysicalSize)
        ensures
            size == self@.size,
    {
        self.size
    }

    /// What the host has to do for `event`.
    pub fn dispatch(&self, event: Event) -> (dispatch: Dispatch)
        ensures
            dispatch == self@.dispatch(event),
    {
        match event {
            Event::WindowEvent { window_id, event } => {
                if window_id == self.window_id {
                    Dispatch::OfferInput(event)
                } else {
                    Dispatch::Ignore
                }
            },
            Event::RedrawRequested { window_id } => {
                if window_id == self.window_id {
                    Dispatch::Redraw
                } else {
                    Dispatch::Ignore
                }
            },
            Event::MainEventsCleared => match self.control {
                LoopControl::Running => Dispatch::RequestRedraw,
                LoopControl::ExitRequested => Dispatch::Ignore,
            },
            Event::Other => Dispatch::Ignore,
        }
    }

    /// Records that the surface is to be configured for `size`, and returns
    /// the call that does it.
    pub fn resize(&mut self, size: PhysicalSize) -> (call: Call)
        ensures
            final(self)@ == old(self)@.resized(size),
            call == Call::Resize(size),
    {
        self.size = size;
        Call::Resize(size)
    }

    /// Reads a window event that was offered to the render state.
    ///
    /// An event that the render state consumed changes nothing and leads to
    /// no call. Otherwise a close request and the exit key request exit, a
    /// new size is recorded and passed on, and anything else is ignored.
    pub fn interpret(&mut self, event: WindowEvent, consumed: bool) -> (call: Option<Call>)
        ensures
            (final(self)@, call) == old(self)@.interpret(event, consumed),
            consumed ==> (final(self)@ == old(self)@ && call is None),
            old(self)@.control == LoopControl::ExitRequested ==> final(self)@.control
                == LoopControl::ExitRequested,
    {
        if consumed {
            return None;
        }
        match event {
            WindowEvent::CloseRequested => {
                self.control = LoopControl::ExitRequested;
                Some(Call::Exit)
            },
            WindowEvent::KeyboardInput(input) => {
                if input.is_exit_key() {
                    self.control = LoopControl::ExitRequested;
                    Some(Call::Exit)
                } else {
                    None
                }
            },
            WindowEvent::Resized(size) => Some(self.resize(size)),
            WindowEvent::ScaleFactorChanged { new_inner_size } => Some(self.resize(new_inner_size)),
            WindowEvent::Other => None,
        }
    }

    /// Judges the outcome of a render attempt.
    ///
    /// A presented frame needs nothing. A lost surface is configured again
    /// for the size on record. Exhausted memory requests exit. Any other
    /// failure is logged and left to the next frame.
    pub fn recover(&mut self, outcome: SurfaceOutcome) -> (call: Option<Call>)
        ensures
            (final(self)@, call) == old(self)@.recover(outcome),
            old(self)@.control == LoopControl::ExitRequested ==> final(self)@.control
                == LoopControl::ExitRequested,
    {
        match outcome {
            SurfaceOutcome::Presented => None,
            SurfaceOutcome::Lost => Some(Call::Resize(self.size)),
            SurfaceOutcome::OutOfMemory => {
                self.control = LoopControl::ExitRequested;
                Some(Call::Exit)
            },
            SurfaceOutcome::Transient(error) => Some(Call::Log(error)),
        }
    }

    /// Handles one delivery as the host would: asks what the event calls
    /// for, turns to the render state, and acts on its answer. Returns the
    /// calls made, in order.
    pub fn step(&mut self, delivery: Delivery) -> (calls: Vec<Call>)
        ensures
            (final(self)@, calls@) == old(self)@.step(delivery),
            old(self)@.control == LoopControl::ExitRequested ==> final(self)@.control
                == LoopControl::ExitRequested,
    {
        let mut calls: Vec<Call> = Vec::new();
        match delivery {
            Delivery::Input { window_id, event, consumed } => {
                if window_id == self.window_id {
                    calls.push(Call::Input(event));
                    match self.interpret(event, consumed) {
                        Some(call) => calls.push(call),
                        None => {},
                    }
                }
            },
            Delivery::Redraw { window_id, outcome } => {
                if window_id == self.window_id {
                    calls.push(Call::Update);
                    calls.push(Call::Render);
                    match self.recover(outcome) {
                        Some(call) => calls.push(call),
                        None => {},
                    }
                }
            },
            Delivery::MainEventsCleared => match self.control {
                LoopControl::Running => calls.push(Call::RequestRedraw),
                LoopControl::ExitRequested => {},
            },
            Delivery::Other => {},
        }
        calls
    }
}

/// Handles the deliveries of `trace` in the order given and returns every
/// call made, in order. Exit, once requested, stays requested; deliveries
/// that follow it are still handled, but no redraw is asked for any more.
pub fn run_event_loop(frame_loop: &mut FrameLoop, trace: Vec<Delivery>) -> (calls: Vec<Call>)
    ensures
        (final(frame_loop)@, calls@) == old(frame_loop)@.run(trace@),
{
    let mut calls: Vec<Call> = Vec::new();
    let ghost start = frame_loop@;
    for delivery in it: trace.into_iter()
        invariant
            it.seq() == trace@,
            (frame_loop@, calls@) == start.run(trace@.take(it.index() as int)),
    {
        assert(trace@.take(it.index() + 1).drop_last() == trace@.take(it.index() as int));
        let mut more = frame_loop.step(delivery);
        calls.append(&mut more);
    }
    assert(trace@.take(trace@.len() as int) == trace@);
    calls
}

} // verus!
