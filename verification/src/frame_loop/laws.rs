//! What holds of every frame loop, whatever is delivered to it.

use vstd::prelude::*;
use crate::event::{is_exit_key, PhysicalSize, WindowEvent};
use crate::frame_loop::{Call, Delivery, LoopControl, LoopState};
use crate::surface::SurfaceOutcome;

verus! {

impl LoopState {
    /// Whether `delivery` is one of the signals that request exit: a close
    /// request or the exit key, for this loop's window and not consumed by
    /// the render state, or a render attempt that ran out of memory.
    pub open spec fn asks_exit(self, delivery: Delivery) -> bool {
        match delivery {
            Delivery::Input { window_id, event, consumed } => {
                &&& window_id == self.window_id
                &&& !consumed
                &&& match event {
                    WindowEvent::CloseRequested => true,
                    WindowEvent::KeyboardInput(input) => is_exit_key(input),
                    _ => false,
                }
            },
            Delivery::Redraw { window_id, outcome } => {
                &&& window_id == self.window_id
                &&& outcome == SurfaceOutcome::OutOfMemory
            },
            _ => false,
        }
    }

    /// Whether `delivery` is one of the causes of a resize: a new size or a
    /// changed display scale, for this loop's window and not consumed by the
    /// render state, or a render attempt that found the surface lost.
    pub open spec fn asks_resize(self, delivery: Delivery) -> bool {
        match delivery {
            Delivery::Input { window_id, event, consumed } => {
                &&& window_id == self.window_id
                &&& !consumed
                &&& match event {
                    WindowEvent::Resized(_) => true,
                    WindowEvent::ScaleFactorChanged { .. } => true,
                    _ => false,
                }
            },
            Delivery::Redraw { window_id, outcome } => {
                &&& window_id == self.window_id
                &&& outcome == SurfaceOutcome::Lost
            },
            _ => false,
        }
    }
}

/// The resize calls among `calls`, in order.
pub open spec fn resize_calls(calls: Seq<Call>) -> Seq<Call> {
    calls.filter(|call: Call| call is Resize)
}

/// Configuring the surface twice for one size leaves the same state as
/// configuring it once.
pub proof fn lemma_resize_is_idempotent(state: LoopState, size: PhysicalSize)
    ensures
        state.resized(size).resized(size) == state.resized(size),
        state.resized(size).size == size,
{
}

/// One delivery never changes the window that the loop serves, and it
/// requests exit exactly when it is an exit signal; otherwise the control
/// state stays as it was.
pub proof fn lemma_step_control(state: LoopState, delivery: Delivery)
    ensures
        state.step(delivery).0.window_id == state.window_id,
        state.step(delivery).0.control == if state.asks_exit(delivery) {
            LoopControl::ExitRequested
        } else {
            state.control
        },
{
}

/// A window event that the render state consumed is offered and nothing
/// more: the state stays as it was, and no call follows the offer.
pub proof fn lemma_consumed_input_is_inert(state: LoopState, event: WindowEvent)
    ensures
        state.interpret(event, true) == (state, None::<Call>),
        state.step(Delivery::Input { window_id: state.window_id, event, consumed: true }) == (
            state,
            seq![Call::Input(event)],
        ),
{
    assert(seq![Call::Input(event)] + Seq::<Call>::empty() =~= seq![Call::Input(event)]);
}

/// A redraw for the loop's window calls `update` first and `render` second,
/// and a resize follows exactly when the surface was lost: then it is the
/// one further call, for the size on record.
pub proof fn lemma_redraw_order(state: LoopState, outcome: SurfaceOutcome)
    ensures
        ({
            let calls = state.step(Delivery::Redraw { window_id: state.window_id, outcome }).1;
            &&& calls.len() >= 2
            &&& calls[0] == Call::Update
            &&& calls[1] == Call::Render
            &&& outcome == SurfaceOutcome::Lost ==> calls =~= seq![
                Call::Update,
                Call::Render,
                Call::Resize(state.size),
            ]
            &&& outcome != SurfaceOutcome::Lost ==> forall|i: int, size: PhysicalSize|
                0 <= i < calls.len() ==> calls[i] != Call::Resize(size)
        }),
{
}

/// Handling `first` and then `second` is handling the two traces joined.
pub proof fn lemma_run_concat(state: LoopState, first: Seq<Delivery>, second: Seq<Delivery>)
    ensures
        state.run(first + second).0 == state.run(first).0.run(second).0,
        state.run(first + second).1 == state.run(first).1 + state.run(first).0.run(second).1,
    decreases second.len(),
{
    if second.len() > 0 {
        let front = second.drop_last();
        assert((first + second).drop_last() =~= first + front);
        lemma_run_concat(state, first, front);
        let (middle, calls) = state.run(first);
        let (before, more) = middle.run(front);
        let last = before.step(second.last()).1;
        assert(calls + more + last =~= calls + (more + last));
    }
}

/// A trace never changes the window that the loop serves, and after it exit
/// is requested exactly if it was requested before or the trace holds an
/// exit signal.
pub proof fn lemma_exit_iff_signal(state: LoopState, trace: Seq<Delivery>)
    ensures
        state.run(trace).0.window_id == state.window_id,
        state.run(trace).0.control == LoopControl::ExitRequested <==> state.control
            == LoopControl::ExitRequested || exists|i: int|
            0 <= i < trace.len() && state.asks_exit(#[trigger] trace[i]),
    decreases trace.len(),
{
    if trace.len() > 0 {
        let front = trace.drop_last();
        lemma_exit_iff_signal(state, front);
        let before = state.run(front).0;
        lemma_step_control(before, trace.last());
        if exists|i: int| 0 <= i < trace.len() && state.asks_exit(#[trigger] trace[i]) {
            let i: int = choose|i: int|
                0 <= i < trace.len() && state.asks_exit(#[trigger] trace[i]);
            if i < front.len() {
                assert(state.asks_exit(front[i]));
            }
        }
    }
}

/// Exit, once requested, stays requested whatever is delivered afterwards.
pub proof fn lemma_exit_is_final(state: LoopState, trace: Seq<Delivery>)
    requires
        state.control == LoopControl::ExitRequested,
    ensures
        state.run(trace).0.control == LoopControl::ExitRequested,
{
    lemma_exit_iff_signal(state, trace);
}

/// Once exit is requested, no delivery makes the loop ask for another
/// redraw.
pub proof fn lemma_no_redraw_request_after_exit(state: LoopState, trace: Seq<Delivery>)
    requires
        state.control == LoopControl::ExitRequested,
    ensures
        !state.run(trace).1.contains(Call::RequestRedraw),
    decreases trace.len(),
{
    if trace.len() > 0 {
        let front = trace.drop_last();
        lemma_no_redraw_request_after_exit(state, front);
        lemma_exit_is_final(state, front);
    }
}

/// A close request for the loop's window that the render state did not
/// consume requests exit, whatever was delivered before it and whatever
/// follows.
pub proof fn lemma_close_request_exits(
    state: LoopState,
    before: Seq<Delivery>,
    after: Seq<Delivery>,
)
    ensures
        ({
            let close = Delivery::Input {
                window_id: state.window_id,
                event: WindowEvent::CloseRequested,
                consumed: false,
            };
            state.run(before.push(close) + after).0.control == LoopControl::ExitRequested
        }),
{
    let close = Delivery::Input {
        window_id: state.window_id,
        event: WindowEvent::CloseRequested,
        consumed: false,
    };
    let trace = before.push(close) + after;
    assert(state.asks_exit(trace[before.len() as int]));
    lemma_exit_iff_signal(state, trace);
}

/// One delivery makes one resize call if it is a cause of a resize, and
/// none otherwise.
pub proof fn lemma_step_resizes(state: LoopState, delivery: Delivery)
    ensures
        resize_calls(state.step(delivery).1).len() == if state.asks_resize(delivery) {
            1nat
        } else {
            0nat
        },
{
    reveal_with_fuel(Seq::filter, 4);
}

/// A trace makes as many resize calls as it holds causes of a resize: every
/// lost surface and every new size is answered by one call, and nothing
/// else resizes.
pub proof fn lemma_resizes_match_causes(state: LoopState, trace: Seq<Delivery>)
    ensures
        resize_calls(state.run(trace).1).len() == trace.filter(
            |delivery: Delivery| state.asks_resize(delivery),
        ).len(),
    decreases trace.len(),
{
    reveal(Seq::filter);
    if trace.len() > 0 {
        let front = trace.drop_last();
        lemma_resizes_match_causes(state, front);
        lemma_exit_iff_signal(state, front);
        let before = state.run(front);
        let last = before.0.step(trace.last());
        lemma_step_resizes(before.0, trace.last());
        Seq::filter_distributes_over_add(before.1, last.1, |call: Call| call is Resize);
    }
}

} // verus!
