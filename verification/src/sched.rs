use vstd::prelude::*;
use crate::round::Outcome;

verus! {

/// The event the stream delivers: a block was verified.
#[derive(Clone, Copy, PartialEq, Eq, Structural, Debug)]
pub struct BlockVerified {
    pub block_num: u32,
}

/// The scheduler loop's two states. `Stopped` is terminal: the loop returns
/// on entering it and never processes another event.
#[derive(Clone, Copy, PartialEq, Eq, Structural, Debug)]
pub enum LoopState {
    Running,
    Stopped,
}

/// What one loop iteration observed: either an event arrived and a full
/// round ran to its outcome, or receiving from the stream itself failed
/// (closed or lagged), with the stream's own error description.
#[derive(Debug)]
pub enum LoopInput {
    RoundDone(Outcome),
    StreamFailed(String),
}

/// The loop's transition function: it keeps running only while rounds
/// continue, and stops on the first fatal round or stream failure.
pub open spec fn loop_next(s: LoopState, input: LoopInput) -> LoopState {
    match (s, input) {
        (LoopState::Running, LoopInput::RoundDone(Outcome::Continue)) => LoopState::Running,
        (LoopState::Running, _) => LoopState::Stopped,
        (LoopState::Stopped, _) => LoopState::Stopped,
    }
}

/// The reason the shutdown capability must be triggered with on this
/// iteration, if at all: a fatal round's reason as the round produced it, or
/// the stream's error description unwrapped. `None` everywhere else.
pub open spec fn shutdown_reason(s: LoopState, input: LoopInput) -> Option<String> {
    if s is Running {
        match input {
            LoopInput::RoundDone(Outcome::Fatal(reason)) => Some(reason),
            LoopInput::StreamFailed(error) => Some(error),
            _ => None,
        }
    } else {
        None
    }
}

/// One iteration of the scheduler loop: the next state, and the reason to
/// trigger shutdown with, present exactly on the transition into `Stopped`.
pub fn loop_step(s: LoopState, input: LoopInput) -> (r: (LoopState, Option<String>))
    ensures
        r.0 == loop_next(s, input),
        r.1 == shutdown_reason(s, input),
{
    match (s, input) {
        (LoopState::Running, LoopInput::RoundDone(Outcome::Continue)) => (
            LoopState::Running,
            None,
        ),
        (LoopState::Running, LoopInput::RoundDone(Outcome::Fatal(reason))) => (
            LoopState::Stopped,
            Some(reason),
        ),
        (LoopState::Running, LoopInput::StreamFailed(error)) => (LoopState::Stopped, Some(error)),
        (LoopState::Stopped, _) => (LoopState::Stopped, None),
    }
}

/// The loop's state after a whole run: the fold of `loop_next` over the
/// iteration inputs, starting from `Running`.
pub open spec fn trace_state(inputs: Seq<LoopInput>) -> LoopState
    decreases inputs.len(),
{
    if inputs.len() == 0 {
        LoopState::Running
    } else {
        loop_next(trace_state(inputs.drop_last()), inputs.last())
    }
}

/// How many iterations of a whole run trigger the shutdown capability.
pub open spec fn trace_shutdown_count(inputs: Seq<LoopInput>) -> nat
    decreases inputs.len(),
{
    if inputs.len() == 0 {
        0
    } else {
        trace_shutdown_count(inputs.drop_last()) + if shutdown_reason(
            trace_state(inputs.drop_last()),
            inputs.last(),
        ) is Some {
            1nat
        } else {
            0nat
        }
    }
}

/// Over any whole run of the loop, the shutdown capability is triggered at
/// most once, and exactly once iff the loop has entered `Stopped`.
pub proof fn lemma_shutdown_at_most_once(inputs: Seq<LoopInput>)
    ensures
        trace_shutdown_count(inputs) <= 1,
        (trace_shutdown_count(inputs) == 1) == (trace_state(inputs) is Stopped),
    decreases inputs.len(),
{
    if inputs.len() > 0 {
        lemma_shutdown_at_most_once(inputs.drop_last());
    }
}

/// A shutdown is triggered exactly on the transition into `Stopped`: never
/// while the loop keeps running, and never again once it has stopped.
pub proof fn lemma_shutdown_only_on_stop(s: LoopState, input: LoopInput)
    ensures
        (shutdown_reason(s, input) is Some) == (s is Running && loop_next(s, input) is Stopped),
{
}

} // verus!
