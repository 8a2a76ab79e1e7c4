use maintenance::round::Outcome;
use maintenance::sched::{loop_step, LoopInput, LoopState};

#[test]
fn continue_keeps_loop_running_without_shutdown() {
    let (state, reason) = loop_step(LoopState::Running, LoopInput::RoundDone(Outcome::Continue));
    assert_eq!(state, LoopState::Running);
    assert!(reason.is_none());
}

#[test]
fn fatal_round_stops_loop_with_its_reason() {
    let (state, reason) = loop_step(
        LoopState::Running,
        LoopInput::RoundDone(Outcome::Fatal(String::from(
            "unable to perform routing-map shrink: disk full",
        ))),
    );
    assert_eq!(state, LoopState::Stopped);
    assert_eq!(
        reason.as_deref(),
        Some("unable to perform routing-map shrink: disk full")
    );
}

#[test]
fn stream_failure_stops_loop_with_unwrapped_message() {
    let (state, reason) = loop_step(
        LoopState::Running,
        LoopInput::StreamFailed(String::from("channel lagged by 3 messages")),
    );
    assert_eq!(state, LoopState::Stopped);
    // The stream's own description, with no extra context added.
    assert_eq!(reason.as_deref(), Some("channel lagged by 3 messages"));
}

#[test]
fn stopped_loop_never_triggers_shutdown_again() {
    // Even with more inputs queued after the stop, no second shutdown
    // trigger and no further state change occur.
    let (state, reason) = loop_step(LoopState::Running, LoopInput::StreamFailed(String::from("closed")));
    assert_eq!(state, LoopState::Stopped);
    assert!(reason.is_some());

    let mut shutdowns: u32 = if reason.is_some() { 1 } else { 0 };
    let queued = vec![
        LoopInput::RoundDone(Outcome::Continue),
        LoopInput::RoundDone(Outcome::Fatal(String::from("late failure"))),
        LoopInput::StreamFailed(String::from("closed again")),
    ];
    let mut state = state;
    for input in queued {
        let (next, r) = loop_step(state, input);
        assert_eq!(next, LoopState::Stopped);
        assert!(r.is_none());
        if r.is_some() {
            shutdowns += 1;
        }
        state = next;
    }
    assert_eq!(shutdowns, 1);
}
