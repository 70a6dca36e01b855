//! Event classification and the frame loop's state machine.
//!
//! The loop has two states, `Running` and `Terminated`, and a single
//! transition: a quit or escape-key event observed while draining the
//! event queue terminates the loop. The shell classifies each polled
//! event into an [`AppEvent`] and hands the whole drained batch to the
//! functions here; everything else about an event is irrelevant to the
//! loop and is classified as `Other`.

use vstd::prelude::*;

verus! {

/// Classification of one polled input event. Only the first two
/// variants affect the loop; every other event is `Other` and is
/// discarded without side effect.
#[derive(Clone, Copy, Debug, PartialEq, Eq, Structural)]
pub enum AppEvent {
    /// The windowing system asked the program to quit.
    Quit,
    /// The escape key was pressed.
    EscapeKeyDown,
    /// Any other event.
    Other,
}

/// The frame loop's state: it runs until a quit signal terminates it.
#[derive(Clone, Copy, Debug, PartialEq, Eq, Structural)]
pub enum LoopState {
    /// The loop keeps drawing frames.
    Running,
    /// The loop has exited; the program returns success.
    Terminated,
}

/// Whether one event asks the loop to terminate.
pub open spec fn is_exit_event(e: AppEvent) -> bool {
    e is Quit || e is EscapeKeyDown
}

/// Classifies one event: only quit and escape-key events request exit.
pub fn event_requests_exit(e: &AppEvent) -> (exit: bool)
    ensures
        exit == is_exit_event(*e),
{
    match e {
        AppEvent::Quit => true,
        AppEvent::EscapeKeyDown => true,
        AppEvent::Other => false,
    }
}

/// Whether some event in a drained batch asks the loop to terminate.
pub open spec fn batch_has_exit(batch: Seq<AppEvent>) -> bool {
    exists|i: int| 0 <= i < batch.len() && is_exit_event(batch[i])
}

/// Scans one drained batch and reports whether any event in it requests
/// exit. The whole batch is examined — the drain is not short-circuited
/// mid-batch — and no event has any other effect.
pub fn drain_requests_exit(batch: &Vec<AppEvent>) -> (exit: bool)
    ensures
        exit == batch_has_exit(batch@),
{
    let mut found = false;
    let mut i: usize = 0;
    while i < batch.len()
        invariant
            0 <= i <= batch@.len(),
            found == batch_has_exit(batch@.take(i as int)),
        decreases batch@.len() - i,
    {
        let here = event_requests_exit(&batch[i]);
        proof {
            let taken = batch@.take(i as int + 1);
            assert(taken[i as int] == batch@[i as int]);
            if here {
                assert(batch_has_exit(taken));
            } else if batch_has_exit(taken) {
                let w = choose|j: int| 0 <= j < taken.len() && is_exit_event(taken[j]);
                assert(w < i as int + 1);
                if w < i as int {
                    assert(batch@.take(i as int)[w] == taken[w]);
                    assert(batch_has_exit(batch@.take(i as int)));
                }
            } else {
                if batch_has_exit(batch@.take(i as int)) {
                    let w = choose|j: int|
                        0 <= j < i as int && is_exit_event(batch@.take(i as int)[j]);
                    assert(taken[w] == batch@.take(i as int)[w]);
                    assert(batch_has_exit(taken));
                }
            }
        }
        found = found || here;
        i = i + 1;
    }
    proof {
        assert(batch@.take(batch@.len() as int) =~= batch@);
    }
    found
}

/// The loop's transition function: once terminated it stays terminated,
/// and a running loop terminates exactly when the drained batch holds a
/// quit or escape-key event.
pub open spec fn spec_next_state(state: LoopState, batch: Seq<AppEvent>) -> LoopState {
    if state is Terminated || batch_has_exit(batch) {
        LoopState::Terminated
    } else {
        LoopState::Running
    }
}

/// Advances the loop state over one drained batch.
pub fn next_state(state: LoopState, batch: &Vec<AppEvent>) -> (next: LoopState)
    ensures
        next == spec_next_state(state, batch@),
{
    let exit = drain_requests_exit(batch);
    match state {
        LoopState::Terminated => LoopState::Terminated,
        LoopState::Running => if exit {
            LoopState::Terminated
        } else {
            LoopState::Running
        },
    }
}

/// An escape-key-down event produces exactly the termination behavior
/// of a quit event: appended to any drained batch, the two drive the
/// loop to the same next state, and from a running loop both terminate.
pub proof fn lemma_escape_key_equals_quit(state: LoopState, batch: Seq<AppEvent>)
    ensures
        spec_next_state(state, batch.push(AppEvent::Quit)) == spec_next_state(
            state,
            batch.push(AppEvent::EscapeKeyDown),
        ),
        spec_next_state(state, batch.push(AppEvent::Quit)) is Terminated,
{
    assert(batch.push(AppEvent::Quit)[batch.len() as int] == AppEvent::Quit);
    assert(batch_has_exit(batch.push(AppEvent::Quit)));
    assert(batch.push(AppEvent::EscapeKeyDown)[batch.len() as int] == AppEvent::EscapeKeyDown);
    assert(batch_has_exit(batch.push(AppEvent::EscapeKeyDown)));
}

} // verus!
