//! Tests of the event classification, the loop state machine and the
//! frame pacing.

use gl_triangle::events::{
    drain_requests_exit, event_requests_exit, next_state, AppEvent, LoopState,
};
use gl_triangle::frame::{
    decide, frame_settings, iteration_nanos, run_event_loop, FrameAction, FRAME_DELAY_NANOS,
    NANOS_PER_SECOND, TARGET_FRAME_RATE,
};

#[test]
fn only_quit_and_escape_request_exit() {
    assert!(event_requests_exit(&AppEvent::Quit));
    assert!(event_requests_exit(&AppEvent::EscapeKeyDown));
    assert!(!event_requests_exit(&AppEvent::Other));
}

#[test]
fn drain_finds_an_exit_event_anywhere_in_the_batch() {
    assert!(!drain_requests_exit(&vec![]));
    assert!(!drain_requests_exit(&vec![AppEvent::Other, AppEvent::Other]));
    assert!(drain_requests_exit(&vec![AppEvent::Quit]));
    assert!(drain_requests_exit(&vec![AppEvent::Other, AppEvent::Quit, AppEvent::Other]));
    assert!(drain_requests_exit(&vec![AppEvent::Other, AppEvent::EscapeKeyDown]));
}

#[test]
fn running_loop_terminates_exactly_on_an_exit_event() {
    let quiet = vec![AppEvent::Other, AppEvent::Other];
    assert_eq!(next_state(LoopState::Running, &quiet), LoopState::Running);
    let with_quit = vec![AppEvent::Other, AppEvent::Quit];
    assert_eq!(next_state(LoopState::Running, &with_quit), LoopState::Terminated);
    assert_eq!(next_state(LoopState::Terminated, &quiet), LoopState::Terminated);
}

#[test]
fn escape_terminates_exactly_as_quit_does() {
    let with_quit = vec![AppEvent::Other, AppEvent::Quit];
    let with_escape = vec![AppEvent::Other, AppEvent::EscapeKeyDown];
    assert_eq!(
        next_state(LoopState::Running, &with_quit),
        next_state(LoopState::Running, &with_escape),
    );
    let quit_run = run_event_loop(&vec![vec![AppEvent::Quit]]);
    let escape_run = run_event_loop(&vec![vec![AppEvent::EscapeKeyDown]]);
    assert_eq!(quit_run, escape_run);
    assert_eq!(quit_run, (1, LoopState::Terminated));
}

#[test]
fn decide_renders_while_running_and_exits_on_quit() {
    let quiet = vec![AppEvent::Other];
    let (state, action) = decide(LoopState::Running, &quiet);
    assert_eq!(state, LoopState::Running);
    assert_eq!(action, FrameAction::RenderFrame);
    let with_escape = vec![AppEvent::EscapeKeyDown];
    let (state, action) = decide(LoopState::Running, &with_escape);
    assert_eq!(state, LoopState::Terminated);
    assert_eq!(action, FrameAction::Exit);
}

#[test]
fn injected_quit_stops_the_loop_after_one_poll() {
    let batches = vec![
        vec![AppEvent::Other, AppEvent::Quit],
        vec![AppEvent::Other],
        vec![AppEvent::Other],
    ];
    let (polls, state) = run_event_loop(&batches);
    assert_eq!(polls, 1);
    assert_eq!(state, LoopState::Terminated);
}

#[test]
fn loop_polls_until_the_first_exit_batch() {
    let batches = vec![
        vec![],
        vec![AppEvent::Other],
        vec![AppEvent::EscapeKeyDown],
        vec![AppEvent::Quit],
    ];
    let (polls, state) = run_event_loop(&batches);
    assert_eq!(polls, 3);
    assert_eq!(state, LoopState::Terminated);
}

#[test]
fn loop_keeps_running_without_an_exit_event() {
    let batches = vec![vec![AppEvent::Other], vec![], vec![AppEvent::Other]];
    let (polls, state) = run_event_loop(&batches);
    assert_eq!(polls, 3);
    assert_eq!(state, LoopState::Running);
}

#[test]
fn frame_delay_is_a_sixtieth_of_a_second_rounded_down() {
    assert_eq!(FRAME_DELAY_NANOS, 16_666_666);
    assert_eq!(FRAME_DELAY_NANOS, NANOS_PER_SECOND / TARGET_FRAME_RATE);
    assert!(TARGET_FRAME_RATE * FRAME_DELAY_NANOS <= NANOS_PER_SECOND);
    assert!(NANOS_PER_SECOND < TARGET_FRAME_RATE * (FRAME_DELAY_NANOS + 1));
}

#[test]
fn idle_iteration_takes_exactly_the_fixed_delay() {
    assert_eq!(iteration_nanos(0), FRAME_DELAY_NANOS as u64);
    assert_eq!(iteration_nanos(1_000_000), 1_000_000 + FRAME_DELAY_NANOS as u64);
}

#[test]
fn frame_settings_match_window_buffer_and_pacer() {
    let s = frame_settings();
    assert_eq!((s.viewport_x, s.viewport_y), (0, 0));
    assert_eq!((s.viewport_width, s.viewport_height), (800, 600));
    assert_eq!(f32::from_bits(s.clear_red_bits), 0.3f32);
    assert_eq!(f32::from_bits(s.clear_green_bits), 0.3f32);
    assert_eq!(f32::from_bits(s.clear_blue_bits), 0.5f32);
    assert_eq!(f32::from_bits(s.clear_alpha_bits), 1.0f32);
    assert_eq!(s.draw_first_vertex, 0);
    assert_eq!(s.draw_vertex_count, 3);
    assert_eq!(s.delay_nanos, FRAME_DELAY_NANOS);
}
