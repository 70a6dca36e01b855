//! The frame loop: what one iteration does, and when the loop stops.
//!
//! Each iteration drains the pending events, and — while still running —
//! clears the framebuffer, draws the triangle, presents the frame and
//! sleeps a fixed delay. The decisions live here; the shell performs the
//! GPU calls and the sleep, and feeds the next drained batch back in.

use vstd::prelude::*;
use crate::context::{SCREEN_HEIGHT, SCREEN_WIDTH};
use crate::events::{
    batch_has_exit,
    next_state,
    spec_next_state,
    AppEvent,
    LoopState,
};
use crate::geometry::{F32_HALF_BITS, F32_ONE_BITS, TRIANGLE_VERTEX_COUNT};

verus! {

/// Nanoseconds in one second.
pub const NANOS_PER_SECOND: u32 = 1_000_000_000;

/// The frame rate the end-of-frame delay aims at.
pub const TARGET_FRAME_RATE: u32 = 60;

/// The fixed delay slept after each frame: one sixtieth of a second
/// rounded down to whole nanoseconds. The pacer is a fixed delay, not a
/// fixed frame rate: the sleep is taken after the frame's work, however
/// long that work took.
pub const FRAME_DELAY_NANOS: u32 = NANOS_PER_SECOND / TARGET_FRAME_RATE;

/// Bit pattern of `0.3f32`, the red and green channels of the
/// background color.
pub const F32_CLEAR_CHANNEL_BITS: u32 = 0x3E99_999A;

/// What the shell does after one event drain: render the next frame, or
/// leave the loop and let the program return success.
#[derive(Clone, Copy, Debug, PartialEq, Eq, Structural)]
pub enum FrameAction {
    /// Clear, draw, present, then sleep the fixed delay.
    RenderFrame,
    /// Exit the loop without rendering another frame.
    Exit,
}

/// Decides the loop's next state and the shell's next action from one
/// drained batch. An exit event terminates the loop before any further
/// rendering: the remaining draw, present and sleep of that iteration
/// are skipped, and no further event polling occurs.
pub fn decide(state: LoopState, batch: &Vec<AppEvent>) -> (decision: (LoopState, FrameAction))
    ensures
        decision.0 == spec_next_state(state, batch@),
        decision.1 == (if decision.0 is Running {
            FrameAction::RenderFrame
        } else {
            FrameAction::Exit
        }),
{
    let next = next_state(state, batch);
    match next {
        LoopState::Running => (next, FrameAction::RenderFrame),
        LoopState::Terminated => (next, FrameAction::Exit),
    }
}

/// The views of a list of drained batches.
pub open spec fn batches_view(batches: Seq<Vec<AppEvent>>) -> Seq<Seq<AppEvent>> {
    batches.map_values(|b: Vec<AppEvent>| b@)
}

/// How many batches the loop polls before it stops, given the batches
/// each successive drain would yield: it polls until the first batch
/// holding an exit event, inclusively, and polls every batch if none
/// holds one.
pub open spec fn spec_polls_until_exit(batches: Seq<Seq<AppEvent>>) -> nat
    decreases batches.len(),
{
    if batches.len() == 0 {
        0
    } else if batch_has_exit(batches[0]) {
        1
    } else {
        1 + spec_polls_until_exit(batches.subrange(1, batches.len() as int))
    }
}

/// Runs the loop's decisions against a prerecorded list of drained
/// batches, as the shell runs them against the live event queue, and
/// reports how many batches were polled and the state the loop ends in.
pub fn run_event_loop(batches: &Vec<Vec<AppEvent>>) -> (outcome: (usize, LoopState))
    ensures
        outcome.0 == spec_polls_until_exit(batches_view(batches@)),
        outcome.0 <= batches@.len(),
        outcome.1 is Terminated <==> exists|i: int|
            0 <= i < batches@.len() && batch_has_exit(batches@[i]@),
        outcome.1 is Terminated ==> 0 < outcome.0 && batch_has_exit(
            batches@[outcome.0 - 1]@,
        ),
        forall|j: int| 0 <= j < outcome.0 - 1 ==> !batch_has_exit(batches@[j]@),
        outcome.1 is Running ==> outcome.0 == batches@.len() && forall|j: int|
            0 <= j < batches@.len() ==> !batch_has_exit(batches@[j]@),
{
    let ghost view = batches_view(batches@);
    let mut state = LoopState::Running;
    let mut i: usize = 0;
    proof {
        assert(view.subrange(0, view.len() as int) =~= view);
    }
    while i < batches.len()
        invariant
            0 <= i <= batches@.len(),
            view == batches_view(batches@),
            view.len() == batches@.len(),
            state is Running,
            forall|j: int| 0 <= j < i ==> !batch_has_exit(batches@[j]@),
            spec_polls_until_exit(view) == i + spec_polls_until_exit(
                view.subrange(i as int, view.len() as int),
            ),
        decreases batches@.len() - i,
    {
        let batch = &batches[i];
        let (next, _action) = decide(state, batch);
        proof {
            let rest = view.subrange(i as int, view.len() as int);
            assert(rest[0] == batches@[i as int]@);
            assert(rest.subrange(1, rest.len() as int) =~= view.subrange(
                i as int + 1,
                view.len() as int,
            ));
        }
        if matches!(next, LoopState::Terminated) {
            return (i + 1, LoopState::Terminated);
        }
        state = next;
        i = i + 1;
    }
    proof {
        assert(view.subrange(view.len() as int, view.len() as int) =~= Seq::<
            Seq<AppEvent>,
        >::empty());
    }
    (i, LoopState::Running)
}

/// An exit event already pending in the first drained batch stops the
/// loop after that single poll: at most the in-flight iteration
/// completes, and no further polling occurs.
pub proof fn lemma_pending_exit_stops_loop(batches: Seq<Seq<AppEvent>>)
    requires
        batches.len() > 0,
        batch_has_exit(batches[0]),
    ensures
        spec_polls_until_exit(batches) == 1,
{
}

/// One iteration's wall time in nanoseconds: the frame's event and GPU
/// work followed by the fixed end-of-frame delay.
pub fn iteration_nanos(work_nanos: u64) -> (total: u64)
    requires
        work_nanos + FRAME_DELAY_NANOS <= u64::MAX,
    ensures
        total == work_nanos + FRAME_DELAY_NANOS,
{
    work_nanos + (FRAME_DELAY_NANOS as u64)
}

/// The fixed delay is one sixtieth of a second rounded down to a whole
/// nanosecond: an idle iteration — work approximated as zero — sleeps
/// within one nanosecond below the one-sixtieth-second target and never
/// above it, so one full iteration takes the target time up to that
/// rounding plus whatever the work and the scheduler add.
pub proof fn lemma_pacing_meets_target()
    ensures
        FRAME_DELAY_NANOS == 16_666_666,
        TARGET_FRAME_RATE * FRAME_DELAY_NANOS <= NANOS_PER_SECOND,
        NANOS_PER_SECOND < TARGET_FRAME_RATE * (FRAME_DELAY_NANOS + 1),
{
}

/// Per-frame constants the render pass uses: the viewport, the
/// background color as f32 bit patterns, the draw call's range and the
/// end-of-frame delay.
#[derive(Clone, Copy, Debug, PartialEq, Eq, Structural)]
pub struct FrameSettings {
    /// Viewport origin, x, in pixels.
    pub viewport_x: u32,
    /// Viewport origin, y, in pixels.
    pub viewport_y: u32,
    /// Viewport width in pixels: the window's width.
    pub viewport_width: u32,
    /// Viewport height in pixels: the window's height.
    pub viewport_height: u32,
    /// Bit pattern of the clear color's red channel.
    pub clear_red_bits: u32,
    /// Bit pattern of the clear color's green channel.
    pub clear_green_bits: u32,
    /// Bit pattern of the clear color's blue channel.
    pub clear_blue_bits: u32,
    /// Bit pattern of the clear color's alpha channel.
    pub clear_alpha_bits: u32,
    /// Index of the first vertex the draw call covers.
    pub draw_first_vertex: u32,
    /// Number of vertices the draw call covers.
    pub draw_vertex_count: u32,
    /// Nanoseconds slept at the end of the iteration.
    pub delay_nanos: u32,
}

/// The one set of per-frame constants this program ever uses: full
/// window viewport, background color (0.3, 0.3, 0.5) fully opaque, one
/// triangle drawn from vertex 0, and the fixed delay.
pub open spec fn spec_frame_settings() -> FrameSettings {
    FrameSettings {
        viewport_x: 0,
        viewport_y: 0,
        viewport_width: 800,
        viewport_height: 600,
        clear_red_bits: F32_CLEAR_CHANNEL_BITS,
        clear_green_bits: F32_CLEAR_CHANNEL_BITS,
        clear_blue_bits: F32_HALF_BITS,
        clear_alpha_bits: F32_ONE_BITS,
        draw_first_vertex: 0,
        draw_vertex_count: 3,
        delay_nanos: FRAME_DELAY_NANOS,
    }
}

/// Builds the per-frame constants the shell uses for every rendered
/// frame.
pub fn frame_settings() -> (settings: FrameSettings)
    ensures
        settings == spec_frame_settings(),
{
    FrameSettings {
        viewport_x: 0,
        viewport_y: 0,
        viewport_width: SCREEN_WIDTH,
        viewport_height: SCREEN_HEIGHT,
        clear_red_bits: F32_CLEAR_CHANNEL_BITS,
        clear_green_bits: F32_CLEAR_CHANNEL_BITS,
        clear_blue_bits: F32_HALF_BITS,
        clear_alpha_bits: F32_ONE_BITS,
        draw_first_vertex: 0,
        draw_vertex_count: 3,
        delay_nanos: FRAME_DELAY_NANOS,
    }
}

/// The per-frame constants agree with the rest of the model: the
/// viewport is the whole window, the draw call starts at vertex 0 and
/// covers exactly the vertices in the uploaded buffer, and the delay is
/// the fixed pacing delay.
pub proof fn lemma_frame_settings_consistent()
    ensures
        spec_frame_settings().viewport_x == 0 && spec_frame_settings().viewport_y == 0,
        spec_frame_settings().viewport_width == crate::context::spec_window_config().width,
        spec_frame_settings().viewport_height == crate::context::spec_window_config().height,
        spec_frame_settings().draw_first_vertex == 0,
        spec_frame_settings().draw_vertex_count == crate::geometry::spec_triangle_vertices().len(),
        spec_frame_settings().draw_vertex_count == TRIANGLE_VERTEX_COUNT,
        spec_frame_settings().delay_nanos == FRAME_DELAY_NANOS,
{
}

} // verus!
