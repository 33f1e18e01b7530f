use vstd::prelude::*;

use crate::geometry::{
    quad_corner_seq, quad_index_seq, quad_indices, u16_be_bytes, u16_le_bytes,
};

verus! {

/// A width and a height in physical pixels.
#[derive(Clone, Copy, Debug, PartialEq, Eq, Structural)]
pub struct Size {
    pub width: u32,
    pub height: u32,
}

impl Size {
    /// Both dimensions are nonzero: a surface can be configured with this size.
    pub open spec fn is_drawable(self) -> bool {
        self.width > 0 && self.height > 0
    }
}

/// What a window reports about itself.
#[derive(Clone, Copy, Debug, PartialEq, Eq, Structural)]
pub enum WindowInput {
    CloseRequested,
    Resized(Size),
    ScaleFactorChanged(Size),
    Other,
}

/// One event handed to the event loop.
#[derive(Clone, Copy, Debug, PartialEq, Eq, Structural)]
pub enum LoopEvent {
    /// An event of a window; `for_main_window` tells whether it is the window drawn into.
    Window { for_main_window: bool, input: WindowInput },
    RedrawRequested,
    MainEventsCleared,
    Other,
}

/// How presenting a frame went.
#[derive(Clone, Copy, Debug, PartialEq, Eq, Structural)]
pub enum FrameOutcome {
    Presented,
    Timeout,
    Outdated,
    Lost,
    OutOfMemory,
}

/// What the event loop does next.
#[derive(Clone, Copy, Debug, PartialEq, Eq, Structural)]
pub enum LoopAction {
    Nothing,
    /// Stop the event loop.
    Exit,
    /// Configure the surface with this size and write it to the screen uniform.
    Reconfigure(Size),
    /// Update the scene and draw a frame.
    Render,
    /// Ask the window for another redraw.
    RequestRedraw,
    /// Configure the surface again with the current configuration.
    RecreateSurface,
    /// Report a frame that could not be drawn and carry on.
    Report(FrameOutcome),
}

/// The part of the renderer's state that its decisions read and change.
#[derive(Clone, Copy, Debug, PartialEq, Eq, Structural)]
pub struct FrameState {
    /// The size the surface is configured with, which is also the size in the screen uniform.
    pub size: Size,
    /// How many indices one quad is drawn with.
    pub index_count: u32,
    /// How many line segments are drawn.
    pub instance_count: u32,
    /// Whether the event loop has been told to stop.
    pub exit_requested: bool,
}

/// The draw call of a frame: `first_index..index_end` of the index buffer, with
/// `base_vertex` added, for instances `first_instance..instance_end`.
#[derive(Clone, Copy, Debug, PartialEq, Eq, Structural)]
pub struct IndexedDraw {
    pub first_index: u32,
    pub index_end: u32,
    pub base_vertex: i32,
    pub first_instance: u32,
    pub instance_end: u32,
}

/// The draw call of a frame in state `s`: every index, for every instance.
pub open spec fn frame_draw(s: FrameState) -> IndexedDraw {
    IndexedDraw {
        first_index: 0,
        index_end: s.index_count,
        base_vertex: 0,
        first_instance: 0,
        instance_end: s.instance_count,
    }
}

/// The state draws the quad: its index count is that of the quad's index list.
pub open spec fn draws_quad(s: FrameState) -> bool {
    s.index_count == quad_index_seq().len()
}

/// The state after a resize to `new_size`: a size with a zero dimension is ignored.
pub open spec fn resized(s: FrameState, new_size: Size) -> FrameState {
    if new_size.is_drawable() {
        FrameState { size: new_size, ..s }
    } else {
        s
    }
}

/// The decision table of the event loop: the next state and the action for `event`.
pub open spec fn event_step(s: FrameState, event: LoopEvent) -> (FrameState, LoopAction) {
    match event {
        LoopEvent::Window { for_main_window, input } => {
            if !for_main_window {
                (s, LoopAction::Nothing)
            } else {
                match input {
                    WindowInput::CloseRequested => (
                        FrameState { exit_requested: true, ..s },
                        LoopAction::Exit,
                    ),
                    WindowInput::Resized(z) => resize_step(s, z),
                    WindowInput::ScaleFactorChanged(z) => resize_step(s, z),
                    WindowInput::Other => (s, LoopAction::Nothing),
                }
            }
        },
        LoopEvent::RedrawRequested => (s, LoopAction::Render),
        LoopEvent::MainEventsCleared => (s, LoopAction::RequestRedraw),
        LoopEvent::Other => (s, LoopAction::Nothing),
    }
}

/// A resize event: the surface is reconfigured only for a drawable size.
pub open spec fn resize_step(s: FrameState, z: Size) -> (FrameState, LoopAction) {
    if z.is_drawable() {
        (resized(s, z), LoopAction::Reconfigure(z))
    } else {
        (s, LoopAction::Nothing)
    }
}

/// The decision after drawing a frame: a lost surface is configured again, running
/// out of memory stops the loop, a timed-out or outdated frame is reported.
pub open spec fn outcome_step(s: FrameState, outcome: FrameOutcome) -> (FrameState, LoopAction) {
    match outcome {
        FrameOutcome::Presented => (s, LoopAction::Nothing),
        FrameOutcome::Lost => (s, LoopAction::RecreateSurface),
        FrameOutcome::OutOfMemory => (FrameState { exit_requested: true, ..s }, LoopAction::Exit),
        FrameOutcome::Timeout => (s, LoopAction::Report(outcome)),
        FrameOutcome::Outdated => (s, LoopAction::Report(outcome)),
    }
}


/// Events of another window change nothing and ask for nothing.
pub proof fn lemma_other_window_ignored(s: FrameState, input: WindowInput)
    ensures
        event_step(s, LoopEvent::Window { for_main_window: false, input }) == (s, LoopAction::Nothing),
{
}

/// A resize or scale change to a size with a zero dimension (a minimised
/// window) leaves the state as it was and asks for nothing.
pub proof fn lemma_undrawable_size_ignored(s: FrameState, z: Size)
    requires
        !z.is_drawable(),
    ensures
        event_step(s, LoopEvent::Window { for_main_window: true, input: WindowInput::Resized(z) })
            == (s, LoopAction::Nothing),
        event_step(
            s,
            LoopEvent::Window { for_main_window: true, input: WindowInput::ScaleFactorChanged(z) },
        ) == (s, LoopAction::Nothing),
{
}

/// A scale-factor change is handled exactly as a resize to the new inner size.
pub proof fn lemma_scale_change_is_resize(s: FrameState, z: Size, for_main_window: bool)
    ensures
        event_step(s, LoopEvent::Window { for_main_window, input: WindowInput::ScaleFactorChanged(z) })
            == event_step(s, LoopEvent::Window { for_main_window, input: WindowInput::Resized(z) }),
{
}

/// Whenever the surface is to be reconfigured, it is with a drawable size, and
/// that size is the one the state now holds.
pub proof fn lemma_reconfigure_matches_state(s: FrameState, event: LoopEvent, z: Size)
    requires
        event_step(s, event).1 == LoopAction::Reconfigure(z),
    ensures
        z.is_drawable(),
        event_step(s, event).0.size == z,
{
}

/// Handling the same event twice leaves the state as handling it once.
pub proof fn lemma_event_idempotent(s: FrameState, event: LoopEvent)
    ensures
        event_step(event_step(s, event).0, event).0 == event_step(s, event).0,
{
}

/// Once the state holds a drawable size, no event and no frame outcome takes it away.
pub proof fn lemma_drawable_size_kept(s: FrameState, event: LoopEvent, outcome: FrameOutcome)
    requires
        s.size.is_drawable(),
    ensures
        event_step(s, event).0.size.is_drawable(),
        outcome_step(s, outcome).0.size.is_drawable(),
{
}

/// Once the loop has been told to stop, it stays told.
pub proof fn lemma_exit_request_kept(s: FrameState, event: LoopEvent, outcome: FrameOutcome)
    requires
        s.exit_requested,
    ensures
        event_step(s, event).0.exit_requested,
        outcome_step(s, outcome).0.exit_requested,
{
}

/// Neither events nor frame outcomes change what is drawn: the index and
/// instance counts stay those the renderer was set up with.
pub proof fn lemma_draw_counts_fixed(s: FrameState, event: LoopEvent, outcome: FrameOutcome)
    ensures
        event_step(s, event).0.index_count == s.index_count,
        event_step(s, event).0.instance_count == s.instance_count,
        outcome_step(s, outcome).0.index_count == s.index_count,
        outcome_step(s, outcome).0.instance_count == s.instance_count,
{
}

/// A frame outcome never changes the configured size; only running out of
/// memory stops the loop, and only a lost surface is configured again.
pub proof fn lemma_frame_outcome_effects(s: FrameState, outcome: FrameOutcome)
    ensures
        outcome_step(s, outcome).0.size == s.size,
        (outcome_step(s, outcome).1 == LoopAction::Exit) <==> outcome == FrameOutcome::OutOfMemory,
        (outcome_step(s, outcome).1 == LoopAction::RecreateSurface) <==> outcome == FrameOutcome::Lost,
        outcome != FrameOutcome::OutOfMemory ==> outcome_step(s, outcome).0 == s,
{
}

/// `n` as a `u32`, keeping its low 32 bits.
pub fn count_u32(n: usize) -> (c: u32)
    ensures
        c == n as u32,
        n <= u32::MAX ==> c == n,
{
    n as u32
}

impl FrameState {
    /// The state of a renderer set up for a window of `size`, drawing a quad of
    /// `index_len` indices for `instance_len` segments; the counts are kept as
    /// `u32`, their low 32 bits.
    pub fn new(size: Size, index_len: usize, instance_len: usize) -> (s: FrameState)
        ensures
            s == (FrameState {
                size,
                index_count: index_len as u32,
                instance_count: instance_len as u32,
                exit_requested: false,
            }),
    {
        FrameState {
            size,
            index_count: count_u32(index_len),
            instance_count: count_u32(instance_len),
            exit_requested: false,
        }
    }

    /// The state of a renderer set up for a window of `size` that draws the
    /// quad's index list for `instance_len` segments.
    pub fn for_quad(size: Size, instance_len: usize) -> (s: FrameState)
        ensures
            s == (FrameState {
                size,
                index_count: quad_index_seq().len() as u32,
                instance_count: instance_len as u32,
                exit_requested: false,
            }),
            s.index_count == 6,
            draws_quad(s),
    {
        let indices = quad_indices();
        FrameState::new(size, indices.len(), instance_len)
    }

    /// Applies a new window size. Returns whether it was taken, in which case the
    /// surface is to be configured with it and the screen uniform rewritten.
    pub fn resize(&mut self, new_size: Size) -> (taken: bool)
        ensures
            taken == new_size.is_drawable(),
            *final(self) == resized(*old(self), new_size),
    {
        if new_size.width > 0 && new_size.height > 0 {
            self.size = new_size;
            true
        } else {
            false
        }
    }

    /// Decides what the event loop does with `event`.
    pub fn on_event(&mut self, event: LoopEvent) -> (action: LoopAction)
        ensures
            (*final(self), action) == event_step(*old(self), event),
            event == LoopEvent::RedrawRequested ==> action == LoopAction::Render,
            event == LoopEvent::RedrawRequested ==> *final(self) == *old(self),
            event == LoopEvent::MainEventsCleared ==> action == LoopAction::RequestRedraw,
            event == LoopEvent::MainEventsCleared ==> *final(self) == *old(self),
            forall|z: Size|
                z.width > 0 && z.height > 0 && (event == LoopEvent::Window {
                    for_main_window: true,
                    input: WindowInput::Resized(z),
                } || event == LoopEvent::Window {
                    for_main_window: true,
                    input: WindowInput::ScaleFactorChanged(z),
                }) ==> action == LoopAction::Reconfigure(z) && *final(self) == (FrameState {
                    size: z,
                    ..*old(self)
                }),
    {
        match event {
            LoopEvent::Window { for_main_window, input } => {
                if !for_main_window {
                    return LoopAction::Nothing;
                }
                match input {
                    WindowInput::CloseRequested => {
                        self.exit_requested = true;
                        LoopAction::Exit
                    },
                    WindowInput::Resized(z) => {
                        if self.resize(z) {
                            LoopAction::Reconfigure(z)
                        } else {
                            LoopAction::Nothing
                        }
                    },
                    WindowInput::ScaleFactorChanged(z) => {
                        if self.resize(z) {
                            LoopAction::Reconfigure(z)
                        } else {
                            LoopAction::Nothing
                        }
                    },
                    WindowInput::Other => LoopAction::Nothing,
                }
            },
            LoopEvent::RedrawRequested => LoopAction::Render,
            LoopEvent::MainEventsCleared => LoopAction::RequestRedraw,
            LoopEvent::Other => LoopAction::Nothing,
        }
    }

    /// Decides what the event loop does after trying to draw a frame.
    pub fn on_frame(&mut self, outcome: FrameOutcome) -> (action: LoopAction)
        ensures
            (*final(self), action) == outcome_step(*old(self), outcome),
    {
        match outcome {
            FrameOutcome::Presented => LoopAction::Nothing,
            FrameOutcome::Lost => LoopAction::RecreateSurface,
            FrameOutcome::OutOfMemory => {
                self.exit_requested = true;
                LoopAction::Exit
            },
            FrameOutcome::Timeout => LoopAction::Report(outcome),
            FrameOutcome::Outdated => LoopAction::Report(outcome),
        }
    }

    /// The draw call of a frame: every index of the quad, for every segment.
    pub fn draw_call(&self) -> (d: IndexedDraw)
        ensures
            d == frame_draw(*self),
            d.first_index == 0,
            d.index_end == self.index_count,
            d.base_vertex == 0,
            d.first_instance == 0,
            d.instance_end == self.instance_count,
    {
        IndexedDraw {
            first_index: 0,
            index_end: self.index_count,
            base_vertex: 0,
            first_instance: 0,
            instance_end: self.instance_count,
        }
    }
}

/// A state that draws the quad keeps drawing it whatever event or frame
/// outcome comes.
pub proof fn lemma_draws_quad_kept(s: FrameState, event: LoopEvent, outcome: FrameOutcome)
    requires
        draws_quad(s),
    ensures
        draws_quad(event_step(s, event).0),
        draws_quad(outcome_step(s, outcome).0),
{
}

/// The draw call of a state that draws the quad stays within its buffers: it
/// reads the whole index list and nothing past it (two bytes per index in the
/// index buffer), every index it reads names one of the four corners, and it
/// draws exactly `instance_count` instances from the first.
pub proof fn lemma_draw_within_quad(s: FrameState)
    requires
        draws_quad(s),
    ensures
        frame_draw(s).first_index == 0,
        frame_draw(s).index_end == quad_index_seq().len(),
        2 * frame_draw(s).index_end == u16_le_bytes(quad_index_seq()).len(),
        2 * frame_draw(s).index_end == u16_be_bytes(quad_index_seq()).len(),
        forall|i: int|
            frame_draw(s).first_index <= i < frame_draw(s).index_end ==> #[trigger] quad_index_seq()[i]
                + frame_draw(s).base_vertex < quad_corner_seq().len(),
        frame_draw(s).base_vertex == 0,
        frame_draw(s).first_instance == 0,
        frame_draw(s).instance_end == s.instance_count,
{
    assert forall|i: int| 0 <= i < quad_index_seq().len() implies #[trigger] quad_index_seq()[i] < 4 by {
        assert(quad_index_seq()[0] == 0 && quad_index_seq()[1] == 1 && quad_index_seq()[2] == 2);
        assert(quad_index_seq()[3] == 2 && quad_index_seq()[4] == 3 && quad_index_seq()[5] == 0);
    }
}

/// For the main window, a resize or scale change to a size with both
/// dimensions nonzero always reconfigures the surface with exactly that size,
/// and the state then holds that size with everything else as before.
pub proof fn lemma_drawable_resize_reconfigures(s: FrameState, z: Size)
    requires
        z.width > 0,
        z.height > 0,
    ensures
        event_step(s, LoopEvent::Window { for_main_window: true, input: WindowInput::Resized(z) })
            == (FrameState { size: z, ..s }, LoopAction::Reconfigure(z)),
        event_step(
            s,
            LoopEvent::Window { for_main_window: true, input: WindowInput::ScaleFactorChanged(z) },
        ) == (FrameState { size: z, ..s }, LoopAction::Reconfigure(z)),
{
}

/// In every state a redraw request draws a frame and an emptied event queue
/// asks for a redraw, neither changing the state; a close request of the main
/// window stops the loop.
pub proof fn lemma_redraw_and_close(s: FrameState)
    ensures
        event_step(s, LoopEvent::RedrawRequested) == (s, LoopAction::Render),
        event_step(s, LoopEvent::MainEventsCleared) == (s, LoopAction::RequestRedraw),
        event_step(
            s,
            LoopEvent::Window { for_main_window: true, input: WindowInput::CloseRequested },
        ) == (FrameState { exit_requested: true, ..s }, LoopAction::Exit),
{
}

/// In every state the draw call reads exactly the state's indices, from the
/// first, with no vertex offset, for exactly the state's instances, from the first.
pub proof fn lemma_draw_covers_state(s: FrameState)
    ensures
        frame_draw(s).first_index == 0,
        frame_draw(s).index_end - frame_draw(s).first_index == s.index_count,
        frame_draw(s).base_vertex == 0,
        frame_draw(s).first_instance == 0,
        frame_draw(s).instance_end - frame_draw(s).first_instance == s.instance_count,
{
}

} // verus!
