use line_sdf::frame::{
    count_u32, FrameOutcome, FrameState, IndexedDraw, LoopAction, LoopEvent, Size, WindowInput,
};

fn start() -> FrameState {
    FrameState::new(Size { width: 800, height: 600 }, 6, 2)
}

fn window(input: WindowInput) -> LoopEvent {
    LoopEvent::Window { for_main_window: true, input }
}

#[test]
fn new_state_keeps_size_and_counts() {
    let s = start();
    assert_eq!(s.size, Size { width: 800, height: 600 });
    assert_eq!(s.index_count, 6);
    assert_eq!(s.instance_count, 2);
    assert!(!s.exit_requested);
}

#[test]
fn counts_keep_low_bits() {
    assert_eq!(count_u32(6), 6);
    assert_eq!(count_u32(0), 0);
    assert_eq!(count_u32(u32::MAX as usize), u32::MAX);
    if usize::BITS > 32 {
        let big: usize = (1usize << 32) + 5;
        assert_eq!(count_u32(big), 5);
        assert_eq!(FrameState::new(Size { width: 1, height: 1 }, big, 3).index_count, 5);
    }
}

#[test]
fn resize_to_positive_size_is_taken() {
    let mut s = start();
    assert!(s.resize(Size { width: 1024, height: 768 }));
    assert_eq!(s.size, Size { width: 1024, height: 768 });
}

#[test]
fn resize_with_zero_dimension_is_ignored() {
    let mut s = start();
    assert!(!s.resize(Size { width: 0, height: 768 }));
    assert!(!s.resize(Size { width: 1024, height: 0 }));
    assert!(!s.resize(Size { width: 0, height: 0 }));
    assert_eq!(s, start());
}

#[test]
fn close_request_exits() {
    let mut s = start();
    assert_eq!(s.on_event(window(WindowInput::CloseRequested)), LoopAction::Exit);
    assert!(s.exit_requested);
}

#[test]
fn resized_event_reconfigures() {
    let mut s = start();
    let z = Size { width: 640, height: 480 };
    assert_eq!(s.on_event(window(WindowInput::Resized(z))), LoopAction::Reconfigure(z));
    assert_eq!(s.size, z);
}

#[test]
fn scale_change_reconfigures_like_resize() {
    let mut a = start();
    let mut b = start();
    let z = Size { width: 1600, height: 1200 };
    let ra = a.on_event(window(WindowInput::ScaleFactorChanged(z)));
    let rb = b.on_event(window(WindowInput::Resized(z)));
    assert_eq!(ra, LoopAction::Reconfigure(z));
    assert_eq!(ra, rb);
    assert_eq!(a, b);
}

#[test]
fn minimised_window_is_ignored() {
    let mut s = start();
    let z = Size { width: 0, height: 0 };
    assert_eq!(s.on_event(window(WindowInput::Resized(z))), LoopAction::Nothing);
    assert_eq!(s.on_event(window(WindowInput::ScaleFactorChanged(z))), LoopAction::Nothing);
    assert_eq!(s, start());
}

#[test]
fn other_window_events_are_ignored() {
    let mut s = start();
    let ev = LoopEvent::Window { for_main_window: false, input: WindowInput::CloseRequested };
    assert_eq!(s.on_event(ev), LoopAction::Nothing);
    let ev = LoopEvent::Window {
        for_main_window: false,
        input: WindowInput::Resized(Size { width: 5, height: 5 }),
    };
    assert_eq!(s.on_event(ev), LoopAction::Nothing);
    assert_eq!(s, start());
}

#[test]
fn redraw_and_idle_events() {
    let mut s = start();
    assert_eq!(s.on_event(LoopEvent::RedrawRequested), LoopAction::Render);
    assert_eq!(s.on_event(LoopEvent::MainEventsCleared), LoopAction::RequestRedraw);
    assert_eq!(s.on_event(LoopEvent::Other), LoopAction::Nothing);
    assert_eq!(s.on_event(window(WindowInput::Other)), LoopAction::Nothing);
    assert_eq!(s, start());
}

#[test]
fn frame_outcomes() {
    let mut s = start();
    assert_eq!(s.on_frame(FrameOutcome::Presented), LoopAction::Nothing);
    assert_eq!(s.on_frame(FrameOutcome::Lost), LoopAction::RecreateSurface);
    assert_eq!(s.on_frame(FrameOutcome::Timeout), LoopAction::Report(FrameOutcome::Timeout));
    assert_eq!(s.on_frame(FrameOutcome::Outdated), LoopAction::Report(FrameOutcome::Outdated));
    assert_eq!(s, start());
    assert_eq!(s.on_frame(FrameOutcome::OutOfMemory), LoopAction::Exit);
    assert!(s.exit_requested);
}

#[test]
fn same_event_twice_same_state() {
    let z = Size { width: 300, height: 200 };
    let events = [
        window(WindowInput::CloseRequested),
        window(WindowInput::Resized(z)),
        window(WindowInput::ScaleFactorChanged(z)),
        LoopEvent::RedrawRequested,
    ];
    for ev in events {
        let mut once = start();
        once.on_event(ev);
        let mut twice = once;
        twice.on_event(ev);
        assert_eq!(once, twice);
    }
}

#[test]
fn exit_request_stays_and_size_stays_drawable() {
    let mut s = start();
    s.on_event(window(WindowInput::CloseRequested));
    s.on_event(window(WindowInput::Resized(Size { width: 0, height: 10 })));
    s.on_frame(FrameOutcome::Lost);
    s.on_event(window(WindowInput::Resized(Size { width: 7, height: 9 })));
    assert!(s.exit_requested);
    assert_eq!(s.size, Size { width: 7, height: 9 });
    assert_eq!(s.index_count, 6);
    assert_eq!(s.instance_count, 2);
}

#[test]
fn draw_call_covers_quad_and_segments() {
    let s = start();
    assert_eq!(
        s.draw_call(),
        IndexedDraw { first_index: 0, index_end: 6, base_vertex: 0, first_instance: 0, instance_end: 2 }
    );
}

#[test]
fn quad_state_counts_quad_indices() {
    let s = FrameState::for_quad(Size { width: 800, height: 600 }, 2);
    assert_eq!(s, start());
    assert_eq!(s.index_count, 6);
    let d = s.draw_call();
    assert_eq!(d.index_end, 6);
    assert_eq!(d.instance_end, 2);
}
