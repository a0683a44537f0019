use sdl2_window::event::{AbstractEvent, TimedEvent};
use sdl2_window::native::NativeEvent;
use sdl2_window::state::{Translation, WindowState};

fn fresh_state() -> WindowState {
    WindowState {
        should_close: false,
        automatic_close: true,
        exit_on_esc: false,
        is_capturing_cursor: false,
        title: String::from("test"),
        width: 100,
        height: 100,
        draw_width: 100,
        draw_height: 100,
        pending_relative: None,
        ignore_relative: None,
    }
}

fn motion(ts: u32, x: i32, y: i32, dx: i32, dy: i32) -> NativeEvent {
    NativeEvent::MouseMotion { timestamp: ts, x, y, dx, dy }
}

#[test]
fn absolute_motion_precedes_its_relative_by_one_poll() {
    let mut s = fresh_state();
    let mut queue = vec![motion(1, 10, 10, 3, 4), motion(2, 12, 13, 2, 3)];

    // First poll: absolute motion of the first event.
    let r = s.poll_events(&mut queue);
    assert_eq!(
        r,
        Some(TimedEvent { event: AbstractEvent::PointerMotion { x: 10, y: 10 }, time: Some(1) })
    );
    assert_eq!(queue.len(), 1);

    // Second poll: the buffered relative motion of the first event, before
    // the second native event is even looked at.
    let r = s.poll_events(&mut queue);
    assert_eq!(
        r,
        Some(TimedEvent {
            event: AbstractEvent::PointerRelativeMotion { dx: 3, dy: 4 },
            time: Some(1),
        })
    );
    assert_eq!(queue.len(), 1);

    // Third poll: absolute motion of the second event.
    let r = s.poll_events(&mut queue);
    assert_eq!(
        r,
        Some(TimedEvent { event: AbstractEvent::PointerMotion { x: 12, y: 13 }, time: Some(2) })
    );
    assert_eq!(queue.len(), 0);

    // Fourth poll: its buffered relative motion, from an empty queue.
    let r = s.poll_events(&mut queue);
    assert_eq!(
        r,
        Some(TimedEvent {
            event: AbstractEvent::PointerRelativeMotion { dx: 2, dy: 3 },
            time: Some(2),
        })
    );
}

#[test]
fn capture_active_emits_relative_only() {
    let mut s = fresh_state();
    s.is_capturing_cursor = true;
    let r = s.handle_native(motion(1, 10, 10, 3, 4));
    assert_eq!(
        r,
        Translation::Emit(TimedEvent {
            event: AbstractEvent::PointerRelativeMotion { dx: 3, dy: 4 },
            time: Some(1),
        })
    );
    // Nothing is buffered: the next poll of an empty queue yields nothing.
    let mut queue = Vec::new();
    assert_eq!(s.poll_events(&mut queue), None);
}

#[test]
fn enabling_capture_warps_once_and_suppresses_the_echo() {
    let mut s = fresh_state();

    let actions = s.set_capture(true);
    assert!(!actions.show_cursor);
    assert!(actions.run_correction);
    assert!(s.is_capturing_cursor);

    // The window is 100x100, so the center is (50, 50); with the cursor
    // at (10, 10) the correction warps by (40, 40).
    let warp = s.fake_capture_step(10, 10);
    assert_eq!(warp, Some((50, 50)));
    assert_eq!(s.ignore_relative, Some((40, 40)));

    // The warp produces exactly one native motion event with that delta;
    // it must be consumed whole: no abstract event, slot cleared.
    let mut queue = vec![motion(1, 50, 50, 40, 40)];
    assert_eq!(s.poll_events(&mut queue), None);
    assert_eq!(s.ignore_relative, None);

    // A later motion with the same delta passes through normally.
    let r = s.handle_native(motion(2, 90, 90, 40, 40));
    assert_eq!(
        r,
        Translation::Emit(TimedEvent {
            event: AbstractEvent::PointerRelativeMotion { dx: 40, dy: 40 },
            time: Some(2),
        })
    );
}

#[test]
fn fake_capture_does_nothing_at_center() {
    let mut s = fresh_state();
    let warp = s.fake_capture_step(50, 50);
    assert_eq!(warp, None);
    assert_eq!(s.ignore_relative, None);
}

#[test]
fn disabling_capture_shows_cursor_without_correction() {
    let mut s = fresh_state();
    s.is_capturing_cursor = true;
    let actions = s.set_capture(false);
    assert!(actions.show_cursor);
    assert!(!actions.run_correction);
    assert!(!s.is_capturing_cursor);
}

#[test]
fn warp_suppression_only_matches_the_recorded_delta() {
    let mut s = fresh_state();
    s.ignore_relative = Some((40, 40));
    // A different delta is not suppressed, and the slot stays armed.
    let r = s.handle_native(motion(1, 20, 20, 5, 5));
    assert!(matches!(r, Translation::Emit(_)));
    assert_eq!(s.ignore_relative, Some((40, 40)));
}

#[test]
fn poll_skips_unmapped_events_until_a_mapped_one() {
    let mut s = fresh_state();
    let mut queue = vec![
        NativeEvent::Unsupported { timestamp: 1 },
        NativeEvent::Unsupported { timestamp: 2 },
        NativeEvent::FocusGained { timestamp: 3 },
    ];
    let r = s.poll_events(&mut queue);
    assert_eq!(
        r,
        Some(TimedEvent { event: AbstractEvent::Focus(true), time: Some(3) })
    );
    assert_eq!(queue.len(), 0);
}

#[test]
fn poll_on_empty_queue_returns_nothing() {
    let mut s = fresh_state();
    let mut queue = Vec::new();
    assert_eq!(s.poll_events(&mut queue), None);
}
