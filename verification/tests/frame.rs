use standing::fixed::{identity, nonuniform_scale, Vec3, FP_ONE};
use standing::frame::{FrameEvent, FrameLoop};

#[test]
fn quit_stops_the_loop() {
    let mut state = FrameLoop::new(0, identity());
    assert!(state.running);
    state.handle_event(FrameEvent::Other);
    assert!(state.running);
    state.handle_event(FrameEvent::Quit);
    assert!(!state.running);
}

#[test]
fn resize_swaps_the_projection() {
    let mut state = FrameLoop::new(0, identity());
    let wide = nonuniform_scale(&Vec3 { x: FP_ONE / 2, y: FP_ONE, z: FP_ONE });
    state.handle_event(FrameEvent::Resized(wide));
    assert_eq!(state.projection, wide);
    assert!(state.running);
}

#[test]
fn tick_remembers_the_frame_instant() {
    let mut state = FrameLoop::new(100, identity());
    assert_eq!(state.last_t_ns, 100);
    state.frame_tick(250, 1_000_000_000);
    assert_eq!(state.last_t_ns, 250);
}

#[test]
fn report_fires_once_threshold_is_passed() {
    let interval = 1_000_000_000;
    let mut state = FrameLoop::new(0, identity());
    // The loop starts with the report due immediately after t0.
    assert!(state.frame_tick(1, interval));
    assert_eq!(state.next_report_ns, interval);
    assert!(!state.frame_tick(500_000_000, interval));
    assert!(!state.frame_tick(1_000_000_000, interval));
    assert!(state.frame_tick(1_000_000_001, interval));
    assert_eq!(state.next_report_ns, 2 * interval);
}

#[test]
fn late_report_keeps_the_cadence() {
    // After a long stall the threshold advances by one interval, not to
    // the current instant, so reports catch up at the steady cadence.
    let interval = 1_000_000_000;
    let mut state = FrameLoop::new(0, identity());
    assert!(state.frame_tick(3_500_000_000, interval));
    assert_eq!(state.next_report_ns, interval);
    assert!(state.frame_tick(3_600_000_000, interval));
    assert_eq!(state.next_report_ns, 2 * interval);
    assert!(state.frame_tick(3_700_000_000, interval));
    assert!(state.frame_tick(3_800_000_000, interval));
    assert_eq!(state.next_report_ns, 4 * interval);
    assert!(!state.frame_tick(3_900_000_000, interval));
}
