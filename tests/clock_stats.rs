use lavapond::stats::RenderStats;
use lavapond::timing::{FrameCounter, Timer};

#[test]
fn timer_durations() {
    let mut t = Timer::new();
    assert!(t.is_expired());
    assert!(t.is_repeating());
    t.set(60_000);
    assert!(!t.is_expired());
    t.set_hz(4);
    assert!(!Timer::expired_after(250, 249));
    assert!(Timer::expired_after(250, 250));
    assert!(Timer::expired_after(0, 0));
    let mut long = Timer::from_millis(60_000);
    assert!(!long.is_repeating());
    long.reset();
    assert!(!long.is_expired());
}

#[test]
fn frame_counter_rolls_each_second() {
    let mut c = FrameCounter::new();
    assert!(c.changed());
    assert!(!c.record(10));
    assert!(!c.record(999));
    assert!(c.record(1000));
    assert_eq!(c.last_frame_count(), 2);
    assert!(c.changed());
    assert!(!c.record(5));
    assert!(!c.record(5));
    assert!(c.record(1500));
    assert_eq!(c.last_frame_count(), 2);
    assert!(!c.changed());
    c.count();
}

#[test]
fn stats_text_lists_values() {
    let mut s = RenderStats::new();
    assert_eq!(s.as_text(), "fps: 0\nrequest time: 0 us\npool creation time:0\nelements:0\nvertices:0");
    assert!(!s.record_frame(3, 12, 340));
    assert!(!s.record_frame(4, 12, 340));
    assert!(s.record_frame(1001, 7, 340));
    assert_eq!(s.as_text(), "fps: 2\nrequest time: 0 us\npool creation time:0\nelements:7\nvertices:340");
    s.start_draw_request_timer();
    s.stop_draw_request_timer();
    s.start_pool_creation_timer();
    s.stop_pool_creation_timer();
    s.update(1, 2);
    assert!(s.as_text().ends_with("elements:1\nvertices:2"));
}

#[test]
fn stats_text_multi_digit_values() {
    let mut s = RenderStats::new();
    s.record_frame(0, 1234567, 10);
    assert!(s.as_text().ends_with("\nelements:1234567\nvertices:10"));
    s.record_frame(0, usize::MAX, 9);
    assert!(s.as_text().contains(&format!("elements:{}\n", usize::MAX)));
}
