use delphos::{mark_configured, DelphosWorld, FrameStats, RwcCounter, Time};

#[test]
fn readers_flag_only_with_writers() {
    let mut c = RwcCounter::new();
    assert_eq!(c.read(), None);
    assert_eq!(c.reader_count(), 1);
    assert_eq!(c.write(), None);
    assert_eq!(c.read(), Some(1));
    assert_eq!(c.write(), Some(1));
    assert_eq!(c.writer_count(), 2);
    c.release_writer();
    c.release_writer();
    c.release_reader();
    c.release_reader();
    assert_eq!((c.reader_count(), c.writer_count()), (0, 0));
    assert_eq!(c.checked_read(), None);
}

#[test]
fn checked_write_counts_even_when_flagged() {
    let mut c = RwcCounter::new();
    assert_eq!(c.checked_write(3), None);
    assert_eq!(c.checked_write(2), Some(3));
    assert_eq!(c.writer_count(), 5);
    assert_eq!(c.checked_read(), Some(5));
}

#[test]
fn release_wraps_like_atomics() {
    let mut c = RwcCounter::new();
    c.release_reader();
    assert_eq!(c.reader_count(), usize::MAX);
    assert_eq!(c.read(), None);
    assert_eq!(c.reader_count(), 0);
}

#[test]
fn frame_timing_reports() {
    let mut t = Time::default();
    assert_eq!(t.frame(500), None);
    assert_eq!((t.frame_count, t.delta), (1, 0));
    assert_eq!(t.frame(516), None);
    assert_eq!(t.delta, 16);
    assert_eq!(t.frame(1532), Some(FrameStats { frames: 3, average_delta: 344 }));
    assert_eq!(t.frame_count, 3);
    assert_eq!(t.frame(1540), None);
    assert_eq!(t.delta, 8);
    assert_eq!(t.frame(2540), Some(FrameStats { frames: 2, average_delta: 504 }));
    assert_eq!(t.frame(2541), None);
}

#[test]
fn world_exit_and_window() {
    let mut w: DelphosWorld<String, u8> = DelphosWorld::new(String::from("surface"));
    assert!(!w.should_exit());
    w.window_mut().push_str("-1");
    assert_eq!(w.window(), "surface-1");
    w.exit();
    assert!(w.should_exit());
    assert_eq!(w.container().entities(std::any::TypeId::of::<u8>()).len(), 0);
}

#[test]
fn first_configure_draws() {
    let mut configured = false;
    assert!(mark_configured(&mut configured));
    assert!(configured);
    assert!(!mark_configured(&mut configured));
}

#[test]
fn elapsed_advances_by_each_delta() {
    let mut t = Time::default();
    t.frame(500);
    assert_eq!(t.elapsed, 0);
    t.frame(516);
    assert_eq!(t.elapsed, 16);
    t.frame(1532);
    assert_eq!(t.elapsed, 1032);
    t.frame(1500);
    assert_eq!(t.elapsed, 1064);
}

#[test]
fn frame_refused_when_elapsed_would_overflow() {
    let mut t = Time::default();
    t.frame(10);
    t.elapsed = u32::MAX - 5;
    assert!(t.frame_fits(15));
    assert!(!t.frame_fits(16));
}
