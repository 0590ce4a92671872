use display_controller::controller::Controller;
use display_controller::surface::Surface;

#[test]
fn fresh_surface_is_blank() {
    let s = Surface::new();
    assert_eq!(s.shown_text(), None);
    assert_eq!(s.flush_count(), 0);
}

#[test]
fn fresh_controller_is_running() {
    let c = Controller::new();
    assert!(c.is_running());
}

#[test]
fn mapped_byte_is_shown_after_flush() {
    let mut c = Controller::new();
    let mut s = Surface::new();
    c.run_step(&mut s, Some(1), true);
    assert_eq!(s.shown_text(), Some("Hello!"));
    assert_eq!(s.flush_count(), 1);
    assert!(c.is_running());
}

#[test]
fn unmapped_byte_blanks_the_screen() {
    let mut c = Controller::new();
    let mut s = Surface::new();
    c.run_step(&mut s, Some(2), true);
    assert_eq!(s.shown_text(), Some("World!"));
    c.run_step(&mut s, Some(9), true);
    assert_eq!(s.shown_text(), None);
    assert_eq!(s.flush_count(), 2);
    assert!(c.is_running());
}

#[test]
fn same_byte_twice_shows_same_screen() {
    let mut c = Controller::new();
    let mut s = Surface::new();
    c.run_step(&mut s, Some(3), true);
    let first = s.shown_text();
    c.run_step(&mut s, Some(3), true);
    let second = s.shown_text();
    assert_eq!(first, Some("ESP32 + Rust!"));
    assert_eq!(second, first);
    assert_eq!(s.flush_count(), 2);
}

#[test]
fn no_byte_means_no_change_and_no_flush() {
    let mut c = Controller::new();
    let mut s = Surface::new();
    c.run_step(&mut s, Some(1), true);
    assert_eq!(s.flush_count(), 1);
    c.run_step(&mut s, None, true);
    c.run_step(&mut s, None, false);
    c.run_step(&mut s, None, true);
    assert_eq!(s.shown_text(), Some("Hello!"));
    assert_eq!(s.flush_count(), 1);
    assert!(c.is_running());
}

#[test]
fn flushes_match_byte_arrivals() {
    let mut c = Controller::new();
    let mut s = Surface::new();
    let events: Vec<Option<u8>> = vec![None, Some(1), None, None, Some(9), Some(2), None];
    let mut arrivals: u64 = 0;
    let mut i: usize = 0;
    while i < events.len() {
        if events[i].is_some() {
            arrivals += 1;
        }
        c.run_step(&mut s, events[i], true);
        i += 1;
    }
    assert_eq!(arrivals, 3);
    assert_eq!(s.flush_count(), arrivals);
}

#[test]
fn end_to_end_byte_sequence() {
    let mut c = Controller::new();
    let mut s = Surface::new();
    let bytes: Vec<u8> = vec![5, 1, 9, 2, 3];
    let mut screens: Vec<Option<&'static str>> = Vec::new();
    let mut i: usize = 0;
    while i < bytes.len() {
        c.run_step(&mut s, Some(bytes[i]), true);
        screens.push(s.shown_text());
        i += 1;
    }
    assert_eq!(
        screens,
        vec![None, Some("Hello!"), None, Some("World!"), Some("ESP32 + Rust!")]
    );
    assert_eq!(s.flush_count(), 5);
    assert!(c.is_running());
}

#[test]
fn one_failed_flush_halts_the_loop_for_good() {
    let mut c = Controller::new();
    let mut s = Surface::new();
    let events: Vec<Option<u8>> = vec![Some(1), Some(2), Some(3), Some(1)];
    let bus: Vec<bool> = vec![true, false, true, true];
    let mut polls: u64 = 0;
    let mut i: usize = 0;
    while c.is_running() && i < events.len() {
        polls += 1;
        c.run_step(&mut s, events[i], bus[i]);
        i += 1;
    }
    // The loop polled twice, halted on the failed flush, and never polled again.
    assert!(!c.is_running());
    assert_eq!(polls, 2);
    assert_eq!(s.flush_count(), 2);
    // The panel keeps the last screen that was committed successfully.
    assert_eq!(s.shown_text(), Some("Hello!"));
    // Even a forced further step changes nothing once halted.
    c.run_step(&mut s, Some(3), true);
    assert!(!c.is_running());
    assert_eq!(s.flush_count(), 2);
    assert_eq!(s.shown_text(), Some("Hello!"));
}
