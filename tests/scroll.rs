use lazyjj::scroll::heading_line;
use lazyjj::{ScrollEvent, ScrollState};

fn laid_out(height: u16, lines: u16) -> ScrollState {
    let mut s = ScrollState::new();
    s.set_layout(height, lines);
    s
}

#[test]
fn scroll_stays_within_content() {
    let mut s = laid_out(10, 5);
    s.scroll_to(100);
    assert_eq!(s.scroll, 4);
    s.scroll(-100);
    assert_eq!(s.scroll, 0);
    s.scroll(3);
    assert_eq!(s.scroll, 3);
}

#[test]
fn empty_content_stays_at_top() {
    let mut s = laid_out(10, 0);
    s.handle_event(ScrollEvent::ScrollDown);
    assert_eq!(s.scroll, 0);
    assert_eq!(s.first_shown_line(), 0);
}

#[test]
fn page_and_half_page_moves() {
    let mut s = laid_out(10, 100);
    s.handle_event(ScrollEvent::ScrollDownPage);
    assert_eq!(s.scroll, 10);
    s.handle_event(ScrollEvent::ScrollDownHalfPage);
    assert_eq!(s.scroll, 15);
    s.handle_event(ScrollEvent::ScrollUpHalfPage);
    assert_eq!(s.scroll, 10);
    s.handle_event(ScrollEvent::ScrollUp);
    assert_eq!(s.scroll, 9);
    s.handle_event(ScrollEvent::ScrollUpPage);
    assert_eq!(s.scroll, 0);
    s.handle_event(ScrollEvent::ScrollUpPage);
    assert_eq!(s.scroll, 0);
}

#[test]
fn first_shown_line_follows_shrinking_content() {
    let mut s = laid_out(10, 50);
    s.scroll_to(40);
    s.set_layout(10, 20);
    assert_eq!(s.scroll, 40);
    assert_eq!(s.first_shown_line(), 19);
    assert!(s.overflows(5));
    assert!(!s.overflows(20));
}

#[test]
fn heading_is_last_letter_line_up_to_scroll() {
    let starts = vec![true, false, false, true, false];
    assert_eq!(heading_line(&starts, 0), Some(0));
    assert_eq!(heading_line(&starts, 2), Some(0));
    assert_eq!(heading_line(&starts, 3), Some(3));
    assert_eq!(heading_line(&starts, 100), Some(3));
    assert_eq!(heading_line(&[false, false].to_vec(), 1), None);
    assert_eq!(heading_line(&Vec::new(), 0), None);
}
