use least::buffer::PagerBuffer;
use least::clip_string;
use least::Direction;

fn buffer_of(lines: &[&str]) -> PagerBuffer {
    let mut b = PagerBuffer::default();
    for l in lines {
        b.push_line((*l).to_string());
    }
    b
}

#[test]
fn empty_buffer_fills_screen_with_tildes() {
    let b = PagerBuffer::default();
    assert_eq!(b.row, 0);
    assert_eq!(b.col, 0);
    let screen = b.compute_screen((80, 24));
    assert_eq!(screen.len(), 25);
    for line in &screen {
        assert_eq!(line, "~");
    }
}

#[test]
fn short_buffer_shows_lines_then_tildes() {
    let b = buffer_of(&["alpha", "beta", "gamma"]);
    let screen = b.compute_screen((80, 24));
    assert_eq!(screen.len(), 25);
    assert_eq!(screen[0], "alpha");
    assert_eq!(screen[1], "beta");
    assert_eq!(screen[2], "gamma");
    for line in &screen[3..] {
        assert_eq!(line, "~");
    }
}

#[test]
fn horizontal_clipping_window() {
    let mut b = buffer_of(&["0123456789"]);
    b.scroll(3, Direction::Right);
    assert_eq!(b.col, 3);
    let screen = b.compute_screen((4, 1));
    assert_eq!(screen, vec!["3456".to_string()]);
}

#[test]
fn tall_buffer_shows_exactly_screen_height() {
    let many: Vec<String> = (0..30).map(|i| format!("line {}", i)).collect();
    let b = PagerBuffer::from_lines(many);
    let screen = b.compute_screen((80, 24));
    assert_eq!(screen.len(), 24);
    assert_eq!(screen[0], "line 0");
    assert_eq!(screen[23], "line 23");
}

#[test]
fn buffer_exactly_screen_height_has_no_tildes() {
    let many: Vec<String> = (0..24).map(|i| format!("line {}", i)).collect();
    let b = PagerBuffer::from_lines(many);
    let screen = b.compute_screen((80, 24));
    assert_eq!(screen.len(), 24);
    assert_eq!(screen[23], "line 23");
}

#[test]
fn degenerate_terminal_renders_nothing() {
    let b = buffer_of(&["alpha"]);
    assert!(b.compute_screen((0, 24)).is_empty());
    assert!(b.compute_screen((80, 0)).is_empty());
    assert!(b.compute_screen((0, 0)).is_empty());
}

#[test]
fn every_rendered_line_fits_the_width() {
    let b = buffer_of(&["0123456789", "", "abc"]);
    let screen = b.compute_screen((4, 3));
    assert_eq!(screen.len(), 3);
    for line in &screen {
        assert!(line.len() <= 4);
    }
    assert_eq!(screen[0], "0123");
    assert_eq!(screen[1], "");
    assert_eq!(screen[2], "abc");
}

#[test]
fn scroll_down_saturates_at_last_line() {
    let mut b = buffer_of(&["a", "b", "c", "d", "e"]);
    for _ in 0..10 {
        b.scroll(1, Direction::Down);
    }
    assert_eq!(b.row, 4);
}

#[test]
fn scroll_down_on_empty_buffer_stays_at_zero() {
    let mut b = PagerBuffer::default();
    b.scroll(1, Direction::Down);
    assert_eq!(b.row, 0);
}

#[test]
fn scroll_up_and_left_saturate_at_zero() {
    let mut b = buffer_of(&["a", "b"]);
    b.scroll(7, Direction::Up);
    assert_eq!(b.row, 0);
    b.scroll(7, Direction::Left);
    assert_eq!(b.col, 0);
}

#[test]
fn scroll_right_saturates_at_integer_maximum() {
    let mut b = buffer_of(&["a"]);
    b.scroll(usize::MAX, Direction::Right);
    assert_eq!(b.col, usize::MAX);
    b.scroll(1, Direction::Right);
    assert_eq!(b.col, usize::MAX);
}

#[test]
fn scroll_up_then_down_on_single_line_buffer_stays_at_top() {
    let mut b = buffer_of(&["only"]);
    b.scroll(3, Direction::Up);
    b.scroll(3, Direction::Down);
    assert_eq!(b.row, 0);
}

#[test]
fn scroll_down_then_up_returns_to_top() {
    let mut b = buffer_of(&["a", "b", "c", "d", "e"]);
    for k in [1usize, 3, 7, 100] {
        b.scroll(k, Direction::Down);
        b.scroll(k, Direction::Up);
        assert_eq!(b.row, 0);
    }
}

#[test]
fn scroll_keeps_row_inside_buffer() {
    let mut b = buffer_of(&["a", "b", "c"]);
    for step in [1usize, 2, 5, 100] {
        b.scroll(step, Direction::Down);
        assert!(b.row <= 2);
        b.scroll(step, Direction::Up);
    }
    assert_eq!(b.row, 0);
}

#[test]
fn clip_with_full_width_is_identity() {
    let s = "an ascii line";
    assert_eq!(clip_string(s.to_string(), &0, &s.len()), s);
}

#[test]
fn clip_past_end_is_empty() {
    assert_eq!(clip_string("abc".to_string(), &3, &10), "");
    assert_eq!(clip_string("abc".to_string(), &4, &10), "");
    assert_eq!(clip_string("".to_string(), &1, &10), "");
}

#[test]
fn clip_takes_suffix_then_truncates() {
    assert_eq!(clip_string("0123456789".to_string(), &2, &3), "234");
    assert_eq!(clip_string("0123456789".to_string(), &8, &5), "89");
    assert_eq!(clip_string("0123456789".to_string(), &0, &0), "");
}

#[test]
fn from_lines_starts_complete() {
    let b = PagerBuffer::from_lines(vec!["x".to_string()]);
    assert!(b.reached_eof);
    assert_eq!(b.len(), 1);
    assert_eq!(b.row, 0);
    assert_eq!(b.col, 0);
    assert_eq!(b.target, 0);
}

#[test]
fn update_target_grows_by_four_screens() {
    let mut b = PagerBuffer::default();
    b.update_target(20);
    assert_eq!(b.target, 80);
    for i in 0..10 {
        b.push_line(format!("line {}", i));
    }
    b.update_target(20);
    assert_eq!(b.target, 90);
}

#[test]
fn update_target_never_shrinks() {
    let mut b = PagerBuffer::default();
    b.update_target(100);
    assert_eq!(b.target, 400);
    b.update_target(20);
    assert_eq!(b.target, 400);
}

#[test]
fn target_fits_for_any_real_buffer() {
    let b = buffer_of(&["a", "b", "c"]);
    assert!(b.target_fits(0));
    assert!(b.target_fits(u16::MAX));
}

#[test]
fn update_target_frozen_after_eof() {
    let mut b = PagerBuffer::default();
    b.update_target(20);
    b.mark_eof();
    b.update_target(100);
    assert_eq!(b.target, 80);
}
