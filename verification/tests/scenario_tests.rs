use hecto::control::{Control, Key};
use hecto::direction::Direction;
use hecto::document::Document;
use hecto::position::Position;
use hecto::size::Size;
use hecto::window::Window;

fn four_line_window() -> Window {
    Window::new(
        Document::from(vec!["line1", "line2", "line3", "line4"]),
        Size {
            width: 6,
            height: 3,
        },
        Position::default(),
    )
}

#[test]
fn scroll_down_shows_next_page_and_never_overscrolls() {
    let mut w = four_line_window();
    w.scroll(&Direction::Down, 1);
    assert_eq!(
        w.visible_area_buff(),
        vec!["line2".to_string(), "line3".to_string(), "line4".to_string()]
    );
    w.scroll(&Direction::Down, 10);
    assert_eq!(
        w.visible_area_buff(),
        vec!["line2".to_string(), "line3".to_string(), "line4".to_string()]
    );
}

#[test]
fn scroll_down_then_up_restores_the_first_page() {
    let mut w = four_line_window();
    w.scroll(&Direction::Down, 1);
    w.scroll(&Direction::Up, 1);
    assert_eq!(
        w.visible_area_buff(),
        vec!["line1".to_string(), "line2".to_string(), "line3".to_string()]
    );
}

#[test]
fn scroll_down_by_more_than_remaining_pins_to_last_page() {
    let mut w = four_line_window();
    w.scroll(&Direction::Down, 10);
    assert_eq!(
        w.visible_area_buff(),
        vec!["line2".to_string(), "line3".to_string(), "line4".to_string()]
    );
}

#[test]
fn move_down_stops_at_the_last_row() {
    let window = Window::new(
        Document::from(vec!["", ""]),
        Size {
            width: 10,
            height: 10,
        },
        Position { x: 0, y: 0 },
    );
    let mut control = Control::new(vec![window]);
    control.attach_window(0);
    control.move_down(1);
    assert_eq!(*control.position(), Position { x: 0, y: 1 });

    let window = Window::new(
        Document::from(vec!["", ""]),
        Size {
            width: 10,
            height: 10,
        },
        Position { x: 0, y: 0 },
    );
    let mut control = Control::new(vec![window]);
    control.attach_window(0);
    control.move_down(2);
    assert_eq!(*control.position(), Position { x: 0, y: 1 });
}

#[test]
fn moving_down_onto_a_shorter_line_clamps_the_cursor() {
    let window = Window::new(
        Document::from(vec!["abcdef", "ab"]),
        Size {
            width: 10,
            height: 10,
        },
        Position { x: 0, y: 0 },
    );
    let mut control = Control::new(vec![window]);
    control.attach_window(0);
    control.move_right(4);
    assert_eq!(*control.position(), Position { x: 4, y: 0 });
    control.move_down(1);
    let pos = *control.position();
    assert_eq!(pos, Position { x: 2, y: 1 });
}

#[test]
fn move_right_is_rejected_past_the_end_of_the_line() {
    let window = Window::new(
        Document::from(vec!["ab"]),
        Size {
            width: 10,
            height: 10,
        },
        Position { x: 0, y: 0 },
    );
    let mut control = Control::new(vec![window]);
    control.attach_window(0);
    control.move_right(3);
    assert_eq!(*control.position(), Position { x: 0, y: 0 });
    control.move_right(2);
    assert_eq!(*control.position(), Position { x: 2, y: 0 });
}

#[test]
fn end_of_line_jump_lands_on_the_line_end() {
    let window = Window::new(
        Document::from(vec!["abcdef"]),
        Size {
            width: 10,
            height: 10,
        },
        Position { x: 0, y: 0 },
    );
    let mut control = Control::new(vec![window]);
    control.attach_window(0);
    control.go_to_last_line_char();
    assert_eq!(*control.position(), Position { x: 6, y: 0 });
}

#[test]
fn move_left_at_the_left_edge_does_not_move_the_cursor() {
    let window = Window::new(
        Document::from(vec!["abc"]),
        Size {
            width: 10,
            height: 10,
        },
        Position { x: 0, y: 0 },
    );
    let mut control = Control::new(vec![window]);
    control.attach_window(0);
    control.move_left(1);
    assert_eq!(*control.position(), Position { x: 0, y: 0 });
    control.move_right(2);
    control.move_left(1);
    assert_eq!(*control.position(), Position { x: 1, y: 0 });
}

#[test]
fn normal_mode_keys_drive_the_cursor() {
    let window = Window::new(
        Document::from(vec!["abc", "abc", "abc"]),
        Size {
            width: 10,
            height: 10,
        },
        Position { x: 0, y: 0 },
    );
    let mut control = Control::new(vec![window]);
    control.attach_window(0);
    control.process_key(Key::Char('j'));
    control.process_key(Key::Char('j'));
    control.process_key(Key::Char('k'));
    control.process_key(Key::Char('l'));
    assert_eq!(*control.position(), Position { x: 1, y: 1 });
    control.process_key(Key::Char('h'));
    assert_eq!(*control.position(), Position { x: 0, y: 1 });
    control.process_key(Key::Char('A'));
    assert_eq!(*control.position(), Position { x: 3, y: 1 });
}

#[test]
fn half_page_jumps_use_the_window_height() {
    let lines = vec!["a"; 20];
    let window = Window::new(
        Document::from(lines),
        Size {
            width: 10,
            height: 10,
        },
        Position { x: 0, y: 0 },
    );
    let mut control = Control::new(vec![window]);
    control.attach_window(0);
    // down: exactly half the height
    control.move_down_half_screen();
    assert_eq!(*control.position(), Position { x: 0, y: 5 });
    // up: seven tenths of the height, floored at the top edge by the
    // rejected scroll
    control.move_up_half_screen();
    assert_eq!(*control.position(), Position { x: 0, y: 5 });
}

#[test]
fn scrolling_up_from_the_top_is_rejected_through_the_controller() {
    let mut control = Control::new(vec![four_line_window()]);
    control.attach_window(0);
    control.scroll_attached_window(&Direction::Up, 1);
    let buff = control.borrow_attached_windows()[0].visible_area_buff();
    assert_eq!(
        buff,
        vec!["line1".to_string(), "line2".to_string(), "line3".to_string()]
    );
}

#[test]
fn current_line_len_reports_the_line_under_the_cursor() {
    let window = Window::new(
        Document::from(vec!["abc", "defgh"]),
        Size {
            width: 10,
            height: 10,
        },
        Position { x: 0, y: 0 },
    );
    let mut control = Control::new(vec![window]);
    assert_eq!(control.current_line_len(), None);
    control.attach_window(0);
    assert_eq!(control.current_line_len(), Some(3));
    control.move_down(1);
    assert_eq!(control.current_line_len(), Some(5));

    let empty = Control::new(Vec::new());
    assert_eq!(empty.current_line_len(), None);
}
