use hecto::document::Document;
use hecto::position::Position;
use hecto::size::Size;
use hecto::window::Window;
use hecto::window_manager::WindowManager;

#[test]
fn clean_screen_buff_is_a_grid_of_spaces() {
    let wm = WindowManager::new(Size {
        width: 4,
        height: 2,
    });
    let screen = wm.clean_screen_buff();
    assert_eq!(screen, vec!["    ".to_string(), "    ".to_string()]);
}

#[test]
fn compositing_pads_rows_to_the_screen_width() {
    let wm = WindowManager::new(Size {
        width: 8,
        height: 2,
    });
    let windows = vec![Window::new(
        Document::from(vec!["hi"]),
        Size {
            width: 4,
            height: 1,
        },
        Position { x: 1, y: 1 },
    )];
    let screen = wm.visible_area_buff(&windows);
    assert_eq!(screen.len(), 2);
    assert_eq!(screen[0], "        ");
    // the window's own rectangle is space-padded past its short row
    assert_eq!(screen[1], " hi     ");
}

#[test]
fn later_inserted_window_wins_in_the_overlap() {
    let wm = WindowManager::new(Size {
        width: 10,
        height: 1,
    });
    let first = Window::new(
        Document::from(vec!["aaaa"]),
        Size {
            width: 4,
            height: 1,
        },
        Position { x: 0, y: 0 },
    );
    let second = Window::new(
        Document::from(vec!["bb"]),
        Size {
            width: 2,
            height: 1,
        },
        Position { x: 1, y: 0 },
    );
    let windows = vec![first, second];
    let screen = wm.visible_area_buff(&windows);
    assert_eq!(screen, vec!["abba      ".to_string()]);
}

#[test]
fn new_window_appends_a_default_sized_window() {
    let wm = WindowManager::new(Size {
        width: 120,
        height: 40,
    });
    let mut windows: Vec<Window> = Vec::new();
    assert!(wm.is_empty(&windows));
    wm.new_window(&mut windows, Document::from(vec!["x"]));
    assert!(!wm.is_empty(&windows));
    assert_eq!(windows.len(), 1);
    assert_eq!(
        *windows[0].size(),
        Size {
            width: 30,
            height: 10,
        }
    );
    assert_eq!(windows[0].position(), Position { x: 0, y: 0 });
}
