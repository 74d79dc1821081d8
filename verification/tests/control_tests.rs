use hecto::control::Control;
use hecto::document::Document;
use hecto::position::Position;
use hecto::size::Size;
use hecto::window::Window;

fn default_doc(value: Option<Vec<&str>>) -> Document {
    match value {
        Some(rows) => Document::from(rows),
        None => Document::from(vec!["Hello World"]),
    }
}

#[test]
fn test_create_new_control() {
    let windows: Vec<Window> = Vec::new();
    let _ = Control::new(windows);
}

#[test]
fn test_should_not_panic_when_has_no_windows() {
    let windows: Vec<Window> = Vec::new();
    let mut control = Control::new(windows);
    control.move_up(10);
}

#[test]
fn test_should_should_move_down() {
    let window = Window::new(
        default_doc(Some(vec!["", ""])),
        Size {
            width: 10,
            height: 10,
        },
        Position { x: 0, y: 0 },
    );

    let windows = vec![window];
    let mut control = Control::new(windows);
    control.attach_window(0);

    control.move_down(1);

    assert_eq!(control.position().clone(), Position { x: 0, y: 1 });
}

#[test]
fn test_should_should_move_down_() {
    let window = Window::new(
        default_doc(Some(vec!["", ""])),
        Size {
            width: 10,
            height: 10,
        },
        Position { x: 0, y: 0 },
    );

    let windows = vec![window];
    let mut control = Control::new(windows);
    control.attach_window(0);
    control.move_down(2);

    assert_eq!(control.position().clone(), Position { x: 0, y: 1 });
}
