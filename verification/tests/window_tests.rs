use hecto::direction::Direction;
use hecto::document::Document;
use hecto::position::Position;
use hecto::size::Size;
use hecto::window::Window;

#[test]
fn should_be_visible() {
    let w = Window::new(
        Document::from(vec!["line1", "line2", "line3", "line4"]),
        Size {
            width: 2,
            height: 2,
        },
        Position::default(),
    );

    let buff = w.visible_area_buff();
    assert_eq!(buff.len(), 2);
    assert_eq!(buff[0].len(), 2);
}

#[test]
fn should_be_visible_not_even_size() {
    let w = Window::new(
        Document::from(vec!["line1", "line2", "line3", "line4"]),
        Size {
            width: 2,
            height: 4,
        },
        Position::default(),
    );

    let buff = w.visible_area_buff();
    assert_eq!(buff.len(), 4);
    assert_eq!(buff[0].len(), 2);
}

#[test]
fn should_scroll_down() {
    let text_buff = vec!["line1", "line2", "line3", "line4"];

    let mut w = Window::new(
        Document::from(text_buff.clone()),
        Size {
            width: 6,
            height: 3,
        },
        Position::default(),
    );

    w.scroll(&Direction::Down, 1);

    let buff = w.visible_area_buff();
    assert_eq!(buff.len(), 3);
    assert_eq!(buff[0].len(), text_buff[0].len());
    assert_eq!(buff, text_buff[1..text_buff.len()]);
}

#[test]
fn should_not_scroll_down() {
    // cant scroll down more than page size
    let text_buff = vec!["line1", "line2", "line3", "line4"];

    let mut w = Window::new(
        Document::from(text_buff.clone()),
        Size {
            width: 6,
            height: 3,
        },
        Position::default(),
    );

    w.scroll(&Direction::Down, 1);
    w.scroll(&Direction::Down, 10);

    let buff = w.visible_area_buff();
    assert_eq!(buff.len(), 3);
    assert_eq!(buff[0].len(), text_buff[0].len());
    assert_eq!(buff, text_buff[1..text_buff.len()]);
}

#[test]
fn should_scroll_up() {
    let text_buff = vec!["line1", "line2", "line3", "line4"];

    let mut w = Window::new(
        Document::from(text_buff.clone()),
        Size {
            width: 6,
            height: 3,
        },
        Position::default(),
    );

    w.scroll(&Direction::Down, 1);
    w.scroll(&Direction::Up, 1);

    let buff = w.visible_area_buff();
    assert_eq!(buff.len(), 3);
    assert_eq!(buff[0].len(), text_buff[0].len());
    assert_eq!(buff, text_buff[0..text_buff.len() - 1]);
}

#[test]
fn should_not_scroll_up() {
    let text_buff = vec!["line1", "line2", "line3", "line4"];

    let mut w = Window::new(
        Document::from(text_buff.clone()),
        Size {
            width: 6,
            height: 3,
        },
        Position::default(),
    );

    w.scroll(&Direction::Up, 1);

    let buff = w.visible_area_buff();
    assert_eq!(buff.len(), 3);
    assert_eq!(buff[0].len(), text_buff[0].len());
    assert_eq!(buff, text_buff[0..text_buff.len() - 1]);
}
