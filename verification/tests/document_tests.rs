use hecto::document::Document;
use hecto::position::Position;
use hecto::row::Row;

#[test]
fn row_returns_rows_in_construction_order() {
    let doc = Document::from(vec!["first", "second", "third"]);
    assert_eq!(doc.lines_len(), 3);
    assert_eq!(doc.row(0).unwrap().content, "first");
    assert_eq!(doc.row(1).unwrap().content, "second");
    assert_eq!(doc.row(2).unwrap().content, "third");
    assert!(doc.row(doc.lines_len()).is_none());
    assert!(doc.row(100).is_none());
}

#[test]
fn is_empty_reflects_row_count() {
    let empty = Document::from(Vec::new());
    assert!(empty.is_empty());
    assert_eq!(empty.lines_len(), 0);
    let doc = Document::from(vec![""]);
    assert!(!doc.is_empty());
    assert_eq!(doc.lines_len(), 1);
}

#[test]
fn document_edit_on_missing_row_is_a_no_op() {
    let mut doc = Document::from(vec!["abc"]);
    doc.insert_char(&Position { x: 0, y: 5 }, 'x');
    doc.remove_char(&Position { x: 0, y: 5 });
    assert_eq!(doc.lines_len(), 1);
    assert_eq!(doc.row(0).unwrap().content, "abc");
}

#[test]
fn document_edit_addresses_row_and_column() {
    let mut doc = Document::from(vec!["abc", "def"]);
    doc.insert_char(&Position { x: 1, y: 1 }, 'x');
    assert_eq!(doc.row(0).unwrap().content, "abc");
    assert_eq!(doc.row(1).unwrap().content, "dxef");
    doc.remove_char(&Position { x: 1, y: 1 });
    assert_eq!(doc.row(1).unwrap().content, "def");
}

#[test]
fn insert_then_remove_at_same_position_is_a_round_trip() {
    let mut row = Row::from_line("hello");
    row.insert_char(2, 'x');
    assert_eq!(row.content, "hexllo");
    row.remove_char(2);
    assert_eq!(row.content, "hello");

    let mut edge = Row::from_line("hi");
    edge.insert_char(2, '!');
    assert_eq!(edge.content, "hi!");
    edge.remove_char(2);
    assert_eq!(edge.content, "hi");
}

#[test]
fn insert_uses_character_positions_in_multibyte_text() {
    let mut row = Row::from_line("\u{3b1}\u{3b2}\u{3b3}");
    row.insert_char(1, 'x');
    assert_eq!(row.content, "\u{3b1}x\u{3b2}\u{3b3}");
    row.remove_char(1);
    assert_eq!(row.content, "\u{3b1}\u{3b2}\u{3b3}");
}

#[test]
fn render_clips_to_content() {
    let row = Row::from_line("hello");
    assert_eq!(row.render(1, 3), "el");
    assert_eq!(row.render(0, 5), "hello");
    assert_eq!(row.render(0, 100), "hello");
    assert_eq!(row.render(3, 1), "");
}

#[test]
fn render_is_never_longer_than_content_and_empty_past_the_end() {
    let row = Row::from_line("abc");
    assert!(row.render(0, 100).len() <= 3);
    assert_eq!(row.render(3, 10), "");
    assert_eq!(row.render(50, 60), "");
    let empty = Row::from_line("");
    assert_eq!(empty.render(0, 10), "");
}

#[test]
fn next_word_index_finds_the_next_space() {
    let row = Row::from_line("hello world again");
    assert_eq!(row.next_word_index(0), Some(5));
    // the offset is relative to the starting position
    assert_eq!(row.next_word_index(3), Some(2));
    assert_eq!(row.next_word_index(6), Some(5));
    assert_eq!(row.next_word_index(12), None);
    assert_eq!(row.next_word_index(17), None);
}

#[test]
fn from_text_splits_lines_and_drops_terminators() {
    let doc = Document::from_text("line1\nline2\r\nline3");
    assert_eq!(doc.lines_len(), 3);
    assert_eq!(doc.row(0).unwrap().content, "line1");
    assert_eq!(doc.row(1).unwrap().content, "line2");
    assert_eq!(doc.row(2).unwrap().content, "line3");
}

#[test]
fn from_text_keeps_empty_lines_and_optional_final_terminator() {
    let doc = Document::from_text("a\n\nb\n");
    assert_eq!(doc.lines_len(), 3);
    assert_eq!(doc.row(0).unwrap().content, "a");
    assert_eq!(doc.row(1).unwrap().content, "");
    assert_eq!(doc.row(2).unwrap().content, "b");

    let empty = Document::from_text("");
    assert_eq!(empty.lines_len(), 0);

    // a bare carriage return is not a line terminator
    let bare = Document::from_text("x\r");
    assert_eq!(bare.lines_len(), 1);
    assert_eq!(bare.row(0).unwrap().content, "x\r");
}
