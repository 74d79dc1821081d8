//! The cursor/navigation state machine. A [`Control`] owns the window
//! collection, a window-local cursor position and the current mode, and
//! translates discrete navigation commands into cursor moves and viewport
//! scrolls, clamping the cursor so that a vertical move onto a shorter line
//! never leaves it resting past the end of that line.
//!
//! Every transition is specified over [`ControlView`], a ghost model of the
//! whole state, by the `*_spec` functions below; each executable method
//! promises to land exactly on its spec's result.

use crate::direction::Direction;
use crate::position::Position;
use crate::window::scrolled_back;
use crate::window::scrolled_down;
use crate::window::scrolled_right;
use crate::window::Window;
use vstd::prelude::*;

verus! {

/// The editing mode. Only `Normal` has transitions in scope; the other two
/// are deferred states with no behaviour yet.
#[derive(Clone, Copy, Debug, PartialEq, Eq, Structural)]
pub enum Mode {
    Normal,
    Insert,
    Command,
}

/// One discrete key event, as the navigation layer sees it.
#[derive(Clone, Copy, Debug, PartialEq, Eq, Structural)]
pub enum Key {
    Char(char),
    Ctrl(char),
}

/// The keys with defined behaviour in normal mode: h/j/k/l one-step moves,
/// `A` for end of line, and Ctrl-d / Ctrl-u for the half-page jumps.
pub open spec fn handled_key(key: Key) -> bool {
    ||| key == Key::Char('h')
    ||| key == Key::Char('j')
    ||| key == Key::Char('k')
    ||| key == Key::Char('l')
    ||| key == Key::Char('A')
    ||| key == Key::Ctrl('d')
    ||| key == Key::Ctrl('u')
}

/// Ghost model of one window: its document's lines, its visible ranges, its
/// size and its absolute screen position, all as mathematical integers.
#[verifier::ext_equal]
pub ghost struct WindowView {
    pub lines: Seq<Seq<char>>,
    pub x0: int,
    pub x1: int,
    pub y0: int,
    pub y1: int,
    pub width: int,
    pub height: int,
    pub pos_x: int,
    pub pos_y: int,
}

/// Ghost model of the whole navigation state.
#[verifier::ext_equal]
pub ghost struct ControlView {
    pub x: int,
    pub y: int,
    pub mode: Mode,
    pub attached: Option<int>,
    pub windows: Seq<WindowView>,
}

pub open spec fn win_view(w: Window) -> WindowView {
    WindowView {
        lines: w.doc@,
        x0: w.visible_area.x_range.0 as int,
        x1: w.visible_area.x_range.1 as int,
        y0: w.visible_area.y_range.0 as int,
        y1: w.visible_area.y_range.1 as int,
        width: w.size.width as int,
        height: w.size.height as int,
        pos_x: w.position.x as int,
        pos_y: w.position.y as int,
    }
}

pub open spec fn win_view_wf(v: WindowView) -> bool {
    &&& 0 <= v.x0 <= v.x1 <= usize::MAX
    &&& v.x1 - v.x0 == v.width
    &&& 0 <= v.y0 <= v.y1 <= usize::MAX
    &&& v.y1 - v.y0 == v.height
    &&& 0 <= v.pos_x
    &&& 0 <= v.pos_y
    &&& v.lines.len() <= usize::MAX
}

/// The attached index, when set, names a live window; every window keeps its
/// visible spans equal to its size; the cursor is a machine coordinate.
pub open spec fn ctrl_wf(c: ControlView) -> bool {
    &&& match c.attached {
        Some(i) => 0 <= i < c.windows.len(),
        None => true,
    }
    &&& forall|j: int| 0 <= j < c.windows.len() ==> win_view_wf(#[trigger] c.windows[j])
    &&& 0 <= c.x <= usize::MAX
    &&& 0 <= c.y <= usize::MAX
}

/// Every line of the attached window, laid at the window's horizontal screen
/// offset, still ends at a machine-representable column. (The end-of-line
/// jump computes `line length + screen offset`.)
pub open spec fn rows_fit(c: ControlView) -> bool {
    match c.attached {
        Some(i) => forall|r: int|
            0 <= r < c.windows[i].lines.len() ==> (#[trigger] c.windows[i].lines[r]).len()
                + c.windows[i].pos_x <= usize::MAX,
        None => true,
    }
}

/// The attached window's visible area after a scroll, mirroring
/// [`Window::scrolled_area`]; with no window attached nothing happens.
pub open spec fn scroll_window_view(v: WindowView, direction: Direction, length: int) -> WindowView {
    match direction {
        Direction::Up => {
            let r = scrolled_back(v.y0, v.y1, length);
            WindowView { y0: r.0, y1: r.1, ..v }
        },
        Direction::Down => {
            let r = scrolled_down(v.y0, v.y1, length, v.lines.len() as int, v.height);
            WindowView { y0: r.0, y1: r.1, ..v }
        },
        Direction::Left => {
            let r = scrolled_back(v.x0, v.x1, length);
            WindowView { x0: r.0, x1: r.1, ..v }
        },
        Direction::Right => {
            let r = scrolled_right(v.x0, v.x1, length, v.width);
            WindowView { x0: r.0, x1: r.1, ..v }
        },
    }
}

pub open spec fn scroll_attached_spec(c: ControlView, direction: Direction, length: int) -> ControlView {
    match c.attached {
        None => c,
        Some(i) => ControlView {
            windows: c.windows.update(i, scroll_window_view(c.windows[i], direction, length)),
            ..c
        },
    }
}

/// The character count of the line under the cursor: the cursor's
/// window-local row translated by the attached window's vertical offset.
/// `None` when no window is attached or that document row does not exist.
pub open spec fn current_line_len_view(c: ControlView) -> Option<int> {
    match c.attached {
        None => None,
        Some(i) => {
            let w = c.windows[i];
            let line = w.y0 + c.y;
            if 0 <= line < w.lines.len() {
                Some(w.lines[line].len() as int)
            } else {
                None
            }
        },
    }
}

/// One step left: a move that would cross the left edge scrolls the window
/// left by one column (not by `length`) and leaves the cursor; otherwise the
/// cursor moves directly.
pub open spec fn move_left_spec(c: ControlView, length: int) -> ControlView {
    if c.x - length < 0 {
        scroll_attached_spec(c, Direction::Left, 1)
    } else {
        ControlView { x: c.x - length, ..c }
    }
}

/// One step right: rejected past the end of the current line; past the
/// window width the window scrolls right instead of the cursor moving.
pub open spec fn move_right_spec(c: ControlView, length: int) -> ControlView {
    match c.attached {
        None => c,
        Some(i) => {
            let next_x = c.x + length;
            match current_line_len_view(c) {
                None => c,
                Some(line_len) => if line_len < next_x {
                    c
                } else if next_x > c.windows[i].width {
                    scroll_attached_spec(c, Direction::Right, length)
                } else {
                    ControlView { x: next_x, ..c }
                },
            }
        },
    }
}

/// Jump to the last character of the current line: the signed distance from
/// the cursor to the line end (shifted by the window's horizontal screen
/// offset) is replayed as one right or left move of that magnitude.
pub open spec fn go_to_last_line_char_spec(c: ControlView) -> ControlView {
    match c.attached {
        None => c,
        Some(i) => match current_line_len_view(c) {
            None => c,
            Some(line_len) => {
                let correction = line_len - c.x + c.windows[i].pos_x;
                if correction > 0 {
                    move_right_spec(c, correction)
                } else {
                    move_left_spec(c, -correction)
                }
            },
        },
    }
}

/// After a vertical move, pull the cursor back when it rests past the end of
/// the line it landed on.
pub open spec fn correct_x_spec(c: ControlView) -> ControlView {
    match current_line_len_view(c) {
        None => c,
        Some(line_len) => if line_len < c.x {
            go_to_last_line_char_spec(c)
        } else {
            c
        },
    }
}

/// One step up: at the top edge the window scrolls up instead of the cursor
/// moving; either way the cursor is then clamped to its line.
pub open spec fn move_up_spec(c: ControlView, length: int) -> ControlView {
    let moved = if c.y - length < 0 {
        scroll_attached_spec(c, Direction::Up, length)
    } else {
        ControlView { y: c.y - length, ..c }
    };
    correct_x_spec(moved)
}

/// One step down. A target past the document's line count is rejected
/// whole. A target past the window height but inside the document scrolls
/// the window down, the cursor staying at its edge. Otherwise the cursor
/// moves, never past the last row. Each accepted path ends clamped to the
/// landing line.
pub open spec fn move_down_spec(c: ControlView, length: int) -> ControlView {
    match c.attached {
        None => c,
        Some(i) => {
            let rows = c.windows[i].lines.len() as int;
            let next_y = c.y + length;
            if next_y > rows {
                c
            } else if next_y - 1 > c.windows[i].height && next_y < rows {
                correct_x_spec(scroll_attached_spec(c, Direction::Down, length))
            } else {
                let new_y = if next_y < rows {
                    next_y
                } else if rows > 0 {
                    rows - 1
                } else {
                    0
                };
                correct_x_spec(ControlView { y: new_y, ..c })
            }
        },
    }
}

/// The half-page jumps derive their step from the attached window's height:
/// exactly half of it going down, seven tenths of it going up.
pub open spec fn move_down_half_spec(c: ControlView) -> ControlView {
    match c.attached {
        None => c,
        Some(i) => move_down_spec(c, c.windows[i].height / 2),
    }
}

pub open spec fn move_up_half_spec(c: ControlView) -> ControlView {
    match c.attached {
        None => c,
        Some(i) => move_up_spec(c, c.windows[i].height * 7 / 10),
    }
}

/// What one key does in normal mode.
pub open spec fn normal_mode_step(c: ControlView, key: Key) -> ControlView {
    if key == Key::Char('h') {
        move_left_spec(c, 1)
    } else if key == Key::Char('j') {
        move_down_spec(c, 1)
    } else if key == Key::Char('k') {
        move_up_spec(c, 1)
    } else if key == Key::Char('l') {
        move_right_spec(c, 1)
    } else if key == Key::Char('A') {
        go_to_last_line_char_spec(c)
    } else if key == Key::Ctrl('d') {
        move_down_half_spec(c)
    } else if key == Key::Ctrl('u') {
        move_up_half_spec(c)
    } else {
        c
    }
}

/// The machine-limit bounds a key's move needs.
pub open spec fn key_bound(c: ControlView, key: Key) -> bool {
    &&& (key == Key::Char('j') ==> c.y + 1 <= usize::MAX)
    &&& (key == Key::Char('l') ==> c.x + 1 <= usize::MAX)
    &&& (key == Key::Ctrl('d') ==> match c.attached {
        Some(i) => c.y + c.windows[i].height / 2 <= usize::MAX,
        None => true,
    })
}

/// Scrolling the attached window touches nothing but that window's visible
/// ranges, and keeps the whole state well-formed.
pub proof fn lemma_scroll_attached_wf(c: ControlView, direction: Direction, length: int)
    requires
        ctrl_wf(c),
        length >= 0,
    ensures
        ctrl_wf(scroll_attached_spec(c, direction, length)),
        scroll_attached_spec(c, direction, length).x == c.x,
        scroll_attached_spec(c, direction, length).y == c.y,
        scroll_attached_spec(c, direction, length).mode == c.mode,
        scroll_attached_spec(c, direction, length).attached == c.attached,
        scroll_attached_spec(c, direction, length).windows.len() == c.windows.len(),
        match c.attached {
            Some(i) => {
                &&& scroll_attached_spec(c, direction, length).windows[i].lines == c.windows[i].lines
                &&& scroll_attached_spec(c, direction, length).windows[i].pos_x == c.windows[i].pos_x
            },
            None => true,
        },
{
    match c.attached {
        None => {},
        Some(i) => {
            let v = c.windows[i];
            let v2 = scroll_window_view(v, direction, length);
            assert(win_view_wf(v2));
        },
    }
}

/// After the end-of-line clamp, a cursor over an existing line of a window
/// sitting at horizontal screen offset zero rests at or before that line's
/// end.
pub proof fn lemma_correct_x_bounds(c: ControlView)
    requires
        ctrl_wf(c),
        match c.attached {
            Some(i) => c.windows[i].pos_x == 0,
            None => true,
        },
    ensures
        match current_line_len_view(correct_x_spec(c)) {
            Some(line_len) => correct_x_spec(c).x <= line_len,
            None => true,
        },
{
    match current_line_len_view(c) {
        None => {},
        Some(line_len) => {
            if line_len < c.x {
                let c2 = move_left_spec(c, c.x - line_len);
                assert(go_to_last_line_char_spec(c) == c2);
                assert(c2 == (ControlView { x: line_len, ..c }));
                assert(current_line_len_view(c2) == Some(line_len));
            }
        },
    }
}

/// Moving the cursor down onto a line, when the move is not rejected and
/// the attached window sits at horizontal screen offset zero, always ends
/// with the cursor at or before the end of the line it lands on — also when
/// the landing line is shorter than the column the cursor came from.
pub proof fn lemma_move_down_cursor_within_line(c: ControlView, length: int)
    requires
        ctrl_wf(c),
        length >= 0,
        match c.attached {
            Some(i) => c.windows[i].pos_x == 0 && c.y + length <= c.windows[i].lines.len(),
            None => false,
        },
    ensures
        match current_line_len_view(move_down_spec(c, length)) {
            Some(line_len) => move_down_spec(c, length).x <= line_len,
            None => true,
        },
{
    let i = match c.attached {
        Some(i) => i,
        None => arbitrary(),
    };
    let rows = c.windows[i].lines.len() as int;
    let next_y = c.y + length;
    if next_y - 1 > c.windows[i].height && next_y < rows {
        let c1 = scroll_attached_spec(c, Direction::Down, length);
        lemma_scroll_attached_wf(c, Direction::Down, length);
        lemma_correct_x_bounds(c1);
    } else {
        let new_y = if next_y < rows {
            next_y
        } else if rows > 0 {
            rows - 1
        } else {
            0
        };
        let c1 = ControlView { y: new_y, ..c };
        assert(ctrl_wf(c1));
        lemma_correct_x_bounds(c1);
    }
}

fn window_at_mut(windows: &mut Vec<Window>, i: usize) -> (element: &mut Window)
    requires
        i < old(windows).len(),
    ensures
        *element == old(windows)@[i as int],
        final(windows)@ == old(windows)@.update(i as int, *final(element)),
{
    &mut windows[i]
}

pub struct Control {
    pub cursor_position: Position,
    pub mode: Mode,
    pub attached_window: Option<usize>,
    pub windows: Vec<Window>,
}

impl View for Control {
    type V = ControlView;

    open spec fn view(&self) -> ControlView {
        ControlView {
            x: self.cursor_position.x as int,
            y: self.cursor_position.y as int,
            mode: self.mode,
            attached: match self.attached_window {
                Some(i) => Some(i as int),
                None => None,
            },
            windows: self.windows@.map_values(|w: Window| win_view(w)),
        }
    }
}

impl Control {
    pub fn new(windows: Vec<Window>) -> (r: Self)
        ensures
            r.cursor_position == (Position { x: 0, y: 0 }),
            r.mode == Mode::Normal,
            r.attached_window is None,
            r.windows == windows,
            (forall|j: int| 0 <= j < windows@.len() ==> (#[trigger] windows@[j]).wf())
                ==> ctrl_wf(r@),
    {
        let r = Control {
            cursor_position: Position { x: 0, y: 0 },
            mode: Mode::Normal,
            attached_window: None,
            windows,
        };
        proof {
            if forall|j: int| 0 <= j < r.windows@.len() ==> (#[trigger] r.windows@[j]).wf() {
                assert forall|j: int|
                    0 <= j < r@.windows.len() implies win_view_wf(#[trigger] r@.windows[j]) by {
                    let w = r.windows@[j];
                    assert(w.wf());
                    vstd::std_specs::vec::axiom_spec_len(&w.doc.rows);
                }
            }
        }
        r
    }

    pub fn position(&self) -> (r: &Position)
        ensures
            *r == self.cursor_position,
    {
        &self.cursor_position
    }

    /// Binds the controller to the window at `window_i`, which must name a
    /// live entry of the collection.
    pub fn attach_window(&mut self, window_i: usize)
        requires
            window_i < old(self).windows@.len(),
        ensures
            final(self).cursor_position == old(self).cursor_position,
            final(self).mode == old(self).mode,
            final(self).windows == old(self).windows,
            final(self).attached_window == Some(window_i),
    {
        self.attached_window = Some(window_i);
    }

    pub fn borrow_attached_windows(&self) -> (r: &Vec<Window>)
        ensures
            *r == self.windows,
    {
        &self.windows
    }

    pub fn borrow_mut_windows(&mut self) -> (r: &mut Vec<Window>)
        ensures
            *r == old(self).windows,
            final(self).windows == *final(r),
            final(self).cursor_position == old(self).cursor_position,
            final(self).mode == old(self).mode,
            final(self).attached_window == old(self).attached_window,
    {
        &mut self.windows
    }

    /// Scrolls the attached window, if one is attached; with none this does
    /// nothing.
    pub fn scroll_attached_window(&mut self, direction: &Direction, length: usize)
        requires
            ctrl_wf(old(self)@),
        ensures
            final(self)@ == scroll_attached_spec(old(self)@, *direction, length as int),
            ctrl_wf(final(self)@),
            rows_fit(old(self)@) ==> rows_fit(final(self)@),
    {
        match self.attached_window {
            Some(index) => {
                let w = window_at_mut(&mut self.windows, index);
                w.scroll(direction, length);
                proof {
                    assert(self@.windows =~= scroll_attached_spec(
                        old(self)@,
                        *direction,
                        length as int,
                    ).windows);
                    assert(self@ =~= scroll_attached_spec(old(self)@, *direction, length as int));
                }
            },
            None => {},
        }
    }

    /// The character count of the line under the cursor, or `None` when no
    /// window is attached or the addressed document row does not exist.
    pub fn current_line_len(&self) -> (r: Option<usize>)
        requires
            ctrl_wf(self@),
        ensures
            match r {
                Some(l) => current_line_len_view(self@) == Some(l as int),
                None => current_line_len_view(self@) is None,
            },
    {
        let window_index = match self.attached_window {
            Some(index) => index,
            None => {
                return None;
            },
        };
        let w = &self.windows[window_index];
        proof {
            assert(self@.windows[window_index as int] == win_view(self.windows@[window_index as int]));
        }
        let lines = w.document_rows();
        if self.cursor_position.y > usize::MAX - w.visible_area.y_range.0 {
            // the addressed line lies past any representable row index
            proof {
                assert(lines as int <= usize::MAX);
            }
            return None;
        }
        let line = w.document_line_number_from_cursor(self.cursor_position.y);
        match w.document_row(line) {
            Some(row) => Some(row.content.as_str().unicode_len()),
            None => None,
        }
    }

    /// One step left, as [`move_left_spec`] states: crossing the left edge
    /// scrolls the window by one column instead of moving the cursor.
    pub fn move_left(&mut self, length: usize)
        requires
            ctrl_wf(old(self)@),
        ensures
            final(self)@ == move_left_spec(old(self)@, length as int),
            ctrl_wf(final(self)@),
            rows_fit(old(self)@) ==> rows_fit(final(self)@),
    {
        if self.cursor_position.x < length {
            self.scroll_attached_window(&Direction::Left, 1);
        } else {
            self.cursor_position = Position {
                x: self.cursor_position.x - length,
                y: self.cursor_position.y,
            };
            proof {
                assert(self@ =~= move_left_spec(old(self)@, length as int));
            }
        }
    }

    /// One step right, as [`move_right_spec`] states: rejected past the end
    /// of the line; past the window width the window scrolls instead.
    pub fn move_right(&mut self, length: usize)
        requires
            ctrl_wf(old(self)@),
            old(self)@.x + length <= usize::MAX,
        ensures
            final(self)@ == move_right_spec(old(self)@, length as int),
            ctrl_wf(final(self)@),
            rows_fit(old(self)@) ==> rows_fit(final(self)@),
    {
        let window_index = match self.attached_window {
            Some(index) => index,
            None => {
                return;
            },
        };
        let next_x = self.cursor_position.x + length;
        let window_width = {
            let w = &self.windows[window_index];
            w.size().width as usize
        };
        let line_len = match self.current_line_len() {
            Some(l) => l,
            None => {
                return;
            },
        };
        if line_len < next_x {
            return;
        }
        if next_x > window_width {
            self.scroll_attached_window(&Direction::Right, length);
            return;
        }
        self.cursor_position = Position { x: next_x, y: self.cursor_position.y };
        proof {
            assert(self@ =~= move_right_spec(old(self)@, length as int));
        }
    }

    /// One step up, as [`move_up_spec`] states, ending clamped to the line
    /// the cursor lands on.
    pub fn move_up(&mut self, length: usize)
        requires
            ctrl_wf(old(self)@),
            rows_fit(old(self)@),
        ensures
            final(self)@ == move_up_spec(old(self)@, length as int),
            ctrl_wf(final(self)@),
    {
        if self.cursor_position.y < length {
            self.scroll_attached_window(&Direction::Up, length);
        } else {
            self.cursor_position = Position {
                x: self.cursor_position.x,
                y: self.cursor_position.y - length,
            };
        }
        self.correct_x();
    }

    /// One step down, as [`move_down_spec`] states: never past the last row,
    /// scrolling at the window's bottom edge, ending clamped to the landing
    /// line.
    pub fn move_down(&mut self, length: usize)
        requires
            ctrl_wf(old(self)@),
            rows_fit(old(self)@),
            old(self)@.y + length <= usize::MAX,
        ensures
            final(self)@ == move_down_spec(old(self)@, length as int),
            ctrl_wf(final(self)@),
    {
        let window_index = match self.attached_window {
            Some(index) => index,
            None => {
                return;
            },
        };
        let next_y = self.cursor_position.y + length;
        let (window_height, rows_len) = {
            let w = &self.windows[window_index];
            (w.size().height as usize, w.document_rows())
        };
        if next_y > rows_len {
            return;
        }
        if next_y >= 1 && next_y - 1 > window_height && next_y < rows_len {
            self.scroll_attached_window(&Direction::Down, length);
            self.correct_x();
            return;
        }
        let new_y = if next_y < rows_len {
            next_y
        } else if rows_len > 0 {
            rows_len - 1
        } else {
            0
        };
        self.cursor_position = Position { x: self.cursor_position.x, y: new_y };
        self.correct_x();
    }

    /// Half-page down: exactly half the attached window's height; a no-op
    /// with no window attached.
    pub fn move_down_half_screen(&mut self)
        requires
            ctrl_wf(old(self)@),
            rows_fit(old(self)@),
            match old(self)@.attached {
                Some(i) => old(self)@.y + old(self)@.windows[i].height / 2 <= usize::MAX,
                None => true,
            },
        ensures
            final(self)@ == move_down_half_spec(old(self)@),
            ctrl_wf(final(self)@),
    {
        let window_index = match self.attached_window {
            Some(index) => index,
            None => {
                return;
            },
        };
        let steps = {
            let w = &self.windows[window_index];
            (w.size().height as usize) / 2
        };
        self.move_down(steps);
    }

    /// Half-page up: seven tenths of the attached window's height, a
    /// deliberately larger stride than going down; a no-op with no window
    /// attached.
    pub fn move_up_half_screen(&mut self)
        requires
            ctrl_wf(old(self)@),
            rows_fit(old(self)@),
        ensures
            final(self)@ == move_up_half_spec(old(self)@),
            ctrl_wf(final(self)@),
    {
        let window_index = match self.attached_window {
            Some(index) => index,
            None => {
                return;
            },
        };
        let steps = {
            let w = &self.windows[window_index];
            (w.size().height as usize) * 7 / 10
        };
        self.move_up(steps);
    }

    /// Clamp the cursor to the line it rests on, as [`correct_x_spec`]
    /// states.
    pub fn correct_x(&mut self)
        requires
            ctrl_wf(old(self)@),
            rows_fit(old(self)@),
        ensures
            final(self)@ == correct_x_spec(old(self)@),
            ctrl_wf(final(self)@),
    {
        let line_len = match self.current_line_len() {
            Some(l) => l,
            None => {
                return;
            },
        };
        if !(line_len < self.cursor_position.x) {
            return;
        }
        self.go_to_last_line_char();
    }

    /// Jump to the last character of the current line, as
    /// [`go_to_last_line_char_spec`] states.
    pub fn go_to_last_line_char(&mut self)
        requires
            ctrl_wf(old(self)@),
            rows_fit(old(self)@),
        ensures
            final(self)@ == go_to_last_line_char_spec(old(self)@),
            ctrl_wf(final(self)@),
    {
        let window_index = match self.attached_window {
            Some(index) => index,
            None => {
                return;
            },
        };
        let window_x_pos = {
            let w = &self.windows[window_index];
            w.position().x
        };
        let line_len = match self.current_line_len() {
            Some(l) => l,
            None => {
                return;
            },
        };
        if line_len + window_x_pos > self.cursor_position.x {
            let correction = line_len + window_x_pos - self.cursor_position.x;
            self.move_right(correction);
        } else {
            let correction = self.cursor_position.x - (line_len + window_x_pos);
            self.move_left(correction);
        }
    }

    /// Dispatches one key in the current mode. Only normal mode has defined
    /// behaviour; the other modes are deferred states that must not be fed
    /// keys.
    pub fn process_key(&mut self, key: Key)
        requires
            old(self)@.mode == Mode::Normal,
            ctrl_wf(old(self)@),
            rows_fit(old(self)@),
            handled_key(key),
            key_bound(old(self)@, key),
        ensures
            final(self)@ == normal_mode_step(old(self)@, key),
            ctrl_wf(final(self)@),
    {
        match self.mode {
            Mode::Normal => self.process_key_in_normal_mode(key),
            Mode::Insert | Mode::Command => {},
        }
    }

    /// One normal-mode key, as [`normal_mode_step`] states.
    pub fn process_key_in_normal_mode(&mut self, key: Key)
        requires
            ctrl_wf(old(self)@),
            rows_fit(old(self)@),
            handled_key(key),
            key_bound(old(self)@, key),
        ensures
            final(self)@ == normal_mode_step(old(self)@, key),
            ctrl_wf(final(self)@),
    {
        match key {
            Key::Char('h') => self.move_left(1),
            Key::Char('j') => self.move_down(1),
            Key::Char('k') => self.move_up(1),
            Key::Char('l') => self.move_right(1),
            Key::Char('A') => self.go_to_last_line_char(),
            Key::Ctrl('d') => self.move_down_half_screen(),
            Key::Ctrl('u') => self.move_up_half_screen(),
            _ => {},
        }
    }
}

} // verus!
