//! Composites every window's rendered buffer onto one screen-sized grid of
//! fixed-width strings. Windows are overlaid in storage order, so where two
//! windows overlap, the later one in the collection wins.

use crate::document::Document;
use crate::position::Position;
use crate::row::render_spec;
use crate::size::Size;
use crate::window::Window;
use vstd::prelude::*;

verus! {

/// `n` space characters (none when `n` is negative).
pub open spec fn spaces(n: int) -> Seq<char> {
    Seq::new(
        if n < 0 {
            0
        } else {
            n as nat
        },
        |i: int| ' ',
    )
}

/// The views of a sequence of strings.
pub open spec fn strings_view(v: Seq<String>) -> Seq<Seq<char>> {
    v.map_values(|s: String| s@)
}

/// Row `i` of the grid that `w.visible_area_buff()` renders.
pub open spec fn rendered_row(w: Window, i: int) -> Seq<char> {
    render_spec(
        w.doc@[w.visible_area.y_range.0 + i],
        w.visible_area.x_range.0 as int,
        w.visible_area.x_range.1 as int,
    )
}

/// A screen row with `content` written over its cells `[at, at + width)`:
/// the cells of that stretch show the content padded with spaces, and the
/// cells outside it are untouched.
pub open spec fn overlay_row(row: Seq<char>, at: int, content: Seq<char>, width: int) -> Seq<char> {
    row.subrange(0, at) + content + spaces(width - content.len()) + row.subrange(
        at + width,
        row.len() as int,
    )
}

/// The screen after the first `k` rendered rows of `w` have been written at
/// the window's screen position.
pub open spec fn overlay_upto(screen: Seq<Seq<char>>, w: Window, k: int) -> Seq<Seq<char>> {
    Seq::new(
        screen.len(),
        |r: int|
            if w.position.y <= r < w.position.y + k {
                overlay_row(
                    screen[r],
                    w.position.x as int,
                    rendered_row(w, r - w.position.y),
                    w.size.width as int,
                )
            } else {
                screen[r]
            },
    )
}

/// The screen after all of `w`'s rendered rows have been written onto it.
pub open spec fn overlay_window(screen: Seq<Seq<char>>, w: Window) -> Seq<Seq<char>> {
    overlay_upto(screen, w, w.visible_rows())
}

/// The screen after every window of `ws` has been overlaid, in order; a
/// window later in `ws` overwrites whatever earlier ones left behind.
pub open spec fn composite(screen: Seq<Seq<char>>, ws: Seq<Window>) -> Seq<Seq<char>>
    decreases ws.len(),
{
    if ws.len() == 0 {
        screen
    } else {
        composite(overlay_window(screen, ws[0]), ws.drop_first())
    }
}

/// A screen-sized grid of space characters.
pub open spec fn blank_screen(size: Size) -> Seq<Seq<char>> {
    Seq::new(size.height as nat, |r: int| spaces(size.width as int))
}

/// `screen` is a grid of exactly `size.height` rows of `size.width` cells.
pub open spec fn screen_dims(screen: Seq<Seq<char>>, size: Size) -> bool {
    &&& screen.len() == size.height as int
    &&& forall|r: int| 0 <= r < screen.len() ==> (#[trigger] screen[r]).len() == size.width as int
}

/// The cells `w` writes lie within a screen of dimensions `size`: its full
/// width, but only the rows it actually renders, so a window whose rectangle
/// hangs past the bottom is fine as long as its document runs out first.
pub open spec fn window_fits(w: Window, size: Size) -> bool {
    &&& w.wf()
    &&& w.position.x + w.size.width as int <= size.width as int
    &&& w.position.y + w.visible_rows() <= size.height as int
}

/// A rendered row never exceeds the window width it is clipped through.
pub proof fn lemma_rendered_row_len(w: Window, i: int)
    requires
        w.wf(),
    ensures
        rendered_row(w, i).len() <= w.size.width as int,
{
}

/// Overlaying a window onto a well-dimensioned screen keeps the dimensions.
pub proof fn lemma_overlay_upto_dims(screen: Seq<Seq<char>>, w: Window, k: int, size: Size)
    requires
        screen_dims(screen, size),
        window_fits(w, size),
        k <= w.visible_rows(),
    ensures
        screen_dims(overlay_upto(screen, w, k), size),
{
    assert forall|r: int| 0 <= r < screen.len() implies (#[trigger] overlay_upto(screen, w, k)[r]).len()
        == size.width as int by {
        if w.position.y <= r < w.position.y + k {
            lemma_rendered_row_len(w, r - w.position.y);
        }
    }
}

/// Compositing keeps the screen dimensions.
pub proof fn lemma_composite_dims(screen: Seq<Seq<char>>, ws: Seq<Window>, size: Size)
    requires
        screen_dims(screen, size),
        forall|i: int| 0 <= i < ws.len() ==> window_fits(#[trigger] ws[i], size),
    ensures
        screen_dims(composite(screen, ws), size),
    decreases ws.len(),
{
    if ws.len() > 0 {
        lemma_overlay_upto_dims(screen, ws[0], ws[0].visible_rows(), size);
        lemma_composite_dims(overlay_window(screen, ws[0]), ws.drop_first(), size);
    }
}

/// Compositing one more window at the back overlays it on the composite of
/// the earlier ones.
pub proof fn lemma_composite_push(screen: Seq<Seq<char>>, ws: Seq<Window>, w: Window)
    ensures
        composite(screen, ws.push(w)) == overlay_window(composite(screen, ws), w),
    decreases ws.len(),
{
    if ws.len() == 0 {
        let rest = ws.push(w).drop_first();
        assert(ws.push(w)[0] == w);
        assert(rest =~= Seq::<Window>::empty());
        assert(composite(screen, ws.push(w)) == composite(overlay_window(screen, w), rest));
        assert(composite(overlay_window(screen, w), rest) == overlay_window(screen, w));
        assert(composite(screen, ws) == screen);
    } else {
        assert(ws.push(w)[0] == ws[0]);
        assert(ws.push(w).drop_first() =~= ws.drop_first().push(w));
        assert(composite(screen, ws.push(w)) == composite(
            overlay_window(screen, ws[0]),
            ws.drop_first().push(w),
        ));
        lemma_composite_push(overlay_window(screen, ws[0]), ws.drop_first(), w);
        assert(composite(screen, ws) == composite(overlay_window(screen, ws[0]), ws.drop_first()));
    }
}

/// What a cell inside `w`'s rectangle shows after `w` is overlaid: `w`'s own
/// rendered character (or its space padding), whatever the screen held there.
pub proof fn lemma_overlay_cell(screen: Seq<Seq<char>>, w: Window, size: Size, r: int, c: int)
    requires
        screen_dims(screen, size),
        window_fits(w, size),
        w.position.y <= r < w.position.y + w.visible_rows(),
        w.position.x <= c < w.position.x + w.size.width as int,
    ensures
        overlay_window(screen, w)[r][c] == ({
            let content = rendered_row(w, r - w.position.y);
            let j = c - w.position.x;
            if j < content.len() {
                content[j]
            } else {
                ' '
            }
        }),
{
    lemma_rendered_row_len(w, r - w.position.y);
    assert(r < screen.len());
}

/// Where two or more windows overlap, the screen shows the cells of the
/// window inserted last: a cell inside the last window's rectangle depends
/// only on that window, whatever `ws` painted there before it.
pub proof fn lemma_later_window_wins(size: Size, ws: Seq<Window>, w: Window, r: int, c: int)
    requires
        forall|i: int| 0 <= i < ws.len() ==> window_fits(#[trigger] ws[i], size),
        window_fits(w, size),
        w.position.y <= r < w.position.y + w.visible_rows(),
        w.position.x <= c < w.position.x + w.size.width as int,
    ensures
        composite(blank_screen(size), ws.push(w))[r][c] == ({
            let content = rendered_row(w, r - w.position.y);
            let j = c - w.position.x;
            if j < content.len() {
                content[j]
            } else {
                ' '
            }
        }),
{
    lemma_composite_push(blank_screen(size), ws, w);
    lemma_composite_dims(blank_screen(size), ws, size);
    lemma_overlay_cell(composite(blank_screen(size), ws), w, size, r, c);
}

fn string_at_mut(v: &mut Vec<String>, i: usize) -> (element: &mut String)
    requires
        i < old(v).len(),
    ensures
        *element == old(v)@[i as int],
        final(v)@ == old(v)@.update(i as int, *final(element)),
{
    &mut v[i]
}

/// A string of `width` space characters.
fn blank_row(width: usize) -> (r: String)
    ensures
        r@ == spaces(width as int),
{
    proof {
        reveal_strlit(" ");
    }
    let mut s = String::new();
    let mut j: usize = 0;
    while j < width
        invariant
            j <= width,
            s@.len() == j,
            forall|k: int| 0 <= k < j ==> s@[k] == ' ',
        decreases width - j,
    {
        s.append(" ");
        proof {
            reveal_strlit(" ");
        }
        j = j + 1;
    }
    proof {
        assert(s@ =~= spaces(width as int));
    }
    s
}

pub struct WindowManager {
    pub size: Size,
}

impl WindowManager {
    pub fn new(size: Size) -> (r: Self)
        ensures
            r.size == size,
    {
        WindowManager { size }
    }

    /// The background canvas: `size.height` rows of `size.width` spaces.
    pub fn clean_screen_buff(&self) -> (r: Vec<String>)
        ensures
            strings_view(r@) == blank_screen(self.size),
    {
        let mut screen: Vec<String> = Vec::new();
        let mut i: usize = 0;
        let height = self.size.height as usize;
        while i < height
            invariant
                i <= height,
                screen@.len() == i,
                forall|r: int| 0 <= r < i ==> (#[trigger] screen@[r])@ == spaces(
                    self.size.width as int,
                ),
            decreases height - i,
        {
            screen.push(blank_row(self.size.width as usize));
            i = i + 1;
        }
        proof {
            assert forall|r: int| 0 <= r < screen@.len() implies strings_view(screen@)[r]
                == blank_screen(self.size)[r] by {}
            assert(strings_view(screen@) =~= blank_screen(self.size));
        }
        screen
    }

    /// The composited screen: the clean canvas with every window's rendered
    /// buffer written at that window's screen position, in storage order.
    /// Every window's rendered cells must lie within the screen; a window
    /// placed outside it would address canvas cells that do not exist, a
    /// caller error.
    #[verifier::loop_isolation(false)]
    pub fn visible_area_buff(&self, windows: &Vec<Window>) -> (r: Vec<String>)
        requires
            forall|i: int|
                0 <= i < windows@.len() ==> window_fits(#[trigger] windows@[i], self.size),
        ensures
            strings_view(r@) == composite(blank_screen(self.size), windows@),
    {
        let mut screen = self.clean_screen_buff();
        proof {
            assert(windows@.subrange(0, 0) =~= Seq::<Window>::empty());
            lemma_composite_dims(blank_screen(self.size), windows@.subrange(0, 0), self.size);
        }
        let mut wi: usize = 0;
        while wi < windows.len()
            invariant
                wi <= windows@.len(),
                forall|i: int|
                    0 <= i < windows@.len() ==> window_fits(#[trigger] windows@[i], self.size),
                strings_view(screen@) == composite(
                    blank_screen(self.size),
                    windows@.subrange(0, wi as int),
                ),
                screen_dims(strings_view(screen@), self.size),
            decreases windows@.len() - wi,
        {
            let w = &windows[wi];
            let ghost base = strings_view(screen@);
            let buff = w.visible_area_buff();
            let pos = w.position();
            let width = w.size().width as usize;
            let mut row_i: usize = 0;
            proof {
                assert(overlay_upto(base, *w, 0) =~= base);
            }
            while row_i < buff.len()
                invariant
                    row_i <= buff@.len(),
                    buff@.len() == w.visible_rows(),
                    forall|j: int| 0 <= j < buff@.len() ==> (#[trigger] buff@[j])@ == rendered_row(
                        *w,
                        j,
                    ),
                    strings_view(screen@) == overlay_upto(base, *w, row_i as int),
                    screen_dims(strings_view(screen@), self.size),
                decreases buff@.len() - row_i,
            {
                proof {
                    lemma_rendered_row_len(*w, row_i as int);
                }
                let y = pos.y + row_i;
                let ghost pre = strings_view(screen@);
                proof {
                    assert(pre.len() == screen@.len());
                    assert(pre[y as int] == screen@[y as int]@);
                    assert(pre[y as int].len() == self.size.width as int);
                }
                let old_row = &screen[y];
                let row_len = old_row.as_str().unicode_len();
                let mut new_row = old_row.as_str().substring_char(0, pos.x).to_owned();
                new_row.append(buff[row_i].as_str());
                let content_len = buff[row_i].as_str().unicode_len();
                let mut p = content_len;
                proof {
                    reveal_strlit(" ");
                }
                while p < width
                    invariant
                        content_len <= p <= width,
                        new_row@ =~= pre[pos.y + row_i].subrange(0, pos.x as int) + buff@[row_i as int]@ + spaces(p - content_len),
                        content_len == buff@[row_i as int]@.len(),
                    decreases width - p,
                {
                    new_row.append(" ");
                    proof {
                        reveal_strlit(" ");
                        assert(new_row@ =~= pre[pos.y + row_i].subrange(0, pos.x as int) + buff@[row_i as int]@ + spaces(p + 1 - content_len));
                    }
                    p = p + 1;
                }
                new_row.append(old_row.as_str().substring_char(pos.x + width, row_len));
                proof {
                    assert(new_row@ =~= overlay_row(
                        pre[pos.y + row_i],
                        pos.x as int,
                        rendered_row(*w, row_i as int),
                        width as int,
                    ));
                }
                let target = string_at_mut(&mut screen, y);
                *target = new_row;
                proof {
                    let cur = strings_view(screen@);
                    let nxt = overlay_upto(base, *w, row_i + 1);
                    let prev_view = overlay_upto(base, *w, row_i as int);
                    assert(cur.len() == nxt.len());
                    assert forall|r: int| 0 <= r < cur.len() implies cur[r] == nxt[r] by {
                        assert(pre[r] == prev_view[r]);
                        if r == y as int {
                            assert(cur[r] == new_row@);
                            assert(pre[r] == base[r]);
                        } else {
                            assert(cur[r] == pre[r]);
                        }
                    }
                    assert(cur =~= nxt);
                    lemma_overlay_upto_dims(base, *w, row_i + 1, self.size);
                }
                row_i = row_i + 1;
            }
            proof {
                assert(strings_view(screen@) == overlay_window(base, *w));
                lemma_composite_push(
                    blank_screen(self.size),
                    windows@.subrange(0, wi as int),
                    windows@[wi as int],
                );
                assert(windows@.subrange(0, wi + 1) =~= windows@.subrange(0, wi as int).push(
                    windows@[wi as int],
                ));
                lemma_overlay_upto_dims(base, *w, (*w).visible_rows(), self.size);
            }
            wi = wi + 1;
        }
        proof {
            assert(windows@.subrange(0, windows@.len() as int) =~= windows@);
        }
        screen
    }

    /// Appends a new window over `doc`, with the manager's fixed default
    /// size and screen position.
    pub fn new_window(&self, windows: &mut Vec<Window>, doc: Document)
        ensures
            final(windows)@.len() == old(windows)@.len() + 1,
            final(windows)@.subrange(0, old(windows)@.len() as int) == old(windows)@,
            final(windows)@.last().doc == doc,
            final(windows)@.last().size == (Size { width: 30, height: 10 }),
            final(windows)@.last().position == (Position { x: 0, y: 0 }),
            final(windows)@.last().visible_area.x_range == (0usize, 30usize),
            final(windows)@.last().visible_area.y_range == (0usize, 10usize),
            final(windows)@.last().wf(),
    {
        let window = Window::new(
            doc,
            Size { width: 30, height: 10 },
            Position { x: 0, y: 0 },
        );
        windows.push(window);
        proof {
            assert(final(windows)@.subrange(0, old(windows)@.len() as int) =~= old(windows)@);
        }
    }

    pub fn is_empty(&self, windows: &Vec<Window>) -> (r: bool)
        ensures
            r == (windows@.len() == 0),
    {
        windows.len() == 0
    }
}

} // verus!
