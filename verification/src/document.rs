//! The ordered line buffer of an open text source. Rows keep their
//! construction order, which is the on-screen vertical order. Edits are
//! addressed by a [`Position`]: an edit whose row does not exist is a silent
//! no-op, while an edit past the end of an existing row is a caller error.

use crate::position::Position;
use crate::row::Row;
use vstd::prelude::*;

verus! {

#[derive(Clone)]
pub struct Document {
    pub rows: Vec<Row>,
}

impl View for Document {
    type V = Seq<Seq<char>>;

    open spec fn view(&self) -> Seq<Seq<char>> {
        self.rows@.map_values(|r: Row| r@)
    }
}

impl Default for Document {
    fn default() -> (r: Self)
        ensures
            r@ =~= Seq::<Seq<char>>::empty(),
    {
        Document { rows: Vec::new() }
    }
}

fn row_at_mut(rows: &mut Vec<Row>, i: usize) -> (element: &mut Row)
    requires
        i < old(rows).len(),
    ensures
        *element == old(rows)@[i as int],
        final(rows)@ == old(rows)@.update(i as int, *final(element)),
{
    &mut rows[i]
}

impl Document {
    /// Bounds-checked read: the row at `index` exactly as it was built, or
    /// `None` at or past the line count.
    pub fn row(&self, index: usize) -> (r: Option<&Row>)
        ensures
            match r {
                Some(row) => index < self@.len() && row@ == self@[index as int],
                None => index >= self@.len(),
            },
    {
        if index < self.rows.len() {
            Some(&self.rows[index])
        } else {
            None
        }
    }

    /// Inserts `c` before column `pos.x` of row `pos.y`. A `pos.y` with no
    /// row is swallowed (stale cursors must not corrupt the buffer); a
    /// `pos.x` past the end of an existing row is a caller error.
    pub fn insert_char(&mut self, pos: &Position, c: char)
        requires
            pos.y < old(self)@.len() ==> pos.x <= old(self)@[pos.y as int].len(),
        ensures
            pos.y < old(self)@.len() ==> final(self)@ == old(self)@.update(
                pos.y as int,
                old(self)@[pos.y as int].insert(pos.x as int, c),
            ),
            pos.y >= old(self)@.len() ==> final(self)@ == old(self)@,
    {
        if pos.y < self.rows.len() {
            let row = row_at_mut(&mut self.rows, pos.y);
            row.insert_char(pos.x, c);
            proof {
                assert(self@ =~= old(self)@.update(
                    pos.y as int,
                    old(self)@[pos.y as int].insert(pos.x as int, c),
                ));
            }
        } else {
            proof {
                assert(self@ =~= old(self)@);
            }
        }
    }

    /// Removes the character at column `pos.x` of row `pos.y`. A `pos.y`
    /// with no row is swallowed; a `pos.x` with no character in an existing
    /// row is a caller error.
    pub fn remove_char(&mut self, pos: &Position)
        requires
            pos.y < old(self)@.len() ==> pos.x < old(self)@[pos.y as int].len(),
        ensures
            pos.y < old(self)@.len() ==> final(self)@ == old(self)@.update(
                pos.y as int,
                old(self)@[pos.y as int].remove(pos.x as int),
            ),
            pos.y >= old(self)@.len() ==> final(self)@ == old(self)@,
    {
        if pos.y < self.rows.len() {
            let row = row_at_mut(&mut self.rows, pos.y);
            row.remove_char(pos.x);
            proof {
                assert(self@ =~= old(self)@.update(
                    pos.y as int,
                    old(self)@[pos.y as int].remove(pos.x as int),
                ));
            }
        } else {
            proof {
                assert(self@ =~= old(self)@);
            }
        }
    }

    pub fn is_empty(&self) -> (r: bool)
        ensures
            r == (self@.len() == 0),
    {
        self.rows.len() == 0
    }

    pub fn lines_len(&self) -> (r: usize)
        ensures
            r == self@.len(),
    {
        self.rows.len()
    }
}

impl Document {
    /// A document whose rows are `value`'s lines, in order.
    pub fn from_lines(value: Vec<&str>) -> (r: Self)
        ensures
            r@ == value@.map_values(|s: &str| s@),
    {
        let mut rows: Vec<Row> = Vec::new();
        let mut i: usize = 0;
        while i < value.len()
            invariant
                i <= value.len(),
                rows@.map_values(|r: Row| r@) =~= value@.subrange(0, i as int).map_values(
                    |s: &str| s@,
                ),
            decreases value.len() - i,
        {
            let new_row = Row::from_line(value[i]);
            let ghost prev_rows = rows@;
            rows.push(new_row);
            proof {
                let lhs = rows@.map_values(|r: Row| r@);
                let rhs = value@.subrange(0, i + 1 as int).map_values(|s: &str| s@);
                let prev_lhs = prev_rows.map_values(|r: Row| r@);
                let prev_rhs = value@.subrange(0, i as int).map_values(|s: &str| s@);
                assert(prev_lhs.len() == i);
                assert(lhs.len() == rhs.len());
                assert forall|j: int| 0 <= j < lhs.len() implies lhs[j] == rhs[j] by {
                    if j < i {
                        assert(prev_lhs[j] == prev_rhs[j]);
                        assert(rows@[j] == prev_rows[j]);
                    } else {
                        assert(rows@[j] == new_row);
                    }
                }
                assert(lhs =~= rhs);
            }
            i = i + 1;
        }
        proof {
            assert(value@.subrange(0, value@.len() as int) =~= value@);
        }
        let d = Document { rows };
        proof {
            assert(d@ =~= value@.map_values(|s: &str| s@));
        }
        d
    }
}

/// The index of the first newline character of `s`, or `s.len()` when it
/// holds none.
pub open spec fn first_newline(s: Seq<char>) -> nat
    decreases s.len(),
{
    if s.len() == 0 {
        0
    } else if s[0] == '\n' {
        0
    } else {
        1 + first_newline(s.drop_first())
    }
}

/// A line with a carriage return left by a CRLF terminator dropped from its
/// end.
pub open spec fn strip_cr(line: Seq<char>) -> Seq<char> {
    if line.len() > 0 && line[line.len() - 1] == '\r' {
        line.drop_last()
    } else {
        line
    }
}

/// The lines of `s`, split at `\n` (a preceding `\r` belongs to the
/// terminator and is dropped), in order, empty lines preserved and the
/// final terminator optional: text ending in `\n` yields no extra empty
/// line, and a final line without a terminator is kept whole.
pub open spec fn split_lines(s: Seq<char>) -> Seq<Seq<char>>
    decreases s.len(),
{
    if s.len() == 0 {
        Seq::empty()
    } else {
        let i = first_newline(s);
        if i >= s.len() {
            seq![s]
        } else {
            seq![strip_cr(s.subrange(0, i as int))] + split_lines(
                s.subrange(i + 1 as int, s.len() as int),
            )
        }
    }
}

proof fn lemma_first_newline_at(s: Seq<char>, k: int)
    requires
        0 <= k <= s.len(),
        forall|j: int| 0 <= j < k ==> s[j] != '\n',
        k < s.len() ==> s[k] == '\n',
    ensures
        first_newline(s) == k,
    decreases s.len(),
{
    if k == 0 {
    } else {
        assert(s[0] != '\n');
        lemma_first_newline_at(s.drop_first(), k - 1);
    }
}

proof fn lemma_split_lines_step(s: Seq<char>, k: int)
    requires
        0 <= k < s.len(),
        s[k] == '\n',
        forall|j: int| 0 <= j < k ==> s[j] != '\n',
    ensures
        split_lines(s) == seq![strip_cr(s.subrange(0, k))] + split_lines(
            s.subrange(k + 1, s.len() as int),
        ),
{
    lemma_first_newline_at(s, k);
}

proof fn lemma_split_lines_last(s: Seq<char>)
    requires
        s.len() > 0,
        forall|j: int| 0 <= j < s.len() ==> s[j] != '\n',
    ensures
        split_lines(s) == seq![s],
{
    lemma_first_newline_at(s, s.len() as int);
}

proof fn lemma_rows_view_push(rows: Seq<Row>, new_row: Row)
    ensures
        rows.push(new_row).map_values(|x: Row| x@) == rows.map_values(|x: Row| x@).push(new_row@),
{
    let lhs = rows.push(new_row).map_values(|x: Row| x@);
    let rhs = rows.map_values(|x: Row| x@).push(new_row@);
    assert forall|j: int| 0 <= j < lhs.len() implies lhs[j] == rhs[j] by {
        if j < rows.len() {
            assert(rows.push(new_row)[j] == rows[j]);
        }
    }
    assert(lhs =~= rhs);
}

impl Document {
    /// A document built from a text source: its rows are `text`'s lines in
    /// order, exactly as [`split_lines`] states, with only the line
    /// terminators themselves excluded.
    pub fn from_text(text: &str) -> (d: Self)
        ensures
            d@ == split_lines(text@),
    {
        let n = text.unicode_len();
        let mut rows: Vec<Row> = Vec::new();
        let mut start: usize = 0;
        let mut i: usize = 0;
        proof {
            assert(text@.subrange(0, n as int) =~= text@);
            assert(rows@.map_values(|x: Row| x@) + split_lines(text@) =~= split_lines(text@));
        }
        while i < n
            invariant
                start <= i <= n,
                n == text@.len(),
                rows@.map_values(|x: Row| x@) + split_lines(
                    text@.subrange(start as int, n as int),
                ) == split_lines(text@),
                forall|j: int| start <= j < i ==> text@[j] != '\n',
            decreases n - i,
        {
            let ch = text.get_char(i);
            if ch == '\n' {
                let mut end = i;
                if end > start && text.get_char(end - 1) == '\r' {
                    end = end - 1;
                }
                let line = text.substring_char(start, end).to_owned();
                proof {
                    let u = text@.subrange(start as int, n as int);
                    let k = i - start;
                    assert(u[k as int] == text@[i as int]);
                    assert forall|j: int| 0 <= j < k implies u[j] != '\n' by {
                        assert(u[j] == text@[start + j]);
                    }
                    lemma_split_lines_step(u, k as int);
                    assert(u.subrange(0, k as int) =~= text@.subrange(start as int, i as int));
                    assert(line@ =~= strip_cr(u.subrange(0, k as int)));
                    assert(u.subrange(k + 1 as int, u.len() as int) =~= text@.subrange(
                        i + 1 as int,
                        n as int,
                    ));
                    lemma_rows_view_push(rows@, Row { content: line });
                    assert(rows@.push(Row { content: line }).map_values(|x: Row| x@)
                        + split_lines(text@.subrange(i + 1 as int, n as int)) =~= rows@.map_values(
                        |x: Row| x@,
                    ) + split_lines(u));
                }
                rows.push(Row { content: line });
                start = i + 1;
            }
            i = i + 1;
        }
        if start < n {
            let line = text.substring_char(start, n).to_owned();
            proof {
                let u = text@.subrange(start as int, n as int);
                assert forall|j: int| 0 <= j < u.len() implies u[j] != '\n' by {
                    assert(u[j] == text@[start + j]);
                }
                lemma_split_lines_last(u);
                lemma_rows_view_push(rows@, Row { content: line });
                assert(rows@.push(Row { content: line }).map_values(|x: Row| x@)
                    =~= rows@.map_values(|x: Row| x@) + split_lines(u));
            }
            rows.push(Row { content: line });
        } else {
            proof {
                assert(text@.subrange(start as int, n as int) =~= Seq::<char>::empty());
                assert(rows@.map_values(|x: Row| x@) + split_lines(
                    text@.subrange(start as int, n as int),
                ) =~= rows@.map_values(|x: Row| x@));
            }
        }
        Document { rows }
    }
}

impl From<Vec<&str>> for Document {
    fn from(value: Vec<&str>) -> (r: Self)
        ensures
            r@ == value@.map_values(|s: &str| s@),
    {
        Document::from_lines(value)
    }
}

// `String` is opaque to spec code, so the exact `Document` value cannot be
// named here; the `ensures` on `Document::from` above carries the whole
// contract.
impl vstd::std_specs::convert::FromSpecImpl<Vec<&str>> for Document {
    open spec fn obeys_from_spec() -> bool {
        false
    }

    open spec fn from_spec(value: Vec<&str>) -> Self {
        arbitrary()
    }
}

} // verus!
