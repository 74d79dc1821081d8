//! A single line of text. All positions are character indices (not byte
//! offsets), so multi-byte text is never split in the middle of a character.

use vstd::prelude::*;

verus! {

#[derive(Clone)]
pub struct Row {
    pub content: String,
}

impl View for Row {
    type V = Seq<char>;

    open spec fn view(&self) -> Seq<char> {
        self.content@
    }
}

/// Relies on `String::push`: appends one character at the end of the string.
#[verifier::external_body]
pub(crate) fn push_char(s: &mut String, c: char)
    ensures
        final(s)@ == old(s)@.push(c),
{
    s.push(c)
}

/// The substring of `line` between `start` and `end`, once both are clipped
/// to the line: `end` is floored to the line length, and `start` is floored
/// to the clipped `end`, so the result is empty rather than an error when the
/// requested range lies outside the line.
pub open spec fn render_spec(line: Seq<char>, start: int, end: int) -> Seq<char> {
    let e = if end > line.len() { line.len() as int } else { end };
    let s = if start > e { e } else { start };
    line.subrange(s, e)
}

impl Row {
    /// A row holding the characters of `value`.
    pub fn from_line(value: &str) -> (r: Self)
        ensures
            r@ == value@,
    {
        Row { content: value.to_owned() }
    }
}

impl From<&str> for Row {
    fn from(value: &str) -> (r: Self)
        ensures
            r@ == value@,
    {
        Row::from_line(value)
    }
}

// `String` is opaque to spec code, so the exact `Row` value cannot be named
// here; the `ensures` on `Row::from` above carries the whole contract.
impl vstd::std_specs::convert::FromSpecImpl<&str> for Row {
    open spec fn obeys_from_spec() -> bool {
        false
    }

    open spec fn from_spec(value: &str) -> Self {
        arbitrary()
    }
}

impl Row {
    /// The substring of the content clipped to `[0, content.len()]`; an
    /// out-of-range or inverted request yields an empty string, never a panic.
    pub fn render(&self, start: usize, end: usize) -> (r: String)
        ensures
            r@ == render_spec(self@, start as int, end as int),
            r@.len() <= self@.len(),
            start >= self@.len() ==> r@.len() == 0,
    {
        let n = self.content.as_str().unicode_len();
        let e = if end < n { end } else { n };
        let s = if start < e { start } else { e };
        let sub = self.content.as_str().substring_char(s, e);
        sub.to_owned()
    }

    /// Inserts `c` immediately before character index `pos`; `pos` past the
    /// end of the line is a caller error.
    pub fn insert_char(&mut self, pos: usize, c: char)
        requires
            pos <= old(self)@.len(),
        ensures
            final(self)@ == old(self)@.insert(pos as int, c),
    {
        let n = self.content.as_str().unicode_len();
        let mut s = self.content.as_str().substring_char(0, pos).to_owned();
        push_char(&mut s, c);
        s.append(self.content.as_str().substring_char(pos, n));
        proof {
            assert(s@ =~= old(self)@.insert(pos as int, c));
        }
        self.content = s;
    }

    /// Removes the character at index `pos`; `pos` at or past the end of the
    /// line is a caller error.
    pub fn remove_char(&mut self, pos: usize)
        requires
            pos < old(self)@.len(),
        ensures
            final(self)@ == old(self)@.remove(pos as int),
    {
        let n = self.content.as_str().unicode_len();
        let mut s = self.content.as_str().substring_char(0, pos).to_owned();
        s.append(self.content.as_str().substring_char(pos + 1, n));
        proof {
            assert(s@ =~= old(self)@.remove(pos as int));
        }
        self.content = s;
    }

    /// The offset, relative to `pos`, of the first space character at or
    /// after `pos`, or `None` when the rest of the line holds no space.
    pub fn next_word_index(&self, pos: usize) -> (r: Option<usize>)
        requires
            pos <= self@.len(),
        ensures
            match r {
                Some(k) => {
                    &&& pos + k < self@.len()
                    &&& self@[pos + k] == ' '
                    &&& forall|j: int| pos <= j < pos + k ==> self@[j] != ' '
                },
                None => forall|j: int| pos <= j < self@.len() ==> self@[j] != ' ',
            },
    {
        let n = self.content.as_str().unicode_len();
        let mut i: usize = pos;
        while i < n
            invariant
                pos <= i <= n,
                n == self@.len(),
                forall|j: int| pos <= j < i ==> self@[j] != ' ',
            decreases n - i,
        {
            if self.content.as_str().get_char(i) == ' ' {
                return Some(i - pos);
            }
            i = i + 1;
        }
        None
    }

    /// Inserting a character and removing it again at the same position is a
    /// round trip: the line is exactly what it was.
    pub proof fn lemma_insert_remove_roundtrip(line: Seq<char>, pos: int, c: char)
        requires
            0 <= pos <= line.len(),
        ensures
            line.insert(pos, c).remove(pos) == line,
    {
        assert(line.insert(pos, c).remove(pos) =~= line);
    }
}

} // verus!
