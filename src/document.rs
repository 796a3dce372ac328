//! The document: the ordered lines of a file, read-only once loaded.

use vstd::prelude::*;

verus! {

/// The line ending that the terminal needs after each row.
pub open spec fn crlf() -> Seq<char> {
    "\r\n"@
}

/// The lines `rows`, each followed by a line ending, one after the other.
pub open spec fn rows_text(rows: Seq<Seq<char>>) -> Seq<char>
    decreases rows.len(),
{
    if rows.len() == 0 {
        Seq::empty()
    } else {
        rows_text(rows.drop_last()) + rows.last() + crlf()
    }
}

/// Misuse of a row index.
#[derive(Clone, Copy, Debug, PartialEq, Eq, Structural)]
pub enum DocumentError {
    /// The row asked for is at or past the end of the document.
    OutOfRange,
}

/// An ordered sequence of lines, in file order, without line endings.
pub struct Document {
    rows: Vec<String>,
}

impl View for Document {
    type V = Seq<Seq<char>>;

    closed spec fn view(&self) -> Seq<Seq<char>> {
        self.rows@.map_values(|s: String| s@)
    }
}

impl Default for Document {
    fn default() -> (r: Document)
        ensures
            r@ == Seq::<Seq<char>>::empty(),
    {
        Document::new()
    }
}

impl Document {
    /// An empty document.
    pub fn new() -> (r: Document)
        ensures
            r@ == Seq::<Seq<char>>::empty(),
    {
        let r = Document { rows: Vec::new() };
        assert(r@ =~= Seq::<Seq<char>>::empty());
        r
    }

    /// Replaces all rows at once by `lines`, in their order.
    pub fn load(&mut self, lines: Vec<String>)
        ensures
            final(self)@ == lines@.map_values(|s: String| s@),
    {
        self.rows = lines;
        assert(self@ =~= lines@.map_values(|s: String| s@));
    }

    /// All rows, each followed by `\r\n`.
    pub fn read_rows(&self) -> (r: String)
        ensures
            r@ == rows_text(self@),
    {
        let mut text_string = String::new();
        let mut i: usize = 0;
        while i < self.rows.len()
            invariant
                i <= self.rows.len(),
                text_string@ == rows_text(self@.subrange(0, i as int)),
            decreases self.rows.len() - i,
        {
            text_string.append(self.rows[i].as_str());
            text_string.append("\r\n");
            proof {
                let s = self@.subrange(0, i + 1);
                assert(s.drop_last() =~= self@.subrange(0, i as int));
                assert(s.last() == self.rows@[i as int]@);
            }
            i = i + 1;
        }
        assert(self@.subrange(0, i as int) =~= self@);
        text_string
    }

    /// Row `i` followed by `\r\n`; `OutOfRange` when the document has no
    /// row `i`.
    pub fn read_row(&self, i: usize) -> (r: Result<String, DocumentError>)
        ensures
            i < self@.len() ==> r is Ok && r->Ok_0@ == self@[i as int] + crlf(),
            i >= self@.len() ==> r == Err::<String, DocumentError>(DocumentError::OutOfRange),
    {
        if i >= self.rows.len() {
            return Err(DocumentError::OutOfRange);
        }
        let mut text = self.rows[i].clone();
        text.append("\r\n");
        Ok(text)
    }

    /// The number of rows.
    pub fn number_rows(&self) -> (r: usize)
        ensures
            r == self@.len(),
    {
        self.rows.len()
    }

    /// The length of row `i` in characters; 0 when there is no row `i`.
    pub fn row_len(&self, i: usize) -> (r: usize)
        ensures
            r == (if i < self@.len() { self@[i as int].len() } else { 0 }),
    {
        if i < self.rows.len() {
            self.rows[i].as_str().unicode_len()
        } else {
            0
        }
    }

    /// Empties the document; doing it again changes nothing.
    pub fn close_document(&mut self)
        ensures
            final(self)@ == Seq::<Seq<char>>::empty(),
    {
        self.rows = Vec::new();
        assert(self@ =~= Seq::<Seq<char>>::empty());
    }
}

} // verus!
