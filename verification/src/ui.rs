//! What the command line shows in tables.

use crate::text::{join, joined, repeat, repeated, views};
use core::time::Duration;
use vstd::prelude::*;
use vstd::utf8::encode_utf8;

verus! {

/// The length of a text in bytes.
pub open spec fn byte_len(s: Seq<char>) -> usize {
    encode_utf8(s).len() as usize
}

/// The text filled up with spaces to `width` characters.
pub open spec fn padded(s: Seq<char>, width: usize) -> Seq<char> {
    if s.len() >= width {
        s
    } else {
        s + repeated(" "@, (width - s.len()) as nat)
    }
}

/// The widths of the columns once a row of cells has come: a column that the
/// row has a cell for is as wide as its widest cell so far, in bytes.
pub open spec fn widened(widths: Seq<usize>, row: Seq<Seq<char>>) -> Seq<usize> {
    Seq::new(
        widths.len(),
        |i: int|
            if i < row.len() && byte_len(row[i]) > widths[i] {
                byte_len(row[i])
            } else {
                widths[i]
            },
    )
}

/// The cells of a row, each filled up to the width of its column; a cell
/// beyond the columns, to its own length in bytes.
pub open spec fn padded_cells(row: Seq<Seq<char>>, widths: Seq<usize>) -> Seq<Seq<char>> {
    Seq::new(
        row.len(),
        |i: int|
            padded(
                row[i],
                if i < widths.len() {
                    widths[i]
                } else {
                    byte_len(row[i])
                },
            ),
    )
}

/// The line of a row.
pub open spec fn row_line(row: Seq<Seq<char>>, widths: Seq<usize>) -> Seq<char> {
    "│ "@ + joined(padded_cells(row, widths), " │ "@) + " │"@
}

/// The line between the headers and the rows.
pub open spec fn separator_line(widths: Seq<usize>) -> Seq<char> {
    "├─"@ + joined(Seq::new(widths.len(), |i: int| repeated("─"@, widths[i] as nat)), "─┼─"@)
        + "─┤"@
}

/// A table of texts.
#[derive(Debug)]
pub struct Table {
    headers: Vec<String>,
    rows: Vec<Vec<String>>,
    max_widths: Vec<usize>,
}

fn pad(s: &str, width: usize) -> (r: String)
    ensures
        r@ == padded(s@, width),
{
    let n = s.unicode_len();
    if n >= width {
        s.to_string()
    } else {
        let mut r = s.to_string();
        r.append(repeat(" ", width - n).as_str());
        r
    }
}

fn texts(items: &Vec<&str>) -> (r: Vec<String>)
    ensures
        r@.len() == items@.len(),
        forall|i: int| 0 <= i < r@.len() ==> (#[trigger] r@[i])@ == items@[i]@,
{
    let mut r: Vec<String> = Vec::new();
    let mut i: usize = 0;
    while i < items.len()
        invariant
            i <= items.len(),
            r@.len() == i,
            forall|k: int| 0 <= k < i ==> (#[trigger] r@[k])@ == items@[k]@,
        decreases items.len() - i,
    {
        r.push(items[i].to_string());
        i += 1;
    }
    r
}

impl Table {
    #[verifier::type_invariant]
    spec fn in_order(&self) -> bool {
        self.max_widths@.len() == self.headers@.len()
    }

    /// The headers of the table.
    pub closed spec fn headers(&self) -> Seq<Seq<char>> {
        views(self.headers@)
    }

    /// The rows of the table, in the order in which they came.
    pub closed spec fn rows(&self) -> Seq<Seq<Seq<char>>> {
        Seq::new(self.rows@.len(), |i: int| views(self.rows@[i]@))
    }

    /// The widths of the columns, in bytes.
    pub closed spec fn widths(&self) -> Seq<usize> {
        self.max_widths@
    }

    /// A table with the given headers and no rows; each column is as wide as
    /// its header.
    pub fn new(headers: Vec<&str>) -> (r: Table)
        ensures
            r.headers().len() == headers@.len(),
            forall|i: int| 0 <= i < headers@.len() ==> r.headers()[i] == headers@[i]@,
            r.rows().len() == 0,
            r.widths().len() == headers@.len(),
            forall|i: int| 0 <= i < headers@.len() ==> r.widths()[i] == byte_len(headers@[i]@),
    {
        let owned = texts(&headers);
        let mut max_widths: Vec<usize> = Vec::new();
        let mut i: usize = 0;
        while i < owned.len()
            invariant
                i <= owned.len(),
                owned@.len() == headers@.len(),
                forall|k: int| 0 <= k < owned@.len() ==> (#[trigger] owned@[k])@ == headers@[k]@,
                max_widths@.len() == i,
                forall|k: int| 0 <= k < i ==> max_widths@[k] == byte_len(headers@[k]@),
            decreases owned.len() - i,
        {
            max_widths.push(owned[i].as_str().len());
            i += 1;
        }
        Table { headers: owned, rows: Vec::new(), max_widths }
    }

    /// Adds a row; the columns grow to hold its cells.
    pub fn add_row(&mut self, row: Vec<&str>)
        ensures
            final(self).headers() == old(self).headers(),
            final(self).rows().len() == old(self).rows().len() + 1,
            forall|i: int|
                0 <= i < old(self).rows().len() ==> final(self).rows()[i] == old(self).rows()[i],
            final(self).rows()[old(self).rows().len() as int].len() == row@.len(),
            forall|j: int|
                0 <= j < row@.len() ==> final(self).rows()[old(self).rows().len() as int][j]
                    == row@[j]@,
            final(self).widths() == widened(
                old(self).widths(),
                Seq::new(row@.len(), |j: int| row@[j]@),
            ),
    {
        proof {
            use_type_invariant(&*self);
        }
        let owned = texts(&row);
        let ghost cells = Seq::new(row@.len(), |j: int| row@[j]@);
        let ghost before = self.max_widths@;
        let mut widths: Vec<usize> = Vec::new();
        let mut i: usize = 0;
        while i < self.max_widths.len()
            invariant
                i <= self.max_widths.len(),
                self.max_widths@ == before,
                owned@.len() == row@.len(),
                cells == Seq::new(row@.len(), |j: int| row@[j]@),
                forall|k: int| 0 <= k < owned@.len() ==> (#[trigger] owned@[k])@ == row@[k]@,
                widths@.len() == i,
                forall|k: int| 0 <= k < i ==> widths@[k] == widened(before, cells)[k],
            decreases self.max_widths.len() - i,
        {
            let mut w = self.max_widths[i];
            if i < owned.len() {
                let n = owned[i].as_str().len();
                assert(n == byte_len(cells[i as int]));
                if n > w {
                    w = n;
                }
            }
            widths.push(w);
            i += 1;
        }
        assert(widths@ =~= widened(before, cells));
        let mut headers: Vec<String> = Vec::new();
        let mut h: usize = 0;
        while h < self.headers.len()
            invariant
                h <= self.headers.len(),
                headers@.len() == h,
                forall|k: int| 0 <= k < h ==> (#[trigger] headers@[k])@ == self.headers@[k]@,
            decreases self.headers.len() - h,
        {
            headers.push(self.headers[h].clone());
            h += 1;
        }
        assert(views(headers@) =~= views(self.headers@));
        let mut rows: Vec<Vec<String>> = Vec::new();
        let mut r: usize = 0;
        while r < self.rows.len()
            invariant
                r <= self.rows.len(),
                rows@.len() == r,
                forall|k: int| 0 <= k < r ==> views((#[trigger] rows@[k])@) == views(self.rows@[k]@),
            decreases self.rows.len() - r,
        {
            let source = &self.rows[r];
            let mut copy: Vec<String> = Vec::new();
            let mut c: usize = 0;
            while c < source.len()
                invariant
                    c <= source.len(),
                    copy@.len() == c,
                    forall|k: int| 0 <= k < c ==> (#[trigger] copy@[k])@ == source@[k]@,
                decreases source.len() - c,
            {
                copy.push(source[c].clone());
                c += 1;
            }
            assert(views(copy@) =~= views(source@));
            rows.push(copy);
            r += 1;
        }
        let ghost old_rows = self.rows();
        assert(views(owned@) =~= cells);
        rows.push(owned);
        *self = Table { headers, rows, max_widths: widths };
        assert(self.rows().len() == old_rows.len() + 1);
        assert forall|i: int| 0 <= i < old_rows.len() implies self.rows()[i] == old_rows[i] by {}
    }

    /// The lines of the table: the headers, the separator, the rows.
    pub fn print(&self) -> (r: Vec<String>)
        ensures
            r@.len() == self.rows().len() + 2,
            r@[0]@ == row_line(self.headers(), self.widths()),
            r@[1]@ == separator_line(self.widths()),
            forall|i: int|
                0 <= i < self.rows().len() ==> (#[trigger] r@[i + 2])@ == row_line(
                    self.rows()[i],
                    self.widths(),
                ),
    {
        proof {
            use_type_invariant(self);
        }
        let mut lines: Vec<String> = Vec::new();
        lines.push(self.line_of(&self.headers));
        let mut bars: Vec<String> = Vec::new();
        let mut i: usize = 0;
        while i < self.max_widths.len()
            invariant
                i <= self.max_widths.len(),
                bars@.len() == i,
                forall|k: int|
                    0 <= k < i ==> (#[trigger] bars@[k])@ == repeated(
                        "─"@,
                        self.max_widths@[k] as nat,
                    ),
            decreases self.max_widths.len() - i,
        {
            bars.push(repeat("─", self.max_widths[i]));
            i += 1;
        }
        assert(views(bars@) =~= Seq::new(
            self.max_widths@.len(),
            |i: int| repeated("─"@, self.max_widths@[i] as nat),
        ));
        let mut separator = "├─".to_string();
        separator.append(join(&bars, "─┼─").as_str());
        separator.append("─┤");
        lines.push(separator);
        let mut r: usize = 0;
        while r < self.rows.len()
            invariant
                r <= self.rows.len(),
                lines@.len() == r + 2,
                lines@[0]@ == row_line(self.headers(), self.widths()),
                lines@[1]@ == separator_line(self.widths()),
                forall|k: int|
                    0 <= k < r ==> (#[trigger] lines@[k + 2])@ == row_line(
                        self.rows()[k],
                        self.widths(),
                    ),
            decreases self.rows.len() - r,
        {
            lines.push(self.line_of(&self.rows[r]));
            r += 1;
        }
        lines
    }

    fn line_of(&self, cells: &Vec<String>) -> (r: String)
        ensures
            r@ == row_line(views(cells@), self.widths()),
    {
        let mut shown: Vec<String> = Vec::new();
        let mut i: usize = 0;
        while i < cells.len()
            invariant
                i <= cells.len(),
                shown@.len() == i,
                forall|k: int|
                    0 <= k < i ==> (#[trigger] shown@[k])@ == padded_cells(
                        views(cells@),
                        self.max_widths@,
                    )[k],
            decreases cells.len() - i,
        {
            let width = if i < self.max_widths.len() {
                self.max_widths[i]
            } else {
                cells[i].as_str().len()
            };
            shown.push(pad(cells[i].as_str(), width));
            i += 1;
        }
        assert(views(shown@) =~= padded_cells(views(cells@), self.max_widths@));
        let mut r = "│ ".to_string();
        r.append(join(&shown, " │ ").as_str());
        r.append(" │");
        r
    }
}

/// Runs `task` and hands back what it gives. The spinner that is shown
/// meanwhile is drawn by the caller; `message` is its text.
pub fn show_loading<F: FnOnce() -> R, R>(message: &str, _duration: Duration, task: F) -> (r: R)
    requires
        task.requires(()),
    ensures
        task.ensures((), r),
{
    task()
}

} // verus!
