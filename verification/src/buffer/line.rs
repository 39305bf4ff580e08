//! One row of a terminal.

use crate::buffer::cell::{Cell, CellView};
use crate::cursor::Cursor;
use crate::output::{DrawOp, Output};
use crate::style::Style;
use crate::vec2::Vec2;
use crate::width::{char_width, display_width};
use vstd::prelude::*;
use vstd::string::StringExecFns;

verus! {

/// The invariant of a row: it has at most 65535 cells, each of them well formed; a
/// continuation cell stands exactly behind each double-width glyph, and the last cell
/// holds no double-width glyph.
pub open spec fn line_wf(l: Seq<CellView>) -> bool {
    &&& l.len() <= u16::MAX
    &&& forall|i: int| 0 <= i < l.len() ==> (#[trigger] l[i]).wf()
    &&& forall|i: int|
        0 <= i < l.len() ==> ((#[trigger] l[i]) is Continuation <==> (i > 0 && l[i - 1].is_wide()))
    &&& l.len() > 0 ==> !l.last().is_wide()
}

/// The row after a glyph of one column was written at `x`, which is within the row.
///
/// Where the glyph replaces the first half of a double-width glyph, the second half
/// becomes a space in the style of the glyph that was replaced. Where it replaces the
/// second half, the first half becomes a space in its own style.
pub open spec fn write_narrow(l: Seq<CellView>, x: int, c: char, style: Style) -> Seq<CellView> {
    let written = l.update(x, CellView::glyph(c, false, style));
    match l[x] {
        CellView::Char { double, style: old_style, .. } => if double {
            written.update(x + 1, CellView::blank(old_style))
        } else {
            written
        },
        CellView::Continuation => written.update(x - 1, l[x - 1].demoted()),
    }
}

/// The row after a glyph of two columns was written at `x` and `x + 1`, both of which
/// are within the row.
///
/// Whatever half of a double-width glyph is left at `x - 1` or at `x + 2` becomes a
/// space in the style of that glyph.
pub open spec fn write_wide(l: Seq<CellView>, x: int, c: char, style: Style) -> Seq<CellView> {
    let written = l.update(x + 1, CellView::Continuation).update(
        x,
        CellView::glyph(c, true, style),
    );
    let before = if l[x] is Continuation {
        written.update(x - 1, l[x - 1].demoted())
    } else {
        written
    };
    match l[x + 1] {
        CellView::Char { double, style: old_style, .. } => if double {
            before.update(x + 2, CellView::blank(old_style))
        } else {
            before
        },
        CellView::Continuation => before,
    }
}

/// The row after the character was written at column `x`.
///
/// - The null character, a control character and a character wider than two columns
///   change nothing.
/// - A character of no width is added to the glyph at `x`; outside the row and on a
///   continuation cell it changes nothing.
/// - A character of one column replaces the cell at `x`; outside the row it changes
///   nothing.
/// - A character of two columns replaces the cells at `x` and `x + 1`; where `x + 1`
///   is outside the row it changes nothing.
pub open spec fn write_glyph(l: Seq<CellView>, x: int, c: char, style: Style) -> Seq<CellView> {
    if c == '\0' {
        l
    } else if display_width(c) == Some(0usize) {
        if 0 <= x < l.len() {
            l.update(x, l[x].with_mark(c))
        } else {
            l
        }
    } else if display_width(c) == Some(1usize) {
        if 0 <= x < l.len() {
            write_narrow(l, x, c, style)
        } else {
            l
        }
    } else if display_width(c) == Some(2usize) {
        if 0 <= x && x + 1 < l.len() {
            write_wide(l, x, c, style)
        } else {
            l
        }
    } else {
        l
    }
}

/// A row of `n` blank cells in the default style.
pub open spec fn blank_line(n: nat) -> Seq<CellView> {
    Seq::new(n, |i: int| CellView::blank(Style::plain()))
}

/// The row cut or grown to `n` cells: new cells are blank, and a double-width glyph
/// that lost its second half becomes a space in its own style.
pub open spec fn resized(l: Seq<CellView>, n: nat) -> Seq<CellView> {
    let sized = if n <= l.len() {
        l.subrange(0, n as int)
    } else {
        l + blank_line((n - l.len()) as nat)
    };
    if sized.len() > 0 && sized.last().is_wide() {
        sized.update(sized.len() - 1, sized.last().demoted())
    } else {
        sized
    }
}

/// The characters of a cell: its glyph and marks, or nothing for a continuation cell.
pub open spec fn cell_text(cell: CellView) -> Seq<char> {
    match cell {
        CellView::Char { contents, .. } => contents,
        CellView::Continuation => Seq::empty(),
    }
}

/// The characters of a row: those of its cells one after the other.
pub open spec fn line_text(l: Seq<CellView>) -> Seq<char>
    decreases l.len(),
{
    if l.len() == 0 {
        Seq::empty()
    } else {
        line_text(l.drop_last()) + cell_text(l.last())
    }
}

/// Writing a glyph keeps a row well formed and as long as it was.
pub proof fn lemma_write_glyph_wf(l: Seq<CellView>, x: int, c: char, style: Style)
    requires
        line_wf(l),
    ensures
        line_wf(write_glyph(l, x, c, style)),
        write_glyph(l, x, c, style).len() == l.len(),
{
    let r = write_glyph(l, x, c, style);
    if c == '\0' {
    } else if display_width(c) == Some(0usize) {
        if 0 <= x < l.len() {
            l[x].lemma_with_mark_wf(c);
            assert forall|i: int| 0 <= i < r.len() implies (#[trigger] r[i]).wf() by {
                if i != x {
                    assert(r[i] == l[i]);
                }
            }
            assert forall|i: int| 0 <= i < r.len() implies ((#[trigger] r[i]) is Continuation <==> (i
                > 0 && r[i - 1].is_wide())) by {
                assert(l[i] is Continuation <==> (i > 0 && l[i - 1].is_wide()));
            }
        }
    } else if display_width(c) == Some(1usize) {
        if 0 <= x < l.len() {
            lemma_write_narrow_wf(l, x, c, style);
        }
    } else if display_width(c) == Some(2usize) {
        if 0 <= x && x + 1 < l.len() {
            lemma_write_wide_wf(l, x, c, style);
        }
    }
}

proof fn lemma_write_narrow_wf(l: Seq<CellView>, x: int, c: char, style: Style)
    requires
        line_wf(l),
        0 <= x < l.len(),
        display_width(c) == Some(1usize),
    ensures
        line_wf(write_narrow(l, x, c, style)),
        write_narrow(l, x, c, style).len() == l.len(),
{
    let r = write_narrow(l, x, c, style);
    assert(l[x] is Continuation <==> (x > 0 && l[x - 1].is_wide()));
    if x + 1 < l.len() {
        assert(l[x + 1] is Continuation <==> l[x].is_wide());
    }
    if x > 0 {
        l[x - 1].lemma_demoted_wf();
    }
    assert forall|i: int| 0 <= i < r.len() implies (#[trigger] r[i]).wf() by {
        assert(l[i].wf());
    }
    assert forall|i: int| 0 <= i < r.len() implies ((#[trigger] r[i]) is Continuation <==> (i > 0
        && r[i - 1].is_wide())) by {
        assert(l[i] is Continuation <==> (i > 0 && l[i - 1].is_wide()));
    }
}

proof fn lemma_write_wide_wf(l: Seq<CellView>, x: int, c: char, style: Style)
    requires
        line_wf(l),
        0 <= x,
        x + 1 < l.len(),
        display_width(c) == Some(2usize),
    ensures
        line_wf(write_wide(l, x, c, style)),
        write_wide(l, x, c, style).len() == l.len(),
{
    let r = write_wide(l, x, c, style);
    assert(l[x] is Continuation <==> (x > 0 && l[x - 1].is_wide()));
    assert(l[x + 1] is Continuation <==> l[x].is_wide());
    if x + 2 < l.len() {
        assert(l[x + 2] is Continuation <==> l[x + 1].is_wide());
    }
    if x > 0 {
        l[x - 1].lemma_demoted_wf();
    }
    assert forall|i: int| 0 <= i < r.len() implies (#[trigger] r[i]).wf() by {
        assert(l[i].wf());
    }
    assert forall|i: int| 0 <= i < r.len() implies ((#[trigger] r[i]) is Continuation <==> (i > 0
        && r[i - 1].is_wide())) by {
        assert(l[i] is Continuation <==> (i > 0 && l[i - 1].is_wide()));
    }
}

/// A glyph of two columns that is written anywhere but at the last column stands in the
/// row afterwards, with its continuation cell behind it.
pub proof fn lemma_wide_glyph_lands(l: Seq<CellView>, x: int, c: char, style: Style)
    requires
        line_wf(l),
        0 <= x,
        x + 1 < l.len(),
        display_width(c) == Some(2usize),
    ensures
        write_glyph(l, x, c, style)[x] == CellView::glyph(c, true, style),
        write_glyph(l, x, c, style)[x].is_wide(),
        write_glyph(l, x, c, style)[x + 1] is Continuation,
{
}

/// A glyph of two columns that is written at the last column changes nothing.
pub proof fn lemma_wide_glyph_at_edge(l: Seq<CellView>, c: char, style: Style)
    requires
        l.len() > 0,
        display_width(c) == Some(2usize),
    ensures
        write_glyph(l, l.len() - 1, c, style) == l,
{
}

/// Resizing keeps a row well formed and gives it the length that was asked for.
pub proof fn lemma_resized_wf(l: Seq<CellView>, n: nat)
    requires
        line_wf(l),
        n <= u16::MAX,
    ensures
        line_wf(resized(l, n)),
        resized(l, n).len() == n,
{
    let sized = if n <= l.len() {
        l.subrange(0, n as int)
    } else {
        l + blank_line((n - l.len()) as nat)
    };
    let r = resized(l, n);
    if sized.len() > 0 {
        sized.last().lemma_demoted_wf();
    }
    assert forall|i: int| 0 <= i < sized.len() implies (#[trigger] sized[i]).wf() && (sized[i]
        is Continuation <==> (i > 0 && sized[i - 1].is_wide())) by {
        if i < l.len() {
            assert(l[i].wf());
            assert(l[i] is Continuation <==> (i > 0 && l[i - 1].is_wide()));
        } else if i == l.len() && i > 0 {
            assert(!l.last().is_wide());
        }
    }
    assert forall|i: int| 0 <= i < r.len() implies (#[trigger] r[i]).wf() by {
        assert(sized[i].wf());
    }
    assert forall|i: int| 0 <= i < r.len() implies ((#[trigger] r[i]) is Continuation <==> (i > 0
        && r[i - 1].is_wide())) by {
        assert(sized[i] is Continuation <==> (i > 0 && sized[i - 1].is_wide()));
    }
}

/// A blank row is well formed.
pub proof fn lemma_blank_line_wf(n: nat)
    requires
        n <= u16::MAX,
    ensures
        line_wf(blank_line(n)),
{
}

/// A change that can be made to a row.
pub enum LineChange {
    /// A character is written at a column.
    Write {
        /// The column.
        x: int,
        /// The character.
        c: char,
        /// The style.
        style: Style,
    },
    /// The row is cut or grown to a number of cells.
    Resize(nat),
    /// Every cell becomes a space in the default style.
    Clear,
}

/// The row after a change.
pub open spec fn line_changed(l: Seq<CellView>, change: LineChange) -> Seq<CellView> {
    match change {
        LineChange::Write { x, c, style } => write_glyph(l, x, c, style),
        LineChange::Resize(n) => resized(l, n),
        LineChange::Clear => blank_line(l.len()),
    }
}

/// The row after the changes, made in order.
pub open spec fn line_after(l: Seq<CellView>, changes: Seq<LineChange>) -> Seq<CellView>
    decreases changes.len(),
{
    if changes.len() == 0 {
        l
    } else {
        line_changed(line_after(l, changes.drop_last()), changes.last())
    }
}

/// Whatever is written to a well-formed row and however it is resized, to no more than
/// 65535 cells, the row stays well formed: no continuation cell stands anywhere but
/// behind a double-width glyph, and no double-width glyph stands in the last cell.
pub proof fn lemma_line_stays_wf(l: Seq<CellView>, changes: Seq<LineChange>)
    requires
        line_wf(l),
        forall|i: int|
            0 <= i < changes.len() ==> ((#[trigger] changes[i]) matches LineChange::Resize(n) ==> n
                <= u16::MAX),
    ensures
        line_wf(line_after(l, changes)),
        forall|i: int|
            0 <= i < line_after(l, changes).len() ==> ((#[trigger] line_after(l, changes)[i])
                is Continuation ==> i > 0 && line_after(l, changes)[i - 1].is_wide()),
        line_after(l, changes).len() > 0 ==> !line_after(l, changes).last().is_wide(),
    decreases changes.len(),
{
    if changes.len() > 0 {
        lemma_line_stays_wf(l, changes.drop_last());
        let before = line_after(l, changes.drop_last());
        match changes.last() {
            LineChange::Write { x, c, style } => {
                lemma_write_glyph_wf(before, x, c, style);
            },
            LineChange::Resize(n) => {
                lemma_resized_wf(before, n);
            },
            LineChange::Clear => {
                lemma_blank_line_wf(before.len());
            },
        }
    }
}

/// A line of cells in a terminal.
///
/// A line is a list of [`Cell`]s with the guarantee that each cell is 1 or 2
/// columns wide and that double-width cells will be followed by continuation cells.
#[derive(Debug)]
pub struct Line {
    cells: Vec<Cell>,
}

impl View for Line {
    type V = Seq<CellView>;

    closed spec fn view(&self) -> Seq<CellView> {
        self.cells@.map_values(|cell: Cell| cell@)
    }
}

impl Line {
    /// The invariant of the line: see [`line_wf`].
    pub open spec fn wf(&self) -> bool {
        line_wf(self@)
    }

    /// Create a new line with all empty cells.
    #[must_use]
    pub fn new(len: u16) -> (line: Self)
        ensures
            line.wf(),
            line@ == blank_line(len as nat),
    {
        let mut line = Line { cells: Vec::new() };
        assert(line@ =~= blank_line(0));
        line.resize(len);
        assert(line@ =~= blank_line(len as nat));
        line
    }

    /// Get the number of cells in the line.
    #[must_use]
    pub fn len(&self) -> (len: u16)
        requires
            self.wf(),
        ensures
            len == self@.len(),
    {
        self.cells.len() as u16
    }

    /// Get whether the line is empty.
    #[must_use]
    pub fn is_empty(&self) -> (r: bool)
        ensures
            r == (self@.len() == 0),
    {
        self.cells.len() == 0
    }

    /// Get the cells in the line.
    #[must_use]
    pub fn cells(&self) -> (cells: &[Cell])
        ensures
            cells@.len() == self@.len(),
            forall|i: int| 0 <= i < cells@.len() ==> (#[trigger] cells@[i])@ == self@[i],
    {
        self.cells.as_slice()
    }

    /// Resize the line.
    ///
    /// All new cells will be empty. If resizing the line cuts off a double cell, that double cell
    /// becomes a space.
    pub fn resize(&mut self, new_len: u16)
        requires
            old(self).wf(),
        ensures
            final(self).wf(),
            final(self)@ == resized(old(self)@, new_len as nat),
    {
        let n = new_len as usize;
        if n <= self.cells.len() {
            self.cells.truncate(n);
        } else {
            while self.cells.len() < n
                invariant
                    old(self)@.len() <= self.cells.len() <= n,
                    self@ == old(self)@ + blank_line((self.cells.len() - old(self)@.len()) as nat),
                decreases n - self.cells.len(),
            {
                let ghost grown = self@;
                self.cells.push(Cell::blank(Style::default()));
                assert(self@ =~= grown.push(CellView::blank(Style::plain())));
                assert(self@ =~= old(self)@ + blank_line(
                    (self.cells.len() - old(self)@.len()) as nat,
                ));
            }
        }
        let len = self.cells.len();
        let ghost sized = self@;
        assert(sized =~= if new_len <= old(self)@.len() {
            old(self)@.subrange(0, new_len as int)
        } else {
            old(self)@ + blank_line((new_len - old(self)@.len()) as nat)
        });
        if len > 0 && self.cells[len - 1].is_wide() {
            let style = self.cells[len - 1].style();
            match style {
                Some(style) => {
                    self.cells[len - 1] = Cell::blank(style);
                },
                None => {},
            }
            assert(self@ =~= sized.update(sized.len() - 1, sized.last().demoted()));
        }
        proof {
            lemma_resized_wf(old(self)@, new_len as nat);
        }
    }

    /// Get the contents of the line as a string.
    ///
    /// This is mostly useful in tests.
    #[must_use]
    pub fn contents(&self) -> (s: String)
        ensures
            s@ == line_text(self@),
    {
        let mut s = String::new();
        let mut i: usize = 0;
        assert(self@.take(0) =~= Seq::empty());
        while i < self.cells.len()
            invariant
                i <= self.cells.len(),
                s@ == line_text(self@.take(i as int)),
            decreases self.cells.len() - i,
        {
            assert(self@.take(i + 1).drop_last() =~= self@.take(i as int));
            match self.cells[i].contents() {
                Some(text) => {
                    s.append(text);
                },
                None => {
                    assert(s@ + Seq::<char>::empty() =~= s@);
                },
            }
            i += 1;
        }
        assert(self@.take(i as int) =~= self@);
        s
    }

    /// Clear the line: every cell becomes a space in the default style.
    pub fn clear(&mut self)
        requires
            old(self).wf(),
        ensures
            final(self).wf(),
            final(self)@ == blank_line(old(self)@.len()),
    {
        proof {
            lemma_blank_line_wf(old(self)@.len());
        }
        let mut i: usize = 0;
        while i < self.cells.len()
            invariant
                i <= self.cells.len(),
                self.cells.len() == old(self).cells.len(),
                forall|j: int| 0 <= j < i ==> (#[trigger] self@[j]) == CellView::blank(Style::plain()),
            decreases self.cells.len() - i,
        {
            let ghost cleared = self@;
            self.cells[i] = Cell::blank(Style::default());
            assert(self@ =~= cleared.update(i as int, CellView::blank(Style::plain())));
            i += 1;
        }
        assert(self@ =~= blank_line(old(self)@.len()));
    }
}

impl Output for Line {
    open spec fn valid(&self) -> bool {
        self.wf()
    }

    open spec fn extent(&self) -> Vec2<u16> {
        Vec2 { x: self@.len() as u16, y: 1 }
    }

    open spec fn drew(&self, after: &Self, op: DrawOp) -> bool {
        after@ == (match op {
            DrawOp::Char { pos, c, style } => if pos.y == 0 {
                write_glyph(self@, pos.x as int, c, style)
            } else {
                self@
            },
            _ => self@,
        })
    }

    fn size(&self) -> (size: Vec2<u16>) {
        Vec2 { x: self.len(), y: 1 }
    }

    /// Writes the character at column `pos.x`, as [`write_glyph`] says. A line has one
    /// row only: a position in any other row changes nothing.
    fn write_char(&mut self, pos: Vec2<u16>, c: char, style: Style)
        ensures
            final(self)@ == (if pos.y == 0 {
                write_glyph(old(self)@, pos.x as int, c, style)
            } else {
                old(self)@
            }),
    {
        if pos.y != 0 || c == '\0' {
            return ;
        }
        proof {
            lemma_write_glyph_wf(self@, pos.x as int, c, style);
        }
        let x = pos.x as usize;
        match char_width(c) {
            Some(0) => {
                if x < self.cells.len() {
                    let ghost before = self@;
                    self.cells[x].push_mark(c);
                    assert(self@ =~= before.update(x as int, before[x as int].with_mark(c)));
                }
            },
            Some(1) => {
                if x < self.cells.len() {
                    self.put_narrow(x, c, style);
                }
            },
            Some(2) => {
                if x < self.cells.len() && x + 1 < self.cells.len() {
                    self.put_wide(x, c, style);
                }
            },
            _ => {},
        }
    }

    /// A line has no title: nothing changes.
    fn set_title(&mut self, title: &str)
        ensures
            final(self)@ == old(self)@,
    {
    }

    /// A line has no cursor: nothing changes.
    fn set_cursor(&mut self, cursor: Option<Cursor>)
        ensures
            final(self)@ == old(self)@,
    {
    }
}

impl Line {
    /// Replaces the cell at `x` by a glyph of one column.
    fn put_narrow(&mut self, x: usize, c: char, style: Style)
        requires
            old(self).wf(),
            x < old(self)@.len(),
        ensures
            final(self)@ == write_narrow(old(self)@, x as int, c, style),
    {
        let ghost before = self@;
        assert(before[x as int] is Continuation <==> (x > 0 && before[x - 1].is_wide()));
        assert(!before.last().is_wide());
        let style_before = self.cells[x].style();
        let wide_before = self.cells[x].is_wide();
        self.cells[x] = Cell::glyph(c, false, style);
        assert(self@ =~= before.update(x as int, CellView::glyph(c, false, style)));
        match style_before {
            Some(old_style) => {
                if wide_before {
                    assert(x + 1 < self.cells.len());
                    let ghost written = self@;
                    self.cells[x + 1] = Cell::blank(old_style);
                    assert(self@ =~= written.update(x + 1, CellView::blank(old_style)));
                }
            },
            None => {
                self.demote(x - 1);
            },
        }
    }

    /// Replaces the cells at `x` and `x + 1` by a glyph of two columns.
    fn put_wide(&mut self, x: usize, c: char, style: Style)
        requires
            old(self).wf(),
            x + 1 < old(self)@.len(),
        ensures
            final(self)@ == write_wide(old(self)@, x as int, c, style),
    {
        let ghost before = self@;
        assert(before[x as int] is Continuation <==> (x > 0 && before[x - 1].is_wide()));
        assert(before[x + 1] is Continuation <==> before[x as int].is_wide());
        assert(!before.last().is_wide());
        let first_was_continuation = self.cells[x].is_continuation();
        let second_style = self.cells[x + 1].style();
        let second_wide = self.cells[x + 1].is_wide();
        assert(second_wide ==> x + 2 < before.len()) by {
            if x + 2 == before.len() {
                assert(before.last() == before[x + 1]);
            }
        }
        self.cells[x + 1] = Cell::continuation();
        assert(self@ =~= before.update(x + 1, CellView::Continuation));
        let ghost half = self@;
        self.cells[x] = Cell::glyph(c, true, style);
        assert(self@ =~= half.update(x as int, CellView::glyph(c, true, style)));
        if first_was_continuation {
            self.demote(x - 1);
        }
        match second_style {
            Some(old_style) => {
                if second_wide {
                    let ghost written = self@;
                    assert(written.len() == before.len());
                    self.cells[x + 2] = Cell::blank(old_style);
                    assert(self@ =~= written.update(x + 2, CellView::blank(old_style)));
                }
            },
            None => {},
        }
    }

    /// Turns the cell at `x` into a space in the cell's own style.
    fn demote(&mut self, x: usize)
        requires
            x < old(self)@.len(),
        ensures
            final(self)@ == old(self)@.update(x as int, old(self)@[x as int].demoted()),
    {
        match self.cells[x].style() {
            Some(style) => {
                self.cells[x] = Cell::blank(style);
            },
            None => {},
        }
        assert(self@ =~= old(self)@.update(x as int, old(self)@[x as int].demoted()));
    }
}

impl Default for Line {
    /// A line without cells.
    fn default() -> (line: Self)
        ensures
            line.wf(),
            line@.len() == 0,
    {
        let line = Line { cells: Vec::new() };
        assert(line@ =~= Seq::empty());
        line
    }
}

impl Clone for Line {
    /// A line that holds the same cells as this one.
    fn clone(&self) -> (line: Self)
        ensures
            line@ == self@,
    {
        let mut cells: Vec<Cell> = Vec::new();
        let mut i: usize = 0;
        while i < self.cells.len()
            invariant
                i <= self.cells.len(),
                cells.len() == i,
                forall|j: int| 0 <= j < i ==> (#[trigger] cells@[j])@ == self.cells@[j]@,
            decreases self.cells.len() - i,
        {
            cells.push(self.cells[i].clone());
            i += 1;
        }
        let line = Line { cells };
        assert(line@ =~= self@);
        line
    }
}

impl vstd::std_specs::cmp::PartialEqSpecImpl for Line {
    open spec fn obeys_eq_spec() -> bool {
        true
    }

    open spec fn eq_spec(&self, other: &Line) -> bool {
        self@ == other@
    }
}

impl PartialEq for Line {
    /// Two lines are equal where they hold equal cells.
    fn eq(&self, other: &Line) -> (r: bool) {
        if self.cells.len() != other.cells.len() {
            assert(self@.len() != other@.len());
            return false;
        }
        let mut i: usize = 0;
        while i < self.cells.len()
            invariant
                i <= self.cells.len(),
                self.cells.len() == other.cells.len(),
                forall|j: int| 0 <= j < i ==> (#[trigger] self@[j]) == other@[j],
            decreases self.cells.len() - i,
        {
            if self.cells[i] != other.cells[i] {
                assert(self@[i as int] != other@[i as int]);
                return false;
            }
            i += 1;
        }
        assert(self@ =~= other@);
        true
    }
}

impl Eq for Line {

}

} // verus!
