//! The rows of a terminal.

use crate::buffer::cell::CellView;
use crate::buffer::line::{
    blank_line, lemma_blank_line_wf, lemma_resized_wf, line_text, line_wf, resized, write_glyph,
    Line,
};
use crate::cursor::Cursor;
use crate::output::{DrawOp, Output};
use crate::style::Style;
use crate::vec2::Vec2;
use vstd::prelude::*;
use vstd::std_specs::convert::IntoSpec;

verus! {

/// The invariant of a grid that is `width` columns wide: it has at most 65535 rows, and
/// each of them is a well-formed row of `width` cells.
pub open spec fn grid_wf(rows: Seq<Seq<CellView>>, width: nat) -> bool {
    &&& rows.len() <= u16::MAX
    &&& forall|y: int| 0 <= y < rows.len() ==> line_wf(#[trigger] rows[y]) && rows[y].len() == width
}

/// `height` blank rows of `width` cells.
pub open spec fn blank_rows(height: nat, width: nat) -> Seq<Seq<CellView>> {
    Seq::new(height, |y: int| blank_line(width))
}

/// The rows, each cut or grown to `width` cells.
pub open spec fn rows_with_width(rows: Seq<Seq<CellView>>, width: nat) -> Seq<Seq<CellView>> {
    Seq::new(rows.len(), |y: int| resized(rows[y], width))
}

/// The rows cut or grown to `height`: rows are taken from the bottom, and blank rows of
/// `width` cells are added at the bottom.
pub open spec fn rows_with_height(rows: Seq<Seq<CellView>>, height: nat, width: nat) -> Seq<
    Seq<CellView>,
> {
    if height <= rows.len() {
        rows.subrange(0, height as int)
    } else {
        rows + blank_rows((height - rows.len()) as nat, width)
    }
}

/// The rows cut or grown to `height`, so that the row `anchor` stays where that can be.
///
/// Growing adds blank rows at the bottom. Shrinking takes rows from the bottom as long
/// as the anchor row stays; otherwise the rows behind the anchor go, and then rows from
/// the top until `height` are left, which makes the anchor row the last one. An anchor
/// below the last row counts as the last row.
pub open spec fn rows_anchored(rows: Seq<Seq<CellView>>, height: nat, anchor: nat, width: nat) -> Seq<
    Seq<CellView>,
> {
    if height >= rows.len() {
        rows_with_height(rows, height, width)
    } else if height > anchor {
        rows.subrange(0, height as int)
    } else {
        let kept: int = if anchor + 1 < rows.len() {
            (anchor + 1) as int
        } else {
            rows.len() as int
        };
        rows.subrange(kept - height, kept)
    }
}

/// The rows after the character was written at `pos`: the row `pos.y` changes as
/// [`write_glyph`] says, and a position below the last row changes nothing.
pub open spec fn rows_written(rows: Seq<Seq<CellView>>, pos: Vec2<u16>, c: char, style: Style) -> Seq<
    Seq<CellView>,
> {
    if pos.y < rows.len() {
        rows.update(pos.y as int, write_glyph(rows[pos.y as int], pos.x as int, c, style))
    } else {
        rows
    }
}

/// Blank rows make a well-formed grid.
pub proof fn lemma_blank_rows_wf(height: nat, width: nat)
    requires
        height <= u16::MAX,
        width <= u16::MAX,
    ensures
        grid_wf(blank_rows(height, width), width),
{
    lemma_blank_line_wf(width);
}

/// Changing the width keeps a grid well formed.
pub proof fn lemma_rows_with_width_wf(rows: Seq<Seq<CellView>>, old_width: nat, width: nat)
    requires
        grid_wf(rows, old_width),
        width <= u16::MAX,
    ensures
        grid_wf(rows_with_width(rows, width), width),
{
    let r = rows_with_width(rows, width);
    assert forall|y: int| 0 <= y < r.len() implies line_wf(#[trigger] r[y]) && r[y].len()
        == width by {
        assert(line_wf(rows[y]));
        lemma_resized_wf(rows[y], width);
    }
}

/// Changing the height keeps a grid well formed, with or without an anchor, and gives
/// it the height that was asked for.
pub proof fn lemma_rows_with_height_wf(rows: Seq<Seq<CellView>>, height: nat, anchor: nat, width: nat)
    requires
        grid_wf(rows, width),
        height <= u16::MAX,
        width <= u16::MAX,
    ensures
        grid_wf(rows_with_height(rows, height, width), width),
        rows_with_height(rows, height, width).len() == height,
        grid_wf(rows_anchored(rows, height, anchor, width), width),
        rows_anchored(rows, height, anchor, width).len() == height,
{
    lemma_blank_line_wf(width);
    let r = rows_with_height(rows, height, width);
    assert forall|y: int| 0 <= y < r.len() implies line_wf(#[trigger] r[y]) && r[y].len()
        == width by {
        if y < rows.len() {
            assert(line_wf(rows[y]));
        }
    }
    let a = rows_anchored(rows, height, anchor, width);
    assert forall|y: int| 0 <= y < a.len() implies line_wf(#[trigger] a[y]) && a[y].len()
        == width by {
        if height >= rows.len() {
            assert(a[y] == r[y]);
        } else if height > anchor {
            assert(line_wf(rows[y]));
        } else {
            let kept: int = if anchor + 1 < rows.len() {
                (anchor + 1) as int
            } else {
                rows.len() as int
            };
            assert(line_wf(rows[kept - height + y]));
        }
    }
}

/// Where the anchor row is cut off from the bottom, it becomes the last row, and the
/// rows above it keep their order.
pub proof fn lemma_anchor_is_last(rows: Seq<Seq<CellView>>, height: nat, anchor: nat, width: nat)
    requires
        0 < height <= anchor,
        anchor < rows.len(),
    ensures
        rows_anchored(rows, height, anchor, width).len() == height,
        rows_anchored(rows, height, anchor, width).last() == rows[anchor as int],
        forall|y: int|
            0 <= y < height ==> #[trigger] rows_anchored(rows, height, anchor, width)[y] == rows[anchor
                + 1 - height + y],
{
}

/// Writing a character keeps a grid well formed.
pub proof fn lemma_rows_written_wf(
    rows: Seq<Seq<CellView>>,
    width: nat,
    pos: Vec2<u16>,
    c: char,
    style: Style,
)
    requires
        grid_wf(rows, width),
    ensures
        grid_wf(rows_written(rows, pos, c, style), width),
        rows_written(rows, pos, c, style).len() == rows.len(),
{
    let r = rows_written(rows, pos, c, style);
    if pos.y < rows.len() {
        assert(line_wf(rows[pos.y as int]));
        crate::buffer::line::lemma_write_glyph_wf(rows[pos.y as int], pos.x as int, c, style);
    }
    assert forall|y: int| 0 <= y < r.len() implies line_wf(#[trigger] r[y]) && r[y].len()
        == width by {
        assert(line_wf(rows[y]));
    }
}

/// The grid of characters on a terminal.
///
/// A grid is a list of [`Line`]s that are all the same length.
#[derive(Debug)]
pub struct Grid {
    width: u16,
    lines: Vec<Line>,
}

impl View for Grid {
    type V = Seq<Seq<CellView>>;

    closed spec fn view(&self) -> Seq<Seq<CellView>> {
        self.lines@.map_values(|line: Line| line@)
    }
}

impl Grid {
    /// The number of columns.
    pub closed spec fn columns(&self) -> u16 {
        self.width
    }

    /// The invariant of the grid: see [`grid_wf`].
    pub open spec fn wf(&self) -> bool {
        grid_wf(self@, self.columns() as nat)
    }

    /// Create a new grid with all empty cells.
    #[must_use]
    pub fn new<S: Into<Vec2<u16>>>(size: S) -> (grid: Self)
        ensures
            grid.wf(),
            grid@ == blank_rows(grid@.len(), grid.columns() as nat),
            S::obeys_into_spec() ==> grid.columns() == size.into_spec().x && grid@.len()
                == size.into_spec().y,
    {
        let size: Vec2<u16> = size.into();
        Grid::blank(size)
    }

    /// A grid of the given size with all empty cells.
    pub(crate) fn blank(size: Vec2<u16>) -> (grid: Self)
        ensures
            grid.wf(),
            grid.columns() == size.x,
            grid@ == blank_rows(size.y as nat, size.x as nat),
    {
        let mut grid = Grid { width: 0, lines: Vec::new() };
        assert(grid@ =~= blank_rows(0, 0));
        grid.resize_width(size.x);
        assert(grid@ =~= blank_rows(0, size.x as nat));
        grid.resize_height(size.y);
        assert(grid@ =~= blank_rows(size.y as nat, size.x as nat));
        grid
    }

    /// Get the number of columns in the grid.
    #[must_use]
    pub fn width(&self) -> (width: u16)
        ensures
            width == self.columns(),
    {
        self.width
    }

    /// Get the number of rows in the grid.
    #[must_use]
    pub fn height(&self) -> (height: u16)
        requires
            self.wf(),
        ensures
            height == self@.len(),
    {
        self.lines.len() as u16
    }

    /// Get the rows of the grid.
    #[must_use]
    pub fn lines(&self) -> (lines: &[Line])
        ensures
            lines@.len() == self@.len(),
            forall|y: int| 0 <= y < lines@.len() ==> (#[trigger] lines@[y])@ == self@[y],
    {
        self.lines.as_slice()
    }

    /// Resize the grid's width.
    ///
    /// All new cells will be empty. If resizing a line cuts off a double cell, that double cell
    /// becomes a space.
    pub fn resize_width(&mut self, new_width: u16)
        requires
            old(self).wf(),
        ensures
            final(self).wf(),
            final(self).columns() == new_width,
            final(self)@ == rows_with_width(old(self)@, new_width as nat),
    {
        self.width = new_width;
        let mut y: usize = 0;
        while y < self.lines.len()
            invariant
                y <= self.lines.len(),
                self.lines.len() == old(self).lines.len(),
                self.width == new_width,
                forall|k: int| 0 <= k < y ==> #[trigger] self@[k] == resized(old(self)@[k], new_width as nat),
                forall|k: int| y <= k < self.lines.len() ==> #[trigger] self@[k] == old(self)@[k],
                old(self).wf(),
            decreases self.lines.len() - y,
        {
            let ghost rows = self@;
            assert(line_wf(old(self)@[y as int]));
            assert(self.lines@[y as int]@ == self@[y as int]);
            self.lines[y].resize(new_width);
            assert(self@ =~= rows.update(y as int, resized(rows[y as int], new_width as nat)));
            y += 1;
        }
        assert(self@ =~= rows_with_width(old(self)@, new_width as nat));
        proof {
            lemma_rows_with_width_wf(old(self)@, old(self).columns() as nat, new_width as nat);
        }
    }

    /// Resize the grid's height, using an anchor line. Lines will be removed from the bottom until
    /// the anchor line is reached, and then they will be removed from the top to avoid removing
    /// the anchor line. Adding lines will as usual add them to the bottom. This matches the
    /// behaviour of resizing terminals, where the anchor is the line that the cursor is on.
    ///
    /// All new cells will be empty.
    pub fn resize_height_with_anchor(&mut self, new_height: u16, anchor_line: u16)
        requires
            old(self).wf(),
        ensures
            final(self).wf(),
            final(self).columns() == old(self).columns(),
            final(self)@ == rows_anchored(
                old(self)@,
                new_height as nat,
                anchor_line as nat,
                old(self).columns() as nat,
            ),
    {
        proof {
            lemma_rows_with_height_wf(
                self@,
                new_height as nat,
                anchor_line as nat,
                self.columns() as nat,
            );
        }
        let height = new_height as usize;
        let anchor = anchor_line as usize;
        if height >= self.lines.len() {
            self.resize_height(new_height);
        } else if height > anchor {
            self.lines.truncate(height);
            assert(self@ =~= old(self)@.subrange(0, height as int));
        } else {
            let kept = if anchor + 1 < self.lines.len() {
                anchor + 1
            } else {
                self.lines.len()
            };
            self.lines.truncate(kept);
            let rest = self.lines.split_off(kept - height);
            self.lines = rest;
            assert(self@ =~= old(self)@.subrange(kept - height, kept as int));
        }
    }

    /// Resize the grid's height from the bottom of the grid.
    ///
    /// All new cells will be empty.
    pub fn resize_height(&mut self, new_height: u16)
        requires
            old(self).wf(),
        ensures
            final(self).wf(),
            final(self).columns() == old(self).columns(),
            final(self)@ == rows_with_height(
                old(self)@,
                new_height as nat,
                old(self).columns() as nat,
            ),
    {
        proof {
            lemma_rows_with_height_wf(self@, new_height as nat, 0, self.columns() as nat);
        }
        let height = new_height as usize;
        let width = self.width;
        if height <= self.lines.len() {
            self.lines.truncate(height);
            assert(self@ =~= old(self)@.subrange(0, height as int));
        } else {
            while self.lines.len() < height
                invariant
                    old(self)@.len() <= self.lines.len() <= height,
                    self.width == width,
                    width == old(self).width,
                    self@ == old(self)@ + blank_rows(
                        (self.lines.len() - old(self)@.len()) as nat,
                        width as nat,
                    ),
                decreases height - self.lines.len(),
            {
                let ghost grown = self@;
                self.lines.push(Line::new(width));
                assert(self@ =~= grown.push(blank_line(width as nat)));
                assert(self@ =~= old(self)@ + blank_rows(
                    (self.lines.len() - old(self)@.len()) as nat,
                    width as nat,
                ));
            }
        }
    }

    /// Get the grid's contents as a vector of strings.
    ///
    /// This is mostly useful in tests.
    #[must_use]
    pub fn contents(&self) -> (rows: Vec<String>)
        ensures
            rows@.len() == self@.len(),
            forall|y: int| 0 <= y < rows@.len() ==> (#[trigger] rows@[y])@ == line_text(self@[y]),
    {
        let mut rows: Vec<String> = Vec::new();
        let mut y: usize = 0;
        while y < self.lines.len()
            invariant
                y <= self.lines.len(),
                rows@.len() == y,
                forall|k: int| 0 <= k < y ==> (#[trigger] rows@[k])@ == line_text(self@[k]),
            decreases self.lines.len() - y,
        {
            rows.push(self.lines[y].contents());
            y += 1;
        }
        rows
    }

    /// Clear the grid: every cell becomes a space in the default style.
    pub fn clear(&mut self)
        requires
            old(self).wf(),
        ensures
            final(self).wf(),
            final(self).columns() == old(self).columns(),
            final(self)@ == blank_rows(old(self)@.len(), old(self).columns() as nat),
    {
        let mut y: usize = 0;
        while y < self.lines.len()
            invariant
                y <= self.lines.len(),
                self.lines.len() == old(self).lines.len(),
                self.width == old(self).width,
                forall|k: int| 0 <= k < y ==> #[trigger] self@[k] == blank_line(self.width as nat),
                forall|k: int| y <= k < self.lines.len() ==> #[trigger] self@[k] == old(self)@[k],
                old(self).wf(),
            decreases self.lines.len() - y,
        {
            let ghost rows = self@;
            assert(line_wf(old(self)@[y as int]) && old(self)@[y as int].len() == self.width);
            assert(self.lines@[y as int]@ == self@[y as int]);
            self.lines[y].clear();
            assert(self@ =~= rows.update(y as int, blank_line(self.width as nat)));
            y += 1;
        }
        assert(self@ =~= blank_rows(old(self)@.len(), old(self).columns() as nat));
        proof {
            lemma_blank_rows_wf(old(self)@.len(), old(self).columns() as nat);
        }
    }
}

impl Default for Grid {
    /// A grid without rows or columns.
    fn default() -> (grid: Self)
        ensures
            grid.wf(),
            grid@.len() == 0,
            grid.columns() == 0,
    {
        let grid = Grid { width: 0, lines: Vec::new() };
        assert(grid@ =~= Seq::empty());
        grid
    }
}

impl Output for Grid {
    open spec fn valid(&self) -> bool {
        self.wf()
    }

    open spec fn extent(&self) -> Vec2<u16> {
        Vec2 { x: self.columns(), y: self@.len() as u16 }
    }

    open spec fn drew(&self, after: &Self, op: DrawOp) -> bool {
        &&& after.columns() == self.columns()
        &&& after@ == (match op {
            DrawOp::Char { pos, c, style } => rows_written(self@, pos, c, style),
            _ => self@,
        })
    }

    fn size(&self) -> (size: Vec2<u16>) {
        Vec2 { x: self.width, y: self.height() }
    }

    /// Writes the character at `pos`, as [`rows_written`] says.
    fn write_char(&mut self, pos: Vec2<u16>, c: char, style: Style)
        ensures
            final(self).columns() == old(self).columns(),
            final(self)@ == rows_written(old(self)@, pos, c, style),
    {
        proof {
            lemma_rows_written_wf(self@, self.columns() as nat, pos, c, style);
        }
        let y = pos.y as usize;
        if y < self.lines.len() {
            let ghost rows = self@;
            assert(line_wf(rows[y as int]));
            assert(self.lines@[y as int]@ == rows[y as int]);
            self.lines[y].write_char(Vec2 { x: pos.x, y: 0 }, c, style);
            assert(self@ =~= rows.update(
                y as int,
                write_glyph(rows[y as int], pos.x as int, c, style),
            ));
        }
    }

    /// A grid has no title: nothing changes.
    fn set_title(&mut self, title: &str)
        ensures
            final(self).columns() == old(self).columns(),
            final(self)@ == old(self)@,
    {
    }

    /// A grid has no cursor: nothing changes.
    fn set_cursor(&mut self, cursor: Option<Cursor>)
        ensures
            final(self).columns() == old(self).columns(),
            final(self)@ == old(self)@,
    {
    }
}

impl Clone for Grid {
    /// A grid that holds the same rows as this one.
    fn clone(&self) -> (grid: Self)
        ensures
            grid@ == self@,
            grid.columns() == self.columns(),
    {
        let mut lines: Vec<Line> = Vec::new();
        let mut y: usize = 0;
        while y < self.lines.len()
            invariant
                y <= self.lines.len(),
                lines.len() == y,
                forall|k: int| 0 <= k < y ==> (#[trigger] lines@[k])@ == self.lines@[k]@,
            decreases self.lines.len() - y,
        {
            lines.push(self.lines[y].clone());
            y += 1;
        }
        let grid = Grid { width: self.width, lines };
        assert(grid@ =~= self@);
        grid
    }
}

impl vstd::std_specs::cmp::PartialEqSpecImpl for Grid {
    open spec fn obeys_eq_spec() -> bool {
        true
    }

    open spec fn eq_spec(&self, other: &Grid) -> bool {
        self.columns() == other.columns() && self@ == other@
    }
}

impl PartialEq for Grid {
    /// Two grids are equal where they are equally wide and hold equal rows.
    fn eq(&self, other: &Grid) -> (r: bool) {
        if self.width != other.width || self.lines.len() != other.lines.len() {
            assert(self@.len() == self.lines.len() && other@.len() == other.lines.len());
            return false;
        }
        let mut y: usize = 0;
        while y < self.lines.len()
            invariant
                y <= self.lines.len(),
                self.lines.len() == other.lines.len(),
                forall|k: int| 0 <= k < y ==> (#[trigger] self@[k]) == other@[k],
            decreases self.lines.len() - y,
        {
            if self.lines[y] != other.lines[y] {
                assert(self@[y as int] != other@[y as int]);
                return false;
            }
            y += 1;
        }
        assert(self@ =~= other@);
        true
    }
}

impl Eq for Grid {

}

} // verus!
