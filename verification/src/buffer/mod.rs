//! Data structures representing terminals.
//!
//! The width of a character in columns is taken from `unicode-width`. A character that
//! is wider than two columns cannot be held in a cell and is not drawn.

pub mod cell;
pub mod grid;
pub mod line;

pub use cell::{Cell, CellKind, CellView};
pub use grid::Grid;
pub use line::Line;

use crate::cursor::Cursor;
use crate::output::{DrawOp, Output};
use crate::style::Style;
use crate::vec2::Vec2;
use grid::{blank_rows, grid_wf, rows_anchored, rows_with_width, rows_written};
use vstd::prelude::*;

verus! {

/// What a terminal shows, as a mathematical value.
pub struct BufferView {
    /// The number of columns.
    pub width: u16,
    /// The rows, each `width` cells long.
    pub rows: Seq<Seq<CellView>>,
    /// The cursor, if it is shown.
    pub cursor: Option<Cursor>,
    /// The title.
    pub title: Seq<char>,
}

impl BufferView {
    /// The invariant of a terminal state: its rows make a well-formed grid.
    pub open spec fn wf(self) -> bool {
        grid_wf(self.rows, self.width as nat)
    }

    /// A terminal state of the same size with blank cells, no cursor and an empty title.
    pub open spec fn blank(self) -> BufferView {
        BufferView {
            width: self.width,
            rows: blank_rows(self.rows.len(), self.width as nat),
            cursor: None,
            title: Seq::empty(),
        }
    }

    /// The terminal state cut or grown to another size, so that the row `anchor` stays
    /// where that can be: the rows get the new width, then the grid gets the new height.
    pub open spec fn resized(self, size: Vec2<u16>, anchor: u16) -> BufferView {
        BufferView {
            width: size.x,
            rows: rows_anchored(
                rows_with_width(self.rows, size.x as nat),
                size.y as nat,
                anchor as nat,
                size.x as nat,
            ),
            ..self
        }
    }

    /// A resize keeps a terminal state well formed and gives it the size that was asked
    /// for.
    pub proof fn lemma_resized_wf(self, size: Vec2<u16>, anchor: u16)
        requires
            self.wf(),
        ensures
            self.resized(size, anchor).wf(),
            self.resized(size, anchor).width == size.x,
            self.resized(size, anchor).rows.len() == size.y,
    {
        grid::lemma_rows_with_width_wf(self.rows, self.width as nat, size.x as nat);
        grid::lemma_rows_with_height_wf(
            rows_with_width(self.rows, size.x as nat),
            size.y as nat,
            anchor as nat,
            size.x as nat,
        );
    }

    /// The terminal state after a drawing call.
    pub open spec fn drawn(self, op: DrawOp) -> BufferView {
        match op {
            DrawOp::Char { pos, c, style } => BufferView {
                rows: rows_written(self.rows, pos, c, style),
                ..self
            },
            DrawOp::Title(title) => BufferView { title, ..self },
            DrawOp::Cursor(cursor) => BufferView { cursor, ..self },
        }
    }

    /// A drawing call keeps a terminal state well formed and as large as it was.
    pub proof fn lemma_drawn_wf(self, op: DrawOp)
        requires
            self.wf(),
        ensures
            self.drawn(op).wf(),
            self.drawn(op).width == self.width,
            self.drawn(op).rows.len() == self.rows.len(),
    {
        match op {
            DrawOp::Char { pos, c, style } => {
                grid::lemma_rows_written_wf(self.rows, self.width as nat, pos, c, style);
            },
            _ => {},
        }
    }
}

/// A terminal state.
#[derive(Debug)]
pub struct Buffer {
    /// The grid of characters on the terminal.
    pub grid: Grid,
    /// The cursor on the terminal.
    pub cursor: Option<Cursor>,
    /// The title of the terminal.
    pub title: String,
}

impl View for Buffer {
    type V = BufferView;

    open spec fn view(&self) -> BufferView {
        BufferView {
            width: self.grid.columns(),
            rows: self.grid@,
            cursor: self.cursor,
            title: self.title@,
        }
    }
}

impl Buffer {
    /// The invariant of the buffer: its grid is well formed.
    pub open spec fn wf(&self) -> bool {
        self@.wf()
    }

    /// Reset the buffer. This clears the grid, removes the cursor and empties the title.
    pub fn reset(&mut self)
        requires
            old(self).wf(),
        ensures
            final(self).wf(),
            final(self)@ == old(self)@.blank(),
    {
        self.grid.clear();
        self.cursor = None;
        self.title = String::new();
    }
}

impl vstd::std_specs::convert::FromSpecImpl<Grid> for Buffer {
    /// What `from` returns is stated on `from` itself, over the buffer's view.
    open spec fn obeys_from_spec() -> bool {
        false
    }

    open spec fn from_spec(grid: Grid) -> Self {
        arbitrary()
    }
}

impl From<Grid> for Buffer {
    /// A buffer that shows the grid, without a cursor or a title.
    fn from(grid: Grid) -> (buffer: Self)
        ensures
            buffer.grid == grid,
            buffer.cursor is None,
            buffer.title@ == Seq::<char>::empty(),
    {
        Self { grid, cursor: None, title: String::new() }
    }
}

impl Default for Buffer {
    /// A buffer without rows or columns, cursor or title.
    fn default() -> (buffer: Self)
        ensures
            buffer.wf(),
            buffer@.rows.len() == 0,
            buffer@.width == 0,
            buffer@.cursor is None,
            buffer@.title == Seq::<char>::empty(),
    {
        Self { grid: Grid::default(), cursor: None, title: String::new() }
    }
}

impl Output for Buffer {
    open spec fn valid(&self) -> bool {
        self.wf()
    }

    open spec fn extent(&self) -> Vec2<u16> {
        Vec2 { x: self@.width, y: self@.rows.len() as u16 }
    }

    open spec fn drew(&self, after: &Self, op: DrawOp) -> bool {
        after@ == self@.drawn(op)
    }

    fn size(&self) -> (size: Vec2<u16>) {
        self.grid.size()
    }

    fn write_char(&mut self, pos: Vec2<u16>, c: char, style: Style) {
        proof {
            self@.lemma_drawn_wf(DrawOp::Char { pos, c, style });
        }
        self.grid.write_char(pos, c, style)
    }

    fn set_title(&mut self, title: &str) {
        self.title = title.to_owned();
    }

    fn set_cursor(&mut self, cursor: Option<Cursor>) {
        self.cursor = cursor;
    }
}

impl Buffer {
    /// Cut or grow the buffer to another size, so that the row `anchor` stays where that
    /// can be.
    pub fn resize_with_anchor(&mut self, size: Vec2<u16>, anchor: u16)
        requires
            old(self).wf(),
        ensures
            final(self).wf(),
            final(self)@ == old(self)@.resized(size, anchor),
    {
        self.grid.resize_width(size.x);
        self.grid.resize_height_with_anchor(size.y, anchor);
    }
}

impl vstd::std_specs::cmp::PartialEqSpecImpl for Buffer {
    open spec fn obeys_eq_spec() -> bool {
        true
    }

    open spec fn eq_spec(&self, other: &Buffer) -> bool {
        self@ == other@
    }
}

impl PartialEq for Buffer {
    /// Two buffers are equal where they show the same.
    fn eq(&self, other: &Buffer) -> (r: bool) {
        let same_cursor = match self.cursor {
            Some(cursor) => match other.cursor {
                Some(theirs) => cursor == theirs,
                None => false,
            },
            None => other.cursor.is_none(),
        };
        same_cursor && self.title == other.title && self.grid == other.grid
    }
}

impl Eq for Buffer {

}

impl Clone for Buffer {
    /// A buffer that shows the same as this one.
    fn clone(&self) -> (buffer: Self)
        ensures
            buffer@ == self@,
    {
        Self { grid: self.grid.clone(), cursor: self.cursor, title: self.title.clone() }
    }
}

} // verus!
