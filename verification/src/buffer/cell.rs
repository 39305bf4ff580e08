//! One column of a terminal row.

use crate::style::Style;
use crate::text::{text_chars, CellText};
use crate::width::display_width;
use vstd::prelude::*;

verus! {

/// What a cell holds, as a mathematical value.
pub enum CellView {
    /// A glyph of one or two columns, followed by any number of marks that take no
    /// column of their own.
    Char {
        /// The glyph and its marks.
        contents: Seq<char>,
        /// Whether the glyph takes two columns.
        double: bool,
        /// The style of the cell.
        style: Style,
    },
    /// The second column of the double-width glyph in the cell before.
    Continuation,
}

impl CellView {
    /// A cell that shows a single space.
    pub open spec fn blank(style: Style) -> CellView {
        CellView::Char { contents: seq![' '], double: false, style }
    }

    /// A cell that shows the glyph alone.
    pub open spec fn glyph(c: char, double: bool, style: Style) -> CellView {
        CellView::Char { contents: seq![c], double, style }
    }

    /// Whether the cell holds a glyph of two columns.
    pub open spec fn is_wide(self) -> bool {
        self matches CellView::Char { double, .. } && double
    }

    /// The number of columns that the cell's glyph takes.
    pub open spec fn columns(self) -> usize {
        if self.is_wide() {
            2
        } else {
            1
        }
    }

    /// The cell with a mark added to its glyph; a continuation cell is left as it is.
    pub open spec fn with_mark(self, c: char) -> CellView {
        match self {
            CellView::Char { contents, double, style } => CellView::Char {
                contents: contents.push(c),
                double,
                style,
            },
            CellView::Continuation => CellView::Continuation,
        }
    }

    /// What is left of a cell whose glyph was cut in half: a space in the cell's own
    /// style. A continuation cell is left as it is.
    pub open spec fn demoted(self) -> CellView {
        match self {
            CellView::Char { style, .. } => CellView::blank(style),
            CellView::Continuation => CellView::Continuation,
        }
    }

    /// The invariant of a cell: its contents start with a glyph that is as wide as the
    /// cell says, and go on with marks of no width.
    pub open spec fn wf(self) -> bool {
        match self {
            CellView::Char { contents, double, .. } => {
                &&& contents.len() > 0
                &&& display_width(contents[0]) == Some(if double { 2usize } else { 1usize })
                &&& forall|i: int| 1 <= i < contents.len() ==> display_width(#[trigger] contents[i])
                    == Some(0usize)
            },
            CellView::Continuation => true,
        }
    }

    /// Demoting a cell leaves it well formed, and never wide.
    pub proof fn lemma_demoted_wf(self)
        ensures
            self.demoted().wf(),
            !self.demoted().is_wide(),
            self is Continuation <==> self.demoted() is Continuation,
    {
    }

    /// A mark of no width keeps a cell well formed, and as wide as it was.
    pub proof fn lemma_with_mark_wf(self, c: char)
        requires
            self.wf(),
            display_width(c) == Some(0usize),
        ensures
            self.with_mark(c).wf(),
            self.with_mark(c).is_wide() == self.is_wide(),
            self is Continuation <==> self.with_mark(c) is Continuation,
    {
    }
}

/// A kind of cell.
#[derive(Debug, Clone, Copy, PartialEq, Eq)]
pub enum CellKind<'a> {
    /// The cell contains a 1-2 width character followed by any number of zero-width characters.
    Char {
        /// The characters in the cell. The first character will be 1-2 columns wide, and the rest
        /// of the characters will be zero columns wide. This will contain no control characters.
        contents: &'a str,
        /// Whether the cell is double-width (that is, the width of the first character of
        /// `contents` as well as all of `contents` is 2).
        ///
        /// If a cell is double width the next cell will be a `Continuation`.
        double: bool,
        /// The style of the cell.
        style: Style,
    },
    /// The cell is a continuation of the previous double-width cell.
    Continuation,
}

impl<'a> View for CellKind<'a> {
    type V = CellView;

    open spec fn view(&self) -> CellView {
        match *self {
            CellKind::Char { contents, double, style } => CellView::Char {
                contents: contents@,
                double,
                style,
            },
            CellKind::Continuation => CellView::Continuation,
        }
    }
}

/// A cell in a terminal.
#[derive(Debug)]
pub struct Cell(CellInner);

#[derive(Debug)]
enum CellInner {
    Char { contents: CellText, double: bool, style: Style },
    Continuation,
}

impl View for Cell {
    type V = CellView;

    closed spec fn view(&self) -> CellView {
        match self.0 {
            CellInner::Char { contents, double, style } => CellView::Char {
                contents: text_chars(contents),
                double,
                style,
            },
            CellInner::Continuation => CellView::Continuation,
        }
    }
}

impl Cell {
    /// A cell that shows a single space.
    pub(crate) fn blank(style: Style) -> (cell: Cell)
        ensures
            cell@ == CellView::blank(style),
    {
        proof {
            reveal_strlit(" ");
        }
        let contents = CellText::from_str(" ");
        assert(text_chars(contents) =~= seq![' ']);
        Cell(CellInner::Char { contents, double: false, style })
    }

    /// A cell that shows the glyph alone.
    pub(crate) fn glyph(c: char, double: bool, style: Style) -> (cell: Cell)
        ensures
            cell@ == CellView::glyph(c, double, style),
    {
        Cell(CellInner::Char { contents: CellText::from_char(c), double, style })
    }

    /// The second column of a double-width glyph.
    pub(crate) fn continuation() -> (cell: Cell)
        ensures
            cell@ == CellView::Continuation,
    {
        Cell(CellInner::Continuation)
    }

    /// Adds a mark to the cell's glyph; a continuation cell is left as it is.
    pub(crate) fn push_mark(&mut self, c: char)
        ensures
            final(self)@ == old(self)@.with_mark(c),
    {
        match &mut self.0 {
            CellInner::Char { contents, .. } => {
                contents.push(c);
            },
            CellInner::Continuation => {},
        }
    }

    /// Whether the cell holds a glyph of two columns.
    pub(crate) fn is_wide(&self) -> (r: bool)
        ensures
            r == self@.is_wide(),
    {
        match &self.0 {
            CellInner::Char { double, .. } => *double,
            CellInner::Continuation => false,
        }
    }

    /// Get the kind of the cell.
    #[must_use]
    pub fn kind(&self) -> (kind: CellKind<'_>)
        ensures
            kind@ == self@,
    {
        match &self.0 {
            CellInner::Char { contents, double, style } => CellKind::Char {
                contents: contents.as_str(),
                double: *double,
                style: *style,
            },
            CellInner::Continuation => CellKind::Continuation,
        }
    }

    /// Get whether the cell is a character cell.
    #[must_use]
    pub fn is_char(&self) -> (r: bool)
        ensures
            r == (self@ is Char),
    {
        match &self.0 {
            CellInner::Char { .. } => true,
            CellInner::Continuation => false,
        }
    }

    /// Get whether the cell is a continuation cell.
    #[must_use]
    pub fn is_continuation(&self) -> (r: bool)
        ensures
            r == (self@ is Continuation),
    {
        match &self.0 {
            CellInner::Char { .. } => false,
            CellInner::Continuation => true,
        }
    }

    /// Get whether the cell is part of a double-width character.
    #[must_use]
    pub fn is_double(&self) -> (r: bool)
        ensures
            r == (self@.is_wide() || self@ is Continuation),
    {
        match &self.0 {
            CellInner::Char { double, .. } => *double,
            CellInner::Continuation => true,
        }
    }

    /// Get the contents of the cell, if it is not a continuation cell.
    #[must_use]
    pub fn contents(&self) -> (r: Option<&str>)
        ensures
            match self@ {
                CellView::Char { contents, .. } => r matches Some(s) && s@ == contents,
                CellView::Continuation => r is None,
            },
    {
        match &self.0 {
            CellInner::Char { contents, .. } => Some(contents.as_str()),
            CellInner::Continuation => None,
        }
    }

    /// Get the style of cell, if it is not a continuation cell.
    #[must_use]
    pub fn style(&self) -> (r: Option<Style>)
        ensures
            r == (match self@ {
                CellView::Char { style, .. } => Some(style),
                CellView::Continuation => None,
            }),
    {
        match &self.0 {
            CellInner::Char { style, .. } => Some(*style),
            CellInner::Continuation => None,
        }
    }
}

impl Clone for Cell {
    /// A cell that holds the same as this one.
    fn clone(&self) -> (cell: Self)
        ensures
            cell@ == self@,
    {
        match &self.0 {
            CellInner::Char { contents, double, style } => Cell(
                CellInner::Char { contents: contents.duplicate(), double: *double, style: *style },
            ),
            CellInner::Continuation => Cell(CellInner::Continuation),
        }
    }
}

impl vstd::std_specs::cmp::PartialEqSpecImpl for Cell {
    open spec fn obeys_eq_spec() -> bool {
        true
    }

    open spec fn eq_spec(&self, other: &Cell) -> bool {
        self@ == other@
    }
}

impl PartialEq for Cell {
    /// Two cells are equal where they hold the same contents, width and style.
    fn eq(&self, other: &Cell) -> (r: bool) {
        match &self.0 {
            CellInner::Char { contents, double, style } => match &other.0 {
                CellInner::Char { contents: contents2, double: double2, style: style2 } => {
                    contents.same(contents2) && *double == *double2 && *style == *style2
                },
                CellInner::Continuation => false,
            },
            CellInner::Continuation => match &other.0 {
                CellInner::Char { .. } => false,
                CellInner::Continuation => true,
            },
        }
    }
}

impl Eq for Cell {

}

} // verus!
