//! What a terminal does with the calls of a backend.

use crate::backend::OperationView;
use crate::buffer::grid::rows_written;
use crate::buffer::BufferView;
use crate::cursor::{Cursor, CursorShape};
use crate::style::{Attributes, Style};
use crate::vec2::Vec2;
use crate::width::display_width;
use vstd::prelude::*;

verus! {

/// The column that the cursor stands in after it was moved to `x`: the cursor does not
/// leave the last column.
pub open spec fn clamp_column(x: int, width: u16) -> u16 {
    if x < width {
        x as u16
    } else if width > 0 {
        (width - 1) as u16
    } else {
        0
    }
}

/// The position pulled back into a grid of the given size.
pub open spec fn pos_within(pos: Vec2<u16>, size: Vec2<u16>) -> Vec2<u16> {
    Vec2 {
        x: if size.x == 0 {
            0
        } else if pos.x < size.x {
            pos.x
        } else {
            (size.x - 1) as u16
        },
        y: if size.y == 0 {
            0
        } else if pos.y < size.y {
            pos.y
        } else {
            (size.y - 1) as u16
        },
    }
}

/// Whether the text is one glyph of one or two columns with marks of no width behind
/// it. Such a text holds no control character.
pub open spec fn glyph_text(text: Seq<char>) -> bool {
    &&& text.len() > 0
    &&& (display_width(text[0]) == Some(1usize) || display_width(text[0]) == Some(2usize))
    &&& forall|i: int| 1 <= i < text.len() ==> display_width(#[trigger] text[i]) == Some(0usize)
}

/// A terminal, as a mathematical value: what it shows, where its cursor stands, shown or
/// not, and the style that it writes in.
pub struct Screen {
    /// What the terminal shows.
    pub buffer: BufferView,
    /// The position of the cursor, shown or hidden.
    pub pos: Vec2<u16>,
    /// The style that text is written in.
    pub style: Style,
}

impl Screen {
    /// The invariant of a terminal: what it shows is well formed, and a cursor that is
    /// shown is shown where the cursor stands.
    pub open spec fn wf(self) -> bool {
        &&& self.buffer.wf()
        &&& self.buffer.cursor matches Some(cursor) ==> cursor.pos == self.pos
    }

    /// The terminal with its cursor at `pos`.
    pub open spec fn moved(self, pos: Vec2<u16>) -> Screen {
        Screen {
            pos,
            buffer: BufferView {
                cursor: match self.buffer.cursor {
                    Some(cursor) => Some(Cursor { pos, ..cursor }),
                    None => None,
                },
                ..self.buffer
            },
            ..self
        }
    }

    /// The terminal cut or grown to another size: what it shows is resized with the
    /// cursor's row as the anchor, and the cursor is pulled back into the new bounds.
    pub open spec fn resized(self, size: Vec2<u16>) -> Screen {
        Screen { buffer: self.buffer.resized(size, self.pos.y), ..self }.moved(
            pos_within(self.pos, size),
        )
    }

    /// The terminal with the character written at `at` in the current style, as
    /// [`rows_written`] says. The cursor stays.
    pub open spec fn inked(self, at: Vec2<u16>, c: char) -> Screen {
        Screen {
            buffer: BufferView {
                rows: rows_written(self.buffer.rows, at, c, self.style),
                ..self.buffer
            },
            ..self
        }
    }

    /// The terminal after a glyph of `columns` columns was written at the cursor: the
    /// cursor moves on by as many columns, up to the last column.
    pub open spec fn placed(self, c: char, columns: int) -> Screen {
        self.inked(self.pos, c).moved(
            Vec2 { x: clamp_column(self.pos.x + columns, self.buffer.width), y: self.pos.y },
        )
    }

    /// The terminal after the text was written. `last` is where the last glyph of this
    /// text was written, if there was one yet.
    ///
    /// A glyph of one or two columns is written at the cursor, which moves on. A mark of
    /// no width joins the glyph before it; where the text has no glyph before it, the
    /// mark is dropped. Control characters and wider characters are dropped.
    pub open spec fn typed(self, text: Seq<char>, last: Option<Vec2<u16>>) -> Screen
        decreases text.len(),
    {
        if text.len() == 0 {
            self
        } else {
            let c = text[0];
            let rest = text.drop_first();
            if display_width(c) == Some(0usize) {
                match last {
                    Some(at) => self.inked(at, c).typed(rest, last),
                    None => self.typed(rest, last),
                }
            } else if display_width(c) == Some(1usize) {
                self.placed(c, 1).typed(rest, Some(self.pos))
            } else if display_width(c) == Some(2usize) {
                self.placed(c, 2).typed(rest, Some(self.pos))
            } else {
                self.typed(rest, last)
            }
        }
    }

    /// The terminal with another style.
    pub open spec fn styled(self, style: Style) -> Screen {
        Screen { style, ..self }
    }

    /// The terminal with another cursor, or none.
    pub open spec fn pointed(self, cursor: Option<Cursor>) -> Screen {
        Screen { buffer: BufferView { cursor, ..self.buffer }, ..self }
    }

    /// The terminal after one call.
    ///
    /// A cursor that is shown anew is a block that does not blink. Shape and blinking of
    /// a hidden cursor cannot be set.
    pub open spec fn apply(self, op: OperationView) -> Screen {
        match op {
            OperationView::SetTitle(title) => Screen {
                buffer: BufferView { title, ..self.buffer },
                ..self
            },
            OperationView::HideCursor => self.pointed(None),
            OperationView::ShowCursor => self.pointed(
                Some(Cursor { shape: CursorShape::Block, blinking: false, pos: self.pos }),
            ),
            OperationView::SetCursorShape(shape) => match self.buffer.cursor {
                Some(cursor) => self.pointed(Some(Cursor { shape, ..cursor })),
                None => self,
            },
            OperationView::SetCursorBlinking(blinking) => match self.buffer.cursor {
                Some(cursor) => self.pointed(Some(Cursor { blinking, ..cursor })),
                None => self,
            },
            OperationView::SetCursorPos(pos) => self.moved(pos),
            OperationView::SetForeground(foreground) => self.styled(
                Style { foreground, ..self.style },
            ),
            OperationView::SetBackground(background) => self.styled(
                Style { background, ..self.style },
            ),
            OperationView::SetIntensity(intensity) => self.styled(
                Style { attributes: Attributes { intensity, ..self.style.attributes }, ..self.style },
            ),
            OperationView::SetItalic(italic) => self.styled(
                Style { attributes: Attributes { italic, ..self.style.attributes }, ..self.style },
            ),
            OperationView::SetUnderlined(underlined) => self.styled(
                Style { attributes: Attributes { underlined, ..self.style.attributes }, ..self.style },
            ),
            OperationView::SetBlinking(blinking) => self.styled(
                Style { attributes: Attributes { blinking, ..self.style.attributes }, ..self.style },
            ),
            OperationView::SetCrossedOut(crossed_out) => self.styled(
                Style { attributes: Attributes { crossed_out, ..self.style.attributes }, ..self.style },
            ),
            OperationView::Write(text) => self.typed(text, None),
            OperationView::Flush => self,
        }
    }

    /// The terminal after the calls, made in order.
    #[verifier::opaque]
    pub open spec fn run(self, ops: Seq<OperationView>) -> Screen
        decreases ops.len(),
    {
        if ops.len() == 0 {
            self
        } else {
            self.run(ops.drop_last()).apply(ops.last())
        }
    }

    /// Running no call changes nothing, and running one call applies it.
    pub proof fn lemma_run_one(self, op: OperationView)
        ensures
            self.run(Seq::empty()) == self,
            self.run(seq![op]) == self.apply(op),
    {
        reveal_with_fuel(Screen::run, 2);
        assert(seq![op].drop_last() =~= Seq::<OperationView>::empty());
        assert(self.run(seq![op].drop_last()) == self);
    }

    /// Running one more call applies it to the terminal after the calls before it.
    pub proof fn lemma_run_push(self, ops: Seq<OperationView>, op: OperationView)
        ensures
            self.run(ops.push(op)) == self.run(ops).apply(op),
    {
        reveal_with_fuel(Screen::run, 2);
        assert(ops.push(op).drop_last() =~= ops);
    }

    /// Running two runs of calls, one after the other, is running them as one.
    pub proof fn lemma_run_concat(self, first: Seq<OperationView>, second: Seq<OperationView>)
        ensures
            self.run(first + second) == self.run(first).run(second),
        decreases second.len(),
    {
        reveal_with_fuel(Screen::run, 2);
        if second.len() == 0 {
            assert(first + second =~= first);
        } else {
            self.lemma_run_concat(first, second.drop_last());
            assert((first + second).drop_last() =~= first + second.drop_last());
            assert((first + second).last() == second.last());
        }
    }

    /// Whether the terminal can take the call as it stands. Every call but a write can
    /// be taken. A text can be written where it is one glyph with its marks, the cursor
    /// stands in a row, and the row has the columns for the glyph from the cursor on.
    pub open spec fn takes(self, op: OperationView) -> bool {
        op matches OperationView::Write(text) ==> {
            &&& glyph_text(text)
            &&& self.pos.y < self.buffer.rows.len()
            &&& self.pos.x + display_width(text[0])->0 <= self.buffer.width
        }
    }

    /// Whether the terminal can take each of the calls when its turn comes.
    pub open spec fn takes_all(self, ops: Seq<OperationView>) -> bool
        decreases ops.len(),
    {
        ops.len() == 0 || (self.takes_all(ops.drop_last()) && self.run(ops.drop_last()).takes(
            ops.last(),
        ))
    }

    /// No call can always be taken, and one call where the terminal can take it.
    pub proof fn lemma_takes_one(self, op: OperationView)
        ensures
            self.takes_all(Seq::empty()),
            self.takes_all(seq![op]) == self.takes(op),
    {
        reveal_with_fuel(Screen::takes_all, 2);
        self.lemma_run_one(op);
        assert(seq![op].drop_last() =~= Seq::<OperationView>::empty());
    }

    /// Two runs of calls can be taken one after the other where they can be taken as
    /// one.
    pub proof fn lemma_takes_concat(self, first: Seq<OperationView>, second: Seq<OperationView>)
        ensures
            self.takes_all(first + second) == (self.takes_all(first) && self.run(first).takes_all(
                second,
            )),
        decreases second.len(),
    {
        if second.len() == 0 {
            assert(first + second =~= first);
        } else {
            self.lemma_takes_concat(first, second.drop_last());
            self.lemma_run_concat(first, second.drop_last());
            assert((first + second).drop_last() =~= first + second.drop_last());
            assert((first + second).last() == second.last());
        }
    }

    /// Calls keep a terminal well formed and as large as it was.
    pub proof fn lemma_run_wf(self, ops: Seq<OperationView>)
        requires
            self.wf(),
        ensures
            self.run(ops).wf(),
            self.run(ops).buffer.width == self.buffer.width,
            self.run(ops).buffer.rows.len() == self.buffer.rows.len(),
        decreases ops.len(),
    {
        reveal_with_fuel(Screen::run, 2);
        if ops.len() > 0 {
            self.lemma_run_wf(ops.drop_last());
            self.run(ops.drop_last()).lemma_apply_wf(ops.last());
        }
    }

    /// A resize keeps a terminal well formed and gives it the size that was asked for.
    pub proof fn lemma_resized_wf(self, size: Vec2<u16>)
        requires
            self.wf(),
        ensures
            self.resized(size).wf(),
            self.resized(size).buffer.width == size.x,
            self.resized(size).buffer.rows.len() == size.y,
    {
        self.buffer.lemma_resized_wf(size, self.pos.y);
    }

    /// Text keeps a terminal well formed and as large as it was, and changes neither its
    /// title nor its style nor whether and how its cursor is shown.
    pub proof fn lemma_typed_wf(self, text: Seq<char>, last: Option<Vec2<u16>>)
        requires
            self.wf(),
        ensures
            self.typed(text, last).wf(),
            self.typed(text, last).buffer.width == self.buffer.width,
            self.typed(text, last).buffer.rows.len() == self.buffer.rows.len(),
            self.typed(text, last).buffer.title == self.buffer.title,
            self.typed(text, last).style == self.style,
            self.typed(text, last).buffer.cursor is Some == self.buffer.cursor is Some,
        decreases text.len(),
    {
        if text.len() > 0 {
            let c = text[0];
            let rest = text.drop_first();
            if display_width(c) == Some(0usize) {
                match last {
                    Some(at) => {
                        crate::buffer::grid::lemma_rows_written_wf(
                            self.buffer.rows,
                            self.buffer.width as nat,
                            at,
                            c,
                            self.style,
                        );
                        self.inked(at, c).lemma_typed_wf(rest, last);
                    },
                    None => {
                        self.lemma_typed_wf(rest, last);
                    },
                }
            } else if display_width(c) == Some(1usize) || display_width(c) == Some(2usize) {
                crate::buffer::grid::lemma_rows_written_wf(
                    self.buffer.rows,
                    self.buffer.width as nat,
                    self.pos,
                    c,
                    self.style,
                );
                if display_width(c) == Some(1usize) {
                    self.placed(c, 1).lemma_typed_wf(rest, Some(self.pos));
                } else {
                    self.placed(c, 2).lemma_typed_wf(rest, Some(self.pos));
                }
            } else {
                self.lemma_typed_wf(rest, last);
            }
        }
    }

    /// A call keeps a terminal well formed and as large as it was.
    pub proof fn lemma_apply_wf(self, op: OperationView)
        requires
            self.wf(),
        ensures
            self.apply(op).wf(),
            self.apply(op).buffer.width == self.buffer.width,
            self.apply(op).buffer.rows.len() == self.buffer.rows.len(),
    {
        match op {
            OperationView::Write(text) => {
                self.lemma_typed_wf(text, None);
            },
            _ => {},
        }
    }
}

} // verus!
