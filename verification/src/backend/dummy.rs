//! A backend that draws to a buffer in memory.

use crate::backend::screen::{clamp_column, Screen};
use crate::backend::{Bound, Operation, OperationView, TerminalEvent};
use crate::buffer::{Buffer, Grid};
use crate::cursor::{Cursor, CursorShape};
use crate::output::Output;
use crate::style::{Color, Intensity, Style};
use crate::vec2::Vec2;
use crate::width::{char_width, display_width, present};
use core::convert::Infallible;
use std::collections::VecDeque;
use vstd::prelude::*;
use vstd::std_specs::iter::IteratorSpec;

verus! {

/// A dummy backend for testing.
///
/// This backend doesn't display any output to the screen, but records all operations it receives
/// and stores a terminal buffer, which it keeps as a terminal would: see [`Screen`].
#[derive(Debug)]
#[non_exhaustive]
pub struct Dummy {
    /// The operations the dummy backend has received.
    pub operations: Vec<Operation>,
    /// Events to feed the terminal. They will be popped from the front of the queue.
    pub events: VecDeque<TerminalEvent>,
    /// The buffer the dummy backend writes to.
    pub buffer: Buffer,
    /// The current position of the cursor.
    ///
    /// Unlike `buffer.cursor`, this stores the position of the cursor even when the cursor is
    /// hidden. This is the cursor position used for drawing.
    pub cursor_pos: Vec2<u16>,
    /// The current style being written with.
    pub style: Style,
}

impl Dummy {
    /// The terminal that the backend stands for.
    pub open spec fn screen(&self) -> Screen {
        Screen { buffer: self.buffer@, pos: self.cursor_pos, style: self.style }
    }

    /// Create a new dummy backend with the given size.
    ///
    /// The cursor is hidden in the buffer and at `(0, 0)` in `cursor_pos`.
    #[must_use]
    pub fn new(size: Vec2<u16>) -> (dummy: Self)
        ensures
            dummy.valid(),
            dummy.calls() == Seq::<OperationView>::empty(),
            dummy.events@ == Seq::<TerminalEvent>::empty(),
            dummy.screen() == (Screen {
                buffer: crate::buffer::BufferView {
                    width: size.x,
                    rows: crate::buffer::grid::blank_rows(size.y as nat, size.x as nat),
                    cursor: None,
                    title: Seq::empty(),
                },
                pos: Vec2 { x: 0, y: 0 },
                style: Style::plain(),
            }),
    {
        let grid = Grid::blank(size);
        let dummy = Self {
            operations: Vec::new(),
            events: VecDeque::new(),
            buffer: Buffer { grid, cursor: None, title: String::new() },
            cursor_pos: Vec2 { x: 0, y: 0 },
            style: Style::default(),
        };
        assert(dummy.calls() =~= Seq::<OperationView>::empty());
        dummy
    }

    /// Takes the next event from the queue, if there is one. A resize is applied to the
    /// terminal: the buffer is cut or grown with the cursor's row as the anchor, and the
    /// cursor is pulled back into the new bounds.
    pub fn next_event(&mut self) -> (event: Option<TerminalEvent>)
        requires
            old(self).valid(),
        ensures
            final(self).valid(),
            final(self).calls() == old(self).calls(),
            old(self).events@.len() == 0 ==> event is None && final(self).events@ == old(
                self,
            ).events@,
            old(self).events@.len() > 0 ==> event == Some(old(self).events@[0])
                && final(self).events@ == old(self).events@.subrange(
                1,
                old(self).events@.len() as int,
            ),
            final(self).screen() == (match event {
                Some(TerminalEvent::Resize(size)) => old(self).screen().resized(size),
                _ => old(self).screen(),
            }),
    {
        let event = self.events.pop_front();
        match event {
            Some(TerminalEvent::Resize(size)) => {
                self.buffer.resize_with_anchor(size, self.cursor_pos.y);
                let x = if size.x == 0 {
                    0
                } else if self.cursor_pos.x < size.x {
                    self.cursor_pos.x
                } else {
                    size.x - 1
                };
                let y = if size.y == 0 {
                    0
                } else if self.cursor_pos.y < size.y {
                    self.cursor_pos.y
                } else {
                    size.y - 1
                };
                self.move_cursor(Vec2 { x, y });
            },
            _ => {},
        }
        event
    }

    /// Adds a call to the record.
    fn record(&mut self, op: Operation)
        ensures
            final(self).calls() == old(self).calls().push(op@),
            final(self).buffer == old(self).buffer,
            final(self).events == old(self).events,
            final(self).cursor_pos == old(self).cursor_pos,
            final(self).style == old(self).style,
    {
        self.operations.push(op);
        assert(self.calls() =~= old(self).calls().push(op@));
    }

    /// Moves the cursor, shown or hidden.
    fn move_cursor(&mut self, pos: Vec2<u16>)
        ensures
            final(self).screen() == old(self).screen().moved(pos),
            final(self).buffer.grid == old(self).buffer.grid,
            final(self).operations == old(self).operations,
            final(self).events == old(self).events,
    {
        self.cursor_pos = pos;
        match self.buffer.cursor {
            Some(cursor) => {
                self.buffer.cursor = Some(Cursor { pos, ..cursor });
            },
            None => {},
        }
    }

    /// Writes a text at the cursor, as [`Screen::typed`] says.
    fn type_text(&mut self, text: &str)
        requires
            old(self).buffer.wf(),
        ensures
            final(self).buffer.wf(),
            final(self).screen() == old(self).screen().typed(text@, None),
            final(self).operations == old(self).operations,
            final(self).events == old(self).events,
    {
        let mut last: Option<Vec2<u16>> = None;
        let mut chars = text.chars();
        loop
            invariant_except_break
                old(self).screen().typed(text@, None) == self.screen().typed(
                    chars.remaining(),
                    last,
                ),
            invariant
                self.buffer.wf(),
                self.operations == old(self).operations,
                self.events == old(self).events,
                chars.obeys_prophetic_iter_laws(),
                chars.decrease() is Some,
            ensures
                self.buffer.wf(),
                self.screen() == old(self).screen().typed(text@, None),
                self.operations == old(self).operations,
                self.events == old(self).events,
            decreases chars.decrease().unwrap(),
        {
            let next = chars.next();
            if next.is_none() {
                break ;
            }
            let c = present(next);
            let measured = char_width(c);
            if measured.is_some() {
                let width = measured.unwrap();
                if width == 0 {
                    if last.is_some() {
                        let at = last.unwrap();
                        self.buffer.write_char(at, c, self.style);
                    }
                } else if width <= 2 {
                    let at = self.cursor_pos;
                    self.buffer.write_char(at, c, self.style);
                    let total = self.buffer.grid.width();
                    let x = if (at.x as usize) + width < total as usize {
                        at.x + width as u16
                    } else if total > 0 {
                        total - 1
                    } else {
                        0
                    };
                    self.move_cursor(Vec2 { x, y: at.y });
                    last = Some(at);
                }
            }
        }
    }
}

impl Bound for Dummy {
    type Error = Infallible;

    type Tty = ();

    open spec fn valid(&self) -> bool {
        self.buffer.wf()
    }

    open spec fn calls(&self) -> Seq<OperationView> {
        self.operations@.map_values(|op: Operation| op@)
    }

    open spec fn shows(&self) -> Option<Screen> {
        Some(self.screen())
    }

    /// The reset of a terminal in memory cannot fail.
    open spec fn resets_to(&self, result: Result<(), Infallible>) -> bool {
        result is Ok
    }

    // General functions
    fn size(&mut self) -> (r: Result<Vec2<u16>, Infallible>)
        ensures
            r == Ok::<Vec2<u16>, Infallible>(old(self).buffer.extent()),
            final(self).screen() == old(self).screen(),
    {
        Ok(self.buffer.size())
    }

    fn set_title(&mut self, title: &str) -> (r: Result<(), Infallible>)
        ensures
            r is Ok,
            final(self).screen() == old(self).screen().apply(OperationView::SetTitle(title@)),
    {
        self.record(Operation::SetTitle(title.to_owned()));
        self.buffer.title = title.to_owned();
        Ok(())
    }

    // Cursor functions
    fn hide_cursor(&mut self) -> (r: Result<(), Infallible>)
        ensures
            r is Ok,
            final(self).screen() == old(self).screen().apply(OperationView::HideCursor),
    {
        self.record(Operation::HideCursor);
        self.buffer.cursor = None;
        Ok(())
    }

    fn show_cursor(&mut self) -> (r: Result<(), Infallible>)
        ensures
            r is Ok,
            final(self).screen() == old(self).screen().apply(OperationView::ShowCursor),
    {
        self.record(Operation::ShowCursor);
        self.buffer.cursor = Some(
            Cursor { shape: CursorShape::Block, blinking: false, pos: self.cursor_pos },
        );
        Ok(())
    }

    fn set_cursor_shape(&mut self, shape: CursorShape) -> (r: Result<(), Infallible>)
        ensures
            r is Ok,
            final(self).screen() == old(self).screen().apply(OperationView::SetCursorShape(shape)),
    {
        self.record(Operation::SetCursorShape(shape));
        match self.buffer.cursor {
            Some(cursor) => {
                self.buffer.cursor = Some(Cursor { shape, ..cursor });
            },
            None => {},
        }
        Ok(())
    }

    fn set_cursor_blinking(&mut self, blinking: bool) -> (r: Result<(), Infallible>)
        ensures
            r is Ok,
            final(self).screen() == old(self).screen().apply(
                OperationView::SetCursorBlinking(blinking),
            ),
    {
        self.record(Operation::SetCursorBlinking(blinking));
        match self.buffer.cursor {
            Some(cursor) => {
                self.buffer.cursor = Some(Cursor { blinking, ..cursor });
            },
            None => {},
        }
        Ok(())
    }

    fn set_cursor_pos(&mut self, pos: Vec2<u16>) -> (r: Result<(), Infallible>)
        ensures
            r is Ok,
            final(self).screen() == old(self).screen().apply(OperationView::SetCursorPos(pos)),
    {
        self.record(Operation::SetCursorPos(pos));
        self.move_cursor(pos);
        Ok(())
    }

    // Style functions
    fn set_foreground(&mut self, foreground: Color) -> (r: Result<(), Infallible>)
        ensures
            r is Ok,
            final(self).screen() == old(self).screen().apply(
                OperationView::SetForeground(foreground),
            ),
    {
        self.record(Operation::SetForeground(foreground));
        self.style.foreground = foreground;
        Ok(())
    }

    fn set_background(&mut self, background: Color) -> (r: Result<(), Infallible>)
        ensures
            r is Ok,
            final(self).screen() == old(self).screen().apply(
                OperationView::SetBackground(background),
            ),
    {
        self.record(Operation::SetBackground(background));
        self.style.background = background;
        Ok(())
    }

    fn set_intensity(&mut self, intensity: Intensity) -> (r: Result<(), Infallible>)
        ensures
            r is Ok,
            final(self).screen() == old(self).screen().apply(OperationView::SetIntensity(intensity)),
    {
        self.record(Operation::SetIntensity(intensity));
        self.style.attributes.intensity = intensity;
        Ok(())
    }

    fn set_italic(&mut self, italic: bool) -> (r: Result<(), Infallible>)
        ensures
            r is Ok,
            final(self).screen() == old(self).screen().apply(OperationView::SetItalic(italic)),
    {
        self.record(Operation::SetItalic(italic));
        self.style.attributes.italic = italic;
        Ok(())
    }

    fn set_underlined(&mut self, underlined: bool) -> (r: Result<(), Infallible>)
        ensures
            r is Ok,
            final(self).screen() == old(self).screen().apply(
                OperationView::SetUnderlined(underlined),
            ),
    {
        self.record(Operation::SetUnderlined(underlined));
        self.style.attributes.underlined = underlined;
        Ok(())
    }

    fn set_blinking(&mut self, blinking: bool) -> (r: Result<(), Infallible>)
        ensures
            r is Ok,
            final(self).screen() == old(self).screen().apply(OperationView::SetBlinking(blinking)),
    {
        self.record(Operation::SetBlinking(blinking));
        self.style.attributes.blinking = blinking;
        Ok(())
    }

    fn set_crossed_out(&mut self, crossed_out: bool) -> (r: Result<(), Infallible>)
        ensures
            r is Ok,
            final(self).screen() == old(self).screen().apply(
                OperationView::SetCrossedOut(crossed_out),
            ),
    {
        self.record(Operation::SetCrossedOut(crossed_out));
        self.style.attributes.crossed_out = crossed_out;
        Ok(())
    }

    // Writing
    fn write(&mut self, text: &str) -> (r: Result<(), Infallible>)
        ensures
            r is Ok,
            final(self).screen() == old(self).screen().apply(OperationView::Write(text@)),
    {
        self.record(Operation::Write(text.to_owned()));
        self.type_text(text);
        Ok(())
    }

    // Finalizing functions
    fn flush(&mut self) -> (r: Result<(), Infallible>)
        ensures
            r is Ok,
            final(self).screen() == old(self).screen().apply(OperationView::Flush),
    {
        self.record(Operation::Flush);
        Ok(())
    }

    fn reset(self) -> (r: Result<(), Infallible>)
        ensures
            r == Ok::<(), Infallible>(()),
    {
        Ok(())
    }
}

} // verus!
