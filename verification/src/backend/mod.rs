//! Backends: what the renderer asks of a terminal.

pub mod dummy;
pub mod screen;

pub use dummy::Dummy;
pub use screen::Screen;

use crate::cursor::CursorShape;
use crate::input::Input;
use crate::style::{Color, Intensity};
use crate::vec2::Vec2;
use vstd::prelude::*;

verus! {

/// An operation on a terminal backend, stored by `Dummy`.
///
/// Each variant roughly corresponds to a method on the `Bound` trait.
#[derive(Debug, Clone, PartialEq, Eq)]
#[non_exhaustive]
pub enum Operation {
    /// The title was set.
    SetTitle(String),
    /// The cursor was hidden.
    HideCursor,
    /// The cursor was shown.
    ShowCursor,
    /// The cursor's shape was set.
    SetCursorShape(CursorShape),
    /// Whether the cursor blinks was set.
    SetCursorBlinking(bool),
    /// The position of the cursor was set.
    SetCursorPos(Vec2<u16>),
    /// The foreground color was set.
    SetForeground(Color),
    /// The background color was set.
    SetBackground(Color),
    /// The text intensity was set.
    SetIntensity(Intensity),
    /// Whether the text is emphasized was set.
    SetItalic(bool),
    /// Whether the text is underlined was set.
    SetUnderlined(bool),
    /// Whether the text blinks was set.
    SetBlinking(bool),
    /// Whether the text is crossed out was set.
    SetCrossedOut(bool),
    /// Text was written to the output.
    Write(String),
    /// The output was flushed.
    Flush,
}

/// A call of a backend, as a mathematical value.
pub enum OperationView {
    /// The title was set.
    SetTitle(Seq<char>),
    /// The cursor was hidden.
    HideCursor,
    /// The cursor was shown.
    ShowCursor,
    /// The cursor's shape was set.
    SetCursorShape(CursorShape),
    /// Whether the cursor blinks was set.
    SetCursorBlinking(bool),
    /// The position of the cursor was set.
    SetCursorPos(Vec2<u16>),
    /// The foreground color was set.
    SetForeground(Color),
    /// The background color was set.
    SetBackground(Color),
    /// The text intensity was set.
    SetIntensity(Intensity),
    /// Whether the text is emphasized was set.
    SetItalic(bool),
    /// Whether the text is underlined was set.
    SetUnderlined(bool),
    /// Whether the text blinks was set.
    SetBlinking(bool),
    /// Whether the text is crossed out was set.
    SetCrossedOut(bool),
    /// Text was written to the output.
    Write(Seq<char>),
    /// The output was flushed.
    Flush,
}

impl View for Operation {
    type V = OperationView;

    open spec fn view(&self) -> OperationView {
        match *self {
            Operation::SetTitle(title) => OperationView::SetTitle(title@),
            Operation::HideCursor => OperationView::HideCursor,
            Operation::ShowCursor => OperationView::ShowCursor,
            Operation::SetCursorShape(shape) => OperationView::SetCursorShape(shape),
            Operation::SetCursorBlinking(blinking) => OperationView::SetCursorBlinking(blinking),
            Operation::SetCursorPos(pos) => OperationView::SetCursorPos(pos),
            Operation::SetForeground(color) => OperationView::SetForeground(color),
            Operation::SetBackground(color) => OperationView::SetBackground(color),
            Operation::SetIntensity(intensity) => OperationView::SetIntensity(intensity),
            Operation::SetItalic(italic) => OperationView::SetItalic(italic),
            Operation::SetUnderlined(underlined) => OperationView::SetUnderlined(underlined),
            Operation::SetBlinking(blinking) => OperationView::SetBlinking(blinking),
            Operation::SetCrossedOut(crossed_out) => OperationView::SetCrossedOut(crossed_out),
            Operation::Write(text) => OperationView::Write(text@),
            Operation::Flush => OperationView::Flush,
        }
    }
}

/// An event on the terminal.
#[derive(Debug, Clone, Copy, Hash, PartialEq, Eq, Structural)]
pub enum TerminalEvent {
    /// A user input occurred.
    ///
    /// If it is a mouse input, the `size` field is ignored, so you can fill it with anything.
    Input(Input),
    /// The terminal was resized. Contains the new size.
    Resize(Vec2<u16>),
}

/// Whether a backend call that returned `result` took the backend's record from `before`
/// to `after`: a call that succeeds is added to the record, and a call that fails leaves
/// the record as it was.
pub open spec fn recorded<E>(
    before: Seq<OperationView>,
    after: Seq<OperationView>,
    result: Result<(), E>,
    op: OperationView,
) -> bool {
    match result {
        Ok(_) => after == before.push(op),
        Err(_) => after == before,
    }
}

/// Whether a backend call that returned `result` took the terminal that the backend
/// keeps from `before` to `after`: where the backend keeps a terminal and the call
/// succeeds, the terminal is as [`Screen::apply`] says.
pub open spec fn shown_next<E>(
    before: Option<Screen>,
    after: Option<Screen>,
    result: Result<(), E>,
    op: OperationView,
) -> bool {
    (result is Ok && before is Some) ==> after == Some(before->0.apply(op))
}

/// Whether the terminal that a backend keeps went from `before` to `after` by the
/// calls: where the backend keeps a terminal, it is the terminal after those calls.
pub open spec fn shown_after(before: Option<Screen>, after: Option<Screen>, ops: Seq<OperationView>) -> bool {
    before is Some ==> after == Some(before->0.run(ops))
}

/// A backend bound to a TTY.
///
/// Operations should be buffered and `flush` should flush them.
///
/// A backend keeps, as a mathematical value, the record of the calls that it has taken.
/// That record is what the renderer's contracts speak of. A backend that keeps its
/// terminal itself, as [`Dummy`] does, also says what that terminal is: of such a backend
/// the renderer's contracts say what it shows.
pub trait Bound: Sized {
    /// Error executing an operation.
    type Error;

    /// What `reset` hands back: the device that the backend was bound to.
    type Tty;

    /// The implementor's invariant. Every method asks for it and keeps it.
    open spec fn valid(&self) -> bool {
        true
    }

    /// The calls that the backend has taken, in order.
    open spec fn calls(&self) -> Seq<OperationView> {
        arbitrary()
    }

    /// The terminal that the backend keeps, where it keeps one itself: then every call
    /// that succeeds does to it what [`Screen::apply`] says. A backend that hands its
    /// calls on to a device keeps none.
    open spec fn shows(&self) -> Option<Screen> {
        None
    }

    // General functions
    /// Get the size of the terminal.
    fn size(&mut self) -> (r: Result<Vec2<u16>, Self::Error>)
        requires
            old(self).valid(),
        ensures
            final(self).valid(),
            final(self).calls() == old(self).calls(),
            final(self).shows() == old(self).shows(),
            (r is Ok && old(self).shows() is Some) ==> r->Ok_0 == (Vec2 {
                x: old(self).shows()->0.buffer.width,
                y: old(self).shows()->0.buffer.rows.len() as u16,
            }),
    ;

    /// Set the title of the terminal.
    fn set_title(&mut self, title: &str) -> (r: Result<(), Self::Error>)
        requires
            old(self).valid(),
        ensures
            final(self).valid(),
            recorded(old(self).calls(), final(self).calls(), r, OperationView::SetTitle(title@)),
            shown_next(old(self).shows(), final(self).shows(), r, OperationView::SetTitle(title@)),
    ;

    // Cursor functions
    /// Hide the cursor.
    fn hide_cursor(&mut self) -> (r: Result<(), Self::Error>)
        requires
            old(self).valid(),
        ensures
            final(self).valid(),
            recorded(old(self).calls(), final(self).calls(), r, OperationView::HideCursor),
            shown_next(old(self).shows(), final(self).shows(), r, OperationView::HideCursor),
    ;

    /// Show the cursor.
    fn show_cursor(&mut self) -> (r: Result<(), Self::Error>)
        requires
            old(self).valid(),
        ensures
            final(self).valid(),
            recorded(old(self).calls(), final(self).calls(), r, OperationView::ShowCursor),
            shown_next(old(self).shows(), final(self).shows(), r, OperationView::ShowCursor),
    ;

    /// Set the cursor shape.
    fn set_cursor_shape(&mut self, shape: CursorShape) -> (r: Result<(), Self::Error>)
        requires
            old(self).valid(),
        ensures
            final(self).valid(),
            recorded(
                old(self).calls(),
                final(self).calls(),
                r,
                OperationView::SetCursorShape(shape),
            ),
            shown_next(
                old(self).shows(),
                final(self).shows(),
                r,
                OperationView::SetCursorShape(shape),
            ),
    ;

    /// Set whether the cursor blinks.
    fn set_cursor_blinking(&mut self, blinking: bool) -> (r: Result<(), Self::Error>)
        requires
            old(self).valid(),
        ensures
            final(self).valid(),
            recorded(
                old(self).calls(),
                final(self).calls(),
                r,
                OperationView::SetCursorBlinking(blinking),
            ),
            shown_next(
                old(self).shows(),
                final(self).shows(),
                r,
                OperationView::SetCursorBlinking(blinking),
            ),
    ;

    /// Set the position of the cursor (zero-indexed).
    fn set_cursor_pos(&mut self, pos: Vec2<u16>) -> (r: Result<(), Self::Error>)
        requires
            old(self).valid(),
        ensures
            final(self).valid(),
            recorded(old(self).calls(), final(self).calls(), r, OperationView::SetCursorPos(pos)),
            shown_next(old(self).shows(), final(self).shows(), r, OperationView::SetCursorPos(pos)),
    ;

    // Style functions
    /// Set the foreground color to write with.
    fn set_foreground(&mut self, foreground: Color) -> (r: Result<(), Self::Error>)
        requires
            old(self).valid(),
        ensures
            final(self).valid(),
            recorded(
                old(self).calls(),
                final(self).calls(),
                r,
                OperationView::SetForeground(foreground),
            ),
            shown_next(
                old(self).shows(),
                final(self).shows(),
                r,
                OperationView::SetForeground(foreground),
            ),
    ;

    /// Set the background color to write with.
    fn set_background(&mut self, background: Color) -> (r: Result<(), Self::Error>)
        requires
            old(self).valid(),
        ensures
            final(self).valid(),
            recorded(
                old(self).calls(),
                final(self).calls(),
                r,
                OperationView::SetBackground(background),
            ),
            shown_next(
                old(self).shows(),
                final(self).shows(),
                r,
                OperationView::SetBackground(background),
            ),
    ;

    /// Set the text intensity.
    fn set_intensity(&mut self, intensity: Intensity) -> (r: Result<(), Self::Error>)
        requires
            old(self).valid(),
        ensures
            final(self).valid(),
            recorded(
                old(self).calls(),
                final(self).calls(),
                r,
                OperationView::SetIntensity(intensity),
            ),
            shown_next(
                old(self).shows(),
                final(self).shows(),
                r,
                OperationView::SetIntensity(intensity),
            ),
    ;

    /// Set whether the text is emphasized.
    fn set_italic(&mut self, italic: bool) -> (r: Result<(), Self::Error>)
        requires
            old(self).valid(),
        ensures
            final(self).valid(),
            recorded(old(self).calls(), final(self).calls(), r, OperationView::SetItalic(italic)),
            shown_next(old(self).shows(), final(self).shows(), r, OperationView::SetItalic(italic)),
    ;

    /// Set whether the text is underlined.
    fn set_underlined(&mut self, underlined: bool) -> (r: Result<(), Self::Error>)
        requires
            old(self).valid(),
        ensures
            final(self).valid(),
            recorded(
                old(self).calls(),
                final(self).calls(),
                r,
                OperationView::SetUnderlined(underlined),
            ),
            shown_next(
                old(self).shows(),
                final(self).shows(),
                r,
                OperationView::SetUnderlined(underlined),
            ),
    ;

    /// Set whether the text blinks.
    fn set_blinking(&mut self, blinking: bool) -> (r: Result<(), Self::Error>)
        requires
            old(self).valid(),
        ensures
            final(self).valid(),
            recorded(
                old(self).calls(),
                final(self).calls(),
                r,
                OperationView::SetBlinking(blinking),
            ),
            shown_next(
                old(self).shows(),
                final(self).shows(),
                r,
                OperationView::SetBlinking(blinking),
            ),
    ;

    /// Set whether the text is crossed out.
    fn set_crossed_out(&mut self, crossed_out: bool) -> (r: Result<(), Self::Error>)
        requires
            old(self).valid(),
        ensures
            final(self).valid(),
            recorded(
                old(self).calls(),
                final(self).calls(),
                r,
                OperationView::SetCrossedOut(crossed_out),
            ),
            shown_next(
                old(self).shows(),
                final(self).shows(),
                r,
                OperationView::SetCrossedOut(crossed_out),
            ),
    ;

    // Writing
    /// Write text to the output.
    ///
    /// The renderer hands over the text of one cell at a time: a glyph and the marks that
    /// belong to it, without control characters. Writing text will never cause the line to
    /// overflow or wrap.
    fn write(&mut self, text: &str) -> (r: Result<(), Self::Error>)
        requires
            old(self).valid(),
        ensures
            final(self).valid(),
            recorded(old(self).calls(), final(self).calls(), r, OperationView::Write(text@)),
            shown_next(old(self).shows(), final(self).shows(), r, OperationView::Write(text@)),
    ;

    // Finalizing functions
    /// Flush all buffered actions to the tty.
    fn flush(&mut self) -> (r: Result<(), Self::Error>)
        requires
            old(self).valid(),
        ensures
            final(self).valid(),
            recorded(old(self).calls(), final(self).calls(), r, OperationView::Flush),
            shown_next(old(self).shows(), final(self).shows(), r, OperationView::Flush),
    ;

    /// Whether `reset` may end with this result for the backend as it stands. A backend
    /// says here what it knows of the device that it is bound to.
    open spec fn resets_to(&self, result: Result<Self::Tty, Self::Error>) -> bool {
        true
    }

    /// Reset the terminal to its initial state, returning the TTY.
    ///
    /// This will always be called.
    fn reset(self) -> (r: Result<Self::Tty, Self::Error>)
        requires
            self.valid(),
        ensures
            self.resets_to(r),
    ;
}

} // verus!
