//! The renderer: it owns the frame that the backend shows and the frame that is drawn
//! next, and brings the backend from the one to the other.

use crate::backend::{shown_after, Bound, OperationView, Screen, TerminalEvent};
use crate::buffer::{Buffer, BufferView, Grid};
use crate::cursor::Cursor;
use crate::diff::{assumed, diff, frame_pass, in_step, lemma_setup_run, send_setup, sent, Pen};
pub use crate::diff::{setup_ops, setup_pen};
use crate::element::{drawn_all, lemma_buffer_drew_all, lemma_drawn_all_wf, Element};
use crate::events::Vector;
use crate::input::{Input, Mouse};
use crate::output::Output;
use crate::style::Style;
use crate::vec2::Vec2;
use vstd::prelude::*;

verus! {

/// `std::io::Error`: an error from acquiring or releasing the terminal device.
#[verifier::external_type_specification]
#[verifier::external_body]
pub struct ExIoError(std::io::Error);

/// An error of the renderer.
#[derive(Debug)]
#[non_exhaustive]
pub enum Error<B> {
    /// An error in the backend.
    Backend(B),
    /// An I/O error.
    Io(std::io::Error),
}

impl<B> vstd::std_specs::convert::FromSpecImpl<B> for Error<B> {
    open spec fn obeys_from_spec() -> bool {
        true
    }

    open spec fn from_spec(e: B) -> Self {
        Error::Backend(e)
    }
}

impl<B> From<B> for Error<B> {
    /// The backend's error as an error of the renderer.
    fn from(e: B) -> (error: Self) {
        Self::Backend(e)
    }
}

/// The input as the element gets it: a mouse input carries the size of the frame.
pub open spec fn input_for_frame(input: Input, size: Vec2<u16>) -> Input {
    match input {
        Input::Key(press) => Input::Key(press),
        Input::Mouse(mouse) => Input::Mouse(Mouse { size, ..mouse }),
    }
}

/// What the renderer does next after an event.
#[derive(Debug)]
pub enum Step<E> {
    /// Nothing came of the event: wait for the next one.
    Wait,
    /// The terminal has another size: draw again, then wait.
    Redraw,
    /// The element answered the input with these events, at least one: hand them out.
    Done(Vec<E>),
}

/// A terminal which can draw elements to a backend.
#[derive(Debug)]
pub struct Terminal<B: Bound> {
    backend: B,
    /// Holds the previous frame to diff against.
    old_buffer: Buffer,
    /// Is always a clear buffer, kept around to avoid cloning the buffer each draw.
    buffer: Buffer,
    /// The style being written with, and the position of the backend's cursor.
    pen: Pen,
}

impl<B: Bound> Terminal<B> {
    /// The backend.
    pub closed spec fn bound(&self) -> B {
        self.backend
    }

    /// The frame that the backend shows.
    pub closed spec fn shown(&self) -> BufferView {
        self.old_buffer@
    }

    /// The frame that is drawn next.
    pub closed spec fn frame(&self) -> BufferView {
        self.buffer@
    }

    /// What the renderer remembers of the backend.
    pub closed spec fn pen(&self) -> Pen {
        self.pen
    }

    /// The terminal as the renderer takes it to be: it shows the frame that the renderer has
    /// brought it to, writes in the pen's style and has its cursor where the pen has it.
    pub open spec fn assumed(&self) -> Screen {
        assumed(self.shown(), self.pen())
    }

    /// Whether the backend keeps its terminal itself, and that terminal is as the renderer
    /// takes it to be.
    pub open spec fn in_step(&self) -> bool {
        in_step(self.bound().shows(), self.shown(), self.pen())
    }

    /// The invariant of the renderer: its backend and its two frames are valid, and the
    /// two frames are equally large.
    pub open spec fn wf(&self) -> bool {
        &&& self.bound().valid()
        &&& self.shown().wf()
        &&& self.frame().wf()
        &&& self.shown().width == self.frame().width
        &&& self.shown().rows.len() == self.frame().rows.len()
    }

    /// Create a new terminal with the given backend.
    ///
    /// The backend is prepared with the calls of [`setup_ops`] and asked for its size. The
    /// first of these calls that fails ends the setup, and its error is returned.
    ///
    /// A backend that keeps its terminal itself, with nothing on it yet, is in step with
    /// the new renderer.
    pub fn new(backend: B) -> (r: Result<Self, Error<B::Error>>)
        requires
            backend.valid(),
        ensures
            match r {
                Ok(terminal) => {
                    &&& terminal.wf()
                    &&& terminal.bound().calls() == backend.calls() + setup_ops()
                    &&& terminal.pen() == setup_pen()
                    &&& terminal.shown() == terminal.frame()
                    &&& terminal.frame() == terminal.frame().blank()
                    &&& shown_after(backend.shows(), terminal.bound().shows(), setup_ops())
                    &&& (backend.shows() matches Some(kept) && kept.wf() && kept.buffer.rows
                        == kept.buffer.blank().rows && kept.buffer.title
                        == kept.buffer.blank().title) ==> terminal.in_step()
                },
                Err(e) => e is Backend,
            },
    {
        let ghost kept = backend.shows();
        proof {
            if kept is Some {
                lemma_setup_run(kept->0);
            }
        }
        let mut backend = backend;
        match send_setup(&mut backend) {
            Ok(_) => {},
            Err(e) => {
                return Err(Error::Backend(e));
            },
        }
        let size = match backend.size() {
            Ok(size) => size,
            Err(e) => {
                return Err(Error::Backend(e));
            },
        };
        let buffer = Buffer { grid: Grid::blank(size), cursor: None, title: String::new() };
        let old_buffer = Buffer { grid: Grid::blank(size), cursor: None, title: String::new() };
        Ok(
            Self {
                backend,
                old_buffer,
                buffer,
                pen: Pen { style: Style::default(), pos: Vec2 { x: 0, y: 0 } },
            },
        )
    }

    /// Makes the backend calls that turn the frame that the backend shows into the next
    /// frame, as [`frame_pass`] says, and keeps the pen up to date. The frames stay as
    /// they are.
    ///
    /// The first call that fails ends the pass: its error is returned, and the calls after
    /// it are not made.
    pub fn diff(&mut self) -> (r: Result<(), Error<B::Error>>)
        requires
            old(self).wf(),
        ensures
            final(self).wf(),
            final(self).shown() == old(self).shown(),
            final(self).frame() == old(self).frame(),
            sent(
                old(self).bound().calls(),
                final(self).bound().calls(),
                r,
                frame_pass(old(self).shown(), old(self).frame(), old(self).pen()).ops,
            ),
            r is Ok ==> final(self).pen() == frame_pass(
                old(self).shown(),
                old(self).frame(),
                old(self).pen(),
            ).pen,
            (r is Ok && old(self).in_step()) ==> in_step(
                final(self).bound().shows(),
                final(self).frame(),
                final(self).pen(),
            ),
            r matches Err(e) ==> e is Backend,
    {
        match diff(&mut self.backend, &self.old_buffer, &self.buffer, &mut self.pen) {
            Ok(_) => Ok(()),
            Err(e) => Err(Error::Backend(e)),
        }
    }

    /// Draws the element into the next frame, brings the backend to that frame and
    /// flushes it. Then the frame that the backend showed before is reset and becomes the
    /// next frame to draw into.
    ///
    /// The first backend call that fails ends the work: its error is returned, the calls
    /// after it are not made, and the frames are not exchanged.
    ///
    /// A backend that keeps its terminal itself, and was in step with the renderer, shows
    /// what the element has drawn after a rendering that went through, and is in step
    /// again.
    pub fn render<E: Element>(&mut self, element: &E) -> (r: Result<(), Error<B::Error>>)
        requires
            old(self).wf(),
            element.wf(),
        ensures
            final(self).wf(),
            ({
                let drawn = drawn_all(
                    old(self).frame(),
                    element.drawing(
                        Vec2 { x: old(self).frame().width, y: old(self).frame().rows.len() as u16 },
                    ),
                );
                let pass = frame_pass(old(self).shown(), drawn, old(self).pen());
                &&& sent(
                    old(self).bound().calls(),
                    final(self).bound().calls(),
                    r,
                    pass.ops + seq![OperationView::Flush],
                )
                &&& r is Ok ==> {
                    &&& final(self).shown() == drawn
                    &&& final(self).frame() == old(self).shown().blank()
                    &&& final(self).pen() == pass.pen
                }
                &&& r is Err ==> {
                    &&& final(self).shown() == old(self).shown()
                    &&& final(self).frame() == drawn
                }
            }),
            (r is Ok && old(self).in_step()) ==> final(self).in_step(),
            r matches Err(e) ==> e is Backend,
    {
        let ghost size = Vec2 { x: self.frame().width, y: self.frame().rows.len() as u16 };
        let ghost before = self.buffer;
        let ghost start = self.backend.calls();
        let ghost empty = Seq::<OperationView>::empty();
        let mut frame = Buffer::default();
        core::mem::swap(&mut self.buffer, &mut frame);
        self.buffer = element.draw(frame);
        proof {
            lemma_buffer_drew_all(before, self.buffer, element.drawing(size));
            lemma_drawn_all_wf(before@, element.drawing(size));
        }
        let ghost pass = frame_pass(self.old_buffer@, self.buffer@, self.pen);
        let ghost total = pass.ops + seq![OperationView::Flush];
        assert(start + empty =~= start);
        let r = diff(&mut self.backend, &self.old_buffer, &self.buffer, &mut self.pen);
        proof {
            crate::diff::lemma_sent_step(
                start,
                start,
                self.backend.calls(),
                r,
                r,
                empty,
                pass.ops,
                seq![OperationView::Flush],
                total,
            );
        }
        match r {
            Ok(_) => {},
            Err(e) => {
                return Err(Error::Backend(e));
            },
        }
        let ghost sent_pass = self.backend.calls();
        let r = self.backend.flush();
        proof {
            crate::diff::lemma_recorded_sent(
                sent_pass,
                self.backend.calls(),
                r,
                OperationView::Flush,
            );
            crate::diff::lemma_sent_step(
                start,
                sent_pass,
                self.backend.calls(),
                r,
                r,
                empty + pass.ops,
                seq![OperationView::Flush],
                empty,
                total,
            );
            assert(empty + pass.ops + seq![OperationView::Flush] =~= total);
        }
        match r {
            Ok(_) => {},
            Err(e) => {
                return Err(Error::Backend(e));
            },
        }
        self.old_buffer.reset();
        core::mem::swap(&mut self.old_buffer, &mut self.buffer);
        Ok(())
    }

    /// Says what the renderer does next after an event, and makes the renderer ready for
    /// it.
    ///
    /// - An input goes to the element, a mouse input with the size of the frame in it. Where
    ///   the element answers it with events, they are handed out; otherwise the renderer
    ///   waits on.
    /// - A resize to the size that the frames have changes nothing, and the renderer waits
    ///   on. Any other resize cuts or grows both frames, with the row of the pen as the
    ///   anchor, and pulls the pen back into the frame, as [`Screen::resized`] says of the
    ///   terminal itself: a terminal that was in step with the renderer and has been
    ///   resized is in step again. The element is drawn again.
    pub fn handle_event<E: Element>(&mut self, element: &E, event: TerminalEvent) -> (step: Step<
        E::Event,
    >)
        requires
            old(self).wf(),
            element.wf(),
        ensures
            final(self).wf(),
            final(self).bound() == old(self).bound(),
            ({
                let size = Vec2 {
                    x: old(self).frame().width,
                    y: old(self).frame().rows.len() as u16,
                };
                match event {
                    TerminalEvent::Input(input) => {
                        &&& final(self).shown() == old(self).shown()
                        &&& final(self).frame() == old(self).frame()
                        &&& final(self).pen() == old(self).pen()
                        &&& match step {
                            Step::Wait => element.reacts(
                                input_for_frame(input, size),
                                Seq::empty(),
                            ),
                            Step::Done(given) => given@.len() > 0 && element.reacts(
                                input_for_frame(input, size),
                                given@,
                            ),
                            Step::Redraw => false,
                        }
                    },
                    TerminalEvent::Resize(to) => if to == size {
                        &&& step is Wait
                        &&& final(self).shown() == old(self).shown()
                        &&& final(self).frame() == old(self).frame()
                        &&& final(self).pen() == old(self).pen()
                    } else {
                        &&& step is Redraw
                        &&& final(self).assumed() == old(self).assumed().resized(to)
                        &&& final(self).frame() == old(self).frame().resized(
                            to,
                            old(self).pen().pos.y,
                        )
                    },
                }
            }),
    {
        let size = self.buffer.size();
        match event {
            TerminalEvent::Input(input) => {
                let input = match input {
                    Input::Key(press) => Input::Key(press),
                    Input::Mouse(mouse) => Input::Mouse(Mouse { size, ..mouse }),
                };
                let mut events = Vector(Vec::new());
                element.handle(input, &mut events);
                assert(events.0@.skip(0) =~= events.0@);
                if events.0.len() > 0 {
                    Step::Done(events.0)
                } else {
                    Step::Wait
                }
            },
            TerminalEvent::Resize(to) => {
                if to.x == size.x && to.y == size.y {
                    Step::Wait
                } else {
                    let anchor = self.pen.pos.y;
                    self.buffer.resize_with_anchor(to, anchor);
                    self.old_buffer.resize_with_anchor(to, anchor);
                    let x = if to.x == 0 {
                        0
                    } else if self.pen.pos.x < to.x {
                        self.pen.pos.x
                    } else {
                        to.x - 1
                    };
                    let y = if to.y == 0 {
                        0
                    } else if self.pen.pos.y < to.y {
                        self.pen.pos.y
                    } else {
                        to.y - 1
                    };
                    self.pen.pos = Vec2 { x, y };
                    match self.old_buffer.cursor {
                        Some(cursor) => {
                            self.old_buffer.cursor = Some(Cursor { pos: self.pen.pos, ..cursor });
                        },
                        None => {},
                    }
                    Step::Redraw
                }
            },
        }
    }

    /// Replaces the frame that the backend is taken to show and the frame that is drawn
    /// next. The two frames must be equally large: where they are not, nothing changes.
    pub fn set_frames(&mut self, shown: Buffer, next: Buffer) -> (done: bool)
        requires
            old(self).wf(),
            shown.wf(),
            next.wf(),
        ensures
            final(self).wf(),
            final(self).bound() == old(self).bound(),
            final(self).pen() == old(self).pen(),
            done == (shown@.width == next@.width && shown@.rows.len() == next@.rows.len()),
            done ==> final(self).shown() == shown@ && final(self).frame() == next@,
            !done ==> final(self).shown() == old(self).shown() && final(self).frame() == old(
                self,
            ).frame(),
    {
        let a = shown.size();
        let b = next.size();
        if a.x == b.x && a.y == b.y {
            self.old_buffer = shown;
            self.buffer = next;
            true
        } else {
            false
        }
    }

    /// Get a reference to the terminal's backend.
    #[must_use]
    pub fn backend(&self) -> (backend: &B)
        ensures
            *backend == self.bound(),
    {
        &self.backend
    }

    /// Get a mutable reference to the terminal's backend.
    #[must_use]
    pub fn backend_mut(&mut self) -> (backend: &mut B)
        ensures
            *backend == old(self).bound(),
            final(self).bound() == *final(backend),
            final(self).shown() == old(self).shown(),
            final(self).frame() == old(self).frame(),
            final(self).pen() == old(self).pen(),
    {
        &mut self.backend
    }

    /// Clean up the terminal: the backend is reset and hands back the device that it was
    /// bound to.
    pub fn cleanup(self) -> (r: Result<B::Tty, Error<B::Error>>)
        requires
            self.wf(),
        ensures
            match r {
                Ok(tty) => self.bound().resets_to(Ok(tty)),
                Err(Error::Backend(e)) => self.bound().resets_to(Err(e)),
                Err(Error::Io(_)) => false,
            },
    {
        lift(self.backend.reset())
    }
}

/// The result of a backend call as a result of the renderer: what the call gave stays,
/// and its error becomes an [`Error::Backend`].
pub open spec fn lifted<T, E>(given: Result<T, E>) -> Result<T, Error<E>> {
    match given {
        Ok(value) => Ok(value),
        Err(e) => Err(Error::Backend(e)),
    }
}

/// Hands on the result of a backend call as a result of the renderer, as [`lifted`]
/// says.
pub fn lift<T, E>(given: Result<T, E>) -> (r: Result<T, Error<E>>)
    ensures
        r == lifted(given),
{
    match given {
        Ok(value) => Ok(value),
        Err(e) => Err(Error::Backend(e)),
    }
}

} // verus!
