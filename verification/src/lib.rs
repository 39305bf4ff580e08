//! A terminal rendering engine: cell grids, frame differencing and the
//! draw / diff / swap cycle that keeps a terminal in step with a description
//! of what it should show, with the elements that user interfaces are built of.
//!
//! - [`buffer`] holds what a terminal shows: cells, rows, grids and buffers.
//! - [`output`] is the interface that elements draw through, with the adapter that
//!   draws to a part of an output.
//! - [`diff`] turns the frame that a terminal shows into the next one, with no backend call
//!   for what has not changed, and [`replay`] shows that the calls do so.
//! - [`backend`] is what the renderer asks of a terminal, with a backend that keeps
//!   a terminal in memory.
//! - [`terminal`] is the renderer: it owns the two frames and decides what follows an
//!   event.
//! - [`element`] and [`elements`] are the parts that user interfaces are composed of.

pub mod backend;
pub mod buffer;
pub mod choice;
pub mod cursor;
pub mod diff;
pub mod element;
pub mod elements;
pub mod events;
pub mod input;
pub mod output;
pub mod replay;
pub mod style;
pub mod terminal;
pub mod text;
pub mod vec2;
pub mod width;

pub use backend::{Bound, Dummy, Operation, OperationView, Screen, TerminalEvent};
pub use buffer::{Buffer, BufferView, Cell, CellKind, CellView, Grid, Line};
pub use cursor::{Cursor, CursorShape};
pub use diff::{diff, Pen};
pub use element::Element;
pub use elements::{
    empty, fill, flow, row, span, stack, stretch, text, Alignment, Axis, Block, Border,
    Collection, Container1D, ElementExt, End, FillBackground, Filter, Filtered, Float, Flow,
    InnerElement, InputMask, Label, Layout1D, MapEvent, On, Scroll, ScrollOffset, Size, Span,
    Stack, Static, Stretch, Text, Tile, Title,
};
pub use events::Events;
pub use input::{Input, Key, KeyPress, Modifiers, Mouse, MouseButton, MouseKind};
pub use output::Output;
pub use style::{AnsiColor, Attributes, Color, Intensity, Rgb, Style};
pub use terminal::{Error, Step, Terminal};
pub use vec2::Vec2;
