//! Tiling.

use crate::element::Element;
use crate::elements::filter::Filter;
use crate::events::Events;
use crate::input::{Input, Mouse};
use crate::output::{
    area_ops, drew_all, gate_ops, lemma_area_drew_all, lemma_drew_all_concat,
    lemma_drew_all_keeps, lemma_gate_drew_all, Area, DrawOp, OnSetCursor, Output,
};
use crate::vec2::Vec2;
use vstd::prelude::*;

verus! {

/// The length of a tile along an axis: what the element asks for, and at least one cell.
pub open spec fn tile_length(ideal: u16) -> u16 {
    if ideal >= 1 {
        ideal
    } else {
        1
    }
}

/// The number of the first tile along an axis: the tile before the output's first cell
/// where the tiles are offset, and the tile at the first cell otherwise.
pub open spec fn tile_first(offset: u16) -> int {
    if offset == 0 {
        0
    } else {
        -1
    }
}

/// The number behind the last tile along an axis: every tile that begins within the
/// output is drawn.
pub open spec fn tile_end(length: u16, shown: u16) -> int {
    if length == 0 {
        0
    } else if shown % length == 0 {
        shown as int / length as int
    } else {
        shown as int / length as int + 1
    }
}

/// The cell of a tile that the position `at` lies in, for tiles of the given length that
/// are offset by `offset`.
pub open spec fn tile_cell(at: u16, offset: u16, length: u16) -> u16 {
    if length == 0 {
        0
    } else if at >= offset {
        ((at - offset) % length as int) as u16
    } else {
        ((at + length - offset) % length as int) as u16
    }
}

/// Computes [`tile_cell`].
fn cell_of(at: u16, offset: u16, length: u16) -> (cell: u16)
    requires
        length > 0 ==> offset < length,
    ensures
        cell == tile_cell(at, offset, length),
{
    if length == 0 {
        0
    } else if at >= offset {
        (at - offset) % length
    } else {
        let shifted: u32 = at as u32 + length as u32 - offset as u32;
        let cell = shifted % (length as u32);
        cell as u16
    }
}

/// The drawing calls of the first `upto` rows of the tiles in the column `i`.
pub open spec fn tile_column_ops(
    ops: Seq<DrawOp>,
    offset: Vec2<u16>,
    size: Vec2<u16>,
    i: int,
    first: int,
    upto: int,
) -> Seq<DrawOp>
    decreases upto - first,
{
    if upto <= first {
        Seq::empty()
    } else {
        tile_column_ops(ops, offset, size, i, first, upto - 1) + area_ops(
            Vec2 { x: (i * size.x + offset.x) as i32, y: ((upto - 1) * size.y + offset.y) as i32 },
            size,
            gate_ops(false, ops),
        )
    }
}

/// The drawing calls of the first `upto` columns of tiles: column by column from the
/// left, and each column from the top. Each tile takes the element's calls but for the
/// cursor.
pub open spec fn tile_ops(
    ops: Seq<DrawOp>,
    offset: Vec2<u16>,
    size: Vec2<u16>,
    shown: Vec2<u16>,
    upto: int,
) -> Seq<DrawOp>
    decreases upto - tile_first(offset.x),
{
    if upto <= tile_first(offset.x) {
        Seq::empty()
    } else {
        tile_ops(ops, offset, size, shown, upto - 1) + tile_column_ops(
            ops,
            offset,
            size,
            upto - 1,
            tile_first(offset.y),
            tile_end(size.y, shown.y),
        )
    }
}

/// A filter that tiles an element: the element is repeated to fill the output.
#[derive(Debug, Clone, Copy, PartialEq, Eq, Structural)]
#[non_exhaustive]
pub struct Tile {
    /// The offset of the first tile along each axis. Along an axis without one the element
    /// is not tiled.
    pub offset: Vec2<Option<u16>>,
}

impl Tile {
    /// Create a filter that tiles an element.
    #[must_use]
    pub fn new(offset: Vec2<Option<u16>>) -> (tile: Self)
        ensures
            tile.offset == offset,
    {
        Self { offset }
    }

    /// The size of a tile in an output of the given size: along an axis that is tiled the
    /// length that the element asks for, and at least one cell; along the others the
    /// length of the output.
    pub open spec fn size_in<T: Element>(self, element: &T, output_size: Vec2<u16>) -> Vec2<u16> {
        let width = match self.offset.x {
            Some(_) => tile_length(element.width_for(output_size.y, None)),
            None => output_size.x,
        };
        Vec2 {
            x: width,
            y: match self.offset.y {
                Some(_) => tile_length(element.height_for(width, None)),
                None => output_size.y,
            },
        }
    }

    /// How far the tiles are offset in an output of the given size: less than a tile.
    pub open spec fn offset_in<T: Element>(self, element: &T, output_size: Vec2<u16>) -> Vec2<u16> {
        let size = self.size_in(element, output_size);
        Vec2 {
            x: match self.offset.x {
                Some(offset) => (offset % size.x) as u16,
                None => 0,
            },
            y: match self.offset.y {
                Some(offset) => (offset % size.y) as u16,
                None => 0,
            },
        }
    }

    /// How far the tiles are offset in an output of the given size, and the size of a tile.
    pub fn layout<T: Element>(self, element: &T, output_size: Vec2<u16>) -> (r: (Vec2<u16>, Vec2<u16>))
        requires
            element.wf(),
        ensures
            r == (self.offset_in(element, output_size), self.size_in(element, output_size)),
    {
        let (width, offset_x) = match self.offset.x {
            Some(offset) => {
                let ideal = element.ideal_width(output_size.y, None);
                let width = if ideal >= 1 {
                    ideal
                } else {
                    1
                };
                (width, offset % width)
            },
            None => (output_size.x, 0),
        };
        let (height, offset_y) = match self.offset.y {
            Some(offset) => {
                let ideal = element.ideal_height(width, None);
                let height = if ideal >= 1 {
                    ideal
                } else {
                    1
                };
                (height, offset % height)
            },
            None => (output_size.y, 0),
        };
        (Vec2 { x: offset_x, y: offset_y }, Vec2 { x: width, y: height })
    }
}

/// The number of the first tile along an axis and the number behind the last one.
fn tile_range(offset: u16, length: u16, shown: u16) -> (r: (i32, i32))
    requires
        length > 0,
    ensures
        r.0 == tile_first(offset),
        r.1 == tile_end(length, shown),
        -1 <= r.0 <= 0,
        0 <= r.1 <= 65536,
        (r.1 - 1) * length < shown || r.1 == 0,
{
    let first: i32 = if offset == 0 {
        0
    } else {
        -1
    };
    let complete = (shown / length) as i32;
    assert((shown as int / length as int) * length <= shown) by (nonlinear_arith)
        requires
            length > 0,
    ;
    assert(shown == (shown as int / length as int) * length + shown as int % length as int)
        by (nonlinear_arith)
        requires
            length > 0,
    ;
    let end = if shown % length == 0 {
        assert((shown as int / length as int - 1) * length < shown || shown as int / length as int
            == 0) by (nonlinear_arith)
            requires
                length > 0,
                (shown as int / length as int) * length <= shown,
        ;
        complete
    } else {
        complete + 1
    };
    (first, end)
}

/// Draws one tile: the element, without its cursor, in the area at `top_left`.
fn draw_tile<T: Element, O: Output>(element: &T, output: O, top_left: Vec2<i32>, size: Vec2<u16>) -> (after: O)
    requires
        element.wf(),
        output.valid(),
    ensures
        after.valid(),
        after.extent() == output.extent(),
        drew_all(output, after, area_ops(top_left, size, gate_ops(false, element.drawing(size)))),
{
    let area = Area { inner: output, top_left, size };
    let gate = OnSetCursor { inner: area, pass: false };
    let drawn = element.draw(gate);
    proof {
        let ops = element.drawing(size);
        lemma_gate_drew_all(gate, drawn, ops);
        lemma_area_drew_all(area, drawn.inner, gate_ops(false, ops));
        lemma_drew_all_keeps(output, drawn.inner.inner, area_ops(top_left, size, gate_ops(false, ops)));
    }
    drawn.inner.inner
}

impl<T: Element> Filter<T> for Tile {
    open spec fn wf(&self) -> bool {
        true
    }

    /// An output without cells takes no call. Any other output takes the calls of the
    /// tiles, as [`tile_ops`] says.
    open spec fn drawing(&self, element: &T, size: Vec2<u16>) -> Seq<DrawOp> {
        if size.x == 0 || size.y == 0 {
            Seq::empty()
        } else {
            tile_ops(
                element.drawing(self.size_in(element, size)),
                self.offset_in(element, size),
                self.size_in(element, size),
                size,
                tile_end(self.size_in(element, size).x, size.x),
            )
        }
    }

    /// A key press goes to the element as it is, and a mouse input at the cell of the
    /// tile that it points at.
    open spec fn reacts(&self, element: &T, input: Input, events: Seq<T::Event>) -> bool {
        match input {
            Input::Key(_) => element.reacts(input, events),
            Input::Mouse(mouse) => {
                let offset = self.offset_in(element, mouse.size);
                let size = self.size_in(element, mouse.size);
                element.reacts(
                    Input::Mouse(
                        Mouse {
                            size,
                            at: Vec2 {
                                x: tile_cell(mouse.at.x, offset.x, size.x),
                                y: tile_cell(mouse.at.y, offset.y, size.y),
                            },
                            ..mouse
                        },
                    ),
                    events,
                )
            },
        }
    }

    open spec fn width_for(&self, element: &T, height: u16, max_width: Option<u16>) -> u16 {
        element.width_for(height, max_width)
    }

    open spec fn height_for(&self, element: &T, width: u16, max_height: Option<u16>) -> u16 {
        element.height_for(width, max_height)
    }

    open spec fn size_for(&self, element: &T, maximum: Vec2<Option<u16>>) -> Vec2<u16> {
        element.size_for(maximum)
    }

    fn draw<O: Output>(&self, element: &T, output: O) -> (after: O) {
        let output_size = output.size();
        if output_size.x == 0 || output_size.y == 0 {
            return output;
        }
        let (offset, size) = self.layout(element, output_size);
        let (first_x, end_x) = tile_range(offset.x, size.x, output_size.x);
        let (first_y, end_y) = tile_range(offset.y, size.y, output_size.y);
        let ghost ops = element.drawing(size);
        let mut drawn = output;
        let mut i: i32 = first_x;
        while i < end_x
            invariant
                first_x <= i <= end_x || end_x < first_x,
                first_x == tile_first(offset.x),
                first_y == tile_first(offset.y),
                end_y == tile_end(size.y, output_size.y),
                -1 <= first_x <= 0,
                -1 <= first_y <= 0,
                0 <= end_x <= 65536,
                0 <= end_y <= 65536,
                (end_x - 1) * size.x < output_size.x || end_x == 0,
                (end_y - 1) * size.y < output_size.y || end_y == 0,
                size.x > 0,
                size.y > 0,
                element.wf(),
                ops == element.drawing(size),
                drawn.valid(),
                drawn.extent() == output.extent(),
                drew_all(output, drawn, tile_ops(ops, offset, size, output_size, i as int)),
            decreases end_x - i,
        {
            let width: i32 = size.x as i32;
            assert(-65535 <= i * width <= 65535) by (nonlinear_arith)
                requires
                    -1 <= i <= end_x - 1,
                    0 < width <= 65535,
                    (end_x - 1) * width < 65536,
            ;
            let x: i32 = i * width + offset.x as i32;
            let ghost before_column = drawn;
            let mut j: i32 = first_y;
            while j < end_y
                invariant
                    first_y <= j <= end_y || end_y < first_y,
                    first_y == tile_first(offset.y),
                    -1 <= first_y <= 0,
                    0 <= end_y <= 65536,
                    (end_y - 1) * size.y < output_size.y || end_y == 0,
                    size.y > 0,
                    x == i * size.x + offset.x,
                    element.wf(),
                    ops == element.drawing(size),
                    drawn.valid(),
                    drawn.extent() == output.extent(),
                    drew_all(
                        before_column,
                        drawn,
                        tile_column_ops(ops, offset, size, i as int, first_y as int, j as int),
                    ),
                decreases end_y - j,
            {
                let height: i32 = size.y as i32;
                assert(-65535 <= j * height <= 65535) by (nonlinear_arith)
                    requires
                        -1 <= j <= end_y - 1,
                        0 < height <= 65535,
                        (end_y - 1) * height < 65536,
                ;
                let y: i32 = j * height + offset.y as i32;
                let ghost before = drawn;
                drawn = draw_tile(element, drawn, Vec2 { x, y }, size);
                proof {
                    lemma_drew_all_concat(
                        before_column,
                        before,
                        drawn,
                        tile_column_ops(ops, offset, size, i as int, first_y as int, j as int),
                        area_ops(Vec2 { x, y }, size, gate_ops(false, ops)),
                    );
                }
                j += 1;
            }
            proof {
                if end_y < first_y {
                    assert(false);
                }
                lemma_drew_all_concat(
                    output,
                    before_column,
                    drawn,
                    tile_ops(ops, offset, size, output_size, i as int),
                    tile_column_ops(ops, offset, size, i as int, first_y as int, end_y as int),
                );
            }
            i += 1;
        }
        drawn
    }

    fn ideal_width(&self, element: &T, height: u16, max_width: Option<u16>) -> (width: u16) {
        element.ideal_width(height, max_width)
    }

    fn ideal_height(&self, element: &T, width: u16, max_height: Option<u16>) -> (height: u16) {
        element.ideal_height(width, max_height)
    }

    fn ideal_size(&self, element: &T, maximum: Vec2<Option<u16>>) -> (size: Vec2<u16>) {
        element.ideal_size(maximum)
    }

    fn handle<C: Events<T::Event>>(&self, element: &T, input: Input, events: &mut C) {
        match input {
            Input::Key(key) => {
                element.handle(Input::Key(key), events);
            },
            Input::Mouse(mouse) => {
                let (offset, size) = self.layout(element, mouse.size);
                let at = Vec2 {
                    x: cell_of(mouse.at.x, offset.x, size.x),
                    y: cell_of(mouse.at.y, offset.y, size.y),
                };
                element.handle(Input::Mouse(Mouse { size, at, ..mouse }), events);
            },
        }
    }
}

} // verus!
