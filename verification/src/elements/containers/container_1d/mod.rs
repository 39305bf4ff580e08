//! Containers that lay their elements out along one axis.

pub mod flow;
pub mod plain;
pub mod stretch;

pub use flow::{flow, End, Flow};
pub use plain::Static;
pub use stretch::{stretch, Stretch};

use crate::element::{added, lemma_added_none, Element};
use crate::elements::containers::stack::{all_react, handle_all};
use crate::elements::containers::Collection;
use crate::events::Events;
use crate::input::{Input, Mouse};
use crate::output::{
    area_ops, drew_all, gate_ops, lemma_area_drew_all, lemma_drew_all_concat,
    lemma_drew_all_keeps, lemma_gate_drew_all, Area, DrawOp, OnSetCursor, Output,
};
use crate::vec2::Vec2;
use vstd::prelude::*;

verus! {

/// An element arranged by a [`Layout1D`].
#[derive(Debug, Clone, Copy, PartialEq, Eq, Structural)]
pub struct InnerElement {
    /// The index of the element. This is used to determine whether it is focused.
    pub index: usize,
    /// The position of the element along the main axis.
    pub position: u16,
    /// The size of the element along the main axis.
    pub size: u16,
}

/// The sum of two lengths, as far as 16 bits hold it.
pub open spec fn plus(a: u16, b: u16) -> u16 {
    if a + b <= u16::MAX {
        (a + b) as u16
    } else {
        u16::MAX
    }
}

/// The sizes that the elements of a collection ask for along the main axis, given the
/// size along the cross axis.
pub open spec fn main_sizes<C: Collection>(elements: &C, axis: Axis, cross_axis_size: u16) -> Seq<u16> {
    Seq::new(
        elements.count(),
        |i: int|
            match axis {
                Axis::X => elements.width_at(i, cross_axis_size, None),
                Axis::Y => elements.height_at(i, cross_axis_size, None),
            },
    )
}

/// Asks every element of a collection for its size along the main axis.
pub fn sizes_of<C: Collection>(elements: &C, axis: Axis, cross_axis_size: u16) -> (sizes: Vec<u16>)
    requires
        elements.wf(),
    ensures
        sizes@ == main_sizes(elements, axis, cross_axis_size),
{
    let len = elements.len();
    let mut sizes: Vec<u16> = Vec::new();
    let mut i: usize = 0;
    while i < len
        invariant
            i <= len,
            len == elements.count(),
            elements.wf(),
            sizes@ == main_sizes(elements, axis, cross_axis_size).take(i as int),
        decreases len - i,
    {
        let size = match axis {
            Axis::X => elements.ideal_width_at(i, cross_axis_size, None),
            Axis::Y => elements.ideal_height_at(i, cross_axis_size, None),
        };
        sizes.push(size);
        assert(sizes@ =~= main_sizes(elements, axis, cross_axis_size).take(i + 1));
        i += 1;
    }
    assert(sizes@ =~= main_sizes(elements, axis, cross_axis_size));
    sizes
}

/// A 1-dimensional layout of elements, for use in a [`Container1D`].
///
/// A layout places elements along the main axis. It knows of each element the size that
/// the element asks for along that axis, and nothing else.
pub trait Layout1D {
    /// Where the layout puts elements of the given sizes in a space of the given size,
    /// in the order in which they are drawn. An element that is not among them is not
    /// shown.
    open spec fn placed(&self, sizes: Seq<u16>, main_axis_size: u16) -> Seq<InnerElement> {
        arbitrary()
    }

    /// Place elements of the given sizes in a space of the given size.
    fn place(&self, sizes: &Vec<u16>, main_axis_size: u16) -> (items: Vec<InnerElement>)
        ensures
            items@ == self.placed(sizes@, main_axis_size),
            forall|k: int| 0 <= k < items@.len() ==> (#[trigger] items@[k]).index < sizes@.len(),
    ;

    /// Get the layout of the elements in the collection.
    fn layout<C: Collection>(
        &self,
        elements: &C,
        main_axis_size: u16,
        cross_axis_size: u16,
        axis: Axis,
    ) -> (items: Vec<InnerElement>)
        requires
            elements.wf(),
        ensures
            items@ == self.placed(main_sizes(elements, axis, cross_axis_size), main_axis_size),
            forall|k: int| 0 <= k < items@.len() ==> (#[trigger] items@[k]).index < elements.count(),
    {
        let sizes = sizes_of(elements, axis, cross_axis_size);
        self.place(&sizes, main_axis_size)
    }
}

/// An axis: X or Y.
#[derive(Debug, Clone, Copy, Hash, PartialEq, Eq, Structural)]
pub enum Axis {
    /// The x axis.
    X,
    /// The y axis.
    Y,
}

impl Axis {
    /// The vector with `main` along this axis and `cross` along the other.
    pub open spec fn along<T>(self, main: T, cross: T) -> Vec2<T> {
        match self {
            Axis::X => Vec2 { x: main, y: cross },
            Axis::Y => Vec2 { x: cross, y: main },
        }
    }

    /// The component of the vector along this axis.
    pub open spec fn main_part<T>(self, v: Vec2<T>) -> T {
        match self {
            Axis::X => v.x,
            Axis::Y => v.y,
        }
    }

    /// The component of the vector along the other axis.
    pub open spec fn cross_part<T>(self, v: Vec2<T>) -> T {
        match self {
            Axis::X => v.y,
            Axis::Y => v.x,
        }
    }

    /// Construct a [`Vec2`] from the main value and the cross value.
    #[must_use]
    pub fn vec<T>(self, main: T, cross: T) -> (v: Vec2<T>)
        ensures
            v == self.along(main, cross),
    {
        match self {
            Self::X => Vec2 { x: main, y: cross },
            Self::Y => Vec2 { x: cross, y: main },
        }
    }

    /// Get the main axis of the [`Vec2`].
    #[must_use]
    pub fn main_of<T>(self, v: Vec2<T>) -> (main: T)
        ensures
            main == self.main_part(v),
    {
        self.main_cross_of(v).0
    }

    /// Get the cross axis of the [`Vec2`].
    #[must_use]
    pub fn cross_of<T>(self, v: Vec2<T>) -> (cross: T)
        ensures
            cross == self.cross_part(v),
    {
        self.main_cross_of(v).1
    }

    /// Get the main and cross axes of the [`Vec2`].
    #[must_use]
    pub fn main_cross_of<T>(self, v: Vec2<T>) -> (r: (T, T))
        ensures
            r == (self.main_part(v), self.cross_part(v)),
    {
        match self {
            Self::X => (v.x, v.y),
            Self::Y => (v.y, v.x),
        }
    }

    /// Get the ideal main axis size of the element from the cross axis size.
    #[must_use]
    pub fn element_size<E: Element>(self, element: &E, cross_axis_size: u16) -> (size: u16)
        requires
            element.wf(),
        ensures
            size == (match self {
                Axis::X => element.width_for(cross_axis_size, None),
                Axis::Y => element.height_for(cross_axis_size, None),
            }),
    {
        match self {
            Self::X => element.ideal_width(cross_axis_size, None),
            Self::Y => element.ideal_height(cross_axis_size, None),
        }
    }
}

/// The area that an arranged element is drawn to: where it begins and how large it is.
pub open spec fn item_area(item: InnerElement, axis: Axis, cross_axis_size: u16) -> (Vec2<i32>, Vec2<u16>) {
    (axis.along(item.position as i32, 0i32), axis.along(item.size, cross_axis_size))
}

/// The drawing calls of one arranged element: the element is drawn to its area, and its
/// cursor is passed on where the element is focused.
pub open spec fn item_ops<C: Collection>(
    elements: &C,
    item: InnerElement,
    axis: Axis,
    cross_axis_size: u16,
    focused: Option<usize>,
) -> Seq<DrawOp> {
    let (top_left, size) = item_area(item, axis, cross_axis_size);
    area_ops(
        top_left,
        size,
        gate_ops(focused == Some(item.index), elements.drawing_at(item.index as int, size)),
    )
}

/// The drawing calls of the first `upto` arranged elements, one element after the other.
pub open spec fn items_ops<C: Collection>(
    elements: &C,
    items: Seq<InnerElement>,
    axis: Axis,
    cross_axis_size: u16,
    focused: Option<usize>,
    upto: nat,
) -> Seq<DrawOp>
    decreases upto,
{
    if upto == 0 {
        Seq::empty()
    } else {
        items_ops(elements, items, axis, cross_axis_size, focused, (upto - 1) as nat) + item_ops(
            elements,
            items[upto - 1],
            axis,
            cross_axis_size,
            focused,
        )
    }
}

/// The first of the arranged elements from `from` on that holds the position `at` along
/// the main axis, if there is one.
pub open spec fn item_at(items: Seq<InnerElement>, at: u16, from: nat) -> Option<InnerElement>
    decreases items.len() - from,
{
    if from >= items.len() {
        None
    } else if items[from as int].position <= at && at - items[from as int].position
        < items[from as int].size {
        Some(items[from as int])
    } else {
        item_at(items, at, from + 1)
    }
}

/// The sizes that the first `upto` elements ask for along the X axis, added up, with
/// the largest of their sizes along the Y axis.
pub open spec fn row_size<C: Collection>(elements: &C, max_height: Option<u16>, upto: nat) -> Vec2<u16>
    decreases upto,
{
    if upto == 0 {
        Vec2 { x: 0, y: 0 }
    } else {
        let before = row_size(elements, max_height, (upto - 1) as nat);
        let size = elements.size_at(upto - 1, Vec2 { x: None, y: max_height });
        Vec2 {
            x: plus(before.x, size.x),
            y: if size.y > before.y {
                size.y
            } else {
                before.y
            },
        }
    }
}

/// The sizes that the first `upto` elements ask for along the Y axis, added up, with
/// the largest of their sizes along the X axis.
pub open spec fn column_size<C: Collection>(elements: &C, max_width: Option<u16>, upto: nat) -> Vec2<u16>
    decreases upto,
{
    if upto == 0 {
        Vec2 { x: 0, y: 0 }
    } else {
        let before = column_size(elements, max_width, (upto - 1) as nat);
        let size = elements.size_at(upto - 1, Vec2 { x: max_width, y: None });
        Vec2 {
            x: if size.x > before.x {
                size.x
            } else {
                before.x
            },
            y: plus(before.y, size.y),
        }
    }
}

/// The widths that the first `upto` elements ask for at the given height, added up.
pub open spec fn widths_sum<C: Collection>(elements: &C, height: u16, upto: nat) -> u16
    decreases upto,
{
    if upto == 0 {
        0
    } else {
        plus(widths_sum(elements, height, (upto - 1) as nat), elements.width_at(upto - 1, height, None))
    }
}

/// The heights that the first `upto` elements ask for at the given width, added up.
pub open spec fn heights_sum<C: Collection>(elements: &C, width: u16, upto: nat) -> u16
    decreases upto,
{
    if upto == 0 {
        0
    } else {
        plus(
            heights_sum(elements, width, (upto - 1) as nat),
            elements.height_at(upto - 1, width, None),
        )
    }
}

/// A 1-dimensional container of elements. It draws a [`Collection`] with a [`Layout1D`], and is
/// created by the [`column()`] and [`row()`] functions.
#[derive(Debug, Clone, Copy, PartialEq, Eq)]
#[non_exhaustive]
pub struct Container1D<E, L> {
    /// The elements in the container.
    pub elements: E,
    /// The layout of the container.
    pub layout: L,
    /// The axis of the container.
    pub axis: Axis,
    /// Whether to broadcast key inputs to all elements. If `false`, only the focused element will
    /// receive key inputs.
    pub broadcast_keys: bool,
    /// The index of the focused element of the container. This element will set the cursor
    /// of the container, and will receive all key inputs if
    /// [`broadcast_keys`](Self::broadcast_keys) is not set.
    ///
    /// It is not an error if this element does not exist.
    pub focused: Option<usize>,
}

impl<E, L> Container1D<E, L> {
    /// Broadcast key inputs to all elements, instead of just the focused one.
    #[must_use]
    pub fn broadcast_keys(self) -> (container: Self)
        ensures
            container == (Container1D { broadcast_keys: true, ..self }),
    {
        Self { broadcast_keys: true, ..self }
    }

    /// Set the focused element of the container.
    ///
    /// This element will set the cursor of the container, and will receive all key inputs if
    /// `broadcast_keys` is not set.
    ///
    /// It is not an error if this element does not exist.
    #[must_use]
    pub fn focus(self, element: usize) -> (container: Self)
        ensures
            container == (Container1D { focused: Some(element), ..self }),
    {
        Self { focused: Some(element), ..self }
    }
}

impl<E: Collection, L: Layout1D> Container1D<E, L> {
    /// Where the container puts its elements in an output of the given size.
    pub open spec fn items(&self, size: Vec2<u16>) -> Seq<InnerElement> {
        self.layout.placed(
            main_sizes(&self.elements, self.axis, self.axis.cross_part(size)),
            self.axis.main_part(size),
        )
    }

    /// Draws one arranged element to its area of the output.
    fn draw_item<O: Output>(&self, item: InnerElement, cross_axis_size: u16, output: O) -> (after: O)
        requires
            self.elements.wf(),
            item.index < self.elements.count(),
            output.valid(),
        ensures
            after.valid(),
            after.extent() == output.extent(),
            drew_all(
                output,
                after,
                item_ops(&self.elements, item, self.axis, cross_axis_size, self.focused),
            ),
    {
        let top_left = self.axis.vec(item.position as i32, 0i32);
        let size = self.axis.vec(item.size, cross_axis_size);
        let pass = match self.focused {
            Some(focused) => focused == item.index,
            None => false,
        };
        let area = Area { inner: output, top_left, size };
        let gate = OnSetCursor { inner: area, pass };
        let drawn = self.elements.draw_at(item.index, gate);
        proof {
            let ops = self.elements.drawing_at(item.index as int, size);
            lemma_gate_drew_all(gate, drawn, ops);
            lemma_area_drew_all(area, drawn.inner, gate_ops(pass, ops));
            lemma_drew_all_keeps(output, drawn.inner.inner, area_ops(top_left, size, gate_ops(pass, ops)));
        }
        drawn.inner.inner
    }
}

impl<E: Collection, L: Layout1D> Element for Container1D<E, L> {
    type Event = E::Event;

    open spec fn wf(&self) -> bool {
        self.elements.wf()
    }

    /// The elements are drawn in the order of the layout, each to its area.
    open spec fn drawing(&self, size: Vec2<u16>) -> Seq<DrawOp> {
        items_ops(
            &self.elements,
            self.items(size),
            self.axis,
            self.axis.cross_part(size),
            self.focused,
            self.items(size).len(),
        )
    }

    /// A key press goes to every element where keys are broadcast, and to the focused
    /// element otherwise, if there is one. A mouse input goes to the element whose area
    /// it lies in.
    open spec fn reacts(&self, input: Input, events: Seq<E::Event>) -> bool {
        match input {
            Input::Key(_) => if self.broadcast_keys {
                all_react(&self.elements, input, events, self.elements.count())
            } else {
                match self.focused {
                    Some(index) => if index < self.elements.count() {
                        self.elements.reacts_at(index as int, input, events)
                    } else {
                        events.len() == 0
                    },
                    None => events.len() == 0,
                }
            },
            Input::Mouse(mouse) => match item_at(
                self.items(mouse.size),
                self.axis.main_part(mouse.at),
                0,
            ) {
                Some(item) => self.elements.reacts_at(
                    item.index as int,
                    Input::Mouse(
                        Mouse {
                            at: self.axis.along(
                                (self.axis.main_part(mouse.at) - item.position) as u16,
                                self.axis.cross_part(mouse.at),
                            ),
                            size: self.axis.along(item.size, self.axis.cross_part(mouse.size)),
                            ..mouse
                        },
                    ),
                    events,
                ),
                None => events.len() == 0,
            },
        }
    }

    open spec fn width_for(&self, height: u16, max_width: Option<u16>) -> u16 {
        match self.axis {
            Axis::X => widths_sum(&self.elements, height, self.elements.count()),
            Axis::Y => column_size(&self.elements, max_width, self.elements.count()).x,
        }
    }

    open spec fn height_for(&self, width: u16, max_height: Option<u16>) -> u16 {
        match self.axis {
            Axis::X => row_size(&self.elements, max_height, self.elements.count()).y,
            Axis::Y => heights_sum(&self.elements, width, self.elements.count()),
        }
    }

    open spec fn size_for(&self, maximum: Vec2<Option<u16>>) -> Vec2<u16> {
        match self.axis {
            Axis::X => row_size(&self.elements, maximum.y, self.elements.count()),
            Axis::Y => column_size(&self.elements, maximum.x, self.elements.count()),
        }
    }

    fn draw<O: Output>(&self, output: O) -> (after: O) {
        let size = output.size();
        let (main_axis_size, cross_axis_size) = self.axis.main_cross_of(size);
        let items = self.layout.layout(&self.elements, main_axis_size, cross_axis_size, self.axis);
        let mut drawn = output;
        let mut k: usize = 0;
        while k < items.len()
            invariant
                k <= items.len(),
                self.elements.wf(),
                forall|j: int| 0 <= j < items@.len() ==> (#[trigger] items@[j]).index
                    < self.elements.count(),
                drawn.valid(),
                drawn.extent() == output.extent(),
                drew_all(
                    output,
                    drawn,
                    items_ops(&self.elements, items@, self.axis, cross_axis_size, self.focused, k as nat),
                ),
            decreases items.len() - k,
        {
            let ghost before = drawn;
            drawn = self.draw_item(items[k], cross_axis_size, drawn);
            proof {
                lemma_drew_all_concat(
                    output,
                    before,
                    drawn,
                    items_ops(&self.elements, items@, self.axis, cross_axis_size, self.focused, k as nat),
                    item_ops(&self.elements, items@[k as int], self.axis, cross_axis_size, self.focused),
                );
            }
            k += 1;
        }
        drawn
    }

    fn ideal_width(&self, height: u16, max_width: Option<u16>) -> (width: u16) {
        match self.axis {
            Axis::X => {
                let len = self.elements.len();
                let mut sum: u16 = 0;
                let mut i: usize = 0;
                while i < len
                    invariant
                        i <= len,
                        len == self.elements.count(),
                        self.elements.wf(),
                        sum == widths_sum(&self.elements, height, i as nat),
                    decreases len - i,
                {
                    sum = sum.saturating_add(self.elements.ideal_width_at(i, height, None));
                    i += 1;
                }
                sum
            },
            Axis::Y => self.column_size_of(max_width).x,
        }
    }

    fn ideal_height(&self, width: u16, max_height: Option<u16>) -> (height: u16) {
        match self.axis {
            Axis::X => self.row_size_of(max_height).y,
            Axis::Y => {
                let len = self.elements.len();
                let mut sum: u16 = 0;
                let mut i: usize = 0;
                while i < len
                    invariant
                        i <= len,
                        len == self.elements.count(),
                        self.elements.wf(),
                        sum == heights_sum(&self.elements, width, i as nat),
                    decreases len - i,
                {
                    sum = sum.saturating_add(self.elements.ideal_height_at(i, width, None));
                    i += 1;
                }
                sum
            },
        }
    }

    fn ideal_size(&self, maximum: Vec2<Option<u16>>) -> (size: Vec2<u16>) {
        match self.axis {
            Axis::X => self.row_size_of(maximum.y),
            Axis::Y => self.column_size_of(maximum.x),
        }
    }

    fn handle<C: Events<E::Event>>(&self, input: Input, events: &mut C) {
        match input {
            Input::Key(key) => {
                if self.broadcast_keys {
                    handle_all(&self.elements, Input::Key(key), events);
                } else {
                    let len = self.elements.len();
                    match self.focused {
                        Some(index) => {
                            if index < len {
                                self.elements.handle_at(index, Input::Key(key), events);
                            } else {
                                proof {
                                    lemma_added_none(events.collected());
                                }
                            }
                        },
                        None => {
                            proof {
                                lemma_added_none(events.collected());
                            }
                        },
                    }
                }
            },
            Input::Mouse(mouse) => {
                let (at_main, at_cross) = self.axis.main_cross_of(mouse.at);
                let (main_axis_size, cross_axis_size) = self.axis.main_cross_of(mouse.size);
                let items = self.layout.layout(
                    &self.elements,
                    main_axis_size,
                    cross_axis_size,
                    self.axis,
                );
                let mut k: usize = 0;
                while k < items.len()
                    invariant
                        k <= items.len(),
                        self.elements.wf(),
                        forall|j: int| 0 <= j < items@.len() ==> (#[trigger] items@[j]).index
                            < self.elements.count(),
                        events.collected() == old(events).collected(),
                        item_at(items@, at_main, 0) == item_at(items@, at_main, k as nat),
                        items@ == self.items(mouse.size),
                        at_main == self.axis.main_part(mouse.at),
                        at_cross == self.axis.cross_part(mouse.at),
                        cross_axis_size == self.axis.cross_part(mouse.size),
                        input == Input::Mouse(mouse),
                    decreases items.len() - k,
                {
                    let item = items[k];
                    if item.position <= at_main && at_main - item.position < item.size {
                        let inner = Mouse {
                            at: self.axis.vec(at_main - item.position, at_cross),
                            size: self.axis.vec(item.size, cross_axis_size),
                            ..mouse
                        };
                        self.elements.handle_at(item.index, Input::Mouse(inner), events);
                        return ;
                    }
                    k += 1;
                }
                proof {
                    lemma_added_none(events.collected());
                }
            },
        }
    }
}

impl<E: Collection, L: Layout1D> Container1D<E, L> {
    /// Computes [`row_size`] of all the elements.
    fn row_size_of(&self, max_height: Option<u16>) -> (size: Vec2<u16>)
        requires
            self.elements.wf(),
        ensures
            size == row_size(&self.elements, max_height, self.elements.count()),
    {
        let len = self.elements.len();
        let mut total = Vec2 { x: 0u16, y: 0u16 };
        let mut i: usize = 0;
        while i < len
            invariant
                i <= len,
                len == self.elements.count(),
                self.elements.wf(),
                total == row_size(&self.elements, max_height, i as nat),
            decreases len - i,
        {
            let size = self.elements.ideal_size_at(i, Vec2 { x: None, y: max_height });
            total = Vec2 {
                x: total.x.saturating_add(size.x),
                y: if size.y > total.y {
                    size.y
                } else {
                    total.y
                },
            };
            i += 1;
        }
        total
    }

    /// Computes [`column_size`] of all the elements.
    fn column_size_of(&self, max_width: Option<u16>) -> (size: Vec2<u16>)
        requires
            self.elements.wf(),
        ensures
            size == column_size(&self.elements, max_width, self.elements.count()),
    {
        let len = self.elements.len();
        let mut total = Vec2 { x: 0u16, y: 0u16 };
        let mut i: usize = 0;
        while i < len
            invariant
                i <= len,
                len == self.elements.count(),
                self.elements.wf(),
                total == column_size(&self.elements, max_width, i as nat),
            decreases len - i,
        {
            let size = self.elements.ideal_size_at(i, Vec2 { x: max_width, y: None });
            total = Vec2 {
                x: if size.x > total.x {
                    size.x
                } else {
                    total.x
                },
                y: total.y.saturating_add(size.y),
            };
            i += 1;
        }
        total
    }
}

/// Create a row of elements with the specified layout.
///
/// This takes a [`Layout1D`] and a [`Collection`].
///
/// By default keys inputs will not be broadcast to all elements and there will be no focused
/// element.
#[must_use]
pub fn row<E: Collection, L: Layout1D>(layout: L, elements: E) -> (container: Container1D<E, L>)
    ensures
        container == (Container1D {
            elements,
            layout,
            axis: Axis::X,
            broadcast_keys: false,
            focused: None,
        }),
{
    Container1D { elements, layout, axis: Axis::X, broadcast_keys: false, focused: None }
}

/// Create a column of elements with the specified layout.
///
/// This takes a [`Layout1D`] and a [`Collection`].
///
/// By default keys inputs will not be broadcast to all elements and there will be no focused
/// element.
#[must_use]
pub fn column<E: Collection, L: Layout1D>(layout: L, elements: E) -> (container: Container1D<E, L>)
    ensures
        container == (Container1D {
            elements,
            layout,
            axis: Axis::Y,
            broadcast_keys: false,
            focused: None,
        }),
{
    Container1D { elements, layout, axis: Axis::Y, broadcast_keys: false, focused: None }
}

} // verus!
