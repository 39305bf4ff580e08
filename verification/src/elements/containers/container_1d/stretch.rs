//! The layout that gives the space that is left over to one element.

use crate::elements::containers::container_1d::{plus, InnerElement, Layout1D};
use vstd::prelude::*;

verus! {

/// The state of the stretch layout while it places elements: the index of the element
/// that is placed next, how many elements have been placed from the front and from the
/// back, and the space that is left, from `start` to `end`.
pub struct StretchState {
    /// The index of the element that is placed next.
    pub i: int,
    /// The number of elements that were placed from the front.
    pub front: int,
    /// The number of elements that were placed from the back.
    pub back: int,
    /// Where the space that is left begins.
    pub start: u16,
    /// Where the space that is left ends.
    pub end: u16,
}

/// Where the stretch layout puts the elements that it has not placed yet.
///
/// The elements before the stretched one are placed from the start, each as large as it
/// asks to be. Then the elements behind the stretched one are placed from the end, the
/// last one first, each as large as it asks to be and no larger than what is left. The
/// stretched element comes last and gets what is left. The layout stops where no space is
/// left. A stretched element that does not exist leaves the space behind the others blank.
pub open spec fn stretch_from(sizes: Seq<u16>, stretched: int, state: StretchState) -> Seq<InnerElement>
    decreases sizes.len() - state.front - state.back,
{
    if state.start >= state.end || state.front + state.back >= sizes.len() || state.front < 0
        || state.back < 0 {
        Seq::empty()
    } else if state.i < stretched {
        let size = sizes[state.front];
        seq![InnerElement { index: state.i as usize, position: state.start, size }] + stretch_from(
            sizes,
            stretched,
            StretchState {
                i: if state.i + 1 == stretched {
                    sizes.len() - 1
                } else {
                    state.i + 1
                },
                front: state.front + 1,
                start: plus(state.start, size),
                ..state
            },
        )
    } else if state.i == stretched {
        seq![
            InnerElement {
                index: state.i as usize,
                position: state.start,
                size: (state.end - state.start) as u16,
            },
        ]
    } else {
        let asked = sizes[sizes.len() - 1 - state.back];
        let size = if asked <= state.end - state.start {
            asked
        } else {
            (state.end - state.start) as u16
        };
        seq![
            InnerElement {
                index: state.i as usize,
                position: (state.end - size) as u16,
                size,
            },
        ] + stretch_from(
            sizes,
            stretched,
            StretchState {
                i: state.i - 1,
                back: state.back + 1,
                end: (state.end - size) as u16,
                ..state
            },
        )
    }
}

/// The state in which the stretch layout starts.
pub open spec fn stretch_start(sizes: Seq<u16>, stretched: int, main_axis_size: u16) -> StretchState {
    StretchState {
        i: if stretched == 0 {
            sizes.len() - 1
        } else {
            0
        },
        front: 0,
        back: 0,
        start: 0,
        end: main_axis_size,
    }
}

/// A [`Layout1D`] that gives each element except one the space that it asks for, and all
/// the rest of the space to the one element. Created by the [`stretch`] function.
#[derive(Debug, Clone, Copy, PartialEq, Eq, Structural)]
#[non_exhaustive]
pub struct Stretch {
    /// The index of the element that is stretched.
    pub stretched: usize,
}

impl Layout1D for Stretch {
    open spec fn placed(&self, sizes: Seq<u16>, main_axis_size: u16) -> Seq<InnerElement> {
        stretch_from(sizes, self.stretched as int, stretch_start(sizes, self.stretched as int, main_axis_size))
    }

    fn place(&self, sizes: &Vec<u16>, main_axis_size: u16) -> (items: Vec<InnerElement>) {
        let len = sizes.len();
        let stretched = self.stretched;
        let mut items: Vec<InnerElement> = Vec::new();
        let ghost all = self.placed(sizes@, main_axis_size);
        assert(items@ + all =~= all);
        if len == 0 {
            return items;
        }
        let mut i: usize = if stretched == 0 {
            len - 1
        } else {
            0
        };
        let mut front: usize = 0;
        let mut back: usize = 0;
        let mut start: u16 = 0;
        let mut end: u16 = main_axis_size;
        while start < end && front + back < len
            invariant
                len == sizes@.len(),
                len > 0,
                front + back <= len,
                front + back < len ==> (i < stretched ==> i == front && back == 0) && (i
                    >= stretched ==> i == len - 1 - back),
                all == self.placed(sizes@, main_axis_size),
                stretched == self.stretched,
                all == items@ + stretch_from(
                    sizes@,
                    stretched as int,
                    StretchState { i: i as int, front: front as int, back: back as int, start, end },
                ),
                forall|k: int| 0 <= k < items@.len() ==> (#[trigger] items@[k]).index < sizes@.len(),
            decreases len - front - back,
        {
            let ghost state = StretchState {
                i: i as int,
                front: front as int,
                back: back as int,
                start,
                end,
            };
            if i < stretched {
                let size = sizes[front];
                let item = InnerElement { index: i, position: start, size };
                i = if i + 1 == stretched {
                    len - 1
                } else {
                    i + 1
                };
                front += 1;
                start = start.saturating_add(size);
                let ghost rest = stretch_from(
                    sizes@,
                    stretched as int,
                    StretchState { i: i as int, front: front as int, back: back as int, start, end },
                );
                assert(stretch_from(sizes@, stretched as int, state) == seq![item] + rest);
                assert(items@ + (seq![item] + rest) =~= items@.push(item) + rest);
                items.push(item);
            } else if i == stretched {
                let item = InnerElement { index: i, position: start, size: end - start };
                assert(stretch_from(sizes@, stretched as int, state) == seq![item]);
                assert(items@ + seq![item] =~= items@.push(item));
                items.push(item);
                return items;
            } else {
                let asked = sizes[len - 1 - back];
                let size = if asked <= end - start {
                    asked
                } else {
                    end - start
                };
                end = end - size;
                let item = InnerElement { index: i, position: end, size };
                i = i - 1;
                back += 1;
                let ghost rest = stretch_from(
                    sizes@,
                    stretched as int,
                    StretchState { i: i as int, front: front as int, back: back as int, start, end },
                );
                assert(stretch_from(sizes@, stretched as int, state) == seq![item] + rest);
                assert(items@ + (seq![item] + rest) =~= items@.push(item) + rest);
                items.push(item);
            }
        }
        assert(items@ + Seq::<InnerElement>::empty() =~= items@);
        items
    }
}

/// Create a new [`Stretch`] layout that stretches the element with the given index.
#[must_use]
pub fn stretch(stretched: usize) -> (stretch: Stretch)
    ensures
        stretch.stretched == stretched,
{
    Stretch { stretched }
}

} // verus!
