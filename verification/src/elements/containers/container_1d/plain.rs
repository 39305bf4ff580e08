//! The layout that gives each element the space that it asks for.

use crate::elements::containers::container_1d::{plus, InnerElement, Layout1D};
use vstd::prelude::*;

verus! {

/// Where the elements from `index` on are put, the first of them at `offset`: one behind
/// the other, each as large as it asks to be, as long as there is space left.
pub open spec fn static_from(sizes: Seq<u16>, main_axis_size: u16, index: nat, offset: u16) -> Seq<
    InnerElement,
>
    decreases sizes.len() - index,
{
    if index >= sizes.len() || offset >= main_axis_size {
        Seq::empty()
    } else {
        seq![InnerElement { index: index as usize, position: offset, size: sizes[index as int] }]
            + static_from(sizes, main_axis_size, index + 1, plus(offset, sizes[index as int]))
    }
}

/// A static [`Layout1D`]: it gives each element the space that the element asks for, and
/// any extra space is left blank.
#[derive(Debug, Clone, Copy, PartialEq, Eq, Structural)]
pub struct Static;

impl Layout1D for Static {
    open spec fn placed(&self, sizes: Seq<u16>, main_axis_size: u16) -> Seq<InnerElement> {
        static_from(sizes, main_axis_size, 0, 0)
    }

    fn place(&self, sizes: &Vec<u16>, main_axis_size: u16) -> (items: Vec<InnerElement>) {
        let mut items: Vec<InnerElement> = Vec::new();
        let mut index: usize = 0;
        let mut offset: u16 = 0;
        let ghost all = static_from(sizes@, main_axis_size, 0, 0);
        assert(items@ + all =~= all);
        while index < sizes.len() && offset < main_axis_size
            invariant
                index <= sizes.len(),
                all == items@ + static_from(sizes@, main_axis_size, index as nat, offset),
                forall|k: int| 0 <= k < items@.len() ==> (#[trigger] items@[k]).index < sizes@.len(),
            decreases sizes.len() - index,
        {
            let size = sizes[index];
            let item = InnerElement { index, position: offset, size };
            let ghost rest = static_from(
                sizes@,
                main_axis_size,
                (index + 1) as nat,
                plus(offset, size),
            );
            assert(items@ + (seq![item] + rest) =~= items@.push(item) + rest);
            items.push(item);
            offset = offset.saturating_add(size);
            index += 1;
        }
        assert(items@ + Seq::<InnerElement>::empty() =~= items@);
        items
    }
}

} // verus!
