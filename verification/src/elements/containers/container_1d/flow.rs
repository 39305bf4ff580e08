//! The layout that gives the space that is left over to all the elements alike.

use crate::elements::containers::container_1d::{plus, InnerElement, Layout1D};
use vstd::prelude::*;

verus! {

/// An end of a container.
#[derive(Debug, Clone, Copy, PartialEq, Eq, PartialOrd, Ord, Hash, Structural)]
pub enum End {
    /// The start of the container.
    Start,
    /// The end of the container.
    End,
}

/// The first `upto` sizes added up, as far as 16 bits hold the sum.
pub open spec fn sizes_sum(sizes: Seq<u16>, upto: nat) -> u16
    decreases upto,
{
    if upto == 0 {
        0
    } else {
        plus(sizes_sum(sizes, (upto - 1) as nat), sizes[upto - 1])
    }
}

/// The space that is left over when each element has the size that it asks for.
pub open spec fn extra_space(sizes: Seq<u16>, main_axis_size: u16) -> u16 {
    let asked = sizes_sum(sizes, sizes.len());
    if main_axis_size >= asked {
        (main_axis_size - asked) as u16
    } else {
        0
    }
}

/// The share of the space that is left over that every element gets.
pub open spec fn flow_share(sizes: Seq<u16>, main_axis_size: u16) -> int {
    extra_space(sizes, main_axis_size) as int / sizes.len() as int
}

/// What remains of the space that is left over when every element has its share.
pub open spec fn flow_rest(sizes: Seq<u16>, main_axis_size: u16) -> int {
    extra_space(sizes, main_axis_size) as int % sizes.len() as int
}

/// By how much the element at `index` grows: each element gets the same share of the
/// space that is left over, and what remains then goes, one cell each, to the elements at
/// the end that the layout is biased to. Without a bias it stays unused.
pub open spec fn growth_at(sizes: Seq<u16>, main_axis_size: u16, bias: Option<End>, index: int) -> u16 {
    if sizes.len() == 0 {
        0
    } else {
        let share = flow_share(sizes, main_axis_size) as u16;
        let rest = flow_rest(sizes, main_axis_size);
        let more = match bias {
            Some(End::Start) => index < rest,
            Some(End::End) => sizes.len() - index - 1 < rest,
            None => false,
        };
        if more {
            plus(share, 1)
        } else {
            share
        }
    }
}

/// Where the elements from `index` on are put, the first of them at `position`: one
/// behind the other, each as large as it asks to be and grown by its share, as long as
/// there is space left.
pub open spec fn flow_from(
    sizes: Seq<u16>,
    main_axis_size: u16,
    bias: Option<End>,
    index: nat,
    position: u16,
) -> Seq<InnerElement>
    decreases sizes.len() - index,
{
    if index >= sizes.len() || position >= main_axis_size {
        Seq::empty()
    } else {
        let size = plus(sizes[index as int], growth_at(sizes, main_axis_size, bias, index as int));
        seq![InnerElement { index: index as usize, position, size }] + flow_from(
            sizes,
            main_axis_size,
            bias,
            index + 1,
            plus(position, size),
        )
    }
}

/// A generic dynamic [`Layout1D`], created by the [`flow`] function.
///
/// The layout algorithm works by calculating the minimum required space for each element, and then
/// giving out all extra space equally among the elements.
#[derive(Debug, Clone, Copy, PartialEq, Eq, Structural)]
#[non_exhaustive]
pub struct Flow {
    /// The direction the flow container is biased towards.
    ///
    /// If [`None`], the container will evenly distribute space among its elements, even if
    /// it results in there being extra space at the end. Otherwise, it will fill that extra space
    /// by unevenly giving elements at one end more space.
    pub bias: Option<End>,
}

impl Flow {
    /// Set the bias of the container.
    ///
    /// The container will fill any extra space by giving more space to the elements at the given
    /// end.
    #[must_use]
    pub fn bias(self, bias: End) -> (flow: Self)
        ensures
            flow.bias == Some(bias),
    {
        Self { bias: Some(bias) }
    }
}

/// Calculate the layout of a flow.
///
/// The first element of the tuple is how much the elements are able to grow along on the main
/// axis. The second element of the tuple gives the index from the front (start bias) or back
/// (end bias) at which the first element of the tuple stops being treated as one more. If there is
/// no bias the value should be ignored.
pub fn calculate_layout(main_axis_size: u16, sizes: &Vec<u16>) -> (r: (u16, usize))
    ensures
        sizes@.len() == 0 ==> r == (0u16, 0usize),
        sizes@.len() > 0 ==> r.0 == flow_share(sizes@, main_axis_size) && r.1 == flow_rest(
            sizes@,
            main_axis_size,
        ),
{
    if sizes.len() == 0 {
        return (0, 0);
    }
    let mut asked: u16 = 0;
    let mut i: usize = 0;
    while i < sizes.len()
        invariant
            i <= sizes.len(),
            asked == sizes_sum(sizes@, i as nat),
        decreases sizes.len() - i,
    {
        asked = asked.saturating_add(sizes[i]);
        i += 1;
    }
    let extra = main_axis_size.saturating_sub(asked) as usize;
    let share = extra / sizes.len();
    assert(share <= extra) by (nonlinear_arith)
        requires
            share == extra / sizes.len(),
            sizes.len() > 0,
    ;
    (share as u16, extra % sizes.len())
}

impl Layout1D for Flow {
    open spec fn placed(&self, sizes: Seq<u16>, main_axis_size: u16) -> Seq<InnerElement> {
        flow_from(sizes, main_axis_size, self.bias, 0, 0)
    }

    fn place(&self, sizes: &Vec<u16>, main_axis_size: u16) -> (items: Vec<InnerElement>) {
        let (growth, dividing_point) = calculate_layout(main_axis_size, sizes);
        let len = sizes.len();
        let mut items: Vec<InnerElement> = Vec::new();
        let mut index: usize = 0;
        let mut position: u16 = 0;
        let ghost all = flow_from(sizes@, main_axis_size, self.bias, 0, 0);
        assert(items@ + all =~= all);
        while index < len && position < main_axis_size
            invariant
                index <= len,
                len == sizes@.len(),
                len > 0 ==> growth == flow_share(sizes@, main_axis_size) && dividing_point
                    == flow_rest(sizes@, main_axis_size),
                all == items@ + flow_from(sizes@, main_axis_size, self.bias, index as nat, position),
                forall|k: int| 0 <= k < items@.len() ==> (#[trigger] items@[k]).index < sizes@.len(),
            decreases len - index,
        {
            let growth_is_more = match self.bias {
                Some(End::Start) => index < dividing_point,
                Some(End::End) => len - index - 1 < dividing_point,
                None => false,
            };
            let growth = if growth_is_more {
                growth.saturating_add(1)
            } else {
                growth
            };
            let size = sizes[index].saturating_add(growth);
            let item = InnerElement { index, position, size };
            let ghost rest = flow_from(
                sizes@,
                main_axis_size,
                self.bias,
                (index + 1) as nat,
                plus(position, size),
            );
            assert(items@ + (seq![item] + rest) =~= items@.push(item) + rest);
            items.push(item);
            position = position.saturating_add(size);
            index += 1;
        }
        assert(items@ + Seq::<InnerElement>::empty() =~= items@);
        items
    }
}

/// Create a new [`Flow`] layout.
///
/// By default it will not be biased to either end; this means that it will not always totally fill
/// the container.
#[must_use]
pub fn flow() -> (flow: Flow)
    ensures
        flow.bias is None,
{
    Flow { bias: None }
}

} // verus!
