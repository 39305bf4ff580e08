//! Events created by elements in response to inputs.

mod sealed;

pub use sealed::Sealed;

use vstd::prelude::*;

verus! {

/// A collector of events, as passed to [`Element::handle`](crate::element::Element::handle).
///
/// This trait is sealed - it cannot be implemented outside this crate - in order to prevent
/// elements from suppressing other elements' events.
pub trait Events<Event>: Sealed {
    /// The events that were added, in order.
    open spec fn collected(&self) -> Seq<Event> {
        arbitrary()
    }

    /// Add an event to the collection of events.
    fn add(&mut self, event: Event)
        ensures
            final(self).collected() == old(self).collected().push(event),
    ;
}

/// An event collector that collects events into a vector.
pub struct Vector<E>(pub Vec<E>);

impl<E> Sealed for Vector<E> {

}

impl<E> Events<E> for Vector<E> {
    open spec fn collected(&self) -> Seq<E> {
        self.0@
    }

    fn add(&mut self, event: E) {
        self.0.push(event);
    }
}

/// Whether `given` holds, one for one, events that the function may make of the events
/// in `made`.
pub open spec fn mapped<A, B, F: Fn(A) -> B>(f: F, made: Seq<A>, given: Seq<B>) -> bool {
    &&& given.len() == made.len()
    &&& forall|i: int| 0 <= i < made.len() ==> f.ensures((#[trigger] made[i],), given[i])
}

/// Hands the events on to a collector, each mapped by the function.
pub fn add_mapped<A, B, F: Fn(A) -> B, C: Events<B>>(events: &mut C, f: &F, made: Vec<A>)
    requires
        forall|event: A| #[trigger] f.requires((event,)),
    ensures
        crate::element::added(old(events).collected(), final(events).collected()),
        mapped(*f, made@, final(events).collected().skip(old(events).collected().len() as int)),
{
    let mut made = made;
    let ghost all = made@;
    let ghost start = events.collected();
    proof {
        crate::element::lemma_added_none(start);
    }
    while made.len() > 0
        invariant
            forall|event: A| #[trigger] f.requires((event,)),
            start == old(events).collected(),
            crate::element::added(start, events.collected()),
            made@.len() <= all.len(),
            made@ == all.skip(all.len() - made@.len()),
            mapped(
                *f,
                all.take(all.len() - made@.len()),
                events.collected().skip(start.len() as int),
            ),
        decreases made.len(),
    {
        let ghost done = all.len() - made@.len();
        let ghost before = events.collected();
        let event = made.remove(0);
        let given = f(event);
        events.add(given);
        proof {
            let after = events.collected();
            assert(after.take(start.len() as int) =~= before.take(start.len() as int));
            assert(after.skip(start.len() as int) =~= before.skip(start.len() as int).push(given));
            assert(all.take(done + 1) =~= all.take(done).push(event));
            assert(made@ =~= all.skip(done + 1));
            assert forall|i: int| 0 <= i < done + 1 implies f.ensures(
                (#[trigger] all.take(done + 1)[i],),
                after.skip(start.len() as int)[i],
            ) by {
                if i < done {
                    assert(all.take(done)[i] == all.take(done + 1)[i]);
                }
            }
        }
    }
    assert(all.take(all.len() as int) =~= all);
}

} // verus!
