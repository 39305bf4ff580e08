//! The seal on event collectors.

use vstd::prelude::*;

verus! {

/// A trait that only this crate can implement: it keeps the collectors of events within
/// the crate, so that no element can suppress the events of another.
pub trait Sealed {

}

} // verus!
