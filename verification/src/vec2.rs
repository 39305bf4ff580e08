//! Two-dimensional vectors.

use core::cmp::Ordering;
use core::ops::{Add, AddAssign, Mul, Neg, Sub, SubAssign};
use vstd::prelude::*;
use vstd::std_specs::cmp::{OrdSpec, PartialOrdSpec};
use vstd::std_specs::convert::IntoSpec;
use vstd::std_specs::ops::{AddSpec, MulSpec, NegSpec, SubSpec};

verus! {

/// A 2-dimensional vector.
#[derive(Debug, Default, Clone, Copy, Hash, PartialEq, Eq, Structural)]
pub struct Vec2<T> {
    /// The x component on the horizontal axis.
    pub x: T,
    /// The y component on the vertical axis.
    pub y: T,
}

impl<T> Vec2<T> {
    /// Create a new vector.
    pub fn new(x: T, y: T) -> (v: Self)
        ensures
            v == (Vec2 { x, y }),
    {
        Self { x, y }
    }

    /// Swaps the x and y components.
    #[must_use]
    pub fn swap(self) -> (v: Self)
        ensures
            v == (Vec2 { x: self.y, y: self.x }),
    {
        Self { x: self.y, y: self.x }
    }

    /// Swaps the x and y components in place.
    pub fn swapped(&mut self)
        ensures
            *final(self) == (Vec2 { x: old(self).y, y: old(self).x }),
    {
        core::mem::swap(&mut self.x, &mut self.y);
    }

    /// Map both the x and y components, x first.
    pub fn map<U, F: Fn(T) -> U>(self, f: F) -> (v: Vec2<U>)
        requires
            f.requires((self.x,)),
            f.requires((self.y,)),
        ensures
            f.ensures((self.x,), v.x),
            f.ensures((self.y,), v.y),
    {
        let x = f(self.x);
        let y = f(self.y);
        Vec2 { x, y }
    }

    /// Convert the inner type of the vector.
    pub fn into<U>(self) -> (v: Vec2<U>) where T: Into<U>
        ensures
            T::obeys_into_spec() ==> v == (Vec2 { x: self.x.into_spec(), y: self.y.into_spec() }),
    {
        Vec2 { x: self.x.into(), y: self.y.into() }
    }

    /// Zip this vector with another, producing a vector of a tuples.
    #[must_use]
    pub fn zip<U>(self, other: Vec2<U>) -> (v: Vec2<(T, U)>)
        ensures
            v == (Vec2 { x: (self.x, other.x), y: (self.y, other.y) }),
    {
        Vec2 { x: (self.x, other.x), y: (self.y, other.y) }
    }

    /// Get references to each of the components.
    #[must_use]
    pub fn as_ref(&self) -> (v: Vec2<&T>)
        ensures
            *v.x == self.x,
            *v.y == self.y,
    {
        Vec2 { x: &self.x, y: &self.y }
    }

    /// Get mutable references to each of the components.
    #[must_use]
    pub fn as_mut(&mut self) -> (v: Vec2<&mut T>)
        ensures
            *v.x == old(self).x,
            *v.y == old(self).y,
            *final(self) == (Vec2 { x: *final(v.x), y: *final(v.y) }),
    {
        Vec2 { x: &mut self.x, y: &mut self.y }
    }
}

impl<T> Vec2<Option<T>> {
    /// Get a vector of the two components if they are both `Some`.
    #[must_use]
    pub fn both_some(self) -> (r: Option<Vec2<T>>)
        ensures
            r == (match (self.x, self.y) {
                (Some(x), Some(y)) => Some(Vec2 { x, y }),
                _ => None,
            }),
    {
        match self.x {
            Some(x) => match self.y {
                Some(y) => Some(Vec2 { x, y }),
                None => None,
            },
            None => None,
        }
    }
}

impl<T: Add> Vec2<T> {
    /// Get the sum of the x and y components of the vector.
    pub fn sum(self) -> (r: T::Output)
        requires
            self.x.add_req(self.y),
        ensures
            T::obeys_add_spec() ==> r == self.x.add_spec(self.y),
    {
        self.x + self.y
    }
}

impl<T: Mul> Vec2<T> {
    /// Get the product of the x and y components of the vector.
    pub fn product(self) -> (r: T::Output)
        requires
            self.x.mul_req(self.y),
        ensures
            T::obeys_mul_spec() ==> r == self.x.mul_spec(self.y),
    {
        self.x * self.y
    }
}

/// The smaller of two values; the first where they are equal.
pub open spec fn lesser<T: Ord>(a: T, b: T) -> T {
    match b.cmp_spec(&a) {
        Ordering::Less => b,
        _ => a,
    }
}

/// The larger of two values; the second where they are equal.
pub open spec fn greater<T: Ord>(a: T, b: T) -> T {
    match b.cmp_spec(&a) {
        Ordering::Less => a,
        _ => b,
    }
}

impl<T: Ord> Vec2<T> {
    /// Computes the minimum of the two vectors in both dimensions.
    pub fn min(self, other: Self) -> (v: Self)
        ensures
            T::obeys_cmp_spec() ==> v == (Vec2 {
                x: lesser(self.x, other.x),
                y: lesser(self.y, other.y),
            }),
    {
        Self { x: self.x.min(other.x), y: self.y.min(other.y) }
    }

    /// Computes the maximum of the two vectors in both dimensions.
    pub fn max(self, other: Self) -> (v: Self)
        ensures
            T::obeys_cmp_spec() ==> v == (Vec2 {
                x: greater(self.x, other.x),
                y: greater(self.y, other.y),
            }),
    {
        Self { x: self.x.max(other.x), y: self.y.max(other.y) }
    }
}

/// Whether the first value is at most the second.
pub open spec fn at_most<T: Ord>(a: T, b: T) -> bool {
    a.partial_cmp_spec(&b) matches Some(Ordering::Less | Ordering::Equal)
}

impl<T: Ord> Vec2<T> {
    /// Computes the minimum and the maximum of the two vectors in both dimensions.
    pub fn min_max(self, other: Self) -> (r: (Self, Self))
        ensures
            T::obeys_partial_cmp_spec() ==> r == (if at_most(self.x, other.x) {
                if at_most(self.y, other.y) {
                    (Vec2 { x: self.x, y: self.y }, Vec2 { x: other.x, y: other.y })
                } else {
                    (Vec2 { x: self.x, y: other.y }, Vec2 { x: other.x, y: self.y })
                }
            } else {
                if at_most(self.y, other.y) {
                    (Vec2 { x: other.x, y: self.y }, Vec2 { x: self.x, y: other.y })
                } else {
                    (Vec2 { x: other.x, y: other.y }, Vec2 { x: self.x, y: self.y })
                }
            }),
    {
        let (min_x, max_x) = if self.x <= other.x {
            (self.x, other.x)
        } else {
            (other.x, self.x)
        };
        let (min_y, max_y) = if self.y <= other.y {
            (self.y, other.y)
        } else {
            (other.y, self.y)
        };
        (Vec2 { x: min_x, y: min_y }, Vec2 { x: max_x, y: max_y })
    }
}

impl<T: Add> vstd::std_specs::ops::AddSpecImpl for Vec2<T> {
    open spec fn obeys_add_spec() -> bool {
        T::obeys_add_spec()
    }

    open spec fn add_req(self, rhs: Self) -> bool {
        self.x.add_req(rhs.x) && self.y.add_req(rhs.y)
    }

    open spec fn add_spec(self, rhs: Self) -> Self::Output {
        Vec2 { x: self.x.add_spec(rhs.x), y: self.y.add_spec(rhs.y) }
    }
}

impl<T: Add> Add for Vec2<T> {
    type Output = Vec2<T::Output>;

    /// Adds the two vectors component by component.
    fn add(self, rhs: Self) -> (v: Self::Output) {
        Vec2 { x: self.x + rhs.x, y: self.y + rhs.y }
    }
}

impl<T: Sub> vstd::std_specs::ops::SubSpecImpl for Vec2<T> {
    open spec fn obeys_sub_spec() -> bool {
        T::obeys_sub_spec()
    }

    open spec fn sub_req(self, rhs: Self) -> bool {
        self.x.sub_req(rhs.x) && self.y.sub_req(rhs.y)
    }

    open spec fn sub_spec(self, rhs: Self) -> Self::Output {
        Vec2 { x: self.x.sub_spec(rhs.x), y: self.y.sub_spec(rhs.y) }
    }
}

impl<T: Sub> Sub for Vec2<T> {
    type Output = Vec2<T::Output>;

    /// Subtracts the two vectors component by component.
    fn sub(self, rhs: Self) -> (v: Self::Output) {
        Vec2 { x: self.x - rhs.x, y: self.y - rhs.y }
    }
}

impl<T: Neg> vstd::std_specs::ops::NegSpecImpl for Vec2<T> {
    open spec fn obeys_neg_spec() -> bool {
        T::obeys_neg_spec()
    }

    open spec fn neg_req(self) -> bool {
        self.x.neg_req() && self.y.neg_req()
    }

    open spec fn neg_spec(self) -> Self::Output {
        Vec2 { x: self.x.neg_spec(), y: self.y.neg_spec() }
    }
}

impl<T: Neg> Neg for Vec2<T> {
    type Output = Vec2<T::Output>;

    /// Negates both components.
    fn neg(self) -> (v: Self::Output) {
        Vec2 { x: self.x.neg(), y: self.y.neg() }
    }
}

impl<T: Add<Output = T> + Copy> AddAssign for Vec2<T> {
    /// Adds `rhs` to this vector component by component.
    fn add_assign(&mut self, rhs: Self)
        requires
            old(self).x.add_req(rhs.x),
            old(self).y.add_req(rhs.y),
        ensures
            T::obeys_add_spec() ==> *final(self) == (Vec2 {
                x: old(self).x.add_spec(rhs.x),
                y: old(self).y.add_spec(rhs.y),
            }),
    {
        self.x = self.x + rhs.x;
        self.y = self.y + rhs.y;
    }
}

impl<T: Sub<Output = T> + Copy> SubAssign for Vec2<T> {
    /// Subtracts `rhs` from this vector component by component.
    fn sub_assign(&mut self, rhs: Self)
        requires
            old(self).x.sub_req(rhs.x),
            old(self).y.sub_req(rhs.y),
        ensures
            T::obeys_sub_spec() ==> *final(self) == (Vec2 {
                x: old(self).x.sub_spec(rhs.x),
                y: old(self).y.sub_spec(rhs.y),
            }),
    {
        self.x = self.x - rhs.x;
        self.y = self.y - rhs.y;
    }
}

impl<T> vstd::std_specs::convert::FromSpecImpl<(T, T)> for Vec2<T> {
    open spec fn obeys_from_spec() -> bool {
        true
    }

    open spec fn from_spec(xy: (T, T)) -> Self {
        Vec2 { x: xy.0, y: xy.1 }
    }
}

impl<T> From<(T, T)> for Vec2<T> {
    /// The vector whose components are those of the pair, x first.
    fn from(xy: (T, T)) -> (v: Self) {
        Self { x: xy.0, y: xy.1 }
    }
}

impl<T> vstd::std_specs::convert::FromSpecImpl<Vec2<T>> for (T, T) {
    open spec fn obeys_from_spec() -> bool {
        true
    }

    open spec fn from_spec(vec: Vec2<T>) -> Self {
        (vec.x, vec.y)
    }
}

impl<T> From<Vec2<T>> for (T, T) {
    /// The pair of the vector's components, x first.
    fn from(vec: Vec2<T>) -> (xy: Self) {
        (vec.x, vec.y)
    }
}

} // verus!
