//! Element layouts.

pub use crate::elements::containers::container_1d::Axis;
