//! One interface over the four range shapes of `std::ops`: a range with both
//! bounds, with a start only, with an end only, and with neither.
//!
//! [`AnyRange::to_range`] turns any of them into a `Range` with both bounds,
//! taking each bound that the range does not state from the caller.

pub mod any_range;
pub mod laws;
pub mod shapes;

pub use any_range::AnyRange;
