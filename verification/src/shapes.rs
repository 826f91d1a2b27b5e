//! The range shapes of `std::ops` that leave a bound open.
//!
//! They are declared with their fields in view, as they stand in `std`, so
//! that verified code reads `start` and `end` directly. Nothing is claimed of
//! any of their methods.

use vstd::prelude::*;

verus! {

/// `std::ops::RangeFrom`, the range `start..`: a struct whose one field is the
/// public `start`.
#[verifier::external_type_specification]
#[verifier::reject_recursive_types(Idx)]
pub struct ExRangeFrom<Idx>(std::ops::RangeFrom<Idx>);

/// `std::ops::RangeTo`, the range `..end`: a struct whose one field is the
/// public `end`.
#[verifier::external_type_specification]
#[verifier::reject_recursive_types(Idx)]
pub struct ExRangeTo<Idx>(std::ops::RangeTo<Idx>);

/// `std::ops::RangeFull`, the range `..`: a struct without fields.
#[verifier::external_type_specification]
pub struct ExRangeFull(std::ops::RangeFull);

} // verus!
