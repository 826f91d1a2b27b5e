//! What holds of every range behind the interface, and of each shape.
//!
//! A range hands out duplicates of the bounds it holds. The equalities below
//! are stated for index types whose duplicates keep the value, see
//! [`keeps_value`]; the integers are such types.

use vstd::prelude::*;
use std::ops::{Range, RangeFrom, RangeTo, RangeFull};
use crate::any_range::AnyRange;

verus! {

/// Duplicating a bound of `R` gives back the same value.
pub open spec fn keeps_value<R: AnyRange<I>, I>() -> bool {
    forall|bound: I, copy: I| #[trigger] R::duplicates(bound, copy) ==> copy == bound
}

/// The range without bounds hands out no bound, so the condition holds of it
/// for every index type.
pub proof fn lemma_full_keeps_value<I>()
    ensures
        keeps_value::<RangeFull, I>(),
{
}

/// `usize`, the index of slices and vectors, keeps its value in every shape.
pub proof fn lemma_usize_keeps_value()
    ensures
        keeps_value::<Range<usize>, usize>(),
        keeps_value::<RangeFrom<usize>, usize>(),
        keeps_value::<RangeTo<usize>, usize>(),
{
}

/// `out` is a value that `range.start()` can return.
pub open spec fn start_gives<R: AnyRange<I>, I>(range: R, out: Option<I>) -> bool {
    call_ensures(R::start, (&range,), out)
}

/// `out` is a value that `range.end()` can return.
pub open spec fn end_gives<R: AnyRange<I>, I>(range: R, out: Option<I>) -> bool {
    call_ensures(R::end, (&range,), out)
}

/// `out` is a value that `range.to_range(start, end)` can return.
pub open spec fn resolves<R: AnyRange<I>, I>(range: R, start: I, end: I, out: Range<I>) -> bool {
    call_ensures(R::to_range, (&range, start, end), out)
}

/// Resolving takes each bound from the range where the range states it, and
/// from the defaults where it does not.
pub proof fn lemma_resolve_fills_open_bounds<R: AnyRange<I>, I>(
    range: R,
    start: I,
    end: I,
    out: Range<I>,
)
    requires
        keeps_value::<R, I>(),
        resolves(range, start, end, out),
    ensures
        out.start == range.spec_start().unwrap_or(start),
        out.end == range.spec_end().unwrap_or(end),
{
}

/// A range with both bounds resolves to itself, whatever the defaults are.
pub proof fn lemma_bounded_ignores_defaults<I: Clone>(
    range: Range<I>,
    start: I,
    end: I,
    out: Range<I>,
)
    requires
        keeps_value::<Range<I>, I>(),
        resolves(range, start, end, out),
    ensures
        out == range,
{
}

/// A range with a start only resolves to its start and the default end; the
/// default start plays no part.
pub proof fn lemma_from_takes_default_end<I: Clone>(
    range: RangeFrom<I>,
    start: I,
    end: I,
    out: Range<I>,
)
    requires
        keeps_value::<RangeFrom<I>, I>(),
        resolves(range, start, end, out),
    ensures
        out == (Range { start: range.start, end: end }),
{
}

/// A range with an end only resolves to the default start and its end; the
/// default end plays no part.
pub proof fn lemma_to_takes_default_start<I: Clone>(
    range: RangeTo<I>,
    start: I,
    end: I,
    out: Range<I>,
)
    requires
        keeps_value::<RangeTo<I>, I>(),
        resolves(range, start, end, out),
    ensures
        out == (Range { start: start, end: range.end }),
{
}

/// The range without bounds resolves to the defaults as they are, for every
/// index type.
pub proof fn lemma_full_is_the_defaults<I>(range: RangeFull, start: I, end: I, out: Range<I>)
    requires
        resolves(range, start, end, out),
    ensures
        out == (Range { start: start, end: end }),
{
}

/// Every answer of `start` is the start that the range states, so two
/// answers on the same range are equal; likewise for `end`.
pub proof fn lemma_queries_repeat<R: AnyRange<I>, I>(range: R, first: Option<I>, second: Option<I>)
    requires
        keeps_value::<R, I>(),
    ensures
        start_gives(range, first) ==> first == range.spec_start(),
        start_gives(range, first) && start_gives(range, second) ==> first == second,
        end_gives(range, first) ==> first == range.spec_end(),
        end_gives(range, first) && end_gives(range, second) ==> first == second,
{
}

} // verus!
