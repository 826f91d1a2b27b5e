//! The interface and its four implementations.
//!
//! A range is described by the bounds it states, [`AnyRange::spec_start`] and
//! [`AnyRange::spec_end`]. What it hands out are duplicates of them: for the
//! shapes that hold bounds a duplicate is a clone, so for an index type whose
//! `clone` returns an equal value it is the bound itself.

use vstd::prelude::*;
use std::ops::{Range, RangeFrom, RangeTo, RangeFull};

verus! {

/// A range that may leave its start, its end or both open.
pub trait AnyRange<Index>: Sized {
    /// The start that this range states, if it states one.
    spec fn spec_start(&self) -> Option<Index>;

    /// The end that this range states, if it states one.
    spec fn spec_end(&self) -> Option<Index>;

    /// Whether `copy` is a value that duplicating `bound` can give.
    spec fn duplicates(bound: Index, copy: Index) -> bool;

    /// Returns `Some(s)` if a start has been specified.
    fn start(&self) -> (out: Option<Index>)
        ensures
            match self.spec_start() {
                Some(bound) => out matches Some(copy) && Self::duplicates(bound, copy),
                None => out is None,
            },
    ;

    /// Returns `Some(e)` if an end has been specified.
    fn end(&self) -> (out: Option<Index>)
        ensures
            match self.spec_end() {
                Some(bound) => out matches Some(copy) && Self::duplicates(bound, copy),
                None => out is None,
            },
    ;

    /// Converts this range into a concrete `Range` by defaulting the bounds
    /// that it does not state to the given `start` and `end`.
    fn to_range(&self, start: Index, end: Index) -> (out: Range<Index>)
        ensures
            match self.spec_start() {
                Some(bound) => Self::duplicates(bound, out.start),
                None => out.start == start,
            },
            match self.spec_end() {
                Some(bound) => Self::duplicates(bound, out.end),
                None => out.end == end,
            },
    {
        Range { start: self.start().unwrap_or(start), end: self.end().unwrap_or(end) }
    }
}

impl<I: Clone> AnyRange<I> for Range<I> {
    open spec fn spec_start(&self) -> Option<I> {
        Some(self.start)
    }

    open spec fn spec_end(&self) -> Option<I> {
        Some(self.end)
    }

    open spec fn duplicates(bound: I, copy: I) -> bool {
        cloned(bound, copy)
    }

    fn start(&self) -> (out: Option<I>) {
        Some(self.start.clone())
    }

    fn end(&self) -> (out: Option<I>) {
        Some(self.end.clone())
    }

    /// Both bounds are stated, so the defaults are left aside.
    fn to_range(&self, start: I, end: I) -> (out: Range<I>)
        ensures
            cloned(self.start, out.start),
            cloned(self.end, out.end),
    {
        Range { start: self.start.clone(), end: self.end.clone() }
    }
}

impl<I: Clone> AnyRange<I> for RangeFrom<I> {
    open spec fn spec_start(&self) -> Option<I> {
        Some(self.start)
    }

    open spec fn spec_end(&self) -> Option<I> {
        None
    }

    open spec fn duplicates(bound: I, copy: I) -> bool {
        cloned(bound, copy)
    }

    fn start(&self) -> (out: Option<I>) {
        Some(self.start.clone())
    }

    fn end(&self) -> (out: Option<I>) {
        None
    }
}

impl<I: Clone> AnyRange<I> for RangeTo<I> {
    open spec fn spec_start(&self) -> Option<I> {
        None
    }

    open spec fn spec_end(&self) -> Option<I> {
        Some(self.end)
    }

    open spec fn duplicates(bound: I, copy: I) -> bool {
        cloned(bound, copy)
    }

    fn start(&self) -> (out: Option<I>) {
        None
    }

    fn end(&self) -> (out: Option<I>) {
        Some(self.end.clone())
    }
}

impl<I> AnyRange<I> for RangeFull {
    open spec fn spec_start(&self) -> Option<I> {
        None
    }

    open spec fn spec_end(&self) -> Option<I> {
        None
    }

    open spec fn duplicates(bound: I, copy: I) -> bool {
        bound == copy
    }

    fn start(&self) -> (out: Option<I>) {
        None
    }

    fn end(&self) -> (out: Option<I>) {
        None
    }

    /// No bound is stated, so the result is the defaults as they are.
    fn to_range(&self, start: I, end: I) -> (out: Range<I>)
        ensures
            out.start == start,
            out.end == end,
    {
        Range { start: start, end: end }
    }
}

} // verus!
