use vstd::prelude::*;

verus! {

/// The distance from position `start` to position `end`, as `steps_between`
/// reports it: the exact count twice when it fits a `usize`, `usize::MAX` and
/// no exact count when it does not, and `0` with no count when `end` comes first.
pub open spec fn spec_steps_between(start: nat, end: nat) -> (usize, Option<usize>) {
    if start <= end {
        if end - start <= usize::MAX {
            ((end - start) as usize, Some((end - start) as usize))
        } else {
            (usize::MAX, None)
        }
    } else {
        (0, None)
    }
}

/// Values laid out along a progression, which can be counted between and
/// stepped through by a number of positions. Stepping past either end reports
/// absence instead of building a value out of range.
pub trait Step: Sized {
    /// Where a value stands, counted from the first value of the type.
    spec fn spec_position(self) -> nat;

    /// The value at position `pos`, if the type has one there.
    spec fn spec_at(pos: nat) -> Option<Self>;

    /// How many forward steps lead from `start` to `end`.
    fn steps_between(start: &Self, end: &Self) -> (r: (usize, Option<usize>))
        ensures
            r == spec_steps_between(start.spec_position(), end.spec_position()),
    ;

    /// The value `count` steps after `start`, if there is one.
    fn forward_checked(start: Self, count: usize) -> (r: Option<Self>)
        ensures
            r == Self::spec_at((start.spec_position() + count) as nat),
    ;

    /// The value `count` steps before `start`, if there is one.
    fn backward_checked(start: Self, count: usize) -> (r: Option<Self>)
        ensures
            r == if count <= start.spec_position() {
                Self::spec_at((start.spec_position() - count) as nat)
            } else {
                None
            },
    ;

    /// The value `count` steps after `start`, which must exist.
    fn forward(start: Self, count: usize) -> (r: Self)
        requires
            Self::spec_at((start.spec_position() + count) as nat) is Some,
        ensures
            Self::spec_at((start.spec_position() + count) as nat) == Some(r),
    {
        Self::forward_checked(start, count).unwrap()
    }

    /// The value `count` steps before `start`, which must exist.
    fn backward(start: Self, count: usize) -> (r: Self)
        requires
            count <= start.spec_position(),
            Self::spec_at((start.spec_position() - count) as nat) is Some,
        ensures
            Self::spec_at((start.spec_position() - count) as nat) == Some(r),
    {
        Self::backward_checked(start, count).unwrap()
    }
}

} // verus!
