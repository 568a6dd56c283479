use vstd::prelude::*;

verus! {

/// A newtype over a `usize` offset, so that indices of different domains are
/// not mixed up. Generic code builds values with `new` and reads them back
/// with `index`.
pub trait Idx: Copy + Eq + std::fmt::Debug + std::hash::Hash + Sized + 'static {
    /// The offset a value stands for.
    spec fn spec_index(self) -> nat;

    /// Whether `new` accepts the offset `idx`.
    spec fn spec_admits(idx: nat) -> bool;

    /// The value `new` builds from an offset it accepts.
    spec fn spec_new(idx: nat) -> Self;

    /// Builds the value standing for the offset `idx`.
    fn new(idx: usize) -> (r: Self)
        requires
            Self::spec_admits(idx as nat),
        ensures
            r == Self::spec_new(idx as nat),
            r.spec_index() == idx,
    ;

    /// The offset this value stands for.
    fn index(self) -> (r: usize)
        ensures
            r == self.spec_index(),
    ;

    /// Advances the value in place by `amount`.
    fn increment_by(&mut self, amount: usize)
        requires
            old(self).spec_index() + amount <= usize::MAX,
            Self::spec_admits((old(self).spec_index() + amount) as nat),
        ensures
            *final(self) == Self::spec_new((old(self).spec_index() + amount) as nat),
            final(self).spec_index() == old(self).spec_index() + amount,
    {
        *self = self.plus(amount);
    }

    /// The value `amount` positions after this one; `increment_by` is its in-place form.
    fn plus(self, amount: usize) -> (r: Self)
        requires
            self.spec_index() + amount <= usize::MAX,
            Self::spec_admits((self.spec_index() + amount) as nat),
        ensures
            r == Self::spec_new((self.spec_index() + amount) as nat),
            r.spec_index() == self.spec_index() + amount,
    {
        Self::new(self.index() + amount)
    }
}

} // verus!
