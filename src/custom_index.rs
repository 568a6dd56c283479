use vstd::prelude::*;

use vstd::std_specs::cmp::PartialOrdSpec;
use vstd::std_specs::ops::AddSpec;

use crate::idx::Idx;
use crate::step::Step;

verus! {

/// The largest value an index can take. The 256 values above it are never
/// produced, so that code packing an index into a larger word can use them as tags.
pub const MAX: u32 = 0xFFFF_FF00;

/// An index backed by a `u32` that never exceeds [`MAX`].
#[derive(Clone, Copy, Debug, PartialEq, Eq, Structural, Ord, Hash)]
pub struct CustomIndex {
    private_use_as_methods_instead: u32,
}

impl View for CustomIndex {
    type V = nat;

    /// The offset this index stands for.
    closed spec fn view(&self) -> nat {
        self.private_use_as_methods_instead as nat
    }
}

impl CustomIndex {
    /// Maximum value the index can take, as a `u32`.
    pub const MAX_AS_U32: u32 = MAX;

    #[verifier::type_invariant]
    spec fn in_range(self) -> bool {
        self.private_use_as_methods_instead <= MAX
    }

    /// The index that stands for the offset `n`; meaningful for `n <= MAX`.
    pub closed spec fn spec_from(n: nat) -> CustomIndex {
        CustomIndex { private_use_as_methods_instead: n as u32 }
    }

    /// Creates a new index from a given `usize`, which may not exceed `MAX`.
    pub fn from_usize(value: usize) -> (r: Self)
        requires
            value <= MAX,
        ensures
            r == Self::spec_from(value as nat),
            r@ == value,
    {
        Self::from_u32_unchecked(value as u32)
    }

    /// Creates a new index from a given `u32`, which may not exceed `MAX`.
    pub fn from_u32(value: u32) -> (r: Self)
        requires
            value <= MAX,
        ensures
            r == Self::spec_from(value as nat),
            r@ == value,
    {
        Self::from_u32_unchecked(value)
    }

    /// Creates a new index from a given `u16`; every `u16` is in range.
    pub fn from_u16(value: u16) -> (r: Self)
        ensures
            r == Self::spec_from(value as nat),
            r@ == value,
    {
        let value: u32 = value as u32;
        Self::from_u32_unchecked(value)
    }

    /// Creates a new index from a given `u32` without a run-time check.
    /// The bound is the caller's to establish; prefer `from_u32`.
    pub fn from_u32_unchecked(value: u32) -> (r: Self)
        requires
            value <= MAX,
        ensures
            r == Self::spec_from(value as nat),
            r@ == value,
    {
        CustomIndex { private_use_as_methods_instead: value }
    }

    /// Extracts the value of this index as a `usize`.
    pub fn index(self) -> (r: usize)
        ensures
            r == self@,
            r <= MAX,
    {
        self.as_usize()
    }

    /// Extracts the value of this index as a `u32`.
    pub fn as_u32(self) -> (r: u32)
        ensures
            r == self@,
            r <= MAX,
    {
        proof {
            use_type_invariant(&self);
        }
        self.private_use_as_methods_instead
    }

    /// Extracts the value of this index as a `usize`.
    pub fn as_usize(self) -> (r: usize)
        ensures
            r == self@,
            r <= MAX,
    {
        self.as_u32() as usize
    }

    /// The index built from an offset in range stands for that offset.
    pub broadcast proof fn lemma_view_of_spec_from(n: nat)
        requires
            n <= MAX,
        ensures
            #[trigger] Self::spec_from(n)@ == n,
    {
    }

    /// Two indices are equal exactly when they stand for the same offset.
    pub broadcast proof fn lemma_view_injective(a: CustomIndex, b: CustomIndex)
        ensures
            #![trigger a@, b@]
            a@ == b@ <==> a == b,
    {
    }

    /// Every index is the one built from its own offset.
    pub broadcast proof fn lemma_spec_from_view(i: CustomIndex)
        ensures
            #[trigger] Self::spec_from(i@) == i,
    {
    }
}

/// Building an index from any `v <= MAX` with `from_u32` and reading it back
/// with `as_u32` gives `v` again.
pub proof fn lemma_from_u32_round_trip(v: u32)
    requires
        v <= MAX,
    ensures
        CustomIndex::spec_from(v as nat)@ == v,
{
}

/// `i + offset` is accepted exactly when `from_usize(i.index() + offset)` is,
/// and then both give the same index.
pub proof fn lemma_add_is_from_usize(i: CustomIndex, offset: usize)
    ensures
        i.add_req(offset) <==> i@ + offset <= MAX,
        i.add_req(offset) ==> i.add_spec(offset) == CustomIndex::spec_from((i@ + offset) as nat),
{
}

/// Indices are totally ordered, as the offsets they stand for are: any two
/// compare, `a` comes before `b` exactly when its offset is smaller, they
/// compare equal exactly when they are equal, and swapping them reverses the result.
pub proof fn lemma_order_follows_index(a: CustomIndex, b: CustomIndex)
    ensures
        a.partial_cmp_spec(&b) is Some,
        a@ < b@ <==> a.partial_cmp_spec(&b) == Some(std::cmp::Ordering::Less),
        a@ > b@ <==> a.partial_cmp_spec(&b) == Some(std::cmp::Ordering::Greater),
        a == b <==> a.partial_cmp_spec(&b) == Some(std::cmp::Ordering::Equal),
        a.partial_cmp_spec(&b) == Some(std::cmp::Ordering::Less) <==> b.partial_cmp_spec(&a)
            == Some(std::cmp::Ordering::Greater),
{
}

impl std::ops::Add<usize> for CustomIndex {
    type Output = Self;

    /// Advances the index by `other`; the sum may not exceed `MAX`.
    fn add(self, other: usize) -> (r: Self) {
        Self::from_usize(self.index() + other)
    }
}

impl vstd::std_specs::ops::AddSpecImpl<usize> for CustomIndex {
    open spec fn obeys_add_spec() -> bool {
        true
    }

    open spec fn add_req(self, rhs: usize) -> bool {
        self@ + rhs <= MAX
    }

    open spec fn add_spec(self, rhs: usize) -> Self {
        Self::spec_from((self@ + rhs) as nat)
    }
}

impl Idx for CustomIndex {
    open spec fn spec_index(self) -> nat {
        self@
    }

    open spec fn spec_admits(idx: nat) -> bool {
        idx <= MAX
    }

    open spec fn spec_new(idx: nat) -> Self {
        Self::spec_from(idx)
    }

    fn new(idx: usize) -> (r: Self) {
        Self::from_usize(idx)
    }

    fn index(self) -> (r: usize) {
        self.as_usize()
    }
}

impl Step for CustomIndex {
    open spec fn spec_position(self) -> nat {
        self@
    }

    open spec fn spec_at(pos: nat) -> Option<Self> {
        if pos <= MAX {
            Some(Self::spec_from(pos))
        } else {
            None
        }
    }

    fn steps_between(start: &Self, end: &Self) -> (r: (usize, Option<usize>)) {
        let a: usize = start.index();
        let b: usize = end.index();
        if a <= b {
            let steps: usize = b - a;
            (steps, Some(steps))
        } else {
            (0, None)
        }
    }

    fn forward_checked(start: Self, count: usize) -> (r: Option<Self>) {
        match start.index().checked_add(count) {
            Some(sum) => {
                if sum <= MAX as usize {
                    Some(Self::from_usize(sum))
                } else {
                    None
                }
            },
            None => None,
        }
    }

    fn backward_checked(start: Self, count: usize) -> (r: Option<Self>) {
        match start.index().checked_sub(count) {
            Some(difference) => Some(Self::from_usize(difference)),
            None => None,
        }
    }
}

impl PartialOrd for CustomIndex {
    /// Orders indices by the offsets they stand for.
    fn partial_cmp(&self, other: &CustomIndex) -> (r: Option<std::cmp::Ordering>) {
        let a: u32 = self.private_use_as_methods_instead;
        let b: u32 = other.private_use_as_methods_instead;
        if a < b {
            Some(std::cmp::Ordering::Less)
        } else if a == b {
            Some(std::cmp::Ordering::Equal)
        } else {
            Some(std::cmp::Ordering::Greater)
        }
    }
}

impl vstd::std_specs::cmp::PartialOrdSpecImpl for CustomIndex {
    open spec fn obeys_partial_cmp_spec() -> bool {
        true
    }

    open spec fn partial_cmp_spec(&self, other: &CustomIndex) -> Option<std::cmp::Ordering> {
        if self@ < other@ {
            Some(std::cmp::Ordering::Less)
        } else if self@ == other@ {
            Some(std::cmp::Ordering::Equal)
        } else {
            Some(std::cmp::Ordering::Greater)
        }
    }
}

impl From<CustomIndex> for u32 {
    /// The index's offset as a `u32`.
    fn from(v: CustomIndex) -> (r: u32) {
        v.as_u32()
    }
}

impl vstd::std_specs::convert::FromSpecImpl<CustomIndex> for u32 {
    open spec fn obeys_from_spec() -> bool {
        true
    }

    open spec fn from_spec(v: CustomIndex) -> u32 {
        v@ as u32
    }
}

impl From<CustomIndex> for usize {
    /// The index's offset as a `usize`.
    fn from(v: CustomIndex) -> (r: usize) {
        v.as_usize()
    }
}

impl vstd::std_specs::convert::FromSpecImpl<CustomIndex> for usize {
    open spec fn obeys_from_spec() -> bool {
        true
    }

    open spec fn from_spec(v: CustomIndex) -> usize {
        v@ as usize
    }
}

} // verus!
