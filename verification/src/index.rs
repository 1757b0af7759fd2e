use vstd::prelude::*;
use crate::seal::{Contract, NonEmpty, ProofKind, Seal};

verus! {

/// A branded position descriptor: a non-negative offset into the container
/// of the same brand. The view of an `Index` is its offset as a
/// mathematical integer.
///
/// An `Index` is only ever constructed by the container or range code of
/// this crate, at points where the stated bound on the offset has already
/// been established; there is no public constructor. Every operation that
/// consumes an `Index` states in its `requires` that the brands match and
/// that the offset is inside the container, so no operation ever re-checks
/// a bound at runtime.
///
/// The kind parameter `P` records whether the region of the container this
/// index sits in is known to be non-empty; it defaults to `NonEmpty`
/// because an index witnessing a concrete position is usually obtained
/// from a span proven to hold one.
#[derive(Copy)]
pub struct Index<P: ProofKind = NonEmpty> {
    index: usize,
    seal: Seal,
    kind: Ghost<P>,
}

impl<P: ProofKind> Clone for Index<P> {
    /// The clone is the same position under the same brand.
    fn clone(&self) -> (r: Self)
        ensures
            r@ == self@,
            r.brand() == self.brand(),
    {
        Index { index: self.index, seal: self.seal, kind: Ghost(arbitrary()) }
    }
}

impl<P: ProofKind> View for Index<P> {
    type V = int;

    closed spec fn view(&self) -> int {
        self.index as int
    }
}

impl<P: ProofKind> Contract for Index<P> {
    closed spec fn brand(&self) -> int {
        self.seal.brand()
    }
}

impl<P: ProofKind> Index<P> {
    /// Stamps an offset with a brand. Only the container and range code of
    /// this crate may call this, and only after establishing that the
    /// offset is valid for the branded container.
    pub(crate) fn new(index: usize, seal: Seal) -> (i: Index<P>)
        ensures
            i@ == index,
            i.brand() == seal.brand(),
    {
        Index { index, seal, kind: Ghost(arbitrary()) }
    }

    /// Returns the position as an integer offset.
    pub fn integer(&self) -> (r: usize)
        ensures
            r == self@,
    {
        self.index
    }

    /// The position one past this one, under the same brand and kind.
    pub fn after(&self) -> (i: Index<P>)
        requires
            self@ + 1 <= usize::MAX,
        ensures
            i@ == self@ + 1,
            i.brand() == self.brand(),
    {
        Index { index: self.index + 1, seal: self.seal, kind: Ghost(arbitrary()) }
    }

    /// The position one before this one, under the same brand and kind.
    pub fn before(&self) -> (i: Index<P>)
        requires
            self@ >= 1,
        ensures
            i@ == self@ - 1,
            i.brand() == self.brand(),
    {
        Index { index: self.index - 1, seal: self.seal, kind: Ghost(arbitrary()) }
    }

    /// Equality of positions, defined only between indices of the same
    /// brand: the brand match is demanded statically, so positions from
    /// different regions are never silently comparable.
    pub fn eq<Q: ProofKind>(&self, rhs: &Index<Q>) -> (r: bool)
        requires
            self.brand() == rhs.brand(),
        ensures
            r <==> self@ == rhs@,
    {
        self.index == rhs.index
    }

    /// Ordering of positions, defined only between indices of the same
    /// brand.
    pub fn lt<Q: ProofKind>(&self, rhs: &Index<Q>) -> (r: bool)
        requires
            self.brand() == rhs.brand(),
        ensures
            r <==> self@ < rhs@,
    {
        self.index < rhs.index
    }
}

} // verus!
