use vstd::prelude::*;
use crate::index::Index;
use crate::seal::{Contract, NonEmpty, ProofKind, Seal, Unknown};

verus! {

/// The mathematical content of a range or of a range iterator: the bounds
/// of the half-open span `[start, end)`.
pub struct Span {
    pub start: int,
    pub end: int,
}

/// The midpoint a span is cut at: floor division biases the cut point so
/// that on an odd length the extra element lands in the right half.
pub open spec fn upper_midpoint(s: Span) -> int {
    s.start + (s.end - s.start) / 2
}

/// A branded contiguous span `[start, end)` inside the container of the
/// same brand. Its view is the pair of bounds.
///
/// The kind parameter `P` tracks what is known about emptiness: an
/// `Unknown` range may be empty, a `NonEmpty` range is guaranteed to
/// satisfy `start < end`, and the operations that need an element (`last`,
/// `head`, `tail`, the guarded `advance`) exist only on `NonEmpty` ranges.
/// The single dynamic check that turns `Unknown` into `NonEmpty` is
/// [`Range::nonempty`]; every other constructor derives its bounds from a
/// span already known to be well-formed, so nothing is ever re-checked.
///
/// There is no public constructor: a range is obtained from the container
/// of its brand, through [`crate::Container::range`] and the splitting
/// operations.
#[derive(Copy)]
pub struct Range<P: ProofKind = Unknown> {
    start: usize,
    end: usize,
    seal: Seal,
    kind: Ghost<P>,
}

impl<P: ProofKind> Clone for Range<P> {
    /// The clone is the same span under the same brand.
    fn clone(&self) -> (r: Self)
        ensures
            r@ == self@,
            r.brand() == self.brand(),
    {
        Range { start: self.start, end: self.end, seal: self.seal, kind: Ghost(arbitrary()) }
    }
}

impl<P: ProofKind> View for Range<P> {
    type V = Span;

    closed spec fn view(&self) -> Span {
        Span { start: self.start as int, end: self.end as int }
    }
}

impl<P: ProofKind> Contract for Range<P> {
    closed spec fn brand(&self) -> int {
        self.seal.brand()
    }
}

impl<P: ProofKind> Range<P> {
    /// The invariant of every range this crate issues: the bounds are
    /// ordered, and a span whose kind claims an element really holds one.
    pub open spec fn wf(&self) -> bool {
        &&& self@.start <= self@.end
        &&& P::nonempty() ==> self@.start < self@.end
    }

    /// Stamps a pair of bounds with a brand. Only the container and range
    /// code of this crate may call this, and only with bounds already
    /// known to satisfy the invariant of the kind `P`.
    pub(crate) fn make(start: usize, end: usize, seal: Seal) -> (r: Range<P>)
        requires
            start <= end,
            P::nonempty() ==> start < end,
        ensures
            r@.start == start,
            r@.end == end,
            r.brand() == seal.brand(),
            r.wf(),
    {
        Range { start, end, seal, kind: Ghost(arbitrary()) }
    }

    /// Restates this span as proven non-empty. The claim is not taken on
    /// faith: the caller must have proven `start < end`, here demanded as
    /// a precondition rather than tested again at runtime.
    pub fn assume_nonempty(&self) -> (r: Range<NonEmpty>)
        requires
            self@.start < self@.end,
        ensures
            r@ == self@,
            r.brand() == self.brand(),
            r.wf(),
    {
        Range { start: self.start, end: self.end, seal: self.seal, kind: Ghost(arbitrary()) }
    }

    /// The one dynamic emptiness check in the whole design: converts an
    /// unproven span into a `NonEmpty` one exactly when it holds an
    /// element, and signals absence otherwise.
    pub fn nonempty(&self) -> (r: Option<Range<NonEmpty>>)
        requires
            self.wf(),
        ensures
            self@.start < self@.end ==> r is Some,
            self@.start == self@.end ==> r is None,
            r is Some ==> (r->0)@ == self@ && (r->0).brand() == self.brand() && (r->0).wf(),
    {
        if !self.is_empty() {
            Some(self.assume_nonempty())
        } else {
            None
        }
    }

    /// Returns the number of positions the span covers.
    pub fn len(&self) -> (n: usize)
        requires
            self.wf(),
        ensures
            n == self@.end - self@.start,
    {
        self.end - self.start
    }

    /// Returns `true` if the span covers no position.
    pub fn is_empty(&self) -> (b: bool)
        requires
            self.wf(),
        ensures
            b <==> self@.start == self@.end,
    {
        self.start >= self.end
    }

    /// The first position of the span, under the same brand and kind. On a
    /// `NonEmpty` range the result is inside the span; on an `Unknown`
    /// range it may equal `end`, and no access contract accepts it until
    /// the span is proven to hold it.
    pub fn first(&self) -> (i: Index<P>)
        ensures
            i@ == self@.start,
            i.brand() == self.brand(),
    {
        Index::new(self.start, self.seal)
    }

    /// The middle position of the span, biased toward the right half on an
    /// odd length.
    pub fn upper_middle(&self) -> (i: Index<P>)
        requires
            self.wf(),
        ensures
            i@ == upper_midpoint(self@),
            i.brand() == self.brand(),
    {
        let mid = self.len() / 2 + self.start;
        Index::new(mid, self.seal)
    }

    /// The lower bound of the span.
    pub fn start(&self) -> (s: usize)
        ensures
            s == self@.start,
    {
        self.start
    }

    /// The upper bound of the span.
    pub fn end(&self) -> (e: usize)
        ensures
            e == self@.end,
    {
        self.end
    }

    /// Splits the span in half, the midpoint landing in the latter half.
    /// The emptiness proof `P` transfers to the latter half: a span that
    /// held an element still holds one from its midpoint on.
    pub fn split_in_half(&self) -> (r: (Range<Unknown>, Range<P>))
        requires
            self.wf(),
        ensures
            r.0@.start == self@.start,
            r.0@.end == upper_midpoint(self@),
            r.1@.start == upper_midpoint(self@),
            r.1@.end == self@.end,
            r.0.brand() == self.brand(),
            r.1.brand() == self.brand(),
            r.0.wf(),
            r.1.wf(),
    {
        let mid = (self.end - self.start) / 2 + self.start;
        (Range::make(self.start, mid, self.seal), Range::make(mid, self.end, self.seal))
    }

    /// Splits the span at an index of the same brand into `[start, index)`
    /// and `[index, end)`. The emptiness proof `P` transfers to the latter
    /// half; the cut point being inside the span is the caller's contract,
    /// established where the index was created, and is not re-checked.
    pub fn split_index(&self, index: Index) -> (r: (Range<Unknown>, Range<P>))
        requires
            self.wf(),
            index.brand() == self.brand(),
            self@.start <= index@ <= self@.end,
            P::nonempty() ==> index@ < self@.end,
        ensures
            r.0@.start == self@.start,
            r.0@.end == index@,
            r.1@.start == index@,
            r.1@.end == self@.end,
            r.0.brand() == self.brand(),
            r.1.brand() == self.brand(),
            r.0.wf(),
            r.1.wf(),
    {
        (
            Range::make(self.start, index.integer(), self.seal),
            Range::make(index.integer(), self.end, self.seal),
        )
    }

    /// Tests whether a bare offset falls inside the span, and stamps it
    /// with the span's brand if it does: the checked gate through which an
    /// arbitrary integer becomes a usable index.
    pub fn contains(&self, index: usize) -> (r: Option<Index<P>>)
        requires
            self.wf(),
        ensures
            self@.start <= index < self@.end ==> r is Some,
            !(self@.start <= index < self@.end) ==> r is None,
            r is Some ==> (r->0)@ == index && (r->0).brand() == self.brand(),
    {
        if index >= self.start && index < self.end {
            Some(Index::new(index, self.seal))
        } else {
            None
        }
    }

    /// Equality of spans, defined only between ranges of the same brand:
    /// the brand match is demanded statically, so spans from different
    /// regions are never silently comparable.
    pub fn eq<Q: ProofKind>(&self, rhs: &Range<Q>) -> (r: bool)
        requires
            self.brand() == rhs.brand(),
        ensures
            r <==> self@ == rhs@,
    {
        self.start == rhs.start && self.end == rhs.end
    }

    /// A restartable cursor over the positions of the span.
    pub fn iter(&self) -> (it: RangeIter)
        requires
            self.wf(),
        ensures
            it@ == self@,
            it.brand() == self.brand(),
            it.wf(),
    {
        RangeIter { start: self.start, end: self.end, seal: self.seal }
    }
}

impl Range<NonEmpty> {
    /// The last position of the span, always valid because the kind
    /// guarantees `start < end`.
    pub fn last(&self) -> (i: Index)
        requires
            self.wf(),
        ensures
            i@ == self@.end - 1,
            i.brand() == self.brand(),
    {
        Index::new(self.end - 1, self.seal)
    }

    /// The span with its first position dropped; it may now be empty.
    pub fn tail(self) -> (r: Range<Unknown>)
        requires
            self.wf(),
        ensures
            r@.start == self@.start + 1,
            r@.end == self@.end,
            r.brand() == self.brand(),
            r.wf(),
    {
        Range::make(self.start + 1, self.end, self.seal)
    }

    /// The span with its last position dropped; it may now be empty.
    pub fn head(self) -> (r: Range<Unknown>)
        requires
            self.wf(),
        ensures
            r@.start == self@.start,
            r@.end == self@.end - 1,
            r.brand() == self.brand(),
            r.wf(),
    {
        Range::make(self.start, self.end - 1, self.seal)
    }

    /// Shrinks the span by one from the front, but only if the result
    /// still holds an element; otherwise the span is left unchanged, so a
    /// `NonEmpty` range never describes an empty span. Returns whether the
    /// span advanced.
    pub fn advance(&mut self) -> (moved: bool)
        requires
            old(self).wf(),
        ensures
            moved <==> old(self)@.start + 1 < old(self)@.end,
            moved ==> final(self)@.start == old(self)@.start + 1 && final(self)@.end == old(self)@.end,
            !moved ==> final(self)@ == old(self)@,
            final(self).brand() == old(self).brand(),
            final(self).wf(),
    {
        if self.start + 1 < self.end {
            self.start = self.start + 1;
            true
        } else {
            false
        }
    }

    /// Shrinks the span by one from the back, but only if the result
    /// still holds an element; otherwise the span is left unchanged.
    /// Returns whether the span shrank.
    pub fn advance_back(&mut self) -> (moved: bool)
        requires
            old(self).wf(),
        ensures
            moved <==> old(self)@.start < old(self)@.end - 1,
            moved ==> final(self)@.start == old(self)@.start && final(self)@.end == old(self)@.end - 1,
            !moved ==> final(self)@ == old(self)@,
            final(self).brand() == old(self).brand(),
            final(self).wf(),
    {
        if self.start < self.end - 1 {
            self.end = self.end - 1;
            true
        } else {
            false
        }
    }
}

/// A finite, bidirectional cursor over the positions of a range: walking
/// forward yields `start, start + 1, ..., end - 1`, walking backward
/// yields the reverse, and the two directions share the one remaining
/// span, so no position is yielded twice.
#[derive(Clone, Copy)]
pub struct RangeIter {
    start: usize,
    end: usize,
    seal: Seal,
}

impl View for RangeIter {
    type V = Span;

    closed spec fn view(&self) -> Span {
        Span { start: self.start as int, end: self.end as int }
    }
}

impl Contract for RangeIter {
    closed spec fn brand(&self) -> int {
        self.seal.brand()
    }
}

impl RangeIter {
    /// The bounds never cross.
    pub open spec fn wf(&self) -> bool {
        self@.start <= self@.end
    }

    /// Yields the lowest position not yet yielded, or nothing once the
    /// cursor is exhausted.
    pub fn next(&mut self) -> (r: Option<Index>)
        requires
            old(self).wf(),
        ensures
            old(self)@.start < old(self)@.end ==> r is Some && (r->0)@ == old(self)@.start
                && (r->0).brand() == old(self).brand() && final(self)@.start == old(self)@.start + 1
                && final(self)@.end == old(self)@.end,
            old(self)@.start == old(self)@.end ==> r is None && final(self)@ == old(self)@,
            final(self).brand() == old(self).brand(),
            final(self).wf(),
    {
        if self.start < self.end {
            let idx = self.start;
            self.start = self.start + 1;
            Some(Index::new(idx, self.seal))
        } else {
            None
        }
    }

    /// Yields the highest position not yet yielded, or nothing once the
    /// cursor is exhausted.
    pub fn next_back(&mut self) -> (r: Option<Index>)
        requires
            old(self).wf(),
        ensures
            old(self)@.start < old(self)@.end ==> r is Some && (r->0)@ == old(self)@.end - 1
                && (r->0).brand() == old(self).brand() && final(self)@.start == old(self)@.start
                && final(self)@.end == old(self)@.end - 1,
            old(self)@.start == old(self)@.end ==> r is None && final(self)@ == old(self)@,
            final(self).brand() == old(self).brand(),
            final(self).wf(),
    {
        if self.start < self.end {
            self.end = self.end - 1;
            Some(Index::new(self.end, self.seal))
        } else {
            None
        }
    }

    /// How many positions remain to be yielded.
    pub fn len(&self) -> (n: usize)
        requires
            self.wf(),
        ensures
            n == self@.end - self@.start,
    {
        self.end - self.start
    }
}

} // verus!
