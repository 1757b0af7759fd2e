use vstd::prelude::*;
use vstd::slice::{slice_subrange, slice_to_vec};
use crate::index::Index;
use crate::range::Range;
use crate::seal::{Contract, NonEmpty, ProofKind, Seal, Signed, Unknown};

verus! {

/// The sequence `s` with the elements at `a` and `b` exchanged.
pub open spec fn swapped<T>(s: Seq<T>, a: int, b: int) -> Seq<T> {
    s.update(a, s[b]).update(b, s[a])
}

/// A branded container: the exclusive owner of its storage for the
/// duration of a region, and the sole issuer of valid indices and ranges
/// for that storage. Its view is the sequence of elements it holds.
///
/// Every operation that takes an [`Index`] or a [`Range`] demands, in its
/// `requires`, that the argument carries this container's brand and
/// describes positions inside the storage. Both facts are established once,
/// by the contract of the operation that issued the argument, and the
/// verifier carries them to the point of use: no access performs a bounds
/// or brand comparison at runtime beyond what the storage primitive itself
/// does.
pub struct Container<T> {
    storage: Vec<T>,
    seal: Seal,
}

impl<T> View for Container<T> {
    type V = Seq<T>;

    closed spec fn view(&self) -> Seq<T> {
        self.storage@
    }
}

impl<T> Contract for Container<T> {
    closed spec fn brand(&self) -> int {
        self.seal.brand()
    }
}

impl<T> Container<T> {
    /// Whether an index may be used against this container: it must carry
    /// the container's own brand and sit strictly inside the storage.
    pub open spec fn owns<P: ProofKind>(&self, i: Index<P>) -> bool {
        &&& i.brand() == self.brand()
        &&& 0 <= i@ < self@.len()
    }

    /// Whether a range may be used against this container: it must carry
    /// the container's own brand and describe a well-formed span of the
    /// storage.
    pub open spec fn owns_range<P: ProofKind>(&self, r: Range<P>) -> bool {
        &&& r.brand() == self.brand()
        &&& r.wf()
        &&& r@.end <= self@.len()
    }

    /// Wraps storage under a freshly minted brand. Nothing is ever stated
    /// about the brand of the result, so two containers can never be proven
    /// to share one: indices of either are rejected by the other's
    /// contracts.
    pub fn new(storage: Vec<T>) -> (c: Container<T>)
        ensures
            c@ == storage@,
    {
        let brand = Signed::new();
        Container { storage, seal: Seal::of(&brand) }
    }

    /// Returns `true` if the container holds no element.
    pub fn is_empty(&self) -> (b: bool)
        ensures
            b <==> self@.len() == 0,
    {
        self.len() == 0
    }

    /// Returns the number of elements the container holds.
    pub fn len(&self) -> (n: usize)
        ensures
            n == self@.len(),
    {
        self.storage.len()
    }

    /// The full span of the container, not yet proven non-empty.
    pub fn range(&self) -> (r: Range<Unknown>)
        ensures
            r@.start == 0,
            r@.end == self@.len(),
            r.brand() == self.brand(),
            r.wf(),
            self.owns_range(r),
    {
        Range::make(0, self.storage.len(), self.seal)
    }

    /// Two spans of the container, `[0, index)` and `[index, len)`. The
    /// emptiness proof `P` of the index transfers to the latter span.
    pub fn split_at_index<P: ProofKind>(&self, index: Index<P>) -> (r: (Range<Unknown>, Range<P>))
        requires
            index.brand() == self.brand(),
            0 <= index@ <= self@.len(),
            P::nonempty() ==> index@ < self@.len(),
        ensures
            r.0@.start == 0,
            r.0@.end == index@,
            r.1@.start == index@,
            r.1@.end == self@.len(),
            r.0.brand() == self.brand(),
            r.1.brand() == self.brand(),
            self.owns_range(r.0),
            self.owns_range(r.1),
    {
        (
            Range::make(0, index.integer(), self.seal),
            Range::make(index.integer(), self.storage.len(), self.seal),
        )
    }

    /// A reference to the element an index of this container points at.
    /// The brand match in the precondition is what makes the access safe:
    /// it was proven where the index was issued, and is not re-checked.
    pub fn get<P: ProofKind>(&self, index: Index<P>) -> (r: &T)
        requires
            self.owns(index),
        ensures
            *r == self@[index@],
    {
        let i = index.integer();
        &self.storage[i]
    }

    /// A mutable reference to the element an index of this container
    /// points at.
    pub fn get_mut<P: ProofKind>(&mut self, index: Index<P>) -> (r: &mut T)
        requires
            old(self).owns(index),
        ensures
            *r == old(self)@[index@],
            final(self)@ == old(self)@.update(index@, *final(r)),
            final(self).brand() == old(self).brand(),
    {
        let i = index.integer();
        &mut self.storage[i]
    }

    /// The whole storage as a slice.
    pub fn as_slice(&self) -> (s: &[T])
        ensures
            s@ == self@,
    {
        self.storage.as_slice()
    }

    /// The elements a range of this container covers, as a slice.
    pub fn slice_of<P: ProofKind>(&self, r: Range<P>) -> (s: &[T])
        requires
            self.owns_range(r),
        ensures
            s@ == self@.subrange(r@.start, r@.end),
    {
        slice_subrange(self.storage.as_slice(), r.start(), r.end())
    }

    /// Exchanges the elements at two same-brand indices in place. The two
    /// indices may be equal, in which case the container is unchanged, and
    /// need not be ordered.
    pub fn swap(&mut self, a: Index, b: Index)
        requires
            old(self).owns(a),
            old(self).owns(b),
        ensures
            final(self)@ == swapped(old(self)@, a@, b@),
            final(self).brand() == old(self).brand(),
    {
        let i = a.integer();
        let j = b.integer();
        if i == j {
            proof {
                assert(swapped(self@, a@, b@) =~= self@);
            }
        } else {
            let (lo, hi) = if i < j {
                (i, j)
            } else {
                (j, i)
            };
            let s = self.storage.as_mut_slice();
            let (left, right) = s.split_at_mut(hi);
            let (_, at_lo) = left.split_at_mut(lo);
            let x = at_lo.first_mut().unwrap();
            let y = right.first_mut().unwrap();
            core::mem::swap(x, y);
            proof {
                assert(final(self)@ =~= swapped(old(self)@, a@, b@));
            }
        }
    }

    /// Scans forward from an index while the predicate holds of the
    /// elements after it. The resulting span always includes the seed
    /// index itself, so it is non-empty by construction, and extends one
    /// past the last element for which the predicate held. No element
    /// before the seed index is examined.
    pub fn scan_from<P: ProofKind, F: Fn(&T) -> bool>(&self, index: Index<P>, f: F) -> (r: Range<
        NonEmpty,
    >)
        requires
            self.owns(index),
            forall|k: int| index@ < k < self@.len() ==> call_requires(f, (&self@[k],)),
        ensures
            r.brand() == self.brand(),
            self.owns_range(r),
            r@.start == index@,
            index@ < r@.end <= self@.len(),
            forall|k: int| index@ < k < r@.end ==> call_ensures(f, (&self@[k],), true),
            r@.end < self@.len() ==> call_ensures(f, (&self@[r@.end],), false),
    {
        let n = self.storage.len();
        let mut end: usize = index.integer() + 1;
        loop
            invariant
                index@ < end <= self@.len(),
                self.owns(index),
                forall|k: int| index@ < k < end ==> call_ensures(f, (&self@[k],), true),
                forall|k: int| index@ < k < self@.len() ==> call_requires(f, (&self@[k],)),
            ensures
                index@ < end <= self@.len(),
                forall|k: int| index@ < k < end ==> call_ensures(f, (&self@[k],), true),
                end < self@.len() ==> call_ensures(f, (&self@[end as int],), false),
            decreases self@.len() - end,
        {
            if end >= self.storage.len() {
                break;
            }
            if !f(&self.storage[end]) {
                break;
            }
            end = end + 1;
        }
        Range::make(index.integer(), end, self.seal)
    }

    /// Scans backward from an index while the predicate holds of the
    /// elements before it. The resulting span always includes the seed
    /// index itself, so it is non-empty by construction, and extends back
    /// to the last element for which the predicate held. No element after
    /// the seed index is examined.
    pub fn scan_from_rev<P: ProofKind, F: Fn(&T) -> bool>(&self, index: Index<P>, f: F) -> (r:
        Range<NonEmpty>)
        requires
            self.owns(index),
            forall|k: int| 0 <= k < index@ ==> call_requires(f, (&self@[k],)),
        ensures
            r.brand() == self.brand(),
            self.owns_range(r),
            r@.end == index@ + 1,
            0 <= r@.start <= index@,
            forall|k: int| r@.start <= k < index@ ==> call_ensures(f, (&self@[k],), true),
            r@.start > 0 ==> call_ensures(f, (&self@[r@.start - 1],), false),
    {
        let n = self.storage.len();
        let mut start: usize = index.integer();
        loop
            invariant
                0 <= start <= index@,
                self.owns(index),
                forall|k: int| start <= k < index@ ==> call_ensures(f, (&self@[k],), true),
                forall|k: int| 0 <= k < index@ ==> call_requires(f, (&self@[k],)),
            ensures
                0 <= start <= index@,
                forall|k: int| start <= k < index@ ==> call_ensures(f, (&self@[k],), true),
                start > 0 ==> call_ensures(f, (&self@[start - 1],), false),
            decreases start,
        {
            if start == 0 {
                break;
            }
            if !f(&self.storage[start - 1]) {
                break;
            }
            start = start - 1;
        }
        Range::make(start, index.integer() + 1, self.seal)
    }
}

impl<T: Copy> Clone for Container<T> {
    /// The clone holds the same elements under the same brand, so the
    /// indices and ranges of the original remain valid for the clone.
    fn clone(&self) -> (c: Self)
        ensures
            c@ == self@,
            c.brand() == self.brand(),
    {
        Container {
            storage: slice_to_vec(self.storage.as_slice()),
            seal: self.seal,
        }
    }
}

impl<T: Copy> Container<T> {
    /// The first element and a fresh container over the remaining ones, or
    /// absence if the container is empty. The remainder carries a brand of
    /// its own, so indices of the parent cannot be replayed against it.
    pub fn split_first(&self) -> (r: Option<(&T, Container<T>)>)
        ensures
            r is Some <==> self@.len() > 0,
            r is Some ==> *(r->0).0 == self@[0] && (r->0).1@ == self@.subrange(
                1,
                self@.len() as int,
            ),
    {
        if self.storage.len() > 0 {
            let first = &self.storage[0];
            let rest = slice_to_vec(slice_subrange(self.storage.as_slice(), 1, self.storage.len()));
            let brand = Signed::new();
            Some((first, Container { storage: rest, seal: Seal::of(&brand) }))
        } else {
            None
        }
    }

    /// Divides the container into two freshly branded containers at
    /// `index`: the first holds the elements of `[0, index)`, the second
    /// those of `[index, len)`. The parent and both halves remain readable
    /// side by side; neither half answers to the parent's indices.
    pub fn split_at(&self, index: Index) -> (r: (Container<T>, Container<T>))
        requires
            index.brand() == self.brand(),
            0 <= index@ <= self@.len(),
        ensures
            r.0@ == self@.subrange(0, index@),
            r.1@ == self@.subrange(index@, self@.len() as int),
            r.0@.len() == index@,
            r.0@.len() + r.1@.len() == self@.len(),
    {
        let i = index.integer();
        let left = slice_to_vec(slice_subrange(self.storage.as_slice(), 0, i));
        let right = slice_to_vec(slice_subrange(self.storage.as_slice(), i, self.storage.len()));
        let lb = Signed::new();
        let rb = Signed::new();
        (
            Container { storage: left, seal: Seal::of(&lb) },
            Container { storage: right, seal: Seal::of(&rb) },
        )
    }
}

impl<T> Container<T> {
    /// The first element by value and a fresh container owning the
    /// remaining ones, or absence if the container is empty. The container
    /// is consumed: its storage is partitioned, so no access to the parent
    /// can alias the remainder.
    pub fn split_first_mut(self) -> (r: Option<(T, Container<T>)>)
        ensures
            r is Some <==> self@.len() > 0,
            r is Some ==> (r->0).0 == self@[0] && (r->0).1@ == self@.subrange(
                1,
                self@.len() as int,
            ),
    {
        if self.storage.len() > 0 {
            let mut storage = self.storage;
            let rest = storage.split_off(1);
            let first = storage.pop().unwrap();
            let brand = Signed::new();
            Some((first, Container { storage: rest, seal: Seal::of(&brand) }))
        } else {
            None
        }
    }

    /// Divides the container into two freshly branded, independently owned
    /// containers at `index`: the first owns the elements of `[0, index)`,
    /// the second those of `[index, len)`. The container is consumed, so
    /// the two halves are disjoint by construction and the parent's
    /// mutable access is unreachable while they live.
    pub fn split_at_mut(self, index: Index) -> (r: (Container<T>, Container<T>))
        requires
            index.brand() == self.brand(),
            0 <= index@ <= self@.len(),
        ensures
            r.0@ == self@.subrange(0, index@),
            r.1@ == self@.subrange(index@, self@.len() as int),
            r.0@.len() == index@,
            r.0@.len() + r.1@.len() == self@.len(),
    {
        let mut storage = self.storage;
        let right = storage.split_off(index.integer());
        let lb = Signed::new();
        let rb = Signed::new();
        (
            Container { storage, seal: Seal::of(&lb) },
            Container { storage: right, seal: Seal::of(&rb) },
        )
    }
}

/// An index usable with one container is never usable with a container of
/// another brand: the access contracts demand brand equality, whatever the
/// offset.
pub proof fn lemma_brand_isolation<T, P: ProofKind>(a: Container<T>, b: Container<T>, i: Index<P>)
    requires
        a.owns(i),
        a.brand() != b.brand(),
    ensures
        !b.owns(i),
{
}

/// Exchanging a position with itself leaves the sequence unchanged, so
/// `swap(a, a)` leaves the container as it was.
pub proof fn lemma_swap_self<T>(s: Seq<T>, a: int)
    requires
        0 <= a < s.len(),
    ensures
        swapped(s, a, a) == s,
{
    assert(swapped(s, a, a) =~= s);
}

/// Splitting a sequence at any valid point and concatenating the two
/// parts restores the original, so the halves produced by `split_at` and
/// `split_at_mut` recombine to the container they came from, in order.
pub proof fn lemma_split_round_trip<T>(s: Seq<T>, i: int)
    requires
        0 <= i <= s.len(),
    ensures
        s.subrange(0, i) + s.subrange(i, s.len() as int) == s,
{
    assert(s.subrange(0, i) + s.subrange(i, s.len() as int) =~= s);
}

} // verus!
