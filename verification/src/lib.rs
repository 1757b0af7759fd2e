//! A capability-branded container access layer: indices and ranges are
//! stamped with the unforgeable identity of the container that issued
//! them, facts such as "this span is non-empty" are proven once and
//! carried in types and contracts, and element access inside a branded
//! region performs no redundant runtime checks — every bound is
//! discharged statically by the verifier.

pub mod container;
pub mod index;
pub mod range;
pub mod seal;

pub use container::Container;
pub use index::Index;
pub use range::{Range, RangeIter, Span};
pub use seal::{Contract, NonEmpty, ProofKind, Seal, Signed, Unknown};

use vstd::prelude::*;

verus! {

/// Enters a branded region: mints a fresh brand, wraps the storage in a
/// container carrying it, runs the caller's operation on that container,
/// and hands the operation's result back unchanged.
///
/// The precondition quantifies over every container holding this storage,
/// whatever its brand: the operation must be ready for any of them, so it
/// can assume nothing about the brand it receives and cannot usefully
/// smuggle indices in from outside the region or out to another one.
pub fn region<T, Out, F: FnOnce(Container<T>) -> Out>(storage: Vec<T>, f: F) -> (out: Out)
    requires
        forall|c: Container<T>| c@ == storage@ ==> call_requires(f, (c,)),
    ensures
        exists|c: Container<T>| c@ == storage@ && call_ensures(f, (c,), out),
{
    let c = Container::new(storage);
    let ghost witness = c;
    let out = f(c);
    proof {
        assert(witness@ == storage@ && call_ensures(f, (witness,), out));
    }
    out
}

} // verus!

