use vstd::prelude::*;

verus! {

/// Everything that claims membership in a branded region carries a brand
/// identity. Two entities may be combined in an operation (indexing a
/// container with an index, splitting a range at an index) only when the
/// verifier can prove their brands equal, and the only source of such proof
/// is the contract of the container that stamped both.
pub trait Contract {
    /// The brand identity this entity is stamped with.
    spec fn brand(&self) -> int;
}

/// A freshly minted brand identity.
///
/// No contract of this crate ever states which identity a minted `Signed`
/// value holds. The identity is therefore opaque: given two independent
/// mints, the verifier can never prove their identities equal, so an index
/// stamped under one brand can never be shown compatible with a container
/// stamped under another. Opacity plays the role that unforgeability plays
/// in a purely dynamic design, at no runtime cost at all.
#[derive(Clone, Copy)]
pub struct Signed {
    id: Ghost<int>,
}

impl Contract for Signed {
    closed spec fn brand(&self) -> int {
        self.id@
    }
}

impl Signed {
    /// Mints a brand. The contract deliberately says nothing about the
    /// identity of the result: that silence is what makes the brand fresh.
    pub fn new() -> Signed {
        Signed { id: Ghost(0int) }
    }
}

/// A capability token: a copy of a brand, attached to a container and to
/// every index and range the container issues. The token carries no data,
/// only the ghost identity used in brand-equality proofs.
#[derive(Clone, Copy)]
pub struct Seal {
    id: Ghost<int>,
}

impl Contract for Seal {
    closed spec fn brand(&self) -> int {
        self.id@
    }
}

impl Seal {
    /// Seals a brand of its own minting, as opaque as `Signed::new`.
    pub fn new() -> Seal {
        Seal { id: Ghost(0int) }
    }

    /// Attaches an already minted brand.
    pub(crate) fn of(signed: &Signed) -> (s: Seal)
        ensures
            s.brand() == signed.brand(),
    {
        Seal { id: Ghost(signed.brand()) }
    }
}

/// The emptiness fact tracked in a range's type. A span tagged `NonEmpty`
/// is guaranteed to hold at least one element; a span tagged `Unknown` may
/// be empty. Operations that need an element (`last`, `head`, `tail`, the
/// guarded `advance`) exist only on `NonEmpty` ranges, so misuse of an
/// unproven span is not expressible at all.
pub trait ProofKind {
    /// Whether spans of this kind are guaranteed to hold an element.
    spec fn nonempty() -> bool;
}

/// No guarantee about emptiness: the span may be empty.
#[derive(Clone, Copy)]
pub struct Unknown;

/// The span is guaranteed to hold at least one element.
#[derive(Clone, Copy)]
pub struct NonEmpty;

impl ProofKind for Unknown {
    open spec fn nonempty() -> bool {
        false
    }
}

impl ProofKind for NonEmpty {
    open spec fn nonempty() -> bool {
        true
    }
}

} // verus!
