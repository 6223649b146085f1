use vstd::prelude::*;

use crate::native::AtomicImpl;

verus! {

/// The conversion capability: a value type that rides through a native atomic
/// cell by packing losslessly into the cell's inner representation and
/// unpacking back.
///
/// Implementations choose a backing cell (`Impl`) and prove the round-trip
/// law: unpacking a packed value recovers it exactly. Injectivity of `pack`
/// follows (see [`lemma_pack_injective`]). Unpacking is only ever applied to
/// bit patterns this layer itself produced; every such pattern lies in the
/// image of `pack_spec`.
pub trait Atom: Sized {
    /// The native atomic cell this type is transported through.
    type Impl: AtomicImpl;

    /// What `pack` returns for a given value.
    spec fn pack_spec(self) -> <Self::Impl as AtomicImpl>::Inner;

    /// What `unpack` returns for a given bit pattern.
    spec fn unpack_spec(src: <Self::Impl as AtomicImpl>::Inner) -> Self;

    /// Round-trip law: unpacking a packed value recovers it exactly.
    proof fn lemma_round_trip(v: Self)
        ensures
            Self::unpack_spec(Self::pack_spec(v)) == v,
    ;

    /// Packs the value into the cell's inner representation.
    fn pack(self) -> (r: <Self::Impl as AtomicImpl>::Inner)
        ensures
            r == self.pack_spec(),
    ;

    /// Unpacks a bit pattern produced by `pack` back into the value.
    fn unpack(src: <Self::Impl as AtomicImpl>::Inner) -> (r: Self)
        ensures
            r == Self::unpack_spec(src),
    ;
}

/// Injectivity of the packing: distinct values never pack to the same bit
/// pattern. A consequence of the round-trip law.
pub proof fn lemma_pack_injective<T: Atom>(v1: T, v2: T)
    requires
        v1 != v2,
    ensures
        v1.pack_spec() != v2.pack_spec(),
{
    T::lemma_round_trip(v1);
    T::lemma_round_trip(v2);
}

} // verus!
