use vstd::prelude::*;

use crate::atom::Atom;
use crate::native::AtomicImpl;
use crate::native::AtomicLogicImpl;
use crate::ordering::Ordering;

verus! {

/// The generic atomic wrapper: couples one [`Atom`] type with one native
/// atomic cell and forwards every operation, packing arguments into the
/// cell's inner representation and unpacking results back into the value
/// type.
///
/// The bitwise fetch operations exist only when the backing cell implements
/// [`AtomicLogicImpl`]; a value backed by the address-shaped cell therefore
/// exposes none of them.
#[verifier::reject_recursive_types(T)]
pub struct Atomic<T: Atom> {
    cell: T::Impl,
}

impl<T: Atom> Atomic<T> {
    /// The raw bit pattern the native cell currently holds.
    pub closed spec fn native(&self) -> <T::Impl as AtomicImpl>::Inner {
        self.cell.value()
    }

    /// The value the wrapper currently holds: the cell's content, unpacked.
    pub open spec fn value(&self) -> T {
        T::unpack_spec(self.native())
    }

    /// The cell holds a bit pattern in the image of `pack_spec`, so packing
    /// the held value gives back exactly the cell's content. Established by
    /// every constructor and preserved by every operation that installs a
    /// packed value.
    pub open spec fn wf(&self) -> bool {
        T::pack_spec(self.value()) == self.native()
    }

    /// Creates a wrapper holding `v`: the value is packed and stored in a
    /// fresh native cell. Non-atomic; no concurrent observers exist yet.
    pub fn new(v: T) -> (s: Self)
        ensures
            s.value() == v,
            s.wf(),
    {
        let ghost g = v;
        let n = v.pack();
        proof {
            T::lemma_round_trip(g);
        }
        Atomic { cell: <T::Impl as AtomicImpl>::new(n) }
    }

    /// Consumes the wrapper, recovering the last stored value. Non-atomic.
    pub fn into_inner(self) -> (r: T)
        ensures
            r == self.value(),
    {
        T::unpack(self.cell.into_inner())
    }

    /// Atomically reads the current value.
    pub fn load(&self, order: Ordering) -> (r: T)
        ensures
            r == self.value(),
    {
        T::unpack(self.cell.load(order))
    }

    /// Atomically stores `v`; the wrapper afterwards holds `v`.
    pub fn store(&mut self, v: T, order: Ordering)
        ensures
            final(self).value() == v,
            final(self).wf(),
    {
        let ghost g = v;
        let n = v.pack();
        proof {
            T::lemma_round_trip(g);
        }
        self.cell.store(n, order);
    }

    /// Atomically installs `v` and returns the value held just before.
    pub fn swap(&mut self, v: T, order: Ordering) -> (r: T)
        ensures
            r == old(self).value(),
            final(self).value() == v,
            final(self).wf(),
    {
        let ghost g = v;
        let n = v.pack();
        proof {
            T::lemma_round_trip(g);
        }
        T::unpack(self.cell.swap(n, order))
    }

    /// Legacy combined compare-and-set: installs `new` exactly when the
    /// wrapper held `current`, and always returns the value observed before
    /// the attempt. The caller infers success by comparing the result against
    /// `current`; new call sites should prefer `compare_exchange`.
    pub fn compare_and_swap(&mut self, current: T, new: T, order: Ordering) -> (r: T)
        requires
            old(self).wf(),
        ensures
            r == old(self).value(),
            final(self).value() == if old(self).value() == current {
                new
            } else {
                old(self).value()
            },
            final(self).wf(),
    {
        let ghost gc = current;
        let ghost gn = new;
        let c = current.pack();
        let n = new.pack();
        proof {
            T::lemma_round_trip(gc);
            T::lemma_round_trip(gn);
        }
        T::unpack(self.cell.compare_and_swap(c, n, order))
    }

    /// Strong compare-exchange: installs `new` and succeeds with the prior
    /// value exactly when the wrapper held `current`; otherwise fails with
    /// the observed value and leaves the wrapper unchanged. Never spuriously
    /// fails.
    pub fn compare_exchange(
        &mut self,
        current: T,
        new: T,
        success: Ordering,
        failure: Ordering,
    ) -> (r: Result<T, T>)
        requires
            old(self).wf(),
        ensures
            old(self).value() == current ==> r == Ok::<T, T>(old(self).value())
                && final(self).value() == new,
            old(self).value() != current ==> r == Err::<T, T>(old(self).value())
                && final(self).value() == old(self).value(),
            final(self).wf(),
    {
        let ghost gc = current;
        let ghost gn = new;
        let c = current.pack();
        let n = new.pack();
        proof {
            T::lemma_round_trip(gc);
            T::lemma_round_trip(gn);
        }
        match self.cell.compare_exchange(c, n, success, failure) {
            Ok(prev) => Ok(T::unpack(prev)),
            Err(observed) => Err(T::unpack(observed)),
        }
    }

    /// Weak compare-exchange: as `compare_exchange`, but permitted to report
    /// failure even when the comparison held (a spurious failure). A reported
    /// success still guarantees the comparison held and `new` was installed,
    /// and a failure never changes the wrapper.
    pub fn compare_exchange_weak(
        &mut self,
        current: T,
        new: T,
        success: Ordering,
        failure: Ordering,
    ) -> (r: Result<T, T>)
        requires
            old(self).wf(),
        ensures
            r is Ok ==> old(self).value() == current && r == Ok::<T, T>(old(self).value())
                && final(self).value() == new,
            r is Err ==> r == Err::<T, T>(old(self).value())
                && final(self).value() == old(self).value(),
            old(self).value() != current ==> r is Err,
            final(self).wf(),
    {
        let ghost gc = current;
        let ghost gn = new;
        let c = current.pack();
        let n = new.pack();
        proof {
            T::lemma_round_trip(gc);
            T::lemma_round_trip(gn);
        }
        match self.cell.compare_exchange_weak(c, n, success, failure) {
            Ok(prev) => Ok(T::unpack(prev)),
            Err(observed) => Err(T::unpack(observed)),
        }
    }
}

impl<T: Atom> Atomic<T> where T::Impl: AtomicLogicImpl {
    /// Atomically replaces the cell's bit pattern with the bitwise AND of the
    /// current pattern and the packing of `val`, returning the value held
    /// just before. The resulting pattern is a bit-level combination: it lies
    /// in the image of `pack_spec` only where the packing is closed under the
    /// combination, as it is for the identity packings of the primitive
    /// integer types.
    pub fn fetch_and(&mut self, val: T, order: Ordering) -> (r: T)
        ensures
            r == old(self).value(),
            final(self).native() == <T::Impl as AtomicLogicImpl>::and_spec(
                old(self).native(),
                val.pack_spec(),
            ),
    {
        T::unpack(self.cell.fetch_and(val.pack(), order))
    }

    /// As `fetch_and`, with the bitwise NAND.
    pub fn fetch_nand(&mut self, val: T, order: Ordering) -> (r: T)
        ensures
            r == old(self).value(),
            final(self).native() == <T::Impl as AtomicLogicImpl>::nand_spec(
                old(self).native(),
                val.pack_spec(),
            ),
    {
        T::unpack(self.cell.fetch_nand(val.pack(), order))
    }

    /// As `fetch_and`, with the bitwise OR.
    pub fn fetch_or(&mut self, val: T, order: Ordering) -> (r: T)
        ensures
            r == old(self).value(),
            final(self).native() == <T::Impl as AtomicLogicImpl>::or_spec(
                old(self).native(),
                val.pack_spec(),
            ),
    {
        T::unpack(self.cell.fetch_or(val.pack(), order))
    }

    /// As `fetch_and`, with the bitwise XOR.
    pub fn fetch_xor(&mut self, val: T, order: Ordering) -> (r: T)
        ensures
            r == old(self).value(),
            final(self).native() == <T::Impl as AtomicLogicImpl>::xor_spec(
                old(self).native(),
                val.pack_spec(),
            ),
    {
        T::unpack(self.cell.fetch_xor(val.pack(), order))
    }
}

/// Involution law for `fetch_xor` at the wrapper level: starting from a
/// well-formed wrapper holding `v`, two `fetch_xor` calls with the same mask
/// `m` drive the cell from `pack_spec(v)` through two XOR steps back to
/// `pack_spec(v)`, so the value the wrapper then holds is again `v`.
pub proof fn lemma_fetch_xor_twice_restores<T: Atom>(v: T, m: T) where T::Impl: AtomicLogicImpl
    ensures
        T::unpack_spec(
            <T::Impl as AtomicLogicImpl>::xor_spec(
                <T::Impl as AtomicLogicImpl>::xor_spec(v.pack_spec(), m.pack_spec()),
                m.pack_spec(),
            ),
        ) == v,
{
    <T::Impl as AtomicLogicImpl>::lemma_xor_involution(v.pack_spec(), m.pack_spec());
    T::lemma_round_trip(v);
}

} // verus!
