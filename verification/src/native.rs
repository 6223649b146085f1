use vstd::prelude::*;

use crate::ordering::Ordering;

verus! {

/// The native atomic capability: the operation set a platform atomic cell of
/// one fixed-width inner representation supports.
///
/// One implementation exists per supported width (boolean, the 8/16/32/64-bit
/// integers signed and unsigned, and the address-shaped width). Each mutating
/// operation takes the cell exclusively, so its contract relates the cell's
/// value before the call to its value after it; `value` is that current
/// content as a specification-level observation.
pub trait AtomicImpl: Sized {
    /// The fixed-width representation this cell holds.
    type Inner;

    /// The value the cell currently holds.
    spec fn value(&self) -> Self::Inner;

    /// Non-atomic construction; no concurrent observers exist yet.
    fn new(v: Self::Inner) -> (s: Self)
        ensures
            s.value() == v,
    ;

    /// Non-atomic, exclusive-access mutable view of the cell's content.
    fn get_mut(&mut self) -> (r: &mut Self::Inner)
        ensures
            *r == old(self).value(),
            final(self).value() == *final(r),
    ;

    /// Non-atomic teardown: consumes the cell, recovering its last value.
    fn into_inner(self) -> (r: Self::Inner)
        ensures
            r == self.value(),
    ;

    /// Atomic read of the current value.
    fn load(&self, order: Ordering) -> (r: Self::Inner)
        ensures
            r == self.value(),
    ;

    /// Atomic write; the cell afterwards holds `v`.
    fn store(&mut self, v: Self::Inner, order: Ordering)
        ensures
            final(self).value() == v,
    ;

    /// Atomic read-and-replace: installs `v` and returns the prior value.
    fn swap(&mut self, v: Self::Inner, order: Ordering) -> (r: Self::Inner)
        ensures
            r == old(self).value(),
            final(self).value() == v,
    ;

    /// Legacy combined compare-and-set: installs `new` exactly when the cell
    /// held `current`, and always returns the value observed before the
    /// attempt. The caller infers success by comparing the result against
    /// `current`; new call sites should prefer `compare_exchange`.
    fn compare_and_swap(
        &mut self,
        current: Self::Inner,
        new: Self::Inner,
        order: Ordering,
    ) -> (r: Self::Inner)
        ensures
            r == old(self).value(),
            final(self).value() == if old(self).value() == current {
                new
            } else {
                old(self).value()
            },
    ;

    /// Strong compare-exchange: installs `new` and succeeds with the prior
    /// value exactly when the cell held `current`; otherwise fails with the
    /// observed value and leaves the cell unchanged. Never spuriously fails.
    fn compare_exchange(
        &mut self,
        current: Self::Inner,
        new: Self::Inner,
        success: Ordering,
        failure: Ordering,
    ) -> (r: Result<Self::Inner, Self::Inner>)
        ensures
            old(self).value() == current ==> r == Ok::<Self::Inner, Self::Inner>(
                old(self).value(),
            ) && final(self).value() == new,
            old(self).value() != current ==> r == Err::<Self::Inner, Self::Inner>(
                old(self).value(),
            ) && final(self).value() == old(self).value(),
    ;

    /// Weak compare-exchange: as `compare_exchange`, but permitted to report
    /// failure even when the comparison held (a spurious failure). A reported
    /// success still guarantees the comparison held and `new` was installed,
    /// and a failure never changes the cell.
    fn compare_exchange_weak(
        &mut self,
        current: Self::Inner,
        new: Self::Inner,
        success: Ordering,
        failure: Ordering,
    ) -> (r: Result<Self::Inner, Self::Inner>)
        ensures
            r is Ok ==> old(self).value() == current && r == Ok::<Self::Inner, Self::Inner>(
                old(self).value(),
            ) && final(self).value() == new,
            r is Err ==> r == Err::<Self::Inner, Self::Inner>(old(self).value())
                && final(self).value() == old(self).value(),
            old(self).value() != current ==> r is Err,
    ;
}

/// The bitwise fetch-and-modify sub-capability, available only for cells
/// whose representation is boolean- or integer-shaped. An address-shaped cell
/// does not implement this trait, so the operations are structurally absent
/// for it rather than failing at run time.
pub trait AtomicLogicImpl: AtomicImpl {
    /// The bitwise AND of two inner values.
    spec fn and_spec(a: Self::Inner, b: Self::Inner) -> Self::Inner;

    /// The bitwise NAND of two inner values.
    spec fn nand_spec(a: Self::Inner, b: Self::Inner) -> Self::Inner;

    /// The bitwise OR of two inner values.
    spec fn or_spec(a: Self::Inner, b: Self::Inner) -> Self::Inner;

    /// The bitwise XOR of two inner values.
    spec fn xor_spec(a: Self::Inner, b: Self::Inner) -> Self::Inner;

    /// XOR with one operand is an involution: applying it twice restores the
    /// first operand.
    proof fn lemma_xor_involution(a: Self::Inner, b: Self::Inner)
        ensures
            Self::xor_spec(Self::xor_spec(a, b), b) == a,
    ;

    /// Atomically replaces the cell's value with the bitwise AND of the
    /// current value and `val`, returning the pre-update value.
    fn fetch_and(&mut self, val: Self::Inner, order: Ordering) -> (r: Self::Inner)
        ensures
            r == old(self).value(),
            final(self).value() == Self::and_spec(old(self).value(), val),
    ;

    /// Atomically replaces the cell's value with the bitwise NAND of the
    /// current value and `val`, returning the pre-update value.
    fn fetch_nand(&mut self, val: Self::Inner, order: Ordering) -> (r: Self::Inner)
        ensures
            r == old(self).value(),
            final(self).value() == Self::nand_spec(old(self).value(), val),
    ;

    /// Atomically replaces the cell's value with the bitwise OR of the
    /// current value and `val`, returning the pre-update value.
    fn fetch_or(&mut self, val: Self::Inner, order: Ordering) -> (r: Self::Inner)
        ensures
            r == old(self).value(),
            final(self).value() == Self::or_spec(old(self).value(), val),
    ;

    /// Atomically replaces the cell's value with the bitwise XOR of the
    /// current value and `val`, returning the pre-update value.
    fn fetch_xor(&mut self, val: Self::Inner, order: Ordering) -> (r: Self::Inner)
        ensures
            r == old(self).value(),
            final(self).value() == Self::xor_spec(old(self).value(), val),
    ;
}

} // verus!
