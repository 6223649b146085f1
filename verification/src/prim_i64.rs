use vstd::prelude::*;

use crate::atom::Atom;
use crate::native::AtomicImpl;
use crate::native::AtomicLogicImpl;
use crate::ordering::Ordering;

verus! {

/// The native atomic cell for the signed 64-bit width.
pub struct NativeI64 {
    v: i64,
}

impl AtomicImpl for NativeI64 {
    type Inner = i64;

    closed spec fn value(&self) -> i64 {
        self.v
    }

    fn new(v: i64) -> Self {
        NativeI64 { v }
    }

    fn get_mut(&mut self) -> &mut i64 {
        &mut self.v
    }

    fn into_inner(self) -> i64 {
        self.v
    }

    fn load(&self, _order: Ordering) -> i64 {
        self.v
    }

    fn store(&mut self, v: i64, _order: Ordering) {
        self.v = v;
    }

    fn swap(&mut self, v: i64, _order: Ordering) -> i64 {
        let prev = self.v;
        self.v = v;
        prev
    }

    fn compare_and_swap(&mut self, current: i64, new: i64, _order: Ordering) -> i64 {
        let prev = self.v;
        if prev == current {
            self.v = new;
        }
        prev
    }

    fn compare_exchange(
        &mut self,
        current: i64,
        new: i64,
        _success: Ordering,
        _failure: Ordering,
    ) -> Result<i64, i64> {
        let prev = self.v;
        if prev == current {
            self.v = new;
            Ok(prev)
        } else {
            Err(prev)
        }
    }

    fn compare_exchange_weak(
        &mut self,
        current: i64,
        new: i64,
        _success: Ordering,
        _failure: Ordering,
    ) -> Result<i64, i64> {
        let prev = self.v;
        if prev == current {
            self.v = new;
            Ok(prev)
        } else {
            Err(prev)
        }
    }
}

impl AtomicLogicImpl for NativeI64 {
    open spec fn and_spec(a: i64, b: i64) -> i64 {
        a & b
    }

    open spec fn nand_spec(a: i64, b: i64) -> i64 {
        !(a & b)
    }

    open spec fn or_spec(a: i64, b: i64) -> i64 {
        a | b
    }

    open spec fn xor_spec(a: i64, b: i64) -> i64 {
        a ^ b
    }

    proof fn lemma_xor_involution(a: i64, b: i64) {
        assert((a ^ b) ^ b == a) by (bit_vector);
    }

    fn fetch_and(&mut self, val: i64, _order: Ordering) -> i64 {
        let prev = self.v;
        self.v = prev & val;
        prev
    }

    fn fetch_nand(&mut self, val: i64, _order: Ordering) -> i64 {
        let prev = self.v;
        self.v = !(prev & val);
        prev
    }

    fn fetch_or(&mut self, val: i64, _order: Ordering) -> i64 {
        let prev = self.v;
        self.v = prev | val;
        prev
    }

    fn fetch_xor(&mut self, val: i64, _order: Ordering) -> i64 {
        let prev = self.v;
        self.v = prev ^ val;
        prev
    }
}

/// `i64` rides through its own width unchanged: packing and unpacking are the
/// identity.
impl Atom for i64 {
    type Impl = NativeI64;

    open spec fn pack_spec(self) -> i64 {
        self
    }

    open spec fn unpack_spec(src: i64) -> i64 {
        src
    }

    proof fn lemma_round_trip(v: i64) {
    }

    fn pack(self) -> i64 {
        self
    }

    fn unpack(src: i64) -> i64 {
        src
    }
}

} // verus!
