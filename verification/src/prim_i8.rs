use vstd::prelude::*;

use crate::atom::Atom;
use crate::native::AtomicImpl;
use crate::native::AtomicLogicImpl;
use crate::ordering::Ordering;

verus! {

/// The native atomic cell for the signed 8-bit width.
pub struct NativeI8 {
    v: i8,
}

impl AtomicImpl for NativeI8 {
    type Inner = i8;

    closed spec fn value(&self) -> i8 {
        self.v
    }

    fn new(v: i8) -> Self {
        NativeI8 { v }
    }

    fn get_mut(&mut self) -> &mut i8 {
        &mut self.v
    }

    fn into_inner(self) -> i8 {
        self.v
    }

    fn load(&self, _order: Ordering) -> i8 {
        self.v
    }

    fn store(&mut self, v: i8, _order: Ordering) {
        self.v = v;
    }

    fn swap(&mut self, v: i8, _order: Ordering) -> i8 {
        let prev = self.v;
        self.v = v;
        prev
    }

    fn compare_and_swap(&mut self, current: i8, new: i8, _order: Ordering) -> i8 {
        let prev = self.v;
        if prev == current {
            self.v = new;
        }
        prev
    }

    fn compare_exchange(
        &mut self,
        current: i8,
        new: i8,
        _success: Ordering,
        _failure: Ordering,
    ) -> Result<i8, i8> {
        let prev = self.v;
        if prev == current {
            self.v = new;
            Ok(prev)
        } else {
            Err(prev)
        }
    }

    fn compare_exchange_weak(
        &mut self,
        current: i8,
        new: i8,
        _success: Ordering,
        _failure: Ordering,
    ) -> Result<i8, i8> {
        let prev = self.v;
        if prev == current {
            self.v = new;
            Ok(prev)
        } else {
            Err(prev)
        }
    }
}

impl AtomicLogicImpl for NativeI8 {
    open spec fn and_spec(a: i8, b: i8) -> i8 {
        a & b
    }

    open spec fn nand_spec(a: i8, b: i8) -> i8 {
        !(a & b)
    }

    open spec fn or_spec(a: i8, b: i8) -> i8 {
        a | b
    }

    open spec fn xor_spec(a: i8, b: i8) -> i8 {
        a ^ b
    }

    proof fn lemma_xor_involution(a: i8, b: i8) {
        assert((a ^ b) ^ b == a) by (bit_vector);
    }

    fn fetch_and(&mut self, val: i8, _order: Ordering) -> i8 {
        let prev = self.v;
        self.v = prev & val;
        prev
    }

    fn fetch_nand(&mut self, val: i8, _order: Ordering) -> i8 {
        let prev = self.v;
        self.v = !(prev & val);
        prev
    }

    fn fetch_or(&mut self, val: i8, _order: Ordering) -> i8 {
        let prev = self.v;
        self.v = prev | val;
        prev
    }

    fn fetch_xor(&mut self, val: i8, _order: Ordering) -> i8 {
        let prev = self.v;
        self.v = prev ^ val;
        prev
    }
}

/// `i8` rides through its own width unchanged: packing and unpacking are the
/// identity.
impl Atom for i8 {
    type Impl = NativeI8;

    open spec fn pack_spec(self) -> i8 {
        self
    }

    open spec fn unpack_spec(src: i8) -> i8 {
        src
    }

    proof fn lemma_round_trip(v: i8) {
    }

    fn pack(self) -> i8 {
        self
    }

    fn unpack(src: i8) -> i8 {
        src
    }
}

} // verus!
