use vstd::prelude::*;

use crate::atom::Atom;
use crate::native::AtomicImpl;
use crate::native::AtomicLogicImpl;
use crate::ordering::Ordering;

verus! {

/// The native atomic cell for the signed 16-bit width.
pub struct NativeI16 {
    v: i16,
}

impl AtomicImpl for NativeI16 {
    type Inner = i16;

    closed spec fn value(&self) -> i16 {
        self.v
    }

    fn new(v: i16) -> Self {
        NativeI16 { v }
    }

    fn get_mut(&mut self) -> &mut i16 {
        &mut self.v
    }

    fn into_inner(self) -> i16 {
        self.v
    }

    fn load(&self, _order: Ordering) -> i16 {
        self.v
    }

    fn store(&mut self, v: i16, _order: Ordering) {
        self.v = v;
    }

    fn swap(&mut self, v: i16, _order: Ordering) -> i16 {
        let prev = self.v;
        self.v = v;
        prev
    }

    fn compare_and_swap(&mut self, current: i16, new: i16, _order: Ordering) -> i16 {
        let prev = self.v;
        if prev == current {
            self.v = new;
        }
        prev
    }

    fn compare_exchange(
        &mut self,
        current: i16,
        new: i16,
        _success: Ordering,
        _failure: Ordering,
    ) -> Result<i16, i16> {
        let prev = self.v;
        if prev == current {
            self.v = new;
            Ok(prev)
        } else {
            Err(prev)
        }
    }

    fn compare_exchange_weak(
        &mut self,
        current: i16,
        new: i16,
        _success: Ordering,
        _failure: Ordering,
    ) -> Result<i16, i16> {
        let prev = self.v;
        if prev == current {
            self.v = new;
            Ok(prev)
        } else {
            Err(prev)
        }
    }
}

impl AtomicLogicImpl for NativeI16 {
    open spec fn and_spec(a: i16, b: i16) -> i16 {
        a & b
    }

    open spec fn nand_spec(a: i16, b: i16) -> i16 {
        !(a & b)
    }

    open spec fn or_spec(a: i16, b: i16) -> i16 {
        a | b
    }

    open spec fn xor_spec(a: i16, b: i16) -> i16 {
        a ^ b
    }

    proof fn lemma_xor_involution(a: i16, b: i16) {
        assert((a ^ b) ^ b == a) by (bit_vector);
    }

    fn fetch_and(&mut self, val: i16, _order: Ordering) -> i16 {
        let prev = self.v;
        self.v = prev & val;
        prev
    }

    fn fetch_nand(&mut self, val: i16, _order: Ordering) -> i16 {
        let prev = self.v;
        self.v = !(prev & val);
        prev
    }

    fn fetch_or(&mut self, val: i16, _order: Ordering) -> i16 {
        let prev = self.v;
        self.v = prev | val;
        prev
    }

    fn fetch_xor(&mut self, val: i16, _order: Ordering) -> i16 {
        let prev = self.v;
        self.v = prev ^ val;
        prev
    }
}

/// `i16` rides through its own width unchanged: packing and unpacking are the
/// identity.
impl Atom for i16 {
    type Impl = NativeI16;

    open spec fn pack_spec(self) -> i16 {
        self
    }

    open spec fn unpack_spec(src: i16) -> i16 {
        src
    }

    proof fn lemma_round_trip(v: i16) {
    }

    fn pack(self) -> i16 {
        self
    }

    fn unpack(src: i16) -> i16 {
        src
    }
}

} // verus!
