use vstd::prelude::*;

use crate::atom::Atom;
use crate::native::AtomicImpl;
use crate::native::AtomicLogicImpl;
use crate::ordering::Ordering;

verus! {

/// The native atomic cell for the signed 32-bit width.
pub struct NativeI32 {
    v: i32,
}

impl AtomicImpl for NativeI32 {
    type Inner = i32;

    closed spec fn value(&self) -> i32 {
        self.v
    }

    fn new(v: i32) -> Self {
        NativeI32 { v }
    }

    fn get_mut(&mut self) -> &mut i32 {
        &mut self.v
    }

    fn into_inner(self) -> i32 {
        self.v
    }

    fn load(&self, _order: Ordering) -> i32 {
        self.v
    }

    fn store(&mut self, v: i32, _order: Ordering) {
        self.v = v;
    }

    fn swap(&mut self, v: i32, _order: Ordering) -> i32 {
        let prev = self.v;
        self.v = v;
        prev
    }

    fn compare_and_swap(&mut self, current: i32, new: i32, _order: Ordering) -> i32 {
        let prev = self.v;
        if prev == current {
            self.v = new;
        }
        prev
    }

    fn compare_exchange(
        &mut self,
        current: i32,
        new: i32,
        _success: Ordering,
        _failure: Ordering,
    ) -> Result<i32, i32> {
        let prev = self.v;
        if prev == current {
            self.v = new;
            Ok(prev)
        } else {
            Err(prev)
        }
    }

    fn compare_exchange_weak(
        &mut self,
        current: i32,
        new: i32,
        _success: Ordering,
        _failure: Ordering,
    ) -> Result<i32, i32> {
        let prev = self.v;
        if prev == current {
            self.v = new;
            Ok(prev)
        } else {
            Err(prev)
        }
    }
}

impl AtomicLogicImpl for NativeI32 {
    open spec fn and_spec(a: i32, b: i32) -> i32 {
        a & b
    }

    open spec fn nand_spec(a: i32, b: i32) -> i32 {
        !(a & b)
    }

    open spec fn or_spec(a: i32, b: i32) -> i32 {
        a | b
    }

    open spec fn xor_spec(a: i32, b: i32) -> i32 {
        a ^ b
    }

    proof fn lemma_xor_involution(a: i32, b: i32) {
        assert((a ^ b) ^ b == a) by (bit_vector);
    }

    fn fetch_and(&mut self, val: i32, _order: Ordering) -> i32 {
        let prev = self.v;
        self.v = prev & val;
        prev
    }

    fn fetch_nand(&mut self, val: i32, _order: Ordering) -> i32 {
        let prev = self.v;
        self.v = !(prev & val);
        prev
    }

    fn fetch_or(&mut self, val: i32, _order: Ordering) -> i32 {
        let prev = self.v;
        self.v = prev | val;
        prev
    }

    fn fetch_xor(&mut self, val: i32, _order: Ordering) -> i32 {
        let prev = self.v;
        self.v = prev ^ val;
        prev
    }
}

/// `i32` rides through its own width unchanged: packing and unpacking are the
/// identity.
impl Atom for i32 {
    type Impl = NativeI32;

    open spec fn pack_spec(self) -> i32 {
        self
    }

    open spec fn unpack_spec(src: i32) -> i32 {
        src
    }

    proof fn lemma_round_trip(v: i32) {
    }

    fn pack(self) -> i32 {
        self
    }

    fn unpack(src: i32) -> i32 {
        src
    }
}

} // verus!
