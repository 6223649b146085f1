use vstd::prelude::*;

use crate::atom::Atom;
use crate::native::AtomicImpl;
use crate::native::AtomicLogicImpl;
use crate::ordering::Ordering;

verus! {

/// The native atomic cell for the unsigned 32-bit width.
pub struct NativeU32 {
    v: u32,
}

impl AtomicImpl for NativeU32 {
    type Inner = u32;

    closed spec fn value(&self) -> u32 {
        self.v
    }

    fn new(v: u32) -> Self {
        NativeU32 { v }
    }

    fn get_mut(&mut self) -> &mut u32 {
        &mut self.v
    }

    fn into_inner(self) -> u32 {
        self.v
    }

    fn load(&self, _order: Ordering) -> u32 {
        self.v
    }

    fn store(&mut self, v: u32, _order: Ordering) {
        self.v = v;
    }

    fn swap(&mut self, v: u32, _order: Ordering) -> u32 {
        let prev = self.v;
        self.v = v;
        prev
    }

    fn compare_and_swap(&mut self, current: u32, new: u32, _order: Ordering) -> u32 {
        let prev = self.v;
        if prev == current {
            self.v = new;
        }
        prev
    }

    fn compare_exchange(
        &mut self,
        current: u32,
        new: u32,
        _success: Ordering,
        _failure: Ordering,
    ) -> Result<u32, u32> {
        let prev = self.v;
        if prev == current {
            self.v = new;
            Ok(prev)
        } else {
            Err(prev)
        }
    }

    fn compare_exchange_weak(
        &mut self,
        current: u32,
        new: u32,
        _success: Ordering,
        _failure: Ordering,
    ) -> Result<u32, u32> {
        let prev = self.v;
        if prev == current {
            self.v = new;
            Ok(prev)
        } else {
            Err(prev)
        }
    }
}

impl AtomicLogicImpl for NativeU32 {
    open spec fn and_spec(a: u32, b: u32) -> u32 {
        a & b
    }

    open spec fn nand_spec(a: u32, b: u32) -> u32 {
        !(a & b)
    }

    open spec fn or_spec(a: u32, b: u32) -> u32 {
        a | b
    }

    open spec fn xor_spec(a: u32, b: u32) -> u32 {
        a ^ b
    }

    proof fn lemma_xor_involution(a: u32, b: u32) {
        assert((a ^ b) ^ b == a) by (bit_vector);
    }

    fn fetch_and(&mut self, val: u32, _order: Ordering) -> u32 {
        let prev = self.v;
        self.v = prev & val;
        prev
    }

    fn fetch_nand(&mut self, val: u32, _order: Ordering) -> u32 {
        let prev = self.v;
        self.v = !(prev & val);
        prev
    }

    fn fetch_or(&mut self, val: u32, _order: Ordering) -> u32 {
        let prev = self.v;
        self.v = prev | val;
        prev
    }

    fn fetch_xor(&mut self, val: u32, _order: Ordering) -> u32 {
        let prev = self.v;
        self.v = prev ^ val;
        prev
    }
}

/// `u32` rides through its own width unchanged: packing and unpacking are the
/// identity.
impl Atom for u32 {
    type Impl = NativeU32;

    open spec fn pack_spec(self) -> u32 {
        self
    }

    open spec fn unpack_spec(src: u32) -> u32 {
        src
    }

    proof fn lemma_round_trip(v: u32) {
    }

    fn pack(self) -> u32 {
        self
    }

    fn unpack(src: u32) -> u32 {
        src
    }
}

} // verus!
