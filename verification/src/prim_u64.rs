use vstd::prelude::*;

use crate::atom::Atom;
use crate::native::AtomicImpl;
use crate::native::AtomicLogicImpl;
use crate::ordering::Ordering;

verus! {

/// The native atomic cell for the unsigned 64-bit width.
pub struct NativeU64 {
    v: u64,
}

impl AtomicImpl for NativeU64 {
    type Inner = u64;

    closed spec fn value(&self) -> u64 {
        self.v
    }

    fn new(v: u64) -> Self {
        NativeU64 { v }
    }

    fn get_mut(&mut self) -> &mut u64 {
        &mut self.v
    }

    fn into_inner(self) -> u64 {
        self.v
    }

    fn load(&self, _order: Ordering) -> u64 {
        self.v
    }

    fn store(&mut self, v: u64, _order: Ordering) {
        self.v = v;
    }

    fn swap(&mut self, v: u64, _order: Ordering) -> u64 {
        let prev = self.v;
        self.v = v;
        prev
    }

    fn compare_and_swap(&mut self, current: u64, new: u64, _order: Ordering) -> u64 {
        let prev = self.v;
        if prev == current {
            self.v = new;
        }
        prev
    }

    fn compare_exchange(
        &mut self,
        current: u64,
        new: u64,
        _success: Ordering,
        _failure: Ordering,
    ) -> Result<u64, u64> {
        let prev = self.v;
        if prev == current {
            self.v = new;
            Ok(prev)
        } else {
            Err(prev)
        }
    }

    fn compare_exchange_weak(
        &mut self,
        current: u64,
        new: u64,
        _success: Ordering,
        _failure: Ordering,
    ) -> Result<u64, u64> {
        let prev = self.v;
        if prev == current {
            self.v = new;
            Ok(prev)
        } else {
            Err(prev)
        }
    }
}

impl AtomicLogicImpl for NativeU64 {
    open spec fn and_spec(a: u64, b: u64) -> u64 {
        a & b
    }

    open spec fn nand_spec(a: u64, b: u64) -> u64 {
        !(a & b)
    }

    open spec fn or_spec(a: u64, b: u64) -> u64 {
        a | b
    }

    open spec fn xor_spec(a: u64, b: u64) -> u64 {
        a ^ b
    }

    proof fn lemma_xor_involution(a: u64, b: u64) {
        assert((a ^ b) ^ b == a) by (bit_vector);
    }

    fn fetch_and(&mut self, val: u64, _order: Ordering) -> u64 {
        let prev = self.v;
        self.v = prev & val;
        prev
    }

    fn fetch_nand(&mut self, val: u64, _order: Ordering) -> u64 {
        let prev = self.v;
        self.v = !(prev & val);
        prev
    }

    fn fetch_or(&mut self, val: u64, _order: Ordering) -> u64 {
        let prev = self.v;
        self.v = prev | val;
        prev
    }

    fn fetch_xor(&mut self, val: u64, _order: Ordering) -> u64 {
        let prev = self.v;
        self.v = prev ^ val;
        prev
    }
}

/// `u64` rides through its own width unchanged: packing and unpacking are the
/// identity.
impl Atom for u64 {
    type Impl = NativeU64;

    open spec fn pack_spec(self) -> u64 {
        self
    }

    open spec fn unpack_spec(src: u64) -> u64 {
        src
    }

    proof fn lemma_round_trip(v: u64) {
    }

    fn pack(self) -> u64 {
        self
    }

    fn unpack(src: u64) -> u64 {
        src
    }
}

} // verus!
