use vstd::prelude::*;

use crate::atom::Atom;
use crate::native::AtomicImpl;
use crate::native::AtomicLogicImpl;
use crate::ordering::Ordering;

verus! {

/// The native atomic cell for the unsigned 8-bit width.
pub struct NativeU8 {
    v: u8,
}

impl AtomicImpl for NativeU8 {
    type Inner = u8;

    closed spec fn value(&self) -> u8 {
        self.v
    }

    fn new(v: u8) -> Self {
        NativeU8 { v }
    }

    fn get_mut(&mut self) -> &mut u8 {
        &mut self.v
    }

    fn into_inner(self) -> u8 {
        self.v
    }

    fn load(&self, _order: Ordering) -> u8 {
        self.v
    }

    fn store(&mut self, v: u8, _order: Ordering) {
        self.v = v;
    }

    fn swap(&mut self, v: u8, _order: Ordering) -> u8 {
        let prev = self.v;
        self.v = v;
        prev
    }

    fn compare_and_swap(&mut self, current: u8, new: u8, _order: Ordering) -> u8 {
        let prev = self.v;
        if prev == current {
            self.v = new;
        }
        prev
    }

    fn compare_exchange(
        &mut self,
        current: u8,
        new: u8,
        _success: Ordering,
        _failure: Ordering,
    ) -> Result<u8, u8> {
        let prev = self.v;
        if prev == current {
            self.v = new;
            Ok(prev)
        } else {
            Err(prev)
        }
    }

    fn compare_exchange_weak(
        &mut self,
        current: u8,
        new: u8,
        _success: Ordering,
        _failure: Ordering,
    ) -> Result<u8, u8> {
        let prev = self.v;
        if prev == current {
            self.v = new;
            Ok(prev)
        } else {
            Err(prev)
        }
    }
}

impl AtomicLogicImpl for NativeU8 {
    open spec fn and_spec(a: u8, b: u8) -> u8 {
        a & b
    }

    open spec fn nand_spec(a: u8, b: u8) -> u8 {
        !(a & b)
    }

    open spec fn or_spec(a: u8, b: u8) -> u8 {
        a | b
    }

    open spec fn xor_spec(a: u8, b: u8) -> u8 {
        a ^ b
    }

    proof fn lemma_xor_involution(a: u8, b: u8) {
        assert((a ^ b) ^ b == a) by (bit_vector);
    }

    fn fetch_and(&mut self, val: u8, _order: Ordering) -> u8 {
        let prev = self.v;
        self.v = prev & val;
        prev
    }

    fn fetch_nand(&mut self, val: u8, _order: Ordering) -> u8 {
        let prev = self.v;
        self.v = !(prev & val);
        prev
    }

    fn fetch_or(&mut self, val: u8, _order: Ordering) -> u8 {
        let prev = self.v;
        self.v = prev | val;
        prev
    }

    fn fetch_xor(&mut self, val: u8, _order: Ordering) -> u8 {
        let prev = self.v;
        self.v = prev ^ val;
        prev
    }
}

/// `u8` rides through its own width unchanged: packing and unpacking are the
/// identity.
impl Atom for u8 {
    type Impl = NativeU8;

    open spec fn pack_spec(self) -> u8 {
        self
    }

    open spec fn unpack_spec(src: u8) -> u8 {
        src
    }

    proof fn lemma_round_trip(v: u8) {
    }

    fn pack(self) -> u8 {
        self
    }

    fn unpack(src: u8) -> u8 {
        src
    }
}

} // verus!
