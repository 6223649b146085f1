use vstd::prelude::*;

use crate::atom::Atom;
use crate::native::AtomicImpl;
use crate::native::AtomicLogicImpl;
use crate::ordering::Ordering;

verus! {

/// The native atomic cell for the unsigned 16-bit width.
pub struct NativeU16 {
    v: u16,
}

impl AtomicImpl for NativeU16 {
    type Inner = u16;

    closed spec fn value(&self) -> u16 {
        self.v
    }

    fn new(v: u16) -> Self {
        NativeU16 { v }
    }

    fn get_mut(&mut self) -> &mut u16 {
        &mut self.v
    }

    fn into_inner(self) -> u16 {
        self.v
    }

    fn load(&self, _order: Ordering) -> u16 {
        self.v
    }

    fn store(&mut self, v: u16, _order: Ordering) {
        self.v = v;
    }

    fn swap(&mut self, v: u16, _order: Ordering) -> u16 {
        let prev = self.v;
        self.v = v;
        prev
    }

    fn compare_and_swap(&mut self, current: u16, new: u16, _order: Ordering) -> u16 {
        let prev = self.v;
        if prev == current {
            self.v = new;
        }
        prev
    }

    fn compare_exchange(
        &mut self,
        current: u16,
        new: u16,
        _success: Ordering,
        _failure: Ordering,
    ) -> Result<u16, u16> {
        let prev = self.v;
        if prev == current {
            self.v = new;
            Ok(prev)
        } else {
            Err(prev)
        }
    }

    fn compare_exchange_weak(
        &mut self,
        current: u16,
        new: u16,
        _success: Ordering,
        _failure: Ordering,
    ) -> Result<u16, u16> {
        let prev = self.v;
        if prev == current {
            self.v = new;
            Ok(prev)
        } else {
            Err(prev)
        }
    }
}

impl AtomicLogicImpl for NativeU16 {
    open spec fn and_spec(a: u16, b: u16) -> u16 {
        a & b
    }

    open spec fn nand_spec(a: u16, b: u16) -> u16 {
        !(a & b)
    }

    open spec fn or_spec(a: u16, b: u16) -> u16 {
        a | b
    }

    open spec fn xor_spec(a: u16, b: u16) -> u16 {
        a ^ b
    }

    proof fn lemma_xor_involution(a: u16, b: u16) {
        assert((a ^ b) ^ b == a) by (bit_vector);
    }

    fn fetch_and(&mut self, val: u16, _order: Ordering) -> u16 {
        let prev = self.v;
        self.v = prev & val;
        prev
    }

    fn fetch_nand(&mut self, val: u16, _order: Ordering) -> u16 {
        let prev = self.v;
        self.v = !(prev & val);
        prev
    }

    fn fetch_or(&mut self, val: u16, _order: Ordering) -> u16 {
        let prev = self.v;
        self.v = prev | val;
        prev
    }

    fn fetch_xor(&mut self, val: u16, _order: Ordering) -> u16 {
        let prev = self.v;
        self.v = prev ^ val;
        prev
    }
}

/// `u16` rides through its own width unchanged: packing and unpacking are the
/// identity.
impl Atom for u16 {
    type Impl = NativeU16;

    open spec fn pack_spec(self) -> u16 {
        self
    }

    open spec fn unpack_spec(src: u16) -> u16 {
        src
    }

    proof fn lemma_round_trip(v: u16) {
    }

    fn pack(self) -> u16 {
        self
    }

    fn unpack(src: u16) -> u16 {
        src
    }
}

} // verus!
