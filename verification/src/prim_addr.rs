use vstd::prelude::*;

use crate::atom::Atom;
use crate::native::AtomicImpl;
use crate::ordering::Ordering;

verus! {

/// The native atomic cell for the address-shaped width: it holds a machine
/// address as a plain `usize`.
///
/// This width deliberately does not implement [`crate::AtomicLogicImpl`]:
/// bitwise AND/NAND/OR/XOR over an address is not an atomic primitive this
/// layer exposes, so a value backed by this cell has no bitwise fetch
/// operations at all.
pub struct NativeAddr {
    v: usize,
}

impl AtomicImpl for NativeAddr {
    type Inner = usize;

    closed spec fn value(&self) -> usize {
        self.v
    }

    fn new(v: usize) -> Self {
        NativeAddr { v }
    }

    fn get_mut(&mut self) -> &mut usize {
        &mut self.v
    }

    fn into_inner(self) -> usize {
        self.v
    }

    fn load(&self, _order: Ordering) -> usize {
        self.v
    }

    fn store(&mut self, v: usize, _order: Ordering) {
        self.v = v;
    }

    fn swap(&mut self, v: usize, _order: Ordering) -> usize {
        let prev = self.v;
        self.v = v;
        prev
    }

    fn compare_and_swap(&mut self, current: usize, new: usize, _order: Ordering) -> usize {
        let prev = self.v;
        if prev == current {
            self.v = new;
        }
        prev
    }

    fn compare_exchange(
        &mut self,
        current: usize,
        new: usize,
        _success: Ordering,
        _failure: Ordering,
    ) -> Result<usize, usize> {
        let prev = self.v;
        if prev == current {
            self.v = new;
            Ok(prev)
        } else {
            Err(prev)
        }
    }

    fn compare_exchange_weak(
        &mut self,
        current: usize,
        new: usize,
        _success: Ordering,
        _failure: Ordering,
    ) -> Result<usize, usize> {
        let prev = self.v;
        if prev == current {
            self.v = new;
            Ok(prev)
        } else {
            Err(prev)
        }
    }
}

/// `usize` stands for a machine address and rides through the address-shaped
/// width unchanged: packing and unpacking are the identity. Because the
/// backing cell is address-shaped, an `Atomic<usize>` exposes no bitwise
/// fetch operations.
impl Atom for usize {
    type Impl = NativeAddr;

    open spec fn pack_spec(self) -> usize {
        self
    }

    open spec fn unpack_spec(src: usize) -> usize {
        src
    }

    proof fn lemma_round_trip(v: usize) {
    }

    fn pack(self) -> usize {
        self
    }

    fn unpack(src: usize) -> usize {
        src
    }
}

} // verus!
