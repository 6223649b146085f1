use vstd::prelude::*;

use crate::atom::Atom;
use crate::native::AtomicImpl;
use crate::native::AtomicLogicImpl;
use crate::ordering::Ordering;

verus! {

/// The native atomic cell for the boolean width.
pub struct NativeBool {
    v: bool,
}

impl AtomicImpl for NativeBool {
    type Inner = bool;

    closed spec fn value(&self) -> bool {
        self.v
    }

    fn new(v: bool) -> Self {
        NativeBool { v }
    }

    fn get_mut(&mut self) -> &mut bool {
        &mut self.v
    }

    fn into_inner(self) -> bool {
        self.v
    }

    fn load(&self, _order: Ordering) -> bool {
        self.v
    }

    fn store(&mut self, v: bool, _order: Ordering) {
        self.v = v;
    }

    fn swap(&mut self, v: bool, _order: Ordering) -> bool {
        let prev = self.v;
        self.v = v;
        prev
    }

    fn compare_and_swap(&mut self, current: bool, new: bool, _order: Ordering) -> bool {
        let prev = self.v;
        if prev == current {
            self.v = new;
        }
        prev
    }

    fn compare_exchange(
        &mut self,
        current: bool,
        new: bool,
        _success: Ordering,
        _failure: Ordering,
    ) -> Result<bool, bool> {
        let prev = self.v;
        if prev == current {
            self.v = new;
            Ok(prev)
        } else {
            Err(prev)
        }
    }

    fn compare_exchange_weak(
        &mut self,
        current: bool,
        new: bool,
        _success: Ordering,
        _failure: Ordering,
    ) -> Result<bool, bool> {
        let prev = self.v;
        if prev == current {
            self.v = new;
            Ok(prev)
        } else {
            Err(prev)
        }
    }
}

impl AtomicLogicImpl for NativeBool {
    open spec fn and_spec(a: bool, b: bool) -> bool {
        a && b
    }

    open spec fn nand_spec(a: bool, b: bool) -> bool {
        !(a && b)
    }

    open spec fn or_spec(a: bool, b: bool) -> bool {
        a || b
    }

    open spec fn xor_spec(a: bool, b: bool) -> bool {
        a != b
    }

    proof fn lemma_xor_involution(a: bool, b: bool) {
    }

    fn fetch_and(&mut self, val: bool, _order: Ordering) -> bool {
        let prev = self.v;
        self.v = prev && val;
        prev
    }

    fn fetch_nand(&mut self, val: bool, _order: Ordering) -> bool {
        let prev = self.v;
        self.v = !(prev && val);
        prev
    }

    fn fetch_or(&mut self, val: bool, _order: Ordering) -> bool {
        let prev = self.v;
        self.v = prev || val;
        prev
    }

    fn fetch_xor(&mut self, val: bool, _order: Ordering) -> bool {
        let prev = self.v;
        self.v = prev != val;
        prev
    }
}

/// `bool` rides through its own width unchanged: packing and unpacking are
/// the identity.
impl Atom for bool {
    type Impl = NativeBool;

    open spec fn pack_spec(self) -> bool {
        self
    }

    open spec fn unpack_spec(src: bool) -> bool {
        src
    }

    proof fn lemma_round_trip(v: bool) {
    }

    fn pack(self) -> bool {
        self
    }

    fn unpack(src: bool) -> bool {
        src
    }
}

} // verus!
