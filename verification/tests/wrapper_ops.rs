use atomig::Atomic;
use atomig::Ordering;

#[test]
fn new_load_into_inner_round_trip() {
    let a = Atomic::<u8>::new(200);
    assert_eq!(a.load(Ordering::SeqCst), 200);
    assert_eq!(a.into_inner(), 200);

    let b = Atomic::<bool>::new(true);
    assert_eq!(b.load(Ordering::Relaxed), true);
    assert_eq!(b.into_inner(), true);

    let c = Atomic::<i64>::new(-7_000_000_000);
    assert_eq!(c.load(Ordering::Acquire), -7_000_000_000);
    assert_eq!(c.into_inner(), -7_000_000_000);
}

#[test]
fn load_after_store() {
    let mut a = Atomic::<u32>::new(1);
    a.store(99, Ordering::Release);
    assert_eq!(a.load(Ordering::Acquire), 99);
    a.store(0, Ordering::SeqCst);
    assert_eq!(a.load(Ordering::SeqCst), 0);

    let mut b = Atomic::<i16>::new(-5);
    b.store(-32768, Ordering::Relaxed);
    assert_eq!(b.load(Ordering::Relaxed), -32768);
}

#[test]
fn swap_returns_prior_value() {
    let mut a = Atomic::<u64>::new(11);
    let before = a.load(Ordering::SeqCst);
    let prev = a.swap(22, Ordering::AcqRel);
    assert_eq!(prev, before);
    assert_eq!(a.load(Ordering::SeqCst), 22);

    let mut b = Atomic::<bool>::new(false);
    assert_eq!(b.swap(true, Ordering::SeqCst), false);
    assert_eq!(b.load(Ordering::SeqCst), true);
}

#[test]
fn compare_and_swap_success_iff_equality() {
    let mut a = Atomic::<i8>::new(3);
    // Equal: the returned value equals `current` and the cell changes.
    let seen = a.compare_and_swap(3, -4, Ordering::SeqCst);
    assert_eq!(seen, 3);
    assert_eq!(a.load(Ordering::SeqCst), -4);
    // Unequal: the returned value differs from `current`, cell unchanged.
    let seen = a.compare_and_swap(100, 7, Ordering::SeqCst);
    assert_eq!(seen, -4);
    assert_eq!(a.load(Ordering::SeqCst), -4);
}

#[test]
fn compare_exchange_bool_scenario() {
    let mut a = Atomic::<bool>::new(false);
    let r = a.compare_exchange(false, true, Ordering::SeqCst, Ordering::SeqCst);
    assert_eq!(r, Ok(false));
    assert_eq!(a.load(Ordering::SeqCst), true);
    let r = a.compare_exchange(false, true, Ordering::SeqCst, Ordering::SeqCst);
    assert_eq!(r, Err(true));
    assert_eq!(a.load(Ordering::SeqCst), true);
}

#[test]
fn compare_exchange_strong_succeeds_on_equality() {
    let mut a = Atomic::<u16>::new(500);
    assert_eq!(
        a.compare_exchange(500, 600, Ordering::AcqRel, Ordering::Acquire),
        Ok(500)
    );
    assert_eq!(a.load(Ordering::SeqCst), 600);
    assert_eq!(
        a.compare_exchange(500, 700, Ordering::SeqCst, Ordering::Relaxed),
        Err(600)
    );
    assert_eq!(a.load(Ordering::SeqCst), 600);
}

#[test]
fn compare_exchange_weak_never_spuriously_succeeds() {
    let mut a = Atomic::<u32>::new(8);
    // On inequality the weak form must fail and leave the cell unchanged.
    let r = a.compare_exchange_weak(9, 1, Ordering::SeqCst, Ordering::SeqCst);
    assert_eq!(r, Err(8));
    assert_eq!(a.load(Ordering::SeqCst), 8);
    // A reported success implies the comparison held and the value went in.
    match a.compare_exchange_weak(8, 1, Ordering::SeqCst, Ordering::SeqCst) {
        Ok(prev) => {
            assert_eq!(prev, 8);
            assert_eq!(a.load(Ordering::SeqCst), 1);
        }
        Err(seen) => {
            // A spurious failure may not change the cell.
            assert_eq!(seen, 8);
            assert_eq!(a.load(Ordering::SeqCst), 8);
        }
    }
}

#[test]
fn fetch_or_scenario_five_three_seven() {
    let mut a = Atomic::<u32>::new(5);
    assert_eq!(a.fetch_or(3, Ordering::SeqCst), 5);
    assert_eq!(a.load(Ordering::SeqCst), 7);
}

#[test]
fn fetch_ops_exact_values() {
    let mut a = Atomic::<u8>::new(0b1100);
    assert_eq!(a.fetch_and(0b1010, Ordering::SeqCst), 0b1100);
    assert_eq!(a.load(Ordering::SeqCst), 0b1000);

    let mut b = Atomic::<u8>::new(0b1100);
    assert_eq!(b.fetch_or(0b1010, Ordering::SeqCst), 0b1100);
    assert_eq!(b.load(Ordering::SeqCst), 0b1110);

    let mut c = Atomic::<u8>::new(0b1100);
    assert_eq!(c.fetch_xor(0b1010, Ordering::SeqCst), 0b1100);
    assert_eq!(c.load(Ordering::SeqCst), 0b0110);

    let mut d = Atomic::<u8>::new(0b1100);
    assert_eq!(d.fetch_nand(0b1010, Ordering::SeqCst), 0b1100);
    assert_eq!(d.load(Ordering::SeqCst), !0b1000u8);

    let mut e = Atomic::<i32>::new(-1);
    assert_eq!(e.fetch_and(0x0f, Ordering::SeqCst), -1);
    assert_eq!(e.load(Ordering::SeqCst), 0x0f);

    let mut f = Atomic::<i64>::new(6);
    assert_eq!(f.fetch_xor(-1, Ordering::SeqCst), 6);
    assert_eq!(f.load(Ordering::SeqCst), !6i64);
}

#[test]
fn fetch_ops_bool() {
    let mut a = Atomic::<bool>::new(true);
    assert_eq!(a.fetch_and(false, Ordering::SeqCst), true);
    assert_eq!(a.load(Ordering::SeqCst), false);

    let mut b = Atomic::<bool>::new(false);
    assert_eq!(b.fetch_or(true, Ordering::SeqCst), false);
    assert_eq!(b.load(Ordering::SeqCst), true);

    let mut c = Atomic::<bool>::new(true);
    assert_eq!(c.fetch_nand(true, Ordering::SeqCst), true);
    assert_eq!(c.load(Ordering::SeqCst), false);

    let mut d = Atomic::<bool>::new(true);
    assert_eq!(d.fetch_xor(true, Ordering::SeqCst), true);
    assert_eq!(d.load(Ordering::SeqCst), false);
}

#[test]
fn fetch_xor_twice_restores() {
    let mut a = Atomic::<u64>::new(0xdead_beef);
    a.fetch_xor(0x1234_5678, Ordering::SeqCst);
    a.fetch_xor(0x1234_5678, Ordering::SeqCst);
    assert_eq!(a.load(Ordering::SeqCst), 0xdead_beef);

    let mut b = Atomic::<i8>::new(-77);
    b.fetch_xor(33, Ordering::Relaxed);
    b.fetch_xor(33, Ordering::Relaxed);
    assert_eq!(b.load(Ordering::Relaxed), -77);

    let mut c = Atomic::<bool>::new(true);
    c.fetch_xor(true, Ordering::SeqCst);
    c.fetch_xor(true, Ordering::SeqCst);
    assert_eq!(c.load(Ordering::SeqCst), true);
}

#[test]
fn address_shaped_width_full_operation_set() {
    // `usize` stands for the address-shaped width; it has every operation of
    // the plain capability (and, by construction, no bitwise fetch ops).
    let mut a = Atomic::<usize>::new(0x1000);
    assert_eq!(a.load(Ordering::SeqCst), 0x1000);
    a.store(0x2000, Ordering::SeqCst);
    assert_eq!(a.swap(0x3000, Ordering::SeqCst), 0x2000);
    assert_eq!(a.compare_and_swap(0x3000, 0x4000, Ordering::SeqCst), 0x3000);
    assert_eq!(
        a.compare_exchange(0x4000, 0x5000, Ordering::SeqCst, Ordering::SeqCst),
        Ok(0x4000)
    );
    assert_eq!(
        a.compare_exchange_weak(0x9999, 0x6000, Ordering::SeqCst, Ordering::SeqCst),
        Err(0x5000)
    );
    assert_eq!(a.into_inner(), 0x5000);
}

#[test]
fn every_width_round_trips() {
    assert_eq!(Atomic::<bool>::new(false).into_inner(), false);
    assert_eq!(Atomic::<u8>::new(u8::MAX).into_inner(), u8::MAX);
    assert_eq!(Atomic::<i8>::new(i8::MIN).into_inner(), i8::MIN);
    assert_eq!(Atomic::<u16>::new(u16::MAX).into_inner(), u16::MAX);
    assert_eq!(Atomic::<i16>::new(i16::MIN).into_inner(), i16::MIN);
    assert_eq!(Atomic::<u32>::new(u32::MAX).into_inner(), u32::MAX);
    assert_eq!(Atomic::<i32>::new(i32::MIN).into_inner(), i32::MIN);
    assert_eq!(Atomic::<u64>::new(u64::MAX).into_inner(), u64::MAX);
    assert_eq!(Atomic::<i64>::new(i64::MIN).into_inner(), i64::MIN);
    assert_eq!(Atomic::<usize>::new(usize::MAX).into_inner(), usize::MAX);
}
