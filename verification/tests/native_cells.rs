use atomig::Atom;
use atomig::AtomicImpl;
use atomig::AtomicLogicImpl;
use atomig::NativeAddr;
use atomig::NativeBool;
use atomig::NativeI32;
use atomig::NativeU16;
use atomig::NativeU8;
use atomig::Ordering;

#[test]
fn native_cell_new_load_into_inner() {
    let c = NativeU8::new(42);
    assert_eq!(c.load(Ordering::SeqCst), 42);
    assert_eq!(c.into_inner(), 42);
}

#[test]
fn native_cell_get_mut() {
    let mut c = NativeU16::new(7);
    *c.get_mut() = 900;
    assert_eq!(c.load(Ordering::SeqCst), 900);
    assert_eq!(*c.get_mut(), 900);
}

#[test]
fn native_cell_store_swap() {
    let mut c = NativeI32::new(-1);
    c.store(10, Ordering::Release);
    assert_eq!(c.load(Ordering::Acquire), 10);
    assert_eq!(c.swap(-10, Ordering::SeqCst), 10);
    assert_eq!(c.into_inner(), -10);
}

#[test]
fn native_cell_compare_and_swap() {
    let mut c = NativeBool::new(false);
    assert_eq!(c.compare_and_swap(false, true, Ordering::SeqCst), false);
    assert_eq!(c.compare_and_swap(false, true, Ordering::SeqCst), true);
    assert_eq!(c.into_inner(), true);
}

#[test]
fn native_cell_compare_exchange() {
    let mut c = NativeAddr::new(16);
    assert_eq!(
        c.compare_exchange(16, 32, Ordering::SeqCst, Ordering::SeqCst),
        Ok(16)
    );
    assert_eq!(
        c.compare_exchange(16, 64, Ordering::SeqCst, Ordering::SeqCst),
        Err(32)
    );
    assert_eq!(
        c.compare_exchange_weak(1, 64, Ordering::SeqCst, Ordering::SeqCst),
        Err(32)
    );
    assert_eq!(c.into_inner(), 32);
}

#[test]
fn native_cell_fetch_ops() {
    let mut c = NativeU8::new(5);
    assert_eq!(c.fetch_or(3, Ordering::SeqCst), 5);
    assert_eq!(c.fetch_and(6, Ordering::SeqCst), 7);
    assert_eq!(c.fetch_xor(0xff, Ordering::SeqCst), 6);
    assert_eq!(c.fetch_nand(0xff, Ordering::SeqCst), 0xf9);
    assert_eq!(c.into_inner(), !0xf9u8);
}

#[test]
fn pack_unpack_are_identity_for_primitives() {
    assert_eq!(9u8.pack(), 9);
    assert_eq!(<u8 as Atom>::unpack(9), 9);
    assert_eq!(true.pack(), true);
    assert_eq!(<bool as Atom>::unpack(false), false);
    assert_eq!((-3i32).pack(), -3);
    assert_eq!(<i32 as Atom>::unpack(-3), -3);
    assert_eq!(77usize.pack(), 77);
    assert_eq!(<usize as Atom>::unpack(77), 77);
}
