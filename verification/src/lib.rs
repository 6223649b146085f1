//! Generic, type-safe wrappers around per-width native atomic cells.
//!
//! A user type becomes atomic-capable by implementing [`Atom`]: a lossless,
//! reversible packing into the inner representation of a native cell. The
//! generic [`Atomic`] container then offers the full operation set of the
//! cell — load, store, swap, compare-and-swap, compare-exchange (strong and
//! weak) — transcoding every argument and result through the packing. Cells
//! whose representation is boolean- or integer-shaped additionally offer the
//! bitwise fetch-and-modify operations; an address-shaped cell does not.

mod atom;
mod atomic;
mod native;
mod ordering;
mod prim_addr;
mod prim_bool;
mod prim_i16;
mod prim_i32;
mod prim_i64;
mod prim_i8;
mod prim_u16;
mod prim_u32;
mod prim_u64;
mod prim_u8;

pub use atom::Atom;
pub use atom::lemma_pack_injective;
pub use atomic::Atomic;
pub use atomic::lemma_fetch_xor_twice_restores;
pub use native::AtomicImpl;
pub use native::AtomicLogicImpl;
pub use ordering::Ordering;
pub use prim_addr::NativeAddr;
pub use prim_bool::NativeBool;
pub use prim_i16::NativeI16;
pub use prim_i32::NativeI32;
pub use prim_i64::NativeI64;
pub use prim_i8::NativeI8;
pub use prim_u16::NativeU16;
pub use prim_u32::NativeU32;
pub use prim_u64::NativeU64;
pub use prim_u8::NativeU8;
