use vstd::prelude::*;

verus! {

/// Memory ordering token for an atomic operation.
///
/// The token is threaded through every operation unchanged and never
/// interpreted by this layer: it states the visibility contract the caller
/// wants from the underlying platform, and choosing one strong enough for the
/// surrounding protocol is the caller's responsibility.
#[derive(Clone, Copy, Debug, PartialEq, Eq, Structural)]
pub enum Ordering {
    /// No ordering constraints beyond the atomicity of the operation itself.
    Relaxed,
    /// All previous writes become visible before the store part takes effect.
    Release,
    /// All subsequent reads see what the matching release made visible.
    Acquire,
    /// Acquire for the load part and release for the store part.
    AcqRel,
    /// A single total order over all operations so marked.
    SeqCst,
}

} // verus!
