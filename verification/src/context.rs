//! Ambient context entries and the guard handles that release them.
//!
//! The context stack is an ordered sequence of key/value pairs; insertion
//! order is the rendering order. Each entry carries a unique identity given
//! at push time, and a guard releases exactly the entry it was issued for,
//! by identity rather than by position, so removals out of order never take
//! out the wrong entry.

use vstd::prelude::*;

verus! {

/// One key/value pair on the context stack, with its identity.
#[derive(Debug, Clone)]
pub struct ContextEntry {
    /// Identity given at push time, unique within one logger.
    pub id: u64,
    pub key: String,
    pub value: String,
}

/// A handle for one pushed context entry; releasing it removes exactly that
/// entry from its logger's stack.
#[derive(Debug, Clone, Copy, PartialEq, Eq, Structural)]
pub struct ContextGuard {
    /// The identity of the entry this guard was issued for.
    pub id: u64,
}

} // verus!
