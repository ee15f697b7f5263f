//! The process-wide registry assigning session identifiers.

use vstd::prelude::*;

verus! {

/// Singleton counter of created sessions; the next session to be
/// created takes its current value as identifier, so identifiers are
/// assigned in increasing order and never reused.
#[derive(Clone, Copy, Debug, PartialEq, Eq, Structural)]
pub struct GlobalAccount {
    /// The next session identifier to assign.
    pub session_count: u64,
}

/// Creates the global registry, once at system initialization.
pub fn init_global() -> (g: GlobalAccount)
    ensures
        g.session_count == 0,
{
    GlobalAccount { session_count: 0 }
}

/// Returns the next free session identifier and advances the counter by
/// exactly one.
pub fn next_session_id(global: &mut GlobalAccount) -> (id: u64)
    requires
        old(global).session_count < u64::MAX,
    ensures
        id == old(global).session_count,
        final(global).session_count == old(global).session_count + 1,
{
    let id = global.session_count;
    global.session_count = global.session_count + 1;
    id
}

} // verus!
