//! An asymmetric memory-barrier pair for single-writer/multi-reader
//! shared-memory synchronization: a *heavy* barrier paid once by an
//! infrequent writer, and a *light* barrier paid on every access by frequent
//! readers. Together the pair establishes the same happens-before guarantee
//! as a full sequential-consistency fence on both sides.

pub mod dispatch;
pub mod laws;
pub mod os;
pub mod state;
pub mod strategy;

use vstd::prelude::*;

use crate::state::ProcessState;

verus! {

/// The writer-side barrier, for the cold path.
///
/// Self-contained form: each call runs the registration-free capability
/// probe and dispatches on what it committed — the OS broadcast fence where
/// the unregistered broadcast is supported, a full hardware
/// sequential-consistency fence otherwise. An embedding program that wants
/// the registered, lowest-latency variant instead probes once through
/// [`ProcessState::probe`] and calls [`ProcessState::heavy`] on the kept
/// state.
pub fn heavy_barrier() {
    let st = ProcessState::probe_without_registration();
    let _a = st.heavy();
}

/// The reader-side barrier, for the hot path.
///
/// Self-contained form: each call runs the registration-free capability
/// probe and dispatches on what it committed — only a compiler-level
/// reordering barrier where the unregistered broadcast is supported (the
/// writer's broadcast pays the hardware cost for every reader), and a full
/// hardware sequential-consistency fence otherwise. The branch taken
/// exactly mirrors the branch [`heavy_barrier`] takes for the same
/// capability mask.
pub fn light_barrier() {
    let st = ProcessState::probe_without_registration();
    let _a = st.light();
}

/// Whether OS-accelerated barriers are in use by the pair of free barrier
/// functions: `true` exactly when the registration-free probe commits a
/// broadcast-based strategy. The underlying capability mask is fixed by the
/// running kernel, so the result does not change within one process
/// lifetime.
pub fn is_accelerated() -> (accelerated: bool)
    ensures
        exists|st: ProcessState|
            #[trigger] st.wf() && !st.report.registered && !st.report.native_resolved
                && accelerated == st.strategy.is_broadcast_based(),
{
    let st = ProcessState::probe_without_registration();
    let accelerated = st.is_accelerated();
    proof {
        assert(st.wf() && !st.report.registered && !st.report.native_resolved
            && accelerated == st.strategy.is_broadcast_based());
    }
    accelerated
}

} // verus!
