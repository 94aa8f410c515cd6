//! The minimal trusted boundary around the OS: the broadcast-fence syscall
//! (query, registration and the fence itself) and the two local fences.
//! Every item here is believed, not verified; each doc comment names the
//! outside function it relies on.

use vstd::prelude::*;
use crate::dispatch::BroadcastCommand;

verus! {

/// Bit set in the capability-query mask when the OS supports the
/// unregistered, broader-effect broadcast fence command.
pub const SHARED_SUPPORT_BIT: u32 = 1;

/// Bit set in the capability-query mask when the OS supports the registered,
/// low-latency broadcast fence command.
pub const PRIVATE_EXPEDITED_SUPPORT_BIT: u32 = 8;

/// Relies on `rustix::thread::membarrier_query`: queries the OS for the set
/// of supported broadcast-fence commands and returns it as a bit mask, one
/// bit per supported command. Per its documentation the call itself never
/// fails: on an OS without the syscall it returns an empty mask. Which bits
/// come back depends on the running kernel, so nothing is promised of the
/// value.
#[verifier::external_body]
pub(crate) fn broadcast_capability_mask() -> (mask: u32) {
    rustix::thread::membarrier_query().bits()
}

/// Relies on `rustix::thread::membarrier`: issues the given broadcast-fence
/// command and reports whether the OS accepted it. Success depends on the
/// running kernel and on prior registration, so nothing is promised of the
/// result.
#[verifier::external_body]
pub(crate) fn broadcast_fence_call(cmd: BroadcastCommand) -> (ok: bool) {
    let c = match cmd {
        BroadcastCommand::RegisterPrivateExpedited => {
            rustix::thread::MembarrierCommand::RegisterPrivateExpedited
        }
        BroadcastCommand::PrivateExpedited => {
            rustix::thread::MembarrierCommand::PrivateExpedited
        }
        BroadcastCommand::Shared => rustix::thread::MembarrierCommand::Global,
    };
    rustix::thread::membarrier(c).is_ok()
}

/// Relies on `core::sync::atomic::fence` with sequentially consistent
/// ordering: a full hardware memory fence on the calling thread.
#[verifier::external_body]
pub(crate) fn full_fence() {
    core::sync::atomic::fence(core::sync::atomic::Ordering::SeqCst);
}

/// Relies on `core::sync::atomic::compiler_fence` with sequentially
/// consistent ordering: prevents compiler reordering across this point
/// without emitting any hardware fence instruction.
#[verifier::external_body]
pub(crate) fn compiler_reorder_barrier() {
    core::sync::atomic::compiler_fence(core::sync::atomic::Ordering::SeqCst);
}

} // verus!
