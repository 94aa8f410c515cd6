//! The process-wide strategy descriptor: committed once by the capability
//! probe, read-only afterwards, and the dispatch of both barrier sides over
//! it.

use vstd::prelude::*;
use crate::dispatch::{
    heavy_action_of, light_action_of, pair_establishes_ordering, BroadcastCommand, HeavyAction,
    LightAction,
};
use crate::os;
use crate::strategy::{commit, selected_strategy, ProbeReport, Strategy};

verus! {

/// The descriptor of the committed strategy, together with the probe report
/// it was selected from. It is created once, during bootstrap, and never
/// mutated again: every method takes it by shared reference.
///
/// The embedding program is responsible for creating exactly one value per
/// process, before the first barrier call, and for keeping it for the
/// process's lifetime; this library has no global mutable state of its own.
#[derive(Clone, Copy, Debug, PartialEq, Eq, Structural)]
pub struct ProcessState {
    /// The committed strategy.
    pub strategy: Strategy,
    /// The probe report the strategy was selected from.
    pub report: ProbeReport,
}

/// Decode the capability-query mask into a probe report: the query counts
/// as successful when the mask is non-empty, and each supported variant is
/// read off the exact bit the OS's published ABI assigns to its command.
/// `registered` records the outcome of the registration attempt; the
/// syscall path never resolves a native entry point.
pub fn report_of_mask(mask: u32, registered: bool) -> (r: ProbeReport)
    ensures
        r.query_ok == (mask != 0),
        r.private_expedited_supported == ((mask & os::PRIVATE_EXPEDITED_SUPPORT_BIT) != 0),
        r.shared_supported == ((mask & os::SHARED_SUPPORT_BIT) != 0),
        r.registered == registered,
        !r.native_resolved,
        (r.private_expedited_supported || r.shared_supported) ==> r.query_ok,
{
    assert((mask & 8u32 != 0 ==> mask != 0) && (mask & 1u32 != 0 ==> mask != 0))
        by (bit_vector);
    ProbeReport {
        query_ok: mask != 0,
        private_expedited_supported: mask & os::PRIVATE_EXPEDITED_SUPPORT_BIT != 0,
        shared_supported: mask & os::SHARED_SUPPORT_BIT != 0,
        registered,
        native_resolved: false,
    }
}

impl ProcessState {
    /// A well-formed state holds a probe report that can actually arise and
    /// the strategy that this report selects — in particular, the committed
    /// strategy is the registered variant only if registration succeeded.
    pub open spec fn wf(self) -> bool {
        &&& self.report.wf()
        &&& self.strategy == selected_strategy(self.report)
    }

    /// Commit the strategy that a probe report selects. The embedding
    /// program uses this on platforms whose probe it must run itself (the
    /// native-flush platform resolves its entry point by name and hands the
    /// outcome over as `native_resolved`).
    pub fn from_report(r: ProbeReport) -> (st: ProcessState)
        ensures
            st.report == r,
            st.strategy == selected_strategy(r),
            r.wf() ==> st.wf(),
    {
        ProcessState { strategy: commit(r), report: r }
    }

    /// The platform capability probe and registration: queries the OS for
    /// broadcast-fence support, attempts the one-time registration where the
    /// low-latency variant is reported, and commits the selected strategy.
    /// No failure is surfaced: every uncertain path degrades to a weaker
    /// strategy.
    ///
    /// The registration side effect is global: the embedding program must
    /// run this at most once per process, before the first barrier call, and
    /// keep the returned state for the process's lifetime.
    pub fn probe() -> (st: ProcessState)
        ensures
            st.wf(),
            !st.report.native_resolved,
            st.strategy != Strategy::NativeFlush,
    {
        let mask = os::broadcast_capability_mask();
        let private_supported: bool = mask & os::PRIVATE_EXPEDITED_SUPPORT_BIT != 0;
        let registered: bool = if private_supported {
            os::broadcast_fence_call(BroadcastCommand::RegisterPrivateExpedited)
        } else {
            false
        };
        let report = report_of_mask(mask, registered);
        ProcessState::from_report(report)
    }

    /// A self-contained probe that never registers: it commits the
    /// unregistered broadcast where the OS reports it, and the fallback
    /// otherwise. The free barrier functions use it on every call, because
    /// they cannot rely on the embedding program's one-time initialization
    /// and must not repeat the global registration step.
    pub fn probe_without_registration() -> (st: ProcessState)
        ensures
            st.wf(),
            !st.report.registered,
            !st.report.native_resolved,
            st.strategy == Strategy::SharedBroadcast || st.strategy == Strategy::Fallback,
    {
        let mask = os::broadcast_capability_mask();
        let report = report_of_mask(mask, false);
        ProcessState::from_report(report)
    }

    /// The writer-side barrier: issues exactly the committed strategy's own
    /// OS broadcast command (with a local full fence as a per-call safety net
    /// if the call reports a runtime failure, and a compiler-level barrier
    /// in all cases), and a full hardware fence for the fallback. The
    /// committed strategy is never altered by a per-call failure.
    ///
    /// The native-flush strategy is dispatched by the embedding program,
    /// which holds the dynamically resolved entry point; it cannot be
    /// invoked from here.
    pub fn heavy(&self) -> (a: HeavyAction)
        requires
            self.strategy != Strategy::NativeFlush,
        ensures
            a == heavy_action_of(self.strategy),
            pair_establishes_ordering(a, light_action_of(self.strategy)),
    {
        match self.strategy {
            Strategy::PrivateExpeditedBroadcast => {
                let cmd = BroadcastCommand::PrivateExpedited;
                let ok = os::broadcast_fence_call(cmd);
                if !ok {
                    os::full_fence();
                }
                os::compiler_reorder_barrier();
                HeavyAction::BroadcastCall(cmd)
            }
            Strategy::SharedBroadcast => {
                let cmd = BroadcastCommand::Shared;
                let ok = os::broadcast_fence_call(cmd);
                if !ok {
                    os::full_fence();
                }
                os::compiler_reorder_barrier();
                HeavyAction::BroadcastCall(cmd)
            }
            Strategy::NativeFlush => unreached(),
            Strategy::Fallback => {
                os::full_fence();
                HeavyAction::FullFence
            }
        }
    }

    /// The reader-side barrier: only a compiler-level reordering barrier for
    /// any broadcast-based strategy, and a full hardware fence for the
    /// fallback. The branch taken exactly mirrors the writer side's.
    pub fn light(&self) -> (a: LightAction)
        ensures
            a == light_action_of(self.strategy),
            pair_establishes_ordering(heavy_action_of(self.strategy), a),
    {
        match self.strategy {
            Strategy::Fallback => {
                os::full_fence();
                LightAction::FullFence
            }
            _ => {
                os::compiler_reorder_barrier();
                LightAction::CompilerOnly
            }
        }
    }

    /// The acceleration query: whether the committed strategy is a
    /// broadcast-based one. A pure read of the immutable state, so its
    /// result is stable for the process lifetime.
    pub fn is_accelerated(&self) -> (r: bool)
        ensures
            r == self.strategy.is_broadcast_based(),
    {
        match self.strategy {
            Strategy::Fallback => false,
            _ => true,
        }
    }
}

} // verus!
