//! The closed set of process-wide synchronization strategies and the
//! capability-probe logic that selects exactly one of them.

use vstd::prelude::*;

verus! {

/// The process-wide synchronization strategy. Exactly one variant is chosen
/// per process, during bootstrap, and never changes afterwards.
#[derive(Clone, Copy, Debug, PartialEq, Eq, Structural)]
pub enum Strategy {
    /// No OS acceleration is available (or detection failed): both barrier
    /// sides must issue a full hardware sequential-consistency fence.
    Fallback,
    /// The OS supports an unregistered, broader-effect broadcast fence.
    SharedBroadcast,
    /// The OS supports a faster, per-process-registered broadcast fence and
    /// the one-time registration call succeeded.
    PrivateExpeditedBroadcast,
    /// The platform exposes a native single-call broadcast API and its entry
    /// point was resolved by name from the platform's core runtime library.
    NativeFlush,
}

impl Strategy {
    /// A strategy is broadcast-based exactly when it is anything other than
    /// `Fallback`.
    pub open spec fn is_broadcast_based(self) -> bool {
        self != Strategy::Fallback
    }
}

/// Everything the capability probe learned about the platform, as plain
/// values: whether the capability query itself succeeded, which broadcast
/// variants it reported, whether the one-time registration call succeeded,
/// and whether a native broadcast entry point was resolved.
#[derive(Clone, Copy, Debug, PartialEq, Eq, Structural)]
pub struct ProbeReport {
    /// The OS capability query succeeded and reported at least something.
    pub query_ok: bool,
    /// The query reported support for the registered, low-latency broadcast
    /// fence variant.
    pub private_expedited_supported: bool,
    /// The query reported support for the unregistered, broader-effect
    /// broadcast fence variant.
    pub shared_supported: bool,
    /// The one-time registration call was made and succeeded.
    pub registered: bool,
    /// A native single-call broadcast entry point was resolved by name.
    pub native_resolved: bool,
}

impl ProbeReport {
    /// The probe outcomes that can actually arise: capability bits are
    /// meaningful only when the query succeeded, and registration is
    /// attempted (and can therefore succeed) only for a variant the query
    /// reported as supported.
    pub open spec fn wf(self) -> bool {
        &&& (self.private_expedited_supported || self.shared_supported) ==> self.query_ok
        &&& self.registered ==> self.private_expedited_supported
    }
}

/// The ordered strategy preference, first success winning: the registered
/// low-latency broadcast (only if its registration succeeded), next the
/// unregistered broadcast, next a resolved native broadcast entry point,
/// and otherwise the full-fence fallback. A failed or empty capability
/// query leaves both supported bits clear, so it falls through to the
/// native entry point or to `Fallback`.
pub open spec fn selected_strategy(r: ProbeReport) -> Strategy {
    if r.private_expedited_supported && r.registered {
        Strategy::PrivateExpeditedBroadcast
    } else if r.shared_supported {
        Strategy::SharedBroadcast
    } else if r.native_resolved {
        Strategy::NativeFlush
    } else {
        Strategy::Fallback
    }
}

/// Commit the strategy that a probe report selects.
pub fn commit(r: ProbeReport) -> (s: Strategy)
    ensures
        s == selected_strategy(r),
{
    if r.private_expedited_supported && r.registered {
        Strategy::PrivateExpeditedBroadcast
    } else if r.shared_supported {
        Strategy::SharedBroadcast
    } else if r.native_resolved {
        Strategy::NativeFlush
    } else {
        Strategy::Fallback
    }
}

/// If the one-time registration was not made or was rejected, the committed
/// strategy is never the registered variant: every failure degrades to a
/// weaker strategy.
pub proof fn lemma_registration_failure_never_commits_private(r: ProbeReport)
    requires
        !r.registered,
    ensures
        selected_strategy(r) != Strategy::PrivateExpeditedBroadcast,
{
}

} // verus!
