//! The barrier-dispatch model: which action each side of the pair takes for
//! a committed strategy, and the matching-pair invariant that makes the two
//! sides jointly correct.

use vstd::prelude::*;
use crate::strategy::Strategy;

verus! {

/// The broadcast-fence syscall commands this library issues, beyond the
/// capability query. Their exact values are part of the OS's published ABI
/// (see the mask bits in `os`); the trusted boundary maps each variant to
/// the OS command of the same name.
#[derive(Clone, Copy, Debug, PartialEq, Eq, Structural)]
pub enum BroadcastCommand {
    /// One-time, per-process registration for the low-latency variant.
    RegisterPrivateExpedited,
    /// The registered, low-latency broadcast fence.
    PrivateExpedited,
    /// The unregistered, broader-effect broadcast fence.
    Shared,
}

/// What the writer-side `heavy` barrier does for a committed strategy.
#[derive(Clone, Copy, Debug, PartialEq, Eq, Structural)]
pub enum HeavyAction {
    /// Issue exactly the given OS broadcast fence command (with a local full
    /// fence as a per-call safety net if that call reports a runtime
    /// failure), followed in all cases by a compiler-level reordering
    /// barrier.
    BroadcastCall(BroadcastCommand),
    /// Invoke the resolved native single-call broadcast entry point, followed
    /// by a compiler-level reordering barrier.
    NativeCall,
    /// Apply a full hardware sequential-consistency fence.
    FullFence,
}

/// What the reader-side `light` barrier does for a committed strategy.
#[derive(Clone, Copy, Debug, PartialEq, Eq, Structural)]
pub enum LightAction {
    /// Emit only a compiler-level reordering barrier: no hardware
    /// instruction. Correct only against a broadcasting writer.
    CompilerOnly,
    /// Emit a full hardware sequential-consistency fence, identical in cost
    /// to the heavy side.
    FullFence,
}

/// The writer-side branch taken for each strategy: each OS broadcast
/// variant issues its own broadcast command, the native strategy invokes
/// its resolved entry point, and the fallback applies a full fence.
pub open spec fn heavy_action_of(s: Strategy) -> HeavyAction {
    match s {
        Strategy::PrivateExpeditedBroadcast => HeavyAction::BroadcastCall(
            BroadcastCommand::PrivateExpedited,
        ),
        Strategy::SharedBroadcast => HeavyAction::BroadcastCall(BroadcastCommand::Shared),
        Strategy::NativeFlush => HeavyAction::NativeCall,
        Strategy::Fallback => HeavyAction::FullFence,
    }
}

/// The reader-side branch taken for each strategy: any broadcast-based
/// strategy leaves only a compiler-level barrier on the reader; the fallback
/// must pay the full hardware fence, since omitting it silently removes the
/// ordering guarantee.
pub open spec fn light_action_of(s: Strategy) -> LightAction {
    match s {
        Strategy::Fallback => LightAction::FullFence,
        _ => LightAction::CompilerOnly,
    }
}

/// Which writer/reader action pairs establish the happens-before edge
/// between a store sequence `store(X); heavy; store(Y)` and a load sequence
/// `load(Y); light; load(X)`:
///
/// - a reader that pays the full hardware fence is ordered against any
///   writer-side action (full fence against full fence is the classic
///   symmetric pairing, and a broadcast on the writer side is strictly
///   stronger than a local fence);
/// - a reader that emits only a compiler-level barrier is ordered only when
///   the writer's action forces a hardware fence onto every thread, that is,
///   when the writer issued an OS broadcast or the native single-call
///   broadcast;
/// - a compiler-only reader against a writer whose fence was merely local is
///   the one unsound combination: no hardware ever fenced the reader's core.
pub open spec fn pair_establishes_ordering(h: HeavyAction, l: LightAction) -> bool {
    !(h == HeavyAction::FullFence && l == LightAction::CompilerOnly)
}

/// The central invariant of the whole system: for every committed strategy,
/// the branch the reader side takes exactly mirrors the branch the writer
/// side takes, so the pair as a whole establishes the ordering guarantee.
pub proof fn lemma_matched_pair(s: Strategy)
    ensures
        pair_establishes_ordering(heavy_action_of(s), light_action_of(s)),
{
}

/// The reduced model for an exhaustive-interleaving checker degrades both
/// sides to a full sequential-consistency fence; that pair still establishes
/// the ordering guarantee.
pub proof fn lemma_degraded_model_pair_ordered()
    ensures
        pair_establishes_ordering(HeavyAction::FullFence, LightAction::FullFence),
{
}

/// The writer-side branch for a strategy, as a computation.
pub fn heavy_action_for(s: Strategy) -> (a: HeavyAction)
    ensures
        a == heavy_action_of(s),
{
    match s {
        Strategy::PrivateExpeditedBroadcast => HeavyAction::BroadcastCall(
            BroadcastCommand::PrivateExpedited,
        ),
        Strategy::SharedBroadcast => HeavyAction::BroadcastCall(BroadcastCommand::Shared),
        Strategy::NativeFlush => HeavyAction::NativeCall,
        Strategy::Fallback => HeavyAction::FullFence,
    }
}

/// The reader-side branch for a strategy, as a computation.
pub fn light_action_for(s: Strategy) -> (a: LightAction)
    ensures
        a == light_action_of(s),
{
    match s {
        Strategy::Fallback => LightAction::FullFence,
        _ => LightAction::CompilerOnly,
    }
}

} // verus!
