//! The ordering guarantees of the barrier pair, stated and proved over an
//! explicit observation model.
//!
//! The model: the writer performs a sequence of stores, each separated from
//! the next by the heavy barrier; a reader walks them in reverse order, each
//! load preceded by the light barrier. A reader snapshot records, per store
//! index, whether that store's value was observed. The guarantee a correct
//! barrier pair gives is that only prefix-closed snapshots occur: a store is
//! observed only together with every store that preceded it.

use vstd::prelude::*;
use crate::dispatch::{
    heavy_action_of, lemma_matched_pair, light_action_of, pair_establishes_ordering,
    HeavyAction, LightAction,
};
use crate::state::ProcessState;
use crate::strategy::Strategy;

verus! {

/// A snapshot is prefix-closed when every observed store carries every
/// earlier store with it.
pub open spec fn prefix_closed(snap: Seq<bool>) -> bool {
    forall|i: int, j: int|
        #![trigger snap[i], snap[j]]
        0 <= i <= j < snap.len() && snap[j] ==> snap[i]
}

/// The snapshots that can occur for a reader using light action `l` against
/// a writer using heavy action `h`: whenever the pair establishes ordering,
/// only prefix-closed snapshots occur; a pair that establishes no ordering
/// constrains nothing.
pub open spec fn observation_consistent(h: HeavyAction, l: LightAction, snap: Seq<bool>) -> bool {
    pair_establishes_ordering(h, l) ==> prefix_closed(snap)
}

/// Pairwise ordering: for every committed strategy, a writer run
/// `store(X); heavy; store(Y)` against a reader run `load(Y); light;
/// load(X)` never shows the reader the second store without the first.
/// Here `snap[0]` records whether the store of `X` was observed and
/// `snap[1]` whether the store of `Y` was.
pub proof fn lemma_pairwise_ordering(s: Strategy, snap: Seq<bool>)
    requires
        snap.len() == 2,
        observation_consistent(heavy_action_of(s), light_action_of(s), snap),
        snap[1],
    ensures
        snap[0],
{
    lemma_matched_pair(s);
}

/// Multi-reader invariance: the pairwise ordering guarantee holds
/// independently and simultaneously for any number of concurrent readers
/// against the one writer, each reader taking its own snapshot.
pub proof fn lemma_multi_reader_invariance(s: Strategy, snaps: Seq<Seq<bool>>)
    requires
        forall|k: int| 0 <= k < snaps.len() ==> (#[trigger] snaps[k]).len() == 2,
        forall|k: int|
            0 <= k < snaps.len() ==> observation_consistent(
                heavy_action_of(s),
                light_action_of(s),
                #[trigger] snaps[k],
            ),
    ensures
        forall|k: int| 0 <= k < snaps.len() && (#[trigger] snaps[k])[1] ==> snaps[k][0],
{
    lemma_matched_pair(s);
    assert forall|k: int| 0 <= k < snaps.len() && (#[trigger] snaps[k])[1] implies snaps[k][0] by {
        assert(prefix_closed(snaps[k]));
        assert(snaps[k][1]);
    }
}

/// Chain transitivity: the writer stores `A`, `B`, `C`, each followed by
/// the heavy barrier; the reader loads `C`, `B`, `A`, each preceded by the
/// light barrier. Observing `C` implies observing `B` and `A`, and
/// observing `B` implies observing `A`. Here `snap[0]`, `snap[1]` and
/// `snap[2]` record whether the stores of `A`, `B` and `C` were observed.
pub proof fn lemma_chain_transitivity(s: Strategy, snap: Seq<bool>)
    requires
        snap.len() == 3,
        observation_consistent(heavy_action_of(s), light_action_of(s), snap),
    ensures
        snap[2] ==> snap[1] && snap[0],
        snap[1] ==> snap[0],
{
    lemma_matched_pair(s);
}

/// Fallback equivalence: with the committed strategy forced to `Fallback`
/// the pair degrades to a full hardware fence on both sides, and the
/// pairwise ordering guarantee still holds — the slow path is
/// self-consistent.
pub proof fn lemma_fallback_equivalence(snap: Seq<bool>)
    requires
        snap.len() == 2,
        observation_consistent(
            heavy_action_of(Strategy::Fallback),
            light_action_of(Strategy::Fallback),
            snap,
        ),
        snap[1],
    ensures
        heavy_action_of(Strategy::Fallback) == HeavyAction::FullFence,
        light_action_of(Strategy::Fallback) == LightAction::FullFence,
        snap[0],
{
    lemma_matched_pair(Strategy::Fallback);
}

/// Stability of the acceleration query: strategy selection is a function of
/// the probe report alone, so two well-formed states built over the same
/// report commit the same strategy and answer the acceleration query the
/// same way — the answer never changes within one process lifetime.
pub proof fn lemma_acceleration_stable(a: ProcessState, b: ProcessState)
    requires
        a.wf(),
        b.wf(),
        a.report == b.report,
    ensures
        a.strategy == b.strategy,
        a.strategy.is_broadcast_based() == b.strategy.is_broadcast_based(),
{
}

/// The value the reader's load of the version cell returns under snapshot
/// `snap` of `n` writer iterations: the index of the newest observed
/// version store, or `0` when none was observed. Writer iteration `i`
/// (counted from 1) stores the data cell at snapshot index `2*i - 2` and
/// the version cell at snapshot index `2*i - 1`.
pub open spec fn version_read(snap: Seq<bool>, n: nat) -> nat
    decreases n,
{
    if n == 0 {
        0
    } else if snap[2 * n - 1] {
        n
    } else {
        version_read(snap, (n - 1) as nat)
    }
}

/// The value the reader's load of the data cell returns under snapshot
/// `snap` of `n` writer iterations: the index of the newest observed data
/// store, or `0` when none was observed.
pub open spec fn data_read(snap: Seq<bool>, n: nat) -> nat
    decreases n,
{
    if n == 0 {
        0
    } else if snap[2 * n - 2] {
        n
    } else {
        data_read(snap, (n - 1) as nat)
    }
}

proof fn lemma_version_read_observed(snap: Seq<bool>, n: nat)
    requires
        version_read(snap, n) > 0,
    ensures
        version_read(snap, n) <= n,
        snap[2 * version_read(snap, n) - 1],
    decreases n,
{
    if n == 0 {
    } else if snap[2 * n - 1] {
    } else {
        lemma_version_read_observed(snap, (n - 1) as nat);
    }
}

proof fn lemma_data_read_at_least(snap: Seq<bool>, n: nat, k: nat)
    requires
        1 <= k <= n,
        snap[2 * k - 2],
    ensures
        data_read(snap, n) >= k,
    decreases n,
{
    if n == 0 {
    } else if snap[2 * n - 2] {
    } else {
        lemma_data_read_at_least(snap, (n - 1) as nat, k);
    }
}

/// Seqlock-style consistency: the writer publishes increasing integers into
/// a data cell, each publication followed by the heavy barrier and only
/// afterwards reflected in a version counter; the reader loads the version,
/// takes the light barrier, and loads the data. For every committed
/// strategy, the data value read is at least the version value read: a
/// version store is observed only together with its own iteration's data
/// store.
pub proof fn lemma_seqlock_consistency(s: Strategy, snap: Seq<bool>, n: nat)
    requires
        snap.len() == 2 * n,
        observation_consistent(heavy_action_of(s), light_action_of(s), snap),
    ensures
        data_read(snap, n) >= version_read(snap, n),
{
    lemma_matched_pair(s);
    let v = version_read(snap, n);
    if v > 0 {
        lemma_version_read_observed(snap, n);
        assert(prefix_closed(snap));
        assert(snap[2 * v - 2]);
        lemma_data_read_at_least(snap, n, v);
    }
}

} // verus!
