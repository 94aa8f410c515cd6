//! Tests of the probe, the committed state, and the barrier pair on the
//! running machine.

use swmr_barrier::dispatch::{
    heavy_action_for, light_action_for, BroadcastCommand, HeavyAction, LightAction,
};
use swmr_barrier::state::{report_of_mask, ProcessState};
use swmr_barrier::strategy::{commit, ProbeReport, Strategy};
use swmr_barrier::{heavy_barrier, is_accelerated, light_barrier};

fn report(
    query_ok: bool,
    private_expedited_supported: bool,
    shared_supported: bool,
    registered: bool,
    native_resolved: bool,
) -> ProbeReport {
    ProbeReport {
        query_ok,
        private_expedited_supported,
        shared_supported,
        registered,
        native_resolved,
    }
}

#[test]
fn test_linux_membarrier_acceleration_enabled() {
    assert!(
        is_accelerated(),
        "MEMBARRIER (SHARED or PRIVATE_EXPEDITED) should be supported on Linux kernel 4.3+. \
         If this test fails, either the kernel is too old (< 4.3) or membarrier registration failed."
    );
    println!("Linux membarrier acceleration is enabled (IS_ACCELERATED = true)");
}

#[test]
fn acceleration_query_is_stable() {
    let first = is_accelerated();
    for _ in 0..32 {
        assert_eq!(is_accelerated(), first);
    }
}

#[test]
fn free_barrier_pair_runs() {
    heavy_barrier();
    light_barrier();
    heavy_barrier();
    light_barrier();
}

#[test]
fn strategy_selection_prefers_registered_broadcast() {
    assert_eq!(
        commit(report(true, true, true, true, false)),
        Strategy::PrivateExpeditedBroadcast
    );
    assert_eq!(
        commit(report(true, true, false, true, false)),
        Strategy::PrivateExpeditedBroadcast
    );
}

#[test]
fn strategy_selection_degrades_on_registration_failure() {
    assert_eq!(
        commit(report(true, true, true, false, false)),
        Strategy::SharedBroadcast
    );
    assert_eq!(
        commit(report(true, true, false, false, false)),
        Strategy::Fallback
    );
}

#[test]
fn strategy_selection_takes_unregistered_broadcast() {
    assert_eq!(
        commit(report(true, false, true, false, false)),
        Strategy::SharedBroadcast
    );
}

#[test]
fn strategy_selection_resolves_native_entry_point() {
    assert_eq!(
        commit(report(false, false, false, false, true)),
        Strategy::NativeFlush
    );
    assert_eq!(
        commit(report(false, false, false, false, false)),
        Strategy::Fallback
    );
}

#[test]
fn committed_state_keeps_its_report() {
    let r = report(true, false, true, false, false);
    let st = ProcessState::from_report(r);
    assert_eq!(st.report, r);
    assert_eq!(st.strategy, Strategy::SharedBroadcast);
}

#[test]
fn every_strategy_yields_a_matched_pair() {
    let all = [
        Strategy::Fallback,
        Strategy::SharedBroadcast,
        Strategy::PrivateExpeditedBroadcast,
        Strategy::NativeFlush,
    ];
    for s in all {
        let h = heavy_action_for(s);
        let l = light_action_for(s);
        assert!(
            !(h == HeavyAction::FullFence && l == LightAction::CompilerOnly),
            "a compiler-only reader may never face a merely local writer fence"
        );
    }
}

#[test]
fn fallback_pair_is_full_fence_on_both_sides() {
    assert_eq!(
        heavy_action_for(Strategy::Fallback),
        HeavyAction::FullFence
    );
    assert_eq!(
        light_action_for(Strategy::Fallback),
        LightAction::FullFence
    );
}

#[test]
fn broadcast_strategies_leave_readers_compiler_only() {
    assert_eq!(
        light_action_for(Strategy::SharedBroadcast),
        LightAction::CompilerOnly
    );
    assert_eq!(
        light_action_for(Strategy::PrivateExpeditedBroadcast),
        LightAction::CompilerOnly
    );
    assert_eq!(
        light_action_for(Strategy::NativeFlush),
        LightAction::CompilerOnly
    );
}

#[test]
fn probe_commits_a_consistent_state() {
    let st = ProcessState::probe();
    assert_ne!(st.strategy, Strategy::NativeFlush);
    assert!(!st.report.native_resolved);
    assert_eq!(st.is_accelerated(), st.strategy != Strategy::Fallback);
    let h = st.heavy();
    let l = st.light();
    assert!(!(h == HeavyAction::FullFence && l == LightAction::CompilerOnly));
}

#[test]
fn probe_without_registration_never_registers() {
    let st = ProcessState::probe_without_registration();
    assert!(!st.report.registered);
    assert!(
        st.strategy == Strategy::SharedBroadcast || st.strategy == Strategy::Fallback
    );
    assert_eq!(
        st.is_accelerated(),
        st.strategy == Strategy::SharedBroadcast
    );
    let h = st.heavy();
    let l = st.light();
    assert!(!(h == HeavyAction::FullFence && l == LightAction::CompilerOnly));
}

#[test]
fn fallback_state_pays_the_fence_on_both_sides() {
    let st = ProcessState::from_report(report(false, false, false, false, false));
    assert_eq!(st.strategy, Strategy::Fallback);
    assert!(!st.is_accelerated());
    assert_eq!(st.heavy(), HeavyAction::FullFence);
    assert_eq!(st.light(), LightAction::FullFence);
}

#[test]
fn shared_broadcast_state_issues_the_shared_command() {
    let st = ProcessState::from_report(report(true, false, true, false, false));
    assert_eq!(st.strategy, Strategy::SharedBroadcast);
    assert!(st.is_accelerated());
    assert_eq!(
        st.heavy(),
        HeavyAction::BroadcastCall(BroadcastCommand::Shared)
    );
    assert_eq!(st.light(), LightAction::CompilerOnly);
}

#[test]
fn private_expedited_state_issues_the_private_command() {
    let st = ProcessState::from_report(report(true, true, true, true, false));
    assert_eq!(st.strategy, Strategy::PrivateExpeditedBroadcast);
    assert!(st.is_accelerated());
    assert_eq!(
        st.heavy(),
        HeavyAction::BroadcastCall(BroadcastCommand::PrivateExpedited)
    );
    assert_eq!(st.light(), LightAction::CompilerOnly);
}

#[test]
fn heavy_action_carries_the_committed_command() {
    assert_eq!(
        heavy_action_for(Strategy::PrivateExpeditedBroadcast),
        HeavyAction::BroadcastCall(BroadcastCommand::PrivateExpedited)
    );
    assert_eq!(
        heavy_action_for(Strategy::SharedBroadcast),
        HeavyAction::BroadcastCall(BroadcastCommand::Shared)
    );
    assert_eq!(heavy_action_for(Strategy::NativeFlush), HeavyAction::NativeCall);
}

#[test]
fn mask_decoding_reads_the_published_bits() {
    let r = report_of_mask(0, false);
    assert!(!r.query_ok);
    assert!(!r.private_expedited_supported);
    assert!(!r.shared_supported);
    assert!(!r.registered);
    assert!(!r.native_resolved);

    let r = report_of_mask(1, false);
    assert!(r.query_ok && r.shared_supported && !r.private_expedited_supported);

    let r = report_of_mask(8, false);
    assert!(r.query_ok && r.private_expedited_supported && !r.shared_supported);

    // A mask carrying only some other command's bit supports neither
    // variant used here.
    let r = report_of_mask(2, false);
    assert!(r.query_ok && !r.private_expedited_supported && !r.shared_supported);
    assert_eq!(commit(r), Strategy::Fallback);

    let r = report_of_mask(9, true);
    assert!(r.private_expedited_supported && r.shared_supported && r.registered);
    assert_eq!(commit(r), Strategy::PrivateExpeditedBroadcast);
}
