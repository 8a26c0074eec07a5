//! What the two state machines guarantee together, proved over their models.

use vstd::prelude::*;

use crate::controller::observed_transition;
use crate::engine::{
    action_between, coherent, decision_for_apply, decision_for_event, decision_for_mode,
    decision_for_release, decision_on_resume, resumed_state, state_after_event, state_for_mode,
    view_after_apply, view_after_event, view_after_mode, view_after_release, view_resumed,
    well_formed, EngineView, FirewallAction, PersistedRecord,
};
use crate::error::Fault;
use crate::machine::{
    awaits, confirms, elapsed_ms, shows_tunnel_for, state_after_observe, timeout_on_observe,
    Snapshot, Transition,
};
use crate::state::connection::{ConnectionState, Phase};
use crate::state::killswitch::{KillSwitchMode, KillSwitchState};
use crate::store::{decoded, encoded, lemma_decode_encode};

verus! {

/// Whatever mode is set, from whatever state and in whatever phase, the kill
/// switch ends disabled exactly when the mode is off.
pub proof fn lemma_mode_change_is_coherent(
    mode: KillSwitchMode,
    phase: Phase,
    old_state: KillSwitchState,
)
    ensures
        coherent(mode, state_for_mode(mode, phase, old_state)),
{
}

/// A transition of the connection never breaks the invariant: if the kill
/// switch was disabled exactly when off before, it is so afterwards.
pub proof fn lemma_event_is_coherent(mode: KillSwitchMode, state: KillSwitchState, t: Transition)
    requires
        coherent(mode, state),
    ensures
        coherent(mode, state_after_event(mode, state, t)),
{
}

/// Whatever record is loaded, the engine resumes disabled exactly when off.
pub proof fn lemma_resume_is_coherent(record: PersistedRecord)
    ensures
        coherent(record.mode, resumed_state(record)),
{
}

/// The engine is well formed when it resumes, and every step keeps it so:
/// after a change of mode, a transition of the connection, an answer of the
/// firewall and an emergency release the kill switch is disabled exactly when
/// it is off.
pub proof fn lemma_every_step_is_well_formed(
    old: EngineView,
    loaded: Option<PersistedRecord>,
    mode: KillSwitchMode,
    phase: Phase,
    t: Transition,
    applied: bool,
)
    requires
        well_formed(old),
    ensures
        well_formed(view_resumed(loaded)),
        well_formed(view_after_mode(old, mode, phase)),
        well_formed(view_after_event(old, t)),
        well_formed(view_after_apply(old, applied)),
        well_formed(view_after_release(old)),
{
}

/// An emergency release ends off and disabled and asks for the block to be
/// released, whatever the engine was before; a second one changes nothing
/// but the revision.
pub proof fn lemma_emergency_release_always_releases(old: EngineView)
    ensures
        view_after_release(old).mode == KillSwitchMode::Off,
        view_after_release(old).state == KillSwitchState::Disabled,
        decision_for_release(old).firewall == FirewallAction::ReleaseBlock,
        decision_for_release(old).record matches Some(record) && record.mode
            == KillSwitchMode::Off && record.state == KillSwitchState::Disabled,
        view_after_release(view_after_release(old)).mode == KillSwitchMode::Off,
        view_after_release(view_after_release(old)).state == KillSwitchState::Disabled,
{
}

/// With the kill switch always on and armed, the tick that sees the tunnel
/// of the connected profile gone ends in `Blocking` and asks for the block
/// exactly once: that step asks for it, and once it is confirmed the same
/// observation asks for nothing more.
pub proof fn lemma_always_on_lost_tunnel_blocks_once(
    old: EngineView,
    state: ConnectionState,
    snapshot: Snapshot,
    now: u64,
    connect_budget_ms: u64,
    disconnect_budget_ms: u64,
)
    requires
        well_formed(old),
        old.mode == KillSwitchMode::AlwaysOn,
        old.state == KillSwitchState::Armed,
        state.spec_phase() == Phase::Connected,
        !shows_tunnel_for(snapshot, state.spec_profile()),
    ensures
        ({
            let after = state_after_observe(
                state,
                snapshot,
                now,
                connect_budget_ms,
                disconnect_budget_ms,
            );
            let t = observed_transition(state, after, None);
            let blocked = view_after_event(old, t);
            let confirmed = view_after_apply(blocked, true);
            let again = state_after_observe(
                after,
                snapshot,
                now,
                connect_budget_ms,
                disconnect_budget_ms,
            );
            &&& after == ConnectionState::Disconnected
            &&& blocked.state == KillSwitchState::Blocking
            &&& decision_for_event(old, t).firewall == FirewallAction::ApplyBlock
            &&& confirmed.enforced
            &&& again == ConnectionState::Disconnected
            &&& forall|later: Transition|
                later.to != Phase::Connected ==> #[trigger] decision_for_event(
                    confirmed,
                    later,
                ).firewall == FirewallAction::Nothing
        }),
{
}

/// With the kill switch on auto and armed, a disconnect that the user asked
/// for, followed by the tick that sees the tunnel gone, stays armed and asks
/// for no block at either step.
pub proof fn lemma_auto_requested_disconnect_never_blocks(
    old: EngineView,
    snapshot: Snapshot,
    started: u64,
    profile: String,
    now: u64,
    connect_budget_ms: u64,
    disconnect_budget_ms: u64,
)
    requires
        well_formed(old),
        old.mode == KillSwitchMode::Auto,
        old.state == KillSwitchState::Armed,
        !shows_tunnel_for(snapshot, profile@),
    ensures
        ({
            let leaving = Transition {
                from: Phase::Connected,
                to: Phase::Disconnecting,
                user_initiated: true,
                condition: None,
            };
            let disconnecting = ConnectionState::Disconnecting { started, profile };
            let after = state_after_observe(
                disconnecting,
                snapshot,
                now,
                connect_budget_ms,
                disconnect_budget_ms,
            );
            let gone = observed_transition(disconnecting, after, None);
            let first = view_after_event(old, leaving);
            let second = view_after_event(first, gone);
            &&& first.state == KillSwitchState::Armed
            &&& decision_for_event(old, leaving).firewall == FirewallAction::Nothing
            &&& after == ConnectionState::Disconnected
            &&& gone.user_initiated
            &&& second.state == KillSwitchState::Armed
            &&& decision_for_event(first, gone).firewall == FirewallAction::Nothing
        }),
{
}

/// With the kill switch on auto and armed, the tick that sees the tunnel of
/// the connected profile gone, no disconnect having been asked for, ends in
/// `Blocking` and asks for the block.
pub proof fn lemma_auto_lost_tunnel_blocks(
    old: EngineView,
    state: ConnectionState,
    snapshot: Snapshot,
    now: u64,
    connect_budget_ms: u64,
    disconnect_budget_ms: u64,
)
    requires
        well_formed(old),
        old.mode == KillSwitchMode::Auto,
        old.state == KillSwitchState::Armed,
        state.spec_phase() == Phase::Connected,
        !shows_tunnel_for(snapshot, state.spec_profile()),
    ensures
        ({
            let after = state_after_observe(
                state,
                snapshot,
                now,
                connect_budget_ms,
                disconnect_budget_ms,
            );
            let t = observed_transition(state, after, None);
            &&& after == ConnectionState::Disconnected
            &&& !t.user_initiated
            &&& view_after_event(old, t).state == KillSwitchState::Blocking
            &&& decision_for_event(old, t).firewall == FirewallAction::ApplyBlock
        }),
{
}

/// A blocking kill switch is never off.
pub proof fn lemma_blocking_is_not_off(mode: KillSwitchMode, state: KillSwitchState)
    requires
        coherent(mode, state),
        state == KillSwitchState::Blocking,
    ensures
        mode != KillSwitchMode::Off,
{
}

/// While connected, a snapshot without the tunnel of the connected profile
/// disconnects the machine at once, without a timeout, and not at the user's
/// request.
pub proof fn lemma_lost_tunnel_disconnects(
    state: ConnectionState,
    snapshot: Snapshot,
    now: u64,
    connect_budget_ms: u64,
    disconnect_budget_ms: u64,
)
    requires
        state.spec_phase() == Phase::Connected,
        !shows_tunnel_for(snapshot, state.spec_profile()),
    ensures
        state_after_observe(state, snapshot, now, connect_budget_ms, disconnect_budget_ms)
            == ConnectionState::Disconnected,
        timeout_on_observe(state, snapshot, now, connect_budget_ms, disconnect_budget_ms) is None,
        observed_transition(state, ConnectionState::Disconnected, None) == (Transition {
            from: Phase::Connected,
            to: Phase::Disconnected,
            user_initiated: false,
            condition: None,
        }),
{
}

/// In AlwaysOn, a transition into any phase but `Connected` ends in
/// `Blocking`, and the block is applied unless a confirmed one is in force.
pub proof fn lemma_always_on_blocks_outside_connected(
    state: KillSwitchState,
    enforced: bool,
    t: Transition,
)
    requires
        t.to != Phase::Connected,
    ensures
        state_after_event(KillSwitchMode::AlwaysOn, state, t) == KillSwitchState::Blocking,
        state == KillSwitchState::Armed ==> action_between(
            state,
            KillSwitchState::Blocking,
            enforced,
        ) == FirewallAction::ApplyBlock,
{
}

/// In Auto, leaving `Connected` without the user having asked for it blocks,
/// whatever phase follows.
pub proof fn lemma_auto_unexpected_drop_blocks(state: KillSwitchState, enforced: bool, t: Transition)
    requires
        t.from == Phase::Connected,
        t.to != Phase::Connected,
        !t.user_initiated,
    ensures
        state_after_event(KillSwitchMode::Auto, state, t) == KillSwitchState::Blocking,
        state == KillSwitchState::Armed ==> action_between(
            state,
            KillSwitchState::Blocking,
            enforced,
        ) == FirewallAction::ApplyBlock,
{
}

/// In Auto, a connection attempt that timed out blocks.
pub proof fn lemma_auto_connect_timeout_blocks(state: KillSwitchState, t: Transition)
    requires
        t.to != Phase::Connected,
        t.condition == Some(Fault::ConnectTimeout),
    ensures
        state_after_event(KillSwitchMode::Auto, state, t) == KillSwitchState::Blocking,
{
}

/// Entering `Connected` arms every kill switch that is not off, and releases
/// the block if one was in force.
pub proof fn lemma_connected_arms(
    mode: KillSwitchMode,
    state: KillSwitchState,
    enforced: bool,
    t: Transition,
)
    requires
        mode != KillSwitchMode::Off,
        t.to == Phase::Connected,
    ensures
        state_after_event(mode, state, t) == KillSwitchState::Armed,
        state == KillSwitchState::Blocking ==> action_between(
            state,
            KillSwitchState::Armed,
            enforced,
        ) == FirewallAction::ReleaseBlock,
{
}

/// A connection attempt older than its budget that the snapshot does not
/// confirm is resolved to `Disconnected` with a connect timeout.
pub proof fn lemma_overdue_connecting_times_out(
    started: u64,
    profile: String,
    snapshot: Snapshot,
    now: u64,
    connect_budget_ms: u64,
    disconnect_budget_ms: u64,
)
    requires
        elapsed_ms(started, now) > connect_budget_ms,
        !confirms(snapshot, profile@),
    ensures
        state_after_observe(
            ConnectionState::Connecting { started, profile },
            snapshot,
            now,
            connect_budget_ms,
            disconnect_budget_ms,
        ) == ConnectionState::Disconnected,
        timeout_on_observe(
            ConnectionState::Connecting { started, profile },
            snapshot,
            now,
            connect_budget_ms,
            disconnect_budget_ms,
        ) == Some(Fault::ConnectTimeout),
{
}

/// A connection attempt within its budget stays open while the snapshot
/// leaves it open, and is given up at once, without a timeout, when the
/// snapshot shows that nothing is coming.
pub proof fn lemma_connecting_within_budget(
    started: u64,
    profile: String,
    snapshot: Snapshot,
    now: u64,
    connect_budget_ms: u64,
    disconnect_budget_ms: u64,
)
    requires
        elapsed_ms(started, now) <= connect_budget_ms,
        !confirms(snapshot, profile@),
    ensures
        state_after_observe(
            ConnectionState::Connecting { started, profile },
            snapshot,
            now,
            connect_budget_ms,
            disconnect_budget_ms,
        ) == (if awaits(snapshot, profile@) {
            ConnectionState::Connecting { started, profile }
        } else {
            ConnectionState::Disconnected
        }),
        timeout_on_observe(
            ConnectionState::Connecting { started, profile },
            snapshot,
            now,
            connect_budget_ms,
            disconnect_budget_ms,
        ) is None,
{
}

/// A disconnection older than its budget is resolved to `Disconnected`, with
/// a disconnect timeout exactly when the tunnel is still seen.
pub proof fn lemma_overdue_disconnecting_resolves(
    started: u64,
    profile: String,
    snapshot: Snapshot,
    now: u64,
    connect_budget_ms: u64,
    disconnect_budget_ms: u64,
)
    requires
        elapsed_ms(started, now) > disconnect_budget_ms,
    ensures
        state_after_observe(
            ConnectionState::Disconnecting { started, profile },
            snapshot,
            now,
            connect_budget_ms,
            disconnect_budget_ms,
        ) == ConnectionState::Disconnected,
        timeout_on_observe(
            ConnectionState::Disconnecting { started, profile },
            snapshot,
            now,
            connect_budget_ms,
            disconnect_budget_ms,
        ) == (if shows_tunnel_for(snapshot, profile@) {
            Some(Fault::DisconnectTimeout)
        } else {
            None
        }),
{
}

/// A record that was written while blocking, read back after a restart,
/// resumes blocking: the bytes give the record back, and the resumed state of
/// a record whose mode is not off and whose state is `Blocking` is `Blocking`.
pub proof fn lemma_restart_resumes_block(record: PersistedRecord)
    requires
        record.mode != KillSwitchMode::Off,
        record.state == KillSwitchState::Blocking,
    ensures
        decoded(encoded(record)) == Some(record),
        resumed_state(decoded(encoded(record))->0) == KillSwitchState::Blocking,
        view_resumed(decoded(encoded(record))).state == KillSwitchState::Blocking,
        view_resumed(decoded(encoded(record))).mode == record.mode,
        view_resumed(decoded(encoded(record))).revision == record.revision,
        decision_on_resume(decoded(encoded(record))).firewall == FirewallAction::ApplyBlock,
{
    lemma_decode_encode(record);
}

/// The kill switch never rests in `Blocking` without enforcement: after a
/// change of mode, a transition of the connection, a restart or an answer of
/// the firewall, a block that is not confirmed is asked for in the same
/// step, or, once every retry has failed, reported.
pub proof fn lemma_block_is_always_pursued(
    old: EngineView,
    loaded: Option<PersistedRecord>,
    mode: KillSwitchMode,
    phase: Phase,
    t: Transition,
    applied: bool,
)
    requires
        well_formed(old),
    ensures
        view_after_mode(old, mode, phase).state == KillSwitchState::Blocking ==> view_after_mode(
            old,
            mode,
            phase,
        ).enforced || decision_for_mode(old, mode, phase).firewall == FirewallAction::ApplyBlock,
        view_after_event(old, t).state == KillSwitchState::Blocking ==> view_after_event(
            old,
            t,
        ).enforced || decision_for_event(old, t).firewall == FirewallAction::ApplyBlock,
        view_resumed(loaded).state == KillSwitchState::Blocking ==> decision_on_resume(
            loaded,
        ).firewall == FirewallAction::ApplyBlock,
        view_after_apply(old, applied).state == KillSwitchState::Blocking ==> {
            ||| view_after_apply(old, applied).enforced
            ||| decision_for_apply(old, applied).firewall == FirewallAction::ApplyBlock
            ||| decision_for_apply(old, applied).fault == Some(Fault::FirewallApplyFailed)
        },
{
}

/// Nobody stays locked out: whenever the kill switch leaves `Blocking`, the
/// same step asks for the block to be released, and turning the kill switch
/// off asks for it whatever the state was.
pub proof fn lemma_leaving_blocking_releases(
    old: EngineView,
    mode: KillSwitchMode,
    phase: Phase,
    t: Transition,
)
    requires
        well_formed(old),
        old.state == KillSwitchState::Blocking,
    ensures
        view_after_mode(old, mode, phase).state != KillSwitchState::Blocking ==> decision_for_mode(
            old,
            mode,
            phase,
        ).firewall == FirewallAction::ReleaseBlock,
        view_after_event(old, t).state != KillSwitchState::Blocking ==> decision_for_event(
            old,
            t,
        ).firewall == FirewallAction::ReleaseBlock,
        decision_for_mode(old, KillSwitchMode::Off, phase).firewall
            == FirewallAction::ReleaseBlock,
        decision_for_release(old).firewall == FirewallAction::ReleaseBlock,
{
}

/// A failed block keeps the kill switch blocking, whatever the firewall
/// answers and however often: the state is never downgraded.
pub proof fn lemma_failed_apply_stays_blocking(old: EngineView, applied: bool)
    requires
        old.state == KillSwitchState::Blocking,
    ensures
        view_after_apply(old, applied).state == KillSwitchState::Blocking,
        view_after_apply(old, applied).mode == old.mode,
        decision_for_apply(old, applied).record matches Some(record) ==> record.state
            == KillSwitchState::Blocking,
{
}

/// The revision never goes back, and every record that is handed out carries
/// the revision the engine has afterwards.
pub proof fn lemma_revision_never_goes_back(
    old: EngineView,
    mode: KillSwitchMode,
    phase: Phase,
    t: Transition,
    applied: bool,
)
    ensures
        view_after_mode(old, mode, phase).revision >= old.revision,
        view_after_event(old, t).revision >= old.revision,
        view_after_apply(old, applied).revision >= old.revision,
        view_after_release(old).revision >= old.revision,
        decision_for_mode(old, mode, phase).record matches Some(record) && record.revision
            == view_after_mode(old, mode, phase).revision,
        decision_for_event(old, t).record matches Some(record) ==> record.revision
            == view_after_event(old, t).revision,
        decision_for_apply(old, applied).record matches Some(record) ==> record.revision
            == view_after_apply(old, applied).revision,
        decision_for_release(old).record matches Some(record) && record.revision
            == view_after_release(old).revision,
{
}

/// The profile is carried through every observation that does not end in
/// `Disconnected`, and a disconnected machine stays disconnected whatever is
/// observed.
pub proof fn lemma_profile_is_carried(
    state: ConnectionState,
    snapshot: Snapshot,
    now: u64,
    connect_budget_ms: u64,
    disconnect_budget_ms: u64,
)
    ensures
        ({
            let after = state_after_observe(
                state,
                snapshot,
                now,
                connect_budget_ms,
                disconnect_budget_ms,
            );
            &&& after.spec_phase() != Phase::Disconnected ==> after.spec_profile()
                == state.spec_profile()
            &&& state.spec_phase() == Phase::Disconnected ==> after
                == ConnectionState::Disconnected
            &&& after.spec_phase() == Phase::Connected ==> confirms(snapshot, state.spec_profile())
                || state.spec_phase() == Phase::Connected
            &&& after.spec_phase() != Phase::Connecting || state.spec_phase()
                == Phase::Connecting
            &&& after.spec_phase() != Phase::Disconnecting || state.spec_phase()
                == Phase::Disconnecting
        }),
{
}

} // verus!
