//! The connection machine and the kill-switch engine, wired together.
//!
//! Every event, a request of the user or a tick of the scanner, goes through
//! the machine first; the transition it reports, if any, is handed to the
//! engine in the same step. The caller runs the firewall operation and writes
//! the record that the returned decision names, in that order of arrival.

use vstd::prelude::*;

use crate::engine::{
    decision_for_apply, decision_for_event, decision_for_mode, decision_for_release,
    decision_on_resume, view_after_apply, view_after_event, view_after_mode, view_after_release,
    view_resumed, Decision, FirewallAction, KillSwitchEngine, PersistedRecord,
};
use crate::error::Fault;
use crate::machine::{
    state_after_observe, timeout_on_observe, ConnectionMachine, Snapshot, Transition,
    DEFAULT_CONNECT_BUDGET_MS, DEFAULT_DISCONNECT_BUDGET_MS,
};
use crate::state::connection::{ConnectionState, Phase};
use crate::state::killswitch::KillSwitchMode;

verus! {

/// The transition that `observe` reports for a change of phase.
pub open spec fn observed_transition(
    old_state: ConnectionState,
    new_state: ConnectionState,
    condition: Option<Fault>,
) -> Transition {
    Transition {
        from: old_state.spec_phase(),
        to: new_state.spec_phase(),
        user_initiated: old_state.spec_phase() == Phase::Disconnecting,
        condition,
    }
}

/// The transition that a request of the user makes.
pub open spec fn requested_transition(from: Phase, to: Phase) -> Transition {
    Transition { from, to, user_initiated: true, condition: None }
}

/// The decision that asks for nothing.
pub open spec fn nothing_to_do() -> Decision {
    Decision { firewall: FirewallAction::Nothing, record: None, fault: None }
}

/// Everything that can happen to the controller. Requests of the user and
/// ticks of the scanner reach it through one queue, in the order in which
/// they were posted.
#[derive(Debug, Clone, PartialEq)]
pub enum Input {
    /// The user asks for a connection to a profile.
    Connect {
        /// Name of the profile.
        profile: String,
    },
    /// The user asks for the connection to be taken down.
    Disconnect,
    /// The scanner reports what it saw.
    Observe(Snapshot),
    /// The user sets the mode of the kill switch.
    SetMode(KillSwitchMode),
    /// The user moves the kill switch to the next mode.
    CycleMode,
    /// The firewall answered an `ApplyBlock`.
    ApplyResult(bool),
    /// The user asks for the emergency release.
    EmergencyRelease,
}

/// The decision that only reports a fault.
pub open spec fn only_fault(fault: Fault) -> Decision {
    Decision { firewall: FirewallAction::Nothing, record: None, fault: Some(fault) }
}

/// The one owner of both state machines.
#[derive(Debug)]
pub struct Controller {
    /// The connection state machine.
    pub machine: ConnectionMachine,
    /// The kill-switch engine.
    pub engine: KillSwitchEngine,
}

impl Controller {
    /// Start up: a disconnected machine with the default budgets, and an
    /// engine resumed from the loaded record. The decision is to be carried
    /// out before any request of the user is taken: it re-applies a block
    /// that the record says was in force, and writes the first record where
    /// there was none.
    pub fn start(loaded: Option<PersistedRecord>) -> (r: (Controller, Decision))
        ensures
            r.0.machine.state == ConnectionState::Disconnected,
            r.0.machine.connect_budget_ms == DEFAULT_CONNECT_BUDGET_MS,
            r.0.machine.disconnect_budget_ms == DEFAULT_DISCONNECT_BUDGET_MS,
            r.0.engine@ == view_resumed(loaded),
            r.0.engine.inv(),
            r.1 == decision_on_resume(loaded),
    {
        let (engine, decision) = KillSwitchEngine::resume(loaded);
        (Controller { machine: ConnectionMachine::new(), engine }, decision)
    }

    /// The user asks for a connection to `profile`.
    ///
    /// Fails with `InvalidTransition`, changing nothing, unless the machine is
    /// disconnected. Otherwise the machine is connecting and the engine has
    /// seen the transition.
    pub fn request_connect(&mut self, profile: String, now: u64) -> (r: Result<Decision, Fault>)
        ensures
            final(self).engine.inv(),
            final(self).machine.connect_budget_ms == old(self).machine.connect_budget_ms,
            final(self).machine.disconnect_budget_ms == old(self).machine.disconnect_budget_ms,
            old(self).machine.state.spec_phase() != Phase::Disconnected ==> {
                &&& r == Err::<Decision, Fault>(Fault::InvalidTransition)
                &&& final(self).machine.state == old(self).machine.state
                &&& final(self).engine@ == old(self).engine@
            },
            old(self).machine.state.spec_phase() == Phase::Disconnected ==> {
                let t = requested_transition(Phase::Disconnected, Phase::Connecting);
                &&& final(self).machine.state == (ConnectionState::Connecting {
                    started: now,
                    profile,
                })
                &&& final(self).engine@ == view_after_event(old(self).engine@, t)
                &&& r == Ok::<Decision, Fault>(decision_for_event(old(self).engine@, t))
            },
    {
        proof {
            use_type_invariant(&self.engine);
        }
        match self.machine.request_connect(profile, now) {
            Ok(t) => Ok(self.engine.on_connection_event(t)),
            Err(e) => Err(e),
        }
    }

    /// The user asks for the connection to be taken down.
    ///
    /// Fails with `InvalidTransition`, changing nothing, unless the machine is
    /// connecting or connected. Otherwise the machine is disconnecting, since
    /// `now` and for the same profile, and the engine has seen a transition
    /// that the user asked for.
    pub fn request_disconnect(&mut self, now: u64) -> (r: Result<Decision, Fault>)
        ensures
            final(self).engine.inv(),
            final(self).machine.connect_budget_ms == old(self).machine.connect_budget_ms,
            final(self).machine.disconnect_budget_ms == old(self).machine.disconnect_budget_ms,
            (old(self).machine.state.spec_phase() == Phase::Disconnected || old(
                self,
            ).machine.state.spec_phase() == Phase::Disconnecting) ==> {
                &&& r == Err::<Decision, Fault>(Fault::InvalidTransition)
                &&& final(self).machine.state == old(self).machine.state
                &&& final(self).engine@ == old(self).engine@
            },
            (old(self).machine.state.spec_phase() == Phase::Connecting || old(
                self,
            ).machine.state.spec_phase() == Phase::Connected) ==> {
                let t = requested_transition(
                    old(self).machine.state.spec_phase(),
                    Phase::Disconnecting,
                );
                &&& final(self).machine.state.spec_phase() == Phase::Disconnecting
                &&& final(self).machine.state->Disconnecting_started == now
                &&& final(self).machine.state.spec_profile() == old(
                    self,
                ).machine.state.spec_profile()
                &&& final(self).engine@ == view_after_event(old(self).engine@, t)
                &&& r == Ok::<Decision, Fault>(decision_for_event(old(self).engine@, t))
            },
    {
        proof {
            use_type_invariant(&self.engine);
        }
        match self.machine.request_disconnect(now) {
            Ok(t) => Ok(self.engine.on_connection_event(t)),
            Err(e) => Err(e),
        }
    }

    /// One tick of the scanner.
    ///
    /// The machine is reconciled with the snapshot. If its phase changed, the
    /// engine sees the transition and the decision is the engine's, with the
    /// timeout that forced the change as its fault. If not, nothing is to be
    /// done.
    pub fn observe(&mut self, snapshot: Snapshot, now: u64) -> (d: Decision)
        ensures
            final(self).engine.inv(),
            final(self).machine.connect_budget_ms == old(self).machine.connect_budget_ms,
            final(self).machine.disconnect_budget_ms == old(self).machine.disconnect_budget_ms,
            final(self).machine.state == state_after_observe(
                old(self).machine.state,
                snapshot,
                now,
                old(self).machine.connect_budget_ms,
                old(self).machine.disconnect_budget_ms,
            ),
            final(self).machine.state.spec_phase() == old(self).machine.state.spec_phase() ==> {
                &&& final(self).engine@ == old(self).engine@
                &&& d == nothing_to_do()
            },
            final(self).machine.state.spec_phase() != old(self).machine.state.spec_phase() ==> {
                let timeout = timeout_on_observe(
                    old(self).machine.state,
                    snapshot,
                    now,
                    old(self).machine.connect_budget_ms,
                    old(self).machine.disconnect_budget_ms,
                );
                let t = observed_transition(
                    old(self).machine.state,
                    final(self).machine.state,
                    timeout,
                );
                &&& final(self).engine@ == view_after_event(old(self).engine@, t)
                &&& d == (Decision { fault: timeout, ..decision_for_event(old(self).engine@, t) })
            },
    {
        proof {
            use_type_invariant(&self.engine);
        }
        match self.machine.observe(snapshot, now) {
            Some(t) => {
                let decision = self.engine.on_connection_event(t);
                Decision {
                    firewall: decision.firewall,
                    record: decision.record,
                    fault: t.condition,
                }
            },
            None => Decision { firewall: FirewallAction::Nothing, record: None, fault: None },
        }
    }

    /// Change the kill-switch mode; the state follows from the phase the
    /// machine is in.
    pub fn set_mode(&mut self, new_mode: KillSwitchMode) -> (d: Decision)
        ensures
            final(self).engine.inv(),
            final(self).machine == old(self).machine,
            final(self).engine@ == view_after_mode(
                old(self).engine@,
                new_mode,
                old(self).machine.state.spec_phase(),
            ),
            d == decision_for_mode(
                old(self).engine@,
                new_mode,
                old(self).machine.state.spec_phase(),
            ),
    {
        let phase = self.machine.state.phase();
        self.engine.set_mode(new_mode, phase)
    }

    /// Move the kill switch to the next mode of the cycle.
    pub fn cycle_mode(&mut self) -> (d: Decision)
        ensures
            final(self).engine.inv(),
            final(self).machine == old(self).machine,
            final(self).engine@ == view_after_mode(
                old(self).engine@,
                old(self).engine@.mode.spec_next(),
                old(self).machine.state.spec_phase(),
            ),
            d == decision_for_mode(
                old(self).engine@,
                old(self).engine@.mode.spec_next(),
                old(self).machine.state.spec_phase(),
            ),
    {
        let phase = self.machine.state.phase();
        self.engine.cycle_mode(phase)
    }

    /// Take in the firewall's answer to an `ApplyBlock`.
    pub fn on_apply_result(&mut self, applied: bool) -> (d: Decision)
        ensures
            final(self).engine.inv(),
            final(self).machine == old(self).machine,
            final(self).engine@ == view_after_apply(old(self).engine@, applied),
            d == decision_for_apply(old(self).engine@, applied),
    {
        self.engine.on_apply_result(applied)
    }

    /// Take one input from the queue, at time `now`.
    ///
    /// The input is handed to the operation it stands for, and the decision
    /// is that operation's. A request that is not legal in the current state
    /// changes nothing and is answered with a decision that only reports
    /// `InvalidTransition`.
    pub fn handle(&mut self, input: Input, now: u64) -> (d: Decision)
        ensures
            final(self).engine.inv(),
            final(self).machine.connect_budget_ms == old(self).machine.connect_budget_ms,
            final(self).machine.disconnect_budget_ms == old(self).machine.disconnect_budget_ms,
            match input {
                Input::Connect { profile } => if old(self).machine.state.spec_phase()
                    == Phase::Disconnected {
                    let t = requested_transition(Phase::Disconnected, Phase::Connecting);
                    &&& final(self).machine.state == (ConnectionState::Connecting {
                        started: now,
                        profile,
                    })
                    &&& final(self).engine@ == view_after_event(old(self).engine@, t)
                    &&& d == decision_for_event(old(self).engine@, t)
                } else {
                    &&& final(self).machine.state == old(self).machine.state
                    &&& final(self).engine@ == old(self).engine@
                    &&& d == only_fault(Fault::InvalidTransition)
                },
                Input::Disconnect => if old(self).machine.state.spec_phase() == Phase::Connecting
                    || old(self).machine.state.spec_phase() == Phase::Connected {
                    let t = requested_transition(
                        old(self).machine.state.spec_phase(),
                        Phase::Disconnecting,
                    );
                    &&& final(self).machine.state.spec_phase() == Phase::Disconnecting
                    &&& final(self).machine.state->Disconnecting_started == now
                    &&& final(self).machine.state.spec_profile() == old(
                        self,
                    ).machine.state.spec_profile()
                    &&& final(self).engine@ == view_after_event(old(self).engine@, t)
                    &&& d == decision_for_event(old(self).engine@, t)
                } else {
                    &&& final(self).machine.state == old(self).machine.state
                    &&& final(self).engine@ == old(self).engine@
                    &&& d == only_fault(Fault::InvalidTransition)
                },
                Input::Observe(snapshot) => {
                    let after = state_after_observe(
                        old(self).machine.state,
                        snapshot,
                        now,
                        old(self).machine.connect_budget_ms,
                        old(self).machine.disconnect_budget_ms,
                    );
                    let timeout = timeout_on_observe(
                        old(self).machine.state,
                        snapshot,
                        now,
                        old(self).machine.connect_budget_ms,
                        old(self).machine.disconnect_budget_ms,
                    );
                    let t = observed_transition(old(self).machine.state, after, timeout);
                    &&& final(self).machine.state == after
                    &&& if after.spec_phase() == old(self).machine.state.spec_phase() {
                        &&& final(self).engine@ == old(self).engine@
                        &&& d == nothing_to_do()
                    } else {
                        &&& final(self).engine@ == view_after_event(old(self).engine@, t)
                        &&& d == (Decision {
                            fault: timeout,
                            ..decision_for_event(old(self).engine@, t)
                        })
                    }
                },
                Input::SetMode(mode) => {
                    &&& final(self).machine == old(self).machine
                    &&& final(self).engine@ == view_after_mode(
                        old(self).engine@,
                        mode,
                        old(self).machine.state.spec_phase(),
                    )
                    &&& d == decision_for_mode(
                        old(self).engine@,
                        mode,
                        old(self).machine.state.spec_phase(),
                    )
                },
                Input::CycleMode => {
                    &&& final(self).machine == old(self).machine
                    &&& final(self).engine@ == view_after_mode(
                        old(self).engine@,
                        old(self).engine@.mode.spec_next(),
                        old(self).machine.state.spec_phase(),
                    )
                    &&& d == decision_for_mode(
                        old(self).engine@,
                        old(self).engine@.mode.spec_next(),
                        old(self).machine.state.spec_phase(),
                    )
                },
                Input::ApplyResult(applied) => {
                    &&& final(self).machine == old(self).machine
                    &&& final(self).engine@ == view_after_apply(old(self).engine@, applied)
                    &&& d == decision_for_apply(old(self).engine@, applied)
                },
                Input::EmergencyRelease => {
                    &&& final(self).machine == old(self).machine
                    &&& final(self).engine@ == view_after_release(old(self).engine@)
                    &&& d == decision_for_release(old(self).engine@)
                },
            },
    {
        match input {
            Input::Connect { profile } => match self.request_connect(profile, now) {
                Ok(d) => d,
                Err(fault) => Decision {
                    firewall: FirewallAction::Nothing,
                    record: None,
                    fault: Some(fault),
                },
            },
            Input::Disconnect => match self.request_disconnect(now) {
                Ok(d) => d,
                Err(fault) => Decision {
                    firewall: FirewallAction::Nothing,
                    record: None,
                    fault: Some(fault),
                },
            },
            Input::Observe(snapshot) => self.observe(snapshot, now),
            Input::SetMode(mode) => self.set_mode(mode),
            Input::CycleMode => self.cycle_mode(),
            Input::ApplyResult(applied) => self.on_apply_result(applied),
            Input::EmergencyRelease => self.emergency_release(),
        }
    }

    /// Release whatever block there is and turn the kill switch off. The
    /// connection is left as it is.
    pub fn emergency_release(&mut self) -> (d: Decision)
        ensures
            final(self).engine.inv(),
            final(self).machine == old(self).machine,
            final(self).engine@ == view_after_release(old(self).engine@),
            d == decision_for_release(old(self).engine@),
    {
        self.engine.emergency_release()
    }
}

} // verus!
