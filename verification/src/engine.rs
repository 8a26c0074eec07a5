//! The kill-switch engine.
//!
//! The engine owns the mode the user chose and the state derived from it. It
//! listens to the transitions of the connection machine and decides when the
//! firewall has to block or release all non-tunnel traffic. It performs no
//! I/O: every step returns a `Decision` that names the firewall operation to
//! run and the record to make durable, and the caller reports back how the
//! firewall answered.

use vstd::prelude::*;

use crate::error::Fault;
use crate::machine::Transition;
use crate::state::connection::Phase;
use crate::state::killswitch::{KillSwitchMode, KillSwitchState};

verus! {

/// How many times a failed block is retried before the engine gives up.
pub const MAX_APPLY_RETRIES: u8 = 3;

/// The firewall operation a step asks for.
#[derive(Debug, Clone, Copy, PartialEq, Eq, Structural)]
pub enum FirewallAction {
    /// Leave the firewall alone.
    Nothing,
    /// Drop all non-tunnel traffic.
    ApplyBlock,
    /// Let traffic through again.
    ReleaseBlock,
}

/// The durable record of the kill switch.
#[derive(Debug, Clone, Copy, PartialEq, Eq, Structural)]
pub struct PersistedRecord {
    /// The mode the user chose.
    pub mode: KillSwitchMode,
    /// The state that was in force.
    pub state: KillSwitchState,
    /// Counts the writes; later records carry larger revisions.
    pub revision: u64,
}

/// What the caller has to do after a step of the engine.
#[derive(Debug, Clone, Copy, PartialEq, Eq, Structural)]
pub struct Decision {
    /// The firewall operation to run.
    pub firewall: FirewallAction,
    /// The record to write before anything else happens, if there is one.
    pub record: Option<PersistedRecord>,
    /// A condition to show to the user, if there is one.
    pub fault: Option<Fault>,
}

/// The abstract state of the engine.
pub struct EngineView {
    /// The mode the user chose.
    pub mode: KillSwitchMode,
    /// The derived state.
    pub state: KillSwitchState,
    /// Revision of the last record handed out.
    pub revision: u64,
    /// Whether the firewall confirmed the block that `Blocking` stands for.
    pub enforced: bool,
    /// Failed attempts since the block was last asked for.
    pub failures: u8,
}

/// The invariant of the kill switch: it is disabled exactly when it is off.
pub open spec fn coherent(mode: KillSwitchMode, state: KillSwitchState) -> bool {
    (mode == KillSwitchMode::Off) <==> (state == KillSwitchState::Disabled)
}

/// What holds of the engine at all times: the kill switch is disabled
/// exactly when it is off, only a block that is in force can be confirmed,
/// and failures are counted up to the number of retries and not beyond.
pub open spec fn well_formed(v: EngineView) -> bool {
    &&& coherent(v.mode, v.state)
    &&& v.failures <= MAX_APPLY_RETRIES
    &&& v.enforced ==> v.state == KillSwitchState::Blocking
    &&& v.enforced ==> v.failures == 0
}

/// The revision that follows `revision`; it stops at the largest value.
pub open spec fn next_revision(revision: u64) -> u64 {
    if revision < u64::MAX {
        (revision + 1) as u64
    } else {
        revision
    }
}

/// The state a change of mode leads to.
///
/// Off disables. AlwaysOn blocks unless the tunnel is connected. Auto is armed
/// while connected; without a tunnel it keeps a block that is already in
/// force and raises none of its own.
pub open spec fn state_for_mode(
    mode: KillSwitchMode,
    phase: Phase,
    old_state: KillSwitchState,
) -> KillSwitchState {
    match mode {
        KillSwitchMode::Off => KillSwitchState::Disabled,
        KillSwitchMode::AlwaysOn => if phase == Phase::Connected {
            KillSwitchState::Armed
        } else {
            KillSwitchState::Blocking
        },
        KillSwitchMode::Auto => if phase != Phase::Connected && old_state
            == KillSwitchState::Blocking {
            KillSwitchState::Blocking
        } else {
            KillSwitchState::Armed
        },
    }
}

/// The state a transition of the connection leads to.
pub open spec fn state_after_event(
    mode: KillSwitchMode,
    state: KillSwitchState,
    t: Transition,
) -> KillSwitchState {
    match mode {
        KillSwitchMode::Off => state,
        KillSwitchMode::AlwaysOn => if t.to == Phase::Connected {
            KillSwitchState::Armed
        } else {
            KillSwitchState::Blocking
        },
        KillSwitchMode::Auto => if t.to == Phase::Connected {
            KillSwitchState::Armed
        } else if t.condition == Some(Fault::ConnectTimeout) {
            KillSwitchState::Blocking
        } else if t.from == Phase::Connected {
            if t.user_initiated {
                KillSwitchState::Armed
            } else {
                KillSwitchState::Blocking
            }
        } else {
            state
        },
    }
}

/// The firewall operation that takes the firewall from `old_state` to
/// `new_state`. A block that was never confirmed is asked for again.
pub open spec fn action_between(
    old_state: KillSwitchState,
    new_state: KillSwitchState,
    enforced: bool,
) -> FirewallAction {
    if new_state == KillSwitchState::Blocking {
        if old_state == KillSwitchState::Blocking && enforced {
            FirewallAction::Nothing
        } else {
            FirewallAction::ApplyBlock
        }
    } else if old_state == KillSwitchState::Blocking {
        FirewallAction::ReleaseBlock
    } else {
        FirewallAction::Nothing
    }
}

/// The state a loaded record resumes in: the mode is kept, and a state that
/// contradicts it gives way to the mode.
pub open spec fn resumed_state(record: PersistedRecord) -> KillSwitchState {
    if record.mode == KillSwitchMode::Off {
        KillSwitchState::Disabled
    } else if record.state == KillSwitchState::Disabled {
        KillSwitchState::Armed
    } else {
        record.state
    }
}

/// Whether a loaded record contradicts itself: its state is not one that its
/// mode allows.
pub open spec fn needs_repair(record: PersistedRecord) -> bool {
    resumed_state(record) != record.state
}

/// The engine as it resumes from what the store returned: off and disabled
/// without a record; otherwise mode and revision of the record, and its
/// state as far as it agrees with the mode. A record that had to be repaired
/// moves the revision on.
pub open spec fn view_resumed(loaded: Option<PersistedRecord>) -> EngineView {
    match loaded {
        None => EngineView {
            mode: KillSwitchMode::Off,
            state: KillSwitchState::Disabled,
            revision: 0,
            enforced: false,
            failures: 0,
        },
        Some(record) => EngineView {
            mode: record.mode,
            state: resumed_state(record),
            revision: if needs_repair(record) {
                next_revision(record.revision)
            } else {
                record.revision
            },
            enforced: false,
            failures: 0,
        },
    }
}

/// What is to be done on resuming.
///
/// A record that resumes blocking has the block applied again, one that said
/// blocking and resumes otherwise has it released. Where there was no record
/// the first one is written, and so is a record that had to be repaired.
pub open spec fn decision_on_resume(loaded: Option<PersistedRecord>) -> Decision {
    let resumed = view_resumed(loaded);
    Decision {
        firewall: match loaded {
            None => FirewallAction::Nothing,
            Some(record) => if resumed_state(record) == KillSwitchState::Blocking {
                FirewallAction::ApplyBlock
            } else if record.state == KillSwitchState::Blocking {
                FirewallAction::ReleaseBlock
            } else {
                FirewallAction::Nothing
            },
        },
        record: if loaded matches Some(record) && !needs_repair(record) {
            None
        } else {
            Some(
                PersistedRecord {
                    mode: resumed.mode,
                    state: resumed.state,
                    revision: resumed.revision,
                },
            )
        },
        fault: None,
    }
}

/// The engine after a change of mode.
pub open spec fn view_after_mode(old: EngineView, mode: KillSwitchMode, phase: Phase)
    -> EngineView {
    let state = state_for_mode(mode, phase, old.state);
    EngineView {
        mode,
        state,
        revision: next_revision(old.revision),
        enforced: old.enforced && state == KillSwitchState::Blocking,
        failures: 0,
    }
}

/// What is to be done after a change of mode: turning the kill switch off
/// always releases; the new state is always made durable.
pub open spec fn decision_for_mode(old: EngineView, mode: KillSwitchMode, phase: Phase)
    -> Decision {
    let after = view_after_mode(old, mode, phase);
    Decision {
        firewall: if mode == KillSwitchMode::Off {
            FirewallAction::ReleaseBlock
        } else {
            action_between(old.state, after.state, old.enforced)
        },
        record: Some(
            PersistedRecord { mode: after.mode, state: after.state, revision: after.revision },
        ),
        fault: None,
    }
}

/// The engine after a transition of the connection. The revision moves on
/// exactly when the state changed.
pub open spec fn view_after_event(old: EngineView, t: Transition) -> EngineView {
    let state = state_after_event(old.mode, old.state, t);
    EngineView {
        mode: old.mode,
        state,
        revision: if state != old.state {
            next_revision(old.revision)
        } else {
            old.revision
        },
        enforced: old.enforced && state == KillSwitchState::Blocking,
        failures: if state != old.state || action_between(old.state, state, old.enforced)
            == FirewallAction::ApplyBlock {
            0
        } else {
            old.failures
        },
    }
}

/// What is to be done after a transition of the connection. A record is
/// handed out exactly when the state changed.
pub open spec fn decision_for_event(old: EngineView, t: Transition) -> Decision {
    let after = view_after_event(old, t);
    Decision {
        firewall: action_between(old.state, after.state, old.enforced),
        record: if after.state != old.state {
            Some(PersistedRecord { mode: after.mode, state: after.state, revision: after.revision })
        } else {
            None
        },
        fault: None,
    }
}

/// The engine after the firewall answered an `ApplyBlock`.
///
/// The answer counts only while blocking. Success confirms the block. A
/// failure counts up to `MAX_APPLY_RETRIES`; the one after that moves the
/// revision on for the record that is handed out again.
pub open spec fn view_after_apply(old: EngineView, applied: bool) -> EngineView {
    if old.state != KillSwitchState::Blocking {
        old
    } else if applied {
        EngineView { enforced: true, failures: 0, ..old }
    } else if old.failures < MAX_APPLY_RETRIES {
        EngineView { enforced: false, failures: (old.failures + 1) as u8, ..old }
    } else {
        EngineView { enforced: false, revision: next_revision(old.revision), ..old }
    }
}

/// What is to be done after the firewall answered an `ApplyBlock`: nothing
/// after a success, another attempt after a failure, and after the last
/// failure the fault and the record that still says `Blocking`.
pub open spec fn decision_for_apply(old: EngineView, applied: bool) -> Decision {
    if old.state != KillSwitchState::Blocking || applied {
        Decision { firewall: FirewallAction::Nothing, record: None, fault: None }
    } else if old.failures < MAX_APPLY_RETRIES {
        Decision { firewall: FirewallAction::ApplyBlock, record: None, fault: None }
    } else {
        Decision {
            firewall: FirewallAction::Nothing,
            record: Some(
                PersistedRecord {
                    mode: old.mode,
                    state: KillSwitchState::Blocking,
                    revision: next_revision(old.revision),
                },
            ),
            fault: Some(Fault::FirewallApplyFailed),
        }
    }
}

/// The engine after an emergency release: off and disabled, whatever it was.
pub open spec fn view_after_release(old: EngineView) -> EngineView {
    EngineView {
        mode: KillSwitchMode::Off,
        state: KillSwitchState::Disabled,
        revision: next_revision(old.revision),
        enforced: false,
        failures: 0,
    }
}

/// What is to be done on an emergency release: release the block and reset
/// the record.
pub open spec fn decision_for_release(old: EngineView) -> Decision {
    Decision {
        firewall: FirewallAction::ReleaseBlock,
        record: Some(
            PersistedRecord {
                mode: KillSwitchMode::Off,
                state: KillSwitchState::Disabled,
                revision: next_revision(old.revision),
            },
        ),
        fault: None,
    }
}

/// The kill-switch engine.
#[derive(Debug)]
pub struct KillSwitchEngine {
    mode: KillSwitchMode,
    state: KillSwitchState,
    revision: u64,
    enforced: bool,
    failures: u8,
}

impl View for KillSwitchEngine {
    type V = EngineView;

    closed spec fn view(&self) -> EngineView {
        EngineView {
            mode: self.mode,
            state: self.state,
            revision: self.revision,
            enforced: self.enforced,
            failures: self.failures,
        }
    }
}

impl KillSwitchEngine {
    /// What holds of every engine: its view is well formed.
    #[verifier::type_invariant]
    pub open spec fn inv(&self) -> bool {
        well_formed(self@)
    }

    /// A fresh engine: off, disabled, nothing written yet.
    pub fn new() -> (e: KillSwitchEngine)
        ensures
            e@ == view_resumed(None),
            e.inv(),
    {
        KillSwitchEngine {
            mode: KillSwitchMode::Off,
            state: KillSwitchState::Disabled,
            revision: 0,
            enforced: false,
            failures: 0,
        }
    }

    /// Resume from what the store returned at startup.
    ///
    /// Without a record the engine starts off and disabled, and the first
    /// record is to be written. With one, mode and revision are taken over,
    /// and the state as far as it agrees with the mode. A record that says
    /// `Blocking` has the block applied again: a block that was in force
    /// before a restart is never trusted to have survived it. A record that
    /// says off but blocking has the block released.
    pub fn resume(loaded: Option<PersistedRecord>) -> (r: (KillSwitchEngine, Decision))
        ensures
            r.0@ == view_resumed(loaded),
            r.1 == decision_on_resume(loaded),
            r.0.inv(),
    {
        match loaded {
            None => (
                KillSwitchEngine::new(),
                Decision {
                    firewall: FirewallAction::Nothing,
                    record: Some(
                        PersistedRecord {
                            mode: KillSwitchMode::Off,
                            state: KillSwitchState::Disabled,
                            revision: 0,
                        },
                    ),
                    fault: None,
                },
            ),
            Some(record) => {
                let state = if record.mode == KillSwitchMode::Off {
                    KillSwitchState::Disabled
                } else if record.state == KillSwitchState::Disabled {
                    KillSwitchState::Armed
                } else {
                    record.state
                };
                let firewall = if state == KillSwitchState::Blocking {
                    FirewallAction::ApplyBlock
                } else if record.state == KillSwitchState::Blocking {
                    FirewallAction::ReleaseBlock
                } else {
                    FirewallAction::Nothing
                };
                let repaired = state != record.state;
                let revision = if repaired && record.revision < u64::MAX {
                    record.revision + 1
                } else {
                    record.revision
                };
                (
                    KillSwitchEngine {
                        mode: record.mode,
                        state,
                        revision,
                        enforced: false,
                        failures: 0,
                    },
                    Decision {
                        firewall,
                        record: if repaired {
                            Some(PersistedRecord { mode: record.mode, state, revision })
                        } else {
                            None
                        },
                        fault: None,
                    },
                )
            },
        }
    }

    /// The mode the user chose.
    pub fn mode(&self) -> (m: KillSwitchMode)
        ensures
            m == self@.mode,
            self.inv(),
    {
        proof {
            use_type_invariant(self);
        }
        self.mode
    }

    /// The derived state.
    pub fn state(&self) -> (s: KillSwitchState)
        ensures
            s == self@.state,
            self.inv(),
    {
        proof {
            use_type_invariant(self);
        }
        self.state
    }

    /// Revision of the last record handed out.
    pub fn revision(&self) -> (r: u64)
        ensures
            r == self@.revision,
    {
        self.revision
    }

    /// The record that describes the engine as it is.
    pub fn record(&self) -> (r: PersistedRecord)
        ensures
            r == (PersistedRecord {
                mode: self@.mode,
                state: self@.state,
                revision: self@.revision,
            }),
    {
        PersistedRecord { mode: self.mode, state: self.state, revision: self.revision }
    }

    /// Change the mode. Always legal.
    ///
    /// The state is computed anew from the mode and the phase of the
    /// connection. Turning the kill switch off releases the block whatever
    /// the state was. The result is always to be made durable.
    pub fn set_mode(&mut self, new_mode: KillSwitchMode, phase: Phase) -> (d: Decision)
        ensures
            final(self)@ == view_after_mode(old(self)@, new_mode, phase),
            d == decision_for_mode(old(self)@, new_mode, phase),
            final(self).inv(),
    {
        proof {
            use_type_invariant(&*self);
        }
        let old_state = self.state;
        let was_enforced = self.enforced;
        let connected = phase == Phase::Connected;
        let new_state = match new_mode {
            KillSwitchMode::Off => KillSwitchState::Disabled,
            KillSwitchMode::AlwaysOn => if connected {
                KillSwitchState::Armed
            } else {
                KillSwitchState::Blocking
            },
            KillSwitchMode::Auto => if !connected && old_state == KillSwitchState::Blocking {
                KillSwitchState::Blocking
            } else {
                KillSwitchState::Armed
            },
        };
        let firewall = if new_mode == KillSwitchMode::Off {
            FirewallAction::ReleaseBlock
        } else {
            firewall_between(old_state, new_state, was_enforced)
        };
        let revision = if self.revision < u64::MAX {
            self.revision + 1
        } else {
            self.revision
        };
        *self = KillSwitchEngine {
            mode: new_mode,
            state: new_state,
            revision,
            enforced: was_enforced && new_state == KillSwitchState::Blocking,
            failures: 0,
        };
        Decision {
            firewall,
            record: Some(PersistedRecord { mode: new_mode, state: new_state, revision }),
            fault: None,
        }
    }

    /// Move to the next mode of the cycle Off, Auto, AlwaysOn, Off.
    pub fn cycle_mode(&mut self, phase: Phase) -> (d: Decision)
        ensures
            final(self)@ == view_after_mode(old(self)@, old(self)@.mode.spec_next(), phase),
            d == decision_for_mode(old(self)@, old(self)@.mode.spec_next(), phase),
            final(self).inv(),
    {
        let next = self.mode.next();
        self.set_mode(next, phase)
    }

    /// React to a transition of the connection machine.
    ///
    /// Off: nothing happens. Entering `Connected` arms the kill switch and
    /// releases a block. In AlwaysOn every other phase blocks. In Auto a
    /// connect timeout blocks, and leaving `Connected` blocks unless the user
    /// asked for it; other transitions leave the state as it is. A record is
    /// handed out exactly when the state changed.
    pub fn on_connection_event(&mut self, event: Transition) -> (d: Decision)
        ensures
            final(self)@ == view_after_event(old(self)@, event),
            d == decision_for_event(old(self)@, event),
            final(self).inv(),
    {
        proof {
            use_type_invariant(&*self);
        }
        let old_state = self.state;
        let was_enforced = self.enforced;
        let entering_connected = event.to == Phase::Connected;
        let new_state = match self.mode {
            KillSwitchMode::Off => old_state,
            KillSwitchMode::AlwaysOn => if entering_connected {
                KillSwitchState::Armed
            } else {
                KillSwitchState::Blocking
            },
            KillSwitchMode::Auto => if entering_connected {
                KillSwitchState::Armed
            } else if is_connect_timeout(event.condition) {
                KillSwitchState::Blocking
            } else if event.from == Phase::Connected {
                if event.user_initiated {
                    KillSwitchState::Armed
                } else {
                    KillSwitchState::Blocking
                }
            } else {
                old_state
            },
        };
        let firewall = firewall_between(old_state, new_state, was_enforced);
        let changed = new_state != old_state;
        let revision = if changed && self.revision < u64::MAX {
            self.revision + 1
        } else {
            self.revision
        };
        let failures = if changed || firewall == FirewallAction::ApplyBlock {
            0
        } else {
            self.failures
        };
        let mode = self.mode;
        *self = KillSwitchEngine {
            mode,
            state: new_state,
            revision,
            enforced: was_enforced && new_state == KillSwitchState::Blocking,
            failures,
        };
        Decision {
            firewall,
            record: if changed {
                Some(PersistedRecord { mode, state: new_state, revision })
            } else {
                None
            },
            fault: None,
        }
    }

    /// Take in the firewall's answer to an `ApplyBlock`.
    ///
    /// The answer counts only while the engine is blocking. Success confirms
    /// the block. A failure is answered with another `ApplyBlock` until
    /// `MAX_APPLY_RETRIES` retries have failed; then `FirewallApplyFailed` is
    /// reported and the record, still saying `Blocking`, is handed out again so
    /// that a later step or a restart tries once more. Mode and state never
    /// change here.
    pub fn on_apply_result(&mut self, applied: bool) -> (d: Decision)
        ensures
            final(self)@ == view_after_apply(old(self)@, applied),
            d == decision_for_apply(old(self)@, applied),
            final(self).inv(),
    {
        proof {
            use_type_invariant(&*self);
        }
        let quiet = Decision { firewall: FirewallAction::Nothing, record: None, fault: None };
        if self.state != KillSwitchState::Blocking {
            return quiet;
        }
        let mode = self.mode;
        let revision = self.revision;
        let failures = self.failures;
        if applied {
            *self = KillSwitchEngine {
                mode,
                state: KillSwitchState::Blocking,
                revision,
                enforced: true,
                failures: 0,
            };
            quiet
        } else if failures < MAX_APPLY_RETRIES {
            *self = KillSwitchEngine {
                mode,
                state: KillSwitchState::Blocking,
                revision,
                enforced: false,
                failures: failures + 1,
            };
            Decision { firewall: FirewallAction::ApplyBlock, record: None, fault: None }
        } else {
            let bumped = if revision < u64::MAX {
                revision + 1
            } else {
                revision
            };
            *self = KillSwitchEngine {
                mode,
                state: KillSwitchState::Blocking,
                revision: bumped,
                enforced: false,
                failures,
            };
            Decision {
                firewall: FirewallAction::Nothing,
                record: Some(
                    PersistedRecord { mode, state: KillSwitchState::Blocking, revision: bumped },
                ),
                fault: Some(Fault::FirewallApplyFailed),
            }
        }
    }

    /// Take in whether the record of the last decision could be written. A
    /// record that could not be written is reported: after a crash the kill
    /// switch would not come back as it was. The engine stays as it is.
    pub fn on_save_result(&self, saved: bool) -> (fault: Option<Fault>)
        ensures
            fault == if saved {
                None
            } else {
                Some(Fault::PersistenceWriteFailed)
            },
            self.inv(),
    {
        proof {
            use_type_invariant(self);
        }
        if saved {
            None
        } else {
            Some(Fault::PersistenceWriteFailed)
        }
    }

    /// Release whatever block there is and turn the kill switch off.
    ///
    /// Safe from every state and as often as wanted: the engine ends off and
    /// disabled, the firewall is told to release, and the record is reset.
    pub fn emergency_release(&mut self) -> (d: Decision)
        ensures
            final(self)@ == view_after_release(old(self)@),
            d == decision_for_release(old(self)@),
            final(self).inv(),
    {
        let revision = if self.revision < u64::MAX {
            self.revision + 1
        } else {
            self.revision
        };
        *self = KillSwitchEngine {
            mode: KillSwitchMode::Off,
            state: KillSwitchState::Disabled,
            revision,
            enforced: false,
            failures: 0,
        };
        Decision {
            firewall: FirewallAction::ReleaseBlock,
            record: Some(
                PersistedRecord {
                    mode: KillSwitchMode::Off,
                    state: KillSwitchState::Disabled,
                    revision,
                },
            ),
            fault: None,
        }
    }
}

/// Whether the condition of a transition is a connect timeout.
fn is_connect_timeout(condition: Option<Fault>) -> (b: bool)
    ensures
        b == (condition == Some(Fault::ConnectTimeout)),
{
    match condition {
        Some(Fault::ConnectTimeout) => true,
        _ => false,
    }
}

/// The firewall operation between two states; see `action_between`.
fn firewall_between(old_state: KillSwitchState, new_state: KillSwitchState, enforced: bool) -> (a:
    FirewallAction)
    ensures
        a == action_between(old_state, new_state, enforced),
{
    if new_state == KillSwitchState::Blocking {
        if old_state == KillSwitchState::Blocking && enforced {
            FirewallAction::Nothing
        } else {
            FirewallAction::ApplyBlock
        }
    } else if old_state == KillSwitchState::Blocking {
        FirewallAction::ReleaseBlock
    } else {
        FirewallAction::Nothing
    }
}

} // verus!
