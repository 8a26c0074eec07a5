//! The connection state machine.
//!
//! The machine owns the connection state. User requests move it into the
//! optimistic phases; observations of the real system resolve them. What the
//! scanner saw always wins over what the machine believed.

use vstd::prelude::*;

use crate::error::Fault;
use crate::state::connection::{ConnectionState, DetailedConnectionInfo, Phase};

verus! {

/// Default budget for a connection attempt, in milliseconds.
pub const DEFAULT_CONNECT_BUDGET_MS: u64 = 30_000;

/// Default budget for a disconnection, in milliseconds.
pub const DEFAULT_DISCONNECT_BUDGET_MS: u64 = 15_000;

/// A tunnel the scanner found on the system.
#[derive(Clone, Debug, PartialEq)]
pub struct TunnelReport {
    /// Profile the tunnel belongs to.
    pub profile: String,
    /// Whether the tunnel completed a handshake recently.
    pub handshaking: bool,
    /// Geographic location of the server.
    pub server_location: String,
    /// Measured latency in milliseconds.
    pub latency_ms: u64,
    /// Details of the tunnel interface.
    pub details: DetailedConnectionInfo,
}

/// What one scanner tick observed.
///
/// Errors and ambiguous results are reported as `NoTunnel`: uncertainty counts
/// as "not connected".
#[derive(Clone, Debug, PartialEq)]
pub enum Snapshot {
    /// No tunnel was observed, and nothing is bringing one up.
    NoTunnel,
    /// No tunnel was observed yet, but the supervised process that brings it
    /// up is still running.
    Pending,
    /// A tunnel was observed.
    Tunnel(TunnelReport),
}

/// One change of phase, as reported to whoever listens to the machine.
#[derive(Debug, Clone, Copy, PartialEq, Eq, Structural)]
pub struct Transition {
    /// Phase before the change.
    pub from: Phase,
    /// Phase after the change.
    pub to: Phase,
    /// Whether the user asked for the change.
    pub user_initiated: bool,
    /// The timeout that forced the change, if one did.
    pub condition: Option<Fault>,
}

/// Milliseconds from `started` to `now`; zero if the clock did not advance.
pub open spec fn elapsed_ms(started: u64, now: u64) -> int {
    if now >= started {
        now - started
    } else {
        0
    }
}

/// Whether the snapshot shows a tunnel that belongs to `profile`.
///
/// A tunnel of another profile counts as no tunnel.
pub open spec fn shows_tunnel_for(snapshot: Snapshot, profile: Seq<char>) -> bool {
    snapshot matches Snapshot::Tunnel(report) && report.profile@ == profile
}

/// Whether the snapshot leaves a connection attempt for `profile` open: the
/// tunnel is still being brought up, or it is there and has not completed a
/// handshake yet.
pub open spec fn awaits(snapshot: Snapshot, profile: Seq<char>) -> bool {
    snapshot is Pending || shows_tunnel_for(snapshot, profile)
}

/// Whether the snapshot confirms a connection attempt for `profile`.
pub open spec fn confirms(snapshot: Snapshot, profile: Seq<char>) -> bool {
    snapshot matches Snapshot::Tunnel(report) && report.profile@ == profile && report.handshaking
}

/// The state that follows `state` when `snapshot` is observed at `now`.
///
/// What the scanner saw wins over what the machine believed. A connection
/// attempt is confirmed by a tunnel of its profile that completed a
/// handshake; it is given up when the snapshot shows that nothing is coming,
/// or when its budget is used up. A connection ends when its tunnel is no
/// longer seen. A disconnection completes when the tunnel is gone, and is
/// forced when its budget is used up. A disconnected machine stays so.
pub open spec fn state_after_observe(
    state: ConnectionState,
    snapshot: Snapshot,
    now: u64,
    connect_budget_ms: u64,
    disconnect_budget_ms: u64,
) -> ConnectionState {
    match state {
        ConnectionState::Disconnected => ConnectionState::Disconnected,
        ConnectionState::Connecting { started, profile } => {
            if confirms(snapshot, profile@) {
                ConnectionState::Connected {
                    since: now,
                    profile: profile,
                    server_location: snapshot->Tunnel_0.server_location,
                    latency_ms: snapshot->Tunnel_0.latency_ms,
                    details: Box::new(snapshot->Tunnel_0.details),
                }
            } else if !awaits(snapshot, profile@) || elapsed_ms(started, now)
                > connect_budget_ms {
                ConnectionState::Disconnected
            } else {
                state
            }
        },
        ConnectionState::Connected { since, profile, .. } => {
            if shows_tunnel_for(snapshot, profile@) {
                ConnectionState::Connected {
                    since: since,
                    profile: profile,
                    server_location: snapshot->Tunnel_0.server_location,
                    latency_ms: snapshot->Tunnel_0.latency_ms,
                    details: Box::new(snapshot->Tunnel_0.details),
                }
            } else {
                ConnectionState::Disconnected
            }
        },
        ConnectionState::Disconnecting { started, profile } => {
            if !shows_tunnel_for(snapshot, profile@) || elapsed_ms(started, now)
                > disconnect_budget_ms {
                ConnectionState::Disconnected
            } else {
                state
            }
        },
    }
}

/// The timeout, if any, that `snapshot` at `now` brings to light in `state`.
pub open spec fn timeout_on_observe(
    state: ConnectionState,
    snapshot: Snapshot,
    now: u64,
    connect_budget_ms: u64,
    disconnect_budget_ms: u64,
) -> Option<Fault> {
    match state {
        ConnectionState::Connecting { started, profile } => {
            if !confirms(snapshot, profile@) && elapsed_ms(started, now) > connect_budget_ms {
                Some(Fault::ConnectTimeout)
            } else {
                None
            }
        },
        ConnectionState::Disconnecting { started, profile } => {
            if shows_tunnel_for(snapshot, profile@) && elapsed_ms(started, now)
                > disconnect_budget_ms {
                Some(Fault::DisconnectTimeout)
            } else {
                None
            }
        },
        _ => None,
    }
}

/// The connection state machine: the state and the two timeout budgets.
#[derive(Clone, Debug)]
pub struct ConnectionMachine {
    /// The authoritative connection state.
    pub state: ConnectionState,
    /// How long a connection attempt may stay unconfirmed, in milliseconds.
    pub connect_budget_ms: u64,
    /// How long a disconnection may take, in milliseconds.
    pub disconnect_budget_ms: u64,
}

impl ConnectionMachine {
    /// A machine in `Disconnected` with the default budgets.
    pub fn new() -> (m: ConnectionMachine)
        ensures
            m.state == ConnectionState::Disconnected,
            m.connect_budget_ms == DEFAULT_CONNECT_BUDGET_MS,
            m.disconnect_budget_ms == DEFAULT_DISCONNECT_BUDGET_MS,
    {
        ConnectionMachine {
            state: ConnectionState::Disconnected,
            connect_budget_ms: DEFAULT_CONNECT_BUDGET_MS,
            disconnect_budget_ms: DEFAULT_DISCONNECT_BUDGET_MS,
        }
    }

    /// A machine in `Disconnected` with the given budgets.
    pub fn with_budgets(connect_budget_ms: u64, disconnect_budget_ms: u64) -> (m:
        ConnectionMachine)
        ensures
            m.state == ConnectionState::Disconnected,
            m.connect_budget_ms == connect_budget_ms,
            m.disconnect_budget_ms == disconnect_budget_ms,
    {
        ConnectionMachine {
            state: ConnectionState::Disconnected,
            connect_budget_ms,
            disconnect_budget_ms,
        }
    }

    /// Ask for a connection to `profile`.
    ///
    /// Legal only from `Disconnected`. On success the machine is `Connecting`
    /// since `now`; otherwise nothing changes and `InvalidTransition` is
    /// returned.
    pub fn request_connect(&mut self, profile: String, now: u64) -> (r: Result<Transition, Fault>)
        ensures
            final(self).connect_budget_ms == old(self).connect_budget_ms,
            final(self).disconnect_budget_ms == old(self).disconnect_budget_ms,
            old(self).state.phase() == Phase::Disconnected ==> {
                &&& final(self).state == (ConnectionState::Connecting { started: now, profile })
                &&& r == Ok::<Transition, Fault>(
                    Transition {
                        from: Phase::Disconnected,
                        to: Phase::Connecting,
                        user_initiated: true,
                        condition: None,
                    },
                )
            },
            old(self).state.phase() != Phase::Disconnected ==> {
                &&& final(self).state == old(self).state
                &&& r == Err::<Transition, Fault>(Fault::InvalidTransition)
            },
    {
        match self.state.phase() {
            Phase::Disconnected => {
                self.state = ConnectionState::Connecting { started: now, profile };
                Ok(
                    Transition {
                        from: Phase::Disconnected,
                        to: Phase::Connecting,
                        user_initiated: true,
                        condition: None,
                    },
                )
            },
            _ => Err(Fault::InvalidTransition),
        }
    }

    /// Ask for the connection to be taken down.
    ///
    /// Legal from `Connecting` and `Connected`. On success the machine is
    /// `Disconnecting` since `now`, for the same profile, and the transition is
    /// marked as asked for by the user; otherwise nothing changes and
    /// `InvalidTransition` is returned.
    pub fn request_disconnect(&mut self, now: u64) -> (r: Result<Transition, Fault>)
        ensures
            final(self).connect_budget_ms == old(self).connect_budget_ms,
            final(self).disconnect_budget_ms == old(self).disconnect_budget_ms,
            (old(self).state.phase() == Phase::Connecting || old(self).state.phase()
                == Phase::Connected) ==> {
                &&& final(self).state.phase() == Phase::Disconnecting
                &&& final(self).state->Disconnecting_started == now
                &&& final(self).state->Disconnecting_profile@ == old(self).state.spec_profile()
                &&& r == Ok::<Transition, Fault>(
                    Transition {
                        from: old(self).state.phase(),
                        to: Phase::Disconnecting,
                        user_initiated: true,
                        condition: None,
                    },
                )
            },
            (old(self).state.phase() == Phase::Disconnected || old(self).state.phase()
                == Phase::Disconnecting) ==> {
                &&& final(self).state == old(self).state
                &&& r == Err::<Transition, Fault>(Fault::InvalidTransition)
            },
    {
        let from = self.state.phase();
        let name = match &self.state {
            ConnectionState::Connecting { profile, .. } => profile.clone(),
            ConnectionState::Connected { profile, .. } => profile.clone(),
            _ => {
                return Err(Fault::InvalidTransition);
            },
        };
        self.state = ConnectionState::Disconnecting { started: now, profile: name };
        Ok(Transition { from, to: Phase::Disconnecting, user_initiated: true, condition: None })
    }

    /// Reconcile the machine with what the scanner saw at `now`.
    ///
    /// The new state is `state_after_observe` of the old one. A transition is
    /// returned exactly when the phase changed; it carries the timeout that
    /// forced it, if one did, and is marked as asked for by the user exactly
    /// when a disconnection completed.
    pub fn observe(&mut self, snapshot: Snapshot, now: u64) -> (r: Option<Transition>)
        ensures
            final(self).connect_budget_ms == old(self).connect_budget_ms,
            final(self).disconnect_budget_ms == old(self).disconnect_budget_ms,
            final(self).state == state_after_observe(
                old(self).state,
                snapshot,
                now,
                old(self).connect_budget_ms,
                old(self).disconnect_budget_ms,
            ),
            final(self).state.phase() == old(self).state.phase() <==> r is None,
            r matches Some(t) ==> {
                &&& t.from == old(self).state.phase()
                &&& t.to == final(self).state.phase()
                &&& t.user_initiated == (old(self).state.phase() == Phase::Disconnecting)
                &&& t.condition == timeout_on_observe(
                    old(self).state,
                    snapshot,
                    now,
                    old(self).connect_budget_ms,
                    old(self).disconnect_budget_ms,
                )
            },
    {
        let elapsed_limit_connect = self.connect_budget_ms;
        let elapsed_limit_disconnect = self.disconnect_budget_ms;
        let mut current = ConnectionState::Disconnected;
        std::mem::swap(&mut self.state, &mut current);
        match current {
            ConnectionState::Disconnected => None,
            ConnectionState::Connecting { started, profile } => {
                let overdue = elapsed(started, now) > elapsed_limit_connect;
                match snapshot {
                    Snapshot::Tunnel(report) => {
                        if report.profile == profile {
                            if report.handshaking {
                                self.state = ConnectionState::Connected {
                                    since: now,
                                    profile,
                                    server_location: report.server_location,
                                    latency_ms: report.latency_ms,
                                    details: Box::new(report.details),
                                };
                                Some(
                                    Transition {
                                        from: Phase::Connecting,
                                        to: Phase::Connected,
                                        user_initiated: false,
                                        condition: None,
                                    },
                                )
                            } else if overdue {
                                Some(
                                    Transition {
                                        from: Phase::Connecting,
                                        to: Phase::Disconnected,
                                        user_initiated: false,
                                        condition: Some(Fault::ConnectTimeout),
                                    },
                                )
                            } else {
                                self.state = ConnectionState::Connecting { started, profile };
                                None
                            }
                        } else {
                            Some(
                                Transition {
                                    from: Phase::Connecting,
                                    to: Phase::Disconnected,
                                    user_initiated: false,
                                    condition: if overdue {
                                        Some(Fault::ConnectTimeout)
                                    } else {
                                        None
                                    },
                                },
                            )
                        }
                    },
                    Snapshot::Pending => {
                        if overdue {
                            Some(
                                Transition {
                                    from: Phase::Connecting,
                                    to: Phase::Disconnected,
                                    user_initiated: false,
                                    condition: Some(Fault::ConnectTimeout),
                                },
                            )
                        } else {
                            self.state = ConnectionState::Connecting { started, profile };
                            None
                        }
                    },
                    Snapshot::NoTunnel => Some(
                        Transition {
                            from: Phase::Connecting,
                            to: Phase::Disconnected,
                            user_initiated: false,
                            condition: if overdue {
                                Some(Fault::ConnectTimeout)
                            } else {
                                None
                            },
                        },
                    ),
                }
            },
            ConnectionState::Connected { since, profile, server_location, latency_ms, details } => {
                match snapshot {
                    Snapshot::Tunnel(report) => {
                        if report.profile == profile {
                            self.state = ConnectionState::Connected {
                                since,
                                profile,
                                server_location: report.server_location,
                                latency_ms: report.latency_ms,
                                details: Box::new(report.details),
                            };
                            None
                        } else {
                            Some(
                                Transition {
                                    from: Phase::Connected,
                                    to: Phase::Disconnected,
                                    user_initiated: false,
                                    condition: None,
                                },
                            )
                        }
                    },
                    _ => Some(
                        Transition {
                            from: Phase::Connected,
                            to: Phase::Disconnected,
                            user_initiated: false,
                            condition: None,
                        },
                    ),
                }
            },
            ConnectionState::Disconnecting { started, profile } => {
                let overdue = elapsed(started, now) > elapsed_limit_disconnect;
                let still_up = match &snapshot {
                    Snapshot::Tunnel(report) => report.profile == profile,
                    _ => false,
                };
                if !still_up {
                    Some(
                        Transition {
                            from: Phase::Disconnecting,
                            to: Phase::Disconnected,
                            user_initiated: true,
                            condition: None,
                        },
                    )
                } else if overdue {
                    Some(
                        Transition {
                            from: Phase::Disconnecting,
                            to: Phase::Disconnected,
                            user_initiated: true,
                            condition: Some(Fault::DisconnectTimeout),
                        },
                    )
                } else {
                    self.state = ConnectionState::Disconnecting { started, profile };
                    None
                }
            },
        }
    }
}

/// Milliseconds from `started` to `now`, zero if the clock did not advance.
pub fn elapsed(started: u64, now: u64) -> (d: u64)
    ensures
        d == elapsed_ms(started, now),
{
    if now >= started {
        now - started
    } else {
        0
    }
}

} // verus!
