use vortix::controller::{Controller, Input};
use vortix::engine::{Decision, FirewallAction, KillSwitchEngine, PersistedRecord};
use vortix::error::Fault;
use vortix::machine::{ConnectionMachine, Snapshot, Transition, TunnelReport};
use vortix::state::connection::{ConnectionState, DetailedConnectionInfo, Phase};
use vortix::state::killswitch::{KillSwitchMode, KillSwitchState};
use vortix::store::{decode_record, encode_record};

fn report(profile: &str, handshaking: bool) -> Snapshot {
    Snapshot::Tunnel(TunnelReport {
        profile: profile.to_string(),
        handshaking,
        server_location: "Amsterdam, NL".to_string(),
        latency_ms: 23,
        details: DetailedConnectionInfo::default(),
    })
}

fn connected_controller(mode: KillSwitchMode) -> Controller {
    let (mut c, _) = Controller::start(None);
    c.set_mode(mode);
    c.request_connect("nl-01".to_string(), 1_000).unwrap();
    c.observe(report("nl-01", true), 2_000);
    assert_eq!(c.machine.state.phase(), Phase::Connected);
    assert_eq!(c.engine.state(), KillSwitchState::Armed);
    c
}

#[test]
fn test_mode_cycle() {
    assert_eq!(KillSwitchMode::Off.next(), KillSwitchMode::Auto);
    assert_eq!(KillSwitchMode::Auto.next(), KillSwitchMode::AlwaysOn);
    assert_eq!(KillSwitchMode::AlwaysOn.next(), KillSwitchMode::Off);
}

#[test]
fn test_state_is_blocking() {
    assert!(!KillSwitchState::Disabled.is_blocking());
    assert!(!KillSwitchState::Armed.is_blocking());
    assert!(KillSwitchState::Blocking.is_blocking());
}

#[test]
fn defaults_are_off_and_disabled() {
    assert_eq!(KillSwitchMode::default(), KillSwitchMode::Off);
    assert_eq!(KillSwitchState::default(), KillSwitchState::Disabled);
    assert_eq!(ConnectionState::default(), ConnectionState::Disconnected);
    let e = KillSwitchEngine::new();
    assert_eq!(e.mode(), KillSwitchMode::Off);
    assert_eq!(e.state(), KillSwitchState::Disabled);
    assert_eq!(e.revision(), 0);
}

#[test]
fn invariant_holds_after_every_step() {
    let modes = [KillSwitchMode::Off, KillSwitchMode::Auto, KillSwitchMode::AlwaysOn];
    let phases = [Phase::Disconnected, Phase::Connecting, Phase::Connected, Phase::Disconnecting];
    let conditions = [None, Some(Fault::ConnectTimeout), Some(Fault::DisconnectTimeout)];
    for m0 in modes {
        for m1 in modes {
            for p in phases {
                for from in phases {
                    for to in phases {
                        for user in [false, true] {
                            for cond in conditions {
                                let mut e = KillSwitchEngine::new();
                                e.set_mode(m0, p);
                                e.set_mode(m1, p);
                                assert_eq!(
                                    e.mode() == KillSwitchMode::Off,
                                    e.state() == KillSwitchState::Disabled
                                );
                                e.on_connection_event(Transition {
                                    from,
                                    to,
                                    user_initiated: user,
                                    condition: cond,
                                });
                                assert_eq!(
                                    e.mode() == KillSwitchMode::Off,
                                    e.state() == KillSwitchState::Disabled
                                );
                                e.on_apply_result(false);
                                assert_eq!(
                                    e.mode() == KillSwitchMode::Off,
                                    e.state() == KillSwitchState::Disabled
                                );
                            }
                        }
                    }
                }
            }
        }
    }
}

#[test]
fn always_on_blocks_when_tunnel_is_killed() {
    let mut c = connected_controller(KillSwitchMode::AlwaysOn);
    let d = c.observe(Snapshot::NoTunnel, 3_000);
    assert_eq!(c.machine.state, ConnectionState::Disconnected);
    assert_eq!(c.engine.state(), KillSwitchState::Blocking);
    assert_eq!(d.firewall, FirewallAction::ApplyBlock);
    assert_eq!(d.fault, None);
    assert_eq!(
        d.record,
        Some(PersistedRecord {
            mode: KillSwitchMode::AlwaysOn,
            state: KillSwitchState::Blocking,
            revision: c.engine.revision(),
        })
    );
    // The block is applied once: confirmed, later ticks ask for nothing.
    assert_eq!(
        c.engine.on_apply_result(true),
        Decision { firewall: FirewallAction::Nothing, record: None, fault: None }
    );
    let again = c.observe(Snapshot::NoTunnel, 4_000);
    assert_eq!(again, Decision { firewall: FirewallAction::Nothing, record: None, fault: None });
    assert_eq!(c.engine.state(), KillSwitchState::Blocking);
}

#[test]
fn auto_deliberate_disconnect_stays_armed() {
    let mut c = connected_controller(KillSwitchMode::Auto);
    let d1 = c.request_disconnect(3_000).unwrap();
    assert_eq!(c.machine.state.phase(), Phase::Disconnecting);
    assert_eq!(c.engine.state(), KillSwitchState::Armed);
    assert_eq!(d1.firewall, FirewallAction::Nothing);
    let d2 = c.observe(Snapshot::NoTunnel, 4_000);
    assert_eq!(c.machine.state, ConnectionState::Disconnected);
    assert_eq!(c.engine.state(), KillSwitchState::Armed);
    assert_eq!(d2.firewall, FirewallAction::Nothing);
    assert_eq!(d2.fault, None);
}

#[test]
fn auto_unexpected_drop_blocks() {
    let mut c = connected_controller(KillSwitchMode::Auto);
    let d = c.observe(Snapshot::NoTunnel, 3_000);
    assert_eq!(c.machine.state, ConnectionState::Disconnected);
    assert_eq!(c.engine.state(), KillSwitchState::Blocking);
    assert_eq!(d.firewall, FirewallAction::ApplyBlock);
}

#[test]
fn tunnel_of_another_profile_counts_as_no_tunnel() {
    let mut c = connected_controller(KillSwitchMode::Auto);
    let d = c.observe(report("de-02", true), 3_000);
    assert_eq!(c.machine.state, ConnectionState::Disconnected);
    assert_eq!(d.firewall, FirewallAction::ApplyBlock);
}

#[test]
fn emergency_release_from_every_state() {
    // mid-Blocking
    let mut c = connected_controller(KillSwitchMode::AlwaysOn);
    c.observe(Snapshot::NoTunnel, 3_000);
    assert_eq!(c.engine.state(), KillSwitchState::Blocking);
    let before = c.engine.revision();
    let d = c.emergency_release();
    assert_eq!(c.engine.mode(), KillSwitchMode::Off);
    assert_eq!(c.engine.state(), KillSwitchState::Disabled);
    assert_eq!(d.firewall, FirewallAction::ReleaseBlock);
    assert_eq!(
        d.record,
        Some(PersistedRecord {
            mode: KillSwitchMode::Off,
            state: KillSwitchState::Disabled,
            revision: before + 1,
        })
    );
    // again: idempotent
    let d = c.emergency_release();
    assert_eq!(c.engine.mode(), KillSwitchMode::Off);
    assert_eq!(c.engine.state(), KillSwitchState::Disabled);
    assert_eq!(d.firewall, FirewallAction::ReleaseBlock);

    // mid-Connecting
    let (mut c, _) = Controller::start(None);
    c.set_mode(KillSwitchMode::AlwaysOn);
    c.request_connect("nl-01".to_string(), 10).unwrap();
    assert_eq!(c.engine.state(), KillSwitchState::Blocking);
    let d = c.emergency_release();
    assert_eq!(c.engine.mode(), KillSwitchMode::Off);
    assert_eq!(c.engine.state(), KillSwitchState::Disabled);
    assert_eq!(d.firewall, FirewallAction::ReleaseBlock);
    assert_eq!(c.machine.state.phase(), Phase::Connecting);
}

#[test]
fn restart_reapplies_persisted_block() {
    let saved = PersistedRecord {
        mode: KillSwitchMode::AlwaysOn,
        state: KillSwitchState::Blocking,
        revision: 7,
    };
    let bytes = encode_record(&saved);
    assert_eq!(bytes.len(), 14);
    assert_eq!(bytes, vec![0x56, 0x4b, 0x53, 0x31, 2, 2, 7, 0, 0, 0, 0, 0, 0, 0]);
    let loaded = decode_record(&bytes);
    assert_eq!(loaded, Some(saved));
    let (c, d) = Controller::start(loaded);
    assert_eq!(d.firewall, FirewallAction::ApplyBlock);
    assert_eq!(c.engine.mode(), KillSwitchMode::AlwaysOn);
    assert_eq!(c.engine.state(), KillSwitchState::Blocking);
    assert_eq!(c.engine.revision(), 7);
    assert_eq!(c.machine.state, ConnectionState::Disconnected);
}

#[test]
fn fresh_install_loads_nothing() {
    assert_eq!(decode_record(&[]), None);
    let (engine, d) = KillSwitchEngine::resume(None);
    assert_eq!(engine.mode(), KillSwitchMode::Off);
    assert_eq!(engine.state(), KillSwitchState::Disabled);
    // the first record is created
    assert_eq!(
        d,
        Decision {
            firewall: FirewallAction::Nothing,
            record: Some(PersistedRecord {
                mode: KillSwitchMode::Off,
                state: KillSwitchState::Disabled,
                revision: 0
            }),
            fault: None
        }
    );
    // a record that is there and sound is not written again
    let (_, d) = KillSwitchEngine::resume(Some(PersistedRecord {
        mode: KillSwitchMode::Auto,
        state: KillSwitchState::Armed,
        revision: 4,
    }));
    assert_eq!(d, Decision { firewall: FirewallAction::Nothing, record: None, fault: None });
}

#[test]
fn decode_rejects_malformed_frames() {
    let good = encode_record(&PersistedRecord {
        mode: KillSwitchMode::Auto,
        state: KillSwitchState::Armed,
        revision: 0x0102_0304_0506_0708,
    });
    assert_eq!(good, vec![0x56, 0x4b, 0x53, 0x31, 1, 1, 8, 7, 6, 5, 4, 3, 2, 1]);
    let mut short = good.clone();
    short.pop();
    assert_eq!(decode_record(&short), None);
    let mut long = good.clone();
    long.push(0);
    assert_eq!(decode_record(&long), None);
    let mut tag = good.clone();
    tag[0] = 0x57;
    assert_eq!(decode_record(&tag), None);
    let mut mode = good.clone();
    mode[4] = 3;
    assert_eq!(decode_record(&mode), None);
    let mut state = good.clone();
    state[5] = 9;
    assert_eq!(decode_record(&state), None);
}

#[test]
fn resume_repairs_contradicting_record() {
    let (e, d) = KillSwitchEngine::resume(Some(PersistedRecord {
        mode: KillSwitchMode::Off,
        state: KillSwitchState::Blocking,
        revision: 3,
    }));
    assert_eq!(e.state(), KillSwitchState::Disabled);
    assert_eq!(d.firewall, FirewallAction::ReleaseBlock);
    assert_eq!(
        d.record,
        Some(PersistedRecord {
            mode: KillSwitchMode::Off,
            state: KillSwitchState::Disabled,
            revision: 4
        })
    );
    assert_eq!(e.revision(), 4);
    let (e, d) = KillSwitchEngine::resume(Some(PersistedRecord {
        mode: KillSwitchMode::Auto,
        state: KillSwitchState::Disabled,
        revision: 3,
    }));
    assert_eq!(e.state(), KillSwitchState::Armed);
    assert_eq!(d.firewall, FirewallAction::Nothing);
}

#[test]
fn overdue_connecting_times_out() {
    let mut m = ConnectionMachine::with_budgets(30_000, 15_000);
    m.request_connect("nl-01".to_string(), 1_000).unwrap();
    // present but not handshaking, within budget: still connecting
    assert_eq!(m.observe(report("nl-01", false), 31_000), None);
    assert_eq!(m.state.phase(), Phase::Connecting);
    // one millisecond over the budget
    let t = m.observe(report("nl-01", false), 31_001);
    assert_eq!(
        t,
        Some(Transition {
            from: Phase::Connecting,
            to: Phase::Disconnected,
            user_initiated: false,
            condition: Some(Fault::ConnectTimeout),
        })
    );
    assert_eq!(m.state, ConnectionState::Disconnected);
}

#[test]
fn connect_timeout_blocks_in_auto() {
    let (mut c, _) = Controller::start(None);
    c.set_mode(KillSwitchMode::Auto);
    c.request_connect("nl-01".to_string(), 0).unwrap();
    assert_eq!(c.engine.state(), KillSwitchState::Armed);
    let d = c.observe(report("nl-01", false), 40_000);
    assert_eq!(d.fault, Some(Fault::ConnectTimeout));
    assert_eq!(d.firewall, FirewallAction::ApplyBlock);
    assert_eq!(c.engine.state(), KillSwitchState::Blocking);
}

#[test]
fn disconnect_timeout_is_reported() {
    let mut m = ConnectionMachine::new();
    m.request_connect("nl-01".to_string(), 0).unwrap();
    m.observe(report("nl-01", true), 10);
    let t = m.request_disconnect(100).unwrap();
    assert_eq!(
        t,
        Transition {
            from: Phase::Connected,
            to: Phase::Disconnecting,
            user_initiated: true,
            condition: None,
        }
    );
    assert_eq!(
        m.state,
        ConnectionState::Disconnecting { started: 100, profile: "nl-01".to_string() }
    );
    assert_eq!(m.observe(report("nl-01", true), 15_100), None);
    let t = m.observe(report("nl-01", true), 15_101);
    assert_eq!(
        t,
        Some(Transition {
            from: Phase::Disconnecting,
            to: Phase::Disconnected,
            user_initiated: true,
            condition: Some(Fault::DisconnectTimeout),
        })
    );
}

#[test]
fn invalid_requests_change_nothing() {
    let mut m = ConnectionMachine::new();
    assert_eq!(m.request_disconnect(5), Err(Fault::InvalidTransition));
    assert_eq!(m.state, ConnectionState::Disconnected);
    m.request_connect("a".to_string(), 5).unwrap();
    assert_eq!(m.request_connect("b".to_string(), 6), Err(Fault::InvalidTransition));
    assert_eq!(m.state, ConnectionState::Connecting { started: 5, profile: "a".to_string() });
    m.request_disconnect(7).unwrap();
    assert_eq!(m.request_disconnect(8), Err(Fault::InvalidTransition));
    assert_eq!(m.request_connect("b".to_string(), 9), Err(Fault::InvalidTransition));
}

#[test]
fn connected_details_are_replaced_on_refresh() {
    let mut m = ConnectionMachine::new();
    m.request_connect("nl-01".to_string(), 0).unwrap();
    m.observe(report("nl-01", true), 10);
    let mut details = DetailedConnectionInfo::default();
    details.interface = "wg0".to_string();
    details.pid = Some(4242);
    let refreshed = Snapshot::Tunnel(TunnelReport {
        profile: "nl-01".to_string(),
        handshaking: false,
        server_location: "Frankfurt, DE".to_string(),
        latency_ms: 99,
        details: details.clone(),
    });
    assert_eq!(m.observe(refreshed, 20), None);
    assert_eq!(
        m.state,
        ConnectionState::Connected {
            since: 10,
            profile: "nl-01".to_string(),
            server_location: "Frankfurt, DE".to_string(),
            latency_ms: 99,
            details: Box::new(details),
        }
    );
}

#[test]
fn failed_apply_is_retried_then_reported() {
    let mut e = KillSwitchEngine::new();
    let d = e.set_mode(KillSwitchMode::AlwaysOn, Phase::Disconnected);
    assert_eq!(d.firewall, FirewallAction::ApplyBlock);
    for _ in 0..3 {
        let d = e.on_apply_result(false);
        assert_eq!(d, Decision { firewall: FirewallAction::ApplyBlock, record: None, fault: None });
    }
    let rev = e.revision();
    let d = e.on_apply_result(false);
    assert_eq!(d.firewall, FirewallAction::Nothing);
    assert_eq!(d.fault, Some(Fault::FirewallApplyFailed));
    assert_eq!(
        d.record,
        Some(PersistedRecord {
            mode: KillSwitchMode::AlwaysOn,
            state: KillSwitchState::Blocking,
            revision: rev + 1,
        })
    );
    assert_eq!(e.state(), KillSwitchState::Blocking);
    // a later event tries again
    let d = e.on_connection_event(Transition {
        from: Phase::Disconnected,
        to: Phase::Connecting,
        user_initiated: true,
        condition: None,
    });
    assert_eq!(d.firewall, FirewallAction::ApplyBlock);
    assert_eq!(e.on_apply_result(true).firewall, FirewallAction::Nothing);
}

#[test]
fn set_mode_off_always_releases() {
    let mut e = KillSwitchEngine::new();
    e.set_mode(KillSwitchMode::AlwaysOn, Phase::Connecting);
    assert_eq!(e.state(), KillSwitchState::Blocking);
    let d = e.set_mode(KillSwitchMode::Off, Phase::Connecting);
    assert_eq!(d.firewall, FirewallAction::ReleaseBlock);
    assert_eq!(e.state(), KillSwitchState::Disabled);
    let d = e.set_mode(KillSwitchMode::Off, Phase::Connecting);
    assert_eq!(d.firewall, FirewallAction::ReleaseBlock);
}

#[test]
fn cycle_mode_follows_the_cycle() {
    let mut e = KillSwitchEngine::new();
    e.cycle_mode(Phase::Disconnected);
    assert_eq!((e.mode(), e.state()), (KillSwitchMode::Auto, KillSwitchState::Armed));
    let d = e.cycle_mode(Phase::Disconnected);
    assert_eq!((e.mode(), e.state()), (KillSwitchMode::AlwaysOn, KillSwitchState::Blocking));
    assert_eq!(d.firewall, FirewallAction::ApplyBlock);
    let d = e.cycle_mode(Phase::Disconnected);
    assert_eq!((e.mode(), e.state()), (KillSwitchMode::Off, KillSwitchState::Disabled));
    assert_eq!(d.firewall, FirewallAction::ReleaseBlock);
    assert_eq!(e.revision(), 3);
}

#[test]
fn fault_messages() {
    assert_eq!(Fault::ConnectTimeout.message(), "Connection attempt timed out");
    assert_eq!(Fault::DisconnectTimeout.message(), "Disconnect timed out");
    assert_eq!(
        Fault::InvalidTransition.message(),
        "Action not allowed in the current connection state"
    );
    assert_eq!(
        Fault::FirewallApplyFailed.message(),
        "Kill switch could not apply the firewall block"
    );
    assert_eq!(Fault::PersistenceWriteFailed.message(), "Kill switch state could not be saved");
}

#[test]
fn failed_save_is_reported() {
    let e = KillSwitchEngine::new();
    assert_eq!(e.on_save_result(true), None);
    assert_eq!(e.on_save_result(false), Some(Fault::PersistenceWriteFailed));
    assert_eq!(e.mode(), KillSwitchMode::Off);
}

#[test]
fn inputs_are_handled_in_order() {
    let (mut c, _) = Controller::start(None);
    let quiet = Decision { firewall: FirewallAction::Nothing, record: None, fault: None };
    let invalid = Decision { fault: Some(Fault::InvalidTransition), ..quiet };
    assert_eq!(c.handle(Input::Disconnect, 1), invalid);
    let d = c.handle(Input::SetMode(KillSwitchMode::Auto), 2);
    assert_eq!(d.firewall, FirewallAction::Nothing);
    assert_eq!(
        d.record,
        Some(PersistedRecord { mode: KillSwitchMode::Auto, state: KillSwitchState::Armed, revision: 1 })
    );
    assert_eq!(c.handle(Input::Connect { profile: "nl-01".to_string() }, 3), quiet);
    assert_eq!(c.handle(Input::Connect { profile: "de-01".to_string() }, 4), invalid);
    assert_eq!(c.handle(Input::Observe(Snapshot::Pending), 5), quiet);
    assert_eq!(c.handle(Input::Observe(report("nl-01", true)), 6), quiet);
    assert_eq!(c.machine.state.phase(), Phase::Connected);
    // the request comes before the observation, so the drop counts as asked for
    assert_eq!(c.handle(Input::Disconnect, 7), quiet);
    assert_eq!(c.handle(Input::Observe(Snapshot::NoTunnel), 8), quiet);
    assert_eq!(c.engine.state(), KillSwitchState::Armed);
    // the other order is an unexpected drop
    c.handle(Input::Connect { profile: "nl-01".to_string() }, 9);
    c.handle(Input::Observe(report("nl-01", true)), 10);
    let d = c.handle(Input::Observe(Snapshot::NoTunnel), 11);
    assert_eq!(d.firewall, FirewallAction::ApplyBlock);
    assert_eq!(c.handle(Input::Disconnect, 12), invalid);
    assert_eq!(c.handle(Input::ApplyResult(true), 13), quiet);
    let d = c.handle(Input::CycleMode, 14);
    assert_eq!(c.engine.mode(), KillSwitchMode::AlwaysOn);
    assert_eq!(d.firewall, FirewallAction::Nothing);
    let d = c.handle(Input::EmergencyRelease, 15);
    assert_eq!(d.firewall, FirewallAction::ReleaseBlock);
    assert_eq!((c.engine.mode(), c.engine.state()), (KillSwitchMode::Off, KillSwitchState::Disabled));
}
