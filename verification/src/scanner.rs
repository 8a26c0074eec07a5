//! Turning what a scan of the system found into a snapshot.
//!
//! The scanner only reports. Whatever it cannot tell for certain it reports
//! as "no tunnel": for a safeguard against leaks that is the safe direction.

use vstd::prelude::*;

use crate::machine::{Snapshot, TunnelReport};
use crate::state::connection::{ConnectionState, DetailedConnectionInfo, Phase};

verus! {

/// A handshake older than this many seconds no longer counts as recent.
pub const HANDSHAKE_FRESH_SECS: u64 = 180;

/// What a query of the tunnel process returned.
#[derive(Clone, Debug, PartialEq)]
pub struct TunnelProbe {
    /// Profile the tunnel was started for.
    pub profile: String,
    /// Seconds since the last handshake, if there ever was one.
    pub handshake_age_secs: Option<u64>,
    /// Geographic location of the server.
    pub server_location: String,
    /// Measured latency in milliseconds.
    pub latency_ms: u64,
    /// Details of the tunnel interface.
    pub details: DetailedConnectionInfo,
}

/// Whether a handshake of that age counts as recent.
pub open spec fn handshake_is_fresh(age: Option<u64>) -> bool {
    age matches Some(secs) && secs <= HANDSHAKE_FRESH_SECS
}

/// The snapshot for a scan that found `probe` while the machine believed
/// `believed`, with or without the supervised launcher still running.
pub open spec fn snapshot_for(
    believed: ConnectionState,
    probe: Option<TunnelProbe>,
    launcher_running: bool,
) -> Snapshot {
    if believed.spec_phase() != Phase::Disconnected && probe is Some && probe->0.profile@
        == believed.spec_profile() {
        Snapshot::Tunnel(
            TunnelReport {
                profile: probe->0.profile,
                handshaking: handshake_is_fresh(probe->0.handshake_age_secs),
                server_location: probe->0.server_location,
                latency_ms: probe->0.latency_ms,
                details: probe->0.details,
            },
        )
    } else if believed.spec_phase() == Phase::Connecting && launcher_running {
        Snapshot::Pending
    } else {
        Snapshot::NoTunnel
    }
}

/// Build the snapshot of one scanner tick.
///
/// `probe` is `None` when the query failed or found nothing. A tunnel is
/// reported only for the profile the machine believes active. Without such a
/// tunnel the snapshot is `Pending` while the machine is connecting and the
/// supervised launcher is still running, and `NoTunnel` in every other case:
/// while the machine is disconnected, for a tunnel of another profile, and
/// for whatever could not be found out.
pub fn take_snapshot(
    believed: &ConnectionState,
    probe: Option<TunnelProbe>,
    launcher_running: bool,
) -> (s: Snapshot)
    ensures
        s == snapshot_for(*believed, probe, launcher_running),
{
    let matches_belief = match (believed, &probe) {
        (ConnectionState::Connecting { profile, .. }, Some(p)) => p.profile == *profile,
        (ConnectionState::Connected { profile, .. }, Some(p)) => p.profile == *profile,
        (ConnectionState::Disconnecting { profile, .. }, Some(p)) => p.profile == *profile,
        _ => false,
    };
    if !matches_belief {
        return match believed {
            ConnectionState::Connecting { .. } => if launcher_running {
                Snapshot::Pending
            } else {
                Snapshot::NoTunnel
            },
            _ => Snapshot::NoTunnel,
        };
    }
    match probe {
        Some(p) => {
            let handshaking = match p.handshake_age_secs {
                Some(secs) => secs <= HANDSHAKE_FRESH_SECS,
                None => false,
            };
            Snapshot::Tunnel(
                TunnelReport {
                    profile: p.profile,
                    handshaking,
                    server_location: p.server_location,
                    latency_ms: p.latency_ms,
                    details: p.details,
                },
            )
        },
        None => Snapshot::NoTunnel,
    }
}

} // verus!
