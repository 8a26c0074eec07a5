//! Connection state of the one tunnel the application manages.

use vstd::prelude::*;

verus! {

/// Technical details read from the tunnel interface.
///
/// A snapshot: it is replaced as a whole on every refresh and never edited
/// field by field.
#[derive(Clone, Debug, PartialEq)]
pub struct DetailedConnectionInfo {
    /// System interface name (for example `utun3` or `wg0`).
    pub interface: String,
    /// Internal address assigned by the tunnel.
    pub internal_ip: String,
    /// Remote endpoint, address and port.
    pub endpoint: String,
    /// Maximum transmission unit.
    pub mtu: String,
    /// Public key of the peer; empty where the protocol has none.
    pub public_key: String,
    /// Local listening port.
    pub listen_port: String,
    /// Total bytes received.
    pub transfer_rx: String,
    /// Total bytes sent.
    pub transfer_tx: String,
    /// Time since the last successful handshake.
    pub latest_handshake: String,
    /// Process id of the supervised tunnel process, for targeted termination.
    pub pid: Option<u32>,
}

impl DetailedConnectionInfo {
    /// Whether every text field is empty and no process id is known.
    pub open spec fn is_blank(&self) -> bool {
        &&& self.interface@ == Seq::<char>::empty()
        &&& self.internal_ip@ == Seq::<char>::empty()
        &&& self.endpoint@ == Seq::<char>::empty()
        &&& self.mtu@ == Seq::<char>::empty()
        &&& self.public_key@ == Seq::<char>::empty()
        &&& self.listen_port@ == Seq::<char>::empty()
        &&& self.transfer_rx@ == Seq::<char>::empty()
        &&& self.transfer_tx@ == Seq::<char>::empty()
        &&& self.latest_handshake@ == Seq::<char>::empty()
        &&& self.pid is None
    }
}

impl Default for DetailedConnectionInfo {
    fn default() -> (r: DetailedConnectionInfo)
        ensures
            r.is_blank(),
    {
        DetailedConnectionInfo {
            interface: String::new(),
            internal_ip: String::new(),
            endpoint: String::new(),
            mtu: String::new(),
            public_key: String::new(),
            listen_port: String::new(),
            transfer_rx: String::new(),
            transfer_tx: String::new(),
            latest_handshake: String::new(),
            pid: None,
        }
    }
}

/// The four phases a connection can be in, without their payload.
#[derive(Debug, Clone, Copy, PartialEq, Eq, Structural)]
pub enum Phase {
    /// No tunnel, and none wanted.
    Disconnected,
    /// A tunnel was asked for and has not been confirmed yet.
    Connecting,
    /// The tunnel is up.
    Connected,
    /// The tunnel is being taken down.
    Disconnecting,
}

/// Connection state.
///
/// Exactly one variant holds at any time. Timestamps are milliseconds on a
/// monotonic clock chosen by the caller. `Connecting` and `Disconnecting` are
/// optimistic: observations of the real system resolve them.
#[derive(Clone, Debug, PartialEq)]
pub enum ConnectionState {
    /// No active connection.
    Disconnected,
    /// Connection attempt in progress.
    Connecting {
        /// When the attempt started.
        started: u64,
        /// Name of the profile being connected.
        profile: String,
    },
    /// Connection established.
    Connected {
        /// When the connection was confirmed.
        since: u64,
        /// Name of the connected profile.
        profile: String,
        /// Geographic location of the server.
        server_location: String,
        /// Current latency in milliseconds.
        latency_ms: u64,
        /// Details of the tunnel interface.
        details: Box<DetailedConnectionInfo>,
    },
    /// Disconnection in progress.
    Disconnecting {
        /// When the disconnection started.
        started: u64,
        /// Name of the profile being disconnected.
        profile: String,
    },
}

impl ConnectionState {
    /// The phase of this state.
    pub open spec fn spec_phase(&self) -> Phase {
        match self {
            ConnectionState::Disconnected => Phase::Disconnected,
            ConnectionState::Connecting { .. } => Phase::Connecting,
            ConnectionState::Connected { .. } => Phase::Connected,
            ConnectionState::Disconnecting { .. } => Phase::Disconnecting,
        }
    }

    /// The profile this state is about; empty when disconnected.
    pub open spec fn spec_profile(&self) -> Seq<char> {
        match self {
            ConnectionState::Disconnected => Seq::<char>::empty(),
            ConnectionState::Connecting { profile, .. } => profile@,
            ConnectionState::Connected { profile, .. } => profile@,
            ConnectionState::Disconnecting { profile, .. } => profile@,
        }
    }

    /// The phase of this state.
    #[verifier::when_used_as_spec(spec_phase)]
    pub fn phase(&self) -> (p: Phase)
        ensures
            p == self.spec_phase(),
    {
        match self {
            ConnectionState::Disconnected => Phase::Disconnected,
            ConnectionState::Connecting { .. } => Phase::Connecting,
            ConnectionState::Connected { .. } => Phase::Connected,
            ConnectionState::Disconnecting { .. } => Phase::Disconnecting,
        }
    }

    /// Name of the profile this state is about, if there is one.
    pub fn profile(&self) -> (p: Option<String>)
        ensures
            self.spec_phase() == Phase::Disconnected <==> p is None,
            p matches Some(name) ==> name@ == self.spec_profile(),
    {
        match self {
            ConnectionState::Disconnected => None,
            ConnectionState::Connecting { profile, .. } => Some(profile.clone()),
            ConnectionState::Connected { profile, .. } => Some(profile.clone()),
            ConnectionState::Disconnecting { profile, .. } => Some(profile.clone()),
        }
    }
}

impl Default for ConnectionState {
    fn default() -> (r: ConnectionState)
        ensures
            r == ConnectionState::Disconnected,
    {
        ConnectionState::Disconnected
    }
}

} // verus!
