//! Profiles and protocols.

use vstd::prelude::*;
use vstd::string::StringExecFns;

verus! {

/// Supported tunnel protocols.
#[derive(Clone, Copy, PartialEq, Eq, Debug, Structural)]
pub enum Protocol {
    /// WireGuard.
    WireGuard,
    /// OpenVPN.
    OpenVPN,
}

impl Protocol {
    /// The name of the protocol as it is shown.
    pub open spec fn spec_label(self) -> Seq<char> {
        match self {
            Protocol::WireGuard => "WireGuard"@,
            Protocol::OpenVPN => "OpenVPN"@,
        }
    }

    /// The name of the protocol as it is shown.
    pub fn label(self) -> (s: String)
        ensures
            s@ == self.spec_label(),
    {
        match self {
            Protocol::WireGuard => String::from_str("WireGuard"),
            Protocol::OpenVPN => String::from_str("OpenVPN"),
        }
    }
}

impl Default for Protocol {
    fn default() -> (r: Protocol)
        ensures
            r == Protocol::WireGuard,
    {
        Protocol::WireGuard
    }
}

/// A saved configuration that a connection can be made with.
#[derive(Clone, Debug)]
pub struct VpnProfile {
    /// Display name of the profile.
    pub name: String,
    /// Protocol of the tunnel.
    pub protocol: Protocol,
    /// Geographic location or server identifier.
    pub location: String,
    /// Path of the configuration file.
    pub config_path: String,
    /// When the profile was last used, in seconds since the epoch.
    pub last_used: Option<u64>,
}

} // verus!
