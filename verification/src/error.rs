//! Conditions the state machines report to their caller.

use vstd::prelude::*;
use vstd::string::StringExecFns;

verus! {

/// What can go wrong while reconciling intent with the observed system.
#[derive(Debug, Clone, Copy, PartialEq, Eq, Structural)]
pub enum Fault {
    /// The requested action is not legal from the current connection state.
    InvalidTransition,
    /// A connection attempt outlived its budget without being confirmed.
    ConnectTimeout,
    /// A disconnection outlived its budget while the tunnel stayed up.
    DisconnectTimeout,
    /// The firewall refused the block after every retry.
    FirewallApplyFailed,
    /// The durable record could not be written.
    PersistenceWriteFailed,
}

impl Fault {
    /// The text shown to the user for this fault.
    pub open spec fn spec_message(self) -> Seq<char> {
        match self {
            Fault::InvalidTransition => "Action not allowed in the current connection state"@,
            Fault::ConnectTimeout => "Connection attempt timed out"@,
            Fault::DisconnectTimeout => "Disconnect timed out"@,
            Fault::FirewallApplyFailed => "Kill switch could not apply the firewall block"@,
            Fault::PersistenceWriteFailed => "Kill switch state could not be saved"@,
        }
    }

    /// The user-visible message for this fault.
    pub fn message(self) -> (s: String)
        ensures
            s@ == self.spec_message(),
    {
        match self {
            Fault::InvalidTransition => String::from_str(
                "Action not allowed in the current connection state",
            ),
            Fault::ConnectTimeout => String::from_str("Connection attempt timed out"),
            Fault::DisconnectTimeout => String::from_str("Disconnect timed out"),
            Fault::FirewallApplyFailed => String::from_str(
                "Kill switch could not apply the firewall block",
            ),
            Fault::PersistenceWriteFailed => String::from_str(
                "Kill switch state could not be saved",
            ),
        }
    }
}

} // verus!
