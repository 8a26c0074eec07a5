//! Kill switch mode and state.
//!
//! The kill switch prevents traffic from leaving the host unprotected when
//! the tunnel is expected to be up but is not.

use vstd::prelude::*;
use vstd::string::StringExecFns;

verus! {

/// Kill switch operating mode, as chosen by the user.
#[derive(Debug, Clone, Copy, PartialEq, Eq, Structural)]
pub enum KillSwitchMode {
    /// Disabled: traffic is never blocked.
    Off,
    /// Blocks only on an unexpected drop; a deliberate disconnect releases.
    Auto,
    /// Blocks whenever the tunnel is not connected.
    AlwaysOn,
}

impl KillSwitchMode {
    /// The mode that follows `self` in the cycle Off, Auto, AlwaysOn, Off.
    pub open spec fn spec_next(self) -> KillSwitchMode {
        match self {
            KillSwitchMode::Off => KillSwitchMode::Auto,
            KillSwitchMode::Auto => KillSwitchMode::AlwaysOn,
            KillSwitchMode::AlwaysOn => KillSwitchMode::Off,
        }
    }

    /// Cycle to the next mode: Off, Auto, AlwaysOn, and back to Off.
    #[must_use]
    #[verifier::when_used_as_spec(spec_next)]
    pub fn next(self) -> (r: KillSwitchMode)
        ensures
            r == self.spec_next(),
    {
        match self {
            KillSwitchMode::Off => KillSwitchMode::Auto,
            KillSwitchMode::Auto => KillSwitchMode::AlwaysOn,
            KillSwitchMode::AlwaysOn => KillSwitchMode::Off,
        }
    }
}

impl KillSwitchMode {
    /// The name of the mode.
    pub open spec fn spec_name(self) -> Seq<char> {
        match self {
            KillSwitchMode::Off => "Off"@,
            KillSwitchMode::Auto => "Auto"@,
            KillSwitchMode::AlwaysOn => "AlwaysOn"@,
        }
    }

    /// The name of the mode.
    pub fn name(self) -> (s: String)
        ensures
            s@ == self.spec_name(),
    {
        match self {
            KillSwitchMode::Off => String::from_str("Off"),
            KillSwitchMode::Auto => String::from_str("Auto"),
            KillSwitchMode::AlwaysOn => String::from_str("AlwaysOn"),
        }
    }
}

impl Default for KillSwitchMode {
    fn default() -> (r: KillSwitchMode)
        ensures
            r == KillSwitchMode::Off,
    {
        KillSwitchMode::Off
    }
}

/// What the kill switch is doing at the moment.
#[derive(Debug, Clone, Copy, PartialEq, Eq, Structural)]
pub enum KillSwitchState {
    /// The kill switch is off.
    Disabled,
    /// Ready to block, but not blocking.
    Armed,
    /// All non-tunnel traffic is being dropped.
    Blocking,
}

impl KillSwitchState {
    pub open spec fn spec_is_blocking(self) -> bool {
        self == KillSwitchState::Blocking
    }

    /// Whether traffic is being blocked.
    #[must_use]
    #[verifier::when_used_as_spec(spec_is_blocking)]
    pub fn is_blocking(self) -> (b: bool)
        ensures
            b == self.spec_is_blocking(),
    {
        matches!(self, KillSwitchState::Blocking)
    }
}

impl KillSwitchState {
    /// The name of the state.
    pub open spec fn spec_name(self) -> Seq<char> {
        match self {
            KillSwitchState::Disabled => "Disabled"@,
            KillSwitchState::Armed => "Armed"@,
            KillSwitchState::Blocking => "Blocking"@,
        }
    }

    /// The name of the state.
    pub fn name(self) -> (s: String)
        ensures
            s@ == self.spec_name(),
    {
        match self {
            KillSwitchState::Disabled => String::from_str("Disabled"),
            KillSwitchState::Armed => String::from_str("Armed"),
            KillSwitchState::Blocking => String::from_str("Blocking"),
        }
    }
}

impl Default for KillSwitchState {
    fn default() -> (r: KillSwitchState)
        ensures
            r == KillSwitchState::Disabled,
    {
        KillSwitchState::Disabled
    }
}

} // verus!
