//! The commands of the command line.

use vstd::prelude::*;

verus! {

/// What the command line asked for.
#[derive(Debug, Clone, PartialEq, Eq)]
pub enum Commands {
    /// Import profiles from a file, a directory or a URL.
    Import {
        /// Path of a `.conf` or `.ovpn` file, of a directory, or a URL.
        file: String,
    },
    /// Update the application to its latest version.
    Update,
    /// Release the kill switch at once; for use when locked out.
    ReleaseKillSwitch,
}

/// The arguments of the command line.
#[derive(Debug, Clone, PartialEq, Eq)]
pub struct Args {
    /// The command to run; without one the interface starts.
    pub command: Option<Commands>,
}

/// What the application does first.
#[derive(Debug, Clone, Copy, PartialEq, Eq, Structural)]
pub enum Startup {
    /// Start the interface.
    Interface,
    /// Import profiles and exit.
    Import,
    /// Update and exit.
    Update,
    /// Release the kill switch and exit.
    EmergencyRelease,
}

impl Args {
    /// What these arguments ask for.
    pub open spec fn spec_startup(&self) -> Startup {
        match self.command {
            None => Startup::Interface,
            Some(Commands::Import { .. }) => Startup::Import,
            Some(Commands::Update) => Startup::Update,
            Some(Commands::ReleaseKillSwitch) => Startup::EmergencyRelease,
        }
    }

    /// What the application does first: the command that was given, or the
    /// interface where none was.
    pub fn startup(&self) -> (r: Startup)
        ensures
            r == self.spec_startup(),
    {
        match &self.command {
            None => Startup::Interface,
            Some(Commands::Import { .. }) => Startup::Import,
            Some(Commands::Update) => Startup::Update,
            Some(Commands::ReleaseKillSwitch) => Startup::EmergencyRelease,
        }
    }
}

} // verus!
