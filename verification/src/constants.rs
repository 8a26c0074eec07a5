//! Values that are fixed for the whole application.

use vstd::prelude::*;
use vstd::string::StringExecFns;

verus! {

/// Name of the application.
pub const APP_NAME: &'static str = "vortix";

/// Version of the application.
pub const APP_VERSION: &'static str = "0.1.4";

/// What the application is, in one line.
pub const APP_SUMMARY: &'static str = "Terminal VPN manager with a kill switch";

/// Name of the profiles subdirectory.
pub const PROFILES_DIR_NAME: &'static str = "profiles";

/// Name of the logs subdirectory.
pub const LOGS_DIR_NAME: &'static str = "logs";

/// Name of the profile metadata file.
pub const METADATA_FILE_NAME: &'static str = "metadata.json";

/// Cipher suite of WireGuard connections.
pub const DEFAULT_CIPHER: &'static str = "ChaCha20Poly1305";

/// Shown while a value is being found out.
pub const MSG_DETECTING: &'static str = "Detecting...";

/// Shown where there is no value.
pub const MSG_NO_DATA: &'static str = "---";

/// Shown when the tunnel is gone.
pub const MSG_DISCONNECTED: &'static str = "Disconnected";

/// The text that names the application to a server: name, a slash, version.
pub open spec fn user_agent_text() -> Seq<char> {
    APP_NAME@ + "/"@ + APP_VERSION@
}

/// The text that names the application to a server.
pub fn user_agent() -> (r: String)
    ensures
        r@ == user_agent_text(),
{
    let mut r = String::from_str(APP_NAME);
    r.append("/");
    r.append(APP_VERSION);
    r
}

/// What is shown while connecting to `profile`.
pub fn connecting_message(profile: &str) -> (r: String)
    ensures
        r@ == "Connecting to "@ + profile@,
{
    let mut r = String::from_str("Connecting to ");
    r.append(profile);
    r
}

/// What is shown once connected to `profile`.
pub fn connected_message(profile: &str) -> (r: String)
    ensures
        r@ == "Connected to "@ + profile@,
{
    let mut r = String::from_str("Connected to ");
    r.append(profile);
    r
}

} // verus!
