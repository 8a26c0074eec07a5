//! Plain state types shared by the connection machine and the kill switch.

pub mod connection;
pub mod killswitch;
pub mod profile;
