use vstd::prelude::*;
use crate::bluetoothctl;
use crate::git;
use crate::profiles::Profiles;

verus! {

/// The loaded configuration: one optional section of named profiles per
/// subcommand.
pub struct Config {
    /// Bluetooth device profiles.
    pub bluetoothctl: Profiles<bluetoothctl::Profile>,
    /// Git identity profiles.
    pub git: Profiles<git::Profile>,
}

} // verus!
