use vstd::prelude::*;

verus! {

/// Commands around configuration and the app itself.
#[derive(Debug)]
pub enum ConfigCommands {
    /// Check whether the client is on the latest released version.
    CheckVersion(CheckVersion),
    /// Delete the configuration file.
    Reset(ConfigReset),
    /// Change the timezone in the configuration file.
    SetTimezone(SetTimezone),
}

/// Arguments of the version check.
#[derive(Debug)]
pub struct CheckVersion {
    /// Automatically install the latest version if available.
    pub force: bool,
    /// Manually specify the method to use for installing updates.
    pub repo: Option<String>,
}

/// Arguments of the configuration reset.
#[derive(Debug)]
pub struct ConfigReset {
    /// Skip confirmation and force deletion.
    pub force: bool,
}

/// Arguments of the timezone change.
#[derive(Debug)]
pub struct SetTimezone {
    /// Timezone to set, e.g. "Canada/Pacific".
    pub timezone: Option<String>,
}

} // verus!
