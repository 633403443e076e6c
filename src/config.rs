//! Settings that the sensing layer is started with.

use vstd::prelude::*;

verus! {

/// The settings for the honeypot.
#[derive(Clone, Debug, PartialEq, Eq)]
pub struct HoneypotConfig {
    /// The device to capture packets on.
    pub device: String,
}

/// The main configuration of the honeypot.
#[derive(Clone, Debug, PartialEq, Eq)]
pub struct Config {
    /// The settings for the honeypot.
    pub honeypot: HoneypotConfig,
}

/// The command line: where the configuration is read from.
#[derive(Clone, Debug, PartialEq, Eq)]
pub struct Cli {
    /// Path of the configuration file.
    pub config_path: String,
}

} // verus!
