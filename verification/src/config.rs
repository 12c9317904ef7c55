//! Service configuration: epoch range, rotation interval, listen address.

use vstd::prelude::*;

verus! {

/// Settings the service is started with.
#[derive(Clone)]
pub struct Config {
    /// Duration of each randomness epoch, in seconds.
    pub epoch_seconds: u32,
    /// First epoch tag to make available.
    pub first_epoch: u8,
    /// Last epoch tag to make available.
    pub last_epoch: u8,
    /// Host and port to listen for http connections.
    pub listen: String,
}

impl Config {
    /// A configuration is usable when its epoch range is non-empty.
    pub open spec fn valid(&self) -> bool {
        self.first_epoch <= self.last_epoch
    }
}

} // verus!
