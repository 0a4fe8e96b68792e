//! The numeric identifiers used to locate the sensor on the transport.

use vstd::prelude::*;

verus! {

/// USB vendor and product id of the sensor. Loaded from a configuration
/// file by the surrounding program; the defaults match the common
/// off-the-shelf device.
#[derive(Clone, Copy, Debug, PartialEq, Eq, Structural)]
pub struct Config {
    pub vid: u16,
    pub pid: u16,
}

impl Default for Config {
    fn default() -> (c: Config)
        ensures
            c.vid == 0x04d9,
            c.pid == 0xa052,
    {
        Config { vid: 0x04d9, pid: 0xa052 }
    }
}

} // verus!
