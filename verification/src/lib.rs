//! A Modbus slave (server) protocol engine.
//!
//! The engine parses incoming request frames over two transports
//! (serial framing with a checksum trailer, and a networked framing with a
//! fixed header), dispatches requests by function code to read/write handlers
//! over a host-supplied coil model, and serializes replies into
//! transport-correct response frames.

use vstd::prelude::*;

pub mod adu;
pub mod adu_tcp;
pub mod coil;
pub mod crc;
pub mod def;
pub mod func;
pub mod pdu;

verus! {

/// Serial transport configuration: the address this device answers to.
#[derive(Clone, Copy, Debug)]
pub struct SerialConfig {
    pub slave_addr: u8,
}

/// Per-deployment configuration of the engine, owned by the host.
///
/// A `None` collection means the corresponding function codes are not
/// supported; an empty collection means they are supported but no point is
/// addressable.
pub struct Instance {
    pub coils: Option<Vec<coil::Descriptor>>,
    pub disc_inputs: Option<Vec<coil::Descriptor>>,
    pub serial: Option<SerialConfig>,
}

impl Instance {
    /// The host's obligations: collections sorted ascending by address with
    /// no duplicates, and a serial address in the assignable range.
    pub open spec fn wf(self) -> bool {
        &&& (self.coils matches Some(c) ==> coil::sorted(c@))
        &&& (self.disc_inputs matches Some(c) ==> coil::sorted(c@))
        &&& (self.serial matches Some(s) ==> 1 <= s.slave_addr <= 247)
    }
}

impl Default for Instance {
    /// An instance with nothing configured.
    fn default() -> (r: Self)
        ensures
            r.coils is None,
            r.disc_inputs is None,
            r.serial is None,
            r.wf(),
    {
        Instance { coils: None, disc_inputs: None, serial: None }
    }
}

} // verus!
