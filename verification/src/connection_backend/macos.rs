pub mod rfcomm;

use vstd::prelude::*;

verus! {

/// The connection backends of macOS: RFCOMM through IOBluetooth.
#[derive(Debug, Default, Clone, Copy)]
pub struct PlatformConnectionBackends;

impl PlatformConnectionBackends {
    /// The RFCOMM backend.
    pub fn rfcomm(&self) -> (r: rfcomm::MacosRfcommBackend) {
        rfcomm::MacosRfcommBackend
    }
}

} // verus!
