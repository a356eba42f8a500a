use vstd::prelude::*;

verus! {

/// Intermec's vendor id.
pub const VID_INTERMEC: u16 = 0x067e;

/// Intermec SG20(T/THP) product id.
pub const PID_SG20: u16 = 0x0809;

/// Capacity of the reusable raw-read buffer: the negotiated maximum packet
/// size (64 bytes for this device family) times a small multiplier.
pub const READ_BUFFER_LEN: usize = 256;

} // verus!
