//! Device protocol engine for the NZXT Kraken Z series liquid cooler:
//! exact binary frame encoding and decoding, the bucket/bitmap upload
//! handshake, and the session lifecycle over a caller-supplied USB transport.

use vstd::prelude::*;

pub mod codec;
pub mod errors;
pub mod session;
pub mod transport;

verus! {

/// USB vendor id of the Kraken Z cooler family.
pub const VID: u16 = 0x1e71;

/// USB product id of the Kraken Z cooler family.
pub const PID: u16 = 0x3008;

} // verus!
