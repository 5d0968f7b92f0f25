//! A framed message: transaction id, unit id and the ADU payload, together
//! with the size limits of the MBAP framing.

use vstd::prelude::*;

verus! {

/// The fixed size of the MBAP header on the wire.
pub const MBAP_HEADER_LENGTH: usize = 7;

/// The largest ADU payload a frame may carry.
pub const MAX_ADU_LENGTH: usize = 253;

/// The largest value the MBAP length field may hold: the ADU plus the one
/// unit id byte it counts.
pub const MBAP_MAX_LENGTH_FIELD: usize = 254;

/// The largest complete frame: header plus maximal ADU.
pub const MAX_MBAP_FRAME_LENGTH: usize = 260;

/// A complete frame as parsed off the stream or about to be written to it.
#[derive(Clone, Debug, PartialEq, Eq)]
pub struct Frame {
    /// The client-chosen transaction identifier echoed by the server.
    pub tx_id: u16,
    /// The unit id routing the request behind the TCP endpoint.
    pub unit_id: u8,
    /// The ADU payload: function code byte plus body.
    pub payload: Vec<u8>,
}

impl Frame {
    /// A frame never carries more payload than the length field can count.
    pub open spec fn wf(self) -> bool {
        self.payload@.len() <= MAX_ADU_LENGTH
    }
}

} // verus!
