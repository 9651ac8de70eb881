//! HDR signaling values of a display connector.
use vstd::prelude::*;

verus! {

/// Per-connector HDR signaling values to put into every atomic commit on a surface.
///
/// The values are raw: the caller resolves the names of the `Colorspace` enum and creates
/// the metadata blob. Both values zero means SDR, as if HDR had never been set. Clearing one
/// without the other can leave a panel in a half-HDR state.
#[derive(Debug, Clone, Copy, PartialEq, Eq, Structural)]
pub struct HdrState {
    /// Raw value of the connector's `Colorspace` property; 0 signals SDR.
    pub colorspace_value: u64,
    /// Blob number of the connector's `HDR_OUTPUT_METADATA` property; 0 clears it. The
    /// caller owns the blob.
    pub metadata_blob_id: u64,
}

impl HdrState {
    /// The values that switch a connector back to SDR.
    pub fn sdr() -> (state: Self)
        ensures
            state == (HdrState { colorspace_value: 0, metadata_blob_id: 0 }),
    {
        HdrState { colorspace_value: 0, metadata_blob_id: 0 }
    }
}

} // verus!
