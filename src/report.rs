//! Decoding of the headset's inbound volume reports.

use vstd::prelude::*;

verus! {

/// Tag byte that opens a volume report.
pub const VOLUME_REPORT_TAG: u8 = 0x45;

/// Size of every report exchanged with the headset, in bytes.
pub const REPORT_SIZE: usize = 64;

/// The two levels carried by a volume report, as percentages.
#[derive(Clone, Copy, Debug, PartialEq, Eq, Structural)]
pub struct VolumePair {
    pub game: u8,
    pub chat: u8,
}

/// A received buffer is a volume report when it has at least three bytes
/// and starts with the volume tag.
pub open spec fn is_volume_report(data: Seq<u8>) -> bool {
    data.len() >= 3 && data[0] == VOLUME_REPORT_TAG
}

/// The levels a received buffer carries: bytes 1 and 2, unmodified.
pub open spec fn volume_levels(data: Seq<u8>) -> Option<VolumePair> {
    if is_volume_report(data) {
        Some(VolumePair { game: data[1], chat: data[2] })
    } else {
        None
    }
}

/// Extracts the game and chat levels from a received buffer; any other
/// shape of buffer carries no levels.
pub fn parse_volume_report(data: &[u8]) -> (r: Option<VolumePair>)
    ensures
        r == volume_levels(data@),
{
    if data.len() >= 3 && data[0] == VOLUME_REPORT_TAG {
        Some(VolumePair { game: data[1], chat: data[2] })
    } else {
        None
    }
}

} // verus!
