//! 16-byte interface identifiers used by the capability query.

use vstd::prelude::*;

verus! {

/// A 16-byte interface identifier, laid out byte by byte as the native
/// capability query expects it.
#[derive(Clone, Copy, Debug, PartialEq, Eq, Structural)]
pub struct REFIID {
    pub byte0: u8,
    pub byte1: u8,
    pub byte2: u8,
    pub byte3: u8,
    pub byte4: u8,
    pub byte5: u8,
    pub byte6: u8,
    pub byte7: u8,
    pub byte8: u8,
    pub byte9: u8,
    pub byte10: u8,
    pub byte11: u8,
    pub byte12: u8,
    pub byte13: u8,
    pub byte14: u8,
    pub byte15: u8,
}

impl REFIID {
    /// Builds an identifier from its 16 bytes, in order.
    pub fn new(b: [u8; 16]) -> (r: REFIID)
        ensures
            r.byte0 == b[0],
            r.byte1 == b[1],
            r.byte2 == b[2],
            r.byte3 == b[3],
            r.byte4 == b[4],
            r.byte5 == b[5],
            r.byte6 == b[6],
            r.byte7 == b[7],
            r.byte8 == b[8],
            r.byte9 == b[9],
            r.byte10 == b[10],
            r.byte11 == b[11],
            r.byte12 == b[12],
            r.byte13 == b[13],
            r.byte14 == b[14],
            r.byte15 == b[15],
    {
        REFIID {
            byte0: b[0],
            byte1: b[1],
            byte2: b[2],
            byte3: b[3],
            byte4: b[4],
            byte5: b[5],
            byte6: b[6],
            byte7: b[7],
            byte8: b[8],
            byte9: b[9],
            byte10: b[10],
            byte11: b[11],
            byte12: b[12],
            byte13: b[13],
            byte14: b[14],
            byte15: b[15],
        }
    }

    /// The identifier of the audio capability of a clip.
    pub fn audio() -> (r: REFIID)
        ensures
            r == Self::audio_spec(),
    {
        REFIID::new(
            [
                0x76,
                0xD4,
                0xAC,
                0xED,
                0xE0,
                0xD6,
                0x45,
                0xBB,
                0xB5,
                0x47,
                0x56,
                0xB7,
                0x43,
                0x5B,
                0x2A,
                0x1D,
            ],
        )
    }

    /// The audio capability identifier, as a mathematical value.
    pub open spec fn audio_spec() -> REFIID {
        REFIID {
            byte0: 0x76,
            byte1: 0xD4,
            byte2: 0xAC,
            byte3: 0xED,
            byte4: 0xE0,
            byte5: 0xD6,
            byte6: 0x45,
            byte7: 0xBB,
            byte8: 0xB5,
            byte9: 0x47,
            byte10: 0x56,
            byte11: 0xB7,
            byte12: 0x43,
            byte13: 0x5B,
            byte14: 0x2A,
            byte15: 0x1D,
        }
    }
}

} // verus!
