//! Globally unique identifiers for codecs, presets, and profiles.

use vstd::prelude::*;

verus! {

/// A 128-bit globally unique identifier, as used by the encoder interface to
/// name codecs, presets, and profiles.
///
/// The final eight bytes are packed big-endian into `data4`.
#[derive(Clone, Copy, Debug, Hash, PartialEq, Eq, Structural)]
pub struct Guid {
    /// The first 32 bits of the identifier.
    pub data1: u32,
    /// The next 16 bits of the identifier.
    pub data2: u16,
    /// The next 16 bits of the identifier.
    pub data3: u16,
    /// The final 64 bits of the identifier.
    pub data4: u64,
}

/// The identifier of the H.264 codec: {6BC82762-4E63-4ca4-AA85-1E50F321F6BF}.
pub open spec fn spec_codec_h264_guid() -> Guid {
    Guid {
        data1: 0x6bc82762,
        data2: 0x4e63,
        data3: 0x4ca4,
        data4: 0xaa851e50f321f6bf,
    }
}

/// The identifier of the H.265 (HEVC) codec:
/// {790CDC88-4522-4d7b-9425-BDA9975F7603}.
pub open spec fn spec_codec_hevc_guid() -> Guid {
    Guid {
        data1: 0x790cdc88,
        data2: 0x4522,
        data3: 0x4d7b,
        data4: 0x9425bda9975f7603,
    }
}

/// The identifier of the AV1 codec: {0A352289-0AA7-4759-862D-5D15CD16D254}.
pub open spec fn spec_codec_av1_guid() -> Guid {
    Guid {
        data1: 0x0a352289,
        data2: 0x0aa7,
        data3: 0x4759,
        data4: 0x862d5d15cd16d254,
    }
}

/// Returns the identifier of the H.264 codec.
pub fn codec_h264_guid() -> (g: Guid)
    ensures
        g == spec_codec_h264_guid(),
{
    Guid {
        data1: 0x6bc82762,
        data2: 0x4e63,
        data3: 0x4ca4,
        data4: 0xaa851e50f321f6bf,
    }
}

/// Returns the identifier of the H.265 (HEVC) codec.
pub fn codec_hevc_guid() -> (g: Guid)
    ensures
        g == spec_codec_hevc_guid(),
{
    Guid {
        data1: 0x790cdc88,
        data2: 0x4522,
        data3: 0x4d7b,
        data4: 0x9425bda9975f7603,
    }
}

/// Returns the identifier of the AV1 codec.
pub fn codec_av1_guid() -> (g: Guid)
    ensures
        g == spec_codec_av1_guid(),
{
    Guid {
        data1: 0x0a352289,
        data2: 0x0aa7,
        data3: 0x4759,
        data4: 0x862d5d15cd16d254,
    }
}

} // verus!
