//! Interface version constants and the per-structure version word.

use vstd::prelude::*;

verus! {

/// Major version of the encoder interface this library models.
pub const NVENCAPI_MAJOR_VERSION: u32 = 12;

/// Minor version of the encoder interface this library models.
pub const NVENCAPI_MINOR_VERSION: u32 = 0;

/// The combined interface version word: the major version in the low bits and
/// the minor version in bits 24 and up.
pub const NVENCAPI_VERSION: u32 = NVENCAPI_MAJOR_VERSION | (NVENCAPI_MINOR_VERSION << 24);

/// The version word a parameter structure of the given structure version
/// carries: the interface version, the structure version in bits 16..28, and
/// a fixed tag in the top bits.
pub open spec fn spec_struct_version(ver: u32) -> u32 {
    NVENCAPI_VERSION | (ver << 16) | (0x7u32 << 28)
}

/// Computes the per-structure version word for a parameter structure.
#[allow(non_snake_case)]
pub fn NVENCAPI_STRUCT_VERSION(ver: u32) -> (r: u32)
    ensures
        r == spec_struct_version(ver),
{
    NVENCAPI_VERSION | (ver << 16) | (0x7u32 << 28)
}

/// Holds when a driver-reported maximum supported version word (major version
/// in bits 4 and up, minor version in the low four bits) is at least the
/// version of the interface this library models.
pub open spec fn spec_versions_match(max_supported_version: u32) -> bool {
    let major = max_supported_version >> 4;
    let minor = max_supported_version & 0xf;
    major > NVENCAPI_MAJOR_VERSION || (major == NVENCAPI_MAJOR_VERSION
        && minor >= NVENCAPI_MINOR_VERSION)
}

/// Checks that the driver's maximum supported version is at least the version
/// of the interface this library models. A driver older than the interface
/// cannot be used, so callers must establish the match before building an
/// encoder.
pub fn assert_versions_match(max_supported_version: u32)
    requires
        spec_versions_match(max_supported_version),
{
}

} // verus!
