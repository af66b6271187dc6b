//! Vulkan API version numbers: the versions this project asks for, and the
//! decoding of a device's reported version into its parts.

use crate::vk_ops::{
    api_version_major, api_version_minor, api_version_patch, make_api_version,
    spec_api_version_major, spec_api_version_minor, spec_api_version_patch,
    spec_make_api_version,
};
use vstd::prelude::*;

verus! {

/// The major, minor and patch parts of a Vulkan API version.
#[derive(Clone, Copy, Debug, PartialEq, Eq, Structural)]
pub struct ApiVersion {
    pub major: u32,
    pub minor: u32,
    pub patch: u32,
}

/// The parts that `ash` reads out of a packed version number.
pub open spec fn spec_decode(version: u32) -> ApiVersion {
    ApiVersion {
        major: spec_api_version_major(version),
        minor: spec_api_version_minor(version),
        patch: spec_api_version_patch(version),
    }
}

/// Splits a packed Vulkan version number (as reported in a device's
/// properties) into its major, minor and patch parts.
pub fn decode_api_version(version: u32) -> (r: ApiVersion)
    ensures
        r == spec_decode(version),
        r.major == (version >> 22u32) & 0x7fu32,
        r.minor == (version >> 12u32) & 0x3ffu32,
        r.patch == version & 0xfffu32,
{
    ApiVersion {
        major: api_version_major(version),
        minor: api_version_minor(version),
        patch: api_version_patch(version),
    }
}

/// The version under which the application registers itself: 0.1.0.
pub fn application_version() -> (r: u32)
    ensures
        r == spec_make_api_version(0, 0, 1, 0),
        r == 0x1000,
{
    let v = make_api_version(0, 0, 1, 0);
    assert(spec_make_api_version(0, 0, 1, 0) == 0x1000u32) by (bit_vector);
    v
}

/// The Vulkan API version that the instance is created for: 1.2.0.
pub fn target_api_version() -> (r: u32)
    ensures
        r == spec_make_api_version(0, 1, 2, 0),
        r == 0x402000,
{
    let v = make_api_version(0, 1, 2, 0);
    assert(spec_make_api_version(0, 1, 2, 0) == 0x402000u32) by (bit_vector);
    v
}

/// Decoding gives back the parts that a version was packed from, whatever
/// the variant, as long as each part fits its field (seven bits for the
/// major version, ten for the minor version, twelve for the patch).
pub proof fn lemma_decode_make_roundtrip(variant: u32, major: u32, minor: u32, patch: u32)
    requires
        major < 0x80,
        minor < 0x400,
        patch < 0x1000,
    ensures
        spec_decode(spec_make_api_version(variant, major, minor, patch)) == (ApiVersion {
            major,
            minor,
            patch,
        }),
{
    let v = spec_make_api_version(variant, major, minor, patch);
    assert(spec_api_version_major(v) == major) by (bit_vector)
        requires
            v == (variant << 29u32) | (major << 22u32) | (minor << 12u32) | patch,
            major < 0x80,
            minor < 0x400,
            patch < 0x1000,
    ;
    assert(spec_api_version_minor(v) == minor) by (bit_vector)
        requires
            v == (variant << 29u32) | (major << 22u32) | (minor << 12u32) | patch,
            major < 0x80,
            minor < 0x400,
            patch < 0x1000,
    ;
    assert(spec_api_version_patch(v) == patch) by (bit_vector)
        requires
            v == (variant << 29u32) | (major << 22u32) | (minor << 12u32) | patch,
            major < 0x80,
            minor < 0x400,
            patch < 0x1000,
    ;
}

} // verus!
