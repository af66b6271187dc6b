//! Thin, trusted bridges to the `ash` crate's pure helpers.
//!
//! Every function here makes exactly one call into `ash` on plain integers.
//! Their contracts restate what `ash`'s own (one-line) definitions compute.

use ash::vk;
use vstd::prelude::*;

verus! {

/// What `ash::vk::make_api_version` computes: the variant in bits 29..32,
/// the major version from bit 22, the minor version from bit 12 and the
/// patch version in the low bits, each shifted within a `u32`.
pub open spec fn spec_make_api_version(variant: u32, major: u32, minor: u32, patch: u32) -> u32 {
    (variant << 29u32) | (major << 22u32) | (minor << 12u32) | patch
}

/// What `ash::vk::api_version_major` computes: seven bits from bit 22.
pub open spec fn spec_api_version_major(version: u32) -> u32 {
    (version >> 22u32) & 0x7fu32
}

/// What `ash::vk::api_version_minor` computes: ten bits from bit 12.
pub open spec fn spec_api_version_minor(version: u32) -> u32 {
    (version >> 12u32) & 0x3ffu32
}

/// What `ash::vk::api_version_patch` computes: the low twelve bits.
pub open spec fn spec_api_version_patch(version: u32) -> u32 {
    version & 0xfffu32
}

/// Calls `ash::vk::make_api_version`; its result is taken to be the packed
/// value that `ash`'s definition computes.
#[verifier::external_body]
pub(crate) fn make_api_version(variant: u32, major: u32, minor: u32, patch: u32) -> (r: u32)
    ensures
        r == spec_make_api_version(variant, major, minor, patch),
{
    vk::make_api_version(variant, major, minor, patch)
}

/// Calls `ash::vk::api_version_major`; the result is taken to be the seven
/// bits of `version` from bit 22.
#[verifier::external_body]
pub(crate) fn api_version_major(version: u32) -> (r: u32)
    ensures
        r == spec_api_version_major(version),
{
    vk::api_version_major(version)
}

/// Calls `ash::vk::api_version_minor`; the result is taken to be the ten
/// bits of `version` from bit 12.
#[verifier::external_body]
pub(crate) fn api_version_minor(version: u32) -> (r: u32)
    ensures
        r == spec_api_version_minor(version),
{
    vk::api_version_minor(version)
}

/// Calls `ash::vk::api_version_patch`; the result is taken to be the low
/// twelve bits of `version`.
#[verifier::external_body]
pub(crate) fn api_version_patch(version: u32) -> (r: u32)
    ensures
        r == spec_api_version_patch(version),
{
    vk::api_version_patch(version)
}

/// Calls `ash::vk::FormatFeatureFlags::intersects` on two raw flag words;
/// the result is taken to be whether they share a set bit, as `ash`'s
/// definition (`self.0 & other.0 != 0`) computes.
#[verifier::external_body]
pub(crate) fn format_features_intersect(features: u32, wanted: u32) -> (r: bool)
    ensures
        r == (features & wanted != 0),
{
    vk::FormatFeatureFlags::from_raw(features).intersects(vk::FormatFeatureFlags::from_raw(wanted))
}

/// Reads the raw bits of `ash::vk::FormatFeatureFlags::STORAGE_TEXEL_BUFFER`
/// with `as_raw`; `ash` defines that flag as bit 4.
#[verifier::external_body]
pub(crate) fn storage_texel_buffer_feature() -> (r: u32)
    ensures
        r == 0x10,
{
    vk::FormatFeatureFlags::STORAGE_TEXEL_BUFFER.as_raw()
}

/// Calls `ash::vk::QueueFlags::contains` on two raw flag words; the result
/// is taken to be whether every bit of `wanted` is set in `flags`, as
/// `ash`'s definition (`self.0 & other.0 == other.0`) computes.
#[verifier::external_body]
pub(crate) fn queue_flags_contain(flags: u32, wanted: u32) -> (r: bool)
    ensures
        r == (flags & wanted == wanted),
{
    vk::QueueFlags::from_raw(flags).contains(vk::QueueFlags::from_raw(wanted))
}

/// Reads the raw bits of `ash::vk::QueueFlags::COMPUTE` with `as_raw`;
/// `ash` defines that flag as bit 1.
#[verifier::external_body]
pub(crate) fn compute_queue_flag() -> (r: u32)
    ensures
        r == 0x2,
{
    vk::QueueFlags::COMPUTE.as_raw()
}

/// Calls `ash::vk::MemoryPropertyFlags::contains` on two raw flag words;
/// the result is taken to be whether every bit of `wanted` is set in
/// `flags`, as `ash`'s definition (`self.0 & other.0 == other.0`) computes.
#[verifier::external_body]
pub(crate) fn memory_properties_contain(flags: u32, wanted: u32) -> (r: bool)
    ensures
        r == (flags & wanted == wanted),
{
    vk::MemoryPropertyFlags::from_raw(flags).contains(vk::MemoryPropertyFlags::from_raw(wanted))
}

/// Reads the raw bits of `ash::vk::MemoryPropertyFlags::DEVICE_LOCAL` with
/// `as_raw`; `ash` defines that flag as bit 0.
#[verifier::external_body]
pub(crate) fn device_local_memory_flag() -> (r: u32)
    ensures
        r == 0x1,
{
    vk::MemoryPropertyFlags::DEVICE_LOCAL.as_raw()
}

} // verus!
