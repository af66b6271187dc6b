//! Which tilings of an image format can back a storage texel buffer.

use crate::vk_ops::{format_features_intersect, storage_texel_buffer_feature};
use vstd::prelude::*;

verus! {

/// The three ways a format's features are reported: for linear tiling, for
/// optimal tiling, and for buffers.
#[derive(Clone, Copy, Debug, PartialEq, Eq, Structural)]
pub enum Tiling {
    Linear,
    Optimal,
    Buffer,
}

/// The raw feature flag words that a device reports for one format.
#[derive(Clone, Copy, Debug, PartialEq, Eq, Structural)]
pub struct FormatFeatures {
    pub linear_tiling: u32,
    pub optimal_tiling: u32,
    pub buffer: u32,
}

/// The bit with which Vulkan marks a storage texel buffer feature.
pub open spec fn storage_texel_buffer_bit() -> u32 {
    0x10
}

/// Whether a feature word allows storage texel buffers.
pub open spec fn allows_storage_texel(features: u32) -> bool {
    features & storage_texel_buffer_bit() != 0
}

/// The tilings that allow storage texel buffers, in the order linear,
/// optimal, buffer.
pub open spec fn spec_storage_texel_support(f: FormatFeatures) -> Seq<Tiling> {
    (if allows_storage_texel(f.linear_tiling) { seq![Tiling::Linear] } else { seq![] })
        + (if allows_storage_texel(f.optimal_tiling) { seq![Tiling::Optimal] } else { seq![] })
        + (if allows_storage_texel(f.buffer) { seq![Tiling::Buffer] } else { seq![] })
}

impl Tiling {
    /// The word with which a tiling is reported.
    pub fn label(&self) -> (r: &'static str)
        ensures
            *self == Tiling::Linear ==> r@ == "linear"@,
            *self == Tiling::Optimal ==> r@ == "optimal"@,
            *self == Tiling::Buffer ==> r@ == "buffer"@,
    {
        match self {
            Tiling::Linear => "linear",
            Tiling::Optimal => "optimal",
            Tiling::Buffer => "buffer",
        }
    }
}

/// Where a tiling stands in the report: linear, then optimal, then buffer.
pub open spec fn tiling_rank(t: Tiling) -> int {
    match t {
        Tiling::Linear => 0,
        Tiling::Optimal => 1,
        Tiling::Buffer => 2,
    }
}

/// Each tiling is reported exactly when its own feature word has the
/// storage texel buffer bit (0x10) set, whatever the other two words hold;
/// the report lists each tiling at most once, in the order linear,
/// optimal, buffer.
pub proof fn lemma_storage_texel_support_law(f: FormatFeatures)
    ensures
        spec_storage_texel_support(f).contains(Tiling::Linear) <==> f.linear_tiling & 0x10 != 0,
        spec_storage_texel_support(f).contains(Tiling::Optimal) <==> f.optimal_tiling & 0x10 != 0,
        spec_storage_texel_support(f).contains(Tiling::Buffer) <==> f.buffer & 0x10 != 0,
        forall|i: int, j: int|
            0 <= i < j < spec_storage_texel_support(f).len() ==> tiling_rank(
                #[trigger] spec_storage_texel_support(f)[i],
            ) < tiling_rank(#[trigger] spec_storage_texel_support(f)[j]),
{
    let s = spec_storage_texel_support(f);
    if (f.linear_tiling & 0x10 != 0) && (f.optimal_tiling & 0x10 != 0) && (f.buffer & 0x10 != 0) {
        assert(s =~= seq![Tiling::Linear, Tiling::Optimal, Tiling::Buffer]);
        assert(s[0] == Tiling::Linear);
        assert(s[1] == Tiling::Optimal);
        assert(s[2] == Tiling::Buffer);
    }
    if (f.linear_tiling & 0x10 != 0) && (f.optimal_tiling & 0x10 != 0) && !(f.buffer & 0x10 != 0) {
        assert(s =~= seq![Tiling::Linear, Tiling::Optimal]);
        assert(s[0] == Tiling::Linear);
        assert(s[1] == Tiling::Optimal);
    }
    if (f.linear_tiling & 0x10 != 0) && !(f.optimal_tiling & 0x10 != 0) && (f.buffer & 0x10 != 0) {
        assert(s =~= seq![Tiling::Linear, Tiling::Buffer]);
        assert(s[0] == Tiling::Linear);
        assert(s[1] == Tiling::Buffer);
    }
    if (f.linear_tiling & 0x10 != 0) && !(f.optimal_tiling & 0x10 != 0) && !(f.buffer & 0x10 != 0) {
        assert(s =~= seq![Tiling::Linear]);
        assert(s[0] == Tiling::Linear);
    }
    if !(f.linear_tiling & 0x10 != 0) && (f.optimal_tiling & 0x10 != 0) && (f.buffer & 0x10 != 0) {
        assert(s =~= seq![Tiling::Optimal, Tiling::Buffer]);
        assert(s[0] == Tiling::Optimal);
        assert(s[1] == Tiling::Buffer);
    }
    if !(f.linear_tiling & 0x10 != 0) && (f.optimal_tiling & 0x10 != 0) && !(f.buffer & 0x10 != 0) {
        assert(s =~= seq![Tiling::Optimal]);
        assert(s[0] == Tiling::Optimal);
    }
    if !(f.linear_tiling & 0x10 != 0) && !(f.optimal_tiling & 0x10 != 0) && (f.buffer & 0x10 != 0) {
        assert(s =~= seq![Tiling::Buffer]);
        assert(s[0] == Tiling::Buffer);
    }
    if !(f.linear_tiling & 0x10 != 0) && !(f.optimal_tiling & 0x10 != 0) && !(f.buffer & 0x10 != 0) {
        assert(s =~= Seq::<Tiling>::empty());
    }
}

/// Lists the tilings of a format whose features include storage texel
/// buffers, in the order linear, optimal, buffer. An empty list means the
/// format is not supported for that use.
pub fn storage_texel_support(features: &FormatFeatures) -> (r: Vec<Tiling>)
    ensures
        r@ == spec_storage_texel_support(*features),
        r@.contains(Tiling::Linear) <==> features.linear_tiling & 0x10 != 0,
        r@.contains(Tiling::Optimal) <==> features.optimal_tiling & 0x10 != 0,
        r@.contains(Tiling::Buffer) <==> features.buffer & 0x10 != 0,
        forall|i: int, j: int|
            0 <= i < j < r@.len() ==> tiling_rank(#[trigger] r@[i]) < tiling_rank(#[trigger] r@[j]),
{
    proof {
        lemma_storage_texel_support_law(*features);
    }
    let wanted = storage_texel_buffer_feature();
    let mut support: Vec<Tiling> = Vec::new();
    if format_features_intersect(features.linear_tiling, wanted) {
        support.push(Tiling::Linear);
    }
    if format_features_intersect(features.optimal_tiling, wanted) {
        support.push(Tiling::Optimal);
    }
    if format_features_intersect(features.buffer, wanted) {
        support.push(Tiling::Buffer);
    }
    assert(support@ =~= spec_storage_texel_support(*features));
    support
}

} // verus!
