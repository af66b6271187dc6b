//! The choices made when a Vulkan context is set up: which physical device,
//! which queue family and which memory type to use.

use crate::vk_ops::{
    compute_queue_flag, device_local_memory_flag, memory_properties_contain, queue_flags_contain,
};
use vstd::prelude::*;

verus! {

/// Why a context could not be set up.
#[derive(Clone, Copy, Debug, PartialEq, Eq, Structural)]
pub enum ContextError {
    /// No physical device was reported.
    NoDevice,
    /// No queue family of the chosen device supports compute work.
    NoComputeQueueFamily,
    /// No memory type is both allowed for the resource and has the wanted
    /// properties.
    NoSuitableMemoryType,
}

impl ContextError {
    /// The message with which the error is reported.
    pub fn message(&self) -> (r: &'static str)
        ensures
            *self == ContextError::NoDevice ==> r@ == "No Vulkan device found"@,
            *self == ContextError::NoComputeQueueFamily ==> r@ == "No compute queue family found"@,
            *self == ContextError::NoSuitableMemoryType ==> r@ == "No suitable memory type found"@,
    {
        match self {
            ContextError::NoDevice => "No Vulkan device found",
            ContextError::NoComputeQueueFamily => "No compute queue family found",
            ContextError::NoSuitableMemoryType => "No suitable memory type found",
        }
    }
}

/// Picks the first of the reported physical devices.
pub fn first_physical_device<T: Copy>(devices: &[T]) -> (r: Result<T, ContextError>)
    ensures
        devices@.len() == 0 <==> r == Err::<T, ContextError>(ContextError::NoDevice),
        devices@.len() > 0 ==> r == Ok::<T, ContextError>(devices@[0]),
{
    if devices.len() == 0 {
        Err(ContextError::NoDevice)
    } else {
        Ok(devices[0])
    }
}

/// The queue flag bit that marks compute support.
pub open spec fn compute_bit() -> u32 {
    0x2
}

/// Whether a queue family's flags include compute.
pub open spec fn supports_compute(flags: u32) -> bool {
    flags & compute_bit() == compute_bit()
}

/// A queue family supports compute exactly when bit 0x2 of its flags is
/// set, whatever its other bits (graphics, transfer, sparse binding, ...).
pub proof fn lemma_supports_compute_is_bit()
    ensures
        forall|flags: u32| #[trigger] supports_compute(flags) <==> flags & 0x2 != 0,
{
    assert forall|flags: u32| #[trigger] supports_compute(flags) <==> flags & 0x2 != 0 by {
        assert((flags & 0x2u32 == 0x2u32) <==> (flags & 0x2u32 != 0u32)) by (bit_vector);
    }
}

/// `k` is the position of the first queue family that supports compute.
pub open spec fn is_first_compute_family(families: Seq<u32>, k: int) -> bool {
    &&& 0 <= k < families.len()
    &&& supports_compute(families[k])
    &&& forall|j: int| 0 <= j < k ==> !supports_compute(#[trigger] families[j])
}

/// Finds the index of the first queue family (given by its raw queue flags)
/// that supports compute work. The index is reported as a `u32`, as Vulkan
/// numbers queue families.
pub fn find_compute_queue_family(families: &[u32]) -> (r: Result<u32, ContextError>)
    ensures
        r matches Ok(idx) ==> exists|k: int|
            is_first_compute_family(families@, k) && idx == k as u32,
        families@.len() <= u32::MAX ==> (r matches Ok(idx) ==> is_first_compute_family(
            families@,
            idx as int,
        )),
        r is Err <==> forall|j: int| 0 <= j < families@.len() ==> !supports_compute(#[trigger] families@[j]),
        r is Err ==> r == Err::<u32, ContextError>(ContextError::NoComputeQueueFamily),
        // the same, on the raw flag words: bit 0x2 decides, whatever else is set
        r is Err <==> forall|j: int| 0 <= j < families@.len() ==> #[trigger] families@[j] & 0x2 == 0,
        families@.len() <= u32::MAX ==> (r matches Ok(idx) ==> {
            &&& idx < families@.len()
            &&& families@[idx as int] & 0x2 != 0
            &&& forall|j: int| 0 <= j < idx ==> #[trigger] families@[j] & 0x2 == 0
        }),
{
    proof {
        lemma_supports_compute_is_bit();
    }
    let compute = compute_queue_flag();
    let mut i: usize = 0;
    while i < families.len()
        invariant
            i <= families@.len(),
            compute == compute_bit(),
            forall|j: int| 0 <= j < i ==> !supports_compute(#[trigger] families@[j]),
        decreases families@.len() - i,
    {
        if queue_flags_contain(families[i], compute) {
            assert(is_first_compute_family(families@, i as int));
            proof {
                lemma_supports_compute_is_bit();
                assert(supports_compute(families@[i as int]));
                assert forall|j: int| 0 <= j < i implies #[trigger] families@[j] & 0x2 == 0 by {
                    assert(!supports_compute(families@[j]));
                }
            }
            return Ok(#[verifier::truncate] (i as u32));
        }
        i = i + 1;
    }
    proof {
        lemma_supports_compute_is_bit();
        assert forall|j: int| 0 <= j < families@.len() implies #[trigger] families@[j] & 0x2 == 0 by {
            assert(!supports_compute(families@[j]));
        }
    }
    Err(ContextError::NoComputeQueueFamily)
}

/// The largest number of memory types a device reports.
pub const MAX_MEMORY_TYPES: usize = 32;

/// Memory type `i` may hold the resource: bit `i` of `type_bits` is set and
/// the type's property flags include every wanted property.
pub open spec fn memory_type_suitable(type_bits: u32, wanted: u32, types: Seq<u32>, i: int) -> bool {
    &&& 0 <= i < types.len()
    &&& type_bits & (1u32 << (i as u32)) != 0
    &&& types[i] & wanted == wanted
}

/// `r` reports the first suitable memory type, or that there is none.
pub open spec fn memory_type_choice(
    type_bits: u32,
    wanted: u32,
    types: Seq<u32>,
    r: Result<u32, ContextError>,
) -> bool {
    match r {
        Ok(i) => {
            &&& memory_type_suitable(type_bits, wanted, types, i as int)
            &&& forall|j: int| 0 <= j < i ==> !memory_type_suitable(type_bits, wanted, types, j)
        },
        Err(e) => {
            &&& e == ContextError::NoSuitableMemoryType
            &&& forall|j: int| 0 <= j < types.len() ==> !memory_type_suitable(type_bits, wanted, types, j)
        },
    }
}

/// Memory type `i` (one of the first 32) is suitable exactly when bit `i`
/// of `type_bits` is set and its property flags include every wanted bit;
/// the type's other property bits never exclude it.
pub proof fn lemma_memory_type_suitable_is_bits(type_bits: u32, wanted: u32, types: Seq<u32>)
    requires
        types.len() <= 32,
    ensures
        forall|i: int|
            0 <= i < types.len() ==> (#[trigger] memory_type_suitable(type_bits, wanted, types, i) <==> (
            (type_bits >> (i as u32)) & 1 == 1 && types[i] & wanted == wanted)),
{
    assert forall|i: int|
        0 <= i < types.len() implies (#[trigger] memory_type_suitable(type_bits, wanted, types, i)
        <==> ((type_bits >> (i as u32)) & 1 == 1 && types[i] & wanted == wanted)) by {
        let s = i as u32;
        assert(s < 32);
        assert((type_bits & (1u32 << s) != 0u32) <==> ((type_bits >> s) & 1u32 == 1u32)) by (bit_vector)
            requires
                s < 32,
        ;
    }
}

/// Finds the first memory type that the resource may use (its bit is set in
/// `type_bits`) and whose property flags include all of `wanted`. The
/// memory types are given by their raw property flags, in the order the
/// device reports them.
pub fn find_memory_type(type_bits: u32, wanted: u32, memory_types: &[u32]) -> (r: Result<
    u32,
    ContextError,
>)
    requires
        memory_types@.len() <= MAX_MEMORY_TYPES,
    ensures
        memory_type_choice(type_bits, wanted, memory_types@, r),
        // the same, on raw bits: type i may be chosen exactly when bit i of
        // `type_bits` is set and its flags include every wanted bit; no
        // other property bit of the type matters
        r matches Ok(i) ==> {
            &&& i < memory_types@.len()
            &&& (type_bits >> i) & 1 == 1
            &&& memory_types@[i as int] & wanted == wanted
            &&& forall|j: int|
                0 <= j < i ==> !((type_bits >> (j as u32)) & 1 == 1 && #[trigger] memory_types@[j]
                    & wanted == wanted)
        },
        r is Err <==> forall|j: int|
            0 <= j < memory_types@.len() ==> !((type_bits >> (j as u32)) & 1 == 1
                && #[trigger] memory_types@[j] & wanted == wanted),
        r is Err ==> r == Err::<u32, ContextError>(ContextError::NoSuitableMemoryType),
{
    proof {
        lemma_memory_type_suitable_is_bits(type_bits, wanted, memory_types@);
    }
    let count = memory_types.len() as u32;
    let mut i: u32 = 0;
    while i < count
        invariant
            count == memory_types@.len(),
            count <= 32,
            i <= count,
            forall|j: int| 0 <= j < i ==> !memory_type_suitable(type_bits, wanted, memory_types@, j),
        decreases count - i,
    {
        if (type_bits & (1u32 << i)) != 0 && memory_properties_contain(memory_types[i as usize], wanted) {
            proof {
                lemma_memory_type_suitable_is_bits(type_bits, wanted, memory_types@);
                assert(memory_type_suitable(type_bits, wanted, memory_types@, i as int));
                assert forall|j: int| 0 <= j < i implies !((type_bits >> (j as u32)) & 1 == 1
                    && #[trigger] memory_types@[j] & wanted == wanted) by {
                    assert(!memory_type_suitable(type_bits, wanted, memory_types@, j));
                }
            }
            return Ok(i);
        }
        i = i + 1;
    }
    proof {
        lemma_memory_type_suitable_is_bits(type_bits, wanted, memory_types@);
        assert forall|j: int| 0 <= j < memory_types@.len() implies !((type_bits >> (j as u32)) & 1
            == 1 && #[trigger] memory_types@[j] & wanted == wanted) by {
            assert(!memory_type_suitable(type_bits, wanted, memory_types@, j));
        }
    }
    Err(ContextError::NoSuitableMemoryType)
}

/// Finds the first device-local memory type that the resource may use, as
/// buffer memory is allocated.
pub fn find_device_local_memory_type(type_bits: u32, memory_types: &[u32]) -> (r: Result<
    u32,
    ContextError,
>)
    requires
        memory_types@.len() <= MAX_MEMORY_TYPES,
    ensures
        memory_type_choice(type_bits, 0x1, memory_types@, r),
        // the same, on raw bits: type i may be chosen exactly when bit i of
        // `type_bits` is set and its flags include every wanted bit; no
        // other property bit of the type matters
        r matches Ok(i) ==> {
            &&& i < memory_types@.len()
            &&& (type_bits >> i) & 1 == 1
            &&& memory_types@[i as int] & 0x1 == 0x1
            &&& forall|j: int|
                0 <= j < i ==> !((type_bits >> (j as u32)) & 1 == 1 && #[trigger] memory_types@[j]
                    & 0x1 == 0x1)
        },
        r is Err <==> forall|j: int|
            0 <= j < memory_types@.len() ==> !((type_bits >> (j as u32)) & 1 == 1
                && #[trigger] memory_types@[j] & 0x1 == 0x1),
        r is Err ==> r == Err::<u32, ContextError>(ContextError::NoSuitableMemoryType),
{
    let wanted = device_local_memory_flag();
    find_memory_type(type_bits, wanted, memory_types)
}

/// The memory type choice is determined by its inputs: two results that
/// both report the first suitable memory type (or that there is none) are
/// the same result.
pub proof fn lemma_memory_type_choice_unique(
    type_bits: u32,
    wanted: u32,
    types: Seq<u32>,
    r1: Result<u32, ContextError>,
    r2: Result<u32, ContextError>,
)
    requires
        memory_type_choice(type_bits, wanted, types, r1),
        memory_type_choice(type_bits, wanted, types, r2),
    ensures
        r1 == r2,
{
    match (r1, r2) {
        (Ok(i), Ok(j)) => {
            if i < j {
                assert(memory_type_suitable(type_bits, wanted, types, i as int));
            } else if j < i {
                assert(memory_type_suitable(type_bits, wanted, types, j as int));
            }
        },
        (Ok(i), Err(_)) => {
            assert(memory_type_suitable(type_bits, wanted, types, i as int));
        },
        (Err(_), Ok(j)) => {
            assert(memory_type_suitable(type_bits, wanted, types, j as int));
        },
        (Err(_), Err(_)) => {},
    }
}

} // verus!
