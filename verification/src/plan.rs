//! Sizes and layouts of the Vulkan objects the compute phases create:
//! descriptor set layouts and pools, storage buffer sizes, compute dispatch
//! sizes and the row-major layout of matrices in those buffers.

use vstd::prelude::*;

verus! {

/// Bytes in one `f32` element of a storage buffer.
pub const F32_BYTES: usize = 4;

/// Threads in one compute workgroup.
pub const WORKGROUP_SIZE: u32 = 256;

/// Side of the square matrix tile that one dispatch multiplies.
pub const TILE_SIZE: u32 = 64;

/// Side of a workgroup's square thread layout (16 x 16 = 256 threads).
pub const WORKGROUP_SIDE: u32 = 16;

/// Length of the vectors that the vector addition phase adds.
pub const VECTOR_SIZE: usize = 1024;

/// Floats held by the storage buffer that the foundation phase creates.
pub const FOUNDATION_BUFFER_FLOATS: usize = 256;

/// One binding of a descriptor set layout: a storage buffer visible to the
/// compute stage.
#[derive(Clone, Copy, Debug, PartialEq, Eq, Structural)]
pub struct StorageBinding {
    pub binding: u32,
    pub descriptor_count: u32,
}

/// The storage buffer binding at slot `i`, holding one descriptor.
pub open spec fn spec_storage_binding(i: int) -> StorageBinding {
    StorageBinding { binding: i as u32, descriptor_count: 1 }
}

/// The binding at slot `i` (any slot a `u32` can number) is binding number
/// `i` with one descriptor, so distinct slots never share a binding number.
pub proof fn lemma_storage_binding_slot()
    ensures
        forall|i: int|
            0 <= i <= u32::MAX ==> (#[trigger] spec_storage_binding(i)).binding == i
                && spec_storage_binding(i).descriptor_count == 1,
{
}

/// The bindings of a descriptor set layout with `binding_count` storage
/// buffers: slots `0..binding_count`, one descriptor each.
pub fn storage_buffer_bindings(binding_count: u32) -> (r: Vec<StorageBinding>)
    ensures
        r@.len() == binding_count,
        forall|i: int| 0 <= i < binding_count ==> #[trigger] r@[i] == spec_storage_binding(i),
        forall|i: int|
            0 <= i < binding_count ==> (#[trigger] r@[i]).binding == i && r@[i].descriptor_count == 1,
        forall|i: int, j: int|
            0 <= i < j < binding_count ==> (#[trigger] r@[i]).binding != (#[trigger] r@[j]).binding,
{
    proof {
        lemma_storage_binding_slot();
    }
    let mut bindings: Vec<StorageBinding> = Vec::new();
    let mut i: u32 = 0;
    while i < binding_count
        invariant
            i <= binding_count,
            bindings@.len() == i,
            forall|j: int| 0 <= j < i ==> #[trigger] bindings@[j] == spec_storage_binding(j),
        decreases binding_count - i,
    {
        bindings.push(StorageBinding { binding: i, descriptor_count: 1 });
        i = i + 1;
    }
    bindings
}

/// A descriptor pool: how many sets it may hand out, and its pool sizes,
/// each the number of storage buffer descriptors of one entry.
#[derive(Debug)]
pub struct DescriptorPoolPlan {
    pub max_sets: u32,
    pub storage_buffer_counts: Vec<u32>,
}

/// The pool for `max_sets` sets, with a single pool size of
/// `binding_count` storage buffer descriptors.
pub fn descriptor_pool_plan(max_sets: u32, binding_count: u32) -> (r: DescriptorPoolPlan)
    ensures
        r.max_sets == max_sets,
        r.storage_buffer_counts@ == seq![binding_count],
{
    let mut counts: Vec<u32> = Vec::new();
    counts.push(binding_count);
    DescriptorPoolPlan { max_sets, storage_buffer_counts: counts }
}

/// The layouts handed to a descriptor set allocation: `count` copies of the
/// one layout, one per set.
pub fn repeated_layouts<T: Copy>(layout: T, count: u32) -> (r: Vec<T>)
    ensures
        r@.len() == count,
        forall|i: int| 0 <= i < count ==> #[trigger] r@[i] == layout,
{
    let mut layouts: Vec<T> = Vec::new();
    let mut i: u32 = 0;
    while i < count
        invariant
            i <= count,
            layouts@.len() == i,
            forall|j: int| 0 <= j < i ==> #[trigger] layouts@[j] == layout,
        decreases count - i,
    {
        layouts.push(layout);
        i = i + 1;
    }
    layouts
}

/// The size in bytes of a storage buffer of `element_count` floats.
pub fn f32_buffer_size(element_count: usize) -> (r: u64)
    requires
        element_count * F32_BYTES <= usize::MAX,
    ensures
        r == element_count * F32_BYTES,
{
    (element_count * F32_BYTES) as u64
}

/// The number of workgroups of `group_size` invocations needed for
/// `items` invocations: `items / group_size`, rounded up.
pub open spec fn spec_group_count(items: int, group_size: int) -> int {
    (items + group_size - 1) / group_size
}

/// The number of workgroups to dispatch so that every one of `items`
/// invocations runs, with `group_size` invocations per group. The count is
/// the least that covers all items.
pub fn dispatch_group_count(items: usize, group_size: usize) -> (r: usize)
    requires
        group_size > 0,
        items + group_size - 1 <= usize::MAX,
    ensures
        r == spec_group_count(items as int, group_size as int),
        r * group_size >= items,
        r == 0 || (r - 1) * group_size < items,
{
    let r = (items + (group_size - 1)) / group_size;
    proof {
        lemma_group_count_covers(items as int, group_size as int);
    }
    r
}

/// The rounded-up group count covers all items, and one group fewer would
/// not.
pub proof fn lemma_group_count_covers(items: int, group_size: int)
    requires
        items >= 0,
        group_size > 0,
    ensures
        spec_group_count(items, group_size) * group_size >= items,
        spec_group_count(items, group_size) == 0
            || (spec_group_count(items, group_size) - 1) * group_size < items,
{
    let q = spec_group_count(items, group_size);
    let n = items + group_size - 1;
    assert(q * group_size <= n && n < q * group_size + group_size) by (nonlinear_arith)
        requires
            q == n / group_size,
            group_size > 0,
            n >= 0,
    ;
    assert((q - 1) * group_size == q * group_size - group_size) by (nonlinear_arith);
}

/// The position of element `(row, col)` of an `n` x `n` matrix stored row
/// by row.
pub open spec fn spec_row_major_index(n: int, row: int, col: int) -> int {
    row * n + col
}

/// The position of element `(row, col)` of an `n` x `n` matrix stored row
/// by row in a flat buffer.
pub fn row_major_index(n: usize, row: usize, col: usize) -> (r: usize)
    requires
        row < n,
        col < n,
        n * n <= usize::MAX,
    ensures
        r == spec_row_major_index(n as int, row as int, col as int),
        r == row * n + col,
        r < n * n,
{
    proof {
        lemma_row_major_in_bounds(n as int, row as int, col as int);
    }
    row * n + col
}

/// Every element of an `n` x `n` matrix lies within the `n * n` buffer.
pub proof fn lemma_row_major_in_bounds(n: int, row: int, col: int)
    requires
        0 <= row < n,
        0 <= col < n,
    ensures
        0 <= spec_row_major_index(n, row, col) < n * n,
{
    assert(row * n + col < n * n) by (nonlinear_arith)
        requires
            0 <= row < n,
            0 <= col < n,
    ;
    assert(0 <= row * n) by (nonlinear_arith)
        requires
            0 <= row,
            0 <= n,
    ;
}

/// Distinct elements of an `n` x `n` matrix have distinct positions in the
/// buffer, so the row-major layout never makes two elements share a slot.
pub proof fn lemma_row_major_injective(n: int, r1: int, c1: int, r2: int, c2: int)
    requires
        0 <= r1 < n,
        0 <= c1 < n,
        0 <= r2 < n,
        0 <= c2 < n,
        spec_row_major_index(n, r1, c1) == spec_row_major_index(n, r2, c2),
    ensures
        r1 == r2,
        c1 == c2,
{
    assert(r1 == r2) by (nonlinear_arith)
        requires
            0 <= c1 < n,
            0 <= c2 < n,
            r1 * n + c1 == r2 * n + c2,
            0 <= r1,
            0 <= r2,
    ;
}

/// The storage buffers that an element-wise or matrix kernel binds: two
/// inputs and one output.
pub const KERNEL_STORAGE_BUFFERS: u32 = 3;

/// The sizes of an element-wise vector addition `c = a + b` on the device.
#[derive(Clone, Copy, Debug, PartialEq, Eq, Structural)]
pub struct VectorAddPlan {
    /// Elements in each vector.
    pub length: usize,
    /// Bytes of each of the three storage buffers.
    pub buffer_size: u64,
    /// Storage buffers bound: `a`, `b` and `c`.
    pub storage_buffers: u32,
    /// Invocations per workgroup.
    pub workgroup_size: u32,
    /// Workgroups dispatched, one invocation per element.
    pub dispatch_groups: usize,
}

/// Plans the addition of two vectors of `length` floats with workgroups
/// of `workgroup_size` invocations.
pub fn vector_add_plan(length: usize, workgroup_size: u32) -> (r: VectorAddPlan)
    requires
        workgroup_size > 0,
        length * F32_BYTES <= usize::MAX,
        length + workgroup_size - 1 <= usize::MAX,
    ensures
        r.length == length,
        r.buffer_size == length * F32_BYTES,
        r.storage_buffers == KERNEL_STORAGE_BUFFERS,
        r.workgroup_size == workgroup_size,
        r.dispatch_groups == spec_group_count(length as int, workgroup_size as int),
        r.dispatch_groups * workgroup_size >= length,
        r.dispatch_groups == 0 || (r.dispatch_groups - 1) * workgroup_size < length,
{
    let buffer_size = f32_buffer_size(length);
    let dispatch_groups = dispatch_group_count(length, workgroup_size as usize);
    VectorAddPlan {
        length,
        buffer_size,
        storage_buffers: KERNEL_STORAGE_BUFFERS,
        workgroup_size,
        dispatch_groups,
    }
}

/// The sizes of a square matrix product `C = A x B` on the device.
#[derive(Clone, Copy, Debug, PartialEq, Eq, Structural)]
pub struct MatmulPlan {
    /// Side of the square matrices.
    pub matrix_size: usize,
    /// Elements in each matrix.
    pub element_count: usize,
    /// Bytes of each of the three storage buffers.
    pub buffer_size: u64,
    /// Storage buffers bound: `A`, `B` and `C`.
    pub storage_buffers: u32,
    /// Side of a workgroup's square thread layout.
    pub workgroup_side: u32,
    /// Threads in one workgroup.
    pub workgroup_threads: u32,
    /// Workgroups dispatched along x, y and z.
    pub groups_x: u32,
    pub groups_y: u32,
    pub groups_z: u32,
}

/// Plans the product of two `matrix_size` x `matrix_size` matrices with
/// square workgroups of `workgroup_side` x `workgroup_side` threads, one
/// thread per element of the result.
pub fn matmul_plan(matrix_size: u32, workgroup_side: u32) -> (r: MatmulPlan)
    requires
        workgroup_side > 0,
        workgroup_side * workgroup_side <= u32::MAX,
        matrix_size * matrix_size * F32_BYTES <= usize::MAX,
        matrix_size + workgroup_side - 1 <= usize::MAX,
    ensures
        r.matrix_size == matrix_size,
        r.element_count == matrix_size * matrix_size,
        r.buffer_size == matrix_size * matrix_size * F32_BYTES,
        r.storage_buffers == KERNEL_STORAGE_BUFFERS,
        r.workgroup_side == workgroup_side,
        r.workgroup_threads == workgroup_side * workgroup_side,
        r.groups_x == spec_group_count(matrix_size as int, workgroup_side as int),
        r.groups_y == r.groups_x,
        r.groups_z == 1,
        r.groups_x * workgroup_side >= matrix_size,
        r.groups_x == 0 || (r.groups_x - 1) * workgroup_side < matrix_size,
{
    let n = matrix_size as usize;
    assert(n * n <= n * n * F32_BYTES) by (nonlinear_arith);
    let element_count = n * n;
    let buffer_size = f32_buffer_size(element_count);
    let groups = dispatch_group_count(n, workgroup_side as usize);
    assert(groups <= n) by (nonlinear_arith)
        requires
            groups == (n + workgroup_side - 1) / (workgroup_side as int),
            workgroup_side >= 1,
    ;
    MatmulPlan {
        matrix_size: n,
        element_count,
        buffer_size,
        storage_buffers: KERNEL_STORAGE_BUFFERS,
        workgroup_side,
        workgroup_threads: workgroup_side * workgroup_side,
        groups_x: groups as u32,
        groups_y: groups as u32,
        groups_z: 1,
    }
}

} // verus!
