use vulkan_gemm::capabilities::{storage_texel_support, FormatFeatures, Tiling};
use vulkan_gemm::plan::{
    descriptor_pool_plan, dispatch_group_count, f32_buffer_size, matmul_plan, repeated_layouts,
    row_major_index, storage_buffer_bindings, vector_add_plan, StorageBinding,
    FOUNDATION_BUFFER_FLOATS, KERNEL_STORAGE_BUFFERS, TILE_SIZE, VECTOR_SIZE, WORKGROUP_SIDE,
    WORKGROUP_SIZE,
};
use vulkan_gemm::selection::{
    find_compute_queue_family, find_device_local_memory_type, find_memory_type,
    first_physical_device, ContextError,
};
use vulkan_gemm::shader::{
    compute_shader_spirv, get_fill_buffer_shader_spirv, get_shader_spirv, OP_CAPABILITY,
    OP_ENTRY_POINT, OP_EXECUTION_MODE, OP_FUNCTION_END, OP_MEMORY_MODEL, OP_RETURN, SPIRV_MAGIC,
};
use vulkan_gemm::version::{application_version, decode_api_version, target_api_version, ApiVersion};

#[test]
fn decodes_target_api_version() {
    assert_eq!(target_api_version(), 0x402000);
    assert_eq!(
        decode_api_version(target_api_version()),
        ApiVersion { major: 1, minor: 2, patch: 0 }
    );
}

#[test]
fn application_version_is_0_1_0() {
    assert_eq!(application_version(), 4096);
    assert_eq!(
        decode_api_version(application_version()),
        ApiVersion { major: 0, minor: 1, patch: 0 }
    );
}

#[test]
fn decodes_reported_driver_version() {
    // 1.3.251 as a device reports it
    let v = (1u32 << 22) | (3 << 12) | 251;
    assert_eq!(v, 4206843);
    assert_eq!(decode_api_version(v), ApiVersion { major: 1, minor: 3, patch: 251 });
}

#[test]
fn decoding_ignores_variant_and_keeps_widest_parts() {
    // variant 7 and the largest major, minor and patch that fit their fields
    let v = (7u32 << 29) | (127 << 22) | (1023 << 12) | 4095;
    assert_eq!(decode_api_version(v), ApiVersion { major: 127, minor: 1023, patch: 4095 });
    assert_eq!(decode_api_version(0), ApiVersion { major: 0, minor: 0, patch: 0 });
}

#[test]
fn storage_texel_support_lists_matching_tilings_in_order() {
    let all = FormatFeatures { linear_tiling: 0x10, optimal_tiling: 0x1f, buffer: 0xffff_ffff };
    assert_eq!(storage_texel_support(&all), vec![Tiling::Linear, Tiling::Optimal, Tiling::Buffer]);
    let some = FormatFeatures { linear_tiling: 0x0f, optimal_tiling: 0x10, buffer: 0x18 };
    assert_eq!(storage_texel_support(&some), vec![Tiling::Optimal, Tiling::Buffer]);
}

#[test]
fn storage_texel_support_empty_when_bit_missing() {
    let none = FormatFeatures { linear_tiling: 0, optimal_tiling: 0x08, buffer: 0xffef };
    assert_eq!(storage_texel_support(&none), Vec::<Tiling>::new());
}

#[test]
fn tiling_labels() {
    assert_eq!(Tiling::Linear.label(), "linear");
    assert_eq!(Tiling::Optimal.label(), "optimal");
    assert_eq!(Tiling::Buffer.label(), "buffer");
}

#[test]
fn first_device_is_chosen() {
    let devices: Vec<u64> = vec![7, 8, 9];
    assert_eq!(first_physical_device(&devices), Ok(7));
    let none: Vec<u64> = Vec::new();
    assert_eq!(first_physical_device(&none), Err(ContextError::NoDevice));
}

#[test]
fn first_compute_queue_family_is_chosen() {
    // graphics only, graphics + compute, compute only
    assert_eq!(find_compute_queue_family(&[0x1, 0x3, 0x2]), Ok(1));
    assert_eq!(find_compute_queue_family(&[0x6]), Ok(0));
}

#[test]
fn no_compute_queue_family() {
    assert_eq!(
        find_compute_queue_family(&[0x1, 0x4, 0x8]),
        Err(ContextError::NoComputeQueueFamily)
    );
    assert_eq!(find_compute_queue_family(&[]), Err(ContextError::NoComputeQueueFamily));
}

#[test]
fn memory_type_must_be_allowed_and_have_all_properties() {
    // type 0 is not allowed by the bits, type 1 lacks the property, type 2 fits
    assert_eq!(find_memory_type(0b0110, 0x1, &[0x1, 0x0, 0x1, 0x1]), Ok(2));
    // every wanted bit must be present, not just one of them
    assert_eq!(find_memory_type(0b11, 0x3, &[0x1, 0x7]), Ok(1));
    assert_eq!(find_memory_type(0xffff_ffff, 0x0, &[0x0]), Ok(0));
}

#[test]
fn no_suitable_memory_type() {
    assert_eq!(
        find_memory_type(0b0001, 0x2, &[0x1, 0x2]),
        Err(ContextError::NoSuitableMemoryType)
    );
    assert_eq!(find_memory_type(0xffff_ffff, 0x1, &[]), Err(ContextError::NoSuitableMemoryType));
}

#[test]
fn device_local_memory_type() {
    // host-visible (0x2), then host-visible + device-local (0x3)
    assert_eq!(find_device_local_memory_type(0b11, &[0x2, 0x3]), Ok(1));
    assert_eq!(
        find_device_local_memory_type(0b01, &[0x2, 0x3]),
        Err(ContextError::NoSuitableMemoryType)
    );
    let mut all = vec![0u32; 31];
    all.push(0x1);
    assert_eq!(find_device_local_memory_type(1 << 31, &all), Ok(31));
}

#[test]
fn error_messages() {
    assert_eq!(ContextError::NoDevice.message(), "No Vulkan device found");
    assert_eq!(ContextError::NoComputeQueueFamily.message(), "No compute queue family found");
    assert_eq!(ContextError::NoSuitableMemoryType.message(), "No suitable memory type found");
}

#[test]
fn layout_bindings_are_consecutive_single_storage_buffers() {
    assert_eq!(
        storage_buffer_bindings(3),
        vec![
            StorageBinding { binding: 0, descriptor_count: 1 },
            StorageBinding { binding: 1, descriptor_count: 1 },
            StorageBinding { binding: 2, descriptor_count: 1 },
        ]
    );
    assert_eq!(storage_buffer_bindings(0), Vec::<StorageBinding>::new());
}

#[test]
fn pool_holds_one_size_entry() {
    let pool = descriptor_pool_plan(1, 3);
    assert_eq!(pool.max_sets, 1);
    assert_eq!(pool.storage_buffer_counts, vec![3]);
}

#[test]
fn one_layout_per_set() {
    assert_eq!(repeated_layouts(5u64, 3), vec![5, 5, 5]);
    assert_eq!(repeated_layouts(5u64, 0), Vec::<u64>::new());
}

#[test]
fn buffer_sizes_in_bytes() {
    assert_eq!(f32_buffer_size(FOUNDATION_BUFFER_FLOATS), 1024);
    assert_eq!(f32_buffer_size(VECTOR_SIZE), 4096);
    assert_eq!(f32_buffer_size(0), 0);
}

#[test]
fn group_counts_round_up() {
    assert_eq!(dispatch_group_count(1024, 256), 4);
    assert_eq!(dispatch_group_count(1025, 256), 5);
    assert_eq!(dispatch_group_count(1, 256), 1);
    assert_eq!(dispatch_group_count(0, 256), 0);
    assert_eq!(dispatch_group_count(7, 1), 7);
}

#[test]
fn vector_addition_plan() {
    let plan = vector_add_plan(VECTOR_SIZE, WORKGROUP_SIZE);
    assert_eq!(plan.length, 1024);
    assert_eq!(plan.buffer_size, 4096);
    assert_eq!(plan.storage_buffers, KERNEL_STORAGE_BUFFERS);
    assert_eq!(plan.workgroup_size, 256);
    assert_eq!(plan.dispatch_groups, 4);
}

#[test]
fn tile_product_plan() {
    let plan = matmul_plan(TILE_SIZE, WORKGROUP_SIDE);
    assert_eq!(plan.matrix_size, 64);
    assert_eq!(plan.element_count, 4096);
    assert_eq!(plan.buffer_size, 16384);
    assert_eq!(plan.storage_buffers, 3);
    assert_eq!(plan.workgroup_threads, WORKGROUP_SIZE);
    assert_eq!((plan.groups_x, plan.groups_y, plan.groups_z), (4, 4, 1));
}

#[test]
fn uneven_matrix_gets_partial_groups() {
    let plan = matmul_plan(65, 16);
    assert_eq!((plan.groups_x, plan.groups_y, plan.groups_z), (5, 5, 1));
    assert_eq!(plan.element_count, 4225);
}

#[test]
fn row_major_positions() {
    assert_eq!(row_major_index(64, 0, 0), 0);
    assert_eq!(row_major_index(64, 1, 1), 65);
    assert_eq!(row_major_index(64, 31, 31), 2015);
    assert_eq!(row_major_index(64, 63, 63), 4095);
    assert_eq!(row_major_index(3, 2, 0), 6);
}

#[test]
fn shader_words() {
    let words = get_fill_buffer_shader_spirv();
    assert_eq!(
        words,
        vec![
            0x07230203, 0x00010300, 0x0008000a, 0x23, 0,
            0x00020011, 1,
            0x0003000e, 0, 1,
            0x0005000f, 5, 4, 0x6e69616d, 0,
            0x00060010, 4, 17, 1, 1, 1,
            0x00020013, 2,
            0x00030021, 3, 2,
            0x00050036, 2, 4, 0, 3,
            0x000200f8, 9,
            0x000100fd,
            0x00010038,
        ]
    );
    assert_eq!(words[0], SPIRV_MAGIC);
}

#[test]
fn shader_instruction_stream_walks_to_the_end() {
    let words = get_fill_buffer_shader_spirv();
    let mut p = 5;
    let mut opcodes = Vec::new();
    while p < words.len() {
        let count = (words[p] >> 16) as usize;
        assert!(count >= 1);
        opcodes.push(words[p] & 0xffff);
        p += count;
    }
    assert_eq!(p, words.len());
    assert_eq!(
        opcodes,
        vec![OP_CAPABILITY, OP_MEMORY_MODEL, OP_ENTRY_POINT, OP_EXECUTION_MODE, 19, 33, 54, 248, OP_RETURN, OP_FUNCTION_END]
    );
}

#[test]
fn tile_shader_declares_plan_workgroup() {
    let plan = matmul_plan(TILE_SIZE, WORKGROUP_SIDE);
    let words = compute_shader_spirv(plan.workgroup_side, plan.workgroup_side, 1);
    assert_eq!(&words[15..21], &[0x00060010, 4, 17, 16, 16, 1]);
    assert_eq!(words.len(), 35);
    assert_eq!(plan.groups_x * words[18], 64);
    assert_eq!(plan.groups_y * words[19], 64);
}

#[test]
fn project_shader_is_fill_buffer_shader() {
    assert_eq!(get_shader_spirv(), get_fill_buffer_shader_spirv());
}
