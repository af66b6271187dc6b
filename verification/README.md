# vulkan_gemm

Host-side logic of a small Vulkan compute project (vector addition and a
64×64 tile matrix product), written in Verus.

- `src/` is the verified library: API version numbers, storage-texel format
  support, choice of physical device, compute queue family and memory type,
  descriptor layouts and pools, buffer and dispatch sizes, the row-major
  matrix layout, and the compute shader's SPIR-V words. `src/vk_ops.rs` holds
  the few trusted bridges to `ash`'s pure helpers.
- `app/` is the program: it loads Vulkan through `ash`, makes the driver
  calls, does the floating-point reference computations and prints reports,
  taking every decision from the library.
- `tests/` runs the library on concrete values.
