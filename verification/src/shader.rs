//! The SPIR-V words of the project's compute shader modules.
//!
//! Each module is the smallest valid compute shader:
//! `#version 450`, `layout(local_size_x = X, local_size_y = Y, local_size_z = Z) in;`,
//! `void main() {}`. Its entry point `main` returns at once; the module
//! differs only in the workgroup size that its `LocalSize` execution mode
//! declares.

use vstd::prelude::*;

verus! {

/// The magic number that opens every SPIR-V module.
pub const SPIRV_MAGIC: u32 = 0x07230203;

/// Words in a SPIR-V module header (magic, version, generator, id bound,
/// schema); the instruction stream starts after them.
pub const SPIRV_HEADER_WORDS: usize = 5;

/// Opcodes of the instructions the modules use.
pub const OP_MEMORY_MODEL: u32 = 14;
pub const OP_ENTRY_POINT: u32 = 15;
pub const OP_EXECUTION_MODE: u32 = 16;
pub const OP_CAPABILITY: u32 = 17;
pub const OP_TYPE_VOID: u32 = 19;
pub const OP_TYPE_FUNCTION: u32 = 33;
pub const OP_FUNCTION: u32 = 54;
pub const OP_FUNCTION_END: u32 = 56;
pub const OP_LABEL: u32 = 248;
pub const OP_RETURN: u32 = 253;

/// Operand values: the `Shader` capability, the `Logical` addressing model,
/// the `GLSL450` memory model, the `GLCompute` execution model and the
/// `LocalSize` execution mode.
pub const CAPABILITY_SHADER: u32 = 1;
pub const ADDRESSING_LOGICAL: u32 = 0;
pub const MEMORY_MODEL_GLSL450: u32 = 1;
pub const EXECUTION_MODEL_GLCOMPUTE: u32 = 5;
pub const EXECUTION_MODE_LOCAL_SIZE: u32 = 17;

/// The literal string "main" with its terminating zero, in SPIR-V words
/// (four bytes per word, first byte lowest).
pub const MAIN_NAME_WORD: u32 = 0x6e69616d;

/// The first word of an instruction: its word count in the upper 16 bits,
/// its opcode in the lower 16.
pub open spec fn instruction_word(word_count: u32, opcode: u32) -> u32 {
    (word_count * 0x10000 + opcode) as u32
}

/// The word count that an instruction's first word declares.
pub open spec fn word_count(word: u32) -> int {
    word as int / 0x10000
}

/// The opcode that an instruction's first word declares.
pub open spec fn opcode(word: u32) -> int {
    word as int % 0x10000
}

/// The instructions that start at word `p` follow one another without gap
/// or overlap and end exactly at the end of `words`: each declares a word
/// count of at least one, and none runs past the end.
pub open spec fn instructions_from(words: Seq<u32>, p: nat) -> bool
    decreases words.len() - p,
{
    if p == words.len() {
        true
    } else if p > words.len() {
        false
    } else {
        let n = word_count(words[p as int]);
        if n < 1 || p + n > words.len() {
            false
        } else {
            instructions_from(words, (p + n) as nat)
        }
    }
}

/// The ids the modules define: the `void` type, the function type, the
/// entry point function and its label. The header's id bound (35) exceeds
/// every one of them.
pub open spec fn id_void() -> u32 { 2 }
pub open spec fn id_function_type() -> u32 { 3 }
pub open spec fn id_main() -> u32 { 4 }
pub open spec fn id_label() -> u32 { 9 }

/// The words of the compute shader module with workgroup size
/// `x` by `y` by `z`.
pub open spec fn compute_module_words(x: u32, y: u32, z: u32) -> Seq<u32> {
    seq![
        // header: magic, version 1.3, generator, id bound, schema
        SPIRV_MAGIC, 0x00010300, 0x0008000a, 0x23, 0,
        // OpCapability Shader
        instruction_word(2, OP_CAPABILITY), CAPABILITY_SHADER,
        // OpMemoryModel Logical GLSL450
        instruction_word(3, OP_MEMORY_MODEL), ADDRESSING_LOGICAL, MEMORY_MODEL_GLSL450,
        // OpEntryPoint GLCompute %main "main"
        instruction_word(5, OP_ENTRY_POINT), EXECUTION_MODEL_GLCOMPUTE, id_main(), MAIN_NAME_WORD, 0,
        // OpExecutionMode %main LocalSize x y z
        instruction_word(6, OP_EXECUTION_MODE), id_main(), EXECUTION_MODE_LOCAL_SIZE, x, y, z,
        // %void = OpTypeVoid
        instruction_word(2, OP_TYPE_VOID), id_void(),
        // %fn = OpTypeFunction %void
        instruction_word(3, OP_TYPE_FUNCTION), id_function_type(), id_void(),
        // %main = OpFunction %void None %fn
        instruction_word(5, OP_FUNCTION), id_void(), id_main(), 0, id_function_type(),
        // %label = OpLabel
        instruction_word(2, OP_LABEL), id_label(),
        // OpReturn
        instruction_word(1, OP_RETURN),
        // OpFunctionEnd
        instruction_word(1, OP_FUNCTION_END),
    ]
}

/// The structure every module of this file has: the header, then a
/// well-formed instruction stream that opens with `OpCapability Shader`
/// and `OpMemoryModel Logical GLSL450`, declares the `GLCompute` entry
/// point "main" with `LocalSize x y z`, and ends with `OpLabel`, `OpReturn`
/// and `OpFunctionEnd`.
pub open spec fn is_compute_module(words: Seq<u32>, x: u32, y: u32, z: u32) -> bool {
    let n = words.len();
    &&& n >= 21
    &&& words[0] == SPIRV_MAGIC
    &&& words[3] == 0x23
    &&& instructions_from(words, SPIRV_HEADER_WORDS as nat)
    &&& words.subrange(5, 7) == seq![instruction_word(2, OP_CAPABILITY), CAPABILITY_SHADER]
    &&& words.subrange(7, 10) == seq![
        instruction_word(3, OP_MEMORY_MODEL),
        ADDRESSING_LOGICAL,
        MEMORY_MODEL_GLSL450,
    ]
    &&& words.subrange(10, 15) == seq![
        instruction_word(5, OP_ENTRY_POINT),
        EXECUTION_MODEL_GLCOMPUTE,
        id_main(),
        MAIN_NAME_WORD,
        0u32,
    ]
    &&& words.subrange(15, 21) == seq![
        instruction_word(6, OP_EXECUTION_MODE),
        id_main(),
        EXECUTION_MODE_LOCAL_SIZE,
        x,
        y,
        z,
    ]
    &&& words[n - 4] == instruction_word(2, OP_LABEL)
    &&& words[n - 2] == instruction_word(1, OP_RETURN)
    &&& words[n - 1] == instruction_word(1, OP_FUNCTION_END)
}

/// The module's words form a well-formed instruction stream, walked one
/// instruction at a time.
proof fn lemma_compute_module_well_formed(x: u32, y: u32, z: u32)
    ensures
        is_compute_module(compute_module_words(x, y, z), x, y, z),
{
    let w = compute_module_words(x, y, z);
    assert(w.len() == 35);
    assert(instructions_from(w, 35));
    assert(instructions_from(w, 34));
    assert(instructions_from(w, 33));
    assert(instructions_from(w, 31));
    assert(instructions_from(w, 26));
    assert(instructions_from(w, 23));
    assert(instructions_from(w, 21));
    assert(instructions_from(w, 15));
    assert(instructions_from(w, 10));
    assert(instructions_from(w, 7));
    assert(instructions_from(w, 5));
    assert(w.subrange(5, 7) =~= seq![instruction_word(2, OP_CAPABILITY), CAPABILITY_SHADER]);
    assert(w.subrange(7, 10) =~= seq![
        instruction_word(3, OP_MEMORY_MODEL),
        ADDRESSING_LOGICAL,
        MEMORY_MODEL_GLSL450,
    ]);
    assert(w.subrange(10, 15) =~= seq![
        instruction_word(5, OP_ENTRY_POINT),
        EXECUTION_MODEL_GLCOMPUTE,
        id_main(),
        MAIN_NAME_WORD,
        0u32,
    ]);
    assert(w.subrange(15, 21) =~= seq![
        instruction_word(6, OP_EXECUTION_MODE),
        id_main(),
        EXECUTION_MODE_LOCAL_SIZE,
        x,
        y,
        z,
    ]);
}

/// The SPIR-V words of a compute shader module whose entry point `main`
/// runs in workgroups of `local_size_x` by `local_size_y` by
/// `local_size_z` invocations and returns at once.
pub fn compute_shader_spirv(local_size_x: u32, local_size_y: u32, local_size_z: u32) -> (r: Vec<
    u32,
>)
    ensures
        r@ == compute_module_words(local_size_x, local_size_y, local_size_z),
        is_compute_module(r@, local_size_x, local_size_y, local_size_z),
        r@.len() == 35,
        r@.subrange(0, 10) == seq![
            0x07230203u32, 0x00010300, 0x0008000a, 0x23, 0, 0x00020011, 1, 0x0003000e, 0, 1,
        ],
        r@.subrange(15, 21) == seq![0x00060010u32, 4, 17, local_size_x, local_size_y, local_size_z],
        r@.subrange(31, 35) == seq![0x000200f8u32, 9, 0x000100fd, 0x00010038],
{
    let words: Vec<u32> = vec![
        0x07230203, 0x00010300, 0x0008000a, 0x23, 0,
        0x00020011, 1,
        0x0003000e, 0, 1,
        0x0005000f, 5, 4, 0x6e69616d, 0,
        0x00060010, 4, 17, local_size_x, local_size_y, local_size_z,
        0x00020013, 2,
        0x00030021, 3, 2,
        0x00050036, 2, 4, 0, 3,
        0x000200f8, 9,
        0x000100fd,
        0x00010038,
    ];
    proof {
        lemma_compute_module_well_formed(local_size_x, local_size_y, local_size_z);
    }
    assert(words@ =~= compute_module_words(local_size_x, local_size_y, local_size_z));
    assert(words@.subrange(0, 10) =~= seq![
        0x07230203u32, 0x00010300, 0x0008000a, 0x23, 0, 0x00020011, 1, 0x0003000e, 0, 1,
    ]);
    assert(words@.subrange(15, 21) =~= seq![
        0x00060010u32, 4, 17, local_size_x, local_size_y, local_size_z,
    ]);
    assert(words@.subrange(31, 35) =~= seq![0x000200f8u32, 9, 0x000100fd, 0x00010038]);
    words
}

/// The SPIR-V words of the fill-buffer compute shader: the module for a
/// single-invocation workgroup (`local_size_x = 1`).
pub fn get_fill_buffer_shader_spirv() -> (r: Vec<u32>)
    ensures
        r@ == compute_module_words(1, 1, 1),
        is_compute_module(r@, 1, 1, 1),
{
    compute_shader_spirv(1, 1, 1)
}

/// The SPIR-V words of the shader the project runs: the fill-buffer shader.
pub fn get_shader_spirv() -> (r: Vec<u32>)
    ensures
        r@ == compute_module_words(1, 1, 1),
        is_compute_module(r@, 1, 1, 1),
{
    get_fill_buffer_shader_spirv()
}

} // verus!
