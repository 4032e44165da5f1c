use wasmstandalone::codegen::{compile_module, CodeGenOutcome, CompileError};
use wasmstandalone::module::{CompiledFunction, ModuleDescriptor, RuntimeBindings};
use wasmstandalone::relocation::{relocate, LinkError, RelocationRecord};

fn code_outcome(
    code: Vec<u8>,
    relocations: Vec<RelocationRecord>,
    block_offsets: Vec<u32>,
) -> CodeGenOutcome {
    CodeGenOutcome::Code { code, relocations, block_offsets }
}

#[test]
fn call_displacement_between_two_functions() {
    // Function A at local index 0, function B at local index 1 calling A.
    let module = ModuleDescriptor {
        function_count: 2,
        function_imports_count: 0,
        start_index: Some(0),
    };
    let outcomes = vec![
        code_outcome(vec![0u8; 16], vec![], vec![]),
        code_outcome(
            vec![0u8; 16],
            vec![RelocationRecord::Call { func_ref: 0, offset: 2 }],
            vec![],
        ),
    ];
    let runtime = RuntimeBindings { func_indices: vec![0] };
    let bases: Vec<u64> = vec![0x1000, 0x2000];
    let exec = compile_module(&module, &outcomes, &runtime, &bases).unwrap();
    let code = exec.functions_code();
    let expected: i32 = (0x1000i64 - (0x2000i64 + 2 + 4)) as i32;
    assert_eq!(code[1][6..10], expected.to_le_bytes());
    // Bytes outside the displacement field stay untouched.
    assert_eq!(code[1][..6], [0u8; 6]);
    assert_eq!(code[1][10..], [0u8; 6]);
    assert_eq!(code[0], vec![0u8; 16]);
}

#[test]
fn self_recursive_call_displacement() {
    let module = ModuleDescriptor {
        function_count: 1,
        function_imports_count: 0,
        start_index: Some(0),
    };
    let outcomes = vec![code_outcome(
        vec![0u8; 12],
        vec![RelocationRecord::Call { func_ref: 0, offset: 1 }],
        vec![],
    )];
    let runtime = RuntimeBindings { func_indices: vec![0] };
    let bases: Vec<u64> = vec![0x4000];
    let exec = compile_module(&module, &outcomes, &runtime, &bases).unwrap();
    let code = exec.functions_code();
    let expected: i32 = -(1 + 4);
    assert_eq!(code[0][5..9], expected.to_le_bytes());
}

#[test]
fn block_branch_displacement() {
    let module = ModuleDescriptor {
        function_count: 1,
        function_imports_count: 0,
        start_index: Some(0),
    };
    let outcomes = vec![code_outcome(
        vec![0u8; 20],
        vec![RelocationRecord::Block { block: 1, offset: 3 }],
        vec![0, 12],
    )];
    let runtime = RuntimeBindings { func_indices: vec![] };
    let bases: Vec<u64> = vec![0x7000];
    let exec = compile_module(&module, &outcomes, &runtime, &bases).unwrap();
    let code = exec.functions_code();
    let expected: i32 = 12 - (3 + 4);
    assert_eq!(code[0][7..11], expected.to_le_bytes());
}

#[test]
fn block_branch_displacement_ignores_base() {
    let metadata = || {
        vec![CompiledFunction {
            code: vec![0u8; 20],
            relocations: vec![RelocationRecord::Block { block: 0, offset: 0 }],
            block_offsets: vec![16],
        }]
    };
    let runtime = RuntimeBindings { func_indices: vec![] };
    let mut low = metadata();
    let mut high = metadata();
    relocate(0, &mut low, &runtime, &vec![0x1000]).unwrap();
    relocate(0, &mut high, &runtime, &vec![0xFFFF_0000]).unwrap();
    assert_eq!(low[0].code, high[0].code);
    assert_eq!(low[0].code[4..8], 12i32.to_le_bytes());
}

#[test]
fn compilation_is_deterministic() {
    let module = ModuleDescriptor {
        function_count: 2,
        function_imports_count: 1,
        start_index: Some(1),
    };
    let make_outcomes = || {
        vec![
            code_outcome(
                vec![0x90u8; 24],
                vec![
                    RelocationRecord::Call { func_ref: 0, offset: 2 },
                    RelocationRecord::Block { block: 1, offset: 10 },
                ],
                vec![0, 20],
            ),
            code_outcome(
                vec![0xCCu8; 16],
                vec![RelocationRecord::Call { func_ref: 1, offset: 0 }],
                vec![],
            ),
        ]
    };
    let runtime = RuntimeBindings { func_indices: vec![2, 1] };
    let bases: Vec<u64> = vec![0x10_0000, 0x20_0000];
    let first = compile_module(&module, &make_outcomes(), &runtime, &bases).unwrap();
    let second = compile_module(&module, &make_outcomes(), &runtime, &bases).unwrap();
    assert_eq!(first.functions_code(), second.functions_code());
    assert_eq!(first.start_index(), second.start_index());
}

#[test]
fn unknown_call_site_is_rejected() {
    let mut metadata = vec![CompiledFunction {
        code: vec![0u8; 16],
        relocations: vec![RelocationRecord::Call { func_ref: 3, offset: 0 }],
        block_offsets: vec![],
    }];
    let runtime = RuntimeBindings { func_indices: vec![0] };
    let err = relocate(0, &mut metadata, &runtime, &vec![0x1000]).unwrap_err();
    assert_eq!(err, LinkError::UnknownCallSite { function: 0, func_ref: 3 });
}

#[test]
fn call_target_below_imports_is_rejected() {
    let mut metadata = vec![CompiledFunction {
        code: vec![0u8; 16],
        relocations: vec![RelocationRecord::Call { func_ref: 0, offset: 0 }],
        block_offsets: vec![],
    }];
    // The binding resolves to module index 1, an import when two functions
    // are imported.
    let runtime = RuntimeBindings { func_indices: vec![1] };
    let err = relocate(2, &mut metadata, &runtime, &vec![0x1000]).unwrap_err();
    assert_eq!(err, LinkError::CallTargetOutOfRange { function: 0, func_ref: 0 });
}

#[test]
fn patch_past_buffer_end_is_rejected() {
    let mut metadata = vec![CompiledFunction {
        code: vec![0u8; 8],
        relocations: vec![RelocationRecord::Call { func_ref: 0, offset: 1 }],
        block_offsets: vec![],
    }];
    let runtime = RuntimeBindings { func_indices: vec![0] };
    let err = relocate(0, &mut metadata, &runtime, &vec![0x1000]).unwrap_err();
    assert_eq!(err, LinkError::PatchOutOfBounds { function: 0, offset: 1 });
}

#[test]
fn unknown_block_is_rejected() {
    let mut metadata = vec![CompiledFunction {
        code: vec![0u8; 16],
        relocations: vec![RelocationRecord::Block { block: 2, offset: 0 }],
        block_offsets: vec![0],
    }];
    let runtime = RuntimeBindings { func_indices: vec![] };
    let err = relocate(0, &mut metadata, &runtime, &vec![0x1000]).unwrap_err();
    assert_eq!(err, LinkError::UnknownBlock { function: 0, block: 2 });
}

#[test]
fn jump_table_relocation_is_rejected() {
    let mut metadata = vec![CompiledFunction {
        code: vec![0u8; 16],
        relocations: vec![RelocationRecord::JumpTable { table: 0, offset: 4 }],
        block_offsets: vec![],
    }];
    let runtime = RuntimeBindings { func_indices: vec![] };
    let err = relocate(0, &mut metadata, &runtime, &vec![0x1000]).unwrap_err();
    assert_eq!(err, LinkError::UnresolvedJumpTable { function: 0, table: 0 });
    // The same module fails the whole compilation with a link error.
    let module = ModuleDescriptor {
        function_count: 1,
        function_imports_count: 0,
        start_index: Some(0),
    };
    let outcomes = vec![code_outcome(
        vec![0u8; 16],
        vec![RelocationRecord::JumpTable { table: 0, offset: 4 }],
        vec![],
    )];
    let err = compile_module(&module, &outcomes, &runtime, &vec![0x1000]).unwrap_err();
    assert!(matches!(
        err,
        CompileError::Link { error: LinkError::UnresolvedJumpTable { function: 0, table: 0 } }
    ));
    assert_eq!(err.text(), "jump table relocations are not supported");
}

#[test]
fn nothing_is_patched_when_a_record_fails() {
    // The first function would resolve, but the second holds a jump-table
    // record: the resolver reports the error and leaves every buffer
    // untouched instead of patching only part of the module.
    let mut metadata = vec![
        CompiledFunction {
            code: vec![0u8; 16],
            relocations: vec![RelocationRecord::Call { func_ref: 0, offset: 0 }],
            block_offsets: vec![],
        },
        CompiledFunction {
            code: vec![0u8; 16],
            relocations: vec![RelocationRecord::JumpTable { table: 1, offset: 0 }],
            block_offsets: vec![],
        },
    ];
    let runtime = RuntimeBindings { func_indices: vec![0] };
    let err = relocate(0, &mut metadata, &runtime, &vec![0x1000, 0x2000]).unwrap_err();
    assert_eq!(err, LinkError::UnresolvedJumpTable { function: 1, table: 1 });
    assert_eq!(metadata[0].code, vec![0u8; 16]);
    assert_eq!(metadata[1].code, vec![0u8; 16]);
}
