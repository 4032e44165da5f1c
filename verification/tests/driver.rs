use wasmstandalone::codegen::{check_start_index, compile_module, CodeGenOutcome, CompileError};
use wasmstandalone::diagnostics::{
    pretty_error, pretty_verifier_error, BackendError, InstructionLocation, VerifierError,
};
use wasmstandalone::executable::ExecError;
use wasmstandalone::module::{ModuleDescriptor, RuntimeBindings};

fn some_code() -> CodeGenOutcome {
    CodeGenOutcome::Code { code: vec![0xC3], relocations: vec![], block_offsets: vec![] }
}

#[test]
fn imported_start_index_fails_fast() {
    let module = ModuleDescriptor {
        function_count: 1,
        function_imports_count: 2,
        start_index: Some(1),
    };
    // The shape check alone rejects the module, before any backend work.
    let err = check_start_index(&module).unwrap_err();
    assert!(matches!(
        err,
        CompileError::StartIndexIsImport { start_index: 1, function_imports_count: 2 }
    ));
    let runtime = RuntimeBindings { func_indices: vec![] };
    let err = compile_module(&module, &vec![some_code()], &runtime, &vec![0x1000]).unwrap_err();
    assert!(matches!(
        err,
        CompileError::StartIndexIsImport { start_index: 1, function_imports_count: 2 }
    ));
    assert_eq!(err.text(), "imported start functions not supported yet");
}

#[test]
fn start_index_past_module_range_is_rejected() {
    let module = ModuleDescriptor {
        function_count: 1,
        function_imports_count: 1,
        start_index: Some(2),
    };
    let err = check_start_index(&module).unwrap_err();
    assert!(matches!(err, CompileError::StartIndexOutOfRange { start_index: 2, function_count: 1 }));
}

#[test]
fn missing_start_index_gives_missing_entry_error() {
    let module = ModuleDescriptor {
        function_count: 1,
        function_imports_count: 0,
        start_index: None,
    };
    let runtime = RuntimeBindings { func_indices: vec![] };
    let exec = compile_module(&module, &vec![some_code()], &runtime, &vec![0x1000]).unwrap();
    assert_eq!(exec.start_index(), None);
    // No buffer is handed out for execution: the launcher stops before any
    // permission transition.
    let err = exec.start_buffer().unwrap_err();
    assert_eq!(err, ExecError::MissingEntry);
    assert_eq!(err.text(), "No start function defined, aborting execution");
}

#[test]
fn start_buffer_resolves_module_wide_index() {
    let module = ModuleDescriptor {
        function_count: 1,
        function_imports_count: 2,
        start_index: Some(2),
    };
    let runtime = RuntimeBindings { func_indices: vec![] };
    let exec = compile_module(&module, &vec![some_code()], &runtime, &vec![0x1000]).unwrap();
    let buffer = exec.start_buffer().unwrap();
    assert_eq!(buffer, &vec![0xC3u8]);
}

#[test]
fn empty_code_gives_its_own_error() {
    let module = ModuleDescriptor {
        function_count: 1,
        function_imports_count: 0,
        start_index: Some(0),
    };
    let empty = CodeGenOutcome::Code { code: vec![], relocations: vec![], block_offsets: vec![] };
    let runtime = RuntimeBindings { func_indices: vec![] };
    let err = compile_module(&module, &vec![empty], &runtime, &vec![0x1000]).unwrap_err();
    // The empty-code failure is distinct from a backend failure.
    assert!(matches!(err, CompileError::EmptyCode { function_index: 0 }));
    assert!(!matches!(err, CompileError::Backend { .. }));
    assert_eq!(err.text(), "no code generated by the backend");
}

#[test]
fn backend_failure_carries_its_message() {
    let module = ModuleDescriptor {
        function_count: 2,
        function_imports_count: 0,
        start_index: Some(0),
    };
    let failed = CodeGenOutcome::Failed {
        error: BackendError::Other(String::from("unsupported instruction")),
        function_text: String::from("function u0:1() {}"),
    };
    let runtime = RuntimeBindings { func_indices: vec![] };
    let err = compile_module(
        &module,
        &vec![some_code(), failed],
        &runtime,
        &vec![0x1000, 0x2000],
    )
    .unwrap_err();
    match err {
        CompileError::Backend { function_index, message } => {
            assert_eq!(function_index, 1);
            assert_eq!(message, "unsupported instruction");
        },
        other => panic!("expected a backend error, got {:?}", other.text()),
    }
}

#[test]
fn verifier_rejection_formats_instruction_and_dump() {
    let module = ModuleDescriptor {
        function_count: 1,
        function_imports_count: 0,
        start_index: Some(0),
    };
    let rejected = CodeGenOutcome::VerifierRejected {
        error: VerifierError {
            message: String::from("arg 1 (v2) has type i8, expected i32"),
            location: Some(InstructionLocation {
                entity: String::from("inst0"),
                display: String::from("v3 = iadd v1, v2"),
            }),
        },
        function_text: String::from("function u0:0() {}"),
    };
    let runtime = RuntimeBindings { func_indices: vec![] };
    let err = compile_module(&module, &vec![rejected], &runtime, &vec![0x1000]).unwrap_err();
    match err {
        CompileError::Verification { function_index, message } => {
            assert_eq!(function_index, 0);
            assert_eq!(
                message,
                "arg 1 (v2) has type i8, expected i32\ninst0: v3 = iadd v1, v2\n\nfunction u0:0() {}"
            );
        },
        _ => panic!("expected a verification error"),
    }
}

#[test]
fn pretty_verifier_error_without_instruction() {
    let err = VerifierError { message: String::from("bad signature"), location: None };
    let text = pretty_verifier_error("function u0:0() {}", &err);
    assert_eq!(text, "bad signature\nfunction u0:0() {}");
}

#[test]
fn pretty_error_reuses_verifier_format() {
    let err = BackendError::Verifier(VerifierError {
        message: String::from("bad flags"),
        location: Some(InstructionLocation {
            entity: String::from("inst7"),
            display: String::from("brz v1, ebb2"),
        }),
    });
    let text = pretty_error("dump", &err);
    assert_eq!(text, "bad flags\ninst7: brz v1, ebb2\n\ndump");
    let other = BackendError::Other(String::from("relocation overflow"));
    assert_eq!(pretty_error("dump", &other), "relocation overflow");
}

#[test]
fn first_failing_function_aborts_compilation() {
    let module = ModuleDescriptor {
        function_count: 3,
        function_imports_count: 0,
        start_index: Some(0),
    };
    let empty = CodeGenOutcome::Code { code: vec![], relocations: vec![], block_offsets: vec![] };
    let failed = CodeGenOutcome::Failed {
        error: BackendError::Other(String::from("late failure")),
        function_text: String::new(),
    };
    let runtime = RuntimeBindings { func_indices: vec![] };
    let err = compile_module(
        &module,
        &vec![some_code(), empty, failed],
        &runtime,
        &vec![0x1000, 0x2000, 0x3000],
    )
    .unwrap_err();
    // The failure of function 1 is reported, not the later one of function 2.
    assert!(matches!(err, CompileError::EmptyCode { function_index: 1 }));
}
