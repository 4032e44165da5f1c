//! Code-generation driver: validates the module's shape, turns the backend's
//! per-function reports into compiled-function results (aborting on the
//! first failure), and hands the whole module to the relocation resolver.
//!
//! The backend itself -- verifying a function's intermediate form and
//! emitting its machine code -- is an external collaborator; the driver
//! consumes one `CodeGenOutcome` report per locally defined function, in
//! module order.

use crate::diagnostics::{
    backend_diagnostic, pretty_error, pretty_verifier_error, verifier_diagnostic, BackendError,
    VerifierError,
};
use crate::executable::ExecutableCode;
use crate::module::{copy_vec, CompiledFunction, ModuleDescriptor, RuntimeBindings};
use crate::relocation::{
    first_error, link_context, relocate, resolved_code, LinkError, RelocationRecord,
};
use vstd::prelude::*;
use vstd::string::StringExecFns;

verus! {

/// What the backend reported for one function: a verifier rejection, a
/// code-generation failure, or the emitted code together with the recorded
/// relocations and the function's block-offset table.  The rejection and
/// failure reports carry the textual dump of the function's intermediate
/// representation, used for the diagnostic.
pub enum CodeGenOutcome {
    VerifierRejected { error: VerifierError, function_text: String },
    Failed { error: BackendError, function_text: String },
    Code { code: Vec<u8>, relocations: Vec<RelocationRecord>, block_offsets: Vec<u32> },
}

/// Why a module compilation was aborted.  Every failure is fatal to the
/// whole module; the variants keep the kinds apart for callers that need to
/// distinguish them.
#[derive(Debug)]
pub enum CompileError {
    /// The designated start index refers to an imported function.
    StartIndexIsImport { start_index: usize, function_imports_count: usize },
    /// The designated start index is past the module's function range.
    StartIndexOutOfRange { start_index: usize, function_count: usize },
    /// The verifier rejected a function's intermediate form.
    Verification { function_index: usize, message: String },
    /// The backend failed to generate code for a function.
    Backend { function_index: usize, message: String },
    /// The backend reported success but emitted zero bytes.
    EmptyCode { function_index: usize },
    /// A relocation record could not be resolved.
    Link { error: LinkError },
}

impl CompileError {
    /// The descriptive text surfaced to the caller.
    pub fn text(&self) -> (r: String)
        ensures
            match *self {
                CompileError::StartIndexIsImport { .. } => r@
                    == "imported start functions not supported yet"@,
                CompileError::StartIndexOutOfRange { .. } => r@
                    == "start function index out of range"@,
                CompileError::Verification { message, .. } => r@ == message@,
                CompileError::Backend { message, .. } => r@ == message@,
                CompileError::EmptyCode { .. } => r@ == "no code generated by the backend"@,
                CompileError::Link { error } => r@ == error.text_view(),
            },
    {
        match self {
            CompileError::StartIndexIsImport { .. } => String::from_str(
                "imported start functions not supported yet",
            ),
            CompileError::StartIndexOutOfRange { .. } => String::from_str(
                "start function index out of range",
            ),
            CompileError::Verification { message, .. } => String::from_str(message.as_str()),
            CompileError::Backend { message, .. } => String::from_str(message.as_str()),
            CompileError::EmptyCode { .. } => String::from_str("no code generated by the backend"),
            CompileError::Link { error } => error.text(),
        }
    }
}

/// Whether the module's designated start index, if any, refers to a locally
/// defined function; the error otherwise.  Checked before any code
/// generation, so that an invalid entry point wastes no backend work.
pub open spec fn start_check(m: ModuleDescriptor) -> Result<(), CompileError> {
    match m.start_index {
        Option::None => Result::Ok(()),
        Option::Some(s) => if s < m.function_imports_count {
            Result::Err(
                CompileError::StartIndexIsImport {
                    start_index: s,
                    function_imports_count: m.function_imports_count,
                },
            )
        } else if s - m.function_imports_count >= m.function_count {
            Result::Err(
                CompileError::StartIndexOutOfRange {
                    start_index: s,
                    function_count: m.function_count,
                },
            )
        } else {
            Result::Ok(())
        },
    }
}

/// Rejects a module whose designated start index does not refer to a locally
/// defined function.  Run before any code generation.
pub fn check_start_index(trans_result: &ModuleDescriptor) -> (r: Result<(), CompileError>)
    ensures
        r == start_check(*trans_result),
{
    match trans_result.start_index {
        Option::None => Ok(()),
        Option::Some(s) => {
            if s < trans_result.function_imports_count {
                Err(
                    CompileError::StartIndexIsImport {
                        start_index: s,
                        function_imports_count: trans_result.function_imports_count,
                    },
                )
            } else if s - trans_result.function_imports_count >= trans_result.function_count {
                Err(
                    CompileError::StartIndexOutOfRange {
                        start_index: s,
                        function_count: trans_result.function_count,
                    },
                )
            } else {
                Ok(())
            }
        },
    }
}

/// A backend report that lets compilation continue: emitted code of at least
/// one byte.
pub open spec fn outcome_ok(o: CodeGenOutcome) -> bool {
    o matches CodeGenOutcome::Code { code, .. } && code@.len() > 0
}

/// The compiled-function result a successful backend report contributes.
pub open spec fn outcome_compiled(o: CodeGenOutcome) -> CompiledFunction {
    match o {
        CodeGenOutcome::Code { code, relocations, block_offsets } => CompiledFunction {
            code,
            relocations,
            block_offsets,
        },
        _ => arbitrary(),
    }
}

/// The per-function results of a module whose backend reports all succeeded.
pub open spec fn compiled_seq(os: Seq<CodeGenOutcome>) -> Seq<CompiledFunction> {
    Seq::new(os.len(), |i: int| outcome_compiled(os[i]))
}

/// The position of the first backend report that aborts compilation, at or
/// after position `i`.
pub open spec fn first_bad_outcome_from(os: Seq<CodeGenOutcome>, i: int) -> Option<int>
    decreases os.len() - i,
{
    if i < 0 || i >= os.len() {
        Option::None
    } else if !outcome_ok(os[i]) {
        Option::Some(i)
    } else {
        first_bad_outcome_from(os, i + 1)
    }
}

/// The position of the first backend report that aborts compilation, if any.
pub open spec fn first_bad_outcome(os: Seq<CodeGenOutcome>) -> Option<int> {
    first_bad_outcome_from(os, 0)
}

proof fn lemma_first_bad_skip(os: Seq<CodeGenOutcome>, i: int)
    requires
        0 <= i <= os.len(),
        forall|k: int| 0 <= k < i ==> outcome_ok(os[k]),
    ensures
        first_bad_outcome_from(os, 0) == first_bad_outcome_from(os, i),
    decreases i,
{
    if i > 0 {
        lemma_first_bad_skip(os, i - 1);
    }
}

/// Turns the backend's report for the function with local index
/// `function_index` into its compiled-function result, or into the error
/// that aborts the whole compilation: a formatted verifier diagnostic, a
/// formatted backend diagnostic, or the distinct empty-code error when the
/// backend reported success but emitted zero bytes.
pub fn process_outcome(function_index: usize, outcome: &CodeGenOutcome) -> (r: Result<
    CompiledFunction,
    CompileError,
>)
    ensures
        match *outcome {
            CodeGenOutcome::VerifierRejected { error, function_text } => (r matches Err(
                CompileError::Verification { function_index: fi, message },
            ) && fi == function_index && message@ == verifier_diagnostic(error, function_text@)),
            CodeGenOutcome::Failed { error, function_text } => (r matches Err(
                CompileError::Backend { function_index: fi, message },
            ) && fi == function_index && message@ == backend_diagnostic(error, function_text@)),
            CodeGenOutcome::Code { code, relocations, block_offsets } => if code@.len() == 0 {
                r == Err::<CompiledFunction, CompileError>(
                    CompileError::EmptyCode { function_index },
                )
            } else {
                &&& r is Ok
                &&& r->Ok_0.code@ == code@
                &&& r->Ok_0.relocations@ == relocations@
                &&& r->Ok_0.block_offsets@ == block_offsets@
            },
        },
{
    match outcome {
        CodeGenOutcome::VerifierRejected { error, function_text } => Err(
            CompileError::Verification {
                function_index,
                message: pretty_verifier_error(function_text.as_str(), error),
            },
        ),
        CodeGenOutcome::Failed { error, function_text } => Err(
            CompileError::Backend {
                function_index,
                message: pretty_error(function_text.as_str(), error),
            },
        ),
        CodeGenOutcome::Code { code, relocations, block_offsets } => {
            if code.len() == 0 {
                Err(CompileError::EmptyCode { function_index })
            } else {
                Ok(
                    CompiledFunction {
                        code: copy_vec(code),
                        relocations: copy_vec(relocations),
                        block_offsets: copy_vec(block_offsets),
                    },
                )
            }
        },
    }
}

/// Links a fully generated module: resolves every relocation against the
/// buffers' base addresses and packages the patched buffers with the start
/// index.  The start-index validity is checked again here so that the
/// packaged module always satisfies its invariant.
pub fn link_module(
    trans_result: &ModuleDescriptor,
    compiled: &mut Vec<CompiledFunction>,
    runtime: &RuntimeBindings,
    bases: &Vec<u64>,
) -> (r: Result<ExecutableCode, CompileError>)
    requires
        old(compiled)@.len() == trans_result.function_count,
        bases@.len() == trans_result.function_count,
    ensures
        ({
            let fs = old(compiled)@;
            let cx = link_context(trans_result.function_imports_count, fs, *runtime, bases@);
            match r {
                Ok(exec) => {
                    &&& start_check(*trans_result) is Ok
                    &&& first_error(fs, cx) is None
                    &&& exec.wf()
                    &&& exec@.start_index == trans_result.start_index
                    &&& exec@.function_imports_count == trans_result.function_imports_count
                    &&& exec@.functions_code.len() == fs.len()
                    &&& forall|k: int|
                        0 <= k < fs.len() ==> exec@.functions_code[k] == resolved_code(
                            fs[k],
                            bases@[k],
                            cx,
                        )
                },
                Err(e) => {
                    if start_check(*trans_result) is Err {
                        e == start_check(*trans_result)->Err_0
                    } else {
                        first_error(fs, cx) matches Option::Some(le) && e == (CompileError::Link {
                            error: le,
                        })
                    }
                },
            }
        }),
{
    match check_start_index(trans_result) {
        Err(e) => {
            return Err(e);
        },
        Ok(()) => {},
    }
    match relocate(trans_result.function_imports_count, compiled, runtime, bases) {
        Err(le) => Err(CompileError::Link { error: le }),
        Ok(()) => Ok(
            ExecutableCode::assemble(
                compiled,
                trans_result.start_index,
                trans_result.function_imports_count,
            ),
        ),
    }
}

/// Compiles a whole translated module: checks the start index before any
/// code generation, consumes the backend's reports in module order, aborting
/// on the first failure, then resolves every relocation and packages the
/// linked module.
///
/// `trans_result` gives the module's shape; `outcomes` holds the backend's
/// report for each locally defined function, in module order; `runtime`
/// binds call-site references to module-wide function indices; `bases[i]` is
/// the final base address of local function `i`'s code buffer.
pub fn compile_module(
    trans_result: &ModuleDescriptor,
    outcomes: &Vec<CodeGenOutcome>,
    runtime: &RuntimeBindings,
    bases: &Vec<u64>,
) -> (r: Result<ExecutableCode, CompileError>)
    requires
        outcomes@.len() == trans_result.function_count,
        bases@.len() == trans_result.function_count,
    ensures
        ({
            let os = outcomes@;
            let cx = link_context(
                trans_result.function_imports_count,
                compiled_seq(os),
                *runtime,
                bases@,
            );
            match r {
                Ok(exec) => {
                    &&& start_check(*trans_result) is Ok
                    &&& first_bad_outcome(os) is None
                    &&& first_error(compiled_seq(os), cx) is None
                    &&& exec.wf()
                    &&& exec@.start_index == trans_result.start_index
                    &&& exec@.function_imports_count == trans_result.function_imports_count
                    &&& exec@.functions_code.len() == os.len()
                    &&& forall|k: int|
                        0 <= k < os.len() ==> exec@.functions_code[k] == resolved_code(
                            compiled_seq(os)[k],
                            bases@[k],
                            cx,
                        )
                },
                Err(e) => {
                    if start_check(*trans_result) is Err {
                        e == start_check(*trans_result)->Err_0
                    } else {
                        match first_bad_outcome(os) {
                            Option::Some(k) => match os[k] {
                                CodeGenOutcome::VerifierRejected { error, function_text } => (e
                                    matches CompileError::Verification { function_index, message }
                                    && function_index == k && message@ == verifier_diagnostic(
                                    error,
                                    function_text@,
                                )),
                                CodeGenOutcome::Failed { error, function_text } => (e
                                    matches CompileError::Backend { function_index, message }
                                    && function_index == k && message@ == backend_diagnostic(
                                    error,
                                    function_text@,
                                )),
                                CodeGenOutcome::Code { .. } => e == (CompileError::EmptyCode {
                                    function_index: k as usize,
                                }),
                            },
                            Option::None => (first_error(compiled_seq(os), cx)
                                matches Option::Some(le) && e == (CompileError::Link {
                                error: le,
                            })),
                        }
                    }
                },
            }
        }),
{
    match check_start_index(trans_result) {
        Err(e) => {
            return Err(e);
        },
        Ok(()) => {},
    }
    let n = trans_result.function_count;
    let mut compiled: Vec<CompiledFunction> = Vec::new();
    let mut i: usize = 0;
    while i < n
        invariant
            i <= n,
            outcomes@.len() == n,
            n == trans_result.function_count,
            bases@.len() == n,
            compiled@.len() == i,
            start_check(*trans_result) is Ok,
            forall|k: int| 0 <= k < i ==> outcome_ok(outcomes@[k]),
            forall|k: int|
                0 <= k < i ==> #[trigger] compiled@[k].code@ == outcome_compiled(
                    outcomes@[k],
                ).code@ && compiled@[k].relocations@ == outcome_compiled(outcomes@[k]).relocations@
                    && compiled@[k].block_offsets@ == outcome_compiled(
                    outcomes@[k],
                ).block_offsets@,
        decreases n - i,
    {
        match process_outcome(i, &outcomes[i]) {
            Ok(cf) => {
                compiled.push(cf);
            },
            Err(e) => {
                proof {
                    lemma_first_bad_skip(outcomes@, i as int);
                }
                return Err(e);
            },
        }
        i += 1;
    }
    proof {
        lemma_first_bad_skip(outcomes@, n as int);
        let gs = compiled_seq(outcomes@);
        assert(forall|k: int|
            0 <= k < n ==> #[trigger] compiled@[k].code@ == gs[k].code@ && compiled@[
                k
            ].relocations@ == gs[k].relocations@ && compiled@[k].block_offsets@ == gs[
                k
            ].block_offsets@);
        let cxc = link_context(trans_result.function_imports_count, compiled@, *runtime, bases@);
        crate::relocation::lemma_first_error_views(compiled@, gs, bases@, cxc, 0);
        assert(link_context(trans_result.function_imports_count, gs, *runtime, bases@) == cxc);
    }
    link_module(trans_result, &mut compiled, runtime, bases)
}

} // verus!
