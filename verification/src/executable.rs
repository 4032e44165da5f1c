//! The linked module: the relocated machine-code buffers, ready to have the
//! entry function's buffer made executable and called.

use crate::module::CompiledFunction;
use vstd::prelude::*;
use vstd::string::StringExecFns;

verus! {

/// Why a linked module cannot be executed.
#[derive(Clone, Copy, PartialEq, Eq, Structural, Debug)]
pub enum ExecError {
    /// The module designates no start function.
    MissingEntry,
}

impl ExecError {
    /// The descriptive text surfaced to the caller.
    pub fn text(&self) -> (r: String)
        ensures
            r@ == "No start function defined, aborting execution"@,
    {
        String::from_str("No start function defined, aborting execution")
    }
}

/// Mathematical model of a linked module.
pub struct ExecutableCodeView {
    /// The relocated code of each locally defined function, in local order.
    pub functions_code: Seq<Seq<u8>>,
    /// Module-wide index of the start function, if one was designated.
    pub start_index: Option<usize>,
    /// Number of leading module-wide function indices that are imports.
    pub function_imports_count: usize,
}

/// The compiled code of the module's functions, fully relocated, ready to be
/// executed.  Buffers are immutable from here on; only the start function's
/// buffer undergoes the one-time permission transition, outside this type.
#[derive(Debug)]
pub struct ExecutableCode {
    functions_code: Vec<Vec<u8>>,
    start_index: Option<usize>,
    function_imports_count: usize,
}

impl View for ExecutableCode {
    type V = ExecutableCodeView;

    closed spec fn view(&self) -> ExecutableCodeView {
        ExecutableCodeView {
            functions_code: self.functions_code@.map(|i: int, v: Vec<u8>| v@),
            start_index: self.start_index,
            function_imports_count: self.function_imports_count,
        }
    }
}

impl ExecutableCode {
    /// A start index, when present, refers to a locally defined function
    /// whose buffer is among the linked buffers.
    pub open spec fn wf(self) -> bool {
        match self@.start_index {
            Option::None => true,
            Option::Some(s) => self@.function_imports_count <= s && s
                - self@.function_imports_count < self@.functions_code.len(),
        }
    }

    /// Packages the relocated buffers of the per-function results into a
    /// linked module.  The buffers are moved out of the results, which are
    /// left behind as empty shells; their heap storage -- and so every base
    /// address the relocations were resolved against -- stays where it is.
    pub(crate) fn assemble(
        functions: &mut Vec<CompiledFunction>,
        start_index: Option<usize>,
        function_imports_count: usize,
    ) -> (r: ExecutableCode)
        requires
            match start_index {
                Option::None => true,
                Option::Some(s) => function_imports_count <= s && s - function_imports_count
                    < old(functions)@.len(),
            },
        ensures
            r.wf(),
            r@.start_index == start_index,
            r@.function_imports_count == function_imports_count,
            r@.functions_code.len() == old(functions)@.len(),
            forall|i: int|
                0 <= i < old(functions)@.len() ==> r@.functions_code[i] == old(
                    functions,
                )@[i].code@,
    {
        let n = functions.len();
        let mut out: Vec<Vec<u8>> = Vec::new();
        let mut i: usize = 0;
        while i < n
            invariant
                i <= n,
                functions@.len() == n,
                n == old(functions)@.len(),
                out@.len() == i,
                forall|k: int| i <= k < n ==> functions@[k] == old(functions)@[k],
                forall|k: int| 0 <= k < i ==> out@[k]@ == old(functions)@[k].code@,
            decreases n - i,
        {
            let mut f = CompiledFunction {
                code: Vec::new(),
                relocations: Vec::new(),
                block_offsets: Vec::new(),
            };
            functions.set_and_swap(i, &mut f);
            out.push(f.code);
            i += 1;
        }
        ExecutableCode { functions_code: out, start_index, function_imports_count }
    }

    /// The relocated code buffers, in local function order.
    pub fn functions_code(&self) -> (r: &Vec<Vec<u8>>)
        ensures
            r@.len() == self@.functions_code.len(),
            forall|i: int| 0 <= i < r@.len() ==> r@[i]@ == self@.functions_code[i],
    {
        &self.functions_code
    }

    /// The module-wide index of the designated start function, if any.
    pub fn start_index(&self) -> (r: Option<usize>)
        ensures
            r == self@.start_index,
    {
        self.start_index
    }

    /// The buffer of the designated start function, or the missing-entry
    /// error when the module designates none.  No buffer is touched in the
    /// error case: a module without an entry point is rejected before any
    /// permission transition is attempted.
    pub fn start_buffer(&self) -> (r: Result<&Vec<u8>, ExecError>)
        requires
            self.wf(),
        ensures
            match self@.start_index {
                Option::None => r == Err::<&Vec<u8>, ExecError>(ExecError::MissingEntry),
                Option::Some(s) => r is Ok && r->Ok_0@ == self@.functions_code[s
                    - self@.function_imports_count],
            },
    {
        match self.start_index {
            Option::None => Err(ExecError::MissingEntry),
            Option::Some(s) => {
                let local = s - self.function_imports_count;
                Ok(&self.functions_code[local])
            },
        }
    }
}

} // verus!
