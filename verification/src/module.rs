//! Data model of the pipeline: the shape of a translated module, the
//! immutable target configuration, the per-function code-generation results
//! consumed by the relocation resolver, and the runtime bindings that resolve
//! call sites to module-wide function indices.

use vstd::prelude::*;

verus! {

/// Shape of a module whose functions have already been translated to the
/// backend's intermediate representation: how many functions it defines, how
/// many leading module-wide indices are imports, and the optional designated
/// start function (a module-wide index).
pub struct ModuleDescriptor {
    /// Number of locally defined functions (the imports are not counted).
    pub function_count: usize,
    /// Number of leading module-wide function indices that are imports.
    pub function_imports_count: usize,
    /// Module-wide index of the designated entry function, if any.
    pub start_index: Option<usize>,
}

/// Immutable description of the compilation target, fixed once for a whole
/// module compilation.
pub struct TargetConfig {
    /// Run the backend's verifier on every function before code generation.
    pub enable_verifier: bool,
    /// Generate code for a 64-bit target.
    pub is_64bit: bool,
}

/// External mapping from a backend-assigned call-site function reference to
/// the absolute module-wide index of the referenced function.
pub struct RuntimeBindings {
    /// `func_indices[func_ref]` is the module-wide index of the function the
    /// call site `func_ref` refers to.
    pub func_indices: Vec<usize>,
}

/// Everything code generation produces for one function: the emitted
/// machine-code bytes, the relocation records collected by the relocation
/// sink, and the function's own block-offset table, consumed exactly once by
/// the relocation resolver.
pub struct CompiledFunction {
    /// The emitted machine-code byte buffer.
    pub code: Vec<u8>,
    /// The relocation records collected while emitting `code`.
    pub relocations: Vec<crate::relocation::RelocationRecord>,
    /// `block_offsets[block]` is the byte offset of that block within `code`.
    pub block_offsets: Vec<u32>,
}

/// Copies a vector of plain values element for element.
pub(crate) fn copy_vec<T: Copy>(src: &Vec<T>) -> (r: Vec<T>)
    ensures
        r@ == src@,
{
    let mut out: Vec<T> = Vec::new();
    let mut k: usize = 0;
    while k < src.len()
        invariant
            k <= src@.len(),
            out@ == src@.take(k as int),
        decreases src@.len() - k,
    {
        out.push(src[k]);
        proof {
            assert(src@.take(k as int).push(src@[k as int]) =~= src@.take(k as int + 1));
        }
        k += 1;
    }
    proof {
        assert(out@ =~= src@);
    }
    out
}

impl ModuleDescriptor {
    /// A start index, when present, must refer to a locally defined function:
    /// at least the import count, and within the module's function range.
    pub open spec fn start_index_valid(self) -> bool {
        match self.start_index {
            Option::None => true,
            Option::Some(s) => self.function_imports_count <= s && s - self.function_imports_count
                < self.function_count,
        }
    }
}

} // verus!
