//! Relocation resolver: computes the final relative displacement for every
//! call site and intra-function branch target and patches it into the
//! machine-code bytes.
//!
//! Every code buffer must already have its final base address before any
//! relocation is resolved; the addresses are handed in as one base per
//! locally defined function, aligned with the compiled-function order.

use crate::module::{copy_vec, CompiledFunction, RuntimeBindings};
use vstd::prelude::*;
use vstd::string::StringExecFns;

verus! {

/// One deferred address computation recorded during code generation, resolved
/// once every code buffer has a fixed address.  The `offset` is the byte
/// offset, within the emitting function's code buffer, of the relocation
/// site; the 4-byte displacement field itself sits at `offset + 4`.
#[derive(Clone, Copy)]
pub enum RelocationRecord {
    /// A call to another module function; `func_ref` is the backend-assigned
    /// call-site reference, resolved to a module-wide function index by the
    /// runtime bindings.
    Call { func_ref: usize, offset: u32 },
    /// A branch to a block of the same function; `block` indexes the emitting
    /// function's own block-offset table.
    Block { block: usize, offset: u32 },
    /// A jump-table reference; recognized by code generation but not yet
    /// resolvable.
    JumpTable { table: usize, offset: u32 },
}

/// A relocation that cannot be resolved or patched.  Each variant names the
/// local index of the function whose record failed.
#[derive(Clone, Copy, PartialEq, Eq, Structural, Debug)]
pub enum LinkError {
    /// A call site's reference has no entry in the runtime bindings.
    UnknownCallSite { function: usize, func_ref: usize },
    /// The bound module-wide index is an import or past the module's range.
    CallTargetOutOfRange { function: usize, func_ref: usize },
    /// A branch names a block missing from the block-offset table.
    UnknownBlock { function: usize, block: usize },
    /// The displacement field would extend past the end of the code buffer.
    PatchOutOfBounds { function: usize, offset: u32 },
    /// Jump-table relocations are not supported.
    UnresolvedJumpTable { function: usize, table: usize },
}

impl LinkError {
    /// The descriptive text surfaced to the caller.
    pub open spec fn text_view(self) -> Seq<char> {
        match self {
            LinkError::UnknownCallSite { .. } => "call site has no runtime binding"@,
            LinkError::CallTargetOutOfRange { .. } => "call target function index out of range"@,
            LinkError::UnknownBlock { .. } => "branch target block has no recorded offset"@,
            LinkError::PatchOutOfBounds { .. } => "relocation site exceeds code buffer bounds"@,
            LinkError::UnresolvedJumpTable { .. } => "jump table relocations are not supported"@,
        }
    }

    /// The descriptive text surfaced to the caller.
    pub fn text(&self) -> (r: String)
        ensures
            r@ == self.text_view(),
    {
        match self {
            LinkError::UnknownCallSite { .. } => String::from_str(
                "call site has no runtime binding",
            ),
            LinkError::CallTargetOutOfRange { .. } => String::from_str(
                "call target function index out of range",
            ),
            LinkError::UnknownBlock { .. } => String::from_str(
                "branch target block has no recorded offset",
            ),
            LinkError::PatchOutOfBounds { .. } => String::from_str(
                "relocation site exceeds code buffer bounds",
            ),
            LinkError::UnresolvedJumpTable { .. } => String::from_str(
                "jump table relocations are not supported",
            ),
        }
    }
}

/// Everything the resolution of one record depends on besides the emitting
/// function itself: the import count, the number of locally defined
/// functions, the call-site bindings, and the buffers' base addresses.
pub struct LinkContext {
    pub function_imports_count: usize,
    pub function_count: int,
    pub func_indices: Seq<usize>,
    pub bases: Seq<u64>,
}

/// The context under which `relocate` resolves a module.
pub open spec fn link_context(
    function_imports_count: usize,
    functions: Seq<CompiledFunction>,
    runtime: RuntimeBindings,
    bases: Seq<u64>,
) -> LinkContext {
    LinkContext {
        function_imports_count,
        function_count: functions.len() as int,
        func_indices: runtime.func_indices@,
        bases,
    }
}

/// The displacement patched at a relocation site: the target address minus
/// the address of the displacement field itself, truncated to 32 bits.
pub open spec fn displacement(target: int, site: int) -> u32 {
    (target - site) as u32
}

/// The four little-endian bytes of a 32-bit displacement.
pub open spec fn le_bytes(d: u32) -> Seq<u8> {
    seq![
        (d % 256) as u8,
        ((d / 256) % 256) as u8,
        ((d / 65536) % 256) as u8,
        ((d / 16777216) % 256) as u8,
    ]
}

/// `code` with the 4 little-endian bytes of `d` stored at `offset + 4`,
/// the position of the displacement field of the relocation site at `offset`.
pub open spec fn patched(code: Seq<u8>, offset: int, d: u32) -> Seq<u8> {
    code.update(offset + 4, le_bytes(d)[0]).update(offset + 5, le_bytes(d)[1]).update(
        offset + 6,
        le_bytes(d)[2],
    ).update(offset + 7, le_bytes(d)[3])
}

/// The relocation site's byte offset within the emitting function's buffer.
pub open spec fn record_offset(r: RelocationRecord) -> u32 {
    match r {
        RelocationRecord::Call { offset, .. } => offset,
        RelocationRecord::Block { offset, .. } => offset,
        RelocationRecord::JumpTable { offset, .. } => offset,
    }
}

/// Why `r`, recorded by the function with local index `function` whose buffer
/// is `code_len` bytes long and whose block-offset table has `n_blocks`
/// entries, cannot be resolved -- or `None` if it can.
pub open spec fn record_error(
    r: RelocationRecord,
    function: usize,
    code_len: int,
    n_blocks: int,
    cx: LinkContext,
) -> Option<LinkError> {
    match r {
        RelocationRecord::Call { func_ref, offset } => if func_ref >= cx.func_indices.len() {
            Option::Some(LinkError::UnknownCallSite { function, func_ref })
        } else if cx.func_indices[func_ref as int] < cx.function_imports_count
            || cx.func_indices[func_ref as int] - cx.function_imports_count
            >= cx.function_count {
            Option::Some(LinkError::CallTargetOutOfRange { function, func_ref })
        } else if offset + 8 > code_len {
            Option::Some(LinkError::PatchOutOfBounds { function, offset })
        } else {
            Option::None
        },
        RelocationRecord::Block { block, offset } => if block >= n_blocks {
            Option::Some(LinkError::UnknownBlock { function, block })
        } else if offset + 8 > code_len {
            Option::Some(LinkError::PatchOutOfBounds { function, offset })
        } else {
            Option::None
        },
        RelocationRecord::JumpTable { table, .. } => Option::Some(
            LinkError::UnresolvedJumpTable { function, table },
        ),
    }
}

/// The displacement that resolving `r` patches into the buffer whose base
/// address is `self_base`; meaningful only when `record_error` is `None`.
pub open spec fn record_displacement(
    r: RelocationRecord,
    self_base: u64,
    block_offsets: Seq<u32>,
    cx: LinkContext,
) -> u32 {
    match r {
        RelocationRecord::Call { func_ref, offset } => displacement(
            cx.bases[cx.func_indices[func_ref as int] - cx.function_imports_count] as int,
            self_base + offset + 4,
        ),
        RelocationRecord::Block { block, offset } => displacement(
            self_base + block_offsets[block as int],
            self_base + offset + 4,
        ),
        RelocationRecord::JumpTable { .. } => arbitrary(),
    }
}

/// `code` after resolving the single record `r`.
pub open spec fn apply_record(
    code: Seq<u8>,
    r: RelocationRecord,
    self_base: u64,
    block_offsets: Seq<u32>,
    cx: LinkContext,
) -> Seq<u8> {
    match r {
        RelocationRecord::JumpTable { .. } => code,
        _ => patched(
            code,
            record_offset(r) as int,
            record_displacement(r, self_base, block_offsets, cx),
        ),
    }
}

/// `code` after resolving the first `j` records, in order.
pub open spec fn apply_prefix(
    code: Seq<u8>,
    records: Seq<RelocationRecord>,
    j: int,
    self_base: u64,
    block_offsets: Seq<u32>,
    cx: LinkContext,
) -> Seq<u8>
    decreases j,
{
    if j <= 0 {
        code
    } else {
        apply_record(
            apply_prefix(code, records, j - 1, self_base, block_offsets, cx),
            records[j - 1],
            self_base,
            block_offsets,
            cx,
        )
    }
}

/// The fully resolved code of `f`, whose buffer is based at `self_base`.
pub open spec fn resolved_code(f: CompiledFunction, self_base: u64, cx: LinkContext) -> Seq<u8> {
    apply_prefix(
        f.code@,
        f.relocations@,
        f.relocations@.len() as int,
        self_base,
        f.block_offsets@,
        cx,
    )
}

/// The first unresolvable record of `records` at or after position `j`.
pub open spec fn rec_first_error_from(
    records: Seq<RelocationRecord>,
    j: int,
    function: usize,
    code_len: int,
    n_blocks: int,
    cx: LinkContext,
) -> Option<LinkError>
    decreases records.len() - j,
{
    if j < 0 || j >= records.len() {
        Option::None
    } else {
        match record_error(records[j], function, code_len, n_blocks, cx) {
            Option::Some(e) => Option::Some(e),
            Option::None => rec_first_error_from(records, j + 1, function, code_len, n_blocks, cx),
        }
    }
}

/// The first unresolvable record of the function with local index `function`.
pub open spec fn fn_first_error(f: CompiledFunction, function: usize, cx: LinkContext) -> Option<
    LinkError,
> {
    rec_first_error_from(
        f.relocations@,
        0,
        function,
        f.code@.len() as int,
        f.block_offsets@.len() as int,
        cx,
    )
}

/// The first unresolvable record of the module at or after function `i`,
/// scanning functions in order and each function's records in order.
pub open spec fn first_error_from(
    functions: Seq<CompiledFunction>,
    i: int,
    cx: LinkContext,
) -> Option<LinkError>
    decreases functions.len() - i,
{
    if i < 0 || i >= functions.len() {
        Option::None
    } else {
        match fn_first_error(functions[i], i as usize, cx) {
            Option::Some(e) => Option::Some(e),
            Option::None => first_error_from(functions, i + 1, cx),
        }
    }
}

/// The first unresolvable record of the whole module, if any.
pub open spec fn first_error(functions: Seq<CompiledFunction>, cx: LinkContext) -> Option<
    LinkError,
> {
    first_error_from(functions, 0, cx)
}

proof fn lemma_rec_skip(
    records: Seq<RelocationRecord>,
    j: int,
    function: usize,
    code_len: int,
    n_blocks: int,
    cx: LinkContext,
)
    requires
        0 <= j <= records.len(),
        forall|k: int|
            0 <= k < j ==> record_error(records[k], function, code_len, n_blocks, cx) is None,
    ensures
        rec_first_error_from(records, 0, function, code_len, n_blocks, cx)
            == rec_first_error_from(records, j, function, code_len, n_blocks, cx),
    decreases j,
{
    if j > 0 {
        lemma_rec_skip(records, j - 1, function, code_len, n_blocks, cx);
    }
}

proof fn lemma_rec_none_all(
    records: Seq<RelocationRecord>,
    j: int,
    function: usize,
    code_len: int,
    n_blocks: int,
    cx: LinkContext,
)
    requires
        0 <= j,
        rec_first_error_from(records, j, function, code_len, n_blocks, cx) is None,
    ensures
        forall|k: int|
            j <= k < records.len() ==> record_error(records[k], function, code_len, n_blocks, cx)
                is None,
    decreases records.len() - j,
{
    if j < records.len() {
        lemma_rec_none_all(records, j + 1, function, code_len, n_blocks, cx);
    }
}

proof fn lemma_first_error_none_all(functions: Seq<CompiledFunction>, i: int, cx: LinkContext)
    requires
        0 <= i,
        first_error_from(functions, i, cx) is None,
    ensures
        forall|k: int|
            i <= k < functions.len() ==> fn_first_error(functions[k], k as usize, cx) is None,
    decreases functions.len() - i,
{
    if i < functions.len() {
        lemma_first_error_none_all(functions, i + 1, cx);
    }
}

proof fn lemma_first_error_skip(functions: Seq<CompiledFunction>, i: int, cx: LinkContext)
    requires
        0 <= i <= functions.len(),
        forall|k: int| 0 <= k < i ==> fn_first_error(functions[k], k as usize, cx) is None,
    ensures
        first_error_from(functions, 0, cx) == first_error_from(functions, i, cx),
    decreases i,
{
    if i > 0 {
        lemma_first_error_skip(functions, i - 1, cx);
    }
}

/// Resolution and its outcome depend only on the recorded relocations, the
/// code bytes, and the block-offset tables, never on the identity of the
/// holding vectors: two runs over per-function results that hold the same
/// data resolve to the same patched code and fail, if at all, on the same
/// record.
pub proof fn lemma_first_error_views(
    fs: Seq<CompiledFunction>,
    gs: Seq<CompiledFunction>,
    bases: Seq<u64>,
    cx: LinkContext,
    i: int,
)
    requires
        fs.len() == gs.len(),
        0 <= i <= fs.len(),
        forall|k: int|
            0 <= k < fs.len() ==> #[trigger] fs[k].code@ == gs[k].code@ && fs[k].relocations@
                == gs[k].relocations@ && fs[k].block_offsets@ == gs[k].block_offsets@,
    ensures
        first_error_from(fs, i, cx) == first_error_from(gs, i, cx),
        forall|k: int|
            0 <= k < fs.len() ==> resolved_code(fs[k], bases[k], cx) == resolved_code(
                gs[k],
                bases[k],
                cx,
            ),
    decreases fs.len() - i,
{
    assert forall|k: int|
        0 <= k < fs.len() implies resolved_code(fs[k], bases[k], cx) == resolved_code(
        gs[k],
        bases[k],
        cx,
    ) by {
        assert(fs[k].code@ == gs[k].code@);
    }
    if i < fs.len() {
        assert(fs[i].code@ == gs[i].code@);
        assert(fn_first_error(fs[i], i as usize, cx) == fn_first_error(gs[i], i as usize, cx));
        lemma_first_error_views(fs, gs, bases, cx, i + 1);
    }
}

/// A call relocation patches, at the displacement field of its site, the
/// four little-endian bytes of `target-base - (own-base + site-offset + 4)`,
/// truncated to a signed 32-bit value: for a function whose single record
/// calls another function, the patched bytes encode exactly the distance
/// from its own displacement field to the target buffer's base.
pub proof fn lemma_call_site_displacement(
    f: CompiledFunction,
    func_ref: usize,
    offset: u32,
    self_base: u64,
    cx: LinkContext,
)
    requires
        f.relocations@ == seq![RelocationRecord::Call { func_ref, offset }],
        func_ref < cx.func_indices.len(),
        cx.function_imports_count <= cx.func_indices[func_ref as int],
        cx.func_indices[func_ref as int] - cx.function_imports_count < cx.bases.len(),
        offset + 8 <= f.code@.len(),
    ensures
        ({
            let target = cx.bases[cx.func_indices[func_ref as int] - cx.function_imports_count];
            resolved_code(f, self_base, cx).subrange(offset + 4, offset + 8) == le_bytes(
                displacement(target as int, self_base + offset + 4),
            )
        }),
{
    let records = f.relocations@;
    let d = record_displacement(records[0], self_base, f.block_offsets@, cx);
    assert(apply_prefix(f.code@, records, 0, self_base, f.block_offsets@, cx) == f.code@);
    assert(resolved_code(f, self_base, cx) == patched(f.code@, offset as int, d));
    assert(resolved_code(f, self_base, cx).subrange(offset + 4, offset + 8) =~= le_bytes(d));
}

/// A function whose single record calls itself is patched with the
/// displacement `-(site-offset + 4)`: the distance is independent of where
/// the buffer is placed.
pub proof fn lemma_self_call_displacement(
    f: CompiledFunction,
    func_ref: usize,
    offset: u32,
    self_base: u64,
    cx: LinkContext,
)
    requires
        f.relocations@ == seq![RelocationRecord::Call { func_ref, offset }],
        func_ref < cx.func_indices.len(),
        cx.function_imports_count <= cx.func_indices[func_ref as int],
        cx.func_indices[func_ref as int] - cx.function_imports_count < cx.bases.len(),
        cx.bases[cx.func_indices[func_ref as int] - cx.function_imports_count] == self_base,
        offset + 8 <= f.code@.len(),
    ensures
        resolved_code(f, self_base, cx).subrange(offset + 4, offset + 8) == le_bytes(
            (-(offset + 4)) as u32,
        ),
{
    lemma_call_site_displacement(f, func_ref, offset, self_base, cx);
    assert(displacement(self_base as int, self_base + offset + 4) == (-(offset + 4)) as u32);
}

/// A branch to a block of the same function is patched with the displacement
/// `block-offset - (site-offset + 4)` against the function's own buffer,
/// independent of where that buffer is placed.
pub proof fn lemma_block_branch_displacement(
    f: CompiledFunction,
    block: usize,
    offset: u32,
    self_base: u64,
    cx: LinkContext,
)
    requires
        f.relocations@ == seq![RelocationRecord::Block { block, offset }],
        block < f.block_offsets@.len(),
        offset + 8 <= f.code@.len(),
    ensures
        resolved_code(f, self_base, cx).subrange(offset + 4, offset + 8) == le_bytes(
            (f.block_offsets@[block as int] - (offset + 4)) as u32,
        ),
{
    let records = f.relocations@;
    let d = record_displacement(records[0], self_base, f.block_offsets@, cx);
    assert(apply_prefix(f.code@, records, 0, self_base, f.block_offsets@, cx) == f.code@);
    assert(resolved_code(f, self_base, cx) == patched(f.code@, offset as int, d));
    assert(resolved_code(f, self_base, cx).subrange(offset + 4, offset + 8) =~= le_bytes(d));
    assert(displacement(
        self_base + f.block_offsets@[block as int],
        self_base + offset + 4,
    ) == (f.block_offsets@[block as int] - (offset + 4)) as u32);
}

/// Resolution is deterministic: the patched bytes are a function of the
/// per-function results, the bindings, the import count, and the chosen base
/// addresses alone, so two resolutions of the same module under the same
/// context produce identical buffers.
pub proof fn lemma_relocation_deterministic(
    functions: Seq<CompiledFunction>,
    bases: Seq<u64>,
    cx: LinkContext,
    out1: Seq<Seq<u8>>,
    out2: Seq<Seq<u8>>,
)
    requires
        out1.len() == functions.len(),
        out2.len() == functions.len(),
        forall|i: int|
            0 <= i < functions.len() ==> out1[i] == resolved_code(functions[i], bases[i], cx),
        forall|i: int|
            0 <= i < functions.len() ==> out2[i] == resolved_code(functions[i], bases[i], cx),
    ensures
        out1 == out2,
{
    assert(out1 =~= out2);
}

/// Computes the displacement `target - (base + offset + 4)`, truncated to a
/// signed 32-bit value, exactly as a relative call or branch encoding stores
/// it.
fn compute_displacement(target: i128, base: u64, offset: u32) -> (d: u32)
    requires
        -0x100000000000000000000 <= target <= 0x100000000000000000000,
    ensures
        d == displacement(target as int, base + offset + 4),
{
    let site: i128 = base as i128 + offset as i128 + 4;
    #[verifier::truncate]
    let d: u32 = (target - site) as u32;
    d
}

/// Stores the 4 little-endian bytes of `d` into the displacement field of the
/// relocation site at `offset`.
fn write_displacement(code: &mut Vec<u8>, offset: u32, d: u32)
    requires
        offset + 8 <= old(code).len(),
    ensures
        final(code)@ == patched(old(code)@, offset as int, d),
{
    let b0: u8 = (d % 256) as u8;
    let b1: u8 = ((d / 256) % 256) as u8;
    let b2: u8 = ((d / 65536) % 256) as u8;
    let b3: u8 = ((d / 16777216) % 256) as u8;
    let site: usize = offset as usize + 4;
    code.set(site, b0);
    code.set(site + 1, b1);
    code.set(site + 2, b2);
    code.set(site + 3, b3);
}

/// Resolves one relocation record of the function with local index
/// `function`: either the offset of its site and the displacement to patch
/// there, or the reason it cannot be resolved.
fn resolve_record(
    r: RelocationRecord,
    function: usize,
    self_base: u64,
    code_len: usize,
    block_offsets: &Vec<u32>,
    function_imports_count: usize,
    function_count: usize,
    runtime: &RuntimeBindings,
    bases: &Vec<u64>,
    Ghost(cx): Ghost<LinkContext>,
) -> (res: Result<(u32, u32), LinkError>)
    requires
        cx == (LinkContext {
            function_imports_count,
            function_count: function_count as int,
            func_indices: runtime.func_indices@,
            bases: bases@,
        }),
        function_count == bases@.len(),
    ensures
        match record_error(r, function, code_len as int, block_offsets@.len() as int, cx) {
            Option::Some(e) => res == Err::<(u32, u32), LinkError>(e),
            Option::None => {
                &&& res is Ok
                &&& res->Ok_0.0 == record_offset(r)
                &&& res->Ok_0.1 == record_displacement(r, self_base, block_offsets@, cx)
                &&& record_offset(r) + 8 <= code_len
            },
        },
{
    match r {
        RelocationRecord::Call { func_ref, offset } => {
            if func_ref >= runtime.func_indices.len() {
                return Err(LinkError::UnknownCallSite { function, func_ref });
            }
            let module_index = runtime.func_indices[func_ref];
            if module_index < function_imports_count {
                return Err(LinkError::CallTargetOutOfRange { function, func_ref });
            }
            let local = module_index - function_imports_count;
            if local >= function_count {
                return Err(LinkError::CallTargetOutOfRange { function, func_ref });
            }
            if offset as u64 + 8 > code_len as u64 {
                return Err(LinkError::PatchOutOfBounds { function, offset });
            }
            let d = compute_displacement(bases[local] as i128, self_base, offset);
            Ok((offset, d))
        },
        RelocationRecord::Block { block, offset } => {
            if block >= block_offsets.len() {
                return Err(LinkError::UnknownBlock { function, block });
            }
            if offset as u64 + 8 > code_len as u64 {
                return Err(LinkError::PatchOutOfBounds { function, offset });
            }
            let target: i128 = self_base as i128 + block_offsets[block] as i128;
            let d = compute_displacement(target, self_base, offset);
            Ok((offset, d))
        },
        RelocationRecord::JumpTable { table, .. } => Err(
            LinkError::UnresolvedJumpTable { function, table },
        ),
    }
}

/// Performs the relocations of a whole module, in place.
///
/// `functions_metadata` holds, in local function order, each function's
/// emitted code, relocation records, and block-offset table; `bases[i]` is
/// the final base address of function `i`'s buffer.  Every record of every
/// function is checked first: if any is unresolvable, its error is returned
/// and no byte is patched.  Otherwise every displacement is patched into
/// the code buffers, which keep their lengths, records, and block-offset
/// tables.
pub fn relocate(
    function_imports_count: usize,
    functions_metadata: &mut Vec<CompiledFunction>,
    runtime: &RuntimeBindings,
    bases: &Vec<u64>,
) -> (r: Result<(), LinkError>)
    requires
        bases@.len() == old(functions_metadata)@.len(),
    ensures
        ({
            let fs = old(functions_metadata)@;
            let cx = link_context(function_imports_count, fs, *runtime, bases@);
            &&& final(functions_metadata)@.len() == fs.len()
            &&& forall|i: int|
                0 <= i < fs.len() ==> #[trigger] final(functions_metadata)@[i].relocations@
                    == fs[i].relocations@ && final(functions_metadata)@[i].block_offsets@
                    == fs[i].block_offsets@ && final(functions_metadata)@[i].code@.len()
                    == fs[i].code@.len()
            &&& match r {
                Ok(()) => {
                    &&& first_error(fs, cx) is None
                    &&& forall|i: int|
                        0 <= i < fs.len() ==> #[trigger] final(functions_metadata)@[i].code@
                            == resolved_code(fs[i], bases@[i], cx)
                },
                Err(e) => first_error(fs, cx) == Option::Some(e) && final(functions_metadata)@
                    == fs,
            }
        }),
{
    let ghost fs = functions_metadata@;
    let ghost cx = link_context(function_imports_count, fs, *runtime, bases@);
    let function_count = functions_metadata.len();
    // First pass: every record must resolve before any byte is patched.
    let mut i: usize = 0;
    while i < function_count
        invariant
            i <= function_count,
            functions_metadata@ == fs,
            fs.len() == function_count,
            bases@.len() == function_count,
            cx == link_context(function_imports_count, fs, *runtime, bases@),
            forall|k: int| 0 <= k < i ==> fn_first_error(fs[k], k as usize, cx) is None,
        decreases function_count - i,
    {
        let f = &functions_metadata[i];
        let code_len = f.code.len();
        let record_count = f.relocations.len();
        let mut j: usize = 0;
        while j < record_count
            invariant
                j <= record_count,
                i < function_count,
                functions_metadata@ == fs,
                fs.len() == function_count,
                bases@.len() == function_count,
                cx == link_context(function_imports_count, fs, *runtime, bases@),
                f == &fs[i as int],
                code_len == f.code@.len(),
                record_count == f.relocations@.len(),
                forall|k: int|
                    0 <= k < j ==> record_error(
                        f.relocations@[k],
                        i,
                        f.code@.len() as int,
                        f.block_offsets@.len() as int,
                        cx,
                    ) is None,
                forall|k: int| 0 <= k < i ==> fn_first_error(fs[k], k as usize, cx) is None,
            decreases record_count - j,
        {
            match resolve_record(
                f.relocations[j],
                i,
                bases[i],
                code_len,
                &f.block_offsets,
                function_imports_count,
                function_count,
                runtime,
                bases,
                Ghost(cx),
            ) {
                Ok(_) => {},
                Err(e) => {
                    proof {
                        lemma_rec_skip(
                            f.relocations@,
                            j as int,
                            i,
                            f.code@.len() as int,
                            f.block_offsets@.len() as int,
                            cx,
                        );
                        lemma_first_error_skip(fs, i as int, cx);
                    }
                    return Err(e);
                },
            }
            j += 1;
        }
        proof {
            lemma_rec_skip(
                f.relocations@,
                record_count as int,
                i,
                f.code@.len() as int,
                f.block_offsets@.len() as int,
                cx,
            );
        }
        i += 1;
    }
    proof {
        lemma_first_error_skip(fs, function_count as int, cx);
        lemma_first_error_none_all(fs, 0, cx);
    }
    // Second pass: patch every displacement field in place.
    let mut i: usize = 0;
    while i < function_count
        invariant
            i <= function_count,
            functions_metadata@.len() == fs.len(),
            fs.len() == function_count,
            bases@.len() == function_count,
            cx == link_context(function_imports_count, fs, *runtime, bases@),
            first_error_from(fs, 0, cx) is None,
            forall|k: int| 0 <= k < fs.len() ==> fn_first_error(fs[k], k as usize, cx) is None,
            forall|k: int| i <= k < fs.len() ==> functions_metadata@[k] == fs[k],
            forall|k: int|
                0 <= k < i ==> #[trigger] functions_metadata@[k].code@ == resolved_code(
                    fs[k],
                    bases@[k],
                    cx,
                ) && functions_metadata@[k].relocations@ == fs[k].relocations@
                    && functions_metadata@[k].block_offsets@ == fs[k].block_offsets@
                    && functions_metadata@[k].code@.len() == fs[k].code@.len(),
        decreases function_count - i,
    {
        let mut f = CompiledFunction {
            code: Vec::new(),
            relocations: Vec::new(),
            block_offsets: Vec::new(),
        };
        functions_metadata.set_and_swap(i, &mut f);
        let self_base = bases[i];
        let code_len = f.code.len();
        let record_count = f.relocations.len();
        proof {
            lemma_rec_none_all(
                f.relocations@,
                0,
                i,
                f.code@.len() as int,
                f.block_offsets@.len() as int,
                cx,
            );
        }
        let mut j: usize = 0;
        while j < record_count
            invariant
                j <= record_count,
                i < function_count,
                fs.len() == function_count,
                bases@.len() == function_count,
                cx == link_context(function_imports_count, fs, *runtime, bases@),
                self_base == bases@[i as int],
                f.relocations@ == fs[i as int].relocations@,
                f.block_offsets@ == fs[i as int].block_offsets@,
                record_count == f.relocations@.len(),
                code_len == fs[i as int].code@.len(),
                f.code@.len() == code_len,
                f.code@ == apply_prefix(
                    fs[i as int].code@,
                    fs[i as int].relocations@,
                    j as int,
                    self_base,
                    fs[i as int].block_offsets@,
                    cx,
                ),
                forall|k: int|
                    0 <= k < record_count ==> record_error(
                        fs[i as int].relocations@[k],
                        i,
                        code_len as int,
                        fs[i as int].block_offsets@.len() as int,
                        cx,
                    ) is None,
                functions_metadata@.len() == fs.len(),
                forall|k: int| i < k < fs.len() ==> functions_metadata@[k] == fs[k],
                forall|k: int|
                    0 <= k < i ==> #[trigger] functions_metadata@[k].code@ == resolved_code(
                        fs[k],
                        bases@[k],
                        cx,
                    ) && functions_metadata@[k].relocations@ == fs[k].relocations@
                        && functions_metadata@[k].block_offsets@ == fs[k].block_offsets@
                        && functions_metadata@[k].code@.len() == fs[k].code@.len(),
            decreases record_count - j,
        {
            match resolve_record(
                f.relocations[j],
                i,
                self_base,
                code_len,
                &f.block_offsets,
                function_imports_count,
                function_count,
                runtime,
                bases,
                Ghost(cx),
            ) {
                Ok(od) => {
                    write_displacement(&mut f.code, od.0, od.1);
                },
                Err(_) => {
                    proof {
                        assert(false);
                    }
                },
            }
            j += 1;
        }
        functions_metadata.set_and_swap(i, &mut f);
        i += 1;
    }
    proof {
        assert forall|idx: int| 0 <= idx < fs.len() implies functions_metadata@[idx].code@
            == resolved_code(fs[idx], bases@[idx], cx) && functions_metadata@[idx].relocations@
            == fs[idx].relocations@ && functions_metadata@[idx].block_offsets@
            == fs[idx].block_offsets@ && functions_metadata@[idx].code@.len()
            == fs[idx].code@.len() by {
            assert(functions_metadata@[idx].code@ == resolved_code(fs[idx], bases@[idx], cx));
        }
    }
    Ok(())
}

} // verus!
