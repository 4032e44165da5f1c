//! Back end of a standalone execution pipeline for a translated module:
//! drives native code generation for every function, links the emitted
//! machine-code fragments by patching relative displacements, and prepares
//! the designated entry function for execution.

pub mod codegen;
pub mod diagnostics;
pub mod executable;
pub mod module;
pub mod relocation;
