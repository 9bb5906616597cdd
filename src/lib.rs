//! Pointer-stable growable buffers backed by reserved virtual address space.
//!
//! A buffer reserves its whole maximum span of address space once, and then
//! commits physical backing lazily, at the same base address, as it grows.
//! The operating-system calls themselves (reserve, commit, protect, release)
//! are performed by the caller; this crate decides when they are needed, with
//! which sizes, and what state follows from their outcome.

mod allocator;
mod error;
mod growth;
mod protection;
mod vec;

pub use crate::allocator::{AllocModel, Allocation, AllocationModel, DEFAULT_MAX, VirtualAlloc};
pub use crate::error::VmError;
pub use crate::growth::{GrowthController, GrowthModel, ensure_outcome};
pub use crate::protection::{
    PAGE_EXECUTE, PAGE_EXECUTE_READ, PAGE_EXECUTE_READWRITE, PAGE_READONLY, PAGE_READWRITE, PROT_EXEC,
    PROT_READ, PROT_WRITE, Protection, get_protection, get_windows_protection, posix_bits, windows_code,
};
pub use crate::vec::{VecModel, VirtualVec, fits, grows_from, lemma_grows_from_chain, lemma_grows_from_transitive, write_outcome};
