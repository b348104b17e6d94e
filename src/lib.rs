//! The versioned ABI registry of a sandboxed system-call interface: the
//! entry-point tables of each ABI generation, the calling-thread identities,
//! the translation of guest memory failures into guest-visible error codes,
//! and the snapshot that carries a suspended guest execution across a fork.
use vstd::prelude::*;

pub mod calling_id;
pub mod mem_error;
pub mod registry;
pub mod syscall;
mod text;
pub mod vfork;

pub use calling_id::{
    claim_after, current_caller_id, next_count, CallerIdCache, CallerIdSeed, Claim, WasiCallingId,
};
pub use mem_error::{mem_error_to_bus, mem_error_to_wasi, BusErrno, Errno, MemoryAccessError};
pub use registry::{
    binding_for, exports_for_version, generate_import_object_from_env,
    import_object_for_all_wasi_versions, Binding, EntryPoint, ImportModule, ImportTable,
    Implementation, MemoryWidth, Namespace, WasiVersion,
};
pub use syscall::Syscall;
pub use vfork::WasiVFork;

verus! {

/// Why a guest stopped running.
#[derive(Debug, Clone, Copy, PartialEq, Eq, Structural)]
pub enum WasiError {
    /// The guest exited with this code.
    Exit(u32),
    /// The guest's module matches none of the known interface generations.
    UnknownWasiVersion,
}

/// The default stack size for WASIX guests.
pub const DEFAULT_STACK_SIZE: u64 = 1_048_576u64;

/// Where a WASIX guest's stack starts.
pub const DEFAULT_STACK_BASE: u64 = DEFAULT_STACK_SIZE;

} // verus!
