use vstd::prelude::*;

verus! {

/// A growable byte buffer of the `bytes` crate, carried through unread.
#[verifier::external_type_specification]
#[verifier::external_body]
pub struct ExBytesMut(bytes::BytesMut);

/// An immutable byte buffer of the `bytes` crate, carried through unread.
#[verifier::external_type_specification]
#[verifier::external_body]
pub struct ExBytes(bytes::Bytes);

/// The suspended state of a guest execution that asked to duplicate itself.
///
/// A snapshot is owned by one thread at a time and consumed once: either the
/// fork is realized (the child's process id is written at `pid_offset` in the
/// parent's memory and the parent resumes from the rewind stack) or the
/// snapshot is abandoned. Dropping `handle` is what tells the scheduler that
/// the forked thread has ended, so no separate flag exists.
#[derive(Debug)]
pub struct WasiVFork<Env, Handle> {
    /// The unwound stack before the vfork occurred.
    pub rewind_stack: bytes::BytesMut,
    /// The memory stack before the vfork occurred.
    pub memory_stack: bytes::BytesMut,
    /// The mutable parts of the store.
    pub store_data: bytes::Bytes,
    /// The environment before the vfork occurred, moved out of the parent.
    pub env: Box<Env>,
    /// Handle of the thread that was forked; dropping it signals that the
    /// thread is dead.
    pub handle: Handle,
    /// Offset into the memory where the child's process id is written when
    /// the real fork takes place.
    pub pid_offset: u64,
}

impl<Env, Handle> WasiVFork<Env, Handle> {
    /// Captures a snapshot from the parts of a paused guest execution.
    pub fn capture(
        rewind_stack: bytes::BytesMut,
        memory_stack: bytes::BytesMut,
        store_data: bytes::Bytes,
        env: Box<Env>,
        handle: Handle,
        pid_offset: u64,
    ) -> (r: Self)
        ensures
            r.rewind_stack == rewind_stack,
            r.memory_stack == memory_stack,
            r.store_data == store_data,
            r.env == env,
            r.handle == handle,
            r.pid_offset == pid_offset,
    {
        WasiVFork { rewind_stack, memory_stack, store_data, env, handle, pid_offset }
    }

    /// Gives up the fork: the snapshot is consumed, its environment released
    /// and its thread handle dropped, which signals that the forked thread is
    /// no longer alive.
    pub fn abandon(self) {
        // every part is owned by the snapshot and is dropped here with it
        let _ = self;
    }
}

} // verus!
