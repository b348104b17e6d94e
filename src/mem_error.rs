use vstd::prelude::*;

verus! {

/// Why an access to guest memory failed.
#[derive(Debug, Clone, Copy, PartialEq, Eq, Structural, Hash)]
pub enum MemoryAccessError {
    /// The address range lies outside the guest's allocated memory.
    HeapOutOfBounds,
    /// Computing an address overflowed.
    Overflow,
    /// Bytes that had to be valid UTF-8 text were not.
    NonUtf8String,
    /// Any other cause.
    Other,
}

/// Guest-visible error codes of the file and process system calls, as far as
/// memory failures produce them.
#[derive(Debug, Clone, Copy, PartialEq, Eq, Structural, Hash)]
pub enum Errno {
    /// Bad address.
    Fault,
    /// Value too large to be stored in its data type.
    Overflow,
    /// Invalid argument.
    Inval,
}

/// Guest-visible error codes of the bus calls, as far as memory failures
/// produce them.
#[derive(Debug, Clone, Copy, PartialEq, Eq, Structural, Hash)]
pub enum BusErrno {
    /// The call touched memory it may not touch.
    Memviolation,
    /// The request was malformed.
    Badrequest,
    /// Unknown error.
    Unknown,
}

/// Translates a memory failure into the error code of a file or process call.
pub fn mem_error_to_wasi(err: MemoryAccessError) -> (r: Errno)
    ensures
        err == MemoryAccessError::HeapOutOfBounds ==> r == Errno::Fault,
        err == MemoryAccessError::Overflow ==> r == Errno::Overflow,
        err == MemoryAccessError::NonUtf8String ==> r == Errno::Inval,
        err == MemoryAccessError::Other ==> r == Errno::Inval,
{
    match err {
        MemoryAccessError::HeapOutOfBounds => Errno::Fault,
        MemoryAccessError::Overflow => Errno::Overflow,
        MemoryAccessError::NonUtf8String => Errno::Inval,
        MemoryAccessError::Other => Errno::Inval,
    }
}

/// Translates a memory failure into the error code of a bus call.
pub fn mem_error_to_bus(err: MemoryAccessError) -> (r: BusErrno)
    ensures
        err == MemoryAccessError::HeapOutOfBounds ==> r == BusErrno::Memviolation,
        err == MemoryAccessError::Overflow ==> r == BusErrno::Memviolation,
        err == MemoryAccessError::NonUtf8String ==> r == BusErrno::Badrequest,
        err == MemoryAccessError::Other ==> r == BusErrno::Unknown,
{
    match err {
        MemoryAccessError::HeapOutOfBounds => BusErrno::Memviolation,
        MemoryAccessError::Overflow => BusErrno::Memviolation,
        MemoryAccessError::NonUtf8String => BusErrno::Badrequest,
        MemoryAccessError::Other => BusErrno::Unknown,
    }
}

} // verus!
