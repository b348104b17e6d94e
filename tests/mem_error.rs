use wasi_abi::{mem_error_to_bus, mem_error_to_wasi, BusErrno, Errno, MemoryAccessError};

#[test]
fn wasi_translation_of_each_cause() {
    for _ in 0..2 {
        assert_eq!(mem_error_to_wasi(MemoryAccessError::HeapOutOfBounds), Errno::Fault);
        assert_eq!(mem_error_to_wasi(MemoryAccessError::Overflow), Errno::Overflow);
        assert_eq!(mem_error_to_wasi(MemoryAccessError::NonUtf8String), Errno::Inval);
        assert_eq!(mem_error_to_wasi(MemoryAccessError::Other), Errno::Inval);
    }
}

#[test]
fn bus_translation_of_each_cause() {
    for _ in 0..2 {
        assert_eq!(mem_error_to_bus(MemoryAccessError::HeapOutOfBounds), BusErrno::Memviolation);
        assert_eq!(mem_error_to_bus(MemoryAccessError::Overflow), BusErrno::Memviolation);
        assert_eq!(mem_error_to_bus(MemoryAccessError::NonUtf8String), BusErrno::Badrequest);
        assert_eq!(mem_error_to_bus(MemoryAccessError::Other), BusErrno::Unknown);
    }
}
