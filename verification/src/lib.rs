//! The FreeRTOS platform layer of the standard library, as a verified library:
//! open-flag computation, permission and file-type bits, file descriptors,
//! the allocator's strategy choice, exception classification and the target
//! description.

pub mod error;
pub mod fd;
pub mod abi;
pub mod fs;
pub mod allocator;
pub mod stdio;
pub mod unwind;
pub mod target;
