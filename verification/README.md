# freertos_sys

The platform layer that the standard library uses on the
`riscv64gc-sipeed-freertos` target, written as a Verus library.

- `src/fs.rs`: open options and the `open(2)` flags they turn into, file
  permissions, file types, file attributes, and the file operations that the
  platform answers without a system call.
- `src/abi.rs`: the C library's constants, read from `libc` and carried as
  plain values, so that the logic is proved for any values a target gives them.
- `src/fd.rs`, `src/stdio.rs`: descriptors and the standard streams.
- `src/error.rs`: the error values and the reading of system-call results.
- `src/allocator.rs`: when the system allocator may use the plain C functions.
- `src/unwind.rs`: exception classes and the RISC-V registers of the unwinder.
- `src/target.rs`: the target description for the compiler.
- `app/`: the system calls themselves, through `libc`, around the library.
