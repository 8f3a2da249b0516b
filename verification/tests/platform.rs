use freertos_sys::allocator::{strategy, AllocStrategy, MIN_ALIGN};
use freertos_sys::error::{cvt, retry_step, unsupported, IoError, Unsupported};
use freertos_sys::fd::FileDesc;
use freertos_sys::stdio::{is_ebadf, panic_output, Stderr, Stdin, Stdout, STDIN_BUF_SIZE};
use freertos_sys::target::{target, Cc, CodeModel, LinkerFlavor, Lld, RelocModel};
use freertos_sys::unwind::{
    classify_exception, rust_exception_class, Arch, ExceptionOrigin, RUST_EXCEPTION_CLASS,
};

#[test]
fn descriptors() {
    let fd = FileDesc::new(42);
    assert_eq!(fd.raw(), 42);
    assert_eq!(*fd.as_inner(), 42);
    assert_eq!(fd.nonblocking(), Ok(false));
    assert_eq!(fd.set_cloexec(), Err(IoError::Unsupported(Unsupported::Operation)));
    assert_eq!(fd.set_nonblocking(true), Err(IoError::Unsupported(Unsupported::Operation)));
    assert_eq!(fd.duplicate().err(), Some(IoError::Unsupported(Unsupported::Operation)));
    assert_eq!(fd.duplicate_path(b"/x").err(), Some(IoError::Unsupported(Unsupported::Operation)));
    assert_eq!(fd.into_raw(), 42);
}

#[test]
fn io_lengths_are_capped() {
    assert_eq!(FileDesc::io_len(0), 0);
    assert_eq!(FileDesc::io_len(10), 10);
    assert_eq!(FileDesc::io_len(isize::MAX as usize), isize::MAX as usize);
    assert_eq!(FileDesc::io_len(usize::MAX), isize::MAX as usize);
}

#[test]
fn system_call_results() {
    assert_eq!(cvt(-1, 5), Err(IoError::Os(5)));
    assert_eq!(cvt(3, 5), Ok(3));
    assert_eq!(cvt(0, 5), Ok(0));
    assert_eq!(cvt(-2, 5), Ok(-2));
    assert_eq!(IoError::Os(9).raw_os_error(), Some(9));
    assert_eq!(IoError::Unsupported(Unsupported::Operation).raw_os_error(), None);
    assert_eq!(unsupported::<u8>(), Err(IoError::Unsupported(Unsupported::Operation)));
}

#[test]
fn standard_streams() {
    assert_eq!(Stdin::new().file_desc().raw(), libc::STDIN_FILENO);
    assert_eq!(Stdout::new().file_desc().raw(), libc::STDOUT_FILENO);
    assert_eq!(Stderr::new().file_desc().raw(), libc::STDERR_FILENO);
    assert_eq!(Stderr::new().file_desc().raw(), 2);
    assert!(is_ebadf(&IoError::Os(5)));
    let mut err = panic_output().unwrap();
    assert_eq!(err.file_desc().raw(), 2);
    assert_eq!(err.flush(), Ok(()));
    assert_eq!(Stdout::new().flush(), Ok(()));
    assert_eq!(STDIN_BUF_SIZE, 8 * 1024);
}

#[test]
fn allocation_strategy() {
    assert_eq!(MIN_ALIGN, 16);
    assert_eq!(strategy(8, 16), AllocStrategy::Plain);
    assert_eq!(strategy(16, 16), AllocStrategy::Plain);
    assert_eq!(strategy(1, 1), AllocStrategy::Plain);
    assert_eq!(strategy(16, 15), AllocStrategy::Aligned);
    assert_eq!(strategy(8, 4), AllocStrategy::Aligned);
    assert_eq!(strategy(32, 64), AllocStrategy::Aligned);
    assert_eq!(strategy(4096, 4096), AllocStrategy::Aligned);
}

#[test]
fn exception_class_spells_moz_rust() {
    assert_eq!(rust_exception_class(), u64::from_be_bytes(*b"MOZ\0RUST"));
    assert_eq!(rust_exception_class(), RUST_EXCEPTION_CLASS);
}

#[test]
fn exceptions_are_classified() {
    let own = rust_exception_class();
    assert_eq!(classify_exception(own, true), ExceptionOrigin::Rust);
    assert_eq!(classify_exception(own, false), ExceptionOrigin::ForeignCopy);
    assert_eq!(classify_exception(0x474e_5543_432b_2b00, true), ExceptionOrigin::ForeignRuntime);
    assert_eq!(classify_exception(own ^ 1, false), ExceptionOrigin::ForeignRuntime);
}

#[test]
fn unwinder_registers() {
    assert_eq!(Arch::sp(), 2);
    assert_eq!(Arch::ra(), 1);
    assert_eq!(Arch::unwind_data_reg(), (10, 11));
    assert_eq!(Arch::sp(), gimli::RiscV::SP.0);
    assert_eq!(Arch::ra(), gimli::RiscV::RA.0);
    assert_eq!(Arch::unwind_data_reg(), (gimli::RiscV::A0.0, gimli::RiscV::A1.0));
    assert_eq!(Arch::UNWIND_PRIVATE_DATA_SIZE, 2);
}

#[test]
fn target_description() {
    let t = target();
    assert_eq!(t.data_layout, "e-m:e-p:64:64-i64:64-i128:128-n32:64-S128");
    assert_eq!(t.llvm_target, "riscv64");
    assert_eq!(t.pointer_width, 64);
    assert_eq!(t.arch, "riscv64");
    assert_eq!(t.options.os, "freertos");
    assert_eq!(t.options.vendor, "sipeed");
    assert_eq!(t.options.linker_flavor, LinkerFlavor::Gnu(Cc::No, Lld::Yes));
    assert_eq!(t.options.linker.as_deref(), Some("rust-lld"));
    assert_eq!(t.options.llvm_abiname, "lp64d");
    assert_eq!(t.options.cpu, "generic-rv64");
    assert_eq!(t.options.max_atomic_width, Some(64));
    assert_eq!(t.options.features, "+m,+a,+f,+d,+c");
    assert_eq!(t.options.relocation_model, RelocModel::Static);
    assert_eq!(t.options.code_model, Some(CodeModel::Medium));
}

#[test]
fn interrupted_calls_are_retried() {
    assert_eq!(retry_step(Err(IoError::Os(4)), 4), None);
    assert_eq!(retry_step(Err(IoError::Os(5)), 4), Some(Err(IoError::Os(5))));
    assert_eq!(retry_step(Ok(3), 4), Some(Ok(3)));
    assert_eq!(retry_step(Ok(4), 4), Some(Ok(4)));
    assert_eq!(
        retry_step(Err(IoError::NulInFileName), 4),
        Some(Err(IoError::NulInFileName))
    );
    assert_eq!(IoError::NulInFileName.raw_os_error(), None);
    assert_eq!(IoError::nul_in_file_name_message(), "file name contained an unexpected NUL byte");
}
