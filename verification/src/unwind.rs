//! Unwinding: the class that marks this runtime's exceptions, how a caught
//! exception is told apart from foreign ones, and the registers of the
//! target that the unwinder works with.

use vstd::prelude::*;

verus! {

/// "MOZ\0RUST": vendor and language of the exceptions this runtime raises.
pub const RUST_EXCEPTION_CLASS: u64 = 0x4d4f5a_00_52555354;

/// The exception class that this runtime's exceptions carry.
pub fn rust_exception_class() -> (r: u64)
    ensures
        r == RUST_EXCEPTION_CLASS,
{
    // M O Z \0  R U S T -- vendor, language
    0x4d4f5a_00_52555354
}

/// Where a caught exception comes from.
#[derive(Debug, Clone, Copy, PartialEq, Eq, Structural)]
pub enum ExceptionOrigin {
    /// Another language's runtime: the exception is deleted and the process aborts.
    ForeignRuntime,
    /// Another copy of this runtime in the same process: the process aborts.
    ForeignCopy,
    /// This runtime: the panic's payload is taken back.
    Rust,
}

/// The origin of an exception with the given class and canary: the class
/// is checked first, then the canary.
pub open spec fn exception_origin(exception_class: u64, canary_is_ours: bool) -> ExceptionOrigin {
    if exception_class != RUST_EXCEPTION_CLASS {
        ExceptionOrigin::ForeignRuntime
    } else if !canary_is_ours {
        ExceptionOrigin::ForeignCopy
    } else {
        ExceptionOrigin::Rust
    }
}

/// Classifies a caught exception by its class and by whether its canary
/// points at this copy of the runtime.
pub fn classify_exception(exception_class: u64, canary_is_ours: bool) -> (r: ExceptionOrigin)
    ensures
        r == exception_origin(exception_class, canary_is_ours),
        exception_class != RUST_EXCEPTION_CLASS ==> r == ExceptionOrigin::ForeignRuntime,
        exception_class == RUST_EXCEPTION_CLASS && !canary_is_ours ==> r == ExceptionOrigin::ForeignCopy,
        exception_class == RUST_EXCEPTION_CLASS && canary_is_ours ==> r == ExceptionOrigin::Rust,
{
    if exception_class != rust_exception_class() {
        ExceptionOrigin::ForeignRuntime
    } else if !canary_is_ours {
        ExceptionOrigin::ForeignCopy
    } else {
        ExceptionOrigin::Rust
    }
}

/// An exception that this runtime raises (its class, and its canary
/// pointing at this copy) is taken back as its own, and nothing else is.
pub proof fn lemma_own_exceptions_recognized(exception_class: u64, canary_is_ours: bool)
    ensures
        exception_origin(RUST_EXCEPTION_CLASS, true) == ExceptionOrigin::Rust,
        (exception_origin(exception_class, canary_is_ours) == ExceptionOrigin::Rust) <==> (
        exception_class == RUST_EXCEPTION_CLASS && canary_is_ours),
{
}

/// The class is checked before the canary: every exception of another class
/// ("MOZ\0RUST" being this runtime's) is foreign to the runtime, whatever its
/// canary says; another copy of this runtime is recognised only by a Rust
/// class with a canary that is not ours.
pub proof fn lemma_exception_class_first(exception_class: u64, canary_is_ours: bool)
    ensures
        exception_class != 0x4d4f5a_00_52555354u64 ==> exception_origin(
            exception_class,
            canary_is_ours,
        ) == ExceptionOrigin::ForeignRuntime,
        (exception_origin(exception_class, canary_is_ours) == ExceptionOrigin::ForeignCopy) <==> (
        exception_class == 0x4d4f5a_00_52555354u64 && !canary_is_ours),
        (exception_origin(exception_class, canary_is_ours) == ExceptionOrigin::ForeignRuntime) <==> (
        exception_class != 0x4d4f5a_00_52555354u64),
{
}

/// Reads `gimli::RiscV::SP`, the DWARF number of the stack pointer, which
/// gimli's source defines as register 2.
#[verifier::external_body]
fn gimli_riscv_sp() -> (r: u16)
    ensures
        r == 2,
{
    gimli::RiscV::SP.0
}

/// Reads `gimli::RiscV::RA`, the DWARF number of the return address, which
/// gimli's source defines as register 1.
#[verifier::external_body]
fn gimli_riscv_ra() -> (r: u16)
    ensures
        r == 1,
{
    gimli::RiscV::RA.0
}

/// Reads `gimli::RiscV::A0`, the DWARF number of the first argument
/// register, which gimli's source defines as register 10.
#[verifier::external_body]
fn gimli_riscv_a0() -> (r: u16)
    ensures
        r == 10,
{
    gimli::RiscV::A0.0
}

/// Reads `gimli::RiscV::A1`, the DWARF number of the second argument
/// register, which gimli's source defines as register 11.
#[verifier::external_body]
fn gimli_riscv_a1() -> (r: u16)
    ensures
        r == 11,
{
    gimli::RiscV::A1.0
}

/// The RISC-V registers that the unwinder works with, by DWARF number.
pub struct Arch;

impl Arch {
    /// How many words of private data an exception object carries.
    pub const UNWIND_PRIVATE_DATA_SIZE: usize = 2;

    /// The stack pointer.
    pub fn sp() -> (r: u16)
        ensures
            r == 2,
    {
        gimli_riscv_sp()
    }

    /// The return address.
    pub fn ra() -> (r: u16)
        ensures
            r == 1,
    {
        gimli_riscv_ra()
    }

    /// The two registers that pass the exception and the selector to a landing pad.
    pub fn unwind_data_reg() -> (r: (u16, u16))
        ensures
            r == (10u16, 11u16),
    {
        (gimli_riscv_a0(), gimli_riscv_a1())
    }
}

} // verus!
