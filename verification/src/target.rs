//! The description of the `riscv64gc-sipeed-freertos` target for the compiler.

use vstd::prelude::*;

verus! {

/// Whether the linker is driven through a C compiler.
#[derive(Debug, Clone, Copy, PartialEq, Eq, Structural)]
pub enum Cc {
    Yes,
    No,
}

/// Whether the linker is LLD.
#[derive(Debug, Clone, Copy, PartialEq, Eq, Structural)]
pub enum Lld {
    Yes,
    No,
}

/// The family of command line that the linker takes.
#[derive(Debug, Clone, Copy, PartialEq, Eq, Structural)]
pub enum LinkerFlavor {
    Gnu(Cc, Lld),
    Darwin(Cc, Lld),
    WasmLld(Cc),
    Unix(Cc),
    Msvc(Lld),
    EmCc,
    Bpf,
    Ptx,
}

/// How code is placed relative to its load address.
#[derive(Debug, Clone, Copy, PartialEq, Eq, Structural)]
pub enum RelocModel {
    Static,
    Pic,
    Pie,
    DynamicNoPic,
    Ropi,
    Rwpi,
    RopiRwpi,
}

/// The range of addresses that code may refer to directly.
#[derive(Debug, Clone, Copy, PartialEq, Eq, Structural)]
pub enum CodeModel {
    Tiny,
    Small,
    Kernel,
    Medium,
    Large,
}

/// The options of a target that differ from the defaults.
#[derive(Debug, Clone)]
pub struct TargetOptions {
    pub os: String,
    pub vendor: String,
    pub linker_flavor: LinkerFlavor,
    pub linker: Option<String>,
    pub llvm_abiname: String,
    pub cpu: String,
    pub max_atomic_width: Option<u64>,
    pub features: String,
    pub relocation_model: RelocModel,
    pub code_model: Option<CodeModel>,
}

/// A compilation target.
#[derive(Debug, Clone)]
pub struct Target {
    pub data_layout: String,
    pub llvm_target: String,
    pub pointer_width: u32,
    pub arch: String,
    pub options: TargetOptions,
}

/// The 64-bit RISC-V target with the G and C extensions that runs FreeRTOS
/// on Sipeed boards, linked statically by the LLD that ships with Rust.
pub fn target() -> (t: Target)
    ensures
        t.data_layout@ == "e-m:e-p:64:64-i64:64-i128:128-n32:64-S128"@,
        t.llvm_target@ == "riscv64"@,
        t.pointer_width == 64,
        t.arch@ == "riscv64"@,
        t.options.os@ == "freertos"@,
        t.options.vendor@ == "sipeed"@,
        t.options.linker_flavor == LinkerFlavor::Gnu(Cc::No, Lld::Yes),
        t.options.linker matches Some(l) && l@ == "rust-lld"@,
        t.options.llvm_abiname@ == "lp64d"@,
        t.options.cpu@ == "generic-rv64"@,
        t.options.max_atomic_width == Some(64u64),
        t.options.features@ == "+m,+a,+f,+d,+c"@,
        t.options.relocation_model == RelocModel::Static,
        t.options.code_model == Some(CodeModel::Medium),
{
    Target {
        data_layout: "e-m:e-p:64:64-i64:64-i128:128-n32:64-S128".to_owned(),
        llvm_target: "riscv64".to_owned(),
        pointer_width: 64,
        arch: "riscv64".to_owned(),
        options: TargetOptions {
            os: "freertos".to_owned(),
            vendor: "sipeed".to_owned(),
            linker_flavor: LinkerFlavor::Gnu(Cc::No, Lld::Yes),
            linker: Some("rust-lld".to_owned()),
            llvm_abiname: "lp64d".to_owned(),
            cpu: "generic-rv64".to_owned(),
            max_atomic_width: Some(64),
            features: "+m,+a,+f,+d,+c".to_owned(),
            relocation_model: RelocModel::Static,
            code_model: Some(CodeModel::Medium),
        },
    }
}

} // verus!
