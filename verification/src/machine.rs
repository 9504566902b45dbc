//! The machine types a file header can name.

use crate::error::ExtractError;
use crate::text::free_of;
use crate::vocab::unknown_text;
use vstd::prelude::*;

verus! {

/// The target machine of an image, as the file header's machine code names it.
#[allow(non_camel_case_types)]
#[derive(Clone, Copy, Debug, PartialEq, Eq, Structural)]
pub enum MachineTypes {
    /// The content of this field is assumed to be applicable to any machine type
    Unknown,
    /// Alpha AXP, 32-bit address space
    Alpha,
    /// Alpha 64/AXP 64, 64-bit address space
    Alpha64,
    /// Matsushita AM33
    AM33,
    /// x64
    AMD64,
    /// ARM little endian
    ARM,
    /// ARM64 little endian
    ARM64,
    /// ARM Thumb-2 little endian
    ARMNT,
    /// EFI byte code
    EBC,
    /// Intel 386 or later processors and compatible processors
    I386,
    /// Intel Itanium processor family
    IA64,
    /// LoongArch 32-bit processor family
    LoongArch32,
    /// LoongArch 64-bit processor family
    LoongArch64,
    /// Mitsubishi M32R little endian
    M32R,
    /// MIPS16
    MIPS16,
    /// MIPS with FPU
    MIPSFPU,
    /// MIPS16 with FPU
    MIPSFPU16,
    /// Power PC little endian
    PowerPC,
    /// Power PC with floating point support
    PowerPCFP,
    /// MIPS little endian
    R4000,
    /// RISC-V 32-bit address space
    RISCV32,
    /// RISC-V 64-bit address space
    RISCV64,
    /// RISC-V 128-bit address space
    RISCV128,
    /// Hitachi SH3
    SH3,
    /// Hitachi SH3 DSP
    SH3DSP,
    /// Hitachi SH4
    SH4,
    /// Hitachi SH5
    SH5,
    /// Thumb
    Thumb,
    /// MIPS little-endian WCE v2
    WCEMIPSV2,
}

impl MachineTypes {
    /// The machine code that the file header holds for this machine type.
    pub open spec fn code_value(self) -> u16 {
        match self {
            MachineTypes::Unknown => 0x0,
            MachineTypes::Alpha => 0x184,
            MachineTypes::Alpha64 => 0x284,
            MachineTypes::AM33 => 0x1d3,
            MachineTypes::AMD64 => 0x8664,
            MachineTypes::ARM => 0x1c0,
            MachineTypes::ARM64 => 0xaa64,
            MachineTypes::ARMNT => 0x1c4,
            MachineTypes::EBC => 0xebc,
            MachineTypes::I386 => 0x14c,
            MachineTypes::IA64 => 0x200,
            MachineTypes::LoongArch32 => 0x6232,
            MachineTypes::LoongArch64 => 0x6264,
            MachineTypes::M32R => 0x9041,
            MachineTypes::MIPS16 => 0x266,
            MachineTypes::MIPSFPU => 0x366,
            MachineTypes::MIPSFPU16 => 0x466,
            MachineTypes::PowerPC => 0x1f0,
            MachineTypes::PowerPCFP => 0x1f1,
            MachineTypes::R4000 => 0x166,
            MachineTypes::RISCV32 => 0x5032,
            MachineTypes::RISCV64 => 0x5064,
            MachineTypes::RISCV128 => 0x5128,
            MachineTypes::SH3 => 0x1a2,
            MachineTypes::SH3DSP => 0x1a3,
            MachineTypes::SH4 => 0x1a6,
            MachineTypes::SH5 => 0x1a8,
            MachineTypes::Thumb => 0x1c2,
            MachineTypes::WCEMIPSV2 => 0x169,
        }
    }

    /// The machine type with the given code, if the vocabulary has one.
    pub open spec fn of_code(code: u16) -> Option<MachineTypes> {
        if code == 0x0 {
            Some(MachineTypes::Unknown)
        } else if code == 0x184 {
            Some(MachineTypes::Alpha)
        } else if code == 0x284 {
            Some(MachineTypes::Alpha64)
        } else if code == 0x1d3 {
            Some(MachineTypes::AM33)
        } else if code == 0x8664 {
            Some(MachineTypes::AMD64)
        } else if code == 0x1c0 {
            Some(MachineTypes::ARM)
        } else if code == 0xaa64 {
            Some(MachineTypes::ARM64)
        } else if code == 0x1c4 {
            Some(MachineTypes::ARMNT)
        } else if code == 0xebc {
            Some(MachineTypes::EBC)
        } else if code == 0x14c {
            Some(MachineTypes::I386)
        } else if code == 0x200 {
            Some(MachineTypes::IA64)
        } else if code == 0x6232 {
            Some(MachineTypes::LoongArch32)
        } else if code == 0x6264 {
            Some(MachineTypes::LoongArch64)
        } else if code == 0x9041 {
            Some(MachineTypes::M32R)
        } else if code == 0x266 {
            Some(MachineTypes::MIPS16)
        } else if code == 0x366 {
            Some(MachineTypes::MIPSFPU)
        } else if code == 0x466 {
            Some(MachineTypes::MIPSFPU16)
        } else if code == 0x1f0 {
            Some(MachineTypes::PowerPC)
        } else if code == 0x1f1 {
            Some(MachineTypes::PowerPCFP)
        } else if code == 0x166 {
            Some(MachineTypes::R4000)
        } else if code == 0x5032 {
            Some(MachineTypes::RISCV32)
        } else if code == 0x5064 {
            Some(MachineTypes::RISCV64)
        } else if code == 0x5128 {
            Some(MachineTypes::RISCV128)
        } else if code == 0x1a2 {
            Some(MachineTypes::SH3)
        } else if code == 0x1a3 {
            Some(MachineTypes::SH3DSP)
        } else if code == 0x1a6 {
            Some(MachineTypes::SH4)
        } else if code == 0x1a8 {
            Some(MachineTypes::SH5)
        } else if code == 0x1c2 {
            Some(MachineTypes::Thumb)
        } else if code == 0x169 {
            Some(MachineTypes::WCEMIPSV2)
        } else {
            None
        }
    }

    /// The name of this machine type, as a row shows it.
    pub open spec fn name_text(self) -> Seq<char> {
        match self {
            MachineTypes::Unknown => "Unknown"@,
            MachineTypes::Alpha => "Alpha"@,
            MachineTypes::Alpha64 => "Alpha64"@,
            MachineTypes::AM33 => "AM33"@,
            MachineTypes::AMD64 => "AMD64"@,
            MachineTypes::ARM => "ARM"@,
            MachineTypes::ARM64 => "ARM64"@,
            MachineTypes::ARMNT => "ARMNT"@,
            MachineTypes::EBC => "EBC"@,
            MachineTypes::I386 => "I386"@,
            MachineTypes::IA64 => "IA64"@,
            MachineTypes::LoongArch32 => "LoongArch32"@,
            MachineTypes::LoongArch64 => "LoongArch64"@,
            MachineTypes::M32R => "M32R"@,
            MachineTypes::MIPS16 => "MIPS16"@,
            MachineTypes::MIPSFPU => "MIPSFPU"@,
            MachineTypes::MIPSFPU16 => "MIPSFPU16"@,
            MachineTypes::PowerPC => "PowerPC"@,
            MachineTypes::PowerPCFP => "PowerPCFP"@,
            MachineTypes::R4000 => "R4000"@,
            MachineTypes::RISCV32 => "RISCV32"@,
            MachineTypes::RISCV64 => "RISCV64"@,
            MachineTypes::RISCV128 => "RISCV128"@,
            MachineTypes::SH3 => "SH3"@,
            MachineTypes::SH3DSP => "SH3DSP"@,
            MachineTypes::SH4 => "SH4"@,
            MachineTypes::SH5 => "SH5"@,
            MachineTypes::Thumb => "Thumb"@,
            MachineTypes::WCEMIPSV2 => "WCEMIPSV2"@,
        }
    }

    /// The machine code of this machine type.
    pub fn code(&self) -> (c: u16)
        ensures
            c == self.code_value(),
    {
        match self {
            MachineTypes::Unknown => 0x0,
            MachineTypes::Alpha => 0x184,
            MachineTypes::Alpha64 => 0x284,
            MachineTypes::AM33 => 0x1d3,
            MachineTypes::AMD64 => 0x8664,
            MachineTypes::ARM => 0x1c0,
            MachineTypes::ARM64 => 0xaa64,
            MachineTypes::ARMNT => 0x1c4,
            MachineTypes::EBC => 0xebc,
            MachineTypes::I386 => 0x14c,
            MachineTypes::IA64 => 0x200,
            MachineTypes::LoongArch32 => 0x6232,
            MachineTypes::LoongArch64 => 0x6264,
            MachineTypes::M32R => 0x9041,
            MachineTypes::MIPS16 => 0x266,
            MachineTypes::MIPSFPU => 0x366,
            MachineTypes::MIPSFPU16 => 0x466,
            MachineTypes::PowerPC => 0x1f0,
            MachineTypes::PowerPCFP => 0x1f1,
            MachineTypes::R4000 => 0x166,
            MachineTypes::RISCV32 => 0x5032,
            MachineTypes::RISCV64 => 0x5064,
            MachineTypes::RISCV128 => 0x5128,
            MachineTypes::SH3 => 0x1a2,
            MachineTypes::SH3DSP => 0x1a3,
            MachineTypes::SH4 => 0x1a6,
            MachineTypes::SH5 => 0x1a8,
            MachineTypes::Thumb => 0x1c2,
            MachineTypes::WCEMIPSV2 => 0x169,
        }
    }

    /// The machine type with the given code; `None` where the vocabulary
    /// has no entry for it.
    pub fn from_u16(code: u16) -> (m: Option<MachineTypes>)
        ensures
            m == MachineTypes::of_code(code),
    {
        match code {
            0x0 => Some(MachineTypes::Unknown),
            0x184 => Some(MachineTypes::Alpha),
            0x284 => Some(MachineTypes::Alpha64),
            0x1d3 => Some(MachineTypes::AM33),
            0x8664 => Some(MachineTypes::AMD64),
            0x1c0 => Some(MachineTypes::ARM),
            0xaa64 => Some(MachineTypes::ARM64),
            0x1c4 => Some(MachineTypes::ARMNT),
            0xebc => Some(MachineTypes::EBC),
            0x14c => Some(MachineTypes::I386),
            0x200 => Some(MachineTypes::IA64),
            0x6232 => Some(MachineTypes::LoongArch32),
            0x6264 => Some(MachineTypes::LoongArch64),
            0x9041 => Some(MachineTypes::M32R),
            0x266 => Some(MachineTypes::MIPS16),
            0x366 => Some(MachineTypes::MIPSFPU),
            0x466 => Some(MachineTypes::MIPSFPU16),
            0x1f0 => Some(MachineTypes::PowerPC),
            0x1f1 => Some(MachineTypes::PowerPCFP),
            0x166 => Some(MachineTypes::R4000),
            0x5032 => Some(MachineTypes::RISCV32),
            0x5064 => Some(MachineTypes::RISCV64),
            0x5128 => Some(MachineTypes::RISCV128),
            0x1a2 => Some(MachineTypes::SH3),
            0x1a3 => Some(MachineTypes::SH3DSP),
            0x1a6 => Some(MachineTypes::SH4),
            0x1a8 => Some(MachineTypes::SH5),
            0x1c2 => Some(MachineTypes::Thumb),
            0x169 => Some(MachineTypes::WCEMIPSV2),
            _ => None,
        }
    }

    /// The name of this machine type.
    pub fn name(&self) -> (s: &'static str)
        ensures
            s@ == self.name_text(),
    {
        match self {
            MachineTypes::Unknown => "Unknown",
            MachineTypes::Alpha => "Alpha",
            MachineTypes::Alpha64 => "Alpha64",
            MachineTypes::AM33 => "AM33",
            MachineTypes::AMD64 => "AMD64",
            MachineTypes::ARM => "ARM",
            MachineTypes::ARM64 => "ARM64",
            MachineTypes::ARMNT => "ARMNT",
            MachineTypes::EBC => "EBC",
            MachineTypes::I386 => "I386",
            MachineTypes::IA64 => "IA64",
            MachineTypes::LoongArch32 => "LoongArch32",
            MachineTypes::LoongArch64 => "LoongArch64",
            MachineTypes::M32R => "M32R",
            MachineTypes::MIPS16 => "MIPS16",
            MachineTypes::MIPSFPU => "MIPSFPU",
            MachineTypes::MIPSFPU16 => "MIPSFPU16",
            MachineTypes::PowerPC => "PowerPC",
            MachineTypes::PowerPCFP => "PowerPCFP",
            MachineTypes::R4000 => "R4000",
            MachineTypes::RISCV32 => "RISCV32",
            MachineTypes::RISCV64 => "RISCV64",
            MachineTypes::RISCV128 => "RISCV128",
            MachineTypes::SH3 => "SH3",
            MachineTypes::SH3DSP => "SH3DSP",
            MachineTypes::SH4 => "SH4",
            MachineTypes::SH5 => "SH5",
            MachineTypes::Thumb => "Thumb",
            MachineTypes::WCEMIPSV2 => "WCEMIPSV2",
        }
    }
}

/// Looks a machine code up; a code without an entry is an error.
pub fn lookup_machine(code: u16) -> (r: Result<MachineTypes, ExtractError>)
    ensures
        r == match MachineTypes::of_code(code) {
            Some(m) => Ok::<MachineTypes, ExtractError>(m),
            None => Err::<MachineTypes, ExtractError>(ExtractError::UnknownMachineType),
        },
{
    match MachineTypes::from_u16(code) {
        Some(m) => Ok(m),
        None => Err(ExtractError::UnknownMachineType),
    }
}

/// What a row shows for a machine code: the name of its machine type, or
/// `Unknown` where the vocabulary has no entry.
pub open spec fn machine_field(code: u16) -> Seq<char> {
    match MachineTypes::of_code(code) {
        Some(m) => m.name_text(),
        None => unknown_text(),
    }
}

/// Names the machine of a file header for a row; a code without an entry is
/// shown as `Unknown` and does not fail the row.
pub fn machine_name(code: u16) -> (s: String)
    ensures
        s@ == machine_field(code),
{
    match lookup_machine(code) {
        Ok(m) => m.name().to_owned(),
        Err(_) => MachineTypes::Unknown.name().to_owned(),
    }
}

/// Every machine type is found again by its own code.
pub proof fn lemma_code_round_trip(m: MachineTypes)
    ensures
        MachineTypes::of_code(m.code_value()) == Some(m),
{
}

/// A code names at most one machine type: where a lookup succeeds, the
/// machine type found has that code.
pub proof fn lemma_of_code_sound(code: u16)
    ensures
        MachineTypes::of_code(code) matches Some(m) ==> m.code_value() == code,
{
}

/// What a row shows for a machine code holds no comma and is not empty.
pub proof fn lemma_machine_field_plain(code: u16)
    ensures
        free_of(machine_field(code), ','),
        machine_field(code).len() > 0,
{
    reveal_strlit("Unknown");
    reveal_strlit("Alpha");
    reveal_strlit("Alpha64");
    reveal_strlit("AM33");
    reveal_strlit("AMD64");
    reveal_strlit("ARM");
    reveal_strlit("ARM64");
    reveal_strlit("ARMNT");
    reveal_strlit("EBC");
    reveal_strlit("I386");
    reveal_strlit("IA64");
    reveal_strlit("LoongArch32");
    reveal_strlit("LoongArch64");
    reveal_strlit("M32R");
    reveal_strlit("MIPS16");
    reveal_strlit("MIPSFPU");
    reveal_strlit("MIPSFPU16");
    reveal_strlit("PowerPC");
    reveal_strlit("PowerPCFP");
    reveal_strlit("R4000");
    reveal_strlit("RISCV32");
    reveal_strlit("RISCV64");
    reveal_strlit("RISCV128");
    reveal_strlit("SH3");
    reveal_strlit("SH3DSP");
    reveal_strlit("SH4");
    reveal_strlit("SH5");
    reveal_strlit("Thumb");
    reveal_strlit("WCEMIPSV2");
}

} // verus!
