//! What the rows are made from: the header values of one image, as plain
//! numbers, and the names and issuers found in its tables.

use crate::vocab::NEED_32BIT_MACHINE;
use vstd::prelude::*;

verus! {

/// The two layouts of an image, and of the rows made from it.
#[derive(Clone, Copy, Debug, PartialEq, Eq, Structural)]
pub enum Architecture {
    Bits32,
    Bits64,
}

/// The file header of an image, every field as the container holds it.
#[derive(Clone, Copy, Debug, PartialEq, Eq, Structural)]
pub struct CoffHeader {
    pub machine: u16,
    pub number_of_sections: u16,
    pub time_date_stamp: u32,
    pub pointer_to_symbol_table: u32,
    pub number_of_symbols: u32,
    pub size_of_optional_header: u16,
    pub characteristics: u16,
}

/// The standard fields of the optional header, every field as the container
/// holds it. `base_of_data` exists in the 32-bit layout only; for an image
/// of the 64-bit layout it is 0 and no row shows it.
#[derive(Clone, Copy, Debug, PartialEq, Eq, Structural)]
pub struct StandardFields {
    pub magic: u16,
    pub major_linker_version: u8,
    pub minor_linker_version: u8,
    pub size_of_code: u32,
    pub size_of_initialized_data: u32,
    pub size_of_uninitialized_data: u32,
    pub address_of_entry_point: u32,
    pub base_of_code: u32,
    pub base_of_data: u32,
}

/// The Windows-specific fields of the optional header, every field as the
/// container holds it, the narrower fields of the 32-bit layout widened.
#[derive(Clone, Copy, Debug, PartialEq, Eq, Structural)]
pub struct WindowsFields {
    pub image_base: u64,
    pub section_alignment: u32,
    pub file_alignment: u32,
    pub major_operating_system_version: u16,
    pub minor_operating_system_version: u16,
    pub major_image_version: u16,
    pub minor_image_version: u16,
    pub major_subsystem_version: u16,
    pub minor_subsystem_version: u16,
    pub size_of_image: u32,
    pub size_of_headers: u32,
    pub subsystem: u16,
    pub dll_characteristics: u16,
    pub size_of_stack_reserve: u64,
    pub size_of_stack_commit: u64,
    pub size_of_heap_reserve: u64,
    pub size_of_heap_commit: u64,
    pub loader_flags: u32,
    pub number_of_rva_and_sizes: u32,
}

/// The optional header of an image: its standard fields and its
/// Windows-specific fields.
#[derive(Clone, Copy, Debug, PartialEq, Eq, Structural)]
pub struct OptionalHeader {
    pub standard: StandardFields,
    pub windows: WindowsFields,
}

/// The two headers that stand behind the signature of an image.
#[derive(Clone, Copy, Debug, PartialEq, Eq, Structural)]
pub struct NtHeaders {
    pub coff: CoffHeader,
    pub optional: OptionalHeader,
}

/// One parsed image: its headers, the module names of its import table and
/// of its delay-import table in table order, and for each signature of its
/// certificate table the issuers of that signature's signers.
#[derive(Debug)]
pub struct ParsedImage {
    pub coff: CoffHeader,
    pub optional: OptionalHeader,
    pub imports: Vec<String>,
    pub delay_imports: Vec<String>,
    pub signatures: Vec<Vec<String>>,
}

/// The layout that a file header's characteristics call for: 32-bit where
/// the flag for a 32-bit machine is set, 64-bit where it is not.
pub open spec fn architecture_of(characteristics: u16) -> Architecture {
    if characteristics & NEED_32BIT_MACHINE != 0 {
        Architecture::Bits32
    } else {
        Architecture::Bits64
    }
}

impl CoffHeader {
    /// The layout of the image, decided by the flag for a 32-bit machine.
    pub fn architecture(&self) -> (arch: Architecture)
        ensures
            arch == architecture_of(self.characteristics),
    {
        if self.characteristics & NEED_32BIT_MACHINE != 0 {
            Architecture::Bits32
        } else {
            Architecture::Bits64
        }
    }
}

impl Architecture {
    /// The tag that a row carries for this layout.
    pub open spec fn tag_text(self) -> Seq<char> {
        match self {
            Architecture::Bits32 => "32BIT"@,
            Architecture::Bits64 => "64BIT"@,
        }
    }

    /// The tag that a row carries for this layout: `32BIT` or `64BIT`.
    pub fn tag(&self) -> (s: &'static str)
        ensures
            s@ == self.tag_text(),
    {
        match self {
            Architecture::Bits32 => "32BIT",
            Architecture::Bits64 => "64BIT",
        }
    }

    /// Whether this is the 64-bit layout.
    pub fn is_x64(&self) -> (b: bool)
        ensures
            b == (*self == Architecture::Bits64),
    {
        match self {
            Architecture::Bits32 => false,
            Architecture::Bits64 => true,
        }
    }
}

} // verus!
