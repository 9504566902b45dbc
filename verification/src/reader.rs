//! Reading the headers of an image out of the bytes of a file.

use crate::error::ExtractError;
use crate::image::{CoffHeader, NtHeaders, OptionalHeader, StandardFields, WindowsFields};
use exe::headers::{ImageOptionalHeader32, ImageOptionalHeader64};
use exe::pe::{VecPE, PE};
use vstd::prelude::*;

verus! {

/// The error type of the `exe` crate.
#[verifier::external_type_specification]
#[verifier::external_body]
pub struct ExExeError(exe::Error);

/// The offset of the headers that the first 64 bytes of a file record, four
/// bytes from 0x3c on, the lowest first.
pub open spec fn recorded_offset(bytes: Seq<u8>) -> nat {
    (bytes[0x3c] + bytes[0x3d] * 0x100 + bytes[0x3e] * 0x1_0000 + bytes[0x3f] * 0x100_0000) as nat
}

/// Whether the place of the headers can be reckoned in machine words: the
/// recorded offset and the size of the headers behind it stay below the
/// largest index. On a 64-bit machine this holds of every file.
pub open spec fn offsets_fit(bytes: Seq<u8>) -> bool {
    bytes.len() >= 64 ==> recorded_offset(bytes) + 264 <= usize::MAX
}

/// The headers that `exe` finds in the bytes of a file taken as an image
/// of the 32-bit layout, or `None` where it finds none.
pub uninterp spec fn nt_headers_32_of(bytes: Seq<u8>) -> Option<NtHeaders>;

/// The headers that `exe` finds in the bytes of a file taken as an image
/// of the 64-bit layout, or `None` where it finds none.
pub uninterp spec fn nt_headers_64_of(bytes: Seq<u8>) -> Option<NtHeaders>;

/// Whether the checksum that `exe` computes over the bytes of a file equals
/// the one that the optional header records, or `None` where `exe` cannot
/// tell.
pub uninterp spec fn checksum_valid_of(bytes: Seq<u8>) -> Option<bool>;

/// Calls `get_valid_nt_headers_32` of `exe` on the bytes, taken as a file
/// on disk, and hands the fields of the file header on one for one, the
/// characteristics as their bits. Believed of `exe`: what it returns
/// depends on the bytes alone (it copies the fields out of the bytes in the
/// byte order of the machine, and is written for machines that store the
/// lowest byte first), and with offsets that fit it returns.
#[verifier::external_body]
fn read_coff_header_32(data: &[u8]) -> (r: Result<CoffHeader, exe::Error>)
    requires
        offsets_fit(data@),
    ensures
        match r {
            Ok(c) => nt_headers_32_of(data@) matches Some(h) && h.coff == c,
            Err(_) => nt_headers_32_of(data@) is None,
        },
{
    let h = VecPE::from_disk_data(data).get_valid_nt_headers_32()?.file_header;
    Ok(CoffHeader {
        machine: h.machine,
        number_of_sections: h.number_of_sections,
        time_date_stamp: h.time_date_stamp,
        pointer_to_symbol_table: h.pointer_to_symbol_table.0,
        number_of_symbols: h.number_of_symbols,
        size_of_optional_header: h.size_of_optional_header,
        characteristics: h.characteristics.bits(),
    })
}

/// Calls `get_valid_nt_headers_32` of `exe` on the bytes, taken as a file
/// on disk, and hands the standard fields of the optional header on one for
/// one. Believed of `exe`: what it returns depends on the bytes alone (it
/// copies the fields out of the bytes in the byte order of the machine, and
/// is written for machines that store the lowest byte first), and with
/// offsets that fit it returns.
#[verifier::external_body]
fn read_standard_fields_32(data: &[u8]) -> (r: Result<StandardFields, exe::Error>)
    requires
        offsets_fit(data@),
    ensures
        match r {
            Ok(f) => nt_headers_32_of(data@) matches Some(h) && h.optional.standard == f,
            Err(_) => nt_headers_32_of(data@) is None,
        },
{
    let h = VecPE::from_disk_data(data).get_valid_nt_headers_32()?.optional_header;
    Ok(StandardFields {
        magic: h.magic,
        major_linker_version: h.major_linker_version,
        minor_linker_version: h.minor_linker_version,
        size_of_code: h.size_of_code,
        size_of_initialized_data: h.size_of_initialized_data,
        size_of_uninitialized_data: h.size_of_uninitialized_data,
        address_of_entry_point: h.address_of_entry_point.0,
        base_of_code: h.base_of_code.0,
        base_of_data: h.base_of_data.0,
    })
}

/// Calls `get_valid_nt_headers_32` of `exe` on the bytes, taken as a file
/// on disk, and hands the Windows-specific fields of the optional header on
/// one for one, the narrower fields widened, the DLL characteristics as
/// their bits. Believed of `exe`: what it returns depends on the bytes
/// alone (it copies the fields out of the bytes in the byte order of the
/// machine, and is written for machines that store the lowest byte first),
/// and with offsets that fit it returns.
#[verifier::external_body]
fn read_windows_fields_32(data: &[u8]) -> (r: Result<WindowsFields, exe::Error>)
    requires
        offsets_fit(data@),
    ensures
        match r {
            Ok(f) => nt_headers_32_of(data@) matches Some(h) && h.optional.windows == f,
            Err(_) => nt_headers_32_of(data@) is None,
        },
{
    let ImageOptionalHeader32 { image_base, section_alignment, file_alignment,
        major_operating_system_version, minor_operating_system_version, major_image_version,
        minor_image_version, major_subsystem_version, minor_subsystem_version, size_of_image,
        size_of_headers, subsystem, dll_characteristics, size_of_stack_reserve,
        size_of_stack_commit, size_of_heap_reserve, size_of_heap_commit, loader_flags,
        number_of_rva_and_sizes, .. } =
        VecPE::from_disk_data(data).get_valid_nt_headers_32()?.optional_header;
    Ok(WindowsFields { image_base: image_base as u64, section_alignment, file_alignment,
        major_operating_system_version, minor_operating_system_version, major_image_version,
        minor_image_version, major_subsystem_version, minor_subsystem_version, size_of_image,
        size_of_headers, subsystem, dll_characteristics: dll_characteristics.bits(),
        size_of_stack_reserve: size_of_stack_reserve as u64, size_of_stack_commit:
        size_of_stack_commit as u64, size_of_heap_reserve: size_of_heap_reserve as u64,
        size_of_heap_commit: size_of_heap_commit as u64, loader_flags,
        number_of_rva_and_sizes })
}

/// Calls `get_valid_nt_headers_64` of `exe` on the bytes, taken as a file
/// on disk, and hands the fields of the file header on one for one, the
/// characteristics as their bits. Believed of `exe`: what it returns
/// depends on the bytes alone (it copies the fields out of the bytes in the
/// byte order of the machine, and is written for machines that store the
/// lowest byte first), and with offsets that fit it returns.
#[verifier::external_body]
fn read_coff_header_64(data: &[u8]) -> (r: Result<CoffHeader, exe::Error>)
    requires
        offsets_fit(data@),
    ensures
        match r {
            Ok(c) => nt_headers_64_of(data@) matches Some(h) && h.coff == c,
            Err(_) => nt_headers_64_of(data@) is None,
        },
{
    let h = VecPE::from_disk_data(data).get_valid_nt_headers_64()?.file_header;
    Ok(CoffHeader {
        machine: h.machine,
        number_of_sections: h.number_of_sections,
        time_date_stamp: h.time_date_stamp,
        pointer_to_symbol_table: h.pointer_to_symbol_table.0,
        number_of_symbols: h.number_of_symbols,
        size_of_optional_header: h.size_of_optional_header,
        characteristics: h.characteristics.bits(),
    })
}

/// Calls `get_valid_nt_headers_64` of `exe` on the bytes, taken as a file
/// on disk, and hands the standard fields of the optional header on one for
/// one. `base_of_data`, which the layout lacks, is set to 0. Believed of
/// `exe`: what it returns depends on the bytes alone (it copies the fields
/// out of the bytes in the byte order of the machine, and is written for
/// machines that store the lowest byte first), and with offsets that fit it
/// returns.
#[verifier::external_body]
fn read_standard_fields_64(data: &[u8]) -> (r: Result<StandardFields, exe::Error>)
    requires
        offsets_fit(data@),
    ensures
        match r {
            Ok(f) => nt_headers_64_of(data@) matches Some(h) && h.optional.standard == f,
            Err(_) => nt_headers_64_of(data@) is None,
        },
{
    let h = VecPE::from_disk_data(data).get_valid_nt_headers_64()?.optional_header;
    Ok(StandardFields {
        magic: h.magic,
        major_linker_version: h.major_linker_version,
        minor_linker_version: h.minor_linker_version,
        size_of_code: h.size_of_code,
        size_of_initialized_data: h.size_of_initialized_data,
        size_of_uninitialized_data: h.size_of_uninitialized_data,
        address_of_entry_point: h.address_of_entry_point.0,
        base_of_code: h.base_of_code.0,
        base_of_data: 0,
    })
}

/// Calls `get_valid_nt_headers_64` of `exe` on the bytes, taken as a file
/// on disk, and hands the Windows-specific fields of the optional header on
/// one for one, the DLL characteristics as their bits. Believed of `exe`:
/// what it returns depends on the bytes alone (it copies the fields out of
/// the bytes in the byte order of the machine, and is written for machines
/// that store the lowest byte first), and with offsets that fit it returns.
#[verifier::external_body]
fn read_windows_fields_64(data: &[u8]) -> (r: Result<WindowsFields, exe::Error>)
    requires
        offsets_fit(data@),
    ensures
        match r {
            Ok(f) => nt_headers_64_of(data@) matches Some(h) && h.optional.windows == f,
            Err(_) => nt_headers_64_of(data@) is None,
        },
{
    let ImageOptionalHeader64 { image_base, section_alignment, file_alignment,
        major_operating_system_version, minor_operating_system_version, major_image_version,
        minor_image_version, major_subsystem_version, minor_subsystem_version, size_of_image,
        size_of_headers, subsystem, dll_characteristics, size_of_stack_reserve,
        size_of_stack_commit, size_of_heap_reserve, size_of_heap_commit, loader_flags,
        number_of_rva_and_sizes, .. } =
        VecPE::from_disk_data(data).get_valid_nt_headers_64()?.optional_header;
    Ok(WindowsFields { image_base, section_alignment, file_alignment,
        major_operating_system_version, minor_operating_system_version, major_image_version,
        minor_image_version, major_subsystem_version, minor_subsystem_version, size_of_image,
        size_of_headers, subsystem, dll_characteristics: dll_characteristics.bits(),
        size_of_stack_reserve, size_of_stack_commit, size_of_heap_reserve, size_of_heap_commit,
        loader_flags, number_of_rva_and_sizes })
}

/// Calls `validate_checksum` of `exe` on the bytes, taken as a file on
/// disk. Believed of `exe`: what it returns depends on the bytes alone, and
/// with offsets that fit it returns.
#[verifier::external_body]
fn read_checksum_valid(data: &[u8]) -> (r: Result<bool, exe::Error>)
    requires
        offsets_fit(data@),
    ensures
        match r {
            Ok(b) => checksum_valid_of(data@) == Some(b),
            Err(_) => checksum_valid_of(data@) is None,
        },
{
    VecPE::from_disk_data(data).validate_checksum()
}

/// Tells whether the place of the headers can be reckoned in machine words.
fn check_offsets(data: &[u8]) -> (fit: bool)
    ensures
        fit == offsets_fit(data@),
{
    if data.len() < 64 {
        return true;
    }
    let offset: u64 = data[0x3c] as u64 + data[0x3d] as u64 * 0x100 + data[0x3e] as u64 * 0x1_0000
        + data[0x3f] as u64 * 0x100_0000;
    offset + 264 <= usize::MAX as u64
}

/// The headers of the 32-bit layout that can be read from the bytes of a
/// file, if any.
pub open spec fn headers_32_in(bytes: Seq<u8>) -> Option<NtHeaders> {
    if offsets_fit(bytes) {
        nt_headers_32_of(bytes)
    } else {
        None
    }
}

/// The headers of the 64-bit layout that can be read from the bytes of a
/// file, if any.
pub open spec fn headers_64_in(bytes: Seq<u8>) -> Option<NtHeaders> {
    if offsets_fit(bytes) {
        nt_headers_64_of(bytes)
    } else {
        None
    }
}

/// Whether the checksum that the optional header records is the one that
/// the bytes of the file give, if that can be told.
pub open spec fn checksum_in(bytes: Seq<u8>) -> Option<bool> {
    if offsets_fit(bytes) {
        checksum_valid_of(bytes)
    } else {
        None
    }
}

/// What a reading gives: the value where it was found, the error of a
/// malformed header where it was not.
pub open spec fn reading<T>(found: Option<T>) -> Result<T, ExtractError> {
    match found {
        Some(value) => Ok(value),
        None => Err(ExtractError::MalformedHeader),
    }
}

/// Reads the headers of an image of the 32-bit layout from the bytes of a
/// file. Bytes in which the headers of that layout cannot be found give the
/// error of a malformed header.
pub fn nt_headers_32(data: &[u8]) -> (r: Result<NtHeaders, ExtractError>)
    ensures
        r == reading(headers_32_in(data@)),
{
    if !check_offsets(data) {
        return Err(ExtractError::MalformedHeader);
    }
    let coff = match read_coff_header_32(data) {
        Ok(coff) => coff,
        Err(_) => {
            return Err(ExtractError::MalformedHeader);
        },
    };
    let standard = match read_standard_fields_32(data) {
        Ok(standard) => standard,
        Err(_) => {
            return Err(ExtractError::MalformedHeader);
        },
    };
    let windows = match read_windows_fields_32(data) {
        Ok(windows) => windows,
        Err(_) => {
            return Err(ExtractError::MalformedHeader);
        },
    };
    Ok(NtHeaders { coff, optional: OptionalHeader { standard, windows } })
}

/// Reads the headers of an image of the 64-bit layout from the bytes of a
/// file. Bytes in which the headers of that layout cannot be found give the
/// error of a malformed header.
pub fn nt_headers_64(data: &[u8]) -> (r: Result<NtHeaders, ExtractError>)
    ensures
        r == reading(headers_64_in(data@)),
{
    if !check_offsets(data) {
        return Err(ExtractError::MalformedHeader);
    }
    let coff = match read_coff_header_64(data) {
        Ok(coff) => coff,
        Err(_) => {
            return Err(ExtractError::MalformedHeader);
        },
    };
    let standard = match read_standard_fields_64(data) {
        Ok(standard) => standard,
        Err(_) => {
            return Err(ExtractError::MalformedHeader);
        },
    };
    let windows = match read_windows_fields_64(data) {
        Ok(windows) => windows,
        Err(_) => {
            return Err(ExtractError::MalformedHeader);
        },
    };
    Ok(NtHeaders { coff, optional: OptionalHeader { standard, windows } })
}

/// Tells whether the checksum recorded in the optional header is the one
/// that the bytes of the file give. Bytes whose headers cannot be read give
/// the error of a malformed header.
pub fn checksum_valid(data: &[u8]) -> (r: Result<bool, ExtractError>)
    ensures
        r == reading(checksum_in(data@)),
{
    if !check_offsets(data) {
        return Err(ExtractError::MalformedHeader);
    }
    match read_checksum_valid(data) {
        Ok(valid) => Ok(valid),
        Err(_) => Err(ExtractError::MalformedHeader),
    }
}

} // verus!
