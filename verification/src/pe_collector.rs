//! Rows made from the headers alone, read out of the bytes of a file: the
//! file header and the optional header in full, with the validity of the
//! checksum.

use crate::error::ExtractError;
use crate::extract::{
    comma, front_values, image_base_hex, image_base_text, middle_values, optional_front,
    optional_middle, shown_characteristics,
};
use crate::image::{Architecture, CoffHeader, NtHeaders, OptionalHeader};
use crate::machine::{lemma_machine_field_plain, machine_field, machine_name};
use crate::reader::{
    checksum_in, checksum_valid, headers_32_in, headers_64_in, nt_headers_32, nt_headers_64,
};
use crate::row_laws::{lemma_address_text, lemma_all_free_concat, lemma_image_base_text};
use crate::stamp::{timestamp, timestamp_field};
use crate::text::{
    all_free_of, count_char, decimal, decimal_text, dotted, dotted_text, extend_texts,
    field_count, free_of, hex_text, join, join_text, lemma_count_concat, lemma_decimal_free,
    lemma_dotted_free, lemma_hex_free, lemma_join_field_count, no_texts, push_text, upper_hex,
};
use crate::vocab::{
    decode_flags, flag_names, flag_text, lemma_flag_text_free, lemma_subsystem_field_plain,
    render_flags, subsystem_field, subsystem_name, Vocabulary, NEED_32BIT_MACHINE,
};
use vstd::prelude::*;

pub use crate::machine::MachineTypes;

verus! {

/// The columns that both layouts have before the place of `base_of_data`.
pub open spec fn leading_header_columns() -> Seq<Seq<char>> {
    seq![
        "file_name"@,
        "architecture"@,
        "machine_type"@,
        "number_of_sections"@,
        "timestamp"@,
        "table_pointer"@,
        "number_of_symbols"@,
        "size_of_optional_header"@,
        "file_characteristics"@,
        "magic_number"@,
        "linker_version"@,
        "size_of_code"@,
        "size_of_initialized_data"@,
        "size_of_uninitialized_data"@,
        "address_of_entry_point"@,
        "base_of_code"@,
    ]
}

/// The columns that both layouts have behind the place of `base_of_data`.
pub open spec fn trailing_header_columns() -> Seq<Seq<char>> {
    seq![
        "image_base"@,
        "section_alignment"@,
        "file_alignment"@,
        "OS_version"@,
        "image_version"@,
        "subsystem_version"@,
        "size_of_image"@,
        "size_of_headers"@,
        "checksum_validation"@,
        "subsystem"@,
        "dll_characteristics"@,
        "size_of_stack_reserve"@,
        "size_of_stack_commit"@,
        "size_of_heap_reserve"@,
        "size_of_heap_commit"@,
        "loader_flags"@,
        "number_of_rva_and_sizes"@,
    ]
}

/// The names of the columns of the table of header rows, in order. The
/// first column holds the name of the file, which the caller sets before a
/// row. The 32-bit layout has `base_of_data` behind `base_of_code`.
pub open spec fn header_columns(arch: Architecture) -> Seq<Seq<char>> {
    match arch {
        Architecture::Bits32 => leading_header_columns().push("base_of_data"@)
            + trailing_header_columns(),
        Architecture::Bits64 => leading_header_columns() + trailing_header_columns(),
    }
}

/// Number of columns of the table of header rows.
pub open spec fn header_column_count(arch: Architecture) -> nat {
    match arch {
        Architecture::Bits32 => 34,
        Architecture::Bits64 => 33,
    }
}

fn leading_names() -> (v: Vec<String>)
    ensures
        v.deep_view() == leading_header_columns(),
{
    let mut v = no_texts();
    push_text(&mut v, "file_name".to_owned());
    push_text(&mut v, "architecture".to_owned());
    push_text(&mut v, "machine_type".to_owned());
    push_text(&mut v, "number_of_sections".to_owned());
    push_text(&mut v, "timestamp".to_owned());
    push_text(&mut v, "table_pointer".to_owned());
    push_text(&mut v, "number_of_symbols".to_owned());
    push_text(&mut v, "size_of_optional_header".to_owned());
    push_text(&mut v, "file_characteristics".to_owned());
    push_text(&mut v, "magic_number".to_owned());
    push_text(&mut v, "linker_version".to_owned());
    push_text(&mut v, "size_of_code".to_owned());
    push_text(&mut v, "size_of_initialized_data".to_owned());
    push_text(&mut v, "size_of_uninitialized_data".to_owned());
    push_text(&mut v, "address_of_entry_point".to_owned());
    push_text(&mut v, "base_of_code".to_owned());
    v
}

fn trailing_names() -> (v: Vec<String>)
    ensures
        v.deep_view() == trailing_header_columns(),
{
    let mut v = no_texts();
    push_text(&mut v, "image_base".to_owned());
    push_text(&mut v, "section_alignment".to_owned());
    push_text(&mut v, "file_alignment".to_owned());
    push_text(&mut v, "OS_version".to_owned());
    push_text(&mut v, "image_version".to_owned());
    push_text(&mut v, "subsystem_version".to_owned());
    push_text(&mut v, "size_of_image".to_owned());
    push_text(&mut v, "size_of_headers".to_owned());
    push_text(&mut v, "checksum_validation".to_owned());
    push_text(&mut v, "subsystem".to_owned());
    push_text(&mut v, "dll_characteristics".to_owned());
    push_text(&mut v, "size_of_stack_reserve".to_owned());
    push_text(&mut v, "size_of_stack_commit".to_owned());
    push_text(&mut v, "size_of_heap_reserve".to_owned());
    push_text(&mut v, "size_of_heap_commit".to_owned());
    push_text(&mut v, "loader_flags".to_owned());
    push_text(&mut v, "number_of_rva_and_sizes".to_owned());
    v
}

fn header_names(arch: Architecture) -> (v: Vec<String>)
    ensures
        v.deep_view() == header_columns(arch),
{
    let mut v = leading_names();
    match arch {
        Architecture::Bits32 => {
            push_text(&mut v, "base_of_data".to_owned());
        },
        Architecture::Bits64 => {},
    }
    let rest = trailing_names();
    extend_texts(&mut v, &rest);
    v
}

fn joined_with_commas(values: &Vec<String>) -> (s: String)
    ensures
        s@ == join_text(values.deep_view(), comma()),
{
    proof {
        reveal_strlit(",");
    }
    assert(","@ =~= comma());
    join(values, ",")
}

/// The header line of the table of header rows of 64-bit images.
pub fn get_csv_headers_64() -> (s: String)
    ensures
        s@ == join_text(header_columns(Architecture::Bits64), comma()),
        field_count(s@) == 33,
{
    proof {
        lemma_header_columns_plain(Architecture::Bits64);
        lemma_join_field_count(header_columns(Architecture::Bits64));
    }
    let names = header_names(Architecture::Bits64);
    joined_with_commas(&names)
}

/// The header line of the table of header rows of 32-bit images.
pub fn get_csv_headers_32() -> (s: String)
    ensures
        s@ == join_text(header_columns(Architecture::Bits32), comma()),
        field_count(s@) == 34,
{
    proof {
        lemma_header_columns_plain(Architecture::Bits32);
        lemma_join_field_count(header_columns(Architecture::Bits32));
    }
    let names = header_names(Architecture::Bits32);
    joined_with_commas(&names)
}

/// No column name holds a comma, and each layout has its count of columns.
pub proof fn lemma_header_columns_plain(arch: Architecture)
    ensures
        all_free_of(header_columns(arch), ','),
        header_columns(arch).len() == header_column_count(arch),
{
    reveal_strlit("file_name");
    reveal_strlit("architecture");
    reveal_strlit("machine_type");
    reveal_strlit("number_of_sections");
    reveal_strlit("timestamp");
    reveal_strlit("table_pointer");
    reveal_strlit("number_of_symbols");
    reveal_strlit("size_of_optional_header");
    reveal_strlit("file_characteristics");
    reveal_strlit("magic_number");
    reveal_strlit("linker_version");
    reveal_strlit("size_of_code");
    reveal_strlit("size_of_initialized_data");
    reveal_strlit("size_of_uninitialized_data");
    reveal_strlit("address_of_entry_point");
    reveal_strlit("base_of_code");
    reveal_strlit("image_base");
    reveal_strlit("section_alignment");
    reveal_strlit("file_alignment");
    reveal_strlit("OS_version");
    reveal_strlit("image_version");
    reveal_strlit("subsystem_version");
    reveal_strlit("size_of_image");
    reveal_strlit("size_of_headers");
    reveal_strlit("checksum_validation");
    reveal_strlit("subsystem");
    reveal_strlit("dll_characteristics");
    reveal_strlit("size_of_stack_reserve");
    reveal_strlit("size_of_stack_commit");
    reveal_strlit("size_of_heap_reserve");
    reveal_strlit("size_of_heap_commit");
    reveal_strlit("loader_flags");
    reveal_strlit("number_of_rva_and_sizes");
    reveal_strlit("base_of_data");
    assert(all_free_of(leading_header_columns(), ','));
    assert(all_free_of(trailing_header_columns(), ','));
    assert(free_of("base_of_data"@, ','));
}

/// The names of the file characteristics that are set in `bits`, in the
/// order of the vocabulary.
pub fn get_file_chracteristics(bits: u16) -> (names: Vec<String>)
    ensures
        names.deep_view() == flag_names(Vocabulary::FileCharacteristics, bits),
{
    decode_flags(Vocabulary::FileCharacteristics, bits)
}

/// The names of the DLL characteristics that are set in `bits`, in the
/// order of the vocabulary.
pub fn get_dll_characteristics(bits: u16) -> (names: Vec<String>)
    ensures
        names.deep_view() == flag_names(Vocabulary::DllCharacteristics, bits),
{
    decode_flags(Vocabulary::DllCharacteristics, bits)
}

/// What a row shows for the magic number of the optional header.
pub open spec fn magic_text(magic: u16) -> Seq<char> {
    if magic == 0x10b {
        "PE32"@
    } else if magic == 0x20b {
        "PE32+"@
    } else {
        "INVALID MAGIC NUMBER"@
    }
}

/// What a row shows for the validity of the checksum.
pub open spec fn checksum_text(valid: bool) -> Seq<char> {
    if valid {
        "VALID_CHECKSUM"@
    } else {
        "INVALID_CHECKSUM"@
    }
}

/// The values that the file header gives to a header row, behind the tag of
/// the layout. `stamp` is what the row shows for the time stamp. The flag
/// for a 32-bit machine is not among the characteristics shown: the tag of
/// the layout says it.
pub open spec fn coff_values(header: CoffHeader, arch: Architecture, stamp: Seq<char>) -> Seq<
    Seq<char>,
> {
    seq![
        arch.tag_text(),
        machine_field(header.machine),
        decimal_text(header.number_of_sections as nat),
        stamp,
        hex_text(header.pointer_to_symbol_table as nat),
        decimal_text(header.number_of_symbols as nat),
        decimal_text(header.size_of_optional_header as nat),
        flag_text(Vocabulary::FileCharacteristics, shown_characteristics(header.characteristics)),
    ]
}

/// The values of the optional header that stand behind `base_of_data` in a
/// header row.
pub open spec fn header_back(header: OptionalHeader, checksum_valid: bool) -> Seq<Seq<char>> {
    seq![
        image_base_text(header.windows.image_base),
        decimal_text(header.windows.section_alignment as nat),
        decimal_text(header.windows.file_alignment as nat),
        dotted_text(
            header.windows.major_operating_system_version as nat,
            header.windows.minor_operating_system_version as nat,
        ),
        dotted_text(
            header.windows.major_image_version as nat,
            header.windows.minor_image_version as nat,
        ),
        dotted_text(
            header.windows.major_subsystem_version as nat,
            header.windows.minor_subsystem_version as nat,
        ),
        decimal_text(header.windows.size_of_image as nat),
        decimal_text(header.windows.size_of_headers as nat),
        checksum_text(checksum_valid),
        subsystem_field(header.windows.subsystem),
        flag_text(Vocabulary::DllCharacteristics, header.windows.dll_characteristics),
        decimal_text(header.windows.size_of_stack_reserve as nat),
        decimal_text(header.windows.size_of_stack_commit as nat),
        decimal_text(header.windows.size_of_heap_reserve as nat),
        decimal_text(header.windows.size_of_heap_commit as nat),
        decimal_text(header.windows.loader_flags as nat),
        decimal_text(header.windows.number_of_rva_and_sizes as nat),
    ]
}

/// The values that the optional header gives to a header row, in column
/// order: the magic number first, `base_of_data` in the 32-bit layout only.
pub open spec fn optional_head_values(
    header: OptionalHeader,
    arch: Architecture,
    checksum_valid: bool,
) -> Seq<Seq<char>> {
    seq![magic_text(header.standard.magic)] + optional_front(header) + optional_middle(header, arch)
        + header_back(header, checksum_valid)
}

/// A header row as a line, without the name of the file: the values of the
/// file header, then those of the optional header, with commas between.
pub open spec fn header_row_text(
    headers: NtHeaders,
    arch: Architecture,
    checksum_valid: bool,
    stamp: Seq<char>,
) -> Seq<char> {
    join_text(coff_values(headers.coff, arch, stamp), comma()) + comma() + join_text(
        optional_head_values(headers.optional, arch, checksum_valid),
        comma(),
    )
}

fn coff_row_values(header: &CoffHeader, arch: Architecture, stamp: &str) -> (v: Vec<String>)
    ensures
        v.deep_view() == coff_values(*header, arch, stamp@),
{
    let mut v = no_texts();
    push_text(&mut v, arch.tag().to_owned());
    push_text(&mut v, machine_name(header.machine));
    push_text(&mut v, decimal(header.number_of_sections as u64));
    push_text(&mut v, stamp.to_owned());
    push_text(&mut v, upper_hex(header.pointer_to_symbol_table as u64));
    push_text(&mut v, decimal(header.number_of_symbols as u64));
    push_text(&mut v, decimal(header.size_of_optional_header as u64));
    push_text(
        &mut v,
        render_flags(Vocabulary::FileCharacteristics, header.characteristics & !NEED_32BIT_MACHINE),
    );
    v
}

fn collect_coff_str(header: &CoffHeader, arch: Architecture, stamp: &str) -> (s: String)
    ensures
        s@ == join_text(coff_values(*header, arch, stamp@), comma()),
{
    let v = coff_row_values(header, arch, stamp);
    joined_with_commas(&v)
}

/// The file header of a 64-bit image as the first part of a header row.
pub fn collect_coff_str_64(header: &CoffHeader, stamp: &str) -> (s: String)
    ensures
        s@ == join_text(coff_values(*header, Architecture::Bits64, stamp@), comma()),
{
    collect_coff_str(header, Architecture::Bits64, stamp)
}

/// The file header of a 32-bit image as the first part of a header row.
pub fn collect_coff_str_32(header: &CoffHeader, stamp: &str) -> (s: String)
    ensures
        s@ == join_text(coff_values(*header, Architecture::Bits32, stamp@), comma()),
{
    collect_coff_str(header, Architecture::Bits32, stamp)
}

fn magic_values(magic: u16) -> (v: Vec<String>)
    ensures
        v.deep_view() == seq![magic_text(magic)],
{
    let mut v = no_texts();
    let name = match magic {
        0x10b => "PE32",
        0x20b => "PE32+",
        _ => "INVALID MAGIC NUMBER",
    };
    push_text(&mut v, name.to_owned());
    v
}

fn header_back_values(header: &OptionalHeader, checksum_valid: bool) -> (v: Vec<String>)
    ensures
        v.deep_view() == header_back(*header, checksum_valid),
{
    let mut v = no_texts();
    push_text(&mut v, image_base_hex(header.windows.image_base));
    push_text(&mut v, decimal(header.windows.section_alignment as u64));
    push_text(&mut v, decimal(header.windows.file_alignment as u64));
    push_text(
        &mut v,
        dotted(
            header.windows.major_operating_system_version as u64,
            header.windows.minor_operating_system_version as u64,
        ),
    );
    push_text(
        &mut v,
        dotted(
            header.windows.major_image_version as u64,
            header.windows.minor_image_version as u64,
        ),
    );
    push_text(
        &mut v,
        dotted(
            header.windows.major_subsystem_version as u64,
            header.windows.minor_subsystem_version as u64,
        ),
    );
    push_text(&mut v, decimal(header.windows.size_of_image as u64));
    push_text(&mut v, decimal(header.windows.size_of_headers as u64));
    let checksum = if checksum_valid {
        "VALID_CHECKSUM"
    } else {
        "INVALID_CHECKSUM"
    };
    push_text(&mut v, checksum.to_owned());
    push_text(&mut v, subsystem_name(header.windows.subsystem));
    push_text(
        &mut v,
        render_flags(Vocabulary::DllCharacteristics, header.windows.dll_characteristics),
    );
    push_text(&mut v, decimal(header.windows.size_of_stack_reserve));
    push_text(&mut v, decimal(header.windows.size_of_stack_commit));
    push_text(&mut v, decimal(header.windows.size_of_heap_reserve));
    push_text(&mut v, decimal(header.windows.size_of_heap_commit));
    push_text(&mut v, decimal(header.windows.loader_flags as u64));
    push_text(&mut v, decimal(header.windows.number_of_rva_and_sizes as u64));
    v
}

fn collect_optional_head_str(
    header: &OptionalHeader,
    arch: Architecture,
    checksum_valid: bool,
) -> (s: String)
    ensures
        s@ == join_text(optional_head_values(*header, arch, checksum_valid), comma()),
{
    let mut v = magic_values(header.standard.magic);
    let front = front_values(header);
    let middle = middle_values(header, arch);
    let back = header_back_values(header, checksum_valid);
    extend_texts(&mut v, &front);
    extend_texts(&mut v, &middle);
    extend_texts(&mut v, &back);
    joined_with_commas(&v)
}

/// The optional header of a 64-bit image as the second part of a header
/// row.
pub fn collect_optional_head_str_64(header: &OptionalHeader, checksum_valid: bool) -> (s: String)
    ensures
        s@ == join_text(
            optional_head_values(*header, Architecture::Bits64, checksum_valid),
            comma(),
        ),
{
    collect_optional_head_str(header, Architecture::Bits64, checksum_valid)
}

/// The optional header of a 32-bit image as the second part of a header
/// row, with `base_of_data` behind `base_of_code`.
pub fn collect_optional_head_str_32(header: &OptionalHeader, checksum_valid: bool) -> (s: String)
    ensures
        s@ == join_text(
            optional_head_values(*header, Architecture::Bits32, checksum_valid),
            comma(),
        ),
{
    collect_optional_head_str(header, Architecture::Bits32, checksum_valid)
}

/// Makes a header row from headers that were read: the part of the file
/// header, a comma, the part of the optional header.
pub fn header_row(headers: &NtHeaders, arch: Architecture, checksum_valid: bool, stamp: &str) -> (s:
    String)
    ensures
        s@ == header_row_text(*headers, arch, checksum_valid, stamp@),
{
    proof {
        reveal_strlit(",");
    }
    assert(","@ =~= comma());
    let mut s = collect_coff_str(&headers.coff, arch, stamp);
    let optional = collect_optional_head_str(&headers.optional, arch, checksum_valid);
    s.append(",");
    s.append(optional.as_str());
    s
}

/// What the making of a header row gives for what was found in the bytes:
/// the row where both the headers and the validity of the checksum were
/// found, the error of a malformed header where one of them was not.
pub open spec fn parse_outcome(
    row: Result<String, ExtractError>,
    found: Option<NtHeaders>,
    checksum: Option<bool>,
    arch: Architecture,
) -> bool {
    match row {
        Ok(line) => found is Some && checksum is Some && line@ == header_row_text(
            found->Some_0,
            arch,
            checksum->Some_0,
            timestamp_field(found->Some_0.coff.time_date_stamp),
        ) && field_count(line@) + 1 == header_column_count(arch),
        Err(error) => error == ExtractError::MalformedHeader && (found is None || checksum
            is None),
    }
}

/// Reads the headers of a 64-bit image from the bytes of a file and makes
/// its header row.
pub fn parse_64(image: &[u8]) -> (r: Result<String, ExtractError>)
    ensures
        parse_outcome(r, headers_64_in(image@), checksum_in(image@), Architecture::Bits64),
{
    let headers = match nt_headers_64(image) {
        Ok(headers) => headers,
        Err(error) => {
            return Err(error);
        },
    };
    let valid = match checksum_valid(image) {
        Ok(valid) => valid,
        Err(error) => {
            return Err(error);
        },
    };
    let stamp = timestamp(headers.coff.time_date_stamp);
    proof {
        lemma_header_row_field_count(headers, Architecture::Bits64, valid, stamp@);
    }
    Ok(header_row(&headers, Architecture::Bits64, valid, stamp.as_str()))
}

/// Reads the headers of a 32-bit image from the bytes of a file and makes
/// its header row.
pub fn parse_32(image: &[u8]) -> (r: Result<String, ExtractError>)
    ensures
        parse_outcome(r, headers_32_in(image@), checksum_in(image@), Architecture::Bits32),
{
    let headers = match nt_headers_32(image) {
        Ok(headers) => headers,
        Err(error) => {
            return Err(error);
        },
    };
    let valid = match checksum_valid(image) {
        Ok(valid) => valid,
        Err(error) => {
            return Err(error);
        },
    };
    let stamp = timestamp(headers.coff.time_date_stamp);
    proof {
        lemma_header_row_field_count(headers, Architecture::Bits32, valid, stamp@);
    }
    Ok(header_row(&headers, Architecture::Bits32, valid, stamp.as_str()))
}

/// The values of a header row hold no comma where the time stamp holds
/// none.
pub proof fn lemma_header_values_plain(
    headers: NtHeaders,
    arch: Architecture,
    checksum_valid: bool,
    stamp: Seq<char>,
)
    requires
        free_of(stamp, ','),
    ensures
        all_free_of(coff_values(headers.coff, arch, stamp), ','),
        all_free_of(optional_head_values(headers.optional, arch, checksum_valid), ','),
        coff_values(headers.coff, arch, stamp).len() + optional_head_values(
            headers.optional,
            arch,
            checksum_valid,
        ).len() + 1 == header_column_count(arch),
{
    let coff = headers.coff;
    let opt = headers.optional;
    reveal_strlit("32BIT");
    reveal_strlit("64BIT");
    lemma_machine_field_plain(coff.machine);
    lemma_decimal_free(coff.number_of_sections as nat);
    lemma_hex_free(coff.pointer_to_symbol_table as nat);
    lemma_decimal_free(coff.number_of_symbols as nat);
    lemma_decimal_free(coff.size_of_optional_header as nat);
    lemma_flag_text_free(
        Vocabulary::FileCharacteristics,
        shown_characteristics(coff.characteristics),
    );
    assert(all_free_of(coff_values(coff, arch, stamp), ','));
    reveal_strlit("PE32");
    reveal_strlit("PE32+");
    reveal_strlit("INVALID MAGIC NUMBER");
    assert(all_free_of(seq![magic_text(opt.standard.magic)], ','));
    lemma_dotted_free(
        opt.standard.major_linker_version as nat,
        opt.standard.minor_linker_version as nat,
    );
    lemma_decimal_free(opt.standard.size_of_code as nat);
    lemma_decimal_free(opt.standard.size_of_initialized_data as nat);
    lemma_decimal_free(opt.standard.size_of_uninitialized_data as nat);
    lemma_address_text(opt.standard.address_of_entry_point);
    lemma_address_text(opt.standard.base_of_code);
    assert(all_free_of(optional_front(opt), ','));
    lemma_address_text(opt.standard.base_of_data);
    assert(all_free_of(optional_middle(opt, arch), ','));
    lemma_header_back_plain(opt, checksum_valid);
    lemma_all_free_concat(seq![magic_text(opt.standard.magic)], optional_front(opt), ',');
    lemma_all_free_concat(
        seq![magic_text(opt.standard.magic)] + optional_front(opt),
        optional_middle(opt, arch),
        ',',
    );
    lemma_all_free_concat(
        seq![magic_text(opt.standard.magic)] + optional_front(opt) + optional_middle(opt, arch),
        header_back(opt, checksum_valid),
        ',',
    );
}

proof fn lemma_header_back_plain(opt: OptionalHeader, checksum_valid: bool)
    ensures
        all_free_of(header_back(opt, checksum_valid), ','),
{
    reveal_strlit("VALID_CHECKSUM");
    reveal_strlit("INVALID_CHECKSUM");
    lemma_image_base_text(opt.windows.image_base);
    lemma_decimal_free(opt.windows.section_alignment as nat);
    lemma_decimal_free(opt.windows.file_alignment as nat);
    lemma_dotted_free(
        opt.windows.major_operating_system_version as nat,
        opt.windows.minor_operating_system_version as nat,
    );
    lemma_dotted_free(
        opt.windows.major_image_version as nat,
        opt.windows.minor_image_version as nat,
    );
    lemma_dotted_free(
        opt.windows.major_subsystem_version as nat,
        opt.windows.minor_subsystem_version as nat,
    );
    lemma_decimal_free(opt.windows.size_of_image as nat);
    lemma_decimal_free(opt.windows.size_of_headers as nat);
    lemma_subsystem_field_plain(opt.windows.subsystem);
    lemma_flag_text_free(Vocabulary::DllCharacteristics, opt.windows.dll_characteristics);
    lemma_decimal_free(opt.windows.size_of_stack_reserve as nat);
    lemma_decimal_free(opt.windows.size_of_stack_commit as nat);
    lemma_decimal_free(opt.windows.size_of_heap_reserve as nat);
    lemma_decimal_free(opt.windows.size_of_heap_commit as nat);
    lemma_decimal_free(opt.windows.loader_flags as nat);
    lemma_decimal_free(opt.windows.number_of_rva_and_sizes as nat);
}

/// A header row has one field for each column of its table but the first,
/// which holds the name of the file: 32 fields for a 64-bit image, 33 for a
/// 32-bit image.
pub proof fn lemma_header_row_field_count(
    headers: NtHeaders,
    arch: Architecture,
    checksum_valid: bool,
    stamp: Seq<char>,
)
    requires
        free_of(stamp, ','),
    ensures
        field_count(header_row_text(headers, arch, checksum_valid, stamp)) + 1
            == header_column_count(arch),
{
    let first = coff_values(headers.coff, arch, stamp);
    let second = optional_head_values(headers.optional, arch, checksum_valid);
    lemma_header_values_plain(headers, arch, checksum_valid, stamp);
    lemma_join_field_count(first);
    lemma_join_field_count(second);
    lemma_count_concat(join_text(first, comma()) + comma(), join_text(second, comma()), ',');
    lemma_count_concat(join_text(first, comma()), comma(), ',');
    assert(count_char(comma().drop_last(), ',') == 0);
    assert(comma().last() == ',');
}

} // verus!
