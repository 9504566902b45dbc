use pe_features::error::ExtractError;
use pe_features::image::{
    Architecture, CoffHeader, NtHeaders, OptionalHeader, StandardFields, WindowsFields,
};
use pe_features::pe_collector::{
    collect_coff_str_32, collect_coff_str_64, collect_optional_head_str_32,
    collect_optional_head_str_64, get_csv_headers_32, get_csv_headers_64, header_row, parse_32,
    parse_64,
};
use pe_features::reader::{checksum_valid, nt_headers_32, nt_headers_64};

fn put16(bytes: &mut Vec<u8>, at: usize, value: u16) {
    bytes[at..at + 2].copy_from_slice(&value.to_le_bytes());
}

fn put32(bytes: &mut Vec<u8>, at: usize, value: u32) {
    bytes[at..at + 4].copy_from_slice(&value.to_le_bytes());
}

fn put64(bytes: &mut Vec<u8>, at: usize, value: u64) {
    bytes[at..at + 8].copy_from_slice(&value.to_le_bytes());
}

const NT: usize = 0x40;
const OPT: usize = NT + 24;

fn file_start(magic: u16, characteristics: u16) -> Vec<u8> {
    let mut bytes = vec![0u8; 0x200];
    put16(&mut bytes, 0, 0x5a4d);
    put32(&mut bytes, 0x3c, NT as u32);
    put32(&mut bytes, NT, 0x0000_4550);
    put16(&mut bytes, NT + 4, if magic == 0x20b { 0x8664 } else { 0x14c });
    put16(&mut bytes, NT + 6, 6);
    put32(&mut bytes, NT + 8, 1_600_000_000);
    put32(&mut bytes, NT + 12, 0x1234);
    put32(&mut bytes, NT + 16, 77);
    put16(&mut bytes, NT + 20, if magic == 0x20b { 240 } else { 224 });
    put16(&mut bytes, NT + 22, characteristics);
    put16(&mut bytes, OPT, magic);
    bytes[OPT + 2] = 14;
    bytes[OPT + 3] = 29;
    put32(&mut bytes, OPT + 4, 4096);
    put32(&mut bytes, OPT + 8, 8192);
    put32(&mut bytes, OPT + 12, 0);
    put32(&mut bytes, OPT + 16, 0x1400);
    put32(&mut bytes, OPT + 20, 0x1000);
    bytes
}

fn versions_and_sizes(bytes: &mut Vec<u8>) {
    put32(bytes, OPT + 32, 4096);
    put32(bytes, OPT + 36, 512);
    put16(bytes, OPT + 40, 6);
    put16(bytes, OPT + 42, 1);
    put16(bytes, OPT + 44, 2);
    put16(bytes, OPT + 46, 3);
    put16(bytes, OPT + 48, 5);
    put16(bytes, OPT + 50, 2);
    put32(bytes, OPT + 56, 36864);
    put32(bytes, OPT + 60, 1024);
    put16(bytes, OPT + 68, 3);
    put16(bytes, OPT + 70, 0x8160);
}

fn image_64() -> Vec<u8> {
    let mut bytes = file_start(0x20b, 0x0022);
    put64(&mut bytes, OPT + 24, 0x1_4000_0000);
    versions_and_sizes(&mut bytes);
    put64(&mut bytes, OPT + 72, 1048576);
    put64(&mut bytes, OPT + 80, 4096);
    put64(&mut bytes, OPT + 88, 2097152);
    put64(&mut bytes, OPT + 96, 8192);
    put32(&mut bytes, OPT + 104, 9);
    put32(&mut bytes, OPT + 108, 16);
    bytes
}

fn image_32() -> Vec<u8> {
    let mut bytes = file_start(0x10b, 0x0102);
    put32(&mut bytes, OPT + 24, 0x2000);
    put32(&mut bytes, OPT + 28, 0x40_0000);
    versions_and_sizes(&mut bytes);
    put32(&mut bytes, OPT + 72, 1048576);
    put32(&mut bytes, OPT + 76, 4096);
    put32(&mut bytes, OPT + 80, 2097152);
    put32(&mut bytes, OPT + 84, 8192);
    put32(&mut bytes, OPT + 88, 9);
    put32(&mut bytes, OPT + 92, 16);
    bytes
}

fn folded_sum(bytes: &[u8], skip: usize) -> u32 {
    let mut sum: u64 = 0;
    let mut at = 0;
    while at < bytes.len() {
        if at != skip {
            let mut word = [0u8; 4];
            let end = (at + 4).min(bytes.len());
            word[..end - at].copy_from_slice(&bytes[at..end]);
            sum = (sum & 0xffff_ffff) + u32::from_le_bytes(word) as u64 + (sum >> 32);
            if sum > u32::MAX as u64 {
                sum = (sum & 0xffff_ffff) + (sum >> 32);
            }
        }
        at += 4;
    }
    sum = (sum & 0xffff) + (sum >> 16);
    sum = sum + (sum >> 16);
    sum &= 0xffff;
    (sum + bytes.len() as u64) as u32
}

const COFF_64: &str =
    "64BIT,AMD64,6,2020-09-13 12:26:40 UTC,0x1234,77,240,EXECUTABLE_IMAGE | LARGE_ADDRESS_AWARE";
const COFF_32: &str =
    "32BIT,I386,6,2020-09-13 12:26:40 UTC,0x1234,77,224,EXECUTABLE_IMAGE";
const OPTIONAL_64: &str = "PE32+,14.29,4096,8192,0,0x00001400,0x00001000,0x0000000140000000,4096,512,6.1,2.3,\
5.2,36864,1024,INVALID_CHECKSUM,WINDOWS_CLI,\
HIGH_ENTROPY_VA | DYNAMIC_BASE | NX_COMPAT | TERMINAL_SERVER_AWARE,1048576,4096,2097152,8192,9,16";
const OPTIONAL_32: &str = "PE32,14.29,4096,8192,0,0x00001400,0x00001000,0x00002000,0x0000000000400000,4096,512,6.1,\
2.3,5.2,36864,1024,INVALID_CHECKSUM,WINDOWS_CLI,\
HIGH_ENTROPY_VA | DYNAMIC_BASE | NX_COMPAT | TERMINAL_SERVER_AWARE,1048576,4096,2097152,8192,9,16";

#[test]
fn header_row_of_a_64_bit_file() {
    assert_eq!(parse_64(&image_64()), Ok(format!("{},{}", COFF_64, OPTIONAL_64)));
}

#[test]
fn header_row_of_a_32_bit_file() {
    assert_eq!(parse_32(&image_32()), Ok(format!("{},{}", COFF_32, OPTIONAL_32)));
}

#[test]
fn header_rows_fill_all_columns_but_the_first() {
    let row = parse_64(&image_64()).unwrap();
    assert_eq!(row.split(',').count() + 1, get_csv_headers_64().split(',').count());
    let row = parse_32(&image_32()).unwrap();
    assert_eq!(row.split(',').count() + 1, get_csv_headers_32().split(',').count());
}

#[test]
fn file_of_the_other_layout_is_malformed() {
    assert_eq!(parse_64(&image_32()), Err(ExtractError::MalformedHeader));
    assert_eq!(parse_32(&image_64()), Err(ExtractError::MalformedHeader));
}

#[test]
fn text_file_has_no_headers() {
    let text = b"just some words, nothing more\n".to_vec();
    assert_eq!(parse_64(&text), Err(ExtractError::MalformedHeader));
    assert_eq!(parse_32(&text), Err(ExtractError::MalformedHeader));
    assert_eq!(nt_headers_64(&text), Err(ExtractError::MalformedHeader));
    assert_eq!(checksum_valid(&text), Err(ExtractError::MalformedHeader));
    assert_eq!(parse_64(&[]), Err(ExtractError::MalformedHeader));
}

#[test]
fn cut_off_file_has_no_headers() {
    let bytes = image_64();
    assert_eq!(parse_64(&bytes[..0x80]), Err(ExtractError::MalformedHeader));
    assert_eq!(nt_headers_64(&bytes[..0x40 + 135]), Err(ExtractError::MalformedHeader));
    assert!(nt_headers_64(&bytes[..0x40 + 136]).is_ok());
}

#[test]
fn wrong_signature_has_no_headers() {
    let mut bytes = image_64();
    put32(&mut bytes, NT, 0x0000_4551);
    assert_eq!(nt_headers_64(&bytes), Err(ExtractError::MalformedHeader));
    let mut bytes = image_32();
    put16(&mut bytes, 0, 0x5a4e);
    assert_eq!(nt_headers_32(&bytes), Err(ExtractError::MalformedHeader));
}

#[test]
fn headers_are_read_field_by_field() {
    let headers = nt_headers_64(&image_64()).unwrap();
    assert_eq!(
        headers.coff,
        CoffHeader {
            machine: 0x8664,
            number_of_sections: 6,
            time_date_stamp: 1_600_000_000,
            pointer_to_symbol_table: 0x1234,
            number_of_symbols: 77,
            size_of_optional_header: 240,
            characteristics: 0x0022,
        }
    );
    assert_eq!(
        headers.optional,
        OptionalHeader {
            standard: StandardFields {
                magic: 0x20b,
                major_linker_version: 14,
                minor_linker_version: 29,
                size_of_code: 4096,
                size_of_initialized_data: 8192,
                size_of_uninitialized_data: 0,
                address_of_entry_point: 0x1400,
                base_of_code: 0x1000,
                base_of_data: 0,
            },
            windows: WindowsFields {
                image_base: 0x1_4000_0000,
                section_alignment: 4096,
                file_alignment: 512,
                major_operating_system_version: 6,
                minor_operating_system_version: 1,
                major_image_version: 2,
                minor_image_version: 3,
                major_subsystem_version: 5,
                minor_subsystem_version: 2,
                size_of_image: 36864,
                size_of_headers: 1024,
                subsystem: 3,
                dll_characteristics: 0x8160,
                size_of_stack_reserve: 1048576,
                size_of_stack_commit: 4096,
                size_of_heap_reserve: 2097152,
                size_of_heap_commit: 8192,
                loader_flags: 9,
                number_of_rva_and_sizes: 16,
            },
        }
    );
    let headers = nt_headers_32(&image_32()).unwrap();
    assert_eq!(headers.coff.machine, 0x14c);
    assert_eq!(headers.coff.characteristics, 0x0102);
    assert_eq!(headers.optional.standard.base_of_data, 0x2000);
    assert_eq!(headers.optional.windows.image_base, 0x40_0000);
    assert_eq!(headers.optional.windows.size_of_heap_reserve, 2097152);
    assert_eq!(headers.optional.windows.number_of_rva_and_sizes, 16);
}

#[test]
fn checksum_that_fits_the_bytes_is_valid() {
    let mut bytes = image_32();
    assert_eq!(checksum_valid(&bytes), Ok(false));
    let sum = folded_sum(&bytes, OPT + 64);
    put32(&mut bytes, OPT + 64, sum);
    assert_eq!(checksum_valid(&bytes), Ok(true));
    let row = parse_32(&bytes).unwrap();
    assert_eq!(row, format!("{},{}", COFF_32, OPTIONAL_32.replace("INVALID_", "VALID_")));
    put32(&mut bytes, OPT + 64, sum + 1);
    assert_eq!(checksum_valid(&bytes), Ok(false));
}

#[test]
fn parts_of_a_header_row() {
    let headers = nt_headers_64(&image_64()).unwrap();
    let stamp = "2020-09-13 12:26:40 UTC";
    assert_eq!(collect_coff_str_64(&headers.coff, stamp), COFF_64);
    assert_eq!(collect_optional_head_str_64(&headers.optional, false), OPTIONAL_64);
    assert_eq!(
        collect_optional_head_str_64(&headers.optional, true),
        OPTIONAL_64.replace("INVALID_", "VALID_")
    );
    let headers = nt_headers_32(&image_32()).unwrap();
    assert_eq!(collect_coff_str_32(&headers.coff, stamp), COFF_32);
    assert_eq!(collect_optional_head_str_32(&headers.optional, false), OPTIONAL_32);
}

#[test]
fn flag_for_a_32_bit_machine_is_not_shown_in_header_rows() {
    let mut coff = nt_headers_32(&image_32()).unwrap().coff;
    coff.characteristics = 0x0122;
    let part = collect_coff_str_32(&coff, "when");
    let fields: Vec<&str> = part.split(',').collect();
    assert_eq!(fields[0], "32BIT");
    assert_eq!(fields[7], "EXECUTABLE_IMAGE | LARGE_ADDRESS_AWARE");
    let part = collect_coff_str_64(&coff, "when");
    assert_eq!(part.split(',').nth(7), Some("EXECUTABLE_IMAGE | LARGE_ADDRESS_AWARE"));
    let mut bytes = image_32();
    put16(&mut bytes, NT + 22, 0x0122);
    let row = parse_32(&bytes).unwrap();
    assert_eq!(row.split(',').nth(7), Some("EXECUTABLE_IMAGE | LARGE_ADDRESS_AWARE"));
}

#[test]
fn header_row_from_given_headers() {
    let read = nt_headers_64(&image_64()).unwrap();
    let headers = NtHeaders {
        coff: read.coff,
        optional: OptionalHeader {
            standard: StandardFields { magic: 0x999, ..read.optional.standard },
            windows: WindowsFields { subsystem: 200, ..read.optional.windows },
        },
    };
    let row = header_row(&headers, Architecture::Bits64, true, "when");
    let fields: Vec<&str> = row.split(',').collect();
    assert_eq!(fields.len(), 32);
    assert_eq!(fields[3], "when");
    assert_eq!(fields[8], "INVALID MAGIC NUMBER");
    assert_eq!(fields[23], "VALID_CHECKSUM");
    assert_eq!(fields[24], "Unknown");
}

#[test]
fn headers_of_the_header_tables() {
    assert_eq!(
        get_csv_headers_64(),
        "file_name,architecture,machine_type,number_of_sections,timestamp,table_pointer,\
number_of_symbols,size_of_optional_header,file_characteristics,magic_number,linker_version,\
size_of_code,size_of_initialized_data,size_of_uninitialized_data,address_of_entry_point,\
base_of_code,image_base,section_alignment,file_alignment,OS_version,image_version,\
subsystem_version,size_of_image,size_of_headers,checksum_validation,subsystem,\
dll_characteristics,size_of_stack_reserve,size_of_stack_commit,size_of_heap_reserve,\
size_of_heap_commit,loader_flags,number_of_rva_and_sizes"
    );
    assert_eq!(
        get_csv_headers_32(),
        get_csv_headers_64().replace("base_of_code,image_base", "base_of_code,base_of_data,image_base")
    );
    assert_eq!(get_csv_headers_64().split(',').count(), 33);
    assert_eq!(get_csv_headers_32().split(',').count(), 34);
}
