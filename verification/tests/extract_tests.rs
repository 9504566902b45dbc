use pe_features::csv_builder::{get_x32_headers, get_x64_headers};
use pe_features::extract::{
    address_hex, assemble_row, extract_csv_row, extract_opt_header, image_base_hex, import_names,
    optional_header_values, signature_signers,
};
use pe_features::image::{
    Architecture, CoffHeader, OptionalHeader, ParsedImage, StandardFields, WindowsFields,
};

fn texts(parts: &[&str]) -> Vec<String> {
    parts.iter().map(|p| p.to_string()).collect()
}

fn sample_optional() -> OptionalHeader {
    OptionalHeader {
        standard: StandardFields {
            magic: 0x20b,
            major_linker_version: 14,
            minor_linker_version: 29,
            size_of_code: 4096,
            size_of_initialized_data: 8192,
            size_of_uninitialized_data: 0,
            address_of_entry_point: 0x1400,
            base_of_code: 0x1000,
            base_of_data: 0x2000,
        },
        windows: WindowsFields {
            image_base: 0x140000000,
            section_alignment: 4096,
            file_alignment: 512,
            major_operating_system_version: 6,
            minor_operating_system_version: 1,
            major_image_version: 2,
            minor_image_version: 3,
            major_subsystem_version: 5,
            minor_subsystem_version: 2,
            size_of_image: 36864,
            size_of_headers: 1024,
            subsystem: 3,
            dll_characteristics: 0x8160,
            size_of_stack_reserve: 1048576,
            size_of_stack_commit: 4096,
            size_of_heap_reserve: 1048576,
            size_of_heap_commit: 8192,
            loader_flags: 0,
            number_of_rva_and_sizes: 16,
        },
    }
}

fn sample_image(characteristics: u16) -> ParsedImage {
    ParsedImage {
        coff: CoffHeader {
            machine: 0x8664,
            number_of_sections: 6,
            time_date_stamp: 1_600_000_000,
            pointer_to_symbol_table: 0,
            number_of_symbols: 0,
            size_of_optional_header: 240,
            characteristics,
        },
        optional: sample_optional(),
        imports: texts(&["KERNEL32.dll", "USER32.dll"]),
        delay_imports: texts(&["ADVAPI32.dll"]),
        signatures: vec![],
    }
}

const ROW_64: &str = "sample.exe,64BIT,AMD64,6,2020-09-13 12:26:40 UTC,240,\
EXECUTABLE_IMAGE | LARGE_ADDRESS_AWARE,14.29,4096,8192,0,0x00001400,0x00001000,0x0000000140000000,4096,512,\
6.1,2.3,5.2,36864,1024,WINDOWS_CLI,\
HIGH_ENTROPY_VA | DYNAMIC_BASE | NX_COMPAT | TERMINAL_SERVER_AWARE,1048576,4096,1048576,8192,16,\
KERNEL32.dll | USER32.dll | ADVAPI32.dll,NO SIGNATURE DETECTED";

const ROW_32: &str = "sample.exe,32BIT,AMD64,6,2020-09-13 12:26:40 UTC,240,\
EXECUTABLE_IMAGE | LARGE_ADDRESS_AWARE,14.29,4096,8192,0,0x00001400,0x00001000,0x00002000,0x0000000140000000,4096,\
512,6.1,2.3,5.2,36864,1024,WINDOWS_CLI,\
HIGH_ENTROPY_VA | DYNAMIC_BASE | NX_COMPAT | TERMINAL_SERVER_AWARE,1048576,4096,1048576,8192,16,\
KERNEL32.dll | USER32.dll | ADVAPI32.dll,NO SIGNATURE DETECTED";

#[test]
fn row_of_a_64_bit_image() {
    let (row, is_x64) = extract_csv_row("sample.exe", &sample_image(0x0022));
    assert!(is_x64);
    assert_eq!(row, ROW_64);
}

#[test]
fn row_of_a_32_bit_image() {
    let (row, is_x64) = extract_csv_row("sample.exe", &sample_image(0x0122));
    assert!(!is_x64);
    assert_eq!(row, ROW_32);
}

#[test]
fn row_of_a_64_bit_image_has_30_fields() {
    let (row, _) = extract_csv_row("sample.exe", &sample_image(0x0022));
    assert_eq!(row.split(',').count(), 30);
    assert_eq!(row.split(',').count(), get_x64_headers().split(',').count());
}

#[test]
fn row_of_a_32_bit_image_has_31_fields() {
    let (row, _) = extract_csv_row("sample.exe", &sample_image(0x0122));
    assert_eq!(row.split(',').count(), 31);
    assert_eq!(row.split(',').count(), get_x32_headers().split(',').count());
}

#[test]
fn flag_for_a_32_bit_machine_is_not_shown_among_the_characteristics() {
    let (row, _) = extract_csv_row("a", &sample_image(0x0122));
    let fields: Vec<&str> = row.split(',').collect();
    assert_eq!(fields[1], "32BIT");
    assert_eq!(fields[6], "EXECUTABLE_IMAGE | LARGE_ADDRESS_AWARE");
}

#[test]
fn row_carries_the_layout_and_the_values_in_column_order() {
    let image = sample_image(0x0022);
    let row = assemble_row("x.dll", &image, "then");
    assert_eq!(row.arch, Architecture::Bits64);
    assert_eq!(row.values.len(), 30);
    assert_eq!(row.values[0], "x.dll");
    assert_eq!(row.values[4], "then");
    assert_eq!(row.values[12], "0x00001000");
    assert_eq!(row.values[13], "0x0000000140000000");
    assert_eq!(row.values[29], "NO SIGNATURE DETECTED");
    assert_eq!(row.line().split(',').count(), 30);

    let image = sample_image(0x0100);
    let row = assemble_row("x.dll", &image, "then");
    assert_eq!(row.arch, Architecture::Bits32);
    assert_eq!(row.values.len(), 31);
    assert_eq!(row.values[6], "");
    assert_eq!(row.values[12], "0x00001000");
    assert_eq!(row.values[13], "0x00002000");
    assert_eq!(row.values[14], "0x0000000140000000");
}

#[test]
fn unknown_machine_and_subsystem_do_not_fail_the_row() {
    let mut image = sample_image(0x0022);
    image.coff.machine = 0x7777;
    image.optional.windows.subsystem = 99;
    let (row, _) = extract_csv_row("sample.exe", &image);
    let fields: Vec<&str> = row.split(',').collect();
    assert_eq!(fields.len(), 30);
    assert_eq!(fields[2], "Unknown");
    assert_eq!(fields[21], "Unknown");
}

#[test]
fn optional_header_part_of_both_layouts() {
    let opt = sample_optional();
    assert_eq!(
        extract_opt_header(&opt, true),
        "14.29,4096,8192,0,0x00001400,0x00001000,0x0000000140000000,4096,512,6.1,2.3,5.2,36864,1024,\
WINDOWS_CLI,HIGH_ENTROPY_VA | DYNAMIC_BASE | NX_COMPAT | TERMINAL_SERVER_AWARE,\
1048576,4096,1048576,8192,16"
    );
    assert_eq!(
        extract_opt_header(&opt, false),
        "14.29,4096,8192,0,0x00001400,0x00001000,0x00002000,0x0000000140000000,4096,512,6.1,2.3,5.2,36864,1024,\
WINDOWS_CLI,HIGH_ENTROPY_VA | DYNAMIC_BASE | NX_COMPAT | TERMINAL_SERVER_AWARE,\
1048576,4096,1048576,8192,16"
    );
    assert_eq!(optional_header_values(&opt, Architecture::Bits64).len(), 21);
    assert_eq!(optional_header_values(&opt, Architecture::Bits32).len(), 22);
}

#[test]
fn addresses_have_one_width_in_every_row() {
    for (entry, base_of_code, image_base) in [
        (0u32, 0u32, 0u64),
        (16, 0x1000, 0x400000),
        (0xdead_beef, u32::MAX, u64::MAX),
    ] {
        let mut opt = sample_optional();
        opt.standard.address_of_entry_point = entry;
        opt.standard.base_of_code = base_of_code;
        opt.windows.image_base = image_base;
        let part = extract_opt_header(&opt, true);
        let fields: Vec<&str> = part.split(',').collect();
        assert_eq!(fields[4].len(), 10);
        assert_eq!(fields[5].len(), 10);
        assert_eq!(fields[6].len(), 18);
        assert_eq!(u64::from_str_radix(fields[4].strip_prefix("0x").unwrap(), 16), Ok(entry as u64));
        assert_eq!(
            u64::from_str_radix(fields[5].strip_prefix("0x").unwrap(), 16),
            Ok(base_of_code as u64)
        );
        assert_eq!(u64::from_str_radix(fields[6].strip_prefix("0x").unwrap(), 16), Ok(image_base));
    }
    assert_eq!(address_hex(0), "0x00000000");
    assert_eq!(address_hex(16), "0x00000010");
    assert_eq!(address_hex(0xdead_beef), "0xDEADBEEF");
    assert_eq!(image_base_hex(0x1_4000_0000), "0x0000000140000000");
}

#[test]
fn layouts_differ_in_base_of_data_only() {
    let opt = sample_optional();
    let mut wide = optional_header_values(&opt, Architecture::Bits32);
    let narrow = optional_header_values(&opt, Architecture::Bits64);
    assert_eq!(wide.remove(6), "0x00002000");
    assert_eq!(wide, narrow);
}

#[test]
fn imports_come_before_delay_imports() {
    assert_eq!(import_names(&texts(&["a.dll", "b.dll"]), &texts(&["c.dll"])), "a.dll | b.dll | c.dll");
    assert_eq!(import_names(&texts(&[]), &texts(&["c.dll"])), "c.dll");
    assert_eq!(import_names(&texts(&["a.dll"]), &texts(&[])), "a.dll");
}

#[test]
fn missing_import_tables_give_the_empty_text() {
    assert_eq!(import_names(&texts(&[]), &texts(&[])), "");
}

#[test]
fn repeated_imports_are_kept() {
    assert_eq!(import_names(&texts(&["a.dll", "a.dll"]), &texts(&["a.dll"])), "a.dll | a.dll | a.dll");
}

#[test]
fn no_signature_gives_the_fixed_text() {
    assert_eq!(signature_signers(&vec![]), "NO SIGNATURE DETECTED");
}

#[test]
fn signers_of_all_signatures_are_joined() {
    let signatures = vec![
        texts(&["CN=Root CA, O=Example, C=US", "CN=Issuing CA, O=Example"]),
        texts(&["CN=Time Stamp, O=Other"]),
    ];
    assert_eq!(
        signature_signers(&signatures),
        "CN=Root CA| O=Example| C=US \\/ CN=Issuing CA| O=Example \\/ CN=Time Stamp| O=Other"
    );
}

#[test]
fn signature_without_signers_gives_the_empty_text() {
    assert_eq!(signature_signers(&vec![vec![]]), "");
    assert_eq!(signature_signers(&vec![vec![], texts(&["CN=A"])]), "CN=A");
}

#[test]
fn commas_of_issuers_do_not_add_fields() {
    let mut image = sample_image(0x0022);
    image.signatures = vec![texts(&["CN=a,b,c", "O=d,e"])];
    let (row, _) = extract_csv_row("sample.exe", &image);
    assert_eq!(row.split(',').count(), 30);
    assert!(row.ends_with(",CN=a|b|c \\/ O=d|e"));
}

#[test]
fn header_of_the_64_bit_table() {
    assert_eq!(
        get_x64_headers(),
        "file_name,bit_architecture,machine_type,number_of_sections,timestamp,\
size_of_optional_header,file_characteristics,linker_version,size_of_code,\
size_of_initialized_data,size_of_uninitialized_data,address_of_entry_point,base_of_code,\
image_base,section_alignment,file_alignment,OS_version,image_version,subsystem_version,\
size_of_image,size_of_headers,subsystem,dll_characteristics,size_of_stack_reserve,\
size_of_stack_commit,size_of_heap_reserve,size_of_heap_commit,number_of_rva_and_sizes,\
import_directory,signature_signers"
    );
}

#[test]
fn header_of_the_32_bit_table_has_base_of_data() {
    assert_eq!(
        get_x32_headers(),
        get_x64_headers().replace("base_of_code,image_base", "base_of_code,base_of_data,image_base")
    );
    assert_eq!(get_x32_headers().split(',').count(), 31);
    assert_eq!(get_x32_headers().split(',').nth(13), Some("base_of_data"));
}

#[test]
fn headers_are_the_same_at_every_call() {
    assert_eq!(get_x64_headers(), get_x64_headers());
    assert_eq!(get_x32_headers(), get_x32_headers());
}
