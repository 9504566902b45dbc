use pe_features::csv_builder::{get_x32_headers, get_x64_headers, Candidate};
use pe_features::error::ExtractError;
use pe_features::image::{
    CoffHeader, OptionalHeader, ParsedImage, StandardFields, WindowsFields,
};
use pe_features::inspect::{inspect, inspect_row, inspect_rows};
use pe_features::text::{join, split_fields};

fn image(characteristics: u16) -> ParsedImage {
    ParsedImage {
        coff: CoffHeader {
            machine: 0xaa64,
            number_of_sections: 4,
            time_date_stamp: 86_400,
            pointer_to_symbol_table: 0,
            number_of_symbols: 0,
            size_of_optional_header: 240,
            characteristics,
        },
        optional: OptionalHeader {
            standard: StandardFields {
                magic: 0x20b,
                major_linker_version: 1,
                minor_linker_version: 2,
                size_of_code: 3,
                size_of_initialized_data: 4,
                size_of_uninitialized_data: 5,
                address_of_entry_point: 6,
                base_of_code: 7,
                base_of_data: 8,
            },
            windows: WindowsFields {
                image_base: 9,
                section_alignment: 10,
                file_alignment: 11,
                major_operating_system_version: 12,
                minor_operating_system_version: 13,
                major_image_version: 14,
                minor_image_version: 15,
                major_subsystem_version: 16,
                minor_subsystem_version: 17,
                size_of_image: 18,
                size_of_headers: 19,
                subsystem: 1,
                dll_characteristics: 0x0100,
                size_of_stack_reserve: 20,
                size_of_stack_commit: 21,
                size_of_heap_reserve: 22,
                size_of_heap_commit: 23,
                loader_flags: 24,
                number_of_rva_and_sizes: 25,
            },
        },
        imports: vec!["one.dll".to_string()],
        delay_imports: vec![],
        signatures: vec![vec!["CN=Signer, O=Org".to_string()]],
    }
}

#[test]
fn split_gives_the_fields_of_a_line() {
    assert_eq!(split_fields("a,b,c"), vec!["a", "b", "c"]);
    assert_eq!(split_fields("abc"), vec!["abc"]);
    assert_eq!(split_fields(""), vec![""]);
    assert_eq!(split_fields(","), vec!["", ""]);
    assert_eq!(split_fields("a,,b,"), vec!["a", "", "b", ""]);
    assert_eq!(split_fields("é,ü"), vec!["é", "ü"]);
}

#[test]
fn split_agrees_with_the_standard_split() {
    for line in ["", "x", ",x", "x,", "1,2,3,4", "a | b,c \\/ d,,"] {
        let expected: Vec<String> = line.split(',').map(|f| f.to_string()).collect();
        assert_eq!(split_fields(line), expected);
    }
}

#[test]
fn split_gives_joined_values_back() {
    let values: Vec<String> =
        ["sample.exe", "64BIT", "", "0x10", "a | b"].iter().map(|v| v.to_string()).collect();
    assert_eq!(split_fields(&join(&values, ",")), values);
}

#[test]
fn row_laid_out_under_the_names_of_its_columns() {
    assert_eq!(
        inspect_row("name,size", "a.exe,12"),
        vec!["name: a.exe", "size: 12", ""]
    );
}

#[test]
fn fields_beyond_the_header_are_not_shown() {
    assert_eq!(inspect_row("name", "a.exe,12,13"), vec!["name: a.exe", ""]);
}

#[test]
fn rows_laid_out_one_block_after_the_other() {
    let rows = vec!["a,1".to_string(), "b,2".to_string()];
    assert_eq!(
        inspect_rows("name,size", &rows),
        vec!["name: a", "size: 1", "", "name: b", "size: 2", ""]
    );
    assert!(inspect_rows("name,size", &vec![]).is_empty());
}

#[test]
fn inspection_shows_64_bit_rows_first() {
    let candidates = vec![
        Candidate { file_name: "narrow.exe".to_string(), parsed: Ok(image(0x0102)) },
        Candidate { file_name: "text.txt".to_string(), parsed: Err(ExtractError::NotPEFormat) },
        Candidate { file_name: "wide.exe".to_string(), parsed: Ok(image(0x0002)) },
    ];
    let lines = inspect(&candidates);
    assert_eq!(lines.len(), 31 + 32);
    assert_eq!(lines[0], "file_name: wide.exe");
    assert_eq!(lines[1], "bit_architecture: 64BIT");
    assert_eq!(lines[2], "machine_type: ARM64");
    assert_eq!(lines[4], "timestamp: 1970-01-02 00:00:00 UTC");
    assert_eq!(lines[12], "base_of_code: 0x00000007");
    assert_eq!(lines[13], "image_base: 0x0000000000000009");
    assert_eq!(lines[21], "subsystem: NATIVE");
    assert_eq!(lines[22], "dll_characteristics: NX_COMPAT");
    assert_eq!(lines[28], "import_directory: one.dll");
    assert_eq!(lines[29], "signature_signers: CN=Signer| O=Org");
    assert_eq!(lines[30], "");
    assert_eq!(lines[31], "file_name: narrow.exe");
    assert_eq!(lines[32], "bit_architecture: 32BIT");
    assert_eq!(lines[31 + 13], "base_of_data: 0x00000008");
    assert_eq!(lines[31 + 14], "image_base: 0x0000000000000009");
    assert_eq!(lines[62], "");
}

#[test]
fn every_column_name_stands_before_its_value() {
    let candidates =
        vec![Candidate { file_name: "wide.exe".to_string(), parsed: Ok(image(0x0002)) }];
    let lines = inspect(&candidates);
    let names: Vec<String> = get_x64_headers().split(',').map(|n| n.to_string()).collect();
    for (line, name) in lines.iter().zip(names.iter()) {
        assert!(line.starts_with(&format!("{}: ", name)));
    }
    assert_eq!(get_x32_headers().split(',').count(), names.len() + 1);
}
