use pe_features::csv_builder::{
    append_csv, build_csv_rows, columns, create_csv, diagnostic, diagnostics, extract_to_csv,
    get_x32_headers, get_x64_headers, plan_delivery, Candidate,
};
use pe_features::error::ExtractError;
use pe_features::extract::extract_csv_row;
use pe_features::image::{
    Architecture, CoffHeader, OptionalHeader, ParsedImage, StandardFields, WindowsFields,
};
use pe_features::pe_imports::get_import_names;

fn image(characteristics: u16, sections: u16) -> ParsedImage {
    ParsedImage {
        coff: CoffHeader {
            machine: 0x14c,
            number_of_sections: sections,
            time_date_stamp: 0,
            pointer_to_symbol_table: 0,
            number_of_symbols: 0,
            size_of_optional_header: 224,
            characteristics,
        },
        optional: OptionalHeader {
            standard: StandardFields {
                magic: 0x10b,
                major_linker_version: 6,
                minor_linker_version: 0,
                size_of_code: 1,
                size_of_initialized_data: 2,
                size_of_uninitialized_data: 3,
                address_of_entry_point: 0x10,
                base_of_code: 0x20,
                base_of_data: 0x30,
            },
            windows: WindowsFields {
                image_base: 0x400000,
                section_alignment: 4096,
                file_alignment: 512,
                major_operating_system_version: 4,
                minor_operating_system_version: 0,
                major_image_version: 0,
                minor_image_version: 0,
                major_subsystem_version: 4,
                minor_subsystem_version: 0,
                size_of_image: 8192,
                size_of_headers: 512,
                subsystem: 2,
                dll_characteristics: 0,
                size_of_stack_reserve: 1,
                size_of_stack_commit: 2,
                size_of_heap_reserve: 3,
                size_of_heap_commit: 4,
                loader_flags: 0,
                number_of_rva_and_sizes: 16,
            },
        },
        imports: vec![],
        delay_imports: vec![],
        signatures: vec![],
    }
}

fn candidate(name: &str, parsed: Result<ParsedImage, ExtractError>) -> Candidate {
    Candidate { file_name: name.to_string(), parsed }
}

fn mixed() -> Vec<Candidate> {
    vec![
        candidate("a64.exe", Ok(image(0x0022, 1))),
        candidate("notes.txt", Err(ExtractError::NotPEFormat)),
        candidate("b32.exe", Ok(image(0x0102, 2))),
        candidate("broken.dll", Err(ExtractError::MalformedHeader)),
        candidate("c64.dll", Ok(image(0x2022, 3))),
    ]
}

#[test]
fn rows_are_routed_by_layout() {
    let candidates = mixed();
    let (x64, x32) = build_csv_rows(&candidates);
    assert_eq!(x64.len(), 2);
    assert_eq!(x32.len(), 1);
    assert!(x64[0].starts_with("a64.exe,64BIT,I386,1,1970-01-01 00:00:00 UTC,224,"));
    assert!(x64[1].starts_with("c64.dll,64BIT,I386,3,"));
    assert!(x32[0].starts_with("b32.exe,32BIT,I386,2,"));
    assert_eq!(x64[0], extract_csv_row("a64.exe", &image(0x0022, 1)).0);
    assert_eq!(x32[0], extract_csv_row("b32.exe", &image(0x0102, 2)).0);
}

#[test]
fn file_that_is_no_image_gives_no_row() {
    let candidates = vec![candidate("notes.txt", Err(ExtractError::NotPEFormat))];
    let (x64, x32) = build_csv_rows(&candidates);
    assert!(x64.is_empty());
    assert!(x32.is_empty());
    assert_eq!(diagnostics(&candidates), vec!["notes.txt IS NOT NOT PE FORMAT"]);
}

#[test]
fn no_candidates_give_no_rows() {
    let (x64, x32) = build_csv_rows(&vec![]);
    assert!(x64.is_empty());
    assert!(x32.is_empty());
    assert!(diagnostics(&vec![]).is_empty());
}

#[test]
fn one_line_reports_each_file_passed_over() {
    assert_eq!(
        diagnostics(&mixed()),
        vec![
            "notes.txt IS NOT NOT PE FORMAT",
            "Error parsing broken.dll, skipping... (malformed header)",
        ]
    );
}

#[test]
fn diagnostic_names_file_and_reason() {
    assert_eq!(diagnostic("x", ExtractError::NotPEFormat), "x IS NOT NOT PE FORMAT");
    assert_eq!(
        diagnostic("x", ExtractError::MalformedHeader),
        "Error parsing x, skipping... (malformed header)"
    );
    assert_eq!(
        diagnostic("x", ExtractError::UnknownSubsystem),
        "Error parsing x, skipping... (unknown subsystem)"
    );
    assert_eq!(
        diagnostic("x", ExtractError::UnknownMachineType),
        "Error parsing x, skipping... (unknown machine type)"
    );
}

#[test]
fn rows_of_both_tables_are_as_many_as_the_parsed_files() {
    let candidates = mixed();
    let parsed = candidates.iter().filter(|c| c.parsed.is_ok()).count();
    let (x64, x32) = build_csv_rows(&candidates);
    assert_eq!(x64.len() + x32.len(), parsed);
}

#[test]
fn new_destination_gets_header_and_rows() {
    let rows = vec!["r1".to_string(), "r2".to_string()];
    assert_eq!(create_csv(&rows, "h1,h2"), "h1,h2\nr1\nr2\n");
    assert_eq!(create_csv(&vec![], "h1,h2"), "h1,h2\n");
}

#[test]
fn existing_destination_gets_rows_only() {
    let rows = vec!["r1".to_string(), "r2".to_string()];
    assert_eq!(append_csv(&rows), "r1\nr2\n");
    assert_eq!(append_csv(&vec![]), "");
}

#[test]
fn delivery_creates_or_appends() {
    let rows = vec!["row".to_string()];
    let d = plan_delivery(Architecture::Bits64, false, &rows);
    assert_eq!(d.destination, "result/sample64.csv");
    assert!(d.create);
    assert_eq!(d.content, format!("{}\nrow\n", get_x64_headers()));

    let d = plan_delivery(Architecture::Bits32, false, &rows);
    assert_eq!(d.destination, "result/sample32.csv");
    assert!(d.create);
    assert_eq!(d.content, format!("{}\nrow\n", get_x32_headers()));

    let d = plan_delivery(Architecture::Bits64, true, &rows);
    assert_eq!(d.destination, "result/sample64.csv");
    assert!(!d.create);
    assert_eq!(d.content, "row\n");
}

#[test]
fn second_run_leaves_header_and_earlier_rows_as_they_were() {
    let candidates = mixed();
    let (_, first) = extract_to_csv(&candidates, false, false);
    assert!(first.create);
    let mut destination = first.content.clone();
    let (_, second) = extract_to_csv(&candidates, true, true);
    assert!(!second.create);
    destination.push_str(&second.content);
    assert!(destination.starts_with(&first.content));
    assert_eq!(destination.lines().next(), Some(get_x64_headers().as_str()));
    assert_eq!(destination.matches("file_name").count(), 1);
    assert_eq!(destination.lines().count(), 1 + 2 + 2);
}

#[test]
fn two_runs_over_different_files_add_up() {
    let first_set = vec![
        candidate("a.exe", Ok(image(0x0022, 1))),
        candidate("b.exe", Ok(image(0x0022, 2))),
        candidate("c.txt", Err(ExtractError::NotPEFormat)),
    ];
    let second_set = vec![
        candidate("d.exe", Ok(image(0x0022, 3))),
        candidate("e.exe", Ok(image(0x0122, 4))),
    ];
    let (first_32, first) = extract_to_csv(&first_set, false, false);
    let (second_32, second) = extract_to_csv(&second_set, true, true);
    let destination = format!("{}{}", first.content, second.content);
    assert_eq!(destination.lines().count() - 1, 3);
    let both: Vec<Candidate> = first_set.into_iter().chain(second_set).collect();
    let (once_32, once) = extract_to_csv(&both, false, false);
    assert_eq!(destination, once.content);
    assert_eq!(format!("{}{}", first_32.content, second_32.content), once_32.content);
}

#[test]
fn deliveries_come_32_bit_first() {
    let (x32, x64) = extract_to_csv(&mixed(), false, true);
    assert_eq!(x64.destination, "result/sample64.csv");
    assert_eq!(x32.destination, "result/sample32.csv");
    assert!(x64.create);
    assert!(!x32.create);
    assert_eq!(x32.content.lines().count(), 1);
    assert_eq!(x64.content.lines().count(), 3);
}

#[test]
fn no_files_give_two_new_tables_with_their_header_lines() {
    let (first, second) = extract_to_csv(&vec![], false, false);
    assert_eq!(
        (first.destination.clone(), second.destination.clone()),
        ("result/sample32.csv".to_owned(), "result/sample64.csv".to_owned())
    );
    assert!(first.create);
    assert!(second.create);
    assert_eq!(first.content, get_x32_headers() + "\n");
    assert_eq!(second.content, get_x64_headers() + "\n");
}

#[test]
fn columns_of_both_layouts() {
    let narrow = columns(Architecture::Bits64);
    let mut wide = columns(Architecture::Bits32);
    assert_eq!(narrow.len(), 30);
    assert_eq!(wide.len(), 31);
    assert_eq!(wide.remove(13), "base_of_data");
    assert_eq!(wide, narrow);
    assert_eq!(narrow.join(","), get_x64_headers());
}

#[test]
fn import_names_of_one_table() {
    let names = vec!["KERNEL32.dll".to_string(), "ntdll.dll".to_string()];
    assert_eq!(get_import_names(&names), "KERNEL32.dll | ntdll.dll");
    assert_eq!(get_import_names(&vec![]), "");
}
