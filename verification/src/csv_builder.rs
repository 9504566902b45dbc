//! The schema of the two tables, the routing of rows into them, and what
//! is written to a destination.

use crate::error::ExtractError;
use crate::extract::{comma, extract_csv_row, row_text};
use crate::image::{architecture_of, Architecture, ParsedImage};
use crate::text::{
    all_free_of, extend_texts, field_count, free_of, join, join_text, lemma_join_field_count,
    push_text,
};
use vstd::prelude::*;

verus! {

/// The columns that both layouts have before the place of `base_of_data`.
pub open spec fn leading_columns() -> Seq<Seq<char>> {
    seq![
        "file_name"@,
        "bit_architecture"@,
        "machine_type"@,
        "number_of_sections"@,
        "timestamp"@,
        "size_of_optional_header"@,
        "file_characteristics"@,
        "linker_version"@,
        "size_of_code"@,
        "size_of_initialized_data"@,
        "size_of_uninitialized_data"@,
        "address_of_entry_point"@,
        "base_of_code"@,
    ]
}

/// The columns that both layouts have behind the place of `base_of_data`.
pub open spec fn trailing_columns() -> Seq<Seq<char>> {
    seq![
        "image_base"@,
        "section_alignment"@,
        "file_alignment"@,
        "OS_version"@,
        "image_version"@,
        "subsystem_version"@,
        "size_of_image"@,
        "size_of_headers"@,
        "subsystem"@,
        "dll_characteristics"@,
        "size_of_stack_reserve"@,
        "size_of_stack_commit"@,
        "size_of_heap_reserve"@,
        "size_of_heap_commit"@,
        "number_of_rva_and_sizes"@,
        "import_directory"@,
        "signature_signers"@,
    ]
}

/// The column that only the 32-bit layout has.
pub open spec fn base_of_data_column() -> Seq<char> {
    "base_of_data"@
}

/// The names of the columns of a layout, in order. The 32-bit layout has
/// `base_of_data` between `base_of_code` and `image_base`; in all else the
/// two layouts are the same.
pub open spec fn column_names(arch: Architecture) -> Seq<Seq<char>> {
    match arch {
        Architecture::Bits32 => leading_columns().push(base_of_data_column()) + trailing_columns(),
        Architecture::Bits64 => leading_columns() + trailing_columns(),
    }
}

/// Number of columns of a layout.
pub open spec fn column_count(arch: Architecture) -> nat {
    match arch {
        Architecture::Bits32 => 31,
        Architecture::Bits64 => 30,
    }
}

/// The header line of a layout, without its line end.
pub open spec fn header_text(arch: Architecture) -> Seq<char> {
    join_text(column_names(arch), comma())
}

fn leading() -> (v: Vec<String>)
    ensures
        v.deep_view() == leading_columns(),
{
    let mut v: Vec<String> = Vec::new();
    assert(v.deep_view() =~= Seq::<Seq<char>>::empty());
    push_text(&mut v, "file_name".to_owned());
    push_text(&mut v, "bit_architecture".to_owned());
    push_text(&mut v, "machine_type".to_owned());
    push_text(&mut v, "number_of_sections".to_owned());
    push_text(&mut v, "timestamp".to_owned());
    push_text(&mut v, "size_of_optional_header".to_owned());
    push_text(&mut v, "file_characteristics".to_owned());
    push_text(&mut v, "linker_version".to_owned());
    push_text(&mut v, "size_of_code".to_owned());
    push_text(&mut v, "size_of_initialized_data".to_owned());
    push_text(&mut v, "size_of_uninitialized_data".to_owned());
    push_text(&mut v, "address_of_entry_point".to_owned());
    push_text(&mut v, "base_of_code".to_owned());
    v
}

fn trailing() -> (v: Vec<String>)
    ensures
        v.deep_view() == trailing_columns(),
{
    let mut v: Vec<String> = Vec::new();
    assert(v.deep_view() =~= Seq::<Seq<char>>::empty());
    push_text(&mut v, "image_base".to_owned());
    push_text(&mut v, "section_alignment".to_owned());
    push_text(&mut v, "file_alignment".to_owned());
    push_text(&mut v, "OS_version".to_owned());
    push_text(&mut v, "image_version".to_owned());
    push_text(&mut v, "subsystem_version".to_owned());
    push_text(&mut v, "size_of_image".to_owned());
    push_text(&mut v, "size_of_headers".to_owned());
    push_text(&mut v, "subsystem".to_owned());
    push_text(&mut v, "dll_characteristics".to_owned());
    push_text(&mut v, "size_of_stack_reserve".to_owned());
    push_text(&mut v, "size_of_stack_commit".to_owned());
    push_text(&mut v, "size_of_heap_reserve".to_owned());
    push_text(&mut v, "size_of_heap_commit".to_owned());
    push_text(&mut v, "number_of_rva_and_sizes".to_owned());
    push_text(&mut v, "import_directory".to_owned());
    push_text(&mut v, "signature_signers".to_owned());
    v
}

/// The names of the columns of a layout, in order.
pub fn columns(arch: Architecture) -> (v: Vec<String>)
    ensures
        v.deep_view() == column_names(arch),
        v.len() == column_count(arch),
{
    let mut v = leading();
    match arch {
        Architecture::Bits32 => {
            push_text(&mut v, "base_of_data".to_owned());
        },
        Architecture::Bits64 => {},
    }
    let rest = trailing();
    extend_texts(&mut v, &rest);
    proof {
        lemma_column_count(arch);
        assert(v.deep_view().len() == v.len());
    }
    v
}

fn header_line(arch: Architecture) -> (s: String)
    ensures
        s@ == header_text(arch),
{
    proof {
        reveal_strlit(",");
    }
    assert(","@ =~= comma());
    let names = columns(arch);
    join(&names, ",")
}

/// The header line of the table of 64-bit images.
pub fn get_x64_headers() -> (s: String)
    ensures
        s@ == header_text(Architecture::Bits64),
        field_count(s@) == 30,
{
    proof {
        lemma_header_field_count(Architecture::Bits64);
    }
    header_line(Architecture::Bits64)
}

/// The header line of the table of 32-bit images: that of the 64-bit
/// images with `base_of_data` set in behind `base_of_code`.
pub fn get_x32_headers() -> (s: String)
    ensures
        s@ == header_text(Architecture::Bits32),
        field_count(s@) == 31,
{
    proof {
        lemma_header_field_count(Architecture::Bits32);
    }
    header_line(Architecture::Bits32)
}

/// A layout has as many column names as its count says.
pub proof fn lemma_column_count(arch: Architecture)
    ensures
        column_names(arch).len() == column_count(arch),
{
}

/// The 32-bit schema is the 64-bit schema with one column set in at the
/// fourteenth place; every other column keeps its name, and its place but
/// for the shift by one behind the new column.
pub proof fn lemma_schemas_differ_by_one_column()
    ensures
        column_names(Architecture::Bits32) == column_names(Architecture::Bits64).insert(
            13,
            base_of_data_column(),
        ),
        column_names(Architecture::Bits64)[12] == "base_of_code"@,
        column_names(Architecture::Bits64)[13] == "image_base"@,
        forall|k: int|
            0 <= k < 13 ==> column_names(Architecture::Bits32)[k] == column_names(
                Architecture::Bits64,
            )[k],
        forall|k: int|
            13 <= k < 30 ==> column_names(Architecture::Bits32)[k + 1] == column_names(
                Architecture::Bits64,
            )[k],
{
    assert(column_names(Architecture::Bits32) =~= column_names(Architecture::Bits64).insert(
        13,
        base_of_data_column(),
    ));
}

/// No column name holds a comma.
pub proof fn lemma_column_names_plain(arch: Architecture)
    ensures
        all_free_of(column_names(arch), ','),
{
    reveal_strlit("file_name");
    reveal_strlit("bit_architecture");
    reveal_strlit("machine_type");
    reveal_strlit("number_of_sections");
    reveal_strlit("timestamp");
    reveal_strlit("size_of_optional_header");
    reveal_strlit("file_characteristics");
    reveal_strlit("linker_version");
    reveal_strlit("size_of_code");
    reveal_strlit("size_of_initialized_data");
    reveal_strlit("size_of_uninitialized_data");
    reveal_strlit("address_of_entry_point");
    reveal_strlit("base_of_code");
    reveal_strlit("image_base");
    reveal_strlit("section_alignment");
    reveal_strlit("file_alignment");
    reveal_strlit("OS_version");
    reveal_strlit("image_version");
    reveal_strlit("subsystem_version");
    reveal_strlit("size_of_image");
    reveal_strlit("size_of_headers");
    reveal_strlit("subsystem");
    reveal_strlit("dll_characteristics");
    reveal_strlit("size_of_stack_reserve");
    reveal_strlit("size_of_stack_commit");
    reveal_strlit("size_of_heap_reserve");
    reveal_strlit("size_of_heap_commit");
    reveal_strlit("number_of_rva_and_sizes");
    reveal_strlit("import_directory");
    reveal_strlit("signature_signers");
    reveal_strlit("base_of_data");
    assert(all_free_of(leading_columns(), ','));
    assert(all_free_of(trailing_columns(), ','));
    assert(free_of(base_of_data_column(), ','));
}

/// The header line of a layout has one field for each of its columns.
pub proof fn lemma_header_field_count(arch: Architecture)
    ensures
        field_count(header_text(arch)) == column_count(arch),
{
    lemma_column_names_plain(arch);
    lemma_column_count(arch);
    lemma_join_field_count(column_names(arch));
}

/// One candidate file: its name, and its parsed image or the reason why
/// there is none.
#[derive(Debug)]
pub struct Candidate {
    pub file_name: String,
    pub parsed: Result<ParsedImage, ExtractError>,
}

/// The rows that the candidates give to the table of one layout, in the
/// order of the candidates. A candidate without an image gives no row; one
/// with an image gives one row, to the table of its own layout.
pub open spec fn rows_for(candidates: Seq<Candidate>, arch: Architecture) -> Seq<Seq<char>>
    decreases candidates.len(),
{
    if candidates.len() == 0 {
        Seq::empty()
    } else {
        let earlier = rows_for(candidates.drop_last(), arch);
        match candidates.last().parsed {
            Ok(image) => if architecture_of(image.coff.characteristics) == arch {
                earlier.push(row_text(candidates.last().file_name@, image))
            } else {
                earlier
            },
            Err(_) => earlier,
        }
    }
}

/// The line that reports a file that was passed over.
pub open spec fn diagnostic_text(file_name: Seq<char>, error: ExtractError) -> Seq<char> {
    match error {
        ExtractError::NotPEFormat => file_name + " IS NOT NOT PE FORMAT"@,
        _ => "Error parsing "@ + file_name + ", skipping... ("@ + error.reason_text() + ")"@,
    }
}

/// The lines that report the candidates that were passed over, one for
/// each, in the order of the candidates.
pub open spec fn diagnostics_for(candidates: Seq<Candidate>) -> Seq<Seq<char>>
    decreases candidates.len(),
{
    if candidates.len() == 0 {
        Seq::empty()
    } else {
        let earlier = diagnostics_for(candidates.drop_last());
        match candidates.last().parsed {
            Ok(_) => earlier,
            Err(error) => earlier.push(diagnostic_text(candidates.last().file_name@, error)),
        }
    }
}

/// Makes the line that reports a file that was passed over.
pub fn diagnostic(file_name: &str, error: ExtractError) -> (s: String)
    ensures
        s@ == diagnostic_text(file_name@, error),
{
    match error {
        ExtractError::NotPEFormat => {
            let mut s = file_name.to_owned();
            s.append(" IS NOT NOT PE FORMAT");
            s
        },
        _ => {
            let mut s = "Error parsing ".to_owned();
            s.append(file_name);
            s.append(", skipping... (");
            s.append(error.reason());
            s.append(")");
            s
        },
    }
}

/// Makes the rows of all candidates that have an image and routes each into
/// the table of its layout: first the rows of the 64-bit images, second
/// those of the 32-bit images. A candidate without an image is passed over
/// and changes neither table.
pub fn build_csv_rows(candidates: &Vec<Candidate>) -> (r: (Vec<String>, Vec<String>))
    ensures
        r.0.deep_view() == rows_for(candidates@, Architecture::Bits64),
        r.1.deep_view() == rows_for(candidates@, Architecture::Bits32),
{
    let mut x64_rows: Vec<String> = Vec::new();
    let mut x32_rows: Vec<String> = Vec::new();
    assert(x64_rows.deep_view() =~= Seq::<Seq<char>>::empty());
    assert(x32_rows.deep_view() =~= Seq::<Seq<char>>::empty());
    let mut i: usize = 0;
    while i < candidates.len()
        invariant
            i <= candidates.len(),
            x64_rows.deep_view() == rows_for(candidates@.take(i as int), Architecture::Bits64),
            x32_rows.deep_view() == rows_for(candidates@.take(i as int), Architecture::Bits32),
        decreases candidates.len() - i,
    {
        proof {
            assert(candidates@.take(i + 1).drop_last() =~= candidates@.take(i as int));
            assert(candidates@.take(i + 1).last() == candidates[i as int]);
        }
        let candidate = &candidates[i];
        match &candidate.parsed {
            Ok(image) => {
                let (row, is_x64) = extract_csv_row(candidate.file_name.as_str(), image);
                if is_x64 {
                    push_text(&mut x64_rows, row);
                } else {
                    push_text(&mut x32_rows, row);
                }
            },
            Err(_) => {},
        }
        i += 1;
    }
    assert(candidates@.take(i as int) =~= candidates@);
    (x64_rows, x32_rows)
}

/// Makes the lines that report the candidates that were passed over.
pub fn diagnostics(candidates: &Vec<Candidate>) -> (lines: Vec<String>)
    ensures
        lines.deep_view() == diagnostics_for(candidates@),
{
    let mut lines: Vec<String> = Vec::new();
    assert(lines.deep_view() =~= Seq::<Seq<char>>::empty());
    let mut i: usize = 0;
    while i < candidates.len()
        invariant
            i <= candidates.len(),
            lines.deep_view() == diagnostics_for(candidates@.take(i as int)),
        decreases candidates.len() - i,
    {
        proof {
            assert(candidates@.take(i + 1).drop_last() =~= candidates@.take(i as int));
            assert(candidates@.take(i + 1).last() == candidates[i as int]);
        }
        let candidate = &candidates[i];
        match &candidate.parsed {
            Ok(_) => {},
            Err(error) => {
                push_text(&mut lines, diagnostic(candidate.file_name.as_str(), *error));
            },
        }
        i += 1;
    }
    assert(candidates@.take(i as int) =~= candidates@);
    lines
}

/// The end of a line.
pub open spec fn line_end() -> Seq<char> {
    seq!['\n']
}

/// The rows as lines, each one ended.
pub open spec fn lines_text(rows: Seq<Seq<char>>) -> Seq<char>
    decreases rows.len(),
{
    if rows.len() == 0 {
        Seq::empty()
    } else {
        lines_text(rows.drop_last()) + rows.last() + line_end()
    }
}

/// What a new destination holds: the header line, then the rows.
pub open spec fn created_text(header: Seq<char>, rows: Seq<Seq<char>>) -> Seq<char> {
    header + line_end() + lines_text(rows)
}

/// What a destination holds after a run: where there was none before, the
/// header line and the rows; where there was one, what it held, then the
/// rows. What it held is not looked at.
pub open spec fn destination_after(
    before: Option<Seq<char>>,
    header: Seq<char>,
    rows: Seq<Seq<char>>,
) -> Seq<char> {
    match before {
        None => created_text(header, rows),
        Some(held) => held + lines_text(rows),
    }
}

/// The name of the table of a layout.
pub open spec fn destination_text(arch: Architecture) -> Seq<char> {
    match arch {
        Architecture::Bits32 => "result/sample32.csv"@,
        Architecture::Bits64 => "result/sample64.csv"@,
    }
}

/// The text to append to a destination that exists: the rows as lines, and
/// no header.
pub fn append_csv(data: &Vec<String>) -> (s: String)
    ensures
        s@ == lines_text(data.deep_view()),
{
    proof {
        reveal_strlit("\n");
    }
    assert("\n"@ =~= line_end());
    let mut s = String::new();
    let mut i: usize = 0;
    while i < data.len()
        invariant
            i <= data.len(),
            "\n"@ == line_end(),
            s@ == lines_text(data.deep_view().take(i as int)),
        decreases data.len() - i,
    {
        proof {
            let all = data.deep_view();
            assert(all.take(i + 1).drop_last() =~= all.take(i as int));
            assert(all.take(i + 1).last() == data[i as int]@);
        }
        s.append(data[i].as_str());
        s.append("\n");
        i += 1;
    }
    assert(data.deep_view().take(i as int) =~= data.deep_view());
    s
}

/// The text of a new destination: the header line, then the rows as lines.
pub fn create_csv(data: &Vec<String>, header: &str) -> (s: String)
    ensures
        s@ == created_text(header@, data.deep_view()),
{
    proof {
        reveal_strlit("\n");
    }
    assert("\n"@ =~= line_end());
    let mut s = header.to_owned();
    s.append("\n");
    let lines = append_csv(data);
    s.append(lines.as_str());
    s
}

/// What is to be done to one destination: which it is, whether it is to be
/// created or appended to, and the text to write.
#[derive(Debug)]
pub struct Delivery {
    pub destination: String,
    pub create: bool,
    pub content: String,
}

/// Plans the writing of the rows of one layout to its table. A destination
/// that does not exist is created with the header line and the rows; one
/// that exists gets the rows appended and is left as it is otherwise.
pub fn plan_delivery(arch: Architecture, exists: bool, rows: &Vec<String>) -> (d: Delivery)
    ensures
        d.destination@ == destination_text(arch),
        d.create == !exists,
        exists ==> d.content@ == lines_text(rows.deep_view()),
        !exists ==> d.content@ == created_text(header_text(arch), rows.deep_view()),
{
    let destination = match arch {
        Architecture::Bits32 => "result/sample32.csv".to_owned(),
        Architecture::Bits64 => "result/sample64.csv".to_owned(),
    };
    if exists {
        Delivery { destination, create: false, content: append_csv(rows) }
    } else {
        let header = header_line(arch);
        Delivery { destination, create: true, content: create_csv(rows, header.as_str()) }
    }
}

/// Makes the rows of the candidates and plans their writing: first the
/// table of the 32-bit images, second that of the 64-bit images. Whether a
/// destination exists is for the caller to find out.
pub fn extract_to_csv(candidates: &Vec<Candidate>, x64_exists: bool, x32_exists: bool) -> (r: (
    Delivery,
    Delivery,
))
    ensures
        r.0.destination@ == destination_text(Architecture::Bits32),
        r.1.destination@ == destination_text(Architecture::Bits64),
        r.0.create == !x32_exists,
        r.1.create == !x64_exists,
        x32_exists ==> r.0.content@ == lines_text(rows_for(candidates@, Architecture::Bits32)),
        !x32_exists ==> r.0.content@ == created_text(
            header_text(Architecture::Bits32),
            rows_for(candidates@, Architecture::Bits32),
        ),
        x64_exists ==> r.1.content@ == lines_text(rows_for(candidates@, Architecture::Bits64)),
        !x64_exists ==> r.1.content@ == created_text(
            header_text(Architecture::Bits64),
            rows_for(candidates@, Architecture::Bits64),
        ),
{
    let (x64_rows, x32_rows) = build_csv_rows(candidates);
    let x64 = plan_delivery(Architecture::Bits64, x64_exists, &x64_rows);
    let x32 = plan_delivery(Architecture::Bits32, x32_exists, &x32_rows);
    (x32, x64)
}

/// Lines of two lists of rows, one list after the other, are the lines of
/// the first list and then those of the second.
pub proof fn lemma_lines_concat(first: Seq<Seq<char>>, second: Seq<Seq<char>>)
    ensures
        lines_text(first + second) == lines_text(first) + lines_text(second),
    decreases second.len(),
{
    if second.len() == 0 {
        assert(first + second =~= first);
        assert(lines_text(first) + lines_text(second) =~= lines_text(first));
    } else {
        assert((first + second).drop_last() =~= first + second.drop_last());
        assert((first + second).last() == second.last());
        lemma_lines_concat(first, second.drop_last());
        assert(lines_text(first + second) =~= lines_text(first) + lines_text(second));
    }
}

/// A run on a destination that exists alters nothing of what it held: the
/// header line and the rows written before stay as they were, at the start
/// of the destination, and the new rows stand behind them.
pub proof fn lemma_append_keeps_what_was_written(
    held: Seq<char>,
    header: Seq<char>,
    rows: Seq<Seq<char>>,
)
    ensures
        destination_after(Some(held), header, rows).len() >= held.len(),
        destination_after(Some(held), header, rows).subrange(0, held.len() as int) == held,
        destination_after(Some(held), header, rows).subrange(
            held.len() as int,
            destination_after(Some(held), header, rows).len() as int,
        ) == lines_text(rows),
{
    let after = destination_after(Some(held), header, rows);
    assert(after.subrange(0, held.len() as int) =~= held);
    assert(after.subrange(held.len() as int, after.len() as int) =~= lines_text(rows));
}

/// Two runs on one destination, the first of which creates it, leave what
/// one run with the rows of both would have left: the header line once,
/// then the rows of the first run, then those of the second.
pub proof fn lemma_two_runs(header: Seq<char>, first: Seq<Seq<char>>, second: Seq<Seq<char>>)
    ensures
        destination_after(Some(destination_after(None, header, first)), header, second)
            == destination_after(None, header, first + second),
{
    lemma_lines_concat(first, second);
    assert(header + line_end() + lines_text(first) + lines_text(second) =~= header + line_end() + (
    lines_text(first) + lines_text(second)));
}

/// Running the same rows again appends them again and leaves the earlier
/// text in place.
pub proof fn lemma_rerun_appends(header: Seq<char>, rows: Seq<Seq<char>>)
    ensures
        destination_after(Some(destination_after(None, header, rows)), header, rows)
            == destination_after(None, header, rows + rows),
{
    lemma_two_runs(header, rows, rows);
}

/// A candidate without an image adds no row to either table.
pub proof fn lemma_skipped_file_adds_no_row(
    candidates: Seq<Candidate>,
    skipped: Candidate,
    arch: Architecture,
)
    requires
        skipped.parsed is Err,
    ensures
        rows_for(candidates.push(skipped), arch) == rows_for(candidates, arch),
{
    assert(candidates.push(skipped).drop_last() =~= candidates);
}

/// How many of the candidates have an image.
pub open spec fn parsed_count(candidates: Seq<Candidate>) -> nat
    decreases candidates.len(),
{
    if candidates.len() == 0 {
        0
    } else {
        parsed_count(candidates.drop_last()) + if candidates.last().parsed is Ok {
            1nat
        } else {
            0nat
        }
    }
}

/// Every candidate with an image gives exactly one row, to one of the two
/// tables: the rows of both tables together are as many as the candidates
/// that have an image.
pub proof fn lemma_one_row_per_parsed_file(candidates: Seq<Candidate>)
    ensures
        rows_for(candidates, Architecture::Bits64).len() + rows_for(
            candidates,
            Architecture::Bits32,
        ).len() == parsed_count(candidates),
    decreases candidates.len(),
{
    if candidates.len() > 0 {
        lemma_one_row_per_parsed_file(candidates.drop_last());
    }
}

/// The rows of two lists of candidates, one after the other, are the rows of
/// the first and then those of the second.
pub proof fn lemma_rows_concat(first: Seq<Candidate>, second: Seq<Candidate>, arch: Architecture)
    ensures
        rows_for(first + second, arch) == rows_for(first, arch) + rows_for(second, arch),
    decreases second.len(),
{
    if second.len() == 0 {
        assert(first + second =~= first);
        assert(rows_for(first, arch) + rows_for(second, arch) =~= rows_for(first, arch));
    } else {
        assert((first + second).drop_last() =~= first + second.drop_last());
        assert((first + second).last() == second.last());
        lemma_rows_concat(first, second.drop_last(), arch);
        assert(rows_for(first + second, arch) =~= rows_for(first, arch) + rows_for(second, arch));
    }
}

} // verus!
