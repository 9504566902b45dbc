//! Rows laid out for reading: one line for each column, the name of the
//! column before what the row holds there.

use crate::csv_builder::{
    build_csv_rows, column_count, get_x32_headers, get_x64_headers, header_text,
    lemma_header_field_count, rows_for, Candidate,
};
use crate::extract::{comma, feature_values, row_text};
use crate::image::{architecture_of, Architecture};
use crate::row_laws::lemma_optional_values_plain;
use crate::stamp::timestamp_field;
use crate::text::{
    extend_texts, field_count, join_text, lemma_join_field_count_at_least, no_texts, push_text,
    split_fields, split_text,
};
use vstd::prelude::*;

verus! {

/// What stands between the name of a column and its value.
pub open spec fn pair_sep() -> Seq<char> {
    seq![':', ' ']
}

/// One row laid out for reading: for each field of the header line its
/// name, a colon and a space, and the field of the row at the same place;
/// then an empty line. Fields of the row beyond those of the header are not
/// shown.
pub open spec fn inspect_block(header: Seq<char>, data: Seq<char>) -> Seq<Seq<char>> {
    Seq::new(
        split_text(header, ',').len(),
        |i: int| split_text(header, ',')[i] + pair_sep() + split_text(data, ',')[i],
    ).push(Seq::empty())
}

/// Rows laid out for reading, one block after the other.
pub open spec fn inspect_blocks(header: Seq<char>, rows: Seq<Seq<char>>) -> Seq<Seq<char>>
    decreases rows.len(),
{
    if rows.len() == 0 {
        Seq::empty()
    } else {
        inspect_blocks(header, rows.drop_last()) + inspect_block(header, rows.last())
    }
}

/// Lays one row out for reading. The row must have a field for every field
/// of the header line.
pub fn inspect_row(header: &str, data: &str) -> (lines: Vec<String>)
    requires
        field_count(data@) >= field_count(header@),
    ensures
        lines.deep_view() == inspect_block(header@, data@),
{
    proof {
        reveal_strlit(": ");
    }
    assert(": "@ =~= pair_sep());
    let names = split_fields(header);
    let values = split_fields(data);
    let mut lines = no_texts();
    let mut i: usize = 0;
    while i < names.len()
        invariant
            i <= names.len(),
            names.len() <= values.len(),
            ": "@ == pair_sep(),
            names.deep_view() == split_text(header@, ','),
            values.deep_view() == split_text(data@, ','),
            lines.deep_view() == Seq::new(
                i as nat,
                |k: int| split_text(header@, ',')[k] + pair_sep() + split_text(data@, ',')[k],
            ),
        decreases names.len() - i,
    {
        let mut line = names[i].clone();
        line.append(": ");
        line.append(values[i].as_str());
        assert(names.deep_view()[i as int] == names[i as int]@);
        assert(values.deep_view()[i as int] == values[i as int]@);
        push_text(&mut lines, line);
        assert(lines.deep_view() =~= Seq::new(
            (i + 1) as nat,
            |k: int| split_text(header@, ',')[k] + pair_sep() + split_text(data@, ',')[k],
        ));
        i += 1;
    }
    assert(names.deep_view().len() == names.len());
    push_text(&mut lines, String::new());
    lines
}

/// Lays rows out for reading, one block after the other. Every row must
/// have a field for every field of the header line.
pub fn inspect_rows(header: &str, rows: &Vec<String>) -> (lines: Vec<String>)
    requires
        forall|k: int|
            0 <= k < rows.len() ==> field_count(#[trigger] rows[k]@) >= field_count(header@),
    ensures
        lines.deep_view() == inspect_blocks(header@, rows.deep_view()),
{
    let mut lines = no_texts();
    let mut i: usize = 0;
    while i < rows.len()
        invariant
            i <= rows.len(),
            forall|k: int|
                0 <= k < rows.len() ==> field_count(#[trigger] rows[k]@) >= field_count(header@),
            lines.deep_view() == inspect_blocks(header@, rows.deep_view().take(i as int)),
        decreases rows.len() - i,
    {
        proof {
            let all = rows.deep_view();
            assert(all.take(i + 1).drop_last() =~= all.take(i as int));
            assert(all.take(i + 1).last() == rows[i as int]@);
        }
        let block = inspect_row(header, rows[i].as_str());
        extend_texts(&mut lines, &block);
        i += 1;
    }
    assert(rows.deep_view().take(i as int) =~= rows.deep_view());
    lines
}

/// What the inspection of candidates shows: the rows of the 64-bit images
/// under the names of their columns, then those of the 32-bit images.
pub open spec fn inspect_text(candidates: Seq<Candidate>) -> Seq<Seq<char>> {
    inspect_blocks(
        header_text(Architecture::Bits64),
        rows_for(candidates, Architecture::Bits64),
    ) + inspect_blocks(
        header_text(Architecture::Bits32),
        rows_for(candidates, Architecture::Bits32),
    )
}

/// Makes the rows of the candidates and lays them out for reading, each
/// value under the name of its column. Every row has a field for every
/// column, so no name is left without a value.
pub fn inspect(candidates: &Vec<Candidate>) -> (lines: Vec<String>)
    ensures
        lines.deep_view() == inspect_text(candidates@),
{
    let x64_head = get_x64_headers();
    let x32_head = get_x32_headers();
    let (x64_rows, x32_rows) = build_csv_rows(candidates);
    proof {
        lemma_rows_fill_their_columns(candidates@, Architecture::Bits64);
        lemma_rows_fill_their_columns(candidates@, Architecture::Bits32);
        lemma_header_field_count(Architecture::Bits64);
        lemma_header_field_count(Architecture::Bits32);
        assert forall|k: int| 0 <= k < x64_rows.len() implies field_count(
            #[trigger] x64_rows[k]@,
        ) >= field_count(x64_head@) by {
            assert(x64_rows.deep_view()[k] == x64_rows[k]@);
        }
        assert forall|k: int| 0 <= k < x32_rows.len() implies field_count(
            #[trigger] x32_rows[k]@,
        ) >= field_count(x32_head@) by {
            assert(x32_rows.deep_view()[k] == x32_rows[k]@);
        }
    }
    let mut lines = inspect_rows(x64_head.as_str(), &x64_rows);
    let more = inspect_rows(x32_head.as_str(), &x32_rows);
    extend_texts(&mut lines, &more);
    lines
}

/// Every row of a table has at least one field for each column of the
/// table, whatever the names and issuers of its image hold.
pub proof fn lemma_rows_fill_their_columns(candidates: Seq<Candidate>, arch: Architecture)
    ensures
        forall|k: int|
            0 <= k < rows_for(candidates, arch).len() ==> field_count(
                #[trigger] rows_for(candidates, arch)[k],
            ) >= column_count(arch),
    decreases candidates.len(),
{
    if candidates.len() > 0 {
        let earlier = rows_for(candidates.drop_last(), arch);
        let rows = rows_for(candidates, arch);
        lemma_rows_fill_their_columns(candidates.drop_last(), arch);
        let last = candidates.last();
        match last.parsed {
            Ok(image) => {
                let values = feature_values(
                    last.file_name@,
                    image,
                    timestamp_field(image.coff.time_date_stamp),
                );
                lemma_optional_values_plain(
                    image.optional,
                    architecture_of(image.coff.characteristics),
                );
                lemma_join_field_count_at_least(values);
                assert(row_text(last.file_name@, image) == join_text(values, comma()));
                if architecture_of(image.coff.characteristics) == arch {
                    assert(rows == earlier.push(row_text(last.file_name@, image)));
                    assert(values.len() == column_count(arch));
                } else {
                    assert(rows == earlier);
                }
            },
            Err(_) => {
                assert(rows == earlier);
            },
        }
        assert forall|k: int| 0 <= k < rows.len() implies field_count(#[trigger] rows[k])
            >= column_count(arch) by {
            if k < earlier.len() {
                assert(rows[k] == earlier[k]);
            }
        }
    }
}

} // verus!
