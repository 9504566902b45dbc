//! From one parsed image to one feature row.

use crate::csv_builder::column_count;
use crate::image::{architecture_of, Architecture, OptionalHeader, ParsedImage};
use crate::row_laws::{lemma_optional_values_plain, lemma_row_field_count, plain_input};
use crate::machine::{machine_field, machine_name};
use crate::stamp::{timestamp, timestamp_field};
use crate::text::{
    all_free_of, chain, chain_text, decimal, decimal_text, dotted, dotted_text, extend_texts,
    field_count, fixed_hex, fixed_hex_text, join, join_text, lemma_join_field_count,
    lemma_join_field_count_at_least, no_texts, push_text, replace_char, replace_commas,
};
use crate::vocab::{
    flag_text, pipe_sep, render_flags, subsystem_field, subsystem_name, Vocabulary,
    NEED_32BIT_MACHINE,
};
use vstd::prelude::*;

verus! {

/// The separator between the fields of a row.
pub open spec fn comma() -> Seq<char> {
    seq![',']
}

/// The separator between the issuers of two signers.
pub open spec fn signer_sep() -> Seq<char> {
    seq![' ', '\\', '/', ' ']
}

/// What the signature column shows for an image without signatures.
pub open spec fn no_signature_text() -> Seq<char> {
    "NO SIGNATURE DETECTED"@
}

/// Number of hexadecimal digits at which a row shows a 32-bit address.
pub const ADDRESS_DIGITS: u32 = 8;

/// Number of hexadecimal digits at which a row shows the image base.
pub const IMAGE_BASE_DIGITS: u32 = 16;

/// What a row shows for a 32-bit address: `0x` and eight capital
/// hexadecimal digits, so the column has one width in every row.
pub open spec fn address_text(address: u32) -> Seq<char> {
    fixed_hex_text(address as nat, ADDRESS_DIGITS as nat)
}

/// What a row shows for the image base: `0x` and sixteen capital
/// hexadecimal digits, so the column has one width in every row.
pub open spec fn image_base_text(base: u64) -> Seq<char> {
    fixed_hex_text(base as nat, IMAGE_BASE_DIGITS as nat)
}

/// Renders a 32-bit address at its fixed width.
pub fn address_hex(address: u32) -> (s: String)
    ensures
        s@ == address_text(address),
        s@.len() == 10,
{
    fixed_hex(address as u64, ADDRESS_DIGITS)
}

/// Renders the image base at its fixed width.
pub fn image_base_hex(base: u64) -> (s: String)
    ensures
        s@ == image_base_text(base),
        s@.len() == 18,
{
    fixed_hex(base, IMAGE_BASE_DIGITS)
}

/// The values of the optional header that stand before `base_of_data`.
pub open spec fn optional_front(opt: OptionalHeader) -> Seq<Seq<char>> {
    seq![
        dotted_text(
            opt.standard.major_linker_version as nat,
            opt.standard.minor_linker_version as nat,
        ),
        decimal_text(opt.standard.size_of_code as nat),
        decimal_text(opt.standard.size_of_initialized_data as nat),
        decimal_text(opt.standard.size_of_uninitialized_data as nat),
        address_text(opt.standard.address_of_entry_point),
        address_text(opt.standard.base_of_code),
    ]
}

/// The one value in which the layouts differ: `base_of_data`, which only
/// the 32-bit layout has.
pub open spec fn optional_middle(opt: OptionalHeader, arch: Architecture) -> Seq<Seq<char>> {
    match arch {
        Architecture::Bits32 => seq![address_text(opt.standard.base_of_data)],
        Architecture::Bits64 => Seq::empty(),
    }
}

/// The values of the optional header that stand behind `base_of_data`.
pub open spec fn optional_back(opt: OptionalHeader) -> Seq<Seq<char>> {
    seq![
        image_base_text(opt.windows.image_base),
        decimal_text(opt.windows.section_alignment as nat),
        decimal_text(opt.windows.file_alignment as nat),
        dotted_text(
            opt.windows.major_operating_system_version as nat,
            opt.windows.minor_operating_system_version as nat,
        ),
        dotted_text(opt.windows.major_image_version as nat, opt.windows.minor_image_version as nat),
        dotted_text(
            opt.windows.major_subsystem_version as nat,
            opt.windows.minor_subsystem_version as nat,
        ),
        decimal_text(opt.windows.size_of_image as nat),
        decimal_text(opt.windows.size_of_headers as nat),
        subsystem_field(opt.windows.subsystem),
        flag_text(Vocabulary::DllCharacteristics, opt.windows.dll_characteristics),
        decimal_text(opt.windows.size_of_stack_reserve as nat),
        decimal_text(opt.windows.size_of_stack_commit as nat),
        decimal_text(opt.windows.size_of_heap_reserve as nat),
        decimal_text(opt.windows.size_of_heap_commit as nat),
        decimal_text(opt.windows.number_of_rva_and_sizes as nat),
    ]
}

/// The values that the optional header gives to a row, in column order. The
/// 32-bit layout has `base_of_data` behind `base_of_code`; the 64-bit layout
/// has no such column. Nothing else differs between the two.
pub open spec fn optional_values(opt: OptionalHeader, arch: Architecture) -> Seq<Seq<char>> {
    optional_front(opt) + optional_middle(opt, arch) + optional_back(opt)
}

pub(crate) fn front_values(opt: &OptionalHeader) -> (v: Vec<String>)
    ensures
        v.deep_view() == optional_front(*opt),
{
    let mut v = no_texts();
    push_text(
        &mut v,
        dotted(opt.standard.major_linker_version as u64, opt.standard.minor_linker_version as u64),
    );
    push_text(&mut v, decimal(opt.standard.size_of_code as u64));
    push_text(&mut v, decimal(opt.standard.size_of_initialized_data as u64));
    push_text(&mut v, decimal(opt.standard.size_of_uninitialized_data as u64));
    push_text(&mut v, address_hex(opt.standard.address_of_entry_point));
    push_text(&mut v, address_hex(opt.standard.base_of_code));
    v
}

pub(crate) fn middle_values(opt: &OptionalHeader, arch: Architecture) -> (v: Vec<String>)
    ensures
        v.deep_view() == optional_middle(*opt, arch),
{
    let mut v = no_texts();
    match arch {
        Architecture::Bits32 => {
            push_text(&mut v, address_hex(opt.standard.base_of_data));
        },
        Architecture::Bits64 => {},
    }
    v
}

fn back_values(opt: &OptionalHeader) -> (v: Vec<String>)
    ensures
        v.deep_view() == optional_back(*opt),
{
    let mut v = no_texts();
    push_text(&mut v, image_base_hex(opt.windows.image_base));
    push_text(&mut v, decimal(opt.windows.section_alignment as u64));
    push_text(&mut v, decimal(opt.windows.file_alignment as u64));
    push_text(
        &mut v,
        dotted(
            opt.windows.major_operating_system_version as u64,
            opt.windows.minor_operating_system_version as u64,
        ),
    );
    push_text(
        &mut v,
        dotted(opt.windows.major_image_version as u64, opt.windows.minor_image_version as u64),
    );
    push_text(
        &mut v,
        dotted(
            opt.windows.major_subsystem_version as u64,
            opt.windows.minor_subsystem_version as u64,
        ),
    );
    push_text(&mut v, decimal(opt.windows.size_of_image as u64));
    push_text(&mut v, decimal(opt.windows.size_of_headers as u64));
    push_text(&mut v, subsystem_name(opt.windows.subsystem));
    push_text(
        &mut v,
        render_flags(Vocabulary::DllCharacteristics, opt.windows.dll_characteristics),
    );
    push_text(&mut v, decimal(opt.windows.size_of_stack_reserve));
    push_text(&mut v, decimal(opt.windows.size_of_stack_commit));
    push_text(&mut v, decimal(opt.windows.size_of_heap_reserve));
    push_text(&mut v, decimal(opt.windows.size_of_heap_commit));
    push_text(&mut v, decimal(opt.windows.number_of_rva_and_sizes as u64));
    v
}

/// The values that the optional header gives to a row, in column order.
pub fn optional_header_values(opt: &OptionalHeader, arch: Architecture) -> (v: Vec<String>)
    ensures
        v.deep_view() == optional_values(*opt, arch),
{
    let mut v = front_values(opt);
    let middle = middle_values(opt, arch);
    let back = back_values(opt);
    extend_texts(&mut v, &middle);
    extend_texts(&mut v, &back);
    v
}

/// The part of a row that the optional header fills: its values in column
/// order with commas between them.
pub fn extract_opt_header(opt_header: &OptionalHeader, is_x64: bool) -> (s: String)
    ensures
        s@ == join_text(
            optional_values(
                *opt_header,
                if is_x64 {
                    Architecture::Bits64
                } else {
                    Architecture::Bits32
                },
            ),
            comma(),
        ),
{
    proof {
        reveal_strlit(",");
    }
    assert(","@ =~= comma());
    let arch = if is_x64 {
        Architecture::Bits64
    } else {
        Architecture::Bits32
    };
    let values = optional_header_values(opt_header, arch);
    join(&values, ",")
}

/// The module names of the import table and then of the delay-import table,
/// in table order, with `" | "` between them.
pub open spec fn import_text(imports: Seq<Seq<char>>, delay_imports: Seq<Seq<char>>) -> Seq<char> {
    chain_text(imports + delay_imports, pipe_sep())
}

/// Walks the import table and the delay-import table and renders the module
/// names as one text. Tables without entries give the empty text.
pub fn import_names(imports: &Vec<String>, delay_imports: &Vec<String>) -> (s: String)
    ensures
        s@ == import_text(imports.deep_view(), delay_imports.deep_view()),
{
    proof {
        reveal_strlit(" | ");
    }
    assert(" | "@ =~= pipe_sep());
    let mut names = no_texts();
    extend_texts(&mut names, imports);
    extend_texts(&mut names, delay_imports);
    assert(names.deep_view() =~= imports.deep_view() + delay_imports.deep_view());
    chain(&names, " | ")
}

/// The issuers of the signers of one signature, every comma turned into a
/// vertical bar so that an issuer stays within one field of a row.
pub open spec fn masked_issuers(signers: Seq<Seq<char>>) -> Seq<Seq<char>> {
    Seq::new(signers.len(), |k: int| replace_char(signers[k], ',', '|'))
}

/// The masked issuers of all signers, signature after signature.
pub open spec fn issuer_parts(signatures: Seq<Seq<Seq<char>>>) -> Seq<Seq<char>>
    decreases signatures.len(),
{
    if signatures.len() == 0 {
        Seq::empty()
    } else {
        issuer_parts(signatures.drop_last()) + masked_issuers(signatures.last())
    }
}

/// What the signature column shows: the fixed text for an image without
/// signatures, else the masked issuers of all signers with `" \/ "`
/// between them.
pub open spec fn signer_text(signatures: Seq<Seq<Seq<char>>>) -> Seq<char> {
    if signatures.len() == 0 {
        no_signature_text()
    } else {
        chain_text(issuer_parts(signatures), signer_sep())
    }
}

fn masked(signers: &Vec<String>) -> (v: Vec<String>)
    ensures
        v.deep_view() == masked_issuers(signers.deep_view()),
{
    let mut v = no_texts();
    let mut j: usize = 0;
    while j < signers.len()
        invariant
            j <= signers.len(),
            v.deep_view() == masked_issuers(signers.deep_view().take(j as int)),
        decreases signers.len() - j,
    {
        push_text(&mut v, replace_commas(signers[j].as_str()));
        assert(v.deep_view() =~= masked_issuers(signers.deep_view().take(j + 1)));
        j += 1;
    }
    assert(signers.deep_view().take(j as int) =~= signers.deep_view());
    v
}

/// Walks the certificate table and renders the issuers of all signers as
/// one text. An image without signatures gives `NO SIGNATURE DETECTED`.
pub fn signature_signers(signatures: &Vec<Vec<String>>) -> (s: String)
    ensures
        s@ == signer_text(signatures.deep_view()),
{
    if signatures.len() == 0 {
        return "NO SIGNATURE DETECTED".to_owned();
    }
    proof {
        reveal_strlit(" \\/ ");
    }
    assert(" \\/ "@ =~= signer_sep());
    let mut parts = no_texts();
    let mut i: usize = 0;
    while i < signatures.len()
        invariant
            i <= signatures.len(),
            parts.deep_view() == issuer_parts(signatures.deep_view().take(i as int)),
        decreases signatures.len() - i,
    {
        let ghost all = signatures.deep_view();
        let issuers = masked(&signatures[i]);
        extend_texts(&mut parts, &issuers);
        proof {
            assert(all.take(i + 1).drop_last() =~= all.take(i as int));
            assert(all.take(i + 1).last() == signatures[i as int].deep_view());
        }
        i += 1;
    }
    assert(signatures.deep_view().take(i as int) =~= signatures.deep_view());
    chain(&parts, " \\/ ")
}

/// The characteristics of a file header without the flag for a 32-bit
/// machine: that flag decides the layout and is shown by the layout's tag.
pub open spec fn shown_characteristics(characteristics: u16) -> u16 {
    characteristics & !NEED_32BIT_MACHINE
}

/// The values that stand before those of the optional header: the name of
/// the file, the layout's tag and what the file header gives.
pub open spec fn head_values(file_name: Seq<char>, image: ParsedImage, stamp: Seq<char>) -> Seq<
    Seq<char>,
> {
    seq![
        file_name,
        architecture_of(image.coff.characteristics).tag_text(),
        machine_field(image.coff.machine),
        decimal_text(image.coff.number_of_sections as nat),
        stamp,
        decimal_text(image.coff.size_of_optional_header as nat),
        flag_text(
            Vocabulary::FileCharacteristics,
            shown_characteristics(image.coff.characteristics),
        ),
    ]
}

/// The values that stand behind those of the optional header: the imports
/// and the signers.
pub open spec fn tail_values(image: ParsedImage) -> Seq<Seq<char>> {
    seq![
        import_text(image.imports.deep_view(), image.delay_imports.deep_view()),
        signer_text(image.signatures.deep_view()),
    ]
}

/// All values of the row of one image, in column order. `stamp` is what the
/// row shows for the time stamp of the file header.
pub open spec fn feature_values(file_name: Seq<char>, image: ParsedImage, stamp: Seq<char>) -> Seq<
    Seq<char>,
> {
    head_values(file_name, image, stamp) + optional_values(
        image.optional,
        architecture_of(image.coff.characteristics),
    ) + tail_values(image)
}

/// The row of one image as a line: its values with commas between them.
pub open spec fn row_text(file_name: Seq<char>, image: ParsedImage) -> Seq<char> {
    join_text(
        feature_values(file_name, image, timestamp_field(image.coff.time_date_stamp)),
        comma(),
    )
}

/// One row: the layout it belongs to and its values in column order.
#[derive(Debug)]
pub struct FeatureRow {
    pub arch: Architecture,
    pub values: Vec<String>,
}

impl FeatureRow {
    /// The values of the row in column order.
    pub open spec fn view(&self) -> Seq<Seq<char>> {
        self.values.deep_view()
    }

    /// A row is well formed when it has one value for each column of its
    /// layout.
    pub open spec fn well_formed(&self) -> bool {
        self@.len() == column_count(self.arch)
    }

    /// The row as a line: its values with commas between them, without a
    /// line end. The line of a well-formed row has at least one field for
    /// each column, and exactly one where no value holds a comma.
    pub fn line(&self) -> (s: String)
        ensures
            s@ == join_text(self@, comma()),
            self.well_formed() ==> field_count(s@) >= column_count(self.arch),
            self.well_formed() && all_free_of(self@, ',') ==> field_count(s@) == column_count(
                self.arch,
            ),
    {
        proof {
            reveal_strlit(",");
            if self.well_formed() {
                lemma_join_field_count_at_least(self@);
                if all_free_of(self@, ',') {
                    lemma_join_field_count(self@);
                }
            }
        }
        assert(","@ =~= comma());
        join(&self.values, ",")
    }
}

fn head(file_name: &str, image: &ParsedImage, stamp: &str) -> (v: Vec<String>)
    ensures
        v.deep_view() == head_values(file_name@, *image, stamp@),
{
    let coff = &image.coff;
    let mut v = no_texts();
    push_text(&mut v, file_name.to_owned());
    push_text(&mut v, coff.architecture().tag().to_owned());
    push_text(&mut v, machine_name(coff.machine));
    push_text(&mut v, decimal(coff.number_of_sections as u64));
    push_text(&mut v, stamp.to_owned());
    push_text(&mut v, decimal(coff.size_of_optional_header as u64));
    push_text(
        &mut v,
        render_flags(Vocabulary::FileCharacteristics, coff.characteristics & !NEED_32BIT_MACHINE),
    );
    v
}

fn tail(image: &ParsedImage) -> (v: Vec<String>)
    ensures
        v.deep_view() == tail_values(*image),
{
    let mut v = no_texts();
    push_text(&mut v, import_names(&image.imports, &image.delay_imports));
    push_text(&mut v, signature_signers(&image.signatures));
    v
}

/// Puts the values of one image into column order. This is the one place
/// that decides the order of the columns. `stamp` is the text to show for
/// the time stamp of the file header.
pub fn assemble_row(file_name: &str, image: &ParsedImage, stamp: &str) -> (row: FeatureRow)
    ensures
        row.arch == architecture_of(image.coff.characteristics),
        row@ == feature_values(file_name@, *image, stamp@),
        row.well_formed(),
{
    proof {
        lemma_optional_values_plain(image.optional, architecture_of(image.coff.characteristics));
    }
    let arch = image.coff.architecture();
    let mut values = head(file_name, image, stamp);
    let optional = optional_header_values(&image.optional, arch);
    let last = tail(image);
    extend_texts(&mut values, &optional);
    extend_texts(&mut values, &last);
    FeatureRow { arch, values }
}

/// Makes the row of one image as a line, and tells whether it belongs to
/// the 64-bit layout.
pub fn extract_csv_row(file_name: &str, image: &ParsedImage) -> (r: (String, bool))
    ensures
        r.0@ == row_text(file_name@, *image),
        r.1 == (architecture_of(image.coff.characteristics) == Architecture::Bits64),
        plain_input(file_name@, *image) ==> field_count(r.0@) == column_count(
            architecture_of(image.coff.characteristics),
        ),
{
    let stamp = timestamp(image.coff.time_date_stamp);
    let row = assemble_row(file_name, image, stamp.as_str());
    proof {
        if plain_input(file_name@, *image) {
            lemma_row_field_count(file_name@, *image, stamp@);
        }
    }
    (row.line(), row.arch.is_x64())
}

} // verus!
