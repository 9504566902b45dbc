//! What holds of every row: it has one field for each column of its layout.

use crate::csv_builder::column_count;
use crate::extract::{
    address_text, comma, feature_values, image_base_text, head_values, issuer_parts, masked_issuers, optional_back,
    optional_front, optional_middle, optional_values, shown_characteristics, signer_sep,
    signer_text, tail_values,
};
use crate::image::{architecture_of, Architecture, OptionalHeader, ParsedImage};
use crate::machine::lemma_machine_field_plain;
use crate::text::{
    all_free_of, field_count, free_of, hex_digits_padded, hex_value, join_text, lemma_chain_free,
    lemma_decimal_free, lemma_dotted_free, lemma_fixed_hex_value, lemma_fixed_hex_width,
    lemma_join_field_count, lemma_pow16_of_field_widths, lemma_replace_free,
};
use crate::vocab::{
    has_bit, lemma_flag_text_free, lemma_subsystem_field_plain, pipe_sep, Vocabulary,
    NEED_32BIT_MACHINE_BIT,
};
use vstd::prelude::*;

verus! {

/// What a row needs of its input to be a well-formed line: no comma in the
/// name of the file, nor in the name of an imported module. Nothing in the
/// making of a row escapes a comma there.
pub open spec fn plain_input(file_name: Seq<char>, image: ParsedImage) -> bool {
    &&& free_of(file_name, ',')
    &&& all_free_of(image.imports.deep_view(), ',')
    &&& all_free_of(image.delay_imports.deep_view(), ',')
}

/// A 32-bit address fills ten characters in every row, holds no comma, and
/// its eight digits read back as the address itself.
pub proof fn lemma_address_text(address: u32)
    ensures
        address_text(address).len() == 10,
        free_of(address_text(address), ','),
        address_text(address).subrange(0, 2) == seq!['0', 'x'],
        hex_value(address_text(address).subrange(2, 10)) == address,
{
    lemma_fixed_hex_width(address as nat, 8);
    lemma_pow16_of_field_widths();
    lemma_fixed_hex_value(address as nat, 8);
    assert(address_text(address).subrange(0, 2) =~= seq!['0', 'x']);
    assert(address_text(address).subrange(2, 10) =~= hex_digits_padded(address as nat, 8));
}

/// The image base fills eighteen characters in every row, holds no comma,
/// and its sixteen digits read back as the image base itself.
pub proof fn lemma_image_base_text(base: u64)
    ensures
        image_base_text(base).len() == 18,
        free_of(image_base_text(base), ','),
        image_base_text(base).subrange(0, 2) == seq!['0', 'x'],
        hex_value(image_base_text(base).subrange(2, 18)) == base,
{
    lemma_fixed_hex_width(base as nat, 16);
    lemma_pow16_of_field_widths();
    lemma_fixed_hex_value(base as nat, 16);
    assert(image_base_text(base).subrange(0, 2) =~= seq!['0', 'x']);
    assert(image_base_text(base).subrange(2, 18) =~= hex_digits_padded(base as nat, 16));
}

/// Two lists of comma-free texts make one list of comma-free texts.
pub proof fn lemma_all_free_concat(a: Seq<Seq<char>>, b: Seq<Seq<char>>, c: char)
    requires
        all_free_of(a, c),
        all_free_of(b, c),
    ensures
        all_free_of(a + b, c),
{
    assert forall|k: int| 0 <= k < (a + b).len() implies free_of(#[trigger] (a + b)[k], c) by {
        if k < a.len() {
            assert((a + b)[k] == a[k]);
        } else {
            assert((a + b)[k] == b[k - a.len()]);
        }
    }
}

/// The optional header gives a row 22 comma-free values in the 32-bit
/// layout and 21 in the 64-bit layout.
pub proof fn lemma_optional_values_plain(opt: OptionalHeader, arch: Architecture)
    ensures
        all_free_of(optional_values(opt, arch), ','),
        optional_values(opt, arch).len() + 9 == column_count(arch),
{
    lemma_dotted_free(
        opt.standard.major_linker_version as nat,
        opt.standard.minor_linker_version as nat,
    );
    lemma_decimal_free(opt.standard.size_of_code as nat);
    lemma_decimal_free(opt.standard.size_of_initialized_data as nat);
    lemma_decimal_free(opt.standard.size_of_uninitialized_data as nat);
    lemma_address_text(opt.standard.address_of_entry_point);
    lemma_address_text(opt.standard.base_of_code);
    assert(all_free_of(optional_front(opt), ','));
    lemma_address_text(opt.standard.base_of_data);
    assert(all_free_of(optional_middle(opt, arch), ','));
    lemma_back_values_plain(opt);
    lemma_all_free_concat(optional_front(opt), optional_middle(opt, arch), ',');
    lemma_all_free_concat(
        optional_front(opt) + optional_middle(opt, arch),
        optional_back(opt),
        ',',
    );
}

proof fn lemma_back_values_plain(opt: OptionalHeader)
    ensures
        all_free_of(optional_back(opt), ','),
{
    lemma_image_base_text(opt.windows.image_base);
    lemma_decimal_free(opt.windows.section_alignment as nat);
    lemma_decimal_free(opt.windows.file_alignment as nat);
    lemma_dotted_free(
        opt.windows.major_operating_system_version as nat,
        opt.windows.minor_operating_system_version as nat,
    );
    lemma_dotted_free(
        opt.windows.major_image_version as nat,
        opt.windows.minor_image_version as nat,
    );
    lemma_dotted_free(
        opt.windows.major_subsystem_version as nat,
        opt.windows.minor_subsystem_version as nat,
    );
    lemma_decimal_free(opt.windows.size_of_image as nat);
    lemma_decimal_free(opt.windows.size_of_headers as nat);
    lemma_subsystem_field_plain(opt.windows.subsystem);
    lemma_flag_text_free(Vocabulary::DllCharacteristics, opt.windows.dll_characteristics);
    lemma_decimal_free(opt.windows.size_of_stack_reserve as nat);
    lemma_decimal_free(opt.windows.size_of_stack_commit as nat);
    lemma_decimal_free(opt.windows.size_of_heap_reserve as nat);
    lemma_decimal_free(opt.windows.size_of_heap_commit as nat);
    lemma_decimal_free(opt.windows.number_of_rva_and_sizes as nat);
}

/// The masked issuers of all signers hold no comma.
pub proof fn lemma_issuer_parts_plain(signatures: Seq<Seq<Seq<char>>>)
    ensures
        all_free_of(issuer_parts(signatures), ','),
    decreases signatures.len(),
{
    if signatures.len() > 0 {
        lemma_issuer_parts_plain(signatures.drop_last());
        let last = masked_issuers(signatures.last());
        assert forall|k: int| 0 <= k < last.len() implies free_of(#[trigger] last[k], ',') by {
            lemma_replace_free(signatures.last()[k], ',', '|');
        }
        lemma_all_free_concat(issuer_parts(signatures.drop_last()), last, ',');
    }
}

/// The signature column never holds a comma, whatever the issuers hold.
pub proof fn lemma_signer_text_free(signatures: Seq<Seq<Seq<char>>>)
    ensures
        free_of(signer_text(signatures), ','),
{
    reveal_strlit("NO SIGNATURE DETECTED");
    lemma_issuer_parts_plain(signatures);
    lemma_chain_free(issuer_parts(signatures), signer_sep(), ',');
}

/// An image without signatures shows the fixed text in the signature
/// column, which is not the empty text.
pub proof fn lemma_no_signature_sentinel(signatures: Seq<Seq<Seq<char>>>)
    requires
        signatures.len() == 0,
    ensures
        signer_text(signatures) == "NO SIGNATURE DETECTED"@,
        signer_text(signatures).len() == 21,
{
    reveal_strlit("NO SIGNATURE DETECTED");
}

/// For input without stray commas every value of a row is free of commas,
/// and the row has as many values as its layout has columns.
pub proof fn lemma_feature_values_plain(file_name: Seq<char>, image: ParsedImage, stamp: Seq<char>)
    requires
        plain_input(file_name, image),
        free_of(stamp, ','),
    ensures
        all_free_of(feature_values(file_name, image, stamp), ','),
        feature_values(file_name, image, stamp).len() == column_count(
            architecture_of(image.coff.characteristics),
        ),
{
    let arch = architecture_of(image.coff.characteristics);
    reveal_strlit("32BIT");
    reveal_strlit("64BIT");
    lemma_machine_field_plain(image.coff.machine);
    lemma_decimal_free(image.coff.number_of_sections as nat);
    lemma_decimal_free(image.coff.size_of_optional_header as nat);
    lemma_flag_text_free(
        Vocabulary::FileCharacteristics,
        shown_characteristics(image.coff.characteristics),
    );
    assert(all_free_of(head_values(file_name, image, stamp), ','));
    lemma_optional_values_plain(image.optional, arch);
    lemma_all_free_concat(image.imports.deep_view(), image.delay_imports.deep_view(), ',');
    lemma_chain_free(image.imports.deep_view() + image.delay_imports.deep_view(), pipe_sep(), ',');
    lemma_signer_text_free(image.signatures.deep_view());
    assert(all_free_of(tail_values(image), ','));
    lemma_all_free_concat(
        head_values(file_name, image, stamp),
        optional_values(image.optional, arch),
        ',',
    );
    lemma_all_free_concat(
        head_values(file_name, image, stamp) + optional_values(image.optional, arch),
        tail_values(image),
        ',',
    );
}

/// For input without stray commas the line of a row has exactly one field
/// for each column of its layout: 30 for a 64-bit image, 31 for a 32-bit
/// image.
pub proof fn lemma_row_field_count(file_name: Seq<char>, image: ParsedImage, stamp: Seq<char>)
    requires
        plain_input(file_name, image),
        free_of(stamp, ','),
    ensures
        field_count(join_text(feature_values(file_name, image, stamp), comma())) == column_count(
            architecture_of(image.coff.characteristics),
        ),
        architecture_of(image.coff.characteristics) == Architecture::Bits64 ==> field_count(
            join_text(feature_values(file_name, image, stamp), comma()),
        ) == 30,
        architecture_of(image.coff.characteristics) == Architecture::Bits32 ==> field_count(
            join_text(feature_values(file_name, image, stamp), comma()),
        ) == 31,
{
    lemma_feature_values_plain(file_name, image, stamp);
    lemma_join_field_count(feature_values(file_name, image, stamp));
}

/// The flag for a 32-bit machine decides the layout and is never among the
/// characteristics that a row shows; every other flag is shown exactly
/// where the file header has it set.
pub proof fn lemma_shown_characteristics(characteristics: u16, bit: u32)
    requires
        bit < 16,
    ensures
        (architecture_of(characteristics) == Architecture::Bits32) == has_bit(
            characteristics,
            NEED_32BIT_MACHINE_BIT,
        ),
        has_bit(shown_characteristics(characteristics), bit) == (bit != NEED_32BIT_MACHINE_BIT
            && has_bit(characteristics, bit)),
{
    assert((characteristics & 0x0100u16 != 0) <==> ((characteristics >> 8u32) & 1 == 1))
        by (bit_vector);
    assert(((characteristics & !0x0100u16) >> bit) & 1 == 1 <==> (bit != 8 && (characteristics
        >> bit) & 1 == 1)) by (bit_vector)
        requires
            bit < 16,
    ;
}

} // verus!
