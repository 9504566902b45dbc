//! The fixed vocabularies: which name stands at which bit of the file
//! characteristics and of the DLL characteristics, and which name each
//! subsystem number has.

use crate::error::ExtractError;
use crate::text::{
    all_free_of, free_of, join, join_text, lemma_join_free, lemma_join_without_small_letters,
    lemma_upper_text_fixed, upper_text, without_small_letters,
};
use vstd::prelude::*;

verus! {

/// A vocabulary of flag names, one name to a bit position.
#[derive(Clone, Copy, Debug, PartialEq, Eq, Structural)]
pub enum Vocabulary {
    /// Characteristics of the file header; every bit from 0 to 15 has a name.
    FileCharacteristics,
    /// DLL characteristics of the optional header; bits 5 to 15 have names.
    DllCharacteristics,
}

/// Bit position of the flag that marks an image as made for a 32-bit machine.
pub const NEED_32BIT_MACHINE_BIT: u32 = 8;

/// Mask of the flag that marks an image as made for a 32-bit machine.
pub const NEED_32BIT_MACHINE: u16 = 0x0100;

/// Number of entries of the subsystem vocabulary.
pub const SUBSYSTEM_COUNT: u16 = 16;

/// Name of the file characteristic at a bit position from 0 to 15.
pub open spec fn file_char_name(bit: int) -> Seq<char> {
    if bit == 0 {
        "RELOCS_STRIPPED"@
    } else if bit == 1 {
        "EXECUTABLE_IMAGE"@
    } else if bit == 2 {
        "LINE_NUMS_STRIPPED_DEPRECATED"@
    } else if bit == 3 {
        "LOCAL_SYMS_STRiPPED_DEPRECATED"@
    } else if bit == 4 {
        "AGGRESSIVE_WS_TRIM_DEPRECATED"@
    } else if bit == 5 {
        "LARGE_ADDRESS_AWARE"@
    } else if bit == 6 {
        "RESERVED"@
    } else if bit == 7 {
        "BYTES_RESERVED_LO_DEPRECATED"@
    } else if bit == 8 {
        "32BIT_MACHINE"@
    } else if bit == 9 {
        "DEBUG_STRIPPED"@
    } else if bit == 10 {
        "REMOVABLE_RUN_FROM_SWAP"@
    } else if bit == 11 {
        "NET_RUN_FROM_SWAP"@
    } else if bit == 12 {
        "SYSTEM"@
    } else if bit == 13 {
        "DLL"@
    } else if bit == 14 {
        "UP_SYSTEM_ONLY"@
    } else {
        "BYTES_REVERSE_HI_DEPRECATED"@
    }
}

/// Name of the DLL characteristic at a bit position from 5 to 15.
pub open spec fn dll_char_name(bit: int) -> Seq<char> {
    if bit == 5 {
        "HIGH_ENTROPY_VA"@
    } else if bit == 6 {
        "DYNAMIC_BASE"@
    } else if bit == 7 {
        "FORCE_INTEGRITY"@
    } else if bit == 8 {
        "NX_COMPAT"@
    } else if bit == 9 {
        "NO_ISOLATION"@
    } else if bit == 10 {
        "NO_SEH"@
    } else if bit == 11 {
        "NO_BIND"@
    } else if bit == 12 {
        "APPCONTAINER"@
    } else if bit == 13 {
        "WDM_DRIVER"@
    } else if bit == 14 {
        "GUARD_CF"@
    } else {
        "TERMINAL_SERVER_AWARE"@
    }
}

/// Name of the subsystem with a number from 0 to 15.
pub open spec fn subsystem_text(index: int) -> Seq<char> {
    if index == 0 {
        "UNKNOWN"@
    } else if index == 1 {
        "NATIVE"@
    } else if index == 2 {
        "WINDOWS_GUI"@
    } else if index == 3 {
        "WINDOWS_CLI"@
    } else if index == 4 {
        "INVALID"@
    } else if index == 5 {
        "OS2_CLI"@
    } else if index == 6 {
        "POSIX_CLI"@
    } else if index == 7 {
        "NATIVE_WINDOWS"@
    } else if index == 8 {
        "WINDOWS_CE_GUI"@
    } else if index == 9 {
        "EFI_APPLICATION"@
    } else if index == 10 {
        "EFI_BOOT_SERVICE_DRIVER"@
    } else if index == 11 {
        "EFI_RUNTIME_DRIVER"@
    } else if index == 12 {
        "EFI_ROM"@
    } else if index == 13 {
        "XBOX"@
    } else if index == 14 {
        "INVALID"@
    } else {
        "WINDOWS_BOOT_APPLICATION"@
    }
}

impl Vocabulary {
    /// Lowest bit position that has a name.
    pub open spec fn first_bit(self) -> nat {
        match self {
            Vocabulary::FileCharacteristics => 0,
            Vocabulary::DllCharacteristics => 5,
        }
    }

    /// Name at a bit position between `first_bit` and 15.
    pub open spec fn name(self, bit: int) -> Seq<char> {
        match self {
            Vocabulary::FileCharacteristics => file_char_name(bit),
            Vocabulary::DllCharacteristics => dll_char_name(bit),
        }
    }
}

/// Whether the bit at position `bit` of `mask` is set.
pub open spec fn has_bit(mask: u16, bit: u32) -> bool {
    (mask >> bit) & 1 == 1
}

/// Names of the set bits of `mask` among the positions below `upto`, lowest
/// position first. Positions without a name are passed over.
pub open spec fn flag_names_below(vocab: Vocabulary, mask: u16, upto: nat) -> Seq<Seq<char>>
    decreases upto,
{
    if upto <= vocab.first_bit() {
        Seq::empty()
    } else {
        let bit = (upto - 1) as nat;
        let lower = flag_names_below(vocab, mask, bit);
        if has_bit(mask, bit as u32) {
            lower.push(vocab.name(bit as int))
        } else {
            lower
        }
    }
}

/// Names of all set bits of `mask` that the vocabulary knows, lowest
/// position first.
pub open spec fn flag_names(vocab: Vocabulary, mask: u16) -> Seq<Seq<char>> {
    flag_names_below(vocab, mask, 16)
}

/// The separator between two flag names, and between two import names.
pub open spec fn pipe_sep() -> Seq<char> {
    seq![' ', '|', ' ']
}

/// The flags of `mask` as one text: the names in vocabulary order with
/// `" | "` between them, empty where no known bit is set.
pub open spec fn flag_text(vocab: Vocabulary, mask: u16) -> Seq<char> {
    join_text(flag_names(vocab, mask), pipe_sep())
}

/// Looks up a file characteristic by bit position.
fn file_char_str(bit: u32) -> (s: &'static str)
    requires
        0 <= bit < 16,
    ensures
        s@ == file_char_name(bit as int),
{
    match bit {
        0 => "RELOCS_STRIPPED",
        1 => "EXECUTABLE_IMAGE",
        2 => "LINE_NUMS_STRIPPED_DEPRECATED",
        3 => "LOCAL_SYMS_STRiPPED_DEPRECATED",
        4 => "AGGRESSIVE_WS_TRIM_DEPRECATED",
        5 => "LARGE_ADDRESS_AWARE",
        6 => "RESERVED",
        7 => "BYTES_RESERVED_LO_DEPRECATED",
        8 => "32BIT_MACHINE",
        9 => "DEBUG_STRIPPED",
        10 => "REMOVABLE_RUN_FROM_SWAP",
        11 => "NET_RUN_FROM_SWAP",
        12 => "SYSTEM",
        13 => "DLL",
        14 => "UP_SYSTEM_ONLY",
        _ => "BYTES_REVERSE_HI_DEPRECATED",
    }
}

/// Looks up a DLL characteristic by bit position.
fn dll_char_str(bit: u32) -> (s: &'static str)
    requires
        5 <= bit < 16,
    ensures
        s@ == dll_char_name(bit as int),
{
    match bit {
        5 => "HIGH_ENTROPY_VA",
        6 => "DYNAMIC_BASE",
        7 => "FORCE_INTEGRITY",
        8 => "NX_COMPAT",
        9 => "NO_ISOLATION",
        10 => "NO_SEH",
        11 => "NO_BIND",
        12 => "APPCONTAINER",
        13 => "WDM_DRIVER",
        14 => "GUARD_CF",
        _ => "TERMINAL_SERVER_AWARE",
    }
}

/// Decodes a bitmask into the names of its set flags, testing the bits from
/// the least significant upward. A set bit without a name is dropped.
pub fn decode_flags(vocab: Vocabulary, mask: u16) -> (names: Vec<String>)
    ensures
        names.deep_view() == flag_names(vocab, mask),
{
    let first: u32 = match vocab {
        Vocabulary::FileCharacteristics => 0,
        Vocabulary::DllCharacteristics => 5,
    };
    let mut names: Vec<String> = Vec::new();
    let mut bit: u32 = first;
    assert(names.deep_view() =~= flag_names_below(vocab, mask, bit as nat));
    while bit < 16
        invariant
            first == vocab.first_bit(),
            first <= bit <= 16,
            names.deep_view() == flag_names_below(vocab, mask, bit as nat),
        decreases 16 - bit,
    {
        let ghost before = names.deep_view();
        if (mask >> bit) & 1 == 1 {
            let name = match vocab {
                Vocabulary::FileCharacteristics => file_char_str(bit),
                Vocabulary::DllCharacteristics => dll_char_str(bit),
            };
            names.push(name.to_owned());
            assert(names.deep_view() =~= before.push(vocab.name(bit as int)));
        }
        bit += 1;
    }
    names
}

/// Renders the flags of `mask` as one text, the names in vocabulary order
/// with `" | "` between them.
pub fn render_flags(vocab: Vocabulary, mask: u16) -> (s: String)
    ensures
        s@ == flag_text(vocab, mask),
{
    proof {
        reveal_strlit(" | ");
    }
    let names = decode_flags(vocab, mask);
    assert(" | "@ =~= pipe_sep());
    join(&names, " | ")
}

/// Looks up the name of a subsystem by its number. A number outside the
/// table is an error, not a panic.
pub fn lookup_subsystem(index: u16) -> (r: Result<&'static str, ExtractError>)
    ensures
        index < SUBSYSTEM_COUNT ==> r is Ok && r->Ok_0@ == subsystem_text(index as int),
        index >= SUBSYSTEM_COUNT ==> r == Err::<&'static str, ExtractError>(
            ExtractError::UnknownSubsystem,
        ),
{
    match index {
        0 => Ok("UNKNOWN"),
        1 => Ok("NATIVE"),
        2 => Ok("WINDOWS_GUI"),
        3 => Ok("WINDOWS_CLI"),
        4 => Ok("INVALID"),
        5 => Ok("OS2_CLI"),
        6 => Ok("POSIX_CLI"),
        7 => Ok("NATIVE_WINDOWS"),
        8 => Ok("WINDOWS_CE_GUI"),
        9 => Ok("EFI_APPLICATION"),
        10 => Ok("EFI_BOOT_SERVICE_DRIVER"),
        11 => Ok("EFI_RUNTIME_DRIVER"),
        12 => Ok("EFI_ROM"),
        13 => Ok("XBOX"),
        14 => Ok("INVALID"),
        15 => Ok("WINDOWS_BOOT_APPLICATION"),
        _ => Err(ExtractError::UnknownSubsystem),
    }
}

/// The text that stands in a row where a lookup found no entry.
pub open spec fn unknown_text() -> Seq<char> {
    "Unknown"@
}

/// What a row shows for a subsystem number: its name, or `Unknown` where the
/// table has none.
pub open spec fn subsystem_field(index: u16) -> Seq<char> {
    if index < SUBSYSTEM_COUNT {
        subsystem_text(index as int)
    } else {
        unknown_text()
    }
}

/// Names a subsystem for a row; a number outside the table is shown as
/// `Unknown` and does not fail the row.
pub fn subsystem_name(index: u16) -> (s: String)
    ensures
        s@ == subsystem_field(index),
{
    match lookup_subsystem(index) {
        Ok(name) => name.to_owned(),
        Err(_) => "Unknown".to_owned(),
    }
}

/// No file characteristic has a comma in its name, and none is empty.
pub proof fn lemma_file_char_name_plain(bit: int)
    ensures
        free_of(file_char_name(bit), ','),
        file_char_name(bit).len() > 0,
{
    reveal_strlit("RELOCS_STRIPPED");
    reveal_strlit("EXECUTABLE_IMAGE");
    reveal_strlit("LINE_NUMS_STRIPPED_DEPRECATED");
    reveal_strlit("LOCAL_SYMS_STRiPPED_DEPRECATED");
    reveal_strlit("AGGRESSIVE_WS_TRIM_DEPRECATED");
    reveal_strlit("LARGE_ADDRESS_AWARE");
    reveal_strlit("RESERVED");
    reveal_strlit("BYTES_RESERVED_LO_DEPRECATED");
    reveal_strlit("32BIT_MACHINE");
    reveal_strlit("DEBUG_STRIPPED");
    reveal_strlit("REMOVABLE_RUN_FROM_SWAP");
    reveal_strlit("NET_RUN_FROM_SWAP");
    reveal_strlit("SYSTEM");
    reveal_strlit("DLL");
    reveal_strlit("UP_SYSTEM_ONLY");
    reveal_strlit("BYTES_REVERSE_HI_DEPRECATED");
}

/// No DLL characteristic has a comma in its name, and none is empty.
pub proof fn lemma_dll_char_name_plain(bit: int)
    ensures
        free_of(dll_char_name(bit), ','),
        dll_char_name(bit).len() > 0,
{
    reveal_strlit("HIGH_ENTROPY_VA");
    reveal_strlit("DYNAMIC_BASE");
    reveal_strlit("FORCE_INTEGRITY");
    reveal_strlit("NX_COMPAT");
    reveal_strlit("NO_ISOLATION");
    reveal_strlit("NO_SEH");
    reveal_strlit("NO_BIND");
    reveal_strlit("APPCONTAINER");
    reveal_strlit("WDM_DRIVER");
    reveal_strlit("GUARD_CF");
    reveal_strlit("TERMINAL_SERVER_AWARE");
}

/// What a row shows for a subsystem holds no comma and is not empty.
pub proof fn lemma_subsystem_field_plain(index: u16)
    ensures
        free_of(subsystem_field(index), ','),
        subsystem_field(index).len() > 0,
{
    reveal_strlit("UNKNOWN");
    reveal_strlit("NATIVE");
    reveal_strlit("WINDOWS_GUI");
    reveal_strlit("WINDOWS_CLI");
    reveal_strlit("INVALID");
    reveal_strlit("OS2_CLI");
    reveal_strlit("POSIX_CLI");
    reveal_strlit("NATIVE_WINDOWS");
    reveal_strlit("WINDOWS_CE_GUI");
    reveal_strlit("EFI_APPLICATION");
    reveal_strlit("EFI_BOOT_SERVICE_DRIVER");
    reveal_strlit("EFI_RUNTIME_DRIVER");
    reveal_strlit("EFI_ROM");
    reveal_strlit("XBOX");
    reveal_strlit("WINDOWS_BOOT_APPLICATION");
    reveal_strlit("Unknown");
}

/// Every decoded flag name is free of commas and not empty.
pub proof fn lemma_flag_names_plain(vocab: Vocabulary, mask: u16, upto: nat)
    requires
        upto <= 16,
    ensures
        all_free_of(flag_names_below(vocab, mask, upto), ','),
        forall|k: int|
            0 <= k < flag_names_below(vocab, mask, upto).len() ==> (#[trigger] flag_names_below(
                vocab,
                mask,
                upto,
            )[k]).len() > 0,
    decreases upto,
{
    if upto > vocab.first_bit() {
        let bit = (upto - 1) as nat;
        lemma_flag_names_plain(vocab, mask, bit);
        lemma_file_char_name_plain(bit as int);
        lemma_dll_char_name_plain(bit as int);
    }
}

/// The rendered flags of a mask hold no comma, so they fill one field of a
/// comma-separated line.
pub proof fn lemma_flag_text_free(vocab: Vocabulary, mask: u16)
    ensures
        free_of(flag_text(vocab, mask), ','),
{
    lemma_flag_names_plain(vocab, mask, 16);
    lemma_join_free(flag_names(vocab, mask), pipe_sep(), ',');
}

/// Decoding is a function of the mask alone: two decodings of one mask give
/// the same names in the same order, and so the same text.
pub proof fn lemma_decoding_is_stable(
    vocab: Vocabulary,
    mask: u16,
    first: Seq<Seq<char>>,
    second: Seq<Seq<char>>,
)
    requires
        first == flag_names(vocab, mask),
        second == flag_names(vocab, mask),
    ensures
        first == second,
        join_text(first, pipe_sep()) == join_text(second, pipe_sep()),
        join_text(first, pipe_sep()) == flag_text(vocab, mask),
{
}

/// A set bit below the first named position changes nothing: the names
/// decoded from a mask are those decoded from its named bits alone.
pub proof fn lemma_unnamed_bits_are_dropped(mask: u16)
    ensures
        flag_names(Vocabulary::DllCharacteristics, mask) == flag_names(
            Vocabulary::DllCharacteristics,
            mask & 0xFFE0,
        ),
        flag_text(Vocabulary::DllCharacteristics, mask) == flag_text(
            Vocabulary::DllCharacteristics,
            mask & 0xFFE0,
        ),
{
    lemma_names_of_named_bits(mask, 16);
}

proof fn lemma_names_of_named_bits(mask: u16, upto: nat)
    requires
        upto <= 16,
    ensures
        flag_names_below(Vocabulary::DllCharacteristics, mask, upto) == flag_names_below(
            Vocabulary::DllCharacteristics,
            mask & 0xFFE0,
            upto,
        ),
    decreases upto,
{
    if upto > 5 {
        let bit = (upto - 1) as u32;
        lemma_names_of_named_bits(mask, (upto - 1) as nat);
        assert(((mask & 0xFFE0) >> bit) & 1 == (mask >> bit) & 1) by (bit_vector)
            requires
                5 <= bit < 16,
        ;
    }
}

/// The names of the DLL characteristics hold no small letter: rendered,
/// they are in upper case as they stand.
pub proof fn lemma_dll_char_name_upper(bit: int)
    ensures
        without_small_letters(dll_char_name(bit)),
{
    reveal_strlit("HIGH_ENTROPY_VA");
    reveal_strlit("DYNAMIC_BASE");
    reveal_strlit("FORCE_INTEGRITY");
    reveal_strlit("NX_COMPAT");
    reveal_strlit("NO_ISOLATION");
    reveal_strlit("NO_SEH");
    reveal_strlit("NO_BIND");
    reveal_strlit("APPCONTAINER");
    reveal_strlit("WDM_DRIVER");
    reveal_strlit("GUARD_CF");
    reveal_strlit("TERMINAL_SERVER_AWARE");
}

/// The rendered DLL characteristics are in upper case: turning small
/// letters into capitals leaves the text as it is.
pub proof fn lemma_dll_flag_text_upper(mask: u16)
    ensures
        without_small_letters(flag_text(Vocabulary::DllCharacteristics, mask)),
        upper_text(flag_text(Vocabulary::DllCharacteristics, mask)) == flag_text(
            Vocabulary::DllCharacteristics,
            mask,
        ),
{
    lemma_dll_names_upper(mask, 16);
    lemma_join_without_small_letters(flag_names(Vocabulary::DllCharacteristics, mask), pipe_sep());
    lemma_upper_text_fixed(flag_text(Vocabulary::DllCharacteristics, mask));
}

proof fn lemma_dll_names_upper(mask: u16, upto: nat)
    requires
        upto <= 16,
    ensures
        forall|k: int|
            0 <= k < flag_names_below(Vocabulary::DllCharacteristics, mask, upto).len()
                ==> without_small_letters(
                #[trigger] flag_names_below(Vocabulary::DllCharacteristics, mask, upto)[k],
            ),
    decreases upto,
{
    if upto > 5 {
        let vocab = Vocabulary::DllCharacteristics;
        let lower = flag_names_below(vocab, mask, (upto - 1) as nat);
        let names = flag_names_below(vocab, mask, upto);
        lemma_dll_names_upper(mask, (upto - 1) as nat);
        lemma_dll_char_name_upper(upto - 1);
        assert forall|k: int| 0 <= k < names.len() implies without_small_letters(
            #[trigger] names[k],
        ) by {
            if k < lower.len() {
                assert(names[k] == lower[k]);
            } else {
                assert(names[k] == dll_char_name(upto - 1));
            }
        }
    }
}

} // verus!
