use pe_features::text::{chain, decimal, dotted, fixed_hex, join, replace_commas, upper_hex};

fn texts(parts: &[&str]) -> Vec<String> {
    parts.iter().map(|p| p.to_string()).collect()
}

#[test]
fn decimal_of_zero_is_one_digit() {
    assert_eq!(decimal(0), "0");
}

#[test]
fn decimal_of_small_and_large_numbers() {
    assert_eq!(decimal(7), "7");
    assert_eq!(decimal(10), "10");
    assert_eq!(decimal(1234567890), "1234567890");
    assert_eq!(decimal(u64::MAX), "18446744073709551615");
}

#[test]
fn decimal_agrees_with_the_standard_formatter() {
    for n in [0u64, 9, 99, 100, 4096, 65535, 4294967295, 1 << 40] {
        assert_eq!(decimal(n), format!("{}", n));
    }
}

#[test]
fn upper_hex_has_prefix_and_capitals() {
    assert_eq!(upper_hex(0), "0x0");
    assert_eq!(upper_hex(0x1000), "0x1000");
    assert_eq!(upper_hex(0xdeadbeef), "0xDEADBEEF");
    assert_eq!(upper_hex(0x140000000), "0x140000000");
    assert_eq!(upper_hex(u64::MAX), "0xFFFFFFFFFFFFFFFF");
}

#[test]
fn upper_hex_agrees_with_the_standard_formatter() {
    for n in [0u64, 15, 16, 255, 0x400000, 0xabcdef, u32::MAX as u64] {
        assert_eq!(upper_hex(n), format!("{:#X}", n));
    }
}

#[test]
fn dotted_sets_a_full_stop_between() {
    assert_eq!(dotted(14, 29), "14.29");
    assert_eq!(dotted(0, 0), "0.0");
    assert_eq!(dotted(65535, 1), "65535.1");
}

#[test]
fn join_of_nothing_is_empty() {
    assert_eq!(join(&texts(&[]), ","), "");
}

#[test]
fn join_sets_the_separator_between_neighbours() {
    assert_eq!(join(&texts(&["a"]), ","), "a");
    assert_eq!(join(&texts(&["a", "b", "c"]), ","), "a,b,c");
    assert_eq!(join(&texts(&["", "b", ""]), " | "), " | b | ");
}

#[test]
fn chain_passes_over_empty_leading_parts() {
    assert_eq!(chain(&texts(&[]), " | "), "");
    assert_eq!(chain(&texts(&["a", "b"]), " | "), "a | b");
    assert_eq!(chain(&texts(&["", "a", "b"]), " | "), "a | b");
    assert_eq!(chain(&texts(&["a", "", "b"]), " | "), "a |  | b");
}

#[test]
fn chain_is_join_where_no_part_is_empty() {
    let parts = texts(&["KERNEL32.dll", "USER32.dll", "GDI32.dll"]);
    assert_eq!(chain(&parts, " | "), join(&parts, " | "));
}

#[test]
fn replace_commas_turns_every_comma() {
    assert_eq!(replace_commas(""), "");
    assert_eq!(replace_commas("no comma"), "no comma");
    assert_eq!(replace_commas("CN=Root, O=Org, C=US"), "CN=Root| O=Org| C=US");
    assert_eq!(replace_commas(",,"), "||");
}

#[test]
fn replace_commas_keeps_other_characters() {
    assert_eq!(replace_commas("Zürich, CH"), "Zürich| CH");
    assert!(!replace_commas("a,b,c,d").contains(','));
}

#[test]
fn fixed_hex_fills_its_width_with_zeros() {
    assert_eq!(fixed_hex(0, 8), "0x00000000");
    assert_eq!(fixed_hex(16, 8), "0x00000010");
    assert_eq!(fixed_hex(0xabcdef, 8), "0x00ABCDEF");
    assert_eq!(fixed_hex(u32::MAX as u64, 8), "0xFFFFFFFF");
    assert_eq!(fixed_hex(0x1_4000_0000, 16), "0x0000000140000000");
    assert_eq!(fixed_hex(u64::MAX, 16), "0xFFFFFFFFFFFFFFFF");
    assert_eq!(fixed_hex(5, 0), "0x");
}

#[test]
fn fixed_hex_agrees_with_the_standard_formatter() {
    for n in [0u64, 1, 15, 16, 255, 0x400000, 0xdead_beef, u32::MAX as u64] {
        assert_eq!(fixed_hex(n, 8), format!("0x{:08X}", n));
        assert_eq!(fixed_hex(n, 16), format!("0x{:016X}", n));
    }
}

#[test]
fn fixed_hex_keeps_the_last_digits_of_a_number_too_wide() {
    assert_eq!(fixed_hex(0x1_2345_6789, 8), "0x23456789");
}
