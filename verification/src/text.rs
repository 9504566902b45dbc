//! Text building blocks: decimal and hexadecimal numerals, joining with a
//! separator, and counting the fields of a delimited line.

use vstd::prelude::*;

verus! {

/// The character that stands for the digit `d` in bases up to sixteen,
/// with capital letters above nine.
pub open spec fn digit_char(d: int) -> char {
    if d == 0 {
        '0'
    } else if d == 1 {
        '1'
    } else if d == 2 {
        '2'
    } else if d == 3 {
        '3'
    } else if d == 4 {
        '4'
    } else if d == 5 {
        '5'
    } else if d == 6 {
        '6'
    } else if d == 7 {
        '7'
    } else if d == 8 {
        '8'
    } else if d == 9 {
        '9'
    } else if d == 10 {
        'A'
    } else if d == 11 {
        'B'
    } else if d == 12 {
        'C'
    } else if d == 13 {
        'D'
    } else if d == 14 {
        'E'
    } else {
        'F'
    }
}

/// `n` written in decimal, most significant digit first, without leading
/// zeros; zero is the single digit `0`.
pub open spec fn decimal_text(n: nat) -> Seq<char>
    decreases n,
{
    if n < 10 {
        seq![digit_char(n as int)]
    } else {
        decimal_text(n / 10).push(digit_char((n % 10) as int))
    }
}

/// `n` written in capital hexadecimal digits, most significant first,
/// without leading zeros.
pub open spec fn hex_digits(n: nat) -> Seq<char>
    decreases n,
{
    if n < 16 {
        seq![digit_char(n as int)]
    } else {
        hex_digits(n / 16).push(digit_char((n % 16) as int))
    }
}

/// `n` written in capital hexadecimal behind the prefix `0x`.
pub open spec fn hex_text(n: nat) -> Seq<char> {
    seq!['0', 'x'] + hex_digits(n)
}

/// The last `width` capital hexadecimal digits of `n`, most significant
/// first, with zeros in front where `n` has fewer digits.
pub open spec fn hex_digits_padded(n: nat, width: nat) -> Seq<char>
    decreases width,
{
    if width == 0 {
        Seq::empty()
    } else {
        hex_digits_padded(n / 16, (width - 1) as nat).push(digit_char((n % 16) as int))
    }
}

/// `n` written at a fixed width: the prefix `0x`, then exactly `width`
/// capital hexadecimal digits, zeros in front where `n` has fewer.
pub open spec fn fixed_hex_text(n: nat, width: nat) -> Seq<char> {
    seq!['0', 'x'] + hex_digits_padded(n, width)
}

/// Sixteen to the power of `width`: how many numbers `width` hexadecimal
/// digits can tell apart.
pub open spec fn pow16(width: nat) -> nat
    decreases width,
{
    if width == 0 {
        1
    } else {
        16 * pow16((width - 1) as nat)
    }
}

/// The number that a hexadecimal digit stands for.
pub open spec fn digit_value(c: char) -> nat {
    if c == '0' {
        0
    } else if c == '1' {
        1
    } else if c == '2' {
        2
    } else if c == '3' {
        3
    } else if c == '4' {
        4
    } else if c == '5' {
        5
    } else if c == '6' {
        6
    } else if c == '7' {
        7
    } else if c == '8' {
        8
    } else if c == '9' {
        9
    } else if c == 'A' {
        10
    } else if c == 'B' {
        11
    } else if c == 'C' {
        12
    } else if c == 'D' {
        13
    } else if c == 'E' {
        14
    } else {
        15
    }
}

/// The number that a row of hexadecimal digits stands for, the most
/// significant digit first.
pub open spec fn hex_value(digits: Seq<char>) -> nat
    decreases digits.len(),
{
    if digits.len() == 0 {
        0
    } else {
        hex_value(digits.drop_last()) * 16 + digit_value(digits.last())
    }
}

/// The one-character text of a single digit.
fn digit_str(d: u64) -> (s: &'static str)
    requires
        d < 16,
    ensures
        s@ == seq![digit_char(d as int)],
{
    proof {
        reveal_strlit("0");
        reveal_strlit("1");
        reveal_strlit("2");
        reveal_strlit("3");
        reveal_strlit("4");
        reveal_strlit("5");
        reveal_strlit("6");
        reveal_strlit("7");
        reveal_strlit("8");
        reveal_strlit("9");
        reveal_strlit("A");
        reveal_strlit("B");
        reveal_strlit("C");
        reveal_strlit("D");
        reveal_strlit("E");
        reveal_strlit("F");
    }
    let s = match d {
        0 => "0",
        1 => "1",
        2 => "2",
        3 => "3",
        4 => "4",
        5 => "5",
        6 => "6",
        7 => "7",
        8 => "8",
        9 => "9",
        10 => "A",
        11 => "B",
        12 => "C",
        13 => "D",
        14 => "E",
        _ => "F",
    };
    assert(s@ =~= seq![digit_char(d as int)]);
    s
}

/// Writes `n` in decimal.
pub fn decimal(n: u64) -> (s: String)
    ensures
        s@ == decimal_text(n as nat),
    decreases n,
{
    if n < 10 {
        digit_str(n).to_owned()
    } else {
        let mut s = decimal(n / 10);
        s.append(digit_str(n % 10));
        s
    }
}

/// Writes `n` in capital hexadecimal digits.
fn hex_string(n: u64) -> (s: String)
    ensures
        s@ == hex_digits(n as nat),
    decreases n,
{
    if n < 16 {
        digit_str(n).to_owned()
    } else {
        let mut s = hex_string(n / 16);
        s.append(digit_str(n % 16));
        s
    }
}

/// Writes `n` in capital hexadecimal behind the prefix `0x`.
pub fn upper_hex(n: u64) -> (s: String)
    ensures
        s@ == hex_text(n as nat),
{
    proof {
        reveal_strlit("0x");
    }
    let mut s = "0x".to_owned();
    assert(s@ =~= seq!['0', 'x']);
    let digits = hex_string(n);
    s.append(digits.as_str());
    s
}

/// The parts written one after another with `sep` between neighbours.
pub open spec fn join_text(parts: Seq<Seq<char>>, sep: Seq<char>) -> Seq<char>
    decreases parts.len(),
{
    if parts.len() == 0 {
        Seq::empty()
    } else if parts.len() == 1 {
        parts[0]
    } else {
        join_text(parts.drop_last(), sep) + sep + parts.last()
    }
}

/// The parts accumulated from the left: a part is set behind `sep` only
/// when something has been written before it, so empty leading parts leave
/// no separator behind.
pub open spec fn chain_text(parts: Seq<Seq<char>>, sep: Seq<char>) -> Seq<char>
    decreases parts.len(),
{
    if parts.len() == 0 {
        Seq::empty()
    } else {
        let head = chain_text(parts.drop_last(), sep);
        if head.len() == 0 {
            parts.last()
        } else {
            head + sep + parts.last()
        }
    }
}

/// How often `c` occurs in `s`.
pub open spec fn count_char(s: Seq<char>, c: char) -> nat
    decreases s.len(),
{
    if s.len() == 0 {
        0
    } else {
        count_char(s.drop_last(), c) + if s.last() == c {
            1nat
        } else {
            0nat
        }
    }
}

/// `c` does not occur in `s`.
pub open spec fn free_of(s: Seq<char>, c: char) -> bool {
    forall|i: int| 0 <= i < s.len() ==> s[i] != c
}

/// Every part is free of `c`.
pub open spec fn all_free_of(parts: Seq<Seq<char>>, c: char) -> bool {
    forall|k: int| 0 <= k < parts.len() ==> free_of(#[trigger] parts[k], c)
}

/// Number of comma-separated fields of a line.
pub open spec fn field_count(line: Seq<char>) -> nat {
    count_char(line, ',') + 1
}

/// `s` with every `from` turned into `to`.
pub open spec fn replace_char(s: Seq<char>, from: char, to: char) -> Seq<char> {
    Seq::new(
        s.len(),
        |i: int|
            if s[i] == from {
                to
            } else {
                s[i]
            },
    )
}

/// Writes the last `width` capital hexadecimal digits of `n`.
fn padded_hex_string(n: u64, width: u32) -> (s: String)
    ensures
        s@ == hex_digits_padded(n as nat, width as nat),
    decreases width,
{
    if width == 0 {
        String::new()
    } else {
        let mut s = padded_hex_string(n / 16, width - 1);
        s.append(digit_str(n % 16));
        s
    }
}

/// Writes `n` at a fixed width: the prefix `0x`, then exactly `width`
/// capital hexadecimal digits, zeros in front where `n` has fewer. Digits
/// of `n` beyond the width are left out; the lemmas on `fixed_hex_text` say
/// when there are none.
pub fn fixed_hex(n: u64, width: u32) -> (s: String)
    ensures
        s@ == fixed_hex_text(n as nat, width as nat),
        s@.len() == width + 2,
{
    proof {
        reveal_strlit("0x");
        lemma_fixed_hex_width(n as nat, width as nat);
    }
    let mut s = "0x".to_owned();
    assert(s@ =~= seq!['0', 'x']);
    let digits = padded_hex_string(n, width);
    s.append(digits.as_str());
    s
}

/// Two numbers in decimal with a full stop between them.
pub open spec fn dotted_text(major: nat, minor: nat) -> Seq<char> {
    decimal_text(major) + seq!['.'] + decimal_text(minor)
}

/// Writes two numbers in decimal with a full stop between them.
pub fn dotted(major: u64, minor: u64) -> (s: String)
    ensures
        s@ == dotted_text(major as nat, minor as nat),
{
    proof {
        reveal_strlit(".");
    }
    assert("."@ =~= seq!['.']);
    let mut s = decimal(major);
    s.append(".");
    let tail = decimal(minor);
    s.append(tail.as_str());
    s
}

/// A list of texts with nothing in it.
pub fn no_texts() -> (v: Vec<String>)
    ensures
        v.deep_view() == Seq::<Seq<char>>::empty(),
{
    let v: Vec<String> = Vec::new();
    assert(v.deep_view() =~= Seq::<Seq<char>>::empty());
    v
}

/// Sets one more text behind the texts of `v`.
pub fn push_text(v: &mut Vec<String>, s: String)
    ensures
        final(v).deep_view() == old(v).deep_view().push(s@),
{
    let ghost before = v.deep_view();
    v.push(s);
    assert(v.deep_view() =~= before.push(s@));
}

/// Sets copies of the texts of `more` behind the texts of `v`.
pub fn extend_texts(v: &mut Vec<String>, more: &Vec<String>)
    ensures
        final(v).deep_view() == old(v).deep_view() + more.deep_view(),
{
    let ghost before = v.deep_view();
    let mut i: usize = 0;
    assert(v.deep_view() =~= before + more.deep_view().take(0));
    while i < more.len()
        invariant
            i <= more.len(),
            v.deep_view() == before + more.deep_view().take(i as int),
        decreases more.len() - i,
    {
        let ghost so_far = v.deep_view();
        let copy = more[i].clone();
        push_text(v, copy);
        assert(more.deep_view().take(i + 1) =~= more.deep_view().take(i as int).push(
            more[i as int]@,
        ));
        assert(v.deep_view() =~= before + more.deep_view().take(i + 1));
        i += 1;
    }
    assert(more.deep_view().take(i as int) =~= more.deep_view());
}

/// The parts of `s` between the occurrences of `sep`. A text without `sep`
/// is one part, the empty text too; `sep` at the end leaves an empty part
/// behind it.
pub open spec fn split_text(s: Seq<char>, sep: char) -> Seq<Seq<char>>
    decreases s.len(),
{
    if s.len() == 0 {
        seq![Seq::empty()]
    } else {
        let before = split_text(s.drop_last(), sep);
        if s.last() == sep {
            before.push(Seq::empty())
        } else {
            before.drop_last().push(before.last().push(s.last()))
        }
    }
}

/// Splits a line into its comma-separated fields.
pub fn split_fields(line: &str) -> (fields: Vec<String>)
    ensures
        fields.deep_view() == split_text(line@, ','),
        fields.len() == field_count(line@),
{
    let n = line.unicode_len();
    let mut fields = no_texts();
    let mut start: usize = 0;
    let mut i: usize = 0;
    assert(line@.take(0) =~= Seq::<char>::empty());
    assert(split_text(line@.take(0), ',') =~= fields.deep_view().push(line@.subrange(0, 0)));
    while i < n
        invariant
            n == line@.len(),
            start <= i <= n,
            split_text(line@.take(i as int), ',') == fields.deep_view().push(
                line@.subrange(start as int, i as int),
            ),
        decreases n - i,
    {
        let ghost before = fields.deep_view();
        let ghost part = line@.subrange(start as int, i as int);
        proof {
            assert(line@.take(i + 1).drop_last() =~= line@.take(i as int));
            assert(line@.take(i + 1).last() == line@[i as int]);
            assert(before.push(part).drop_last() =~= before);
            assert(before.push(part).last() == part);
        }
        if line.get_char(i) == ',' {
            push_text(&mut fields, line.substring_char(start, i).to_owned());
            start = i + 1;
            assert(line@.subrange(start as int, i + 1) =~= Seq::<char>::empty());
        } else {
            assert(line@.subrange(start as int, i + 1) =~= part.push(line@[i as int]));
        }
        i += 1;
    }
    assert(line@.take(n as int) =~= line@);
    push_text(&mut fields, line.substring_char(start, n).to_owned());
    proof {
        lemma_split_len(line@, ',');
        assert(fields.deep_view().len() == fields.len());
    }
    fields
}

/// Joins the parts with `sep` between neighbours.
pub fn join(parts: &Vec<String>, sep: &str) -> (s: String)
    ensures
        s@ == join_text(parts.deep_view(), sep@),
{
    let mut s = String::new();
    let mut i: usize = 0;
    while i < parts.len()
        invariant
            i <= parts.len(),
            s@ == join_text(parts.deep_view().take(i as int), sep@),
        decreases parts.len() - i,
    {
        let ghost all = parts.deep_view();
        proof {
            assert(all.take(i + 1).drop_last() =~= all.take(i as int));
            assert(all.take(i + 1).last() == parts[i as int]@);
        }
        if i > 0 {
            s.append(sep);
        } else {
            assert(s@ =~= Seq::<char>::empty());
            assert(Seq::<char>::empty() + parts[i as int]@ =~= parts[i as int]@);
        }
        s.append(parts[i].as_str());
        i += 1;
    }
    assert(parts.deep_view().take(i as int) =~= parts.deep_view());
    s
}

/// Accumulates the parts from the left, as [`chain_text`] says.
pub fn chain(parts: &Vec<String>, sep: &str) -> (s: String)
    ensures
        s@ == chain_text(parts.deep_view(), sep@),
{
    let mut s = String::new();
    let mut i: usize = 0;
    while i < parts.len()
        invariant
            i <= parts.len(),
            s@ == chain_text(parts.deep_view().take(i as int), sep@),
        decreases parts.len() - i,
    {
        let ghost all = parts.deep_view();
        proof {
            assert(all.take(i + 1).drop_last() =~= all.take(i as int));
            assert(all.take(i + 1).last() == parts[i as int]@);
        }
        if s.as_str().unicode_len() > 0 {
            s.append(sep);
        } else {
            assert(s@ =~= Seq::<char>::empty());
            assert(Seq::<char>::empty() + parts[i as int]@ =~= parts[i as int]@);
        }
        s.append(parts[i].as_str());
        i += 1;
    }
    assert(parts.deep_view().take(i as int) =~= parts.deep_view());
    s
}

/// Replaces every comma of `s` by a vertical bar.
pub fn replace_commas(s: &str) -> (r: String)
    ensures
        r@ == replace_char(s@, ',', '|'),
{
    proof {
        reveal_strlit("|");
    }
    let n = s.unicode_len();
    let mut r = String::new();
    let mut i: usize = 0;
    while i < n
        invariant
            i <= n,
            n == s@.len(),
            "|"@ == seq!['|'],
            r@ == replace_char(s@.take(i as int), ',', '|'),
        decreases n - i,
    {
        if s.get_char(i) == ',' {
            r.append("|");
        } else {
            r.append(s.substring_char(i, i + 1));
        }
        assert(r@ =~= replace_char(s@.take(i + 1), ',', '|'));
        i += 1;
    }
    assert(s@.take(i as int) =~= s@);
    r
}

/// Occurrences add up over concatenation.
pub proof fn lemma_count_concat(a: Seq<char>, b: Seq<char>, c: char)
    ensures
        count_char(a + b, c) == count_char(a, c) + count_char(b, c),
    decreases b.len(),
{
    if b.len() == 0 {
        assert(a + b =~= a);
    } else {
        assert((a + b).drop_last() =~= a + b.drop_last());
        assert((a + b).last() == b.last());
        lemma_count_concat(a, b.drop_last(), c);
    }
}

/// A text holds no `c` exactly when `c` occurs in it zero times.
pub proof fn lemma_free_count(s: Seq<char>, c: char)
    ensures
        free_of(s, c) <==> count_char(s, c) == 0,
    decreases s.len(),
{
    if s.len() > 0 {
        lemma_free_count(s.drop_last(), c);
        if free_of(s, c) {
            assert forall|i: int| 0 <= i < s.drop_last().len() implies s.drop_last()[i] != c by {
                assert(s.drop_last()[i] == s[i]);
            }
            assert(s.last() == s[s.len() - 1]);
        }
        if count_char(s, c) == 0 {
            assert forall|i: int| 0 <= i < s.len() implies s[i] != c by {
                if i < s.len() - 1 {
                    assert(s.drop_last()[i] == s[i]);
                }
            }
        }
    }
}

/// Concatenation keeps a character out when both halves do.
pub proof fn lemma_free_concat(a: Seq<char>, b: Seq<char>, c: char)
    requires
        free_of(a, c),
        free_of(b, c),
    ensures
        free_of(a + b, c),
{
}

/// A decimal numeral holds digits only, so no comma.
pub proof fn lemma_decimal_free(n: nat)
    ensures
        free_of(decimal_text(n), ','),
        decimal_text(n).len() > 0,
    decreases n,
{
    if n >= 10 {
        lemma_decimal_free(n / 10);
    }
}

/// A hexadecimal numeral with its prefix holds no comma.
pub proof fn lemma_hex_free(n: nat)
    ensures
        free_of(hex_text(n), ','),
        hex_text(n).len() > 2,
{
    lemma_hex_digits_free(n);
}

proof fn lemma_hex_digits_free(n: nat)
    ensures
        free_of(hex_digits(n), ','),
        hex_digits(n).len() > 0,
    decreases n,
{
    if n >= 16 {
        lemma_hex_digits_free(n / 16);
    }
}

/// After the replacement of `from` by another character, `from` is gone.
pub proof fn lemma_replace_free(s: Seq<char>, from: char, to: char)
    requires
        from != to,
    ensures
        free_of(replace_char(s, from, to), from),
        replace_char(s, from, to).len() == s.len(),
{
}

/// Joining parts that hold no `c` with a separator that holds none gives a
/// text that holds none.
pub proof fn lemma_join_free(parts: Seq<Seq<char>>, sep: Seq<char>, c: char)
    requires
        all_free_of(parts, c),
        free_of(sep, c),
    ensures
        free_of(join_text(parts, sep), c),
    decreases parts.len(),
{
    if parts.len() == 1 {
        assert(free_of(parts[0], c));
    } else if parts.len() > 1 {
        assert forall|k: int| 0 <= k < parts.drop_last().len() implies free_of(
            #[trigger] parts.drop_last()[k],
            c,
        ) by {
            assert(parts.drop_last()[k] == parts[k]);
        }
        lemma_join_free(parts.drop_last(), sep, c);
        assert(free_of(parts[parts.len() - 1], c));
    }
}

/// Accumulating parts that hold no `c` with a separator that holds none
/// gives a text that holds none.
pub proof fn lemma_chain_free(parts: Seq<Seq<char>>, sep: Seq<char>, c: char)
    requires
        all_free_of(parts, c),
        free_of(sep, c),
    ensures
        free_of(chain_text(parts, sep), c),
    decreases parts.len(),
{
    if parts.len() > 0 {
        assert forall|k: int| 0 <= k < parts.drop_last().len() implies free_of(
            #[trigger] parts.drop_last()[k],
            c,
        ) by {
            assert(parts.drop_last()[k] == parts[k]);
        }
        lemma_chain_free(parts.drop_last(), sep, c);
        assert(free_of(parts[parts.len() - 1], c));
    }
}

/// Where no part is empty, accumulating from the left is joining.
pub proof fn lemma_chain_is_join(parts: Seq<Seq<char>>, sep: Seq<char>)
    requires
        forall|k: int| 0 <= k < parts.len() ==> (#[trigger] parts[k]).len() > 0,
    ensures
        chain_text(parts, sep) == join_text(parts, sep),
        parts.len() > 0 ==> join_text(parts, sep).len() > 0,
    decreases parts.len(),
{
    if parts.len() == 1 {
        assert(chain_text(parts.drop_last(), sep).len() == 0);
        assert(parts[0].len() > 0);
    } else if parts.len() > 1 {
        assert forall|k: int| 0 <= k < parts.drop_last().len() implies (
        #[trigger] parts.drop_last()[k]).len() > 0 by {
            assert(parts.drop_last()[k] == parts[k]);
        }
        lemma_chain_is_join(parts.drop_last(), sep);
    }
}

/// A line made by joining comma-free values with commas has as many fields
/// as there are values.
pub proof fn lemma_join_field_count(parts: Seq<Seq<char>>)
    requires
        parts.len() > 0,
        all_free_of(parts, ','),
    ensures
        field_count(join_text(parts, seq![','])) == parts.len(),
    decreases parts.len(),
{
    let sep = seq![','];
    if parts.len() == 1 {
        assert(free_of(parts[0], ','));
        lemma_free_count(parts[0], ',');
    } else {
        let head = parts.drop_last();
        assert forall|k: int| 0 <= k < head.len() implies free_of(#[trigger] head[k], ',') by {
            assert(head[k] == parts[k]);
        }
        lemma_join_field_count(head);
        assert(free_of(parts[parts.len() - 1], ','));
        lemma_free_count(parts.last(), ',');
        lemma_count_concat(join_text(head, sep) + sep, parts.last(), ',');
        lemma_count_concat(join_text(head, sep), sep, ',');
        assert(count_char(sep.drop_last(), ',') == 0);
        assert(sep.last() == ',');
    }
}

/// Two decimal numerals with a full stop between them hold no comma.
pub proof fn lemma_dotted_free(major: nat, minor: nat)
    ensures
        free_of(dotted_text(major, minor), ','),
        dotted_text(major, minor).len() > 0,
{
    lemma_decimal_free(major);
    lemma_decimal_free(minor);
}

/// A text has one part more than it has separators.
pub proof fn lemma_split_len(s: Seq<char>, sep: char)
    ensures
        split_text(s, sep).len() == count_char(s, sep) + 1,
    decreases s.len(),
{
    if s.len() > 0 {
        lemma_split_len(s.drop_last(), sep);
    }
}

/// Splitting a text that ends in a part without separator: the parts of
/// what stands before, the last of them continued by that part.
proof fn lemma_split_append_plain(s: Seq<char>, tail: Seq<char>, sep: char)
    requires
        free_of(tail, sep),
    ensures
        split_text(s + tail, sep) == split_text(s, sep).drop_last().push(
            split_text(s, sep).last() + tail,
        ),
    decreases tail.len(),
{
    lemma_split_len(s, sep);
    let parts = split_text(s, sep);
    if tail.len() == 0 {
        assert(s + tail =~= s);
        assert(parts.last() + tail =~= parts.last());
        assert(parts.drop_last().push(parts.last()) =~= parts);
    } else {
        let shorter = tail.drop_last();
        assert forall|i: int| 0 <= i < shorter.len() implies shorter[i] != sep by {
            assert(shorter[i] == tail[i]);
        }
        lemma_split_append_plain(s, shorter, sep);
        assert((s + tail).drop_last() =~= s + shorter);
        assert((s + tail).last() == tail.last());
        assert(tail.last() == tail[tail.len() - 1]);
        let before = split_text(s + shorter, sep);
        assert(before.last() == parts.last() + shorter);
        assert(before.drop_last() =~= parts.drop_last());
        assert((parts.last() + shorter).push(tail.last()) =~= parts.last() + tail);
    }
}

/// Joining values that hold no comma and splitting the line again gives
/// the values back, each in its own place.
pub proof fn lemma_split_join(parts: Seq<Seq<char>>)
    requires
        parts.len() > 0,
        all_free_of(parts, ','),
    ensures
        split_text(join_text(parts, seq![',']), ',') == parts,
    decreases parts.len(),
{
    let sep = seq![','];
    if parts.len() == 1 {
        assert(free_of(parts[0], ','));
        lemma_split_append_plain(Seq::empty(), parts[0], ',');
        assert(Seq::<char>::empty() + parts[0] =~= parts[0]);
        assert(split_text(Seq::<char>::empty(), ',') =~= seq![Seq::<char>::empty()]);
        assert(split_text(parts[0], ',') =~= parts);
    } else {
        let head = parts.drop_last();
        assert forall|k: int| 0 <= k < head.len() implies free_of(#[trigger] head[k], ',') by {
            assert(head[k] == parts[k]);
        }
        lemma_split_join(head);
        assert(free_of(parts[parts.len() - 1], ','));
        let line = join_text(head, sep) + sep;
        assert(line.drop_last() =~= join_text(head, sep));
        assert(line.last() == ',');
        assert(split_text(line, ',') == head.push(Seq::<char>::empty()));
        lemma_split_append_plain(line, parts.last(), ',');
        assert(head.push(Seq::<char>::empty()).drop_last() =~= head);
        assert(Seq::<char>::empty() + parts.last() =~= parts.last());
        assert(head.push(parts.last()) =~= parts);
    }
}

/// A line made by joining values with commas has at least one field for
/// each value, whatever the values hold.
pub proof fn lemma_join_field_count_at_least(parts: Seq<Seq<char>>)
    requires
        parts.len() > 0,
    ensures
        field_count(join_text(parts, seq![','])) >= parts.len(),
    decreases parts.len(),
{
    let sep = seq![','];
    if parts.len() > 1 {
        let head = parts.drop_last();
        lemma_join_field_count_at_least(head);
        lemma_count_concat(join_text(head, sep) + sep, parts.last(), ',');
        lemma_count_concat(join_text(head, sep), sep, ',');
        assert(count_char(sep.drop_last(), ',') == 0);
        assert(sep.last() == ',');
    }
}

/// Whether `c` is one of the small letters `a` to `z`.
pub open spec fn is_small_letter(c: char) -> bool {
    'a' <= c && c <= 'z'
}

/// The capital of a small letter from `a` to `z`; any other character
/// unchanged.
pub open spec fn capital_of(c: char) -> char {
    if is_small_letter(c) {
        ((c as u32) - 32) as char
    } else {
        c
    }
}

/// `s` with its small letters from `a` to `z` turned into capitals.
pub open spec fn upper_text(s: Seq<char>) -> Seq<char> {
    Seq::new(s.len(), |i: int| capital_of(s[i]))
}

/// `s` holds none of the small letters `a` to `z`.
pub open spec fn without_small_letters(s: Seq<char>) -> bool {
    forall|i: int| 0 <= i < s.len() ==> !is_small_letter(s[i])
}

/// A text without small letters is its own upper-case form.
pub proof fn lemma_upper_text_fixed(s: Seq<char>)
    requires
        without_small_letters(s),
    ensures
        upper_text(s) == s,
{
    assert(upper_text(s) =~= s);
}

/// Joining parts without small letters with a separator without small
/// letters gives a text without small letters.
pub proof fn lemma_join_without_small_letters(parts: Seq<Seq<char>>, sep: Seq<char>)
    requires
        forall|k: int| 0 <= k < parts.len() ==> without_small_letters(#[trigger] parts[k]),
        without_small_letters(sep),
    ensures
        without_small_letters(join_text(parts, sep)),
    decreases parts.len(),
{
    if parts.len() == 1 {
        assert(without_small_letters(parts[0]));
    } else if parts.len() > 1 {
        assert forall|k: int| 0 <= k < parts.drop_last().len() implies without_small_letters(
            #[trigger] parts.drop_last()[k],
        ) by {
            assert(parts.drop_last()[k] == parts[k]);
        }
        lemma_join_without_small_letters(parts.drop_last(), sep);
        assert(without_small_letters(parts[parts.len() - 1]));
    }
}

/// A number at a fixed width fills that width exactly, whatever the
/// number, and holds no comma.
pub proof fn lemma_fixed_hex_width(n: nat, width: nat)
    ensures
        hex_digits_padded(n, width).len() == width,
        free_of(hex_digits_padded(n, width), ','),
        fixed_hex_text(n, width).len() == width + 2,
        free_of(fixed_hex_text(n, width), ','),
    decreases width,
{
    if width > 0 {
        lemma_fixed_hex_width(n / 16, (width - 1) as nat);
    }
    lemma_free_concat(seq!['0', 'x'], hex_digits_padded(n, width), ',');
}

/// The digits written at a fixed width stand for the number itself,
/// provided the width has room for it: reading them back gives the number.
pub proof fn lemma_fixed_hex_value(n: nat, width: nat)
    requires
        n < pow16(width),
    ensures
        hex_value(hex_digits_padded(n, width)) == n,
    decreases width,
{
    if width > 0 {
        let shorter = hex_digits_padded(n / 16, (width - 1) as nat);
        assert(n / 16 < pow16((width - 1) as nat));
        lemma_fixed_hex_value(n / 16, (width - 1) as nat);
        let digits = hex_digits_padded(n, width);
        assert(digits.drop_last() =~= shorter);
        assert(digits.last() == digit_char((n % 16) as int));
        assert(digit_value(digit_char((n % 16) as int)) == n % 16);
    }
}

/// Eight hexadecimal digits have room for every 32-bit number, sixteen for
/// every 64-bit number.
pub proof fn lemma_pow16_of_field_widths()
    ensures
        pow16(8) == 0x1_0000_0000,
        pow16(16) == 0x1_0000_0000_0000_0000,
{
    reveal_with_fuel(pow16, 17);
}

} // verus!
