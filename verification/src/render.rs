//! Rendering of diagnostic lines.

use vstd::prelude::*;
use vstd::string::*;

verus! {

/// The lower-case hexadecimal digit of a nibble.
pub open spec fn hex_digit(nibble: int) -> u8 {
    if nibble < 10 {
        (0x30 + nibble) as u8
    } else {
        (0x61 + nibble - 10) as u8
    }
}

/// The value of the last digit of eight is one; each digit before it counts
/// sixteen times as much.
pub open spec fn place(i: int) -> int {
    if i == 0 {
        0x1000_0000
    } else if i == 1 {
        0x100_0000
    } else if i == 2 {
        0x10_0000
    } else if i == 3 {
        0x1_0000
    } else if i == 4 {
        0x1000
    } else if i == 5 {
        0x100
    } else if i == 6 {
        0x10
    } else {
        1
    }
}

/// The eight hexadecimal digits of a word, the most significant first.
pub open spec fn hex_of(value: u32) -> Seq<u8> {
    Seq::new(8, |i: int| hex_digit(value as int / place(i) % 16))
}

fn digit(nibble: u32) -> (byte: u8)
    requires
        nibble < 16,
    ensures
        byte == hex_digit(nibble as int),
{
    if nibble < 10 {
        0x30 + nibble as u8
    } else {
        0x61 + (nibble as u8 - 10)
    }
}

/// Render a word as eight hexadecimal digits.
pub fn hex8(value: u32) -> (output: [u8; 8])
    ensures
        output@ == hex_of(value),
{
    let output: [u8; 8] = [
        digit(value / 0x1000_0000 % 16),
        digit(value / 0x100_0000 % 16),
        digit(value / 0x10_0000 % 16),
        digit(value / 0x1_0000 % 16),
        digit(value / 0x1000 % 16),
        digit(value / 0x100 % 16),
        digit(value / 0x10 % 16),
        digit(value % 16),
    ];
    assert(output@ =~= hex_of(value));
    output
}

/// Append bytes to a line.
pub fn append(line: &mut Vec<u8>, bytes: &[u8])
    ensures
        final(line)@ == old(line)@ + bytes@,
{
    let mut i: usize = 0;
    while i < bytes.len()
        invariant
            i <= bytes@.len(),
            line@ == old(line)@ + bytes@.take(i as int),
        decreases bytes@.len() - i,
    {
        line.push(bytes[i]);
        i = i + 1;
        assert(bytes@.take(i as int) =~= bytes@.take(i - 1).push(bytes@[i - 1]));
    }
    assert(bytes@.take(i as int) =~= bytes@);
}

/// Append text to a line.
pub fn append_text(line: &mut Vec<u8>, text: &str)
    ensures
        final(line)@ == old(line)@ + text.spec_bytes(),
{
    append(line, text.as_bytes());
}

/// Append a word in hexadecimal to a line.
pub fn append_hex(line: &mut Vec<u8>, value: u32)
    ensures
        final(line)@ == old(line)@ + hex_of(value),
{
    let digits = hex8(value);
    append(line, digits.as_slice());
}

/// A word is the sum of its digits, each times the value of its place.
proof fn lemma_digits(value: u32)
    ensures
        value == 0x1000_0000 * (value as int / 0x1000_0000 % 16) + 0x100_0000 * (value as int
            / 0x100_0000 % 16) + 0x10_0000 * (value as int / 0x10_0000 % 16) + 0x1_0000 * (
        value as int / 0x1_0000 % 16) + 0x1000 * (value as int / 0x1000 % 16) + 0x100 * (
        value as int / 0x100 % 16) + 0x10 * (value as int / 0x10 % 16) + value as int % 16,
{
    let v = value as int;
    assert(v / 0x100 == (v / 0x10) / 16);
    assert(v / 0x1000 == (v / 0x100) / 16);
    assert(v / 0x1_0000 == (v / 0x1000) / 16);
    assert(v / 0x10_0000 == (v / 0x1_0000) / 16);
    assert(v / 0x100_0000 == (v / 0x10_0000) / 16);
    assert(v / 0x1000_0000 == (v / 0x100_0000) / 16);
    assert(v / 0x1000_0000 < 16);
}

/// Eight hexadecimal digits identify the word that they render.
pub proof fn law_hex_identifies_the_word(left: u32, right: u32)
    ensures
        hex_of(left) == hex_of(right) ==> left == right,
{
    if hex_of(left) == hex_of(right) {
        lemma_same_digit(left, right, 0);
        lemma_same_digit(left, right, 1);
        lemma_same_digit(left, right, 2);
        lemma_same_digit(left, right, 3);
        lemma_same_digit(left, right, 4);
        lemma_same_digit(left, right, 5);
        lemma_same_digit(left, right, 6);
        lemma_same_digit(left, right, 7);
        lemma_digits(left);
        lemma_digits(right);
    }
}

proof fn lemma_same_digit(left: u32, right: u32, i: int)
    requires
        hex_of(left) == hex_of(right),
        0 <= i < 8,
    ensures
        left as int / place(i) % 16 == right as int / place(i) % 16,
{
    assert(hex_of(left)[i] == hex_digit(left as int / place(i) % 16));
    assert(hex_of(right)[i] == hex_digit(right as int / place(i) % 16));
    lemma_digit_identifies_the_nibble(left as int / place(i) % 16, right as int / place(i) % 16);
}

proof fn lemma_digit_identifies_the_nibble(left: int, right: int)
    requires
        0 <= left < 16,
        0 <= right < 16,
        hex_digit(left) == hex_digit(right),
    ensures
        left == right,
{
}

/// The value of a hexadecimal digit.
pub open spec fn digit_value(digit: u8) -> int {
    if 0x30 <= digit <= 0x39 {
        digit - 0x30
    } else {
        digit - 0x61 + 10
    }
}

/// Eight digits, each a decimal one or a lower-case letter up to f, read back as the word
/// that they render.
pub proof fn law_digits_read_back(value: u32, digits: [u8; 8])
    requires
        call_ensures(hex8, (value,), digits),
    ensures
        forall|i: int|
            0 <= i < 8 ==> 0x30 <= #[trigger] digits@[i] <= 0x39 || 0x61 <= digits@[i] <= 0x66,
        value == 0x1000_0000 * digit_value(digits@[0]) + 0x100_0000 * digit_value(digits@[1])
            + 0x10_0000 * digit_value(digits@[2]) + 0x1_0000 * digit_value(digits@[3]) + 0x1000
            * digit_value(digits@[4]) + 0x100 * digit_value(digits@[5]) + 0x10 * digit_value(
            digits@[6],
        ) + digit_value(digits@[7]),
{
    assert forall|nibble: int| 0 <= nibble < 16 implies digit_value(#[trigger] hex_digit(nibble))
        == nibble && (0x30 <= hex_digit(nibble) <= 0x39 || 0x61 <= hex_digit(nibble) <= 0x66) by {}
    lemma_digits(value);
    assert forall|i: int| 0 <= i < 8 implies #[trigger] digits@[i] == hex_digit(
        value as int / place(i) % 16,
    ) by {}
}

} // verus!
