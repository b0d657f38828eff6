//! Decoding of Base32 text (RFC 4648, section 6).
//!
//! Eight symbols of five bits each carry five bytes. The decoder reads the
//! alphabet without regard to case, drops padding at the end, and accepts
//! a last, shorter group as long as it carries whole bytes.

use crate::util::{all_base_32, base_32_char, is_base_32_c};
use vstd::prelude::*;

verus! {

/// Why a text is not Base32.
#[derive(Clone, Copy, Debug, PartialEq, Eq, Structural)]
pub enum DecodeError {
    /// A character outside the alphabet, or a length that carries no
    /// whole number of bytes.
    InvalidEncoding,
}

/// The five-bit value of a symbol of the alphabet: `A` to `Z` are 0 to
/// 25 in either case, `2` to `7` are 26 to 31.
pub open spec fn symbol_value(c: char) -> nat {
    if 'a' <= c && c <= 'z' {
        (c as u32 - 'a' as u32) as nat
    } else if 'A' <= c && c <= 'Z' {
        (c as u32 - 'A' as u32) as nat
    } else {
        (c as u32 - '2' as u32 + 26) as nat
    }
}

/// `text` without the padding characters `=` at its end.
pub open spec fn unpadded(text: Seq<char>) -> Seq<char>
    decreases text.len(),
{
    if text.len() > 0 && text.last() == '=' {
        unpadded(text.drop_last())
    } else {
        text
    }
}

/// A run of `n` symbols ends on a byte boundary or leaves less than one
/// symbol's worth of spare bits.
pub open spec fn carries_whole_bytes(n: nat) -> bool {
    n % 8 != 1 && n % 8 != 3 && n % 8 != 6
}

/// The number of bytes that `n` symbols carry.
pub open spec fn byte_count(n: nat) -> nat {
    n * 5 / 8
}

/// Bit `place` of a five-bit value, counted from the most significant.
pub open spec fn bit_of(value: nat, place: int) -> nat {
    if place == 0 {
        value / 16 % 2
    } else if place == 1 {
        value / 8 % 2
    } else if place == 2 {
        value / 4 % 2
    } else if place == 3 {
        value / 2 % 2
    } else {
        value % 2
    }
}

/// Bit `k` of what `symbols` carry: the symbols' five-bit values are
/// written one after another, each with its most significant bit first.
pub open spec fn bit_at(symbols: Seq<char>, k: int) -> nat {
    bit_of(symbol_value(symbols[k / 5]), k % 5)
}

/// Byte `j` of what `symbols` carry: the bits `8 * j` to `8 * j + 7`, the
/// first of them the most significant.
pub open spec fn byte_at(symbols: Seq<char>, j: int) -> nat {
    bit_at(symbols, 8 * j) * 128 + bit_at(symbols, 8 * j + 1) * 64 + bit_at(symbols, 8 * j + 2)
        * 32 + bit_at(symbols, 8 * j + 3) * 16 + bit_at(symbols, 8 * j + 4) * 8 + bit_at(
        symbols,
        8 * j + 5,
    ) * 4 + bit_at(symbols, 8 * j + 6) * 2 + bit_at(symbols, 8 * j + 7)
}

/// A value of five bits is the sum of its bits, and so are the parts
/// into which a byte boundary can cut it.
proof fn lemma_five_bits(v: nat)
    requires
        v < 32,
    ensures
        v == (v / 16 % 2) * 16 + (v / 8 % 2) * 8 + (v / 4 % 2) * 4 + (v / 2 % 2) * 2 + v % 2,
        v / 2 == (v / 16 % 2) * 8 + (v / 8 % 2) * 4 + (v / 4 % 2) * 2 + v / 2 % 2,
        v / 4 == (v / 16 % 2) * 4 + (v / 8 % 2) * 2 + v / 4 % 2,
        v / 8 == (v / 16 % 2) * 2 + v / 8 % 2,
        v / 16 == v / 16 % 2,
        v % 16 == (v / 8 % 2) * 8 + (v / 4 % 2) * 4 + (v / 2 % 2) * 2 + v % 2,
        v % 8 == (v / 4 % 2) * 4 + (v / 2 % 2) * 2 + v % 2,
        v % 4 == (v / 2 % 2) * 2 + v % 2,
{
}

/// Bit `b` of the byte at place `r` of group `q` is bit `(8 * r + b) % 5`
/// of the symbol at place `(8 * r + b) / 5` of the group.
proof fn lemma_bit_in_group(symbols: Seq<char>, q: int, r: int, b: int)
    requires
        0 <= q,
        0 <= r < 5,
        0 <= b < 8,
    ensures
        bit_at(symbols, 8 * (5 * q + r) + b) == bit_of(
            symbol_value(symbols[8 * q + (8 * r + b) / 5]),
            (8 * r + b) % 5,
        ),
{
    vstd::arithmetic::div_mod::lemma_fundamental_div_mod_converse(
        8 * (5 * q + r) + b,
        5,
        8 * q + (8 * r + b) / 5,
        (8 * r + b) % 5,
    );
}

/// The byte at the first place of a group: the five bits of one symbol
/// and the upper three of the next.
proof fn lemma_byte_at_place_0(a: nat, b: nat)
    requires
        a < 32,
        b < 32,
    ensures
        bit_of(a, 0) * 128 + bit_of(a, 1) * 64 + bit_of(a, 2) * 32 + bit_of(a, 3) * 16 + bit_of(
            a,
            4,
        ) * 8 + bit_of(b, 0) * 4 + bit_of(b, 1) * 2 + bit_of(b, 2) == a * 8 + b / 4,
{
    lemma_five_bits(a);
    lemma_five_bits(b);
}

/// The byte at the second place of a group: the lower two bits of one
/// symbol, the five of the next and the top bit of a third.
proof fn lemma_byte_at_place_1(a: nat, b: nat, c: nat)
    requires
        a < 32,
        b < 32,
        c < 32,
    ensures
        bit_of(a, 3) * 128 + bit_of(a, 4) * 64 + bit_of(b, 0) * 32 + bit_of(b, 1) * 16 + bit_of(
            b,
            2,
        ) * 8 + bit_of(b, 3) * 4 + bit_of(b, 4) * 2 + bit_of(c, 0) == (a % 4) * 64 + b * 2 + c
            / 16,
{
    lemma_five_bits(a);
    lemma_five_bits(b);
    lemma_five_bits(c);
}

/// The byte at the third place of a group: the lower four bits of one
/// symbol and the upper four of the next.
proof fn lemma_byte_at_place_2(a: nat, b: nat)
    requires
        a < 32,
        b < 32,
    ensures
        bit_of(a, 1) * 128 + bit_of(a, 2) * 64 + bit_of(a, 3) * 32 + bit_of(a, 4) * 16 + bit_of(
            b,
            0,
        ) * 8 + bit_of(b, 1) * 4 + bit_of(b, 2) * 2 + bit_of(b, 3) == (a % 16) * 16 + b / 2,
{
    lemma_five_bits(a);
    lemma_five_bits(b);
}

/// The byte at the fourth place of a group: the lowest bit of one symbol,
/// the five of the next and the upper two of a third.
proof fn lemma_byte_at_place_3(a: nat, b: nat, c: nat)
    requires
        a < 32,
        b < 32,
        c < 32,
    ensures
        bit_of(a, 4) * 128 + bit_of(b, 0) * 64 + bit_of(b, 1) * 32 + bit_of(b, 2) * 16 + bit_of(
            b,
            3,
        ) * 8 + bit_of(b, 4) * 4 + bit_of(c, 0) * 2 + bit_of(c, 1) == (a % 2) * 128 + b * 4 + c
            / 8,
{
    lemma_five_bits(a);
    lemma_five_bits(b);
    lemma_five_bits(c);
}

/// The byte at the last place of a group: the lower three bits of one
/// symbol and the five of the next.
proof fn lemma_byte_at_place_4(a: nat, b: nat)
    requires
        a < 32,
        b < 32,
    ensures
        bit_of(a, 2) * 128 + bit_of(a, 3) * 64 + bit_of(a, 4) * 32 + bit_of(b, 0) * 16 + bit_of(
            b,
            1,
        ) * 8 + bit_of(b, 2) * 4 + bit_of(b, 3) * 2 + bit_of(b, 4) == (a % 8) * 32 + b,
{
    lemma_five_bits(a);
    lemma_five_bits(b);
}

/// The first byte of group `q`, from the symbols of the group.
proof fn lemma_group_byte_0(symbols: Seq<char>, q: int)
    requires
        0 <= q,
    ensures
        ({
            let a = symbol_value(symbols[8 * q]);
            let b = symbol_value(symbols[8 * q + 1]);
            a < 32 && b < 32 ==> byte_at(symbols, 5 * q) == a * 8 + b / 4
        }),
{
    let a = symbol_value(symbols[8 * q]);
    let b = symbol_value(symbols[8 * q + 1]);
    if a < 32 && b < 32 {
        lemma_bit_in_group(symbols, q, 0, 0);
        lemma_bit_in_group(symbols, q, 0, 1);
        lemma_bit_in_group(symbols, q, 0, 2);
        lemma_bit_in_group(symbols, q, 0, 3);
        lemma_bit_in_group(symbols, q, 0, 4);
        lemma_bit_in_group(symbols, q, 0, 5);
        lemma_bit_in_group(symbols, q, 0, 6);
        lemma_bit_in_group(symbols, q, 0, 7);
        lemma_byte_at_place_0(a, b);
    }
}

/// The second byte of group `q`, from the symbols of the group.
proof fn lemma_group_byte_1(symbols: Seq<char>, q: int)
    requires
        0 <= q,
    ensures
        ({
            let a = symbol_value(symbols[8 * q + 1]);
            let b = symbol_value(symbols[8 * q + 2]);
            let c = symbol_value(symbols[8 * q + 3]);
            a < 32 && b < 32 && c < 32 ==> byte_at(symbols, 5 * q + 1) == (a % 4) * 64 + b * 2
                + c / 16
        }),
{
    let a = symbol_value(symbols[8 * q + 1]);
    let b = symbol_value(symbols[8 * q + 2]);
    let c = symbol_value(symbols[8 * q + 3]);
    if a < 32 && b < 32 && c < 32 {
        lemma_bit_in_group(symbols, q, 1, 0);
        lemma_bit_in_group(symbols, q, 1, 1);
        lemma_bit_in_group(symbols, q, 1, 2);
        lemma_bit_in_group(symbols, q, 1, 3);
        lemma_bit_in_group(symbols, q, 1, 4);
        lemma_bit_in_group(symbols, q, 1, 5);
        lemma_bit_in_group(symbols, q, 1, 6);
        lemma_bit_in_group(symbols, q, 1, 7);
        lemma_byte_at_place_1(a, b, c);
    }
}

/// The third byte of group `q`, from the symbols of the group.
proof fn lemma_group_byte_2(symbols: Seq<char>, q: int)
    requires
        0 <= q,
    ensures
        ({
            let a = symbol_value(symbols[8 * q + 3]);
            let b = symbol_value(symbols[8 * q + 4]);
            a < 32 && b < 32 ==> byte_at(symbols, 5 * q + 2) == (a % 16) * 16 + b / 2
        }),
{
    let a = symbol_value(symbols[8 * q + 3]);
    let b = symbol_value(symbols[8 * q + 4]);
    if a < 32 && b < 32 {
        lemma_bit_in_group(symbols, q, 2, 0);
        lemma_bit_in_group(symbols, q, 2, 1);
        lemma_bit_in_group(symbols, q, 2, 2);
        lemma_bit_in_group(symbols, q, 2, 3);
        lemma_bit_in_group(symbols, q, 2, 4);
        lemma_bit_in_group(symbols, q, 2, 5);
        lemma_bit_in_group(symbols, q, 2, 6);
        lemma_bit_in_group(symbols, q, 2, 7);
        lemma_byte_at_place_2(a, b);
    }
}

/// The fourth byte of group `q`, from the symbols of the group.
proof fn lemma_group_byte_3(symbols: Seq<char>, q: int)
    requires
        0 <= q,
    ensures
        ({
            let a = symbol_value(symbols[8 * q + 4]);
            let b = symbol_value(symbols[8 * q + 5]);
            let c = symbol_value(symbols[8 * q + 6]);
            a < 32 && b < 32 && c < 32 ==> byte_at(symbols, 5 * q + 3) == (a % 2) * 128 + b * 4
                + c / 8
        }),
{
    let a = symbol_value(symbols[8 * q + 4]);
    let b = symbol_value(symbols[8 * q + 5]);
    let c = symbol_value(symbols[8 * q + 6]);
    if a < 32 && b < 32 && c < 32 {
        lemma_bit_in_group(symbols, q, 3, 0);
        lemma_bit_in_group(symbols, q, 3, 1);
        lemma_bit_in_group(symbols, q, 3, 2);
        lemma_bit_in_group(symbols, q, 3, 3);
        lemma_bit_in_group(symbols, q, 3, 4);
        lemma_bit_in_group(symbols, q, 3, 5);
        lemma_bit_in_group(symbols, q, 3, 6);
        lemma_bit_in_group(symbols, q, 3, 7);
        lemma_byte_at_place_3(a, b, c);
    }
}

/// The last byte of group `q`, from the symbols of the group.
proof fn lemma_group_byte_4(symbols: Seq<char>, q: int)
    requires
        0 <= q,
    ensures
        ({
            let a = symbol_value(symbols[8 * q + 6]);
            let b = symbol_value(symbols[8 * q + 7]);
            a < 32 && b < 32 ==> byte_at(symbols, 5 * q + 4) == (a % 8) * 32 + b
        }),
{
    let a = symbol_value(symbols[8 * q + 6]);
    let b = symbol_value(symbols[8 * q + 7]);
    if a < 32 && b < 32 {
        lemma_bit_in_group(symbols, q, 4, 0);
        lemma_bit_in_group(symbols, q, 4, 1);
        lemma_bit_in_group(symbols, q, 4, 2);
        lemma_bit_in_group(symbols, q, 4, 3);
        lemma_bit_in_group(symbols, q, 4, 4);
        lemma_bit_in_group(symbols, q, 4, 5);
        lemma_bit_in_group(symbols, q, 4, 6);
        lemma_bit_in_group(symbols, q, 4, 7);
        lemma_byte_at_place_4(a, b);
    }
}

/// `text` can be decoded: after its padding is dropped it holds symbols of
/// the alphabet only, in a number that carries whole bytes.
pub open spec fn decodable(text: Seq<char>) -> bool {
    all_base_32(unpadded(text)) && carries_whole_bytes(unpadded(text).len())
}

/// The bytes that `text` carries.
pub open spec fn decoded(text: Seq<char>) -> Seq<u8> {
    let symbols = unpadded(text);
    Seq::new(byte_count(symbols.len()), |j: int| byte_at(symbols, j) as u8)
}

/// What decoding `text` gives.
pub open spec fn decoding(text: Seq<char>) -> Result<Seq<u8>, DecodeError> {
    if decodable(text) {
        Ok(decoded(text))
    } else {
        Err(DecodeError::InvalidEncoding)
    }
}

fn value_of(c: char) -> (v: u8)
    requires
        base_32_char(c),
    ensures
        v == symbol_value(c),
        v < 32,
{
    let n: u32 = c as u32;
    if c >= 'a' && c <= 'z' {
        (n - 'a' as u32) as u8
    } else if c >= 'A' && c <= 'Z' {
        (n - 'A' as u32) as u8
    } else {
        (n - '2' as u32 + 26) as u8
    }
}

/// The characters of `text`, one by one.
pub fn chars_of(text: &str) -> (chars: Vec<char>)
    ensures
        chars@ == text@,
{
    let mut chars: Vec<char> = Vec::new();
    for c in it: text.chars()
        invariant
            it.seq() == text@,
            chars@ == text@.take(it.index()),
    {
        chars.push(c);
        assert(text@.take(it.index() + 1) =~= text@.take(it.index()).push(c));
    }
    assert(text@.take(text@.len() as int) =~= text@);
    chars
}

proof fn lemma_unpadded_prefix(text: Seq<char>, end: int)
    requires
        0 <= end <= text.len(),
        forall|i: int| end <= i < text.len() ==> text[i] == '=',
    ensures
        unpadded(text) == unpadded(text.take(end)),
    decreases text.len() - end,
{
    if end < text.len() {
        assert(text.last() == '=');
        assert(text.drop_last().take(end) =~= text.take(end));
        lemma_unpadded_prefix(text.drop_last(), end);
    } else {
        assert(text.take(end) =~= text);
    }
}

/// Decodes Base32 text into the bytes it carries.
pub fn decode(text: &str) -> (r: Result<Vec<u8>, DecodeError>)
    ensures
        match r {
            Ok(bytes) => decoding(text@) == Ok::<Seq<u8>, DecodeError>(bytes@),
            Err(e) => decoding(text@) == Err::<Seq<u8>, DecodeError>(e),
        },
{
    let chars = chars_of(text);
    let mut end: usize = chars.len();
    while end > 0 && chars[end - 1] == '='
        invariant
            end <= chars.len(),
            forall|i: int| end <= i < chars.len() ==> chars@[i] == '=',
        decreases end,
    {
        end = end - 1;
    }
    proof {
        lemma_unpadded_prefix(chars@, end as int);
        let body = chars@.take(end as int);
        if end > 0 {
            assert(body.last() == chars@[end - 1]);
        }
        assert(unpadded(body) == body);
    }
    let ghost symbols = chars@.take(end as int);
    assert(symbols == unpadded(text@));

    let mut values: Vec<u8> = Vec::new();
    let mut i: usize = 0;
    while i < end
        invariant
            i <= end <= chars.len(),
            symbols == chars@.take(end as int),
            symbols == unpadded(text@),
            values.len() == i,
            forall|k: int| 0 <= k < i ==> base_32_char(#[trigger] symbols[k]),
            forall|k: int| 0 <= k < i ==> values@[k] < 32,
            forall|k: int| 0 <= k < i ==> values@[k] == symbol_value(#[trigger] symbols[k]),
        decreases end - i,
    {
        let c = chars[i];
        assert(c == symbols[i as int]);
        if !is_base_32_c(c) {
            assert(!all_base_32(symbols));
            return Err(DecodeError::InvalidEncoding);
        }
        values.push(value_of(c));
        i = i + 1;
    }
    assert(all_base_32(symbols));
    let rest = end % 8;
    if rest == 1 || rest == 3 || rest == 6 {
        return Err(DecodeError::InvalidEncoding);
    }
    let count: usize = end / 8 * 5 + rest * 5 / 8;
    assert(count == byte_count(end as nat));
    let mut bytes: Vec<u8> = Vec::new();
    let mut j: usize = 0;
    while j < count
        invariant
            j <= count,
            count == byte_count(end as nat),
            symbols.len() == end,
            values.len() == end,
            bytes.len() == j,
            forall|k: int| 0 <= k < end ==> values@[k] == symbol_value(#[trigger] symbols[k]),
            forall|k: int| 0 <= k < end ==> values@[k] < 32,
            forall|k: int| 0 <= k < j ==> bytes@[k] == byte_at(symbols, k) as u8,
        decreases count - j,
    {
        let g: usize = j / 5 * 8;
        let part = j % 5;
        assert(8 * (j as int + 1) <= 5 * end);
        let ghost q = j as int / 5;
        assert(g == 8 * q && j == 5 * q + part);
        let byte: u8 = if part == 0 {
            proof {
                lemma_group_byte_0(symbols, q);
            }
            values[g] * 8 + values[g + 1] / 4
        } else if part == 1 {
            proof {
                lemma_group_byte_1(symbols, q);
            }
            (values[g + 1] % 4) * 64 + values[g + 2] * 2 + values[g + 3] / 16
        } else if part == 2 {
            proof {
                lemma_group_byte_2(symbols, q);
            }
            (values[g + 3] % 16) * 16 + values[g + 4] / 2
        } else if part == 3 {
            proof {
                lemma_group_byte_3(symbols, q);
            }
            (values[g + 4] % 2) * 128 + values[g + 5] * 4 + values[g + 6] / 8
        } else {
            proof {
                lemma_group_byte_4(symbols, q);
            }
            (values[g + 6] % 8) * 32 + values[g + 7]
        };
        assert(byte == byte_at(symbols, j as int));
        bytes.push(byte);
        j = j + 1;
    }
    assert(bytes@ =~= decoded(text@));
    Ok(bytes)
}

} // verus!
