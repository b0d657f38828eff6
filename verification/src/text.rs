//! Editing and measuring text by characters, and decimal notation.

use crate::util::{all_decimal, decimal_digit, is_decimal_digit};
use unicode_width::UnicodeWidthStr;
use vstd::prelude::*;

verus! {

/// The number of terminal columns that `text` occupies when displayed.
///
/// This is the width that the `unicode-width` crate assigns to a string:
/// a function of the characters alone, fixed by tables of the Unicode
/// standard. It need not be the sum of the widths of the characters.
pub uninterp spec fn display_width(text: Seq<char>) -> nat;

/// Calls `UnicodeWidthStr::width` of the `unicode-width` crate, which
/// returns the displayed width of a string in columns. The contract only
/// names that result.
#[verifier::external_body]
pub(crate) fn text_width(text: &str) -> (width: usize)
    ensures
        width == display_width(text@),
{
    UnicodeWidthStr::width(text)
}

/// Calls `String::push` of the standard library, which appends one
/// character to the end of the string.
#[verifier::external_body]
pub(crate) fn push_char(text: &mut String, c: char)
    ensures
        final(text)@ == old(text)@.push(c),
{
    text.push(c)
}

/// `text` with `c` put in before the character at index `at`, or at the
/// end where `text` has no such character.
pub open spec fn inserted(text: Seq<char>, at: nat, c: char) -> Seq<char> {
    if at < text.len() {
        text.insert(at as int, c)
    } else {
        text.push(c)
    }
}

/// `text` without the character at index `at`; `text` itself where it has
/// no such character.
pub open spec fn removed(text: Seq<char>, at: nat) -> Seq<char> {
    if at < text.len() {
        text.remove(at as int)
    } else {
        text
    }
}

/// Puts `c` into `text` before the character at index `at`, or at the end.
pub fn insert_char(text: &str, at: usize, c: char) -> (r: String)
    ensures
        r@ == inserted(text@, at as nat, c),
        r@.len() == text@.len() + 1,
{
    let n = text.unicode_len();
    let place = if at < n {
        at
    } else {
        n
    };
    let mut r = String::from_str(text.substring_char(0, place));
    push_char(&mut r, c);
    r.append(text.substring_char(place, n));
    assert(r@ =~= inserted(text@, at as nat, c));
    r
}

/// Takes the character at index `at` out of `text`.
pub fn remove_char(text: &str, at: usize) -> (r: String)
    ensures
        r@ == removed(text@, at as nat),
{
    let n = text.unicode_len();
    if at >= n {
        return String::from_str(text);
    }
    let mut r = String::from_str(text.substring_char(0, at));
    r.append(text.substring_char(at + 1, n));
    assert(r@ =~= text@.remove(at as int));
    r
}

/// Ten to the power `e`.
pub open spec fn pow10(e: nat) -> nat
    decreases e,
{
    if e == 0 {
        1
    } else {
        10 * pow10((e - 1) as nat)
    }
}

/// The character that writes the digit `d`, for `d` below ten.
pub open spec fn digit_char(d: nat) -> char {
    ((48 + d) as u8) as char
}

/// The digit that the character `c` writes, for a decimal digit `c`.
pub open spec fn digit_value(c: char) -> nat {
    (c as u32 - 48) as nat
}

/// `n` in decimal notation, without leading zeros.
pub open spec fn decimal(n: nat) -> Seq<char>
    decreases n,
{
    if n < 10 {
        seq![digit_char(n)]
    } else {
        decimal(n / 10).push(digit_char(n % 10))
    }
}

/// The last `width` decimal digits of `n`, most significant first, with
/// zeros in front where `n` has fewer.
pub open spec fn padded_decimal(n: nat, width: nat) -> Seq<char>
    decreases width,
{
    if width == 0 {
        Seq::empty()
    } else {
        padded_decimal(n / 10, (width - 1) as nat).push(digit_char(n % 10))
    }
}

/// The number that a string of decimal digits writes; zero for the empty
/// string.
pub open spec fn decimal_value(text: Seq<char>) -> nat
    decreases text.len(),
{
    if text.len() == 0 {
        0
    } else {
        10 * decimal_value(text.drop_last()) + digit_value(text.last())
    }
}

/// Padded notation has the width asked for and holds decimal digits only.
pub proof fn lemma_padded_decimal_shape(n: nat, width: nat)
    ensures
        padded_decimal(n, width).len() == width,
        all_decimal(padded_decimal(n, width)),
    decreases width,
{
    if width > 0 {
        lemma_padded_decimal_shape(n / 10, (width - 1) as nat);
        let rest = padded_decimal(n / 10, (width - 1) as nat);
        let d = digit_char(n % 10);
        assert(decimal_digit(d));
        assert forall|i: int| 0 <= i < rest.push(d).len() implies decimal_digit(
            #[trigger] rest.push(d)[i],
        ) by {
            if i < rest.len() {
                assert(rest.push(d)[i] == rest[i]);
            }
        }
    }
}

fn digit_of(d: u32) -> (c: char)
    requires
        d < 10,
    ensures
        c == digit_char(d as nat),
{
    (48u8 + d as u8) as char
}

/// Appends to `out` the last `width` decimal digits of `n`.
pub fn push_padded_decimal(out: &mut String, n: u32, width: usize)
    ensures
        final(out)@ == old(out)@ + padded_decimal(n as nat, width as nat),
    decreases width,
{
    if width == 0 {
        assert(out@ =~= old(out)@ + padded_decimal(n as nat, 0));
    } else {
        push_padded_decimal(out, n / 10, width - 1);
        push_char(out, digit_of(n % 10));
        assert(out@ =~= old(out)@ + padded_decimal(n as nat, width as nat));
    }
}

/// Appends to `out` the decimal notation of `n`.
pub fn push_decimal(out: &mut String, n: u32)
    ensures
        final(out)@ == old(out)@ + decimal(n as nat),
    decreases n,
{
    if n >= 10 {
        push_decimal(out, n / 10);
    }
    push_char(out, digit_of(n % 10));
    assert(out@ =~= old(out)@ + decimal(n as nat));
}

/// The decimal notation of a number is one or more decimal digits, and
/// writes that number.
pub proof fn lemma_decimal_round_trip(n: nat)
    ensures
        decimal(n).len() > 0,
        all_decimal(decimal(n)),
        decimal_value(decimal(n)) == n,
    decreases n,
{
    let d = digit_char(n % 10);
    assert(decimal_digit(d) && digit_value(d) == n % 10);
    assert(decimal(n).last() == d);
    if n < 10 {
        assert(decimal(n).drop_last() =~= Seq::<char>::empty());
        assert(decimal_value(Seq::<char>::empty()) == 0);
    } else {
        lemma_decimal_round_trip(n / 10);
        let rest = decimal(n / 10);
        assert(decimal(n).drop_last() =~= rest);
        assert forall|i: int| 0 <= i < decimal(n).len() implies decimal_digit(
            #[trigger] decimal(n)[i],
        ) by {
            if i < rest.len() {
                assert(decimal(n)[i] == rest[i]);
            }
        }
    }
}

/// Taking characters off the end of a string of digits does not make the
/// number it writes larger.
pub proof fn lemma_decimal_value_prefix(text: Seq<char>, k: int)
    requires
        0 <= k <= text.len(),
    ensures
        decimal_value(text.take(k)) <= decimal_value(text),
    decreases text.len() - k,
{
    if k < text.len() {
        assert(text.drop_last().take(k) =~= text.take(k));
        lemma_decimal_value_prefix(text.drop_last(), k);
    } else {
        assert(text.take(k) =~= text);
    }
}

/// What `parse_decimal` gives: the number that `text` writes, where `text`
/// is one or more decimal digits and the number fits in 32 bits.
pub open spec fn parsed_decimal(text: Seq<char>) -> Option<u32> {
    if text.len() > 0 && all_decimal(text) && decimal_value(text) <= u32::MAX {
        Some(decimal_value(text) as u32)
    } else {
        None
    }
}

/// Reads an unsigned number from its decimal notation.
pub fn parse_decimal(text: &str) -> (r: Option<u32>)
    ensures
        r == parsed_decimal(text@),
{
    let mut value: u64 = 0;
    let mut any = false;
    for c in it: text.chars()
        invariant
            it.seq() == text@,
            any == (it.index() > 0),
            all_decimal(text@.take(it.index())),
            value == decimal_value(text@.take(it.index())),
            value <= u32::MAX,
    {
        let ghost before = text@.take(it.index());
        let ghost after = text@.take(it.index() + 1);
        assert(after =~= before.push(c));
        assert(after.drop_last() =~= before);
        if !is_decimal_digit(c) {
            assert(!decimal_digit(text@[it.index()]));
            return None;
        }
        let next: u64 = value * 10 + (c as u64 - 48);
        assert(next == decimal_value(after));
        if next > 0xFFFF_FFFF {
            proof {
                lemma_decimal_value_prefix(text@, it.index() + 1);
            }
            return None;
        }
        value = next;
        any = true;
        assert forall|i: int| 0 <= i < after.len() implies decimal_digit(
            #[trigger] after[i],
        ) by {
            if i < before.len() {
                assert(after[i] == before[i]);
            }
        }
    }
    assert(text@.take(text@.len() as int) =~= text@);
    if any {
        Some(value as u32)
    } else {
        None
    }
}

/// The decimal notation of `n` as a string.
pub fn decimal_string(n: u32) -> (r: String)
    ensures
        r@ == decimal(n as nat),
{
    let mut r = String::new();
    push_decimal(&mut r, n);
    assert(r@ =~= decimal(n as nat));
    r
}

} // verus!
