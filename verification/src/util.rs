//! Character classes and small predicates over strings and item lists.

use crate::item::Item;
use vstd::prelude::*;

verus! {

/// The Base32 alphabet of RFC 4648, read without regard to case: the
/// letters `A` to `Z` in either case and the digits `2` to `7`.
pub open spec fn base_32_char(c: char) -> bool {
    ('a' <= c && c <= 'z') || ('A' <= c && c <= 'Z') || ('2' <= c && c <= '7')
}

/// The decimal digits `0` to `9`.
pub open spec fn decimal_digit(c: char) -> bool {
    '0' <= c && c <= '9'
}

/// The characters that carry the Unicode property `White_Space`.
pub open spec fn white_space(c: char) -> bool {
    let n = c as u32;
    ||| 0x09 <= n <= 0x0D
    ||| n == 0x20
    ||| n == 0x85
    ||| n == 0xA0
    ||| n == 0x1680
    ||| 0x2000 <= n <= 0x200A
    ||| n == 0x2028
    ||| n == 0x2029
    ||| n == 0x202F
    ||| n == 0x205F
    ||| n == 0x3000
}

/// Every character of `text` is in the Base32 alphabet.
pub open spec fn all_base_32(text: Seq<char>) -> bool {
    forall|i: int| 0 <= i < text.len() ==> base_32_char(#[trigger] text[i])
}

/// Every character of `text` is a decimal digit.
pub open spec fn all_decimal(text: Seq<char>) -> bool {
    forall|i: int| 0 <= i < text.len() ==> decimal_digit(#[trigger] text[i])
}

/// Some character of `text` is white space.
pub open spec fn has_white_space(text: Seq<char>) -> bool {
    exists|i: int| 0 <= i < text.len() && white_space(#[trigger] text[i])
}

/// Some item of `items` carries exactly the label `label`.
pub open spec fn has_label(label: Seq<char>, items: Seq<Item>) -> bool {
    exists|i: int| 0 <= i < items.len() && (#[trigger] items[i]).label@ == label
}


/// Whether `c` is a symbol of the Base32 alphabet, in either case.
pub fn is_base_32_c(c: char) -> (r: bool)
    ensures
        r == base_32_char(c),
{
    (c >= 'a' && c <= 'z') || (c >= 'A' && c <= 'Z') || (c >= '2' && c <= '7')
}


/// Whether `c` is one of the digits `0` to `9`.
pub fn is_decimal_digit(c: char) -> (r: bool)
    ensures
        r == decimal_digit(c),
{
    c >= '0' && c <= '9'
}


/// Whether `c` is white space.
pub fn is_white_space(c: char) -> (r: bool)
    ensures
        r == white_space(c),
{
    let n: u32 = c as u32;
    (0x09 <= n && n <= 0x0D) || n == 0x20 || n == 0x85 || n == 0xA0 || n == 0x1680 || (0x2000 <= n
        && n <= 0x200A) || n == 0x2028 || n == 0x2029 || n == 0x202F || n == 0x205F || n == 0x3000
}


/// Whether `text` holds symbols of the Base32 alphabet only. The empty
/// string does.
pub fn is_base_32(text: &String) -> (r: bool)
    ensures
        r == all_base_32(text@),
{
    let s = text.as_str();
    for c in it: s.chars()
        invariant
            it.seq() == text@,
            forall|i: int| 0 <= i < it.index() ==> base_32_char(#[trigger] text@[i]),
    {
        if !is_base_32_c(c) {
            return false;
        }
    }
    true
}


/// Whether `text` holds decimal digits only. The empty string does.
pub fn is_number(text: &String) -> (r: bool)
    ensures
        r == all_decimal(text@),
{
    let s = text.as_str();
    for c in it: s.chars()
        invariant
            it.seq() == text@,
            forall|i: int| 0 <= i < it.index() ==> decimal_digit(#[trigger] text@[i]),
    {
        if !is_decimal_digit(c) {
            return false;
        }
    }
    true
}


/// Whether some character of `text` is white space.
pub fn contains_white_space(text: &String) -> (r: bool)
    ensures
        r == has_white_space(text@),
{
    let s = text.as_str();
    for c in it: s.chars()
        invariant
            it.seq() == text@,
            forall|i: int| 0 <= i < it.index() ==> !white_space(#[trigger] text@[i]),
    {
        if is_white_space(c) {
            return true;
        }
    }
    false
}


/// Whether some item of `items` carries exactly the label `label`.
pub fn contains_item_label(label: &String, items: &Vec<Item>) -> (r: bool)
    ensures
        r == has_label(label@, items@),
{
    let mut i: usize = 0;
    while i < items.len()
        invariant
            i <= items.len(),
            forall|j: int| 0 <= j < i ==> (#[trigger] items@[j]).label@ != label@,
        decreases items.len() - i,
    {
        if items[i].label == *label {
            return true;
        }
        i = i + 1;
    }
    false
}

} // verus!
