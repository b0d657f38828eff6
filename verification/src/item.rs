//! The records of the vault.

use crate::text::{decimal, push_char, push_decimal};
use crate::totp::{generate, generated, GenerationError};
use vstd::prelude::*;

verus! {

/// How many digits a rendered code has.
#[derive(Clone, Copy, Debug, PartialEq, Eq, Structural)]
pub enum Digits {
    Six,
    Seven,
    Eight,
}

/// One stored secret and the parameters of its codes.
#[derive(Clone, Debug, PartialEq)]
pub struct Item {
    pub label: String,
    pub secret: String,
    pub digits: Digits,
    pub split_time: u32,
}

/// An item as plain values.
pub struct ItemView {
    pub label: Seq<char>,
    pub secret: Seq<char>,
    pub digits: Digits,
    pub period: nat,
}

impl View for Item {
    type V = ItemView;

    open spec fn view(&self) -> ItemView {
        ItemView {
            label: self.label@,
            secret: self.secret@,
            digits: self.digits,
            period: self.split_time as nat,
        }
    }
}

/// The items of a list as plain values, in the list's order.
pub open spec fn views(items: Seq<Item>) -> Seq<ItemView> {
    Seq::new(items.len(), |i: int| items[i]@)
}

impl Digits {
    /// The digit count as a number: 6, 7 or 8.
    pub open spec fn count(self) -> nat {
        match self {
            Digits::Six => 6,
            Digits::Seven => 7,
            Digits::Eight => 8,
        }
    }

    /// The digit count as it is written: one character.
    pub open spec fn text(self) -> Seq<char> {
        match self {
            Digits::Six => seq!['6'],
            Digits::Seven => seq!['7'],
            Digits::Eight => seq!['8'],
        }
    }

    /// The digit count that `text` writes, if it writes one.
    pub open spec fn of_text(text: Seq<char>) -> Option<Digits> {
        if text == seq!['6'] {
            Some(Digits::Six)
        } else if text == seq!['7'] {
            Some(Digits::Seven)
        } else if text == seq!['8'] {
            Some(Digits::Eight)
        } else {
            None
        }
    }

    /// The digit count that is `n`, if `n` is 6, 7 or 8.
    pub open spec fn of_count(n: nat) -> Option<Digits> {
        if n == 6 {
            Some(Digits::Six)
        } else if n == 7 {
            Some(Digits::Seven)
        } else if n == 8 {
            Some(Digits::Eight)
        } else {
            None
        }
    }

    /// The digit count as a number.
    pub fn length(&self) -> (n: usize)
        ensures
            n == self.count(),
    {
        match self {
            Digits::Six => 6,
            Digits::Seven => 7,
            Digits::Eight => 8,
        }
    }

    /// The digit count that is `n`.
    pub fn from_length(n: usize) -> (r: Option<Digits>)
        ensures
            r == Digits::of_count(n as nat),
    {
        if n == 6 {
            Some(Digits::Six)
        } else if n == 7 {
            Some(Digits::Seven)
        } else if n == 8 {
            Some(Digits::Eight)
        } else {
            None
        }
    }

    /// The character that writes the digit count.
    pub fn symbol(&self) -> (c: char)
        ensures
            seq![c] == self.text(),
    {
        match self {
            Digits::Six => '6',
            Digits::Seven => '7',
            Digits::Eight => '8',
        }
    }

    /// The digit count as a string: `6`, `7` or `8`.
    pub fn to_string(&self) -> (r: String)
        ensures
            r@ == self.text(),
    {
        let c = self.symbol();
        let mut r = String::new();
        push_char(&mut r, c);
        assert(r@ =~= seq![c]);
        r
    }

    /// Reads a digit count from the text that writes it.
    pub fn parse(text: &str) -> (r: Option<Digits>)
        ensures
            r == Digits::of_text(text@),
    {
        if text.unicode_len() != 1 {
            return None;
        }
        let c = text.get_char(0);
        assert(text@ =~= seq![c]);
        if c == '6' {
            Some(Digits::Six)
        } else if c == '7' {
            Some(Digits::Seven)
        } else if c == '8' {
            Some(Digits::Eight)
        } else {
            assert(seq!['6'][0] == '6' && seq!['7'][0] == '7' && seq!['8'][0] == '8');
            None
        }
    }
}

/// The text that writes a digit count is read as that digit count.
pub proof fn lemma_digits_round_trip(digits: Digits)
    ensures
        Digits::of_text(digits.text()) == Some(digits),
        Digits::of_count(digits.count()) == Some(digits),
{
    assert(seq!['6'][0] == '6' && seq!['7'][0] == '7' && seq!['8'][0] == '8');
}

impl GenerationError {
    /// The error in words.
    pub open spec fn description_text(self) -> Seq<char> {
        match self {
            GenerationError::InvalidEncoding => "The secret is not valid base-32."@,
            GenerationError::EmptySecret => "The secret is empty."@,
            GenerationError::ZeroPeriod => "The period is zero."@,
        }
    }

    /// The error in words.
    pub fn description(&self) -> (r: String)
        ensures
            r@ == self.description_text(),
    {
        match self {
            GenerationError::InvalidEncoding => "The secret is not valid base-32.".to_string(),
            GenerationError::EmptySecret => "The secret is empty.".to_string(),
            GenerationError::ZeroPeriod => "The period is zero.".to_string(),
        }
    }
}

impl ItemView {
    /// The code of the item at `instant`, or why it has none.
    pub open spec fn code(self, instant: nat) -> Result<Seq<char>, GenerationError> {
        generated(self.secret, self.period, self.digits, instant)
    }

    /// The item written out: its four fields between brackets.
    pub open spec fn text(self) -> Seq<char> {
        "("@ + self.label + ", "@ + self.secret + ", "@ + self.digits.text() + ", "@ + decimal(
            self.period,
        ) + ")"@
    }
}

impl Item {
    /// The code of this item that is valid at `reference_seconds`, in
    /// seconds since the epoch, or a description of why it has none.
    pub fn get_code(&self, reference_seconds: u64) -> (r: Result<String, String>)
        ensures
            match r {
                Ok(code) => self@.code(reference_seconds as nat) == Ok::<
                    Seq<char>,
                    GenerationError,
                >(code@),
                Err(reason) => self@.code(reference_seconds as nat) matches Err(e) && reason@
                    == e.description_text(),
            },
    {
        let period = self.split_time as u64;
        match generate(self.secret.as_str(), period, self.digits, reference_seconds) {
            Ok(code) => Ok(code),
            Err(e) => Err(e.description()),
        }
    }

    /// The item written out as `(label, secret, digits, period)`.
    pub fn to_string(&self) -> (r: String)
        ensures
            r@ == self@.text(),
    {
        let mut r = "(".to_string();
        r.append(self.label.as_str());
        r.append(", ");
        r.append(self.secret.as_str());
        r.append(", ");
        push_char(&mut r, self.digits.symbol());
        r.append(", ");
        push_decimal(&mut r, self.split_time);
        r.append(")");
        assert(r@ =~= self@.text());
        r
    }
}

} // verus!
