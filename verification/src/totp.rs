//! Time-based one-time passwords (RFC 6238 over the HOTP of RFC 4226).
//!
//! A code is a function of the secret, the period, the digit count and the
//! instant that the caller names; nothing here reads a clock.

use crate::base32::{decodable, decode, decoded, DecodeError};
use crate::item::Digits;
use crate::text::{lemma_padded_decimal_shape, padded_decimal, pow10, push_padded_decimal};
use crate::util::all_decimal;
use vstd::prelude::*;

verus! {

/// Why no code could be generated.
#[derive(Clone, Copy, Debug, PartialEq, Eq, Structural)]
pub enum GenerationError {
    /// The secret is not Base32.
    InvalidEncoding,
    /// The secret decodes to no bytes at all.
    EmptySecret,
    /// The period is zero seconds.
    ZeroPeriod,
}

/// The HMAC-SHA1 message authentication code of `message` under `key`
/// (RFC 2104 with the hash SHA-1): twenty bytes that depend on the two
/// arguments alone.
pub uninterp spec fn hmac_sha1(key: Seq<u8>, message: Seq<u8>) -> Seq<u8>;

/// Calls `hmac_sha1::hmac_sha1` of the `hmac-sha1` crate, which computes
/// the HMAC-SHA1 code of a message under a key of any length and returns
/// it as an array of twenty bytes. The contract names that result and
/// states its length.
#[verifier::external_body]
fn authentication_code(key: &Vec<u8>, message: &Vec<u8>) -> (code: Vec<u8>)
    ensures
        code@ == hmac_sha1(key@, message@),
        code@.len() == 20,
{
    hmac_sha1::hmac_sha1(key.as_slice(), message.as_slice()).to_vec()
}

/// The last `width` bytes of `n` in base 256, most significant first.
pub open spec fn big_endian(n: nat, width: nat) -> Seq<u8>
    decreases width,
{
    if width == 0 {
        Seq::empty()
    } else {
        big_endian(n / 256, (width - 1) as nat).push((n % 256) as u8)
    }
}

/// The 31-bit number that dynamic truncation reads out of a code of twenty
/// bytes: the low four bits of the last byte give an offset, and the four
/// bytes from that offset on are read big-endian with the top bit cleared.
pub open spec fn truncated(code: Seq<u8>) -> nat {
    let offset = code[19] as int % 16;
    ((code[offset] as int % 128) * 0x100_0000 + code[offset + 1] as int * 0x1_0000 + code[offset
        + 2] as int * 0x100 + code[offset + 3] as int) as nat
}

/// The one-time password for a counter: the truncated code of the
/// counter's eight bytes, reduced to the digit count and written with
/// leading zeros.
pub open spec fn hotp_code(key: Seq<u8>, counter: nat, digits: Digits) -> Seq<char> {
    let value = truncated(hmac_sha1(key, big_endian(counter, 8)));
    padded_decimal(value % pow10(digits.count()), digits.count())
}

/// A secret from which codes can be generated: Base32 text that carries
/// at least one byte.
#[verifier::opaque]
pub open spec fn valid_secret(secret: Seq<char>) -> bool {
    decodable(secret) && decoded(secret).len() > 0
}

/// What `generate` gives for a secret, a period in seconds, a digit count
/// and an instant in seconds since the epoch.
pub open spec fn generated(secret: Seq<char>, period: nat, digits: Digits, instant: nat) -> Result<
    Seq<char>,
    GenerationError,
> {
    if !decodable(secret) {
        Err(GenerationError::InvalidEncoding)
    } else if decoded(secret).len() == 0 {
        Err(GenerationError::EmptySecret)
    } else if period == 0 {
        Err(GenerationError::ZeroPeriod)
    } else {
        Ok(hotp_code(decoded(secret), instant / period, digits))
    }
}

/// A code has exactly as many characters as the digit count says, all of
/// them decimal digits.
pub proof fn lemma_code_shape(key: Seq<u8>, counter: nat, digits: Digits)
    ensures
        hotp_code(key, counter, digits).len() == digits.count(),
        all_decimal(hotp_code(key, counter, digits)),
{
    let value = truncated(hmac_sha1(key, big_endian(counter, 8)));
    lemma_padded_decimal_shape(value % pow10(digits.count()), digits.count());
}

/// Every valid secret, with a period above zero, yields a code of
/// exactly the digit count's length that holds decimal digits only,
/// whatever the instant.
pub proof fn lemma_generated_shape(secret: Seq<char>, period: nat, digits: Digits, instant: nat)
    requires
        valid_secret(secret),
        period > 0,
    ensures
        generated(secret, period, digits, instant) is Ok,
        generated(secret, period, digits, instant)->Ok_0.len() == digits.count(),
        all_decimal(generated(secret, period, digits, instant)->Ok_0),
{
    reveal(valid_secret);
    lemma_code_shape(decoded(secret), instant / period, digits);
}

/// Two instants in the same step of the period give the same result.
pub proof fn lemma_same_step_same_code(
    secret: Seq<char>,
    period: nat,
    digits: Digits,
    first: nat,
    second: nat,
)
    requires
        period > 0,
        first / period == second / period,
    ensures
        generated(secret, period, digits, first) == generated(secret, period, digits, second),
{
}

/// A secret that is not Base32 yields an error, never a code.
pub proof fn lemma_invalid_secret_fails(
    secret: Seq<char>,
    period: nat,
    digits: Digits,
    instant: nat,
)
    requires
        !decodable(secret),
    ensures
        generated(secret, period, digits, instant) == Err::<Seq<char>, GenerationError>(
            GenerationError::InvalidEncoding,
        ),
{
}

/// Whether codes can be generated from `secret`.
pub fn is_valid_secret(secret: &str) -> (r: bool)
    ensures
        r == valid_secret(secret@),
{
    reveal(valid_secret);
    match decode(secret) {
        Ok(bytes) => bytes.len() > 0,
        Err(_) => false,
    }
}

/// Appends to `out` the last `width` bytes of `n`, most significant first.
fn push_big_endian(out: &mut Vec<u8>, n: u64, width: usize)
    ensures
        final(out)@ == old(out)@ + big_endian(n as nat, width as nat),
    decreases width,
{
    if width == 0 {
        assert(out@ =~= old(out)@ + big_endian(n as nat, 0));
    } else {
        push_big_endian(out, n / 256, width - 1);
        out.push((n % 256) as u8);
        assert(out@ =~= old(out)@ + big_endian(n as nat, width as nat));
    }
}

/// Dynamic truncation of a code of twenty bytes.
pub fn truncate(code: &Vec<u8>) -> (value: u32)
    requires
        code@.len() == 20,
    ensures
        value == truncated(code@),
        value < 0x8000_0000,
{
    let offset: usize = (code[19] % 16) as usize;
    let b0: u32 = (code[offset] % 128) as u32;
    let b1: u32 = code[offset + 1] as u32;
    let b2: u32 = code[offset + 2] as u32;
    let b3: u32 = code[offset + 3] as u32;
    b0 * 0x100_0000 + b1 * 0x1_0000 + b2 * 0x100 + b3
}

fn modulus(digits: Digits) -> (m: u32)
    ensures
        m == pow10(digits.count()),
        m > 0,
{
    proof {
        reveal_with_fuel(pow10, 9);
    }
    match digits {
        Digits::Six => 1_000_000,
        Digits::Seven => 10_000_000,
        Digits::Eight => 100_000_000,
    }
}

/// The one-time password of `key` for `counter`.
pub fn hotp(key: &Vec<u8>, counter: u64, digits: Digits) -> (code: String)
    ensures
        code@ == hotp_code(key@, counter as nat, digits),
{
    let mut message: Vec<u8> = Vec::new();
    push_big_endian(&mut message, counter, 8);
    assert(message@ =~= big_endian(counter as nat, 8));
    let mac = authentication_code(key, &message);
    let value = truncate(&mac) % modulus(digits);
    let mut code = String::new();
    push_padded_decimal(&mut code, value, digits.length());
    assert(code@ =~= hotp_code(key@, counter as nat, digits));
    code
}

/// Generates the code that is valid at `reference_seconds` for a Base32
/// `secret`, a `period` in seconds and a digit count.
pub fn generate(secret: &str, period: u64, digits: Digits, reference_seconds: u64) -> (r: Result<
    String,
    GenerationError,
>)
    ensures
        match r {
            Ok(code) => generated(secret@, period as nat, digits, reference_seconds as nat) == Ok::<
                Seq<char>,
                GenerationError,
            >(code@),
            Err(e) => generated(secret@, period as nat, digits, reference_seconds as nat) == Err::<
                Seq<char>,
                GenerationError,
            >(e),
        },
{
    let key = match decode(secret) {
        Ok(bytes) => bytes,
        Err(DecodeError::InvalidEncoding) => {
            return Err(GenerationError::InvalidEncoding);
        },
    };
    if key.len() == 0 {
        return Err(GenerationError::EmptySecret);
    }
    if period == 0 {
        return Err(GenerationError::ZeroPeriod);
    }
    Ok(hotp(&key, reference_seconds / period, digits))
}

} // verus!
