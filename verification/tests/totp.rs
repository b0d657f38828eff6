use otpc::base32::{decode, DecodeError};
use otpc::totp::{generate, hotp, is_valid_secret, truncate, GenerationError};
use otpc::{Digits, Item};

const RFC_SECRET: &str = "GEZDGNBVGY3TQOJQGEZDGNBVGY3TQOJQ";

#[test]
fn decodes_the_rfc_4648_vectors() {
    assert_eq!(decode(""), Ok(Vec::new()));
    assert_eq!(decode("MY======"), Ok(b"f".to_vec()));
    assert_eq!(decode("MZXQ===="), Ok(b"fo".to_vec()));
    assert_eq!(decode("MZXW6==="), Ok(b"foo".to_vec()));
    assert_eq!(decode("MZXW6YQ="), Ok(b"foob".to_vec()));
    assert_eq!(decode("MZXW6YTB"), Ok(b"fooba".to_vec()));
    assert_eq!(decode("MZXW6YTBOI======"), Ok(b"foobar".to_vec()));
}

#[test]
fn decodes_without_padding_and_in_lower_case() {
    assert_eq!(decode("MY"), Ok(b"f".to_vec()));
    assert_eq!(decode("mzxw6ytboi"), Ok(b"foobar".to_vec()));
    assert_eq!(decode("MzXw6YtBoI"), Ok(b"foobar".to_vec()));
    assert_eq!(
        decode("JBSWY3DPEHPK3PXP"),
        Ok(vec![72, 101, 108, 108, 111, 33, 222, 173, 190, 239])
    );
    assert_eq!(decode(RFC_SECRET), Ok(b"12345678901234567890".to_vec()));
    assert_eq!(decode("77777777"), Ok(vec![255, 255, 255, 255, 255]));
    assert_eq!(decode("AAAAAAAA"), Ok(vec![0, 0, 0, 0, 0]));
}

#[test]
fn padding_alone_carries_nothing() {
    assert_eq!(decode("="), Ok(Vec::new()));
    assert_eq!(decode("========"), Ok(Vec::new()));
}

#[test]
fn rejects_characters_outside_the_alphabet() {
    assert_eq!(decode("MZXW1YTB"), Err(DecodeError::InvalidEncoding));
    assert_eq!(decode("MZXW0YTB"), Err(DecodeError::InvalidEncoding));
    assert_eq!(decode("MZXW8YTB"), Err(DecodeError::InvalidEncoding));
    assert_eq!(decode("MZ XW"), Err(DecodeError::InvalidEncoding));
    assert_eq!(decode("MY=Q"), Err(DecodeError::InvalidEncoding));
    assert_eq!(decode("=MY"), Err(DecodeError::InvalidEncoding));
    assert_eq!(decode("M\u{00E9}"), Err(DecodeError::InvalidEncoding));
}

#[test]
fn rejects_lengths_that_carry_no_whole_bytes() {
    assert_eq!(decode("M"), Err(DecodeError::InvalidEncoding));
    assert_eq!(decode("MZX"), Err(DecodeError::InvalidEncoding));
    assert_eq!(decode("MZXW6Y"), Err(DecodeError::InvalidEncoding));
    assert_eq!(decode("MZXW6YTBO"), Err(DecodeError::InvalidEncoding));
    assert_eq!(decode("M======="), Err(DecodeError::InvalidEncoding));
    assert!(decode("MZXW").is_ok());
    assert!(decode("MZXW6").is_ok());
    assert!(decode("MZXW6YT").is_ok());
}

#[test]
fn truncation_follows_the_rfc_4226_example() {
    let code: Vec<u8> = vec![
        0x1f, 0x86, 0x98, 0x69, 0x0e, 0x02, 0xca, 0x16, 0x61, 0x85, 0x50, 0xef, 0x7f, 0x19, 0xda,
        0x8e, 0x94, 0x5b, 0x55, 0x5a,
    ];
    assert_eq!(truncate(&code), 0x50ef7f19);
    let mut high = vec![0xffu8; 20];
    high[19] = 0xf0;
    assert_eq!(truncate(&high), 0x7fff_ffff);
    let mut last = vec![0u8; 20];
    last[19] = 0x0f;
    last[15] = 0x81;
    last[18] = 0x02;
    assert_eq!(truncate(&last), 0x0100_0002);
}

#[test]
fn hotp_follows_the_rfc_4226_vectors() {
    let key = b"12345678901234567890".to_vec();
    let expected = [
        "755224", "287082", "359152", "969429", "338314", "254676", "287922", "162583", "399871",
        "520489",
    ];
    for (counter, code) in expected.iter().enumerate() {
        assert_eq!(hotp(&key, counter as u64, Digits::Six), *code);
    }
}

#[test]
fn totp_follows_the_rfc_6238_vectors() {
    let vectors: [(u64, &str); 6] = [
        (59, "94287082"),
        (1111111109, "07081804"),
        (1111111111, "14050471"),
        (1234567890, "89005924"),
        (2000000000, "69279037"),
        (20000000000, "65353130"),
    ];
    for (instant, code) in vectors.iter() {
        assert_eq!(generate(RFC_SECRET, 30, Digits::Eight, *instant), Ok(String::from(*code)));
    }
    assert_eq!(generate(RFC_SECRET, 30, Digits::Six, 59), Ok(String::from("287082")));
    assert_eq!(generate(RFC_SECRET, 30, Digits::Seven, 59), Ok(String::from("4287082")));
}

#[test]
fn known_vector_for_the_short_secret() {
    assert_eq!(generate("GEZDGNBVGY3TQOJQ", 30, Digits::Six, 59), Ok(String::from("263420")));
    assert_eq!(
        generate("GEZDGNBVGY3TQOJQ", 30, Digits::Six, 1111111109),
        Ok(String::from("343526"))
    );
    assert_eq!(generate("JBSWY3DPEHPK3PXP", 30, Digits::Six, 0), Ok(String::from("282760")));
    assert_eq!(generate("jbswy3dpehpk3pxp", 30, Digits::Six, 0), Ok(String::from("282760")));
}

#[test]
fn codes_keep_their_leading_zeros() {
    assert_eq!(generate(RFC_SECRET, 30, Digits::Six, 1080), Ok(String::from("003784")));
    assert_eq!(generate(RFC_SECRET, 30, Digits::Eight, 1080), Ok(String::from("64003784")));
    assert_eq!(generate("GEZDGNBVGY3TQOJQ", 30, Digits::Six, 60), Ok(String::from("092045")));
}

#[test]
fn codes_have_the_length_asked_for_and_digits_only() {
    let secrets = ["GEZDGNBVGY3TQOJQ", "JBSWY3DPEHPK3PXP", "test", "MY", RFC_SECRET];
    let periods: [u64; 4] = [1, 30, 60, u64::MAX];
    let instants: [u64; 5] = [0, 1, 59, 1700000000, u64::MAX];
    for secret in secrets.iter() {
        for period in periods.iter() {
            for instant in instants.iter() {
                for (digits, length) in [(Digits::Six, 6), (Digits::Seven, 7), (Digits::Eight, 8)] {
                    let code = generate(secret, *period, digits, *instant).unwrap();
                    assert_eq!(code.len(), length);
                    assert!(code.chars().all(|c| c.is_ascii_digit()));
                }
            }
        }
    }
}

#[test]
fn instants_of_one_step_share_a_code() {
    let first = generate(RFC_SECRET, 30, Digits::Six, 30).unwrap();
    for instant in 30..60 {
        assert_eq!(generate(RFC_SECRET, 30, Digits::Six, instant).unwrap(), first);
    }
    assert_eq!(generate("test", 7, Digits::Eight, 14), generate("test", 7, Digits::Eight, 20));
}

#[test]
fn the_code_changes_with_the_step() {
    assert_eq!(generate("GEZDGNBVGY3TQOJQ", 30, Digits::Six, 29), Ok(String::from("891490")));
    assert_eq!(generate("GEZDGNBVGY3TQOJQ", 30, Digits::Six, 30), Ok(String::from("263420")));
    assert_ne!(
        generate(RFC_SECRET, 30, Digits::Eight, 59),
        generate(RFC_SECRET, 30, Digits::Eight, 60)
    );
}

#[test]
fn invalid_secrets_yield_an_error() {
    assert_eq!(generate("GEZDGNBV1", 30, Digits::Six, 59), Err(GenerationError::InvalidEncoding));
    assert_eq!(generate("GEZDGNBV0", 30, Digits::Six, 59), Err(GenerationError::InvalidEncoding));
    assert_eq!(generate("abc123", 30, Digits::Six, 59), Err(GenerationError::InvalidEncoding));
    assert_eq!(generate("M", 30, Digits::Six, 59), Err(GenerationError::InvalidEncoding));
    assert_eq!(generate("", 30, Digits::Six, 59), Err(GenerationError::EmptySecret));
    assert_eq!(generate("====", 30, Digits::Six, 59), Err(GenerationError::EmptySecret));
    assert_eq!(generate(RFC_SECRET, 0, Digits::Six, 59), Err(GenerationError::ZeroPeriod));
    assert_eq!(generate("1", 0, Digits::Six, 59), Err(GenerationError::InvalidEncoding));
}

#[test]
fn valid_secrets_carry_at_least_one_byte() {
    assert!(is_valid_secret("MY"));
    assert!(is_valid_secret("my======"));
    assert!(is_valid_secret(RFC_SECRET));
    assert!(!is_valid_secret(""));
    assert!(!is_valid_secret("="));
    assert!(!is_valid_secret("M"));
    assert!(!is_valid_secret("M1"));
    assert!(!is_valid_secret("MZX"));
}

#[test]
fn items_render_their_codes() {
    let item = Item {
        label: String::from("rfc"),
        secret: String::from(RFC_SECRET),
        digits: Digits::Eight,
        split_time: 30,
    };
    assert_eq!(item.get_code(59), Ok(String::from("94287082")));
    assert_eq!(item.to_string(), format!("(rfc, {}, 8, 30)", RFC_SECRET));
    let broken = Item { secret: String::from("abc123"), ..item.clone() };
    assert_eq!(broken.get_code(59), Err(String::from("The secret is not valid base-32.")));
    let empty = Item { secret: String::new(), ..item.clone() };
    assert_eq!(empty.get_code(59), Err(String::from("The secret is empty.")));
    let still = Item { split_time: 0, ..item.clone() };
    assert_eq!(still.get_code(59), Err(String::from("The period is zero.")));
    assert_eq!(Digits::Six.to_string(), "6");
    assert_eq!(Digits::Seven.to_string(), "7");
    assert_eq!(Digits::Eight.to_string(), "8");
    assert_eq!(Digits::parse("7"), Some(Digits::Seven));
    assert_eq!(Digits::parse("9"), None);
    assert_eq!(Digits::parse("66"), None);
    assert_eq!(Digits::parse(""), None);
}
