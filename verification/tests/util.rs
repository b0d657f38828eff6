use otpc::util::{
    contains_item_label, contains_white_space, is_base_32, is_base_32_c, is_decimal_digit,
    is_number, is_white_space,
};
use otpc::{Digits, Item};

#[test]
pub fn test_is_base_32() {
    assert!(is_base_32(&String::from("test")));
}

#[test]
pub fn test_is_base_32_fail() {
    assert!(!is_base_32(&String::from("abc123")));
}

#[test]
pub fn test_is_base_32_c() {
    assert!(is_base_32_c('c'));
}

#[test]
pub fn test_is_base_32_c_fail() {
    assert!(!is_base_32_c('1'));
}

#[test]
pub fn test_is_number() {
    assert!(is_number(&String::from("123")));
}

#[test]
pub fn test_is_number_fail() {
    assert!(!is_number(&String::from("123a")));
}

#[test]
pub fn test_contains_white_space() {
    assert!(!contains_white_space(&String::from("123")));
}

#[test]
pub fn test_contains_white_space_fail_space() {
    assert!(contains_white_space(&String::from("1 23a")));
}

#[test]
pub fn test_contains_white_space_fail_tab() {
    assert!(contains_white_space(&String::from("1\t23a")));
}

#[test]
pub fn test_contains_item_label() {
    let items = vec![
        Item {
            label: String::from("test1"),
            secret: String::from("test"),
            digits: Digits::Six,
            split_time: 30,
        },
        Item {
            label: String::from("test2"),
            secret: String::from("test2"),
            digits: Digits::Six,
            split_time: 30,
        },
    ];

    assert!(contains_item_label(&String::from("test1"), &items));
}

#[test]
pub fn test_contains_item_label_fail() {
    let items = vec![
        Item {
            label: String::from("test1"),
            secret: String::from("test"),
            digits: Digits::Six,
            split_time: 30,
        },
        Item {
            label: String::from("test2"),
            secret: String::from("test2"),
            digits: Digits::Six,
            split_time: 30,
        },
    ];

    assert!(!contains_item_label(&String::from("test3"), &items));
}

#[test]
fn base_32_alphabet_is_read_in_either_case() {
    for c in "ABCDEFGHIJKLMNOPQRSTUVWXYZabcdefghijklmnopqrstuvwxyz234567".chars() {
        assert!(is_base_32_c(c), "{}", c);
    }
    for c in "0189=+/ -_\n".chars() {
        assert!(!is_base_32_c(c), "{}", c);
    }
    assert!(is_base_32(&String::from("JBSWY3DPEHPK3PXP")));
    assert!(is_base_32(&String::new()));
    assert!(!is_base_32(&String::from("JBSWY3DP0")));
}

#[test]
fn numbers_are_ascii_digits_only() {
    assert!(is_number(&String::new()));
    assert!(is_number(&String::from("0030")));
    assert!(!is_number(&String::from("-3")));
    assert!(!is_number(&String::from("3.0")));
    assert!(!is_number(&String::from("\u{0663}")));
    assert!(is_decimal_digit('0'));
    assert!(is_decimal_digit('9'));
    assert!(!is_decimal_digit('/'));
    assert!(!is_decimal_digit(':'));
}

#[test]
fn white_space_is_the_unicode_property() {
    let mut c: u32 = 0;
    while c <= 0x10FFFF {
        if let Some(ch) = char::from_u32(c) {
            assert_eq!(is_white_space(ch), ch.is_whitespace(), "U+{:04X}", c);
        }
        c += 1;
    }
}

#[test]
fn white_space_anywhere_is_found() {
    assert!(contains_white_space(&String::from(" a")));
    assert!(contains_white_space(&String::from("a\n")));
    assert!(contains_white_space(&String::from("a\u{3000}b")));
    assert!(!contains_white_space(&String::new()));
    assert!(!contains_white_space(&String::from("a\u{200B}b")));
}

#[test]
fn labels_are_matched_exactly() {
    let items = vec![Item {
        label: String::from("Work"),
        secret: String::from("test"),
        digits: Digits::Eight,
        split_time: 60,
    }];
    assert!(contains_item_label(&String::from("Work"), &items));
    assert!(!contains_item_label(&String::from("work"), &items));
    assert!(!contains_item_label(&String::from("Wor"), &items));
    assert!(!contains_item_label(&String::from("Work "), &items));
    assert!(!contains_item_label(&String::from("Work"), &Vec::new()));
}
