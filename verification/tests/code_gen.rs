use pds::code_gen::{generate_code, CODE_LEN};

const CHARSET: &[u8] = b"ABCDEFGHIJKLMNOPQRSTUVWXYZ0123456789";

#[test]
fn code_is_6_chars() {
    assert_eq!(generate_code().unwrap().len(), CODE_LEN);
}

#[test]
fn code_is_uppercase_alphanumeric() {
    for _ in 0..50 {
        let code = generate_code().unwrap();
        assert!(
            code.chars().all(|c| c.is_ascii_uppercase() || c.is_ascii_digit()),
            "code contained non-uppercase-alphanumeric char: {code}"
        );
    }
}

#[test]
fn codes_are_drawn_from_charset() {
    for _ in 0..50 {
        let code = generate_code().unwrap();
        for ch in code.chars() {
            assert!(CHARSET.contains(&(ch as u8)), "char {ch:?} is not in CHARSET");
        }
    }
}

#[test]
fn consecutive_codes_are_not_all_identical() {
    let codes: Vec<String> = (0..10).map(|_| generate_code().unwrap()).collect();
    let unique: std::collections::HashSet<_> = codes.iter().collect();
    assert!(unique.len() > 1, "all 10 generated codes were identical");
}

#[test]
fn code_from_bytes_maps_each_byte_into_the_alphabet() {
    // 0 -> 'A', 25 -> 'Z', 26 -> '0', 35 -> '9', 36 wraps to 'A', 255 % 36 = 3 -> 'D'.
    let code = pds::code_gen::code_from_bytes(&[0, 25, 26, 35, 36, 255]);
    assert_eq!(code, "AZ09AD");
}
