use vault_access::hd_path::{check_numbers_fit, HARDENED};
use vault_access::{parse_hd_path, HDPath, VaultError};

fn values(text: &str) -> Vec<u32> {
    match parse_hd_path(text) {
        Ok(path) => path.values,
        Err(e) => panic!("{} is refused: {:?}", text, e),
    }
}

#[test]
fn standard_path_is_read() {
    assert_eq!(
        values("m/44'/60'/0'/0/0"),
        vec![HARDENED + 44, HARDENED + 60, HARDENED, 0, 0]
    );
}

#[test]
fn hardened_change_level_is_read() {
    assert_eq!(
        values("m/44'/60'/0'/0'/0"),
        vec![0x8000_002C, 0x8000_003C, 0x8000_0000, 0x8000_0000, 0]
    );
}

#[test]
fn path_of_any_depth_is_read() {
    assert_eq!(values("m/1"), vec![1]);
    assert_eq!(
        values("m/1'/2'/3/4/5'/6'/7"),
        vec![HARDENED + 1, HARDENED + 2, 3, 4, HARDENED + 5, HARDENED + 6, 7]
    );
}

#[test]
fn upper_case_notation_is_read() {
    assert_eq!(
        values("M/44H/0H/1H/0/0"),
        vec![HARDENED + 44, HARDENED, HARDENED + 1, 0, 0]
    );
}

#[test]
fn largest_child_number_is_read() {
    assert_eq!(values("m/2147483647"), vec![0x7FFF_FFFF]);
    assert_eq!(values("m/2147483647'"), vec![0xFFFF_FFFF]);
    assert_eq!(values("m/0000000000000000000001"), vec![1]);
}

#[test]
fn malformed_paths_are_invalid() {
    for text in [
        "", "m", "m/", "/", "44'/60'", "n/44'", "m44", "m/44'/x", "m/44''", "m//1", "m/1/",
        "m/'", "m/1 ", " m/1", "m/-1", "m/1h", "m/44'60",
    ] {
        assert_eq!(parse_hd_path(text), Err(VaultError::InvalidPath), "{:?}", text);
    }
}

#[test]
fn child_number_with_the_hardened_bit_is_invalid() {
    assert_eq!(parse_hd_path("m/2147483648"), Err(VaultError::InvalidPath));
    assert_eq!(parse_hd_path("m/2147483648'"), Err(VaultError::InvalidPath));
    assert_eq!(parse_hd_path("m/4294967295"), Err(VaultError::InvalidPath));
}

#[test]
fn number_beyond_32_bits_is_invalid() {
    assert_eq!(parse_hd_path("m/4294967296"), Err(VaultError::InvalidPath));
    assert_eq!(parse_hd_path("m/44'/99999999999999999999/0"), Err(VaultError::InvalidPath));
    assert_eq!(parse_hd_path("x99999999999999999999"), Err(VaultError::InvalidPath));
}

#[test]
fn text_outside_ascii_is_invalid() {
    assert_eq!(parse_hd_path("m/44\u{2019}/60"), Err(VaultError::InvalidPath));
    assert_eq!(parse_hd_path("m/\u{0663}"), Err(VaultError::InvalidPath));
}

#[test]
fn numbers_fit_looks_at_every_run_of_digits() {
    assert!(check_numbers_fit(b""));
    assert!(check_numbers_fit(b"m/44'/60'"));
    assert!(check_numbers_fit(b"4294967295"));
    assert!(!check_numbers_fit(b"4294967296"));
    assert!(check_numbers_fit(b"4294967295/4294967295"));
    assert!(!check_numbers_fit(b"1/42949672950"));
    assert!(check_numbers_fit(b"000000000000000000000000"));
    assert!(check_numbers_fit("9\u{0663}9999999999".as_bytes()) == false);
}

#[test]
fn parsed_path_is_not_the_text_handed_back() {
    let path: HDPath = parse_hd_path("m/7'/8").unwrap();
    assert_eq!(path.values.len(), 2);
    assert_eq!(path.values[0], HARDENED | 7);
    assert_eq!(path.values[1], 8);
}
