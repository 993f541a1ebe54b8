use simplefileshare::hex::to_lower_hex;
use simplefileshare::utils::{
    alphabet_piece, check_token, check_uuid, hashed_filename, ramdom_string, storage_name_for,
};

#[test]
fn token_of_six_letters_and_digits_is_accepted() {
    assert!(check_token("abc123", 6, 32));
    assert!(check_token("ABCdef0123456789ABCdef0123456789", 6, 32));
}

#[test]
fn token_of_length_5_or_33_is_rejected() {
    assert!(!check_token("abc12", 6, 32));
    assert!(!check_token("ABCdef0123456789ABCdef0123456789x", 6, 32));
}

#[test]
fn token_with_other_characters_is_rejected() {
    assert!(!check_token("abc-123", 6, 32));
    assert!(!check_token("abc 123", 6, 32));
    assert!(!check_token("abc123\n", 6, 32));
    assert!(!check_token("abcd\u{e9}f", 6, 32));
    assert!(!check_token("", 6, 32));
}

#[test]
fn the_bounds_of_the_length_are_the_callers() {
    assert!(check_token("", 0, 5));
    assert!(check_token("a", 1, 1));
    assert!(!check_token("ab", 1, 1));
    assert!(!check_token("abc", 5, 2));
    assert!(check_token(&"z".repeat(100), 100, 100));
}

#[test]
fn token_check_agrees_with_the_pattern() {
    let pattern = regex::Regex::new(r"^[a-zA-Z0-9]+$").unwrap();
    let samples = [
        "abcdef", "ABCDEF", "012345", "abc_123", "abc.123", "abcdefghijklmnopqrstuvwxyz",
        "a", "zzzzzz", "ZZZZZZ", "999999", "abcde/", "abcde:", "abcde@", "abcde[", "abcde`",
        "abcde{", "абвгде", "abc123\r\n",
    ];
    for s in samples {
        let expected = s.len() >= 6 && s.len() <= 32 && pattern.is_match(s);
        assert_eq!(check_token(s, 6, 32), expected, "{:?}", s);
    }
}

#[test]
fn canonical_identifier_is_accepted() {
    assert!(check_uuid("123e4567-e89b-12d3-a456-426614174000"));
    assert!(check_uuid("ABCDEF01-2345-6789-abcd-ef0123456789"));
}

#[test]
fn malformed_identifier_is_rejected() {
    assert!(!check_uuid(""));
    assert!(!check_uuid("123e4567e89b12d3a456426614174000"));
    assert!(!check_uuid("123e4567-e89b-12d3-a456-42661417400"));
    assert!(!check_uuid("123e4567-e89b-12d3-a456-4266141740000"));
    assert!(!check_uuid("123e4567-e89b-12d3-a456-42661417400g"));
    assert!(!check_uuid("123e4567_e89b-12d3-a456-426614174000"));
    assert!(!check_uuid("123e4567-e89b-12d3-a456-426614174000\n"));
    assert!(!check_uuid("{123e4567-e89b-12d3-a456-426614174000}"));
}

#[test]
fn identifier_check_agrees_with_the_pattern() {
    let pattern = regex::Regex::new(
        r"^[a-fA-F0-9]{8}-[a-fA-F0-9]{4}-[a-fA-F0-9]{4}-[a-fA-F0-9]{4}-[a-fA-F0-9]{12}$",
    )
    .unwrap();
    let samples = [
        "00000000-0000-0000-0000-000000000000",
        "ffffffff-ffff-ffff-ffff-ffffffffffff",
        "FFFFFFFF-FFFF-FFFF-FFFF-FFFFFFFFFFFF",
        "gfffffff-ffff-ffff-ffff-ffffffffffff",
        "ffffffff-ffff-ffff-ffff-fffffffffff",
        "ffffffffffff-ffff-ffff-ffff-ffffffff",
        "ffffffff-ffff-ffff-ffff-ffffffffffff ",
        " ffffffff-ffff-ffff-ffff-ffffffffffff",
        "ffffffff-ffff-ffff-ffff-fffffffffffé",
        "ffffffff:ffff:ffff:ffff:ffffffffffff",
        "/fffffff-ffff-ffff-ffff-ffffffffffff",
        ":fffffff-ffff-ffff-ffff-ffffffffffff",
        "@fffffff-ffff-ffff-ffff-ffffffffffff",
        "Gfffffff-ffff-ffff-ffff-ffffffffffff",
        "`fffffff-ffff-ffff-ffff-ffffffffffff",
    ];
    for s in samples {
        assert_eq!(check_uuid(s), pattern.is_match(s), "{:?}", s);
    }
}

#[test]
fn alphabet_runs_from_a_to_9() {
    assert_eq!(alphabet_piece(0), "a");
    assert_eq!(alphabet_piece(25), "z");
    assert_eq!(alphabet_piece(26), "A");
    assert_eq!(alphabet_piece(51), "Z");
    assert_eq!(alphabet_piece(52), "0");
    assert_eq!(alphabet_piece(61), "9");
}

#[test]
fn fresh_token_has_the_length_asked_for() {
    for len in [0usize, 1, 12, 32, 100] {
        let token = ramdom_string(len);
        assert_eq!(token.len(), len);
        assert!(token.chars().all(|c| c.is_ascii_alphanumeric()));
    }
    assert!(check_token(&ramdom_string(12), 6, 32));
}

#[test]
fn fresh_tokens_differ() {
    assert_ne!(ramdom_string(32), ramdom_string(32));
}

#[test]
fn hex_of_small_numbers() {
    assert_eq!(to_lower_hex(0), "0");
    assert_eq!(to_lower_hex(9), "9");
    assert_eq!(to_lower_hex(10), "a");
    assert_eq!(to_lower_hex(15), "f");
    assert_eq!(to_lower_hex(16), "10");
    assert_eq!(to_lower_hex(255), "ff");
    assert_eq!(to_lower_hex(0xdead_beef), "deadbeef");
}

#[test]
fn hex_of_large_numbers() {
    assert_eq!(to_lower_hex(u128::MAX), "ffffffffffffffffffffffffffffffff");
    assert_eq!(to_lower_hex(1u128 << 127), "80000000000000000000000000000000");
    let value = 0x0123_4567_89ab_cdef_0fed_cba9_8765_4321u128;
    assert_eq!(to_lower_hex(value), "123456789abcdef0fedcba987654321");
    assert_eq!(to_lower_hex(value), format!("{:x}", value));
}

#[test]
fn storage_name_is_the_salted_digest_in_hex() {
    for (name, salt) in [("a.txt", 0u64), ("a.txt", 1), ("report.pdf", u64::MAX), ("é.txt", 42)] {
        let digest = xxhash_rust::xxh3::xxh3_128_with_seed(name.as_bytes(), salt);
        assert_eq!(storage_name_for(name, salt), format!("{:x}", digest));
    }
}

#[test]
fn storage_name_depends_on_the_salt() {
    assert_ne!(storage_name_for("a.txt", 1), storage_name_for("a.txt", 2));
    assert_ne!(storage_name_for("a.txt", 1), "a.txt");
}

#[test]
fn two_names_for_one_file_name_differ() {
    let first = hashed_filename("a.txt");
    let second = hashed_filename("a.txt");
    assert_ne!(first, second);
    for name in [first, second] {
        assert!(!name.is_empty() && name.len() <= 32);
        assert!(name.chars().all(|c| c.is_ascii_digit() || ('a'..='f').contains(&c)));
    }
}
