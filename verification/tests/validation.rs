use incognito_auth::flow::{LoginRequest, SignupRequest};
use incognito_auth::text::username_char;
use incognito_auth::validation::{
    check_name_charset, check_name_length, check_password_length, validate_credentials,
    ValidationErrors,
};

fn broken(name_length: bool, name_charset: bool, password_length: bool) -> ValidationErrors {
    ValidationErrors { name_length, name_charset, password_length }
}

#[test]
fn two_character_name_is_rejected() {
    assert_eq!(validate_credentials("ab", "secret"), Err(broken(true, false, false)));
}

#[test]
fn four_character_name_in_alphabet_is_accepted() {
    assert_eq!(validate_credentials("a_b9", "secret"), Ok(()));
}

#[test]
fn name_with_space_is_rejected() {
    assert_eq!(validate_credentials("a b", "secret"), Err(broken(false, true, false)));
}

#[test]
fn five_character_secret_is_rejected() {
    assert_eq!(validate_credentials("alice", "12345"), Err(broken(false, false, true)));
}

#[test]
fn six_character_secret_is_accepted() {
    assert_eq!(validate_credentials("alice", "123456"), Ok(()));
}

#[test]
fn name_length_bounds() {
    assert!(!check_name_length(""));
    assert!(!check_name_length("ab"));
    assert!(check_name_length("abc"));
    assert!(check_name_length(&"a".repeat(50)));
    assert!(!check_name_length(&"a".repeat(51)));
}

#[test]
fn password_length_bounds() {
    assert!(!check_password_length("12345"));
    assert!(check_password_length("123456"));
    assert!(check_password_length(&"p".repeat(128)));
    assert!(!check_password_length(&"p".repeat(129)));
}

#[test]
fn lengths_count_characters_not_bytes() {
    // Three characters, six bytes.
    assert!(check_name_length("äöü"));
    // Five characters, ten bytes.
    assert!(!check_password_length("äöüäö"));
    // 128 characters, 256 bytes.
    assert!(check_password_length(&"é".repeat(128)));
}

#[test]
fn charset_accepts_letters_digits_underscore() {
    assert!(check_name_charset("abcXYZ_0189"));
    assert!(check_name_charset("_"));
    assert!(!check_name_charset(""));
    assert!(!check_name_charset("a-b"));
    assert!(!check_name_charset("a.b"));
    assert!(!check_name_charset("bob\n"));
    assert!(!check_name_charset(" bob"));
    assert!(!check_name_charset("bøb"));
}

#[test]
fn username_alphabet_edges() {
    for c in ['a', 'z', 'A', 'Z', '0', '9', '_'] {
        assert!(username_char(c));
    }
    for c in ['`', '{', '@', '[', '/', ':', '-', ' ', 'é', '\u{ff21}'] {
        assert!(!username_char(c));
    }
}

#[test]
fn every_broken_rule_is_reported() {
    assert_eq!(validate_credentials("a b", "123"), Err(broken(false, true, true)));
    assert_eq!(validate_credentials("", ""), Err(broken(true, true, true)));
    assert_eq!(validate_credentials("a!", "secret"), Err(broken(true, true, false)));
    let long = "x".repeat(51);
    assert_eq!(validate_credentials(&long, &"p".repeat(129)), Err(broken(true, false, true)));
}

#[test]
fn requests_validate_like_the_rules() {
    let signup = SignupRequest { name: "ab".to_string(), password: "12345".to_string() };
    assert_eq!(signup.validate(), Err(broken(true, false, true)));
    let login = LoginRequest { name: "a b c".to_string(), password: "123456".to_string() };
    assert_eq!(login.validate(), Err(broken(false, true, false)));
    let fine = SignupRequest { name: "Bob_1".to_string(), password: "hunter22".to_string() };
    assert_eq!(fine.validate(), Ok(()));
}

#[test]
fn report_lists_fields_in_order() {
    assert_eq!(broken(false, false, false).to_string(), "");
    assert!(broken(false, false, false).is_empty());
    assert!(!broken(false, true, false).is_empty());
    assert_eq!(broken(true, false, false).to_string(), "name: Username must be 3-50 characters");
    assert_eq!(
        broken(false, true, false).to_string(),
        "name: Username can only contain letters, numbers, and underscores"
    );
    assert_eq!(
        broken(false, false, true).to_string(),
        "password: Password must be 6-128 characters"
    );
    assert_eq!(
        broken(true, true, true).to_string(),
        "name: Username must be 3-50 characters, Username can only contain letters, numbers, and underscores\npassword: Password must be 6-128 characters"
    );
    assert_eq!(
        broken(true, false, true).to_string(),
        "name: Username must be 3-50 characters\npassword: Password must be 6-128 characters"
    );
}
