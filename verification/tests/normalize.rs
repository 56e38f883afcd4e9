use incognito_auth::normalize::normalize_username;

#[test]
fn capitals_become_small() {
    assert_eq!(normalize_username("Bob_9"), "bob_9");
    assert_eq!(normalize_username("ALICE"), "alice");
    assert_eq!(normalize_username("already_low"), "already_low");
}

#[test]
fn surrounding_whitespace_goes() {
    assert_eq!(normalize_username("  Alice \t\n"), "alice");
    assert_eq!(normalize_username("a b"), "a b");
    assert_eq!(normalize_username(""), "");
    assert_eq!(normalize_username("   "), "");
}

fn has_white_space_property(c: char) -> bool {
    matches!(
        c,
        '\u{9}'..='\u{d}'
            | ' '
            | '\u{85}'
            | '\u{a0}'
            | '\u{1680}'
            | '\u{2000}'..='\u{200a}'
            | '\u{2028}'
            | '\u{2029}'
            | '\u{202f}'
            | '\u{205f}'
            | '\u{3000}'
    )
}

#[test]
fn exactly_the_whitespace_characters_are_trimmed() {
    let mut trimmed = 0;
    for code in 0..=0x10ffffu32 {
        let c = match char::from_u32(code) {
            Some(c) => c,
            None => {
                assert!((0xd800..=0xdfff).contains(&code));
                continue;
            }
        };
        let text = format!("{}x{}", c, c);
        let lost = normalize_username(&text) == "x";
        assert_eq!(lost, has_white_space_property(c), "U+{:04X}", code);
        if lost {
            trimmed += 1;
        }
    }
    assert_eq!(trimmed, 25);
}

#[test]
fn whitespace_inside_stays() {
    assert_eq!(normalize_username("\u{2003}a\u{3000} b\t"), "a\u{3000} b");
    assert_eq!(normalize_username("\u{a0}\u{85}"), "");
    assert_eq!(normalize_username("\u{200b}x"), "\u{200b}x");
}

#[test]
fn letters_beyond_ascii_are_folded_too() {
    assert_eq!(normalize_username("ÀB"), "àb");
}

#[test]
fn names_that_differ_in_case_normalize_alike() {
    assert_eq!(normalize_username("MiXeD_42"), normalize_username("mixed_42"));
    assert_eq!(normalize_username("MiXeD_42"), normalize_username("MIXED_42"));
}

#[test]
fn normalizing_twice_changes_nothing() {
    let once = normalize_username("Some_Name1");
    assert_eq!(normalize_username(&once), once);
}
