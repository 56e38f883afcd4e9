use incognito_auth::config::{parse_origins, parse_port, split_commas, Config, ConfigError};

fn some(text: &str) -> Option<String> {
    Some(text.to_string())
}

#[test]
fn full_settings_are_taken_as_given() {
    let config = Config::from_vars(
        some("postgres://db/users"),
        some("signing-key"),
        some("0.0.0.0"),
        some("8080"),
        some("https://a.example, https://b.example"),
    )
    .unwrap();
    assert_eq!(
        config,
        Config {
            database_url: "postgres://db/users".to_string(),
            jwt_secret: "signing-key".to_string(),
            server_host: "0.0.0.0".to_string(),
            server_port: 8080,
            allowed_origins: vec!["https://a.example".to_string(), "https://b.example".to_string()],
        }
    );
}

#[test]
fn absent_settings_get_their_defaults() {
    let config = Config::from_vars(some("postgres://db"), some("k"), None, None, None).unwrap();
    assert_eq!(config.server_host, "127.0.0.1");
    assert_eq!(config.server_port, 5000);
    assert_eq!(
        config.allowed_origins,
        vec!["http://localhost:3000".to_string(), "http://127.0.0.1:3000".to_string()]
    );
}

#[test]
fn first_missing_setting_is_the_error() {
    assert_eq!(
        Config::from_vars(None, None, None, some("x"), None),
        Err(ConfigError::MissingDatabaseUrl)
    );
    assert_eq!(
        Config::from_vars(some("postgres://db"), None, None, some("x"), None),
        Err(ConfigError::MissingJwtSecret)
    );
    assert_eq!(
        Config::from_vars(some("postgres://db"), some("k"), None, some("http"), None),
        Err(ConfigError::InvalidPort("http".to_string()))
    );
    assert_eq!(
        Config::from_vars(some("postgres://db"), some("k"), None, some("65536"), None),
        Err(ConfigError::InvalidPort("65536".to_string()))
    );
}

#[test]
fn ports_parse_like_unsigned_integers() {
    assert_eq!(parse_port("0"), Some(0));
    assert_eq!(parse_port("5000"), Some(5000));
    assert_eq!(parse_port("65535"), Some(65535));
    assert_eq!(parse_port("65536"), None);
    assert_eq!(parse_port("+80"), Some(80));
    assert_eq!(parse_port("0080"), Some(80));
    assert_eq!(parse_port(""), None);
    assert_eq!(parse_port("+"), None);
    assert_eq!(parse_port("-1"), None);
    assert_eq!(parse_port(" 80"), None);
    assert_eq!(parse_port("80 "), None);
    assert_eq!(parse_port("8_0"), None);
    assert_eq!(parse_port("99999999999999999999999"), None);
    assert_eq!(parse_port("٣"), None);
}

#[test]
fn ports_agree_with_the_standard_parser() {
    let samples = [
        "", "+", "-", "++1", "+-1", "1+", "0", "00", "+0", "-0", "1", "12", "123", "1234", "12345",
        "65534", "65535", "65536", "65545", "70000", "123456", "000000000000065535", "+65535",
        "+65536", "4294967296", "4294967297", "18446744073709551616", "1a", "a1", "0x10", "1.0",
        "1e3", " 1", "1 ", "１２", "6553 5",
    ];
    for text in samples {
        assert_eq!(parse_port(text), text.parse::<u16>().ok(), "{:?}", text);
    }
    for n in 0..70000u32 {
        let text = n.to_string();
        assert_eq!(parse_port(&text), text.parse::<u16>().ok());
    }
}

#[test]
fn commas_cut_a_text_into_pieces() {
    assert_eq!(split_commas("a,b,c"), vec!["a", "b", "c"]);
    assert_eq!(split_commas("abc"), vec!["abc"]);
    assert_eq!(split_commas(""), vec![""]);
    assert_eq!(split_commas(","), vec!["", ""]);
    assert_eq!(split_commas("a,"), vec!["a", ""]);
    assert_eq!(split_commas(",a"), vec!["", "a"]);
    assert_eq!(split_commas("a,,b"), vec!["a", "", "b"]);
    assert_eq!(split_commas("é,ü ,x"), vec!["é", "ü ", "x"]);
}

#[test]
fn pieces_agree_with_the_standard_split() {
    let samples = ["", ",", ",,", "a", "a,b", " a , b ", "http://x:1,http://y:2,", "ä,ö,,ü"];
    for text in samples {
        let expected: Vec<&str> = text.split(',').collect();
        assert_eq!(split_commas(text), expected, "{:?}", text);
    }
}

#[test]
fn origins_lose_every_kind_of_surrounding_whitespace() {
    assert_eq!(
        parse_origins("\u{a0}http://a\u{2003},\u{3000}http://b c\u{85}\r\n"),
        vec!["http://a", "http://b c"]
    );
    assert_eq!(parse_origins(" \t , \u{2028}"), vec!["", ""]);
    assert_eq!(parse_origins("\u{200b}x"), vec!["\u{200b}x"]);
}

#[test]
fn origins_are_trimmed_entries() {
    assert_eq!(parse_origins(" http://a ,http://b\t"), vec!["http://a", "http://b"]);
    assert_eq!(parse_origins(""), vec![""]);
    assert_eq!(parse_origins("x, ,y"), vec!["x", "", "y"]);
}
