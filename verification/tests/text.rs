use rusty_key::text::{
    char_is_space, i64_text, join_texts, parse_bool, parse_usize, same_text, split_words, str_is_blank, trim_text,
};
use rusty_key::domain::PlainEntryInput;
use rusty_key::errors::AppError;

#[test]
fn space_follows_unicode_white_space() {
    for c in ['\t', '\n', '\u{0B}', '\u{0C}', '\r', ' ', '\u{85}', '\u{A0}', '\u{1680}', '\u{2000}', '\u{200A}', '\u{2028}', '\u{2029}', '\u{202F}', '\u{205F}', '\u{3000}'] {
        assert!(char_is_space(c), "{:?}", c);
        assert_eq!(char_is_space(c), c.is_whitespace());
    }
    for c in ['a', '0', '\u{200B}', '\u{180E}', '/', '\u{FEFF}'] {
        assert!(!char_is_space(c), "{:?}", c);
        assert_eq!(char_is_space(c), c.is_whitespace());
    }
}

#[test]
fn trim_matches_std() {
    for s in ["", "   ", "  a b  ", "\u{3000}x\u{A0}", "no-space", " \t\n/add x \r\n"] {
        assert_eq!(trim_text(s), s.trim());
        assert_eq!(str_is_blank(s), s.trim().is_empty());
    }
}

#[test]
fn words_match_split_whitespace() {
    for s in ["", "  ", "/add google me pass", "  a\u{3000}b\tc  d ", "x"] {
        let expected: Vec<String> = s.split_whitespace().map(|w| w.to_string()).collect();
        assert_eq!(split_words(s), expected);
    }
}

#[test]
fn usize_parsing_matches_std() {
    for s in ["0", "16", "+16", "+", "-1", "", "12a", "18446744073709551615", "18446744073709551616", "007", " 1"] {
        assert_eq!(parse_usize(s), s.parse::<usize>().ok(), "{:?}", s);
    }
}

#[test]
fn bool_parsing_matches_std() {
    for s in ["true", "false", "True", "", "1", "truee"] {
        assert_eq!(parse_bool(s), s.parse::<bool>().ok(), "{:?}", s);
    }
}

#[test]
fn integers_are_written_in_decimal() {
    for n in [0i64, 7, 10, -1, 123456789, i64::MAX, i64::MIN] {
        assert_eq!(i64_text(n), n.to_string());
    }
}

#[test]
fn texts_are_joined_and_compared() {
    let parts = vec!["a".to_string(), "bb".to_string(), "c".to_string()];
    assert_eq!(join_texts(&parts, "\n- "), "a\n- bb\n- c");
    assert_eq!(join_texts(&parts[..1], ", "), "a");
    assert_eq!(join_texts(&[], ", "), "");
    assert!(same_text("/add", "/add"));
    assert!(!same_text("/add", "/ad"));
}

fn input(service: &str, login: &str, password: &str) -> PlainEntryInput {
    PlainEntryInput { service: service.to_string(), login: login.to_string(), password: password.to_string(), note: None }
}

#[test]
fn validation_checks_each_field() {
    assert_eq!(input(" \u{3000}", "me", "p").validate().unwrap_err(), AppError::EmptyServiceName);
    assert_eq!(input("g", "  ", "p").validate().unwrap_err(), AppError::EmptyLogin);
    assert_eq!(input("g", "me", "").validate().unwrap_err(), AppError::EmptyPassword);
    assert_eq!(input("", "", "").validate().unwrap_err(), AppError::EmptyServiceName);
    let ok = input(" g ", "me", " ").validate().unwrap();
    assert_eq!(ok.service, " g ");
    assert_eq!(ok.password, " ");
}

#[test]
fn error_messages() {
    assert_eq!(AppError::EntryNotFound.message(), "запись не найдена");
    assert_eq!(AppError::InvalidArgument("x".to_string()).message(), "неверный аргумент: x");
    assert_eq!(AppError::Storage("disk".to_string()).message(), "ошибка хранилища: disk");
}
