use rusty_key::bot::password_reply;
use rusty_key::domain::{compose_password, generate_password};
use rusty_key::errors::AppError;

const SPECIALS: &str = "!@#$%^&*()-_=+[]{};:,.?";

#[test]
fn domain_password_generator_respects_length() {
    let p = generate_password(24, false).expect("must generate");
    assert_eq!(p.len(), 24);
}

#[test]
fn domain_password_generator_validates_length() {
    let err = generate_password(4, false).expect_err("must fail");
    assert!(matches!(err, AppError::InvalidArgument(_)));
}

#[test]
fn utils_password_generator_respects_length() {
    let p = generate_password(24, false).expect("must generate");
    assert_eq!(p.len(), 24);
}

#[test]
fn utils_password_generator_validates_length() {
    let err = generate_password(4, false).expect_err("must fail");
    assert!(matches!(err, AppError::InvalidArgument(_)));
}

#[test]
fn password_length_bounds_are_inclusive() {
    assert_eq!(generate_password(8, false).unwrap().chars().count(), 8);
    assert_eq!(generate_password(128, true).unwrap().chars().count(), 128);
    assert!(generate_password(7, true).is_err());
    assert!(generate_password(129, false).is_err());
    assert!(generate_password(0, false).is_err());
}

#[test]
fn password_error_names_the_range() {
    assert_eq!(
        generate_password(200, true),
        Err(AppError::InvalidArgument("length must be in range 8..=128".to_string()))
    );
}

#[test]
fn password_without_special_is_alphanumeric() {
    for _ in 0..20 {
        let p = generate_password(40, false).unwrap();
        assert!(p.chars().all(|c| c.is_ascii_alphanumeric()));
    }
}

#[test]
fn password_with_special_has_exactly_one_special() {
    for _ in 0..20 {
        let p = generate_password(16, true).unwrap();
        assert_eq!(p.chars().count(), 16);
        let specials = p.chars().filter(|c| SPECIALS.contains(*c)).count();
        let alnum = p.chars().filter(|c| c.is_ascii_alphanumeric()).count();
        assert_eq!(specials, 1);
        assert_eq!(alnum, 15);
    }
}

#[test]
fn compose_replaces_the_chosen_position() {
    let p = compose_password(b"abcdefgh", true, 3, 0);
    assert_eq!(p, "abc!efgh");
    let p = compose_password(b"abcdefgh", true, 7, 22);
    assert_eq!(p, "abcdefg?");
    let p = compose_password(b"abcdefgh", false, 3, 0);
    assert_eq!(p, "abcdefgh");
}

#[test]
fn password_reply_shows_the_password() {
    let r = password_reply(12, false);
    let prefix = "✨ Сгенерированный пароль:\n";
    assert!(r.starts_with(prefix));
    assert_eq!(r[prefix.len()..].chars().count(), 12);
    assert_eq!(
        password_reply(3, true),
        "❌ Ошибка: неверный аргумент: length must be in range 8..=128"
    );
}
