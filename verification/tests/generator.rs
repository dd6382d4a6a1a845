use password_generator::charset::{LOWERCASE, NUMBERS, SYMBOLS, UPPERCASE};
use password_generator::error::{EMPTY_CHARSET_MESSAGE, ZERO_LENGTH_MESSAGE};
use password_generator::{generate_password, PasswordError, PasswordGenerator};

fn only(upper: bool, lower: bool, numbers: bool, symbols: bool, length: usize) -> PasswordGenerator {
    PasswordGenerator::new(length)
        .unwrap()
        .with_uppercase(upper)
        .with_lowercase(lower)
        .with_numbers(numbers)
        .with_symbols(symbols)
}

#[test]
fn test_password_generator_new() {
    // Test successful creation with a valid length
    assert!(PasswordGenerator::new(10).is_ok());
    // Test creation failure with a length of 0
    assert!(PasswordGenerator::new(0).is_err());
}

#[test]
fn test_password_generator_length() {
    // Verify that the generated password has the specified length
    let generator = PasswordGenerator::new(15).unwrap();
    let password = generator.generate().unwrap();
    assert_eq!(password.len(), 15);
}

#[test]
fn test_password_generator_charset() {
    // Check that only characters from the specified set are used
    let generator = PasswordGenerator::new(100)
        .unwrap()
        .with_uppercase(true)
        .with_lowercase(false)
        .with_numbers(false)
        .with_symbols(false);
    let password = generator.generate().unwrap();
    assert!(password.chars().all(|c| c.is_ascii_uppercase()));
}

#[test]
fn test_password_generator_all_charsets() {
    // Ensure all character types are present when all sets are enabled
    let generator = PasswordGenerator::new(1000).unwrap();
    let password = generator.generate().unwrap();
    assert!(password.chars().any(|c| c.is_ascii_uppercase()));
    assert!(password.chars().any(|c| c.is_ascii_lowercase()));
    assert!(password.chars().any(|c| c.is_ascii_digit()));
    assert!(password.chars().any(|c| "!@#$%^&*()_+-=[]{}|;:,.<>?".contains(c)));
}

#[test]
fn test_password_generator_no_charset() {
    // Verify that generation fails if no character set is selected
    let generator = PasswordGenerator::new(10)
        .unwrap()
        .with_uppercase(false)
        .with_lowercase(false)
        .with_numbers(false)
        .with_symbols(false);
    assert!(generator.generate().is_err());
}

#[test]
fn test_generate_password_function() {
    // Test the convenience function generate_password
    let password = generate_password(20).unwrap();
    assert_eq!(password.len(), 20);
}

#[test]
fn zero_length_is_refused_with_its_own_error() {
    assert_eq!(PasswordGenerator::new(0).unwrap_err(), PasswordError::ZeroLength);
    assert_eq!(generate_password(0).unwrap_err(), PasswordError::ZeroLength);
}

#[test]
fn zero_length_message_names_the_bound() {
    let message = PasswordGenerator::new(0).unwrap_err().message();
    assert!(message.contains("greater than 0"));
    assert_eq!(message, "Password length must be greater than 0");
    assert_eq!(message, ZERO_LENGTH_MESSAGE);
}

#[test]
fn empty_charset_is_refused_with_its_own_error() {
    let generator = only(false, false, false, false, 10);
    let error = generator.generate().unwrap_err();
    assert_eq!(error, PasswordError::EmptyCharset);
    assert_eq!(error.message(), "No character set selected for password generation");
    assert_eq!(error.message(), EMPTY_CHARSET_MESSAGE);
}

#[test]
fn the_two_errors_differ() {
    assert_ne!(PasswordError::ZeroLength, PasswordError::EmptyCharset);
    assert_ne!(PasswordError::ZeroLength.message(), PasswordError::EmptyCharset.message());
}

#[test]
fn length_one_is_the_shortest_password() {
    let password = PasswordGenerator::new(1).unwrap().generate().unwrap();
    assert_eq!(password.chars().count(), 1);
}

#[test]
fn charset_of_a_fresh_generator_joins_all_classes_in_order() {
    let charset = PasswordGenerator::new(8).unwrap().charset();
    assert_eq!(
        charset,
        "ABCDEFGHIJKLMNOPQRSTUVWXYZabcdefghijklmnopqrstuvwxyz0123456789!@#$%^&*()_+-=[]{}|;:,.<>?"
    );
    assert_eq!(charset.chars().count(), 88);
}

#[test]
fn charset_holds_exactly_the_enabled_classes() {
    assert_eq!(only(true, false, false, false, 8).charset(), UPPERCASE);
    assert_eq!(only(false, true, false, false, 8).charset(), LOWERCASE);
    assert_eq!(only(false, false, true, false, 8).charset(), NUMBERS);
    assert_eq!(only(false, false, false, true, 8).charset(), SYMBOLS);
    assert_eq!(only(false, false, false, false, 8).charset(), "");
    assert_eq!(
        only(true, false, true, false, 8).charset(),
        "ABCDEFGHIJKLMNOPQRSTUVWXYZ0123456789"
    );
    assert_eq!(
        only(false, true, false, true, 8).charset(),
        "abcdefghijklmnopqrstuvwxyz!@#$%^&*()_+-=[]{}|;:,.<>?"
    );
}

#[test]
fn charset_size_is_the_sum_of_the_enabled_classes() {
    for mask in 0..16u32 {
        let (u, l, n, s) = (mask & 1 != 0, mask & 2 != 0, mask & 4 != 0, mask & 8 != 0);
        let expected = 26 * usize::from(u) + 26 * usize::from(l) + 10 * usize::from(n) + 26 * usize::from(s);
        assert_eq!(only(u, l, n, s, 3).charset().len(), expected);
    }
}

#[test]
fn charset_holds_no_character_twice() {
    let charset: Vec<char> = PasswordGenerator::new(8).unwrap().charset().chars().collect();
    for i in 0..charset.len() {
        for j in 0..i {
            assert_ne!(charset[i], charset[j]);
        }
    }
}

#[test]
fn the_last_setting_of_a_switch_wins() {
    let generator = PasswordGenerator::new(4).unwrap().with_uppercase(false).with_uppercase(true);
    assert!(generator.charset().starts_with(UPPERCASE));
    let generator = PasswordGenerator::new(4).unwrap().with_symbols(true).with_symbols(false);
    assert!(!generator.charset().contains('!'));
}

#[test]
fn a_switch_leaves_the_other_classes_alone() {
    let generator = PasswordGenerator::new(4).unwrap().with_numbers(false);
    assert_eq!(
        generator.charset(),
        "ABCDEFGHIJKLMNOPQRSTUVWXYZabcdefghijklmnopqrstuvwxyz!@#$%^&*()_+-=[]{}|;:,.<>?"
    );
}

#[test]
fn twelve_characters_from_all_classes() {
    let password = PasswordGenerator::new(12).unwrap().generate().unwrap();
    assert_eq!(password.chars().count(), 12);
    let allowed = "ABCDEFGHIJKLMNOPQRSTUVWXYZabcdefghijklmnopqrstuvwxyz0123456789!@#$%^&*()_+-=[]{}|;:,.<>?";
    assert!(password.chars().all(|c| allowed.contains(c)));
}

#[test]
fn fifteen_lowercase_letters() {
    let password = only(false, true, false, false, 15).generate().unwrap();
    assert_eq!(password.len(), 15);
    assert!(password.chars().all(|c| c.is_ascii_lowercase()));
}

#[test]
fn twenty_characters_without_uppercase() {
    let password = PasswordGenerator::new(20).unwrap().with_uppercase(false).generate().unwrap();
    assert_eq!(password.len(), 20);
    let allowed = "abcdefghijklmnopqrstuvwxyz0123456789!@#$%^&*()_+-=[]{}|;:,.<>?";
    assert!(password.chars().all(|c| allowed.contains(c)));
}

#[test]
fn a_disabled_class_never_shows() {
    let password = PasswordGenerator::new(500).unwrap().with_uppercase(false).generate().unwrap();
    assert!(!password.chars().any(|c| c.is_ascii_uppercase()));
    let password = PasswordGenerator::new(500).unwrap().with_lowercase(false).generate().unwrap();
    assert!(!password.chars().any(|c| c.is_ascii_lowercase()));
    let password = PasswordGenerator::new(500).unwrap().with_numbers(false).generate().unwrap();
    assert!(!password.chars().any(|c| c.is_ascii_digit()));
    let password = PasswordGenerator::new(500).unwrap().with_symbols(false).generate().unwrap();
    assert!(!password.chars().any(|c| SYMBOLS.contains(c)));
}

#[test]
fn every_character_comes_from_the_generators_charset() {
    for mask in 1..16u32 {
        let generator = only(mask & 1 != 0, mask & 2 != 0, mask & 4 != 0, mask & 8 != 0, 200);
        let charset = generator.charset();
        let password = generator.generate().unwrap();
        assert_eq!(password.chars().count(), 200);
        assert!(password.chars().all(|c| charset.contains(c)));
    }
}

#[test]
fn digits_only() {
    let password = only(false, false, true, false, 64).generate().unwrap();
    assert_eq!(password.len(), 64);
    assert!(password.chars().all(|c| c.is_ascii_digit()));
}

#[test]
fn a_generator_can_be_used_again() {
    let generator = PasswordGenerator::new(40).unwrap();
    let first = generator.generate().unwrap();
    let second = generator.generate().unwrap();
    assert_eq!(first.len(), 40);
    assert_eq!(second.len(), 40);
    assert_ne!(first, second);
}

#[test]
fn generate_password_draws_from_all_classes() {
    let password = generate_password(255).unwrap();
    assert_eq!(password.len(), 255);
    let allowed = PasswordGenerator::new(1).unwrap().charset();
    assert!(password.chars().all(|c| allowed.contains(c)));
}
