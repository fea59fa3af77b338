use tbm_application::identity::is_valid_identity_id;
use tbm_application::validation::is_valid_email;
use tbm_application::validation::is_valid_password;
use tbm_application::validation::is_valid_username;

#[test]
fn test_username_validation() {
    assert!(is_valid_username("user123"));
    assert!(is_valid_username("test_user"));
    assert!(is_valid_username("abc"));

    assert!(!is_valid_username("ab")); // too short
    assert!(!is_valid_username("user-name")); // contains dash
    assert!(!is_valid_username("user@name")); // contains @
    assert!(!is_valid_username("")); // empty
}

#[test]
fn test_password_validation() {
    assert!(is_valid_password("password123"));
    assert!(is_valid_password("12345678"));

    assert!(!is_valid_password("1234567")); // too short
    assert!(!is_valid_password("")); // empty
}

#[test]
fn test_email_validation() {
    assert!(is_valid_email("test@example.com"));
    assert!(is_valid_email("user@domain.org"));

    assert!(!is_valid_email("invalid-email"));
    assert!(!is_valid_email(""));
}

#[test]
fn test_username_length_bounds() {
    let fifty = "a".repeat(50);
    assert!(is_valid_username(&fifty));
    let fifty_one = "a".repeat(51);
    assert!(!is_valid_username(&fifty_one));
}

#[test]
fn test_password_length_bounds() {
    let longest = "x".repeat(128);
    assert!(is_valid_password(&longest));
    let too_long = "x".repeat(129);
    assert!(!is_valid_password(&too_long));
}

#[test]
fn test_email_length_bound() {
    let mut local = "a".repeat(254);
    local.push('@');
    assert_eq!(local.chars().count(), 255);
    assert!(is_valid_email(&local));
    let mut long = "a".repeat(255);
    long.push('@');
    assert!(!is_valid_email(&long));
}

#[test]
fn test_helper_lengths_are_counted_in_bytes() {
    // four Hangul characters are twelve UTF-8 bytes: within the password rule
    assert_eq!("비밀번호".len(), 12);
    assert!(is_valid_password("비밀번호"));
    // 85 Hangul characters and an `@` are 256 bytes: over the email bound
    let mut long = "김".repeat(85);
    long.push('@');
    assert!(long.len() > 255);
    assert!(!is_valid_email(&long));
    // the same shape within the byte bound is accepted
    let mut short = "김".repeat(80);
    short.push('@');
    assert!(short.len() <= 255);
    assert!(is_valid_email(&short));
}

#[test]
fn test_identity_id_shape() {
    assert!(is_valid_identity_id("11111111-1111-1111-1111-111111111111"));
    assert!(is_valid_identity_id("a0b1c2d3-e4f5-6789-abcd-ef0123456789"));
    assert!(is_valid_identity_id("A0B1C2D3-E4F5-6789-ABCD-EF0123456789"));

    assert!(!is_valid_identity_id(""));
    assert!(!is_valid_identity_id("11111111111111111111111111111111")); // no hyphens
    assert!(!is_valid_identity_id("11111111-1111-1111-1111-11111111111")); // too short
    assert!(!is_valid_identity_id("11111111-1111-1111-1111-1111111111111")); // too long
    assert!(!is_valid_identity_id("g1111111-1111-1111-1111-111111111111")); // not hex
    assert!(!is_valid_identity_id("11111111x1111-1111-1111-111111111111")); // bad separator
}

#[test]
fn test_identity_id_of_generated_uuid() {
    let id = uuid::Uuid::new_v4().to_string();
    assert!(is_valid_identity_id(&id));
}
