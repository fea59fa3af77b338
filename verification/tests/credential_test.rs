use tbm_application::credential::hash_password;
use tbm_application::credential::verify_password;
use tbm_application::credential::CredentialError;

#[test]
fn test_hash_then_verify_accepts_the_password() {
    let credential = hash_password("correct horse battery").unwrap();
    assert_eq!(credential.len(), 60);
    assert!(verify_password("correct horse battery", &credential).unwrap());
}

#[test]
fn test_verify_rejects_a_different_password() {
    let credential = hash_password("password-one").unwrap();
    assert!(!verify_password("password-two", &credential).unwrap());
    assert!(!verify_password("", &credential).unwrap());
}

#[test]
fn test_hashing_twice_gives_different_credentials() {
    let first = hash_password("same password").unwrap();
    let second = hash_password("same password").unwrap();
    assert_ne!(first, second); // salted: fresh salt each time
    // yet both verify
    assert!(verify_password("same password", &first).unwrap());
    assert!(verify_password("same password", &second).unwrap());
}

#[test]
fn test_verify_errors_on_malformed_credential() {
    let result = verify_password("whatever", "not-a-bcrypt-hash");
    assert_eq!(result.unwrap_err(), CredentialError::HashingFailure);
}

#[test]
fn test_hash_agrees_with_plain_bcrypt() {
    // The credential the library produces is an ordinary bcrypt hash string:
    // the bcrypt crate itself verifies the password against it.
    let credential = hash_password("interop check").unwrap();
    assert!(bcrypt::verify("interop check", &credential).unwrap());
    assert!(!bcrypt::verify("another password", &credential).unwrap());
}
