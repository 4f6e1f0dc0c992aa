use auth_core::error::AppError;
use auth_core::password::{hash, hash_default, verify, MAX_COST, MIN_COST};

#[test]
fn hash_verifies_for_its_password() {
    for password in ["pw123456", "", "correct horse battery staple", "pässwörd"] {
        let hashed = hash(password, 4).unwrap();
        assert!(verify(password, &hashed), "{:?}", password);
    }
}

#[test]
fn hash_does_not_verify_for_another_password() {
    let hashed = hash("pw123456", 4).unwrap();
    assert!(!verify("pw1234567", &hashed));
    assert!(!verify("Pw123456", &hashed));
    assert!(!verify("", &hashed));
    assert!(!verify("wrong", &hashed));
}

#[test]
fn equal_passwords_get_different_hashes() {
    let one = hash("pw123456", 4).unwrap();
    let two = hash("pw123456", 4).unwrap();
    assert_ne!(one, two);
    assert!(verify("pw123456", &one));
    assert!(verify("pw123456", &two));
}

#[test]
fn hash_is_not_the_password() {
    let hashed = hash("pw123456", 4).unwrap();
    assert_ne!(hashed, "pw123456");
    assert!(hashed.starts_with("$2a$04$"));
    assert_eq!(hashed.len(), 60);
}

#[test]
fn registration_cost_is_written_into_the_hash() {
    let hashed = hash("pw123456", 8).unwrap();
    assert!(hashed.starts_with("$2a$08$"));
    assert!(verify("pw123456", &hashed));
}

#[test]
fn cost_out_of_range_is_an_error_not_a_panic() {
    assert_eq!(hash("pw123456", MIN_COST - 1), Err(AppError::Error));
    assert_eq!(hash("pw123456", MAX_COST + 1), Err(AppError::Error));
    assert_eq!(hash("pw123456", 0), Err(AppError::Error));
    assert_eq!(hash("pw123456", u32::MAX), Err(AppError::Error));
    assert!(hash("pw123456", MIN_COST).is_ok());
}

#[test]
fn malformed_hash_matches_nothing() {
    for stored in [
        "",
        "pw123456",
        "$2a$08$tooshort",
        "$9z$08$abcdefghijklmnopqrstuuABCDEFGHIJKLMNOPQRSTUVWXYZ01234",
        "$2a$xx$abcdefghijklmnopqrstuuABCDEFGHIJKLMNOPQRSTUVWXYZ01234",
        "$2a$03$abcdefghijklmnopqrstuuABCDEFGHIJKLMNOPQRSTUVWXYZ01234",
        "$2a$08$!!!!!!!!!!!!!!!!!!!!!!ABCDEFGHIJKLMNOPQRSTUVWXYZ01234",
    ] {
        assert!(!verify("pw123456", stored), "{:?}", stored);
    }
}

#[test]
fn hashes_made_elsewhere_verify() {
    let stored = "$2a$04$UuTkLRZZ6QofpDOlMz32MuuxEHA43WOemOYHPz6.SjsVsyO1tDU96";
    assert!(verify("password", stored));
    assert!(!verify("Password", stored));
    let stored = "$2b$04$EGdrhbKUv8Oc9vGiXX0HQOxSg445d458Muh7DAHskb6QbtCvdxcie";
    assert!(verify("correctbatteryhorsestapler", stored));
    assert!(!verify("correctbatteryhorsestaple", stored));
}

#[test]
fn hash_carries_the_cost_that_was_asked_for() {
    for cost in [4u32, 5, 9, 10] {
        let hashed = hash("pw123456", cost).unwrap();
        assert_eq!(&hashed[..7], format!("$2a${:02}$", cost));
    }
}

#[test]
fn default_cost_hash_verifies() {
    let hashed = hash_default("pw123456").unwrap();
    assert!(hashed.starts_with("$2b$12$"));
    assert_ne!(hashed, "pw123456");
    assert!(verify("pw123456", &hashed));
}

#[test]
fn passwords_that_agree_on_their_first_72_bytes_share_their_hashes() {
    let head = "a".repeat(72);
    let one = format!("{}x", head);
    let two = format!("{}y", head);
    let hashed = hash(&one, 4).unwrap();
    assert!(verify(&one, &hashed));
    assert!(verify(&two, &hashed));
}
