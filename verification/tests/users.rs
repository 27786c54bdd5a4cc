use lusion::error::ErrorKind;
use lusion::web::users::{
    avatar_url, check_old_password, encode_password, file_hash, password_change,
    random_avatar_url, to_decimal, PasswordChange,
};

#[test]
fn password_change_follows_the_lookup_and_the_check() {
    assert_eq!(password_change(false, Some(true)), PasswordChange::NotFound);
    assert_eq!(password_change(false, None), PasswordChange::NotFound);
    assert_eq!(password_change(true, None), PasswordChange::Unreadable);
    assert_eq!(password_change(true, Some(false)), PasswordChange::Mismatch);
    assert_eq!(password_change(true, Some(true)), PasswordChange::Update);
}

#[test]
fn password_change_statuses() {
    assert_eq!(PasswordChange::NotFound.status(), 404);
    assert_eq!(PasswordChange::Unreadable.status(), 400);
    assert_eq!(PasswordChange::Mismatch.status(), 400);
    assert_eq!(PasswordChange::Update.status(), 200);
}

#[test]
fn stored_hash_accepts_its_password_only() {
    let hash = bcrypt::hash("1234", 4).expect("a low cost hashes quickly");
    assert_eq!(check_old_password("1234", &hash), PasswordChange::Update);
    assert_eq!(check_old_password("4321", &hash), PasswordChange::Mismatch);
    assert_eq!(check_old_password("1234", "1234"), PasswordChange::Unreadable);
}

#[test]
fn encoded_password_is_a_hash_of_the_password() {
    let hash = encode_password("1234", "password encode error").expect("hashing works");
    assert_ne!(hash, "1234");
    assert!(matches!(bcrypt::verify("1234", &hash), Ok(true)));
    assert!(matches!(bcrypt::verify("12345", &hash), Ok(false)));
}

#[test]
fn failed_hash_is_a_user_error() {
    let error = file_hash(None, "password encode error").unwrap_err();
    assert_eq!(
        error.kind(),
        ErrorKind::UserError("password encode error".to_owned())
    );
    assert_eq!(file_hash(Some("x".to_owned()), "e").unwrap(), "x");
}

#[test]
fn numbers_in_decimal() {
    assert_eq!(to_decimal(0), "0");
    assert_eq!(to_decimal(7), "7");
    assert_eq!(to_decimal(20), "20");
    assert_eq!(to_decimal(4_294_967_295), "4294967295");
    assert_eq!(to_decimal(1000), "1000");
}

#[test]
fn avatar_addresses() {
    assert_eq!(avatar_url(1), "/api/images/avatars/1.png");
    assert_eq!(avatar_url(20), "/api/images/avatars/20.png");
}

#[test]
fn random_avatar_is_one_of_twenty() {
    let all: Vec<String> = (1..=20).map(avatar_url).collect();
    let mut seen = std::collections::HashSet::new();
    for _ in 0..400 {
        let url = random_avatar_url();
        assert!(all.contains(&url), "unexpected avatar {}", url);
        seen.insert(url);
    }
    assert!(seen.len() > 1);
}

#[test]
fn encoded_password_is_accepted_when_checked_again() {
    let stored = encode_password("1234", "password encode error").expect("hashing works");
    assert_eq!(check_old_password("1234", &stored), PasswordChange::Update);
    assert_eq!(check_old_password("4321", &stored), PasswordChange::Mismatch);
    let long = "x".repeat(100);
    let stored = encode_password(&long, "password encode error").expect("hashing works");
    assert_eq!(check_old_password(&long, &stored), PasswordChange::Update);
    let stored = encode_password("", "password encode error").expect("hashing works");
    assert_eq!(check_old_password("", &stored), PasswordChange::Update);
}
