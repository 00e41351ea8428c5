use auth_gate::user::{create_user_profile_response, verify_user_password, User};

const STORED_HASH: &str = "$2a$04$UuTkLRZZ6QofpDOlMz32MuuxEHA43WOemOYHPz6.SjsVsyO1tDU96";

#[test]
fn a_new_account_has_a_random_id_and_nothing_else_set() {
    let user = User::new("a@example.com".to_string(), STORED_HASH.to_string());
    let other = User::new("a@example.com".to_string(), STORED_HASH.to_string());
    assert_ne!(user.id, other.id);
    let id = uuid::Uuid::from_u128(user.id);
    assert_eq!(id.get_version_num(), 4);
    assert_eq!(id.get_variant(), uuid::Variant::RFC4122);
    assert_eq!(user.email, "a@example.com");
    assert_eq!(user.password_hash, STORED_HASH);
    assert_eq!((user.name, user.phone, user.address), (None, None, None));
    assert_eq!((user.updated_at, user.deleted_at), (None, None));
    // microseconds, later than the year 2023
    assert!(user.created_at > 1_700_000_000_000_000);
}

#[test]
fn an_account_checks_passwords_against_its_hash() {
    let user = User::new("a@example.com".to_string(), STORED_HASH.to_string());
    assert_eq!(user.verify_password("password"), Ok(true));
    assert_eq!(user.verify_password("wrong"), Ok(false));
    assert_eq!(verify_user_password(&user, "password"), Ok(true));
    assert_eq!(verify_user_password(&user, "wrong"), Ok(false));
    let broken = User::new("a@example.com".to_string(), "not-a-hash".to_string());
    let text = broken.verify_password("password").unwrap_err();
    assert!(text.starts_with("Password verification error: "));
    assert!(text.len() > "Password verification error: ".len());
    assert_eq!(verify_user_password(&broken, "password"), Err(text));
}

#[test]
fn a_profile_shows_the_account_without_name_and_hash() {
    let user = User {
        id: 7,
        email: "a@example.com".to_string(),
        name: Some("Ann".to_string()),
        phone: Some("+4912345".to_string()),
        address: None,
        password_hash: STORED_HASH.to_string(),
        created_at: 11,
        updated_at: Some(12),
        deleted_at: None,
    };
    let profile = create_user_profile_response(user);
    assert_eq!(profile.id, 7);
    assert_eq!(profile.email, "a@example.com");
    assert_eq!(profile.phone.as_deref(), Some("+4912345"));
    assert_eq!(profile.address, None);
    assert_eq!(profile.created_at, 11);
    assert_eq!(profile.updated_at, Some(12));
    assert_eq!(profile.deleted_at, None);
}

#[test]
fn an_account_is_made_under_the_id_and_time_given() {
    let user = User::created(7, "a@example.com".to_string(), STORED_HASH.to_string(), 11);
    assert_eq!((user.id, user.created_at), (7, 11));
    assert_eq!(user.email, "a@example.com");
    assert_eq!(user.password_hash, STORED_HASH);
    assert_eq!((user.name, user.phone, user.address), (None, None, None));
    assert_eq!((user.updated_at, user.deleted_at), (None, None));
}
