use auth_gate::error::AppError;
use auth_gate::profile::{
    get_user_profile, parse_user_id, saved_profile, stored_user, update_user_profile, updated_user,
    validate_email, validate_phone, validate_profile_update, validate_text, validate_update_fields,
    UpdateProfileRequest,
};
use auth_gate::user::User;

const ID_TEXT: &str = "67e55044-10b1-426f-9247-bb680e5fe0c8";
const ID: u128 = 0x67e5504410b1426f9247bb680e5fe0c8;

fn account() -> User {
    User {
        id: ID,
        email: "a@example.com".to_string(),
        name: Some("Ann".to_string()),
        phone: Some("+4912345".to_string()),
        address: Some("1 Main St".to_string()),
        password_hash: "hash".to_string(),
        created_at: 11,
        updated_at: None,
        deleted_at: None,
    }
}

fn no_change() -> UpdateProfileRequest {
    UpdateProfileRequest { email: None, name: None, phone: None, address: None, deleted_at: None }
}

fn validation_message(error: AppError) -> String {
    match error {
        AppError::ValidationError(message) => message,
        other => panic!("unexpected {:?}", other),
    }
}

#[test]
fn an_id_is_read_from_its_text() {
    assert_eq!(parse_user_id(ID_TEXT).unwrap(), ID);
    assert_eq!(parse_user_id("67E55044-10B1-426F-9247-BB680E5FE0C8").unwrap(), ID);
    assert_eq!(parse_user_id("67e5504410b1426f9247bb680e5fe0c8").unwrap(), ID);
    assert_eq!(parse_user_id("00000000-0000-0000-0000-000000000000").unwrap(), 0);
}

#[test]
fn a_text_that_is_no_id_is_refused() {
    for text in ["", "a@example.com", "67e55044-10b1-426f-9247", "zze55044-10b1-426f-9247-bb680e5fe0c8"] {
        let message = validation_message(parse_user_id(text).unwrap_err());
        let reason = uuid::Uuid::parse_str(text).unwrap_err().to_string();
        assert_eq!(message, format!("Invalid user ID format: {}", reason));
    }
}

#[test]
fn an_email_needs_an_at_and_a_dot() {
    assert!(validate_email("a@example.com").is_ok());
    assert!(validate_email(".@").is_ok());
    for email in ["", "a.example.com", "a@example", "plain"] {
        assert_eq!(validation_message(validate_email(email).unwrap_err()), "Invalid email format");
    }
}

#[test]
fn a_phone_number_is_two_to_fifteen_digits() {
    for phone in ["+4912345", "4912345", "12", "+12", "123456789012345", "+123456789012345"] {
        assert!(validate_phone(phone).is_ok());
    }
    for phone in ["", "1", "+1", "0123", "+0123", "1234567890123456", "12 34", "12a", "++12", "12+"] {
        assert_eq!(
            validation_message(validate_phone(phone).unwrap_err()),
            "Invalid phone number format"
        );
    }
}

#[test]
fn a_name_is_neither_blank_nor_too_long() {
    assert!(validate_text("Name", "Ann", 100).is_ok());
    assert!(validate_text("Name", " Ann ", 100).is_ok());
    assert!(validate_text("Name", &"x".repeat(100), 100).is_ok());
    for blank in ["", " ", "\t\n ", "\u{2003}"] {
        assert_eq!(validation_message(validate_text("Name", blank, 100).unwrap_err()), "Name cannot be empty");
    }
    assert_eq!(
        validation_message(validate_text("Name", &"x".repeat(101), 100).unwrap_err()),
        "Name is too long"
    );
    // the length is that in bytes: fifty-one letters of two bytes each are too long
    assert!(validate_text("Name", &"ü".repeat(50), 100).is_ok());
    assert_eq!(
        validation_message(validate_text("Name", &"ü".repeat(51), 100).unwrap_err()),
        "Name is too long"
    );
    assert_eq!(
        validation_message(validate_text("Address", &"x".repeat(201), 200).unwrap_err()),
        "Address is too long"
    );
    assert_eq!(
        validation_message(validate_text("Address", "  ", 200).unwrap_err()),
        "Address cannot be empty"
    );
}

#[test]
fn an_update_is_checked_field_by_field() {
    assert_eq!(validate_profile_update(ID_TEXT, &no_change()).unwrap(), ID);
    let good = UpdateProfileRequest {
        email: Some("b@example.com".to_string()),
        name: Some("Bob".to_string()),
        phone: Some("+4912345".to_string()),
        address: Some("2 Side St".to_string()),
        deleted_at: Some(5),
    };
    assert_eq!(validate_profile_update(ID_TEXT, &good).unwrap(), ID);

    let mut bad = good.clone();
    bad.address = Some("x".repeat(201));
    assert_eq!(
        validation_message(validate_profile_update(ID_TEXT, &bad).unwrap_err()),
        "Address is too long"
    );
    bad.address = Some(" ".to_string());
    assert_eq!(
        validation_message(validate_profile_update(ID_TEXT, &bad).unwrap_err()),
        "Address cannot be empty"
    );
    bad.name = Some("x".repeat(101));
    assert_eq!(validation_message(validate_profile_update(ID_TEXT, &bad).unwrap_err()), "Name is too long");
    bad.name = Some(String::new());
    assert_eq!(
        validation_message(validate_profile_update(ID_TEXT, &bad).unwrap_err()),
        "Name cannot be empty"
    );
    bad.phone = Some("0".to_string());
    assert_eq!(
        validation_message(validate_profile_update(ID_TEXT, &bad).unwrap_err()),
        "Invalid phone number format"
    );
    bad.email = Some("nowhere".to_string());
    assert_eq!(
        validation_message(validate_profile_update(ID_TEXT, &bad).unwrap_err()),
        "Invalid email format"
    );
    assert!(validation_message(validate_profile_update("no id", &bad).unwrap_err())
        .starts_with("Invalid user ID format: "));
}

#[test]
fn the_stores_answer_decides_on_the_account() {
    assert_eq!(stored_user(ID, Ok(Some(account()))).unwrap().email, "a@example.com");
    let error = stored_user(ID, Ok(None)).unwrap_err();
    assert!(matches!(
        &error,
        AppError::NotFoundError(message)
            if message == "User profile not found for ID: 67e55044-10b1-426f-9247-bb680e5fe0c8"
    ));
    assert_eq!(error.status_code(), 404);
    let error = stored_user(ID, Err("connection lost".to_string())).unwrap_err();
    assert!(matches!(&error, AppError::DatabaseError(message) if message == "connection lost"));
}

#[test]
fn a_profile_is_read_from_the_stores_answer() {
    let profile = get_user_profile(ID_TEXT, Ok(Some(account()))).unwrap();
    assert_eq!(profile.id, ID);
    assert_eq!(profile.email, "a@example.com");
    assert_eq!(profile.phone.as_deref(), Some("+4912345"));
    assert_eq!(profile.address.as_deref(), Some("1 Main St"));
    assert_eq!((profile.created_at, profile.updated_at, profile.deleted_at), (11, None, None));
    let error = get_user_profile("00000000-0000-0000-0000-000000000001", Ok(None)).unwrap_err();
    assert!(matches!(
        &error,
        AppError::NotFoundError(message)
            if message == "User profile not found for ID: 00000000-0000-0000-0000-000000000001"
    ));
    assert!(matches!(
        get_user_profile(ID_TEXT, Err("down".to_string())).unwrap_err(),
        AppError::DatabaseError(_)
    ));
    // a text that is no id is refused whatever the store answered
    let message = validation_message(get_user_profile("no id", Ok(Some(account()))).unwrap_err());
    assert!(message.starts_with("Invalid user ID format: "));
}

#[test]
fn an_update_replaces_what_it_names_and_clears_what_it_leaves_out() {
    let user = updated_user(account(), &no_change(), 99);
    assert_eq!(user.id, ID);
    assert_eq!(user.email, "a@example.com");
    assert_eq!((user.name, user.phone, user.address), (None, None, None));
    assert_eq!(user.password_hash, "hash");
    assert_eq!((user.created_at, user.updated_at, user.deleted_at), (11, Some(99), None));

    let update = UpdateProfileRequest {
        email: Some("b@example.com".to_string()),
        name: Some("Bob".to_string()),
        phone: None,
        address: Some("2 Side St".to_string()),
        deleted_at: Some(5),
    };
    let user = update_user_profile(ID_TEXT, Ok(Some(account())), &update, 100).unwrap();
    assert_eq!(user.id, ID);
    assert_eq!(user.email, "b@example.com");
    assert_eq!(user.name.as_deref(), Some("Bob"));
    assert_eq!(user.phone, None);
    assert_eq!(user.address.as_deref(), Some("2 Side St"));
    assert_eq!(user.password_hash, "hash");
    assert_eq!((user.created_at, user.updated_at, user.deleted_at), (11, Some(100), Some(5)));

    assert!(matches!(
        update_user_profile(ID_TEXT, Ok(None), &update, 100).unwrap_err(),
        AppError::NotFoundError(message)
            if message == "User profile not found for ID: 67e55044-10b1-426f-9247-bb680e5fe0c8"
    ));
    assert!(matches!(
        update_user_profile(ID_TEXT, Err("down".to_string()), &update, 100).unwrap_err(),
        AppError::DatabaseError(message) if message == "down"
    ));
}

#[test]
fn an_update_that_fails_the_checks_changes_nothing() {
    let good = UpdateProfileRequest {
        email: Some("b@example.com".to_string()),
        name: Some("Bob".to_string()),
        phone: Some("+4912345".to_string()),
        address: Some("2 Side St".to_string()),
        deleted_at: None,
    };
    let refused = |user_id: &str, update: &UpdateProfileRequest| {
        validation_message(update_user_profile(user_id, Ok(Some(account())), update, 100).unwrap_err())
    };
    assert!(refused("no id", &good).starts_with("Invalid user ID format: "));
    let mut bad = good.clone();
    bad.email = Some("b.example.com".to_string());
    assert_eq!(refused(ID_TEXT, &bad), "Invalid email format");
    let mut bad = good.clone();
    bad.phone = Some("0123".to_string());
    assert_eq!(refused(ID_TEXT, &bad), "Invalid phone number format");
    let mut bad = good.clone();
    bad.name = Some("  ".to_string());
    assert_eq!(refused(ID_TEXT, &bad), "Name cannot be empty");
    bad.name = Some("x".repeat(101));
    assert_eq!(refused(ID_TEXT, &bad), "Name is too long");
    let mut bad = good.clone();
    bad.address = Some(String::new());
    assert_eq!(refused(ID_TEXT, &bad), "Address cannot be empty");
    bad.address = Some("x".repeat(201));
    assert_eq!(refused(ID_TEXT, &bad), "Address is too long");
    // the checks come before the store's answer counts
    bad.email = Some("nowhere".to_string());
    let error = update_user_profile(ID_TEXT, Err("down".to_string()), &bad, 100).unwrap_err();
    assert_eq!(validation_message(error), "Invalid email format");
    let error = update_user_profile(ID_TEXT, Ok(None), &bad, 100).unwrap_err();
    assert_eq!(validation_message(error), "Invalid email format");
}

#[test]
fn the_fields_of_an_update_are_checked_in_order() {
    assert!(validate_update_fields(&no_change()).is_ok());
    let bad = UpdateProfileRequest {
        email: Some("nowhere".to_string()),
        name: Some(String::new()),
        phone: Some("0".to_string()),
        address: Some(String::new()),
        deleted_at: None,
    };
    assert_eq!(validation_message(validate_update_fields(&bad).unwrap_err()), "Invalid email format");
}

#[test]
fn the_answer_to_an_update_is_the_stored_profile() {
    let profile = saved_profile(Ok(account())).unwrap();
    assert_eq!(profile.id, ID);
    assert_eq!(profile.email, "a@example.com");
    let error = saved_profile(Err("write failed".to_string())).unwrap_err();
    assert!(matches!(&error, AppError::DatabaseError(message) if message == "write failed"));
    assert_eq!(error.error_response().message, "A database error occurred");
}
