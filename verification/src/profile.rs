//! Reading and changing the profile of an account: the checks on what is handed in, and
//! the decisions on what the store answers.

use crate::error::{AppError, AppErrorView};
use crate::text::{contains_char, joined, regex_is_match, regex_match};
use crate::user::{create_user_profile_response, User, UserProfileResponse};
use vstd::prelude::*;
use vstd::string::*;
use vstd::utf8::encode_utf8;

verus! {

/// The fields of a profile that a request wants to set. Name, phone and address are set
/// as given, also where they are `None`; the email is kept where none is given.
#[derive(Debug, Clone)]
pub struct UpdateProfileRequest {
    pub email: Option<String>,
    pub name: Option<String>,
    pub phone: Option<String>,
    pub address: Option<String>,
    pub deleted_at: Option<i64>,
}

/// `uuid::Error`, carried as it is: only its text is asked for.
#[verifier::external_type_specification]
#[verifier::external_body]
pub struct ExUuidError(uuid::Error);

/// The UUID that `uuid::Uuid::parse_str` reads from `text`, as a number; `None` where it
/// reads none.
pub uninterp spec fn parsed_uuid(text: Seq<char>) -> Option<u128>;

/// The text that a UUID displays as: `uuid::Uuid::from_u128` and `to_string`.
pub uninterp spec fn uuid_text(id: u128) -> Seq<char>;

/// What `str::trim` leaves of `text`.
pub uninterp spec fn trimmed(text: Seq<char>) -> Seq<char>;

/// `uuid::Uuid::parse_str`, the UUID taken as a number by `Uuid::as_u128`. Trusted: the
/// answer is the named UUID, an error standing for none.
#[verifier::external_body]
fn parse_uuid(text: &str) -> (parsed: Result<u128, uuid::Error>)
    ensures
        match parsed {
            Ok(id) => parsed_uuid(text@) == Some(id),
            Err(_) => parsed_uuid(text@) is None,
        },
{
    match uuid::Uuid::parse_str(text) {
        Ok(id) => Ok(id.as_u128()),
        Err(error) => Err(error),
    }
}

/// The text that `uuid::Error` displays. Nothing is claimed of it.
#[verifier::external_body]
fn uuid_error_text(error: &uuid::Error) -> String {
    error.to_string()
}

/// `uuid::Uuid::from_u128` and `to_string`. Trusted: the text is the named one.
#[verifier::external_body]
fn uuid_to_text(id: u128) -> (text: String)
    ensures
        text@ == uuid_text(id),
{
    uuid::Uuid::from_u128(id).to_string()
}

/// `str::trim`. Trusted: the slice is the named one.
#[verifier::external_body]
fn trim<'a>(text: &'a str) -> (rest: &'a str)
    ensures
        rest@ == trimmed(text@),
{
    text.trim()
}

/// The longest name that a profile takes, in bytes.
pub const MAX_NAME_BYTES: usize = 100;

/// The longest address that a profile takes, in bytes.
pub const MAX_ADDRESS_BYTES: usize = 200;

/// An email address has to hold an `@` and a dot.
pub open spec fn email_looks_valid(email: Seq<char>) -> bool {
    email.contains('@') && email.contains('.')
}

/// A phone number is up to fifteen digits, the first not a zero, with or without a `+`
/// in front, as the expression says.
pub open spec fn phone_looks_valid(phone: Seq<char>) -> bool {
    regex_match("^\\+?[1-9]\\d{1,14}$"@, phone) == Some(true)
}

/// What is wrong with a name or an address, if anything: it is blank, or longer than
/// `limit` bytes. `what` is the field's name in the message.
pub open spec fn text_fault(what: Seq<char>, text: Seq<char>, limit: usize) -> Option<Seq<char>> {
    if trimmed(text).len() == 0 {
        Some(what + " cannot be empty"@)
    } else if encode_utf8(text).len() > limit {
        Some(what + " is too long"@)
    } else {
        None
    }
}

/// What is wrong with the fields of an update, if anything, in the order in which they
/// are looked at: email, phone, name, address. A field that is not given is not looked at.
pub open spec fn update_fault(update: UpdateProfileRequest) -> Option<Seq<char>> {
    if update.email matches Some(email) && !email_looks_valid(email@) {
        Some("Invalid email format"@)
    } else if update.phone matches Some(phone) && !phone_looks_valid(phone@) {
        Some("Invalid phone number format"@)
    } else if update.name matches Some(name) && text_fault("Name"@, name@, MAX_NAME_BYTES) is Some {
        text_fault("Name"@, update.name->Some_0@, MAX_NAME_BYTES)
    } else if update.address matches Some(address) && text_fault(
        "Address"@,
        address@,
        MAX_ADDRESS_BYTES,
    ) is Some {
        text_fault("Address"@, update.address->Some_0@, MAX_ADDRESS_BYTES)
    } else {
        None
    }
}

/// Checks the form of an email address.
pub fn validate_email(email: &str) -> (outcome: Result<(), AppError>)
    ensures
        match outcome {
            Ok(_) => email_looks_valid(email@),
            Err(error) => !email_looks_valid(email@) && error@ == AppErrorView::ValidationError(
                "Invalid email format"@,
            ),
        },
{
    if !contains_char(email, '@') || !contains_char(email, '.') {
        return Err(AppError::validation("Invalid email format"));
    }
    Ok(())
}

/// Checks the form of a phone number.
pub fn validate_phone(phone: &str) -> (outcome: Result<(), AppError>)
    ensures
        match outcome {
            Ok(_) => phone_looks_valid(phone@),
            Err(error) => !phone_looks_valid(phone@) && error@ == AppErrorView::ValidationError(
                "Invalid phone number format"@,
            ),
        },
{
    match regex_is_match("^\\+?[1-9]\\d{1,14}$", phone) {
        Some(true) => Ok(()),
        _ => Err(AppError::validation("Invalid phone number format")),
    }
}

/// Checks a name or an address: not blank, and at most `limit` bytes.
pub fn validate_text(what: &str, text: &str, limit: usize) -> (outcome: Result<(), AppError>)
    ensures
        match outcome {
            Ok(_) => text_fault(what@, text@, limit) is None,
            Err(error) => text_fault(what@, text@, limit) == Some(error@->ValidationError_0)
                && error@ is ValidationError,
        },
{
    if trim(text).is_empty() {
        return Err(AppError::ValidationError(joined(what, " cannot be empty")));
    }
    if text.as_bytes().len() > limit {
        return Err(AppError::ValidationError(joined(what, " is too long")));
    }
    Ok(())
}

/// Reads an account's id from its text. A text that is no UUID is refused with a
/// validation failure whose message starts with `Invalid user ID format: `.
pub fn parse_user_id(user_id: &str) -> (outcome: Result<u128, AppError>)
    ensures
        match outcome {
            Ok(id) => parsed_uuid(user_id@) == Some(id),
            Err(error) => {
                &&& parsed_uuid(user_id@) is None
                &&& error@ matches AppErrorView::ValidationError(message)
                    && "Invalid user ID format: "@.is_prefix_of(message)
            },
        },
{
    match parse_uuid(user_id) {
        Ok(id) => Ok(id),
        Err(error) => {
            let message = joined("Invalid user ID format: ", uuid_error_text(&error).as_str());
            assert(message@.subrange(0, "Invalid user ID format: "@.len() as int)
                =~= "Invalid user ID format: "@);
            Err(AppError::ValidationError(message))
        },
    }
}

/// Checks the fields of an update, in the order of `update_fault`; the first fault is
/// reported as a validation failure with its message.
pub fn validate_update_fields(update: &UpdateProfileRequest) -> (outcome: Result<(), AppError>)
    ensures
        match outcome {
            Ok(_) => update_fault(*update) is None,
            Err(error) => update_fault(*update) matches Some(message) && error@
                == AppErrorView::ValidationError(message),
        },
{
    if let Some(email) = &update.email {
        if let Err(error) = validate_email(email.as_str()) {
            return Err(error);
        }
    }
    if let Some(phone) = &update.phone {
        if let Err(error) = validate_phone(phone.as_str()) {
            return Err(error);
        }
    }
    if let Some(name) = &update.name {
        if let Err(error) = validate_text("Name", name.as_str(), MAX_NAME_BYTES) {
            return Err(error);
        }
    }
    if let Some(address) = &update.address {
        if let Err(error) = validate_text("Address", address.as_str(), MAX_ADDRESS_BYTES) {
            return Err(error);
        }
    }
    Ok(())
}

/// Whether `error` is the failure that a request to change the profile of `user_id` is
/// refused with before the store counts: a text that is no id first, then the first
/// fault of the fields.
pub open spec fn is_update_refusal(user_id: Seq<char>, update: UpdateProfileRequest, error: AppErrorView) -> bool {
    if parsed_uuid(user_id) is None {
        error matches AppErrorView::ValidationError(message) && "Invalid user ID format: "@.is_prefix_of(
            message,
        )
    } else {
        update_fault(update) matches Some(message) && error == AppErrorView::ValidationError(
            message,
        )
    }
}

/// Whether a request to change the profile of `user_id` passes the checks that are made
/// before the store counts.
pub open spec fn update_is_sound(user_id: Seq<char>, update: UpdateProfileRequest) -> bool {
    parsed_uuid(user_id) is Some && update_fault(update) is None
}

/// Checks a request to change a profile before the store is asked: the id first, then
/// the fields. Gives the account's id.
pub fn validate_profile_update(user_id: &str, update: &UpdateProfileRequest) -> (outcome: Result<
    u128,
    AppError,
>)
    ensures
        match outcome {
            Ok(id) => update_is_sound(user_id@, *update) && parsed_uuid(user_id@) == Some(id),
            Err(error) => !update_is_sound(user_id@, *update) && is_update_refusal(
                user_id@,
                *update,
                error@,
            ),
        },
{
    let id = match parse_user_id(user_id) {
        Ok(id) => id,
        Err(error) => return Err(error),
    };
    match validate_update_fields(update) {
        Ok(_) => Ok(id),
        Err(error) => Err(error),
    }
}

/// The account that the store answered with, or why there is none: a store that holds no
/// such account is a `NotFoundError` that names the id, a store that failed a
/// `DatabaseError` with its reason.
pub fn stored_user(id: u128, found: Result<Option<User>, String>) -> (outcome: Result<User, AppError>)
    ensures
        match found {
            Ok(Some(user)) => outcome == Ok::<User, AppError>(user),
            Ok(None) => outcome matches Err(error) && error@ == AppErrorView::NotFoundError(
                "User profile not found for ID: "@ + uuid_text(id),
            ),
            Err(reason) => outcome matches Err(error) && error@ == AppErrorView::DatabaseError(
                reason@,
            ),
        },
{
    match found {
        Ok(Some(user)) => Ok(user),
        Ok(None) => Err(
            AppError::NotFoundError(
                joined("User profile not found for ID: ", uuid_to_text(id).as_str()),
            ),
        ),
        Err(reason) => Err(AppError::DatabaseError(reason)),
    }
}

/// The profile of the account `user_id`, from what the store answered when asked for it.
/// A text that is no id is refused whatever the store answered.
pub fn get_user_profile(user_id: &str, found: Result<Option<User>, String>) -> (outcome: Result<
    UserProfileResponse,
    AppError,
>)
    ensures
        match parsed_uuid(user_id@) {
            None => outcome matches Err(error) && error@ matches AppErrorView::ValidationError(
                message,
            ) && "Invalid user ID format: "@.is_prefix_of(message),
            Some(id) => match found {
                Ok(Some(user)) => outcome matches Ok(profile) && profile.id == user.id
                    && profile.email == user.email && profile.phone == user.phone
                    && profile.address == user.address && profile.created_at == user.created_at
                    && profile.updated_at == user.updated_at && profile.deleted_at
                    == user.deleted_at,
                Ok(None) => outcome matches Err(error) && error@ == AppErrorView::NotFoundError(
                    "User profile not found for ID: "@ + uuid_text(id),
                ),
                Err(reason) => outcome matches Err(error) && error@
                    == AppErrorView::DatabaseError(reason@),
            },
        },
{
    let id = match parse_user_id(user_id) {
        Ok(id) => id,
        Err(error) => return Err(error),
    };
    match stored_user(id, found) {
        Ok(user) => Ok(create_user_profile_response(user)),
        Err(error) => Err(error),
    }
}

fn copy_of(text: &Option<String>) -> (copy: Option<String>)
    ensures
        copy == *text,
{
    match text {
        Some(text) => Some(text.clone()),
        None => None,
    }
}

/// Whether `user` is `current` after `update` at `now`: id, hash and creation time stay;
/// name, phone, address and deletion time are those of the update; the email is that of
/// the update where it gives one.
pub open spec fn is_update_of(user: User, current: User, update: UpdateProfileRequest, now: i64) -> bool {
    &&& user.id == current.id
    &&& user.password_hash == current.password_hash
    &&& user.created_at == current.created_at
    &&& user.email == match update.email {
        Some(email) => email,
        None => current.email,
    }
    &&& user.name == update.name
    &&& user.phone == update.phone
    &&& user.address == update.address
    &&& user.updated_at == Some(now)
    &&& user.deleted_at == update.deleted_at
}

/// The account as it is to be stored after an update at `now`.
pub fn updated_user(current: User, update: &UpdateProfileRequest, now: i64) -> (user: User)
    ensures
        is_update_of(user, current, *update, now),
{
    let email = match &update.email {
        Some(email) => email.clone(),
        None => current.email,
    };
    User {
        id: current.id,
        email,
        name: copy_of(&update.name),
        phone: copy_of(&update.phone),
        address: copy_of(&update.address),
        password_hash: current.password_hash,
        created_at: current.created_at,
        updated_at: Some(now),
        deleted_at: update.deleted_at,
    }
}

/// The account to store for an update of the account `user_id`, from what the store
/// answered when asked for it. The request is checked first, as `validate_profile_update`
/// checks it: one that fails the checks is refused whatever the store answered, and
/// nothing is changed.
pub fn update_user_profile(
    user_id: &str,
    found: Result<Option<User>, String>,
    update: &UpdateProfileRequest,
    now: i64,
) -> (outcome: Result<User, AppError>)
    ensures
        match outcome {
            Ok(user) => found matches Ok(Some(current)) && update_is_sound(user_id@, *update)
                && is_update_of(user, current, *update, now),
            Err(error) => if !update_is_sound(user_id@, *update) {
                is_update_refusal(user_id@, *update, error@)
            } else {
                match found {
                    Ok(Some(_)) => false,
                    Ok(None) => error@ == AppErrorView::NotFoundError(
                        "User profile not found for ID: "@ + uuid_text(
                            parsed_uuid(user_id@)->Some_0,
                        ),
                    ),
                    Err(reason) => error@ == AppErrorView::DatabaseError(reason@),
                }
            },
        },
        parsed_uuid(user_id@) is Some && update_fault(*update) is Some ==> (outcome matches Err(
            error,
        ) && error@ == AppErrorView::ValidationError(update_fault(*update)->Some_0)),
{
    let id = match validate_profile_update(user_id, update) {
        Ok(id) => id,
        Err(error) => return Err(error),
    };
    match stored_user(id, found) {
        Ok(current) => Ok(updated_user(current, update, now)),
        Err(error) => Err(error),
    }
}

/// The answer to an update, from what the store answered when the account was written.
pub fn saved_profile(saved: Result<User, String>) -> (outcome: Result<UserProfileResponse, AppError>)
    ensures
        match saved {
            Ok(user) => outcome matches Ok(profile) && profile.id == user.id && profile.email
                == user.email && profile.phone == user.phone && profile.address == user.address
                && profile.created_at == user.created_at && profile.updated_at == user.updated_at
                && profile.deleted_at == user.deleted_at,
            Err(reason) => outcome matches Err(error) && error@ == AppErrorView::DatabaseError(
                reason@,
            ),
        },
{
    match saved {
        Ok(user) => Ok(create_user_profile_response(user)),
        Err(reason) => Err(AppError::DatabaseError(reason)),
    }
}

} // verus!
