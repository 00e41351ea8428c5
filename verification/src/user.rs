//! The stored account, and what of it is shown as a profile.

use crate::clock::unix_now_micros;
use crate::password::{bcrypt_verdict, verify_password};
use crate::text::joined;
use vstd::prelude::*;

verus! {

/// An account as the store holds it. `id` is the account's UUID as a number; the times
/// are microseconds since the epoch.
#[derive(Debug, Clone)]
pub struct User {
    pub id: u128,
    pub email: String,
    pub name: Option<String>,
    pub phone: Option<String>,
    pub address: Option<String>,
    pub password_hash: String,
    pub created_at: i64,
    pub updated_at: Option<i64>,
    pub deleted_at: Option<i64>,
}

/// What of an account its owner gets to see: everything but the name and the hash.
#[derive(Debug, Clone)]
pub struct UserProfileResponse {
    pub id: u128,
    pub email: String,
    pub phone: Option<String>,
    pub address: Option<String>,
    pub created_at: i64,
    pub updated_at: Option<i64>,
    pub deleted_at: Option<i64>,
}

/// The bits that mark a UUID as random (version 4, RFC variant).
pub open spec fn is_random_uuid(id: u128) -> bool {
    id & 0x0000_0000_0000_f000_c000_0000_0000_0000u128 == 0x0000_0000_0000_4000_8000_0000_0000_0000u128
}

/// `uuid::Uuid::new_v4` and `Uuid::as_u128`: a fresh random UUID, as a number. Trusted:
/// the version and variant bits that every such UUID has. Which one comes back is open.
#[verifier::external_body]
pub(crate) fn new_user_id() -> (id: u128)
    ensures
        is_random_uuid(id),
{
    uuid::Uuid::new_v4().as_u128()
}

impl User {
    /// Whether this is the account made for `email` with a stored hash, under `id` and at
    /// `created_at`: never updated or deleted, no name, phone or address yet.
    pub open spec fn is_new(&self, id: u128, email: String, password_hash: String, created_at: i64) -> bool {
        &&& self.id == id
        &&& self.email == email
        &&& self.password_hash == password_hash
        &&& self.created_at == created_at
        &&& self.name is None
        &&& self.phone is None
        &&& self.address is None
        &&& self.updated_at is None
        &&& self.deleted_at is None
    }

    /// The account made for `email` with a stored hash, under `id` and at `created_at`.
    pub fn created(id: u128, email: String, password_hash: String, created_at: i64) -> (user: User)
        ensures
            user.is_new(id, email, password_hash, created_at),
    {
        User {
            id,
            email,
            name: None,
            phone: None,
            address: None,
            password_hash,
            created_at,
            updated_at: None,
            deleted_at: None,
        }
    }

    /// `created` with a fresh random id and the time read from the wall clock.
    pub fn new(email: String, password_hash: String) -> (user: User)
        ensures
            is_random_uuid(user.id),
            user.is_new(user.id, email, password_hash, user.created_at),
    {
        User::created(new_user_id(), email, password_hash, unix_now_micros())
    }

    /// Checks `password` against the account's stored hash. A mismatch is `Ok(false)`; a
    /// stored hash that the hasher refuses gives an error text that starts with
    /// `Password verification error: `.
    pub fn verify_password(&self, password: &str) -> (outcome: Result<bool, String>)
        ensures
            match bcrypt_verdict(password@, self.password_hash@) {
                Some(matches) => outcome == Ok::<bool, String>(matches),
                None => outcome matches Err(text) && "Password verification error: "@.is_prefix_of(
                    text@,
                ),
            },
    {
        match verify_password(password, self.password_hash.as_str()) {
            Ok(matches) => Ok(matches),
            Err(failure) => {
                let text = joined("Password verification error: ", failure.reason.as_str());
                assert(text@.subrange(0, "Password verification error: "@.len() as int)
                    =~= "Password verification error: "@);
                Err(text)
            },
        }
    }
}

/// `User::verify_password`, as a free function.
pub fn verify_user_password(user: &User, password: &str) -> (outcome: Result<bool, String>)
    ensures
        match bcrypt_verdict(password@, user.password_hash@) {
            Some(matches) => outcome == Ok::<bool, String>(matches),
            None => outcome matches Err(text) && "Password verification error: "@.is_prefix_of(text@),
        },
{
    user.verify_password(password)
}

/// The profile of an account: its fields but the name and the hash, unchanged.
pub fn create_user_profile_response(user: User) -> (profile: UserProfileResponse)
    ensures
        profile.id == user.id,
        profile.email == user.email,
        profile.phone == user.phone,
        profile.address == user.address,
        profile.created_at == user.created_at,
        profile.updated_at == user.updated_at,
        profile.deleted_at == user.deleted_at,
{
    UserProfileResponse {
        id: user.id,
        email: user.email,
        phone: user.phone,
        address: user.address,
        created_at: user.created_at,
        updated_at: user.updated_at,
        deleted_at: user.deleted_at,
    }
}

} // verus!
