//! The checks on the bodies of login and registration requests.

use crate::dto::{AuthRequest, LoginRequest, RegisterRequest};
use crate::text::{regex_is_match, regex_match};
use vstd::prelude::*;
use vstd::string::*;

verus! {

/// One thing that is wrong with one field of a request.
#[derive(Debug, Clone)]
pub struct FieldError {
    pub field: String,
    pub message: String,
}

impl View for FieldError {
    type V = (Seq<char>, Seq<char>);

    open spec fn view(&self) -> (Seq<char>, Seq<char>) {
        (self.field@, self.message@)
    }
}

/// The faults of a list of field errors, as field and message.
pub open spec fn faults_of(errors: Seq<FieldError>) -> Seq<(Seq<char>, Seq<char>)> {
    errors.map_values(|error: FieldError| error@)
}

/// Whether `validator::validate_email` takes `text` for an email address.
pub uninterp spec fn email_is_valid(text: Seq<char>) -> bool;

/// `validator::validate_email`. Trusted: the answer is the named one.
#[verifier::external_body]
fn is_email(text: &str) -> (valid: bool)
    ensures
        valid == email_is_valid(text@),
{
    validator::validate_email(text)
}

/// A password has to hold a letter and a digit, as the expression says.
pub open spec fn has_letter_and_digit(password: Seq<char>) -> bool {
    regex_match("^.*[A-Za-z].*\\d.*$|^.*\\d.*[A-Za-z].*$"@, password) == Some(true)
}

/// The one fault `(field, message)` if `failed`, none else.
pub open spec fn fault_if(failed: bool, field: Seq<char>, message: Seq<char>) -> Seq<
    (Seq<char>, Seq<char>),
> {
    if failed {
        seq![(field, message)]
    } else {
        Seq::empty()
    }
}

/// The faults of an identifier and a credential as a login hands them in: the email's
/// form, then that it is there; the password's length in characters, then its content.
pub open spec fn credential_faults(email: Seq<char>, password: Seq<char>) -> Seq<(Seq<char>, Seq<char>)> {
    fault_if(!email_is_valid(email), "email"@, "Invalid email format"@) + fault_if(
        email.len() < 1,
        "email"@,
        "Email is required"@,
    ) + fault_if(password.len() < 8, "password"@, "Password must be at least 8 characters"@)
        + fault_if(
        !has_letter_and_digit(password),
        "password"@,
        "Password must contain at least one number and one letter"@,
    )
}

/// The faults of a registration: those of its credentials, then that of a name that is
/// given but empty.
pub open spec fn registration_faults(request: RegisterRequest) -> Seq<(Seq<char>, Seq<char>)> {
    credential_faults(request.email@, request.password@) + fault_if(
        request.name matches Some(name) && name@.len() < 1,
        "name"@,
        "Name is required"@,
    )
}

/// The faults of the short form of a login: the email's form, and a password of at least
/// six characters.
pub open spec fn login_faults(email: Seq<char>, password: Seq<char>) -> Seq<(Seq<char>, Seq<char>)> {
    fault_if(!email_is_valid(email), "email"@, "Invalid email address"@) + fault_if(
        password.len() < 6,
        "password"@,
        "Password must be at least 6 characters long"@,
    )
}

fn note(errors: &mut Vec<FieldError>, failed: bool, field: &str, message: &str)
    ensures
        faults_of(final(errors)@) == faults_of(old(errors)@) + fault_if(failed, field@, message@),
{
    if failed {
        let error = FieldError { field: field.to_owned(), message: message.to_owned() };
        errors.push(error);
        assert(faults_of(errors@) =~= faults_of(old(errors)@).push(error@));
        assert(faults_of(old(errors)@).push(error@) =~= faults_of(old(errors)@) + seq![error@]);
    } else {
        assert(faults_of(old(errors)@) + Seq::<(Seq<char>, Seq<char>)>::empty() =~= faults_of(
            old(errors)@,
        ));
    }
}

fn verdict_on(errors: Vec<FieldError>) -> (outcome: Result<(), Vec<FieldError>>)
    ensures
        match outcome {
            Ok(_) => faults_of(errors@).len() == 0,
            Err(found) => found == errors && faults_of(errors@).len() > 0,
        },
{
    if errors.len() == 0 {
        Ok(())
    } else {
        Err(errors)
    }
}

fn check_credentials(errors: &mut Vec<FieldError>, email: &str, password: &str)
    ensures
        faults_of(final(errors)@) == faults_of(old(errors)@) + credential_faults(email@, password@),
{
    note(errors, !is_email(email), "email", "Invalid email format");
    note(errors, email.unicode_len() < 1, "email", "Email is required");
    note(errors, password.unicode_len() < 8, "password", "Password must be at least 8 characters");
    let content = regex_is_match("^.*[A-Za-z].*\\d.*$|^.*\\d.*[A-Za-z].*$", password);
    note(
        errors,
        !matches!(content, Some(true)),
        "password",
        "Password must contain at least one number and one letter",
    );
    assert(faults_of(errors@) =~= faults_of(old(errors)@) + credential_faults(email@, password@));
}

impl AuthRequest {
    /// Checks the request: `Ok` if nothing is wrong with it, else every fault found, in
    /// the order of `credential_faults`.
    pub fn validate(&self) -> (outcome: Result<(), Vec<FieldError>>)
        ensures
            match outcome {
                Ok(_) => credential_faults(self.email@, self.password@).len() == 0,
                Err(errors) => errors@.len() > 0 && faults_of(errors@) == credential_faults(
                    self.email@,
                    self.password@,
                ),
            },
    {
        let mut errors: Vec<FieldError> = Vec::new();
        assert(faults_of(errors@) =~= Seq::<(Seq<char>, Seq<char>)>::empty());
        check_credentials(&mut errors, self.email.as_str(), self.password.as_str());
        assert(faults_of(errors@) =~= credential_faults(self.email@, self.password@));
        verdict_on(errors)
    }
}

impl RegisterRequest {
    /// Checks the request: `Ok` if nothing is wrong with it, else every fault found, in
    /// the order of `registration_faults`.
    pub fn validate(&self) -> (outcome: Result<(), Vec<FieldError>>)
        ensures
            match outcome {
                Ok(_) => registration_faults(*self).len() == 0,
                Err(errors) => errors@.len() > 0 && faults_of(errors@) == registration_faults(*self),
            },
    {
        let mut errors: Vec<FieldError> = Vec::new();
        assert(faults_of(errors@) =~= Seq::<(Seq<char>, Seq<char>)>::empty());
        check_credentials(&mut errors, self.email.as_str(), self.password.as_str());
        let nameless = match &self.name {
            Some(name) => name.as_str().unicode_len() < 1,
            None => false,
        };
        note(&mut errors, nameless, "name", "Name is required");
        assert(faults_of(errors@) =~= registration_faults(*self));
        verdict_on(errors)
    }
}

impl LoginRequest {
    /// Checks the request: `Ok` if nothing is wrong with it, else every fault found, in
    /// the order of `login_faults`.
    pub fn validate(&self) -> (outcome: Result<(), Vec<FieldError>>)
        ensures
            match outcome {
                Ok(_) => login_faults(self.email@, self.password@).len() == 0,
                Err(errors) => errors@.len() > 0 && faults_of(errors@) == login_faults(
                    self.email@,
                    self.password@,
                ),
            },
    {
        let mut errors: Vec<FieldError> = Vec::new();
        assert(faults_of(errors@) =~= Seq::<(Seq<char>, Seq<char>)>::empty());
        note(&mut errors, !is_email(self.email.as_str()), "email", "Invalid email address");
        note(
            &mut errors,
            self.password.as_str().unicode_len() < 6,
            "password",
            "Password must be at least 6 characters long",
        );
        assert(faults_of(errors@) =~= login_faults(self.email@, self.password@));
        verdict_on(errors)
    }
}

} // verus!
