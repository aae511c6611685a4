use vstd::prelude::*;
use crate::error::{ApiError, Field};
use crate::model::{Date, LoginDto, RegisterUserDto};

verus! {

/// Fewest characters in a user name or password.
pub const MIN_CREDENTIAL_CHARS: u64 = 6;

/// Whether the e-mail validator accepts a text as an address.
pub uninterp spec fn email_accepted(s: Seq<char>) -> bool;

/// Relies on `validator::validate_length` with only a minimum: a text passes
/// when it has at least `min` characters.
#[verifier::external_body]
fn has_min_chars(s: &str, min: u64) -> (r: bool)
    ensures
        r == (s@.len() >= min),
{
    validator::validate_length(s, Some(min), None, None)
}

/// Relies on `validator::validate_email`: the HTML5 user part rule, and a
/// domain part checked as a host name, an IP literal or an internationalised
/// name.
#[verifier::external_body]
fn is_email(s: &str) -> (r: bool)
    ensures
        r == email_accepted(s@),
{
    validator::validate_email(s)
}

pub open spec fn field_names(fields: Seq<Field>) -> Seq<Seq<char>> {
    fields.map_values(|f: Field| f.field_name@)
}

/// Names of the fields of a login request that fail validation, in field order.
pub open spec fn login_faults(dto: LoginDto) -> Seq<Seq<char>> {
    (if dto.username@.len() >= MIN_CREDENTIAL_CHARS { seq![] } else { seq!["username"@] }) + (
    if dto.password@.len() >= MIN_CREDENTIAL_CHARS {
        seq![]
    } else {
        seq!["password"@]
    })
}

/// Names of the fields of a registration request that fail validation, in
/// field order; the date of birth must exist.
pub open spec fn registration_faults(dto: RegisterUserDto) -> Seq<Seq<char>> {
    (if dto.username@.len() >= MIN_CREDENTIAL_CHARS { seq![] } else { seq!["username"@] }) + (
    if email_accepted(dto.email@) {
        seq![]
    } else {
        seq!["email"@]
    }) + (if dto.password@.len() >= MIN_CREDENTIAL_CHARS {
        seq![]
    } else {
        seq!["password"@]
    }) + (if dto.date_of_birth.is_valid() {
        seq![]
    } else {
        seq!["date_of_birth"@]
    })
}

fn push_field(fields: &mut Vec<Field>, name: &str)
    ensures
        field_names(final(fields)@) == field_names(old(fields)@).push(name@),
{
    fields.push(Field { field_name: name.to_owned() });
    assert(field_names(fields@) =~= field_names(old(fields)@).push(name@));
}

/// The outcome of validating a request whose failing fields are `fields`.
fn outcome(fields: Vec<Field>) -> (r: Result<(), ApiError>)
    ensures
        fields@.len() == 0 ==> r is Ok,
        fields@.len() > 0 ==> (r matches Err(ApiError::JsonValidationFailed(f)) && f@ == fields@),
{
    if fields.len() == 0 {
        Ok(())
    } else {
        Err(ApiError::JsonValidationFailed(fields))
    }
}

impl LoginDto {
    /// Checks that user name and password have at least
    /// `MIN_CREDENTIAL_CHARS` characters; names the fields that do not.
    pub fn validate(&self) -> (r: Result<(), ApiError>)
        ensures
            r is Ok <==> login_faults(*self).len() == 0,
            r matches Err(e) ==> (e matches ApiError::JsonValidationFailed(f) && field_names(f@)
                == login_faults(*self)),
    {
        let mut fields: Vec<Field> = Vec::new();
        assert(field_names(fields@) =~= seq![]);
        if !has_min_chars(self.username.as_str(), MIN_CREDENTIAL_CHARS) {
            push_field(&mut fields, "username");
        }
        if !has_min_chars(self.password.as_str(), MIN_CREDENTIAL_CHARS) {
            push_field(&mut fields, "password");
        }
        assert(field_names(fields@) =~= login_faults(*self));
        outcome(fields)
    }
}

impl RegisterUserDto {
    /// Checks that user name and password have at least
    /// `MIN_CREDENTIAL_CHARS` characters and that the e-mail address is one;
    /// names the fields that fail.
    pub fn validate(&self) -> (r: Result<(), ApiError>)
        ensures
            r is Ok <==> registration_faults(*self).len() == 0,
            r matches Err(e) ==> (e matches ApiError::JsonValidationFailed(f) && field_names(f@)
                == registration_faults(*self)),
    {
        let mut fields: Vec<Field> = Vec::new();
        assert(field_names(fields@) =~= seq![]);
        if !has_min_chars(self.username.as_str(), MIN_CREDENTIAL_CHARS) {
            push_field(&mut fields, "username");
        }
        if !is_email(self.email.as_str()) {
            push_field(&mut fields, "email");
        }
        if !has_min_chars(self.password.as_str(), MIN_CREDENTIAL_CHARS) {
            push_field(&mut fields, "password");
        }
        let d = self.date_of_birth;
        if Date::new(d.year, d.month, d.day).is_none() {
            push_field(&mut fields, "date_of_birth");
        }
        assert(field_names(fields@) =~= registration_faults(*self));
        outcome(fields)
    }
}

} // verus!
