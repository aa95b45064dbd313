//! The registration pipeline: raw form fields are validated into a
//! `NewSubscriber`, an accepted subscriber becomes a `SubscriberRecord`
//! carrying a fresh identifier and the acceptance time, and the record
//! is handed to the surrounding code for the single insert.

use crate::domain::{
    email_syntax_ok, is_valid_subscriber_name, NewSubscriber, SubscriberEmail, SubscriberName,
};
use vstd::prelude::*;

verus! {

/// The two raw fields of one subscription form submission.
pub struct FormData {
    pub email: String,
    pub name: String,
}

/// Validates both form fields, name first: the first failure is
/// returned as it is, and nothing of a partially valid submission
/// survives.
pub fn parse_subscriber(form: FormData) -> (r: Result<NewSubscriber, String>)
    ensures
        r is Ok <==> is_valid_subscriber_name(form.name@) && email_syntax_ok(form.email@),
        r matches Ok(ns) ==> ns.name@ == form.name@ && ns.email@ == form.email@,
        !is_valid_subscriber_name(form.name@) ==> (r matches Err(e) && e@ == form.name@
            + " is not a valid subscriber name."@),
        is_valid_subscriber_name(form.name@) && !email_syntax_ok(form.email@) ==> (r matches Err(e)
            && e@ == form.email@ + " is not a valid subscriber email."@),
{
    let name = match SubscriberName::parse(form.name) {
        Ok(name) => name,
        Err(e) => {
            return Err(e);
        },
    };
    let email = match SubscriberEmail::parse(form.email) {
        Ok(email) => email,
        Err(e) => {
            return Err(e);
        },
    };
    Ok(NewSubscriber { email, name })
}

impl NewSubscriber {
    /// Validates the two raw fields of a form submission, name first,
    /// exactly as `parse_subscriber` does.
    pub fn try_from(value: FormData) -> (r: Result<NewSubscriber, String>)
        ensures
            r is Ok <==> is_valid_subscriber_name(value.name@) && email_syntax_ok(value.email@),
            r matches Ok(ns) ==> ns.name@ == value.name@ && ns.email@ == value.email@,
            !is_valid_subscriber_name(value.name@) ==> (r matches Err(e) && e@ == value.name@
                + " is not a valid subscriber name."@),
            is_valid_subscriber_name(value.name@) && !email_syntax_ok(value.email@) ==> (
            r matches Err(e) && e@ == value.email@ + " is not a valid subscriber email."@),
    {
        parse_subscriber(value)
    }
}

/// Relies on uuid's `Uuid::new_v4`: a random identifier whose version
/// nibble is always four. Nothing else holds of it; in particular no
/// two calls are promised distinct, only overwhelmingly likely so.
#[verifier::external_body]
fn fresh_subscriber_id() -> (r: u128)
    ensures
        (r >> 76) & 0xf == 4,
{
    uuid::Uuid::new_v4().as_u128()
}

/// Relies on chrono's `Utc::now`: the current UTC time, here as
/// milliseconds since the Unix epoch. Nothing holds of the value; it
/// depends on the clock.
#[verifier::external_body]
fn current_utc_millis() -> (r: i64)
{
    chrono::Utc::now().timestamp_millis()
}

/// An accepted subscriber: both fields validated, an identifier
/// generated at acceptance, and the acceptance time in UTC
/// milliseconds since the Unix epoch.
pub struct SubscriberRecord {
    pub id: u128,
    pub email: SubscriberEmail,
    pub name: SubscriberName,
    pub subscribed_at_millis: i64,
}

/// Turns one form submission into an accepted subscriber record, or
/// the validation failure that stopped it. On success the record
/// carries the submitted fields unchanged, a freshly drawn identifier
/// and the acceptance time; on failure nothing is produced at all.
pub fn register(form: FormData) -> (r: Result<SubscriberRecord, String>)
    ensures
        r is Ok <==> is_valid_subscriber_name(form.name@) && email_syntax_ok(form.email@),
        r matches Ok(rec) ==> rec.name@ == form.name@ && rec.email@ == form.email@ && (rec.id >> 76)
            & 0xf == 4,
        !is_valid_subscriber_name(form.name@) ==> (r matches Err(e) && e@ == form.name@
            + " is not a valid subscriber name."@),
        is_valid_subscriber_name(form.name@) && !email_syntax_ok(form.email@) ==> (r matches Err(e)
            && e@ == form.email@ + " is not a valid subscriber email."@),
{
    match parse_subscriber(form) {
        Ok(ns) => Ok(
            SubscriberRecord {
                id: fresh_subscriber_id(),
                email: ns.email,
                name: ns.name,
                subscribed_at_millis: current_utc_millis(),
            },
        ),
        Err(e) => Err(e),
    }
}

/// How one registration attempt ended, seen from the inbound HTTP
/// boundary.
#[derive(Debug, PartialEq, Eq, Structural)]
pub enum RegistrationOutcome {
    /// Validation passed and the insert succeeded.
    Accepted,
    /// Validation rejected the submission; nothing was written.
    InvalidInput,
    /// Validation passed but the insert failed.
    StorageFailed,
}

/// The HTTP status answered for each registration outcome: success,
/// client error, or server error.
pub fn response_status(outcome: &RegistrationOutcome) -> (s: u16)
    ensures
        *outcome is Accepted ==> s == 200,
        *outcome is InvalidInput ==> s == 400,
        *outcome is StorageFailed ==> s == 500,
{
    match outcome {
        RegistrationOutcome::Accepted => 200,
        RegistrationOutcome::InvalidInput => 400,
        RegistrationOutcome::StorageFailed => 500,
    }
}

} // verus!
