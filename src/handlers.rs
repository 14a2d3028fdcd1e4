//! The decisions of the notify request: the key check, which day is
//! announced, and the status the request answers with.

use vstd::prelude::*;
use crate::config::Config;
use crate::error::{AppError, kind_of, status_of, type_code_of};
use crate::models::{Buddha, BuddhaDate, QueryParams, date_key};
use crate::services::buddha::{CalendarMap, is_listed, resolves, today_label};
use crate::services::discord::{is_success, is_delivery_result};

verus! {

/// The status of a health check.
pub const HEALTH_STATUS: u16 = 200;

/// The status of a request that sent a notification.
pub const STATUS_OK: u16 = 200;

/// The status of a request for which neither day is an observance day.
pub const STATUS_NO_CONTENT: u16 = 204;

/// The status of a health check: always success.
pub fn health_check() -> (r: u16)
    ensures
        r == 200,
{
    HEALTH_STATUS
}

/// Whether a caller's key is the configured secret.
pub fn authenticate(key: &str, secret: &str) -> (r: bool)
    ensures
        r == (key@ == secret@),
{
    String::from_str(key) == String::from_str(secret)
}

/// The outcome of the key check: success exactly when the key is the
/// secret, an authentication error otherwise.
pub open spec fn is_key_check(key: Seq<char>, secret: Seq<char>, r: Result<(), AppError>) -> bool {
    &&& (r is Ok <==> key == secret)
    &&& (r is Err ==> r->Err_0 is AuthenticationError)
}

/// Accepts the request exactly when its key is the configured one.
pub fn check_key(params: &QueryParams, config: &Config) -> (r: Result<(), AppError>)
    ensures
        is_key_check(params.key@, config.api_key@, r),
{
    if authenticate(params.key.as_str(), config.api_key.as_str()) {
        Ok(())
    } else {
        Err(AppError::AuthenticationError(String::from_str("Invalid API key")))
    }
}

/// The message a lookup calls for: today's description if today is an
/// observance day, else tomorrow's if tomorrow is, else none.
pub open spec fn message_for(b: Buddha) -> Option<Seq<char>> {
    if b.today.found {
        Some(b.today.description@)
    } else if b.tomorrow.found {
        Some(b.tomorrow.description@)
    } else {
        None
    }
}

/// The message to send for a lookup; at most one, today first.
pub fn notification_message(buddha: &Buddha) -> (r: Option<String>)
    ensures
        match r {
            Some(m) => message_for(*buddha) == Some(m@),
            None => message_for(*buddha) is None,
        },
{
    if buddha.today.found {
        Some(buddha.today.description.clone())
    } else if buddha.tomorrow.found {
        Some(buddha.tomorrow.description.clone())
    } else {
        None
    }
}

/// The status a request answers with, given what became of its
/// notification: none sent, sent, or failed.
pub open spec fn request_status(sent: Option<Result<bool, AppError>>) -> Result<u16, AppError> {
    match sent {
        None => Ok(204),
        Some(Ok(_)) => Ok(200),
        Some(Err(e)) => Err(e),
    }
}

/// The answer of a request whose key was accepted and whose lookup is done:
/// no content where no message was due, success where the message was
/// delivered, and the delivery's error otherwise.
pub fn response_status(sent: Option<Result<bool, AppError>>) -> (r: Result<u16, AppError>)
    ensures
        r == request_status(sent),
{
    match sent {
        None => Ok(STATUS_NO_CONTENT),
        Some(Ok(_)) => Ok(STATUS_OK),
        Some(Err(e)) => Err(e),
    }
}

/// A key that differs from the configured secret is turned away with 401 and
/// the type code `AUTHENTICATION_ERROR`.
pub proof fn lemma_wrong_key_is_unauthorized(
    key: Seq<char>,
    secret: Seq<char>,
    r: Result<(), AppError>,
)
    requires
        is_key_check(key, secret, r),
        key != secret,
    ensures
        r is Err,
        status_of(kind_of(r->Err_0)) == 401,
        type_code_of(kind_of(r->Err_0)) == "AUTHENTICATION_ERROR"@,
{
}

/// With the right key, when neither date is listed in the calendar, no
/// message is due and the request answers 204.
pub proof fn lemma_no_observance_is_no_content(b: Buddha, date: BuddhaDate, calendar: CalendarMap)
    requires
        resolves(b, date, calendar),
        !is_listed(calendar, date_key(date.today)),
        !is_listed(calendar, date_key(date.tomorrow)),
    ensures
        message_for(b) is None,
        request_status(None) == Ok::<u16, AppError>(204),
{
}

/// When both dates are listed, only today's description is sent, and a
/// delivered message answers 200.
pub proof fn lemma_today_takes_priority(
    b: Buddha,
    date: BuddhaDate,
    calendar: CalendarMap,
    delivered: bool,
)
    requires
        resolves(b, date, calendar),
        is_listed(calendar, date_key(date.today)),
        is_listed(calendar, date_key(date.tomorrow)),
    ensures
        message_for(b) == Some(today_label() + calendar[date_key(date.today)][0]),
        request_status(Some(Ok(delivered))) == Ok::<u16, AppError>(200),
{
}

/// A failed delivery answers 502 with the type code `DISCORD_NOTIFY_ERROR`;
/// a delivered one answers 200.
pub proof fn lemma_delivery_status(status: u16, outcome: Result<bool, AppError>)
    requires
        is_delivery_result(status, outcome),
    ensures
        !is_success(status) ==> request_status(Some(outcome)) is Err && status_of(
            kind_of(request_status(Some(outcome))->Err_0),
        ) == 502 && type_code_of(kind_of(request_status(Some(outcome))->Err_0))
            == "DISCORD_NOTIFY_ERROR"@,
        is_success(status) ==> request_status(Some(outcome)) == Ok::<u16, AppError>(200),
{
}

} // verus!
