//! The chat notifier: the webhook payload and what a delivery status means.

use vstd::prelude::*;
use crate::config::Config;
use crate::error::AppError;
use crate::text::{append_decimal, decimal};

verus! {

/// A lowercase hexadecimal digit.
pub open spec fn hex_digit(n: nat) -> char {
    if n < 10 {
        (('0' as nat) + n) as char
    } else {
        (('a' as nat) + n - 10) as char
    }
}

/// How one character is written inside a JSON string: quote and backslash
/// after a backslash, the usual short escapes, other control characters as
/// `\u00XX`, and everything else as it is.
pub open spec fn json_escape_char(c: char) -> Seq<char> {
    if c == '"' {
        seq!['\\', '"']
    } else if c == '\\' {
        seq!['\\', '\\']
    } else if c == '\x08' {
        seq!['\\', 'b']
    } else if c == '\t' {
        seq!['\\', 't']
    } else if c == '\n' {
        seq!['\\', 'n']
    } else if c == '\x0c' {
        seq!['\\', 'f']
    } else if c == '\r' {
        seq!['\\', 'r']
    } else if (c as nat) < 32 {
        seq!['\\', 'u', '0', '0', hex_digit((c as nat) / 16), hex_digit((c as nat) % 16)]
    } else {
        seq![c]
    }
}

/// The characters of a string, each escaped for JSON.
pub open spec fn json_escape(s: Seq<char>) -> Seq<char>
    decreases s.len(),
{
    if s.len() == 0 {
        Seq::empty()
    } else {
        json_escape(s.drop_last()) + json_escape_char(s.last())
    }
}

/// The JSON string literal of a string.
pub open spec fn json_string_literal(s: Seq<char>) -> Seq<char> {
    seq!['"'] + json_escape(s) + seq!['"']
}

/// Relies on `serde_json::to_string` applied to a `&str`: a quote, each
/// character escaped as `format_escaped_str_contents` does, and a quote.
/// Serializing a string into memory does not fail.
#[verifier::external_body]
fn to_json_string(s: &str) -> (r: String)
    ensures
        r@ == json_string_literal(s@),
{
    serde_json::to_string(s).unwrap_or_default()
}

/// The body posted to the webhook for a message, given the JSON literal of
/// the message: `{"username":"Notify","content":<message>}`.
pub open spec fn payload_of(message_json: Seq<char>) -> Seq<char> {
    "{\"username\":\"Notify\",\"content\":"@ + message_json + "}"@
}

/// Whether an HTTP status reports success.
pub open spec fn is_success(status: u16) -> bool {
    200 <= status <= 299
}

/// The detail of the error that a failed delivery ends in.
pub open spec fn delivery_failure_detail(status: u16) -> Seq<char> {
    "Failed to send notification: "@ + decimal(status as int)
}

/// What a webhook answer with `status` means: success for any 2xx status,
/// else a notify error that names the status.
pub open spec fn is_delivery_result(status: u16, r: Result<bool, AppError>) -> bool {
    if is_success(status) {
        r == Ok::<bool, AppError>(true)
    } else {
        r is Err && r->Err_0 is DiscordNotifyError && r->Err_0.detail() == delivery_failure_detail(
            status,
        )
    }
}

/// The notifier: its settings.
pub struct DiscordNotifyServiceImpl {
    pub config: Config,
}

impl DiscordNotifyServiceImpl {
    pub fn new(config: Config) -> (r: DiscordNotifyServiceImpl)
        ensures
            r.config == config,
    {
        DiscordNotifyServiceImpl { config }
    }

    /// The JSON body that announces `message`.
    pub fn notification_payload(&self, message: &str) -> (r: String)
        ensures
            r@ == payload_of(json_string_literal(message@)),
    {
        proof {
            reveal_strlit("{\"username\":\"Notify\",\"content\":");
            reveal_strlit("}");
        }
        let j = to_json_string(message);
        let mut body = String::from_str("{\"username\":\"Notify\",\"content\":");
        body.append(j.as_str());
        body.append("}");
        body
    }

    /// What a webhook answer with `status` means: success for any 2xx status,
    /// else a notify error that names the status.
    pub fn delivery_result(&self, status: u16) -> (r: Result<bool, AppError>)
        ensures
            is_delivery_result(status, r),
    {
        if 200 <= status && status <= 299 {
            Ok(true)
        } else {
            proof {
                reveal_strlit("Failed to send notification: ");
            }
            let mut detail = String::from_str("Failed to send notification: ");
            append_decimal(&mut detail, status as i64);
            Err(AppError::DiscordNotifyError(detail))
        }
    }
}

} // verus!
