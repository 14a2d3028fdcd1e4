//! Process settings and the rules that build them from raw values.

use vstd::prelude::*;
use crate::error::AppError;
use crate::text::{append_decimal, decimal};

verus! {

/// The host served on when none is configured.
pub open spec fn default_host() -> Seq<char> {
    "127.0.0.1"@
}

/// The port served on when none is configured.
pub const DEFAULT_PORT: u16 = 9001;

/// The settings of the service.
#[derive(Debug, Clone)]
pub struct Config {
    pub server_host: String,
    pub server_port: u16,
    pub buddha_endpoint: String,
    pub discord_webhook_url: String,
    pub api_key: String,
}

pub open spec fn is_digit(c: char) -> bool {
    '0' <= c <= '9'
}

/// The number that a sequence of decimal digits denotes.
pub open spec fn digits_value(s: Seq<char>) -> nat
    decreases s.len(),
{
    if s.len() == 0 {
        0
    } else {
        digits_value(s.drop_last()) * 10 + ((s.last() as nat) - ('0' as nat)) as nat
    }
}

/// The digits of a port number, after an optional leading `+`.
pub open spec fn port_digits(s: Seq<char>) -> Seq<char> {
    if s.len() > 0 && s[0] == '+' {
        s.skip(1)
    } else {
        s
    }
}

/// The port that a text names: one or more decimal digits, optionally after a
/// `+`, denoting at most 65535.
pub open spec fn port_of(s: Seq<char>) -> Option<u16> {
    let d = port_digits(s);
    if d.len() > 0 && (forall|i: int| 0 <= i < d.len() ==> is_digit(#[trigger] d[i]))
        && digits_value(d) <= 65535 {
        Some(digits_value(d) as u16)
    } else {
        None
    }
}

proof fn lemma_digits_value_monotone(s: Seq<char>, i: int)
    requires
        0 <= i <= s.len(),
        forall|j: int| 0 <= j < s.len() ==> is_digit(#[trigger] s[j]),
    ensures
        digits_value(s.take(i)) <= digits_value(s),
    decreases s.len() - i,
{
    if i < s.len() {
        lemma_digits_value_monotone(s, i + 1);
        assert(s.take(i + 1).drop_last() =~= s.take(i));
    } else {
        assert(s.take(i) =~= s);
    }
}

/// Reads a port number as `u16::from_str` does.
pub fn parse_port(s: &str) -> (r: Option<u16>)
    ensures
        r == port_of(s@),
{
    let n = s.unicode_len();
    let mut start: usize = 0;
    if n > 0 && s.get_char(0) == '+' {
        start = 1;
    }
    let ghost d = port_digits(s@);
    assert(d =~= s@.skip(start as int));
    if start >= n {
        return None;
    }
    let mut value: u32 = 0;
    let mut i: usize = start;
    while i < n
        invariant
            start <= i <= n,
            n == s@.len(),
            d =~= s@.skip(start as int),
            d == port_digits(s@),
            value as nat == digits_value(d.take(i - start)),
            value <= 65535,
            forall|j: int| 0 <= j < i - start ==> is_digit(#[trigger] d[j]),
        decreases n - i,
    {
        let c = s.get_char(i);
        proof {
            assert(d.take(i - start + 1).drop_last() =~= d.take(i - start));
            assert(d[i - start] == c);
        }
        if !('0' <= c && c <= '9') {
            proof {
                assert(!is_digit(d[i - start]));
            }
            return None;
        }
        let next: u32 = value * 10 + (c as u32 - '0' as u32);
        if next > 65535 {
            proof {
                assert(forall|j: int| 0 <= j < i - start + 1 ==> is_digit(#[trigger] d[j]));
                assert(digits_value(d.take(i - start + 1)) == next);
                if forall|j: int| 0 <= j < d.len() ==> is_digit(#[trigger] d[j]) {
                    lemma_digits_value_monotone(d, i - start + 1);
                }
            }
            return None;
        }
        value = next;
        i = i + 1;
    }
    assert(d.take(n - start) =~= d);
    Some(value as u16)
}

/// Whether a raw port value is absent or names a valid port.
pub open spec fn port_is_valid(port: Option<String>) -> bool {
    match port {
        Some(p) => port_of(p@) is Some,
        None => true,
    }
}

impl Config {
    /// `host:port`, the address served on.
    pub fn server_addr(&self) -> (r: String)
        ensures
            r@ == self.server_host@ + ":"@ + decimal(self.server_port as int),
    {
        proof {
            reveal_strlit(":");
        }
        let mut s = self.server_host.clone();
        s.append(":");
        append_decimal(&mut s, self.server_port as i64);
        s
    }

    /// Builds the settings from the raw values of the environment: host and
    /// port fall back to their defaults, the port must be a valid number, and
    /// the calendar endpoint, the webhook URL and the key are required.
    pub fn from_values(
        host: Option<String>,
        port: Option<String>,
        buddha_endpoint: Option<String>,
        discord_webhook_url: Option<String>,
        api_key: Option<String>,
    ) -> (r: Result<Config, AppError>)
        ensures
            (port is Some && port_of(port->Some_0@) is None) || buddha_endpoint is None
                || discord_webhook_url is None || api_key is None <==> r is Err,
            r is Err ==> r->Err_0 is ConfigError,
            port is Some && port_of(port->Some_0@) is None ==> r is Err && r->Err_0.detail()
                == "Invalid SERVER_PORT"@,
            port_is_valid(port) && buddha_endpoint is None ==> r is Err && r->Err_0.detail()
                == "BUDDHA_ENDPOINT environment variable is required"@,
            port_is_valid(port) && buddha_endpoint is Some && discord_webhook_url is None ==> r is Err
                && r->Err_0.detail() == "DISCORD_WEBHOOK_URL environment variable is required"@,
            port_is_valid(port) && buddha_endpoint is Some && discord_webhook_url is Some
                && api_key is None ==> r is Err && r->Err_0.detail()
                == "API_KEY environment variable is required"@,
            r is Ok ==> {
                let c = r->Ok_0;
                &&& c.server_host@ == (match host {
                    Some(h) => h@,
                    None => default_host(),
                })
                &&& c.server_port == (match port {
                    Some(p) => port_of(p@)->Some_0,
                    None => DEFAULT_PORT,
                })
                &&& c.buddha_endpoint == buddha_endpoint->Some_0
                &&& c.discord_webhook_url == discord_webhook_url->Some_0
                &&& c.api_key == api_key->Some_0
            },
    {
        proof {
            reveal_strlit("127.0.0.1");
        }
        let server_host = match host {
            Some(h) => h,
            None => String::from_str("127.0.0.1"),
        };
        let server_port = match port {
            Some(p) => match parse_port(p.as_str()) {
                Some(v) => v,
                None => {
                    return Err(AppError::ConfigError(String::from_str("Invalid SERVER_PORT")));
                },
            },
            None => DEFAULT_PORT,
        };
        let buddha_endpoint = match buddha_endpoint {
            Some(v) => v,
            None => {
                return Err(
                    AppError::ConfigError(
                        String::from_str("BUDDHA_ENDPOINT environment variable is required"),
                    ),
                );
            },
        };
        let discord_webhook_url = match discord_webhook_url {
            Some(v) => v,
            None => {
                return Err(
                    AppError::ConfigError(
                        String::from_str("DISCORD_WEBHOOK_URL environment variable is required"),
                    ),
                );
            },
        };
        let api_key = match api_key {
            Some(v) => v,
            None => {
                return Err(
                    AppError::ConfigError(
                        String::from_str("API_KEY environment variable is required"),
                    ),
                );
            },
        };
        Ok(Config { server_host, server_port, buddha_endpoint, discord_webhook_url, api_key })
    }
}

} // verus!
