//! Settings of the service: where the data lives and where the server
//! listens.

use crate::text::{
    all_digits, decimal_text, decimal_text_spells, decimal_value, decimal_value_grows, digit_of,
    digit_text, digit_value, optional_text,
};
use vstd::prelude::*;

verus! {

/// The digits of a port text: all of it, but for a `+` in front.
pub open spec fn port_digits(text: Seq<char>) -> Seq<char> {
    if text.len() > 0 && text[0] == '+' {
        text.skip(1)
    } else {
        text
    }
}

/// The port that a text names: decimal digits, at least one, optionally
/// after a single `+`, spelling a number of at most 65535.
pub open spec fn port_number(text: Seq<char>) -> Option<u16> {
    let digits = port_digits(text);
    if digits.len() > 0 && all_digits(digits) && decimal_value(digits) <= u16::MAX {
        Some(decimal_value(digits) as u16)
    } else {
        None
    }
}

/// Where the data lives and where the server listens.
#[derive(Debug, Clone)]
pub struct Config {
    pub database_url: String,
    pub server_host: String,
    pub server_port: u16,
    pub session_secret: String,
}

/// The mathematical content of a `Config`.
pub struct ConfigModel {
    pub database_url: Seq<char>,
    pub server_host: Seq<char>,
    pub server_port: u16,
    pub session_secret: Seq<char>,
}

impl View for Config {
    type V = ConfigModel;

    open spec fn view(&self) -> ConfigModel {
        ConfigModel {
            database_url: self.database_url@,
            server_host: self.server_host@,
            server_port: self.server_port,
            session_secret: self.session_secret@,
        }
    }
}

impl ConfigModel {
    /// The address to listen on: host, a colon, and the port in decimal.
    pub open spec fn server_addr(self) -> Seq<char> {
        self.server_host + seq![':'] + decimal_text(self.server_port as nat)
    }
}

/// The settings that result from the values found in the environment, each
/// absent value replaced by its default; `None` when the port is not a port
/// number.
pub open spec fn configured(
    database_url: Option<Seq<char>>,
    server_host: Option<Seq<char>>,
    server_port: Option<Seq<char>>,
    session_secret: Option<Seq<char>>,
) -> Option<ConfigModel> {
    match port_number(server_port.unwrap_or("3000"@)) {
        Some(port) => Some(
            ConfigModel {
                database_url: database_url.unwrap_or("loans.db"@),
                server_host: server_host.unwrap_or("127.0.0.1"@),
                server_port: port,
                session_secret: session_secret.unwrap_or(
                    "super-secret-key-change-in-production-at-least-47-characters-long"@,
                ),
            },
        ),
        None => None,
    }
}

/// Every port is read back from its decimal numeral.
pub proof fn port_round_trip(port: u16)
    ensures
        port_number(decimal_text(port as nat)) == Some(port),
{
    decimal_text_spells(port as nat);
    assert(digit_value(decimal_text(port as nat)[0]) is Some);
}

/// Reads a port number.
pub fn parse_port(text: &str) -> (port: Option<u16>)
    ensures
        port == port_number(text@),
{
    let len: usize = text.unicode_len();
    if len == 0 {
        return None;
    }
    let start: usize = if text.get_char(0) == '+' { 1 } else { 0 };
    if start == len {
        return None;
    }
    let ghost digits: Seq<char> = port_digits(text@);
    let mut value: u32 = 0;
    let mut i: usize = start;
    while i < len
        invariant
            start <= i <= len,
            len == text@.len(),
            digits == port_digits(text@),
            digits == text@.skip(start as int),
            digits.len() == len - start,
            digits.len() > 0,
            all_digits(digits.take(i - start)),
            value == decimal_value(digits.take(i - start)),
            value <= u16::MAX,
        decreases len - i,
    {
        let ghost seen: Seq<char> = digits.take(i - start);
        let ghost next: Seq<char> = digits.take(i - start + 1);
        assert(next.drop_last() =~= seen);
        match digit_of(text.get_char(i)) {
            Some(d) => {
                value = value * 10 + d;
                if value > 65535 {
                    proof {
                        decimal_value_grows(digits, i - start + 1);
                    }
                    return None;
                }
            },
            None => {
                return None;
            },
        }
        i = i + 1;
    }
    assert(digits.take(len - start) =~= digits);
    Some(value as u16)
}

/// The decimal numeral of a port.
pub fn port_text(port: u16) -> (text: String)
    ensures
        text@ == decimal_text(port as nat),
    decreases port,
{
    if port < 10 {
        String::from_str(digit_text(port))
    } else {
        let mut text: String = port_text(port / 10);
        text.append(digit_text(port % 10));
        text
    }
}

impl Config {
    /// Builds the settings from the values found in the environment.  An
    /// absent value takes its default; a port that cannot be read is an
    /// error.
    pub fn from_vars(
        database_url: Option<String>,
        server_host: Option<String>,
        server_port: Option<String>,
        session_secret: Option<String>,
    ) -> (r: Result<Config, String>)
        ensures
            match r {
                Ok(config) => Some(config@) == configured(
                    optional_text(database_url),
                    optional_text(server_host),
                    optional_text(server_port),
                    optional_text(session_secret),
                ),
                Err(message) => message@ == "Invalid SERVER_PORT"@ && configured(
                    optional_text(database_url),
                    optional_text(server_host),
                    optional_text(server_port),
                    optional_text(session_secret),
                ) is None,
            },
    {
        let port_text: String = match server_port {
            Some(text) => text,
            None => String::from_str("3000"),
        };
        let port: u16 = match parse_port(port_text.as_str()) {
            Some(port) => port,
            None => {
                return Err(String::from_str("Invalid SERVER_PORT"));
            },
        };
        Ok(
            Config {
                database_url: match database_url {
                    Some(text) => text,
                    None => String::from_str("loans.db"),
                },
                server_host: match server_host {
                    Some(text) => text,
                    None => String::from_str("127.0.0.1"),
                },
                server_port: port,
                session_secret: match session_secret {
                    Some(text) => text,
                    None => String::from_str(
                        "super-secret-key-change-in-production-at-least-47-characters-long",
                    ),
                },
            },
        )
    }

    /// The address to listen on.
    pub fn server_addr(&self) -> (addr: String)
        ensures
            addr@ == self@.server_addr(),
    {
        let mut addr: String = self.server_host.clone();
        proof {
            reveal_strlit(":");
        }
        addr.append(":");
        let port: String = port_text(self.server_port);
        addr.append(port.as_str());
        addr
    }
}

} // verus!
