//! The settings that the service starts with, and the checks made on them at startup.

use crate::text::{has_prefix, joined};
use vstd::prelude::*;
use vstd::string::*;

verus! {

/// The settings of the service.
#[derive(Debug, Clone)]
pub struct Config {
    pub database_url: String,
    pub jwt_secret: String,
    pub server_addr: String,
}

/// The value of a decimal digit; none for any other character.
pub open spec fn digit_of(letter: char) -> Option<nat> {
    if letter == '0' {
        Some(0nat)
    } else if letter == '1' {
        Some(1nat)
    } else if letter == '2' {
        Some(2nat)
    } else if letter == '3' {
        Some(3nat)
    } else if letter == '4' {
        Some(4nat)
    } else if letter == '5' {
        Some(5nat)
    } else if letter == '6' {
        Some(6nat)
    } else if letter == '7' {
        Some(7nat)
    } else if letter == '8' {
        Some(8nat)
    } else if letter == '9' {
        Some(9nat)
    } else {
        None
    }
}

/// The number that a run of decimal digits stands for, leading zeros and all; none where
/// a character is no digit.
pub open spec fn digits_value(digits: Seq<char>) -> Option<nat>
    decreases digits.len(),
{
    if digits.len() == 0 {
        Some(0nat)
    } else {
        match (digits_value(digits.drop_last()), digit_of(digits.last())) {
            (Some(head), Some(digit)) => Some(head * 10 + digit),
            _ => None,
        }
    }
}

/// The digits of a number's text: the text without the `+` that may stand in front.
pub open spec fn unsigned_digits(text: Seq<char>) -> Seq<char> {
    if text.len() > 0 && text[0] == '+' {
        text.skip(1)
    } else {
        text
    }
}

/// The number below 65536 that `text` is the decimal notation of, as `str::parse::<u16>`
/// reads it: at least one digit, nothing but digits, with or without a `+` in front.
pub open spec fn parsed_u16(text: Seq<char>) -> Option<u16> {
    let digits = unsigned_digits(text);
    if digits.len() == 0 {
        None
    } else {
        match digits_value(digits) {
            Some(value) => if value <= u16::MAX {
                Some(value as u16)
            } else {
                None
            },
            None => None,
        }
    }
}

/// A run of digits that stands for a number has only beginnings that stand for numbers,
/// and none of them stands for a greater one.
pub proof fn lemma_digits_grow(digits: Seq<char>, length: int)
    requires
        0 <= length <= digits.len(),
        digits_value(digits) is Some,
    ensures
        digits_value(digits.take(length)) is Some,
        digits_value(digits.take(length))->Some_0 <= digits_value(digits)->Some_0,
    decreases digits.len(),
{
    if length == digits.len() {
        assert(digits.take(length) =~= digits);
    } else {
        assert(digits.drop_last().take(length) =~= digits.take(length));
        lemma_digits_grow(digits.drop_last(), length);
    }
}

fn digit_value(letter: char) -> (digit: Option<u32>)
    ensures
        match digit {
            Some(value) => digit_of(letter) == Some(value as nat),
            None => digit_of(letter) is None,
        },
{
    if letter == '0' {
        Some(0)
    } else if letter == '1' {
        Some(1)
    } else if letter == '2' {
        Some(2)
    } else if letter == '3' {
        Some(3)
    } else if letter == '4' {
        Some(4)
    } else if letter == '5' {
        Some(5)
    } else if letter == '6' {
        Some(6)
    } else if letter == '7' {
        Some(7)
    } else if letter == '8' {
        Some(8)
    } else if letter == '9' {
        Some(9)
    } else {
        None
    }
}

/// Reads a number below 65536 from its decimal notation.
pub fn parse_u16(text: &str) -> (number: Option<u16>)
    ensures
        number == parsed_u16(text@),
{
    broadcast use vstd::string::group_string_axioms;

    let mut value: u32 = 0;
    let mut first: bool = true;
    let mut plus: bool = false;
    let mut any: bool = false;
    let ghost digits = unsigned_digits(text@);
    for letter in letters: text.chars()
        invariant
            letters.seq() == text@,
            digits == unsigned_digits(text@),
            first == (letters.index() == 0),
            plus == (letters.index() > 0 && text@[0] == '+'),
            any == (letters.index() > (if plus { 1int } else { 0int })),
            letters.index() > 0 ==> digits == text@.skip(if plus { 1int } else { 0int }),
            value <= u16::MAX,
            digits_value(text@.subrange(if plus { 1int } else { 0int }, letters.index() as int)) == Some(
                value as nat,
            ),
    {
        let ghost at: int = letters.index() as int;
        if first && letter == '+' {
            first = false;
            plus = true;
            proof {
                assert(text@.subrange(1, 1) =~= Seq::<char>::empty());
            }
        } else {
            let ghost start: int = if plus { 1int } else { 0int };
            let ghost read = text@.subrange(start, at);
            let ghost longer = text@.subrange(start, at + 1);
            proof {
                assert(longer.drop_last() =~= read);
                assert(longer.last() == letter);
                assert(longer =~= digits.take(at + 1 - start));
            }
            first = false;
            match digit_value(letter) {
                None => {
                    proof {
                        if digits_value(digits) is Some {
                            lemma_digits_grow(digits, at + 1 - start);
                        }
                    }
                    return None;
                },
                Some(digit) => {
                    let next: u32 = value * 10 + digit;
                    if next > 65535 {
                        proof {
                            if digits_value(digits) is Some {
                                lemma_digits_grow(digits, at + 1 - start);
                            }
                        }
                        return None;
                    }
                    value = next;
                    any = true;
                },
            }
        }
    }
    proof {
        let start: int = if plus { 1int } else { 0int };
        if any {
            assert(text@.subrange(start, text@.len() as int) =~= digits);
        } else {
            assert(digits.len() == 0);
        }
    }
    if any {
        Some(value as u16)
    } else {
        None
    }
}

/// The port to listen on when none is set.
pub const DEFAULT_PORT: u16 = 8080;

/// The text of an optional setting.
pub open spec fn setting(value: Option<&str>) -> Option<Seq<char>> {
    match value {
        Some(text) => Some(text@),
        None => None,
    }
}

/// What is wrong with the settings that the service needs at startup, in the order in
/// which they are looked at: each of the four must be set, the port must be a port number,
/// and the database is addressed as `postgresql://`.
pub open spec fn settings_fault(
    database_url: Option<Seq<char>>,
    jwt_secret: Option<Seq<char>>,
    port: Option<Seq<char>>,
    rust_log: Option<Seq<char>>,
) -> Option<Seq<char>> {
    if database_url is None {
        Some("Missing required environment variable: "@ + "DATABASE_URL"@)
    } else if jwt_secret is None {
        Some("Missing required environment variable: "@ + "JWT_SECRET"@)
    } else if port is None {
        Some("Missing required environment variable: "@ + "PORT"@)
    } else if rust_log is None {
        Some("Missing required environment variable: "@ + "RUST_LOG"@)
    } else if parsed_u16(port->Some_0) is None {
        Some("PORT must be a valid number between 0 and 65535"@)
    } else if !"postgresql://"@.is_prefix_of(database_url->Some_0) {
        Some("DATABASE_URL must be a valid PostgreSQL connection string"@)
    } else {
        None
    }
}

fn missing(name: &str) -> (fault: Result<(), String>)
    ensures
        fault matches Err(text) && text@ == "Missing required environment variable: "@ + name@,
{
    Err(joined("Missing required environment variable: ", name))
}

/// Checks the four settings that the service needs at startup; each is handed in as it
/// was found, `None` for one that is not set. The first fault is reported.
pub fn validate_required_env_vars(
    database_url: Option<&str>,
    jwt_secret: Option<&str>,
    port: Option<&str>,
    rust_log: Option<&str>,
) -> (outcome: Result<(), String>)
    ensures
        match outcome {
            Ok(_) => settings_fault(
                setting(database_url),
                setting(jwt_secret),
                setting(port),
                setting(rust_log),
            ) is None,
            Err(fault) => settings_fault(
                setting(database_url),
                setting(jwt_secret),
                setting(port),
                setting(rust_log),
            ) == Some(fault@),
        },
{
    let database_url = match database_url {
        Some(text) => text,
        None => return missing("DATABASE_URL"),
    };
    if jwt_secret.is_none() {
        return missing("JWT_SECRET");
    }
    let port = match port {
        Some(text) => text,
        None => return missing("PORT"),
    };
    if rust_log.is_none() {
        return missing("RUST_LOG");
    }
    if parse_u16(port).is_none() {
        return Err(String::from_str("PORT must be a valid number between 0 and 65535"));
    }
    if !has_prefix(database_url, "postgresql://") {
        return Err(String::from_str("DATABASE_URL must be a valid PostgreSQL connection string"));
    }
    Ok(())
}

/// The port to listen on: the one that is set, or `DEFAULT_PORT` where none is. A port
/// that is set must be a port number.
pub fn get_port(port: Option<&str>) -> (number: u16)
    requires
        port matches Some(text) ==> parsed_u16(text@) is Some,
    ensures
        number == match port {
            Some(text) => parsed_u16(text@)->Some_0,
            None => DEFAULT_PORT,
        },
{
    match port {
        Some(text) => match parse_u16(text) {
            Some(number) => number,
            None => DEFAULT_PORT,
        },
        None => DEFAULT_PORT,
    }
}

/// `get_port` for a setting of which nothing is known: `None` where a port is set that is
/// no port number.
pub fn checked_port(port: Option<&str>) -> (number: Option<u16>)
    ensures
        number == match port {
            Some(text) => parsed_u16(text@),
            None => Some(DEFAULT_PORT),
        },
{
    match port {
        Some(text) => if parse_u16(text).is_some() {
            Some(get_port(port))
        } else {
            None
        },
        None => Some(get_port(port)),
    }
}

impl Config {
    /// The settings from what the environment holds: the database and the secret must be
    /// set, the address is `127.0.0.1:8080` where none is.
    pub fn from_env(
        database_url: Option<String>,
        jwt_secret: Option<String>,
        server_addr: Option<String>,
    ) -> (outcome: Result<Config, String>)
        ensures
            match outcome {
                Ok(config) => {
                    &&& database_url == Some(config.database_url)
                    &&& jwt_secret == Some(config.jwt_secret)
                    &&& match server_addr {
                        Some(address) => config.server_addr == address,
                        None => config.server_addr@ == "127.0.0.1:8080"@,
                    }
                },
                Err(fault) => if database_url is None {
                    fault@ == "DATABASE_URL must be set"@
                } else {
                    jwt_secret is None && fault@ == "JWT_SECRET must be set"@
                },
            },
    {
        let database_url = match database_url {
            Some(text) => text,
            None => return Err(String::from_str("DATABASE_URL must be set")),
        };
        let jwt_secret = match jwt_secret {
            Some(text) => text,
            None => return Err(String::from_str("JWT_SECRET must be set")),
        };
        let server_addr = match server_addr {
            Some(text) => text,
            None => String::from_str("127.0.0.1:8080"),
        };
        Ok(Config { database_url, jwt_secret, server_addr })
    }
}

} // verus!
