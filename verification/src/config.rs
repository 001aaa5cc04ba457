//! The operator's configuration, as read once at startup.

use crate::decimal::digits_number;
use crate::error::OperatorError;
use vstd::prelude::*;

verus! {

/// The port the HTTP surface listens on where none is configured.
pub const DEFAULT_HTTP_PORT: u16 = 8080;

/// A decimal digit in ASCII.
pub open spec fn is_ascii_digit(c: char) -> bool {
    '0' <= c && c <= '9'
}

/// The digits of a port: the text without the plus sign that may lead it.
pub open spec fn port_digits(text: Seq<char>) -> Seq<char> {
    if text.len() > 0 && text[0] == '+' {
        text.subrange(1, text.len() as int)
    } else {
        text
    }
}

/// The port that a text stands for: one or more decimal digits, after an
/// optional plus sign, that make a number up to 65535. Any other text,
/// the empty one and a lone sign among them, stands for no port.
pub open spec fn parse_port(text: Seq<char>) -> Option<u16> {
    let digits = port_digits(text);
    if digits.len() > 0 && (forall|i: int| 0 <= i < digits.len() ==> is_ascii_digit(digits[i]))
        && digits_number(digits) <= 65535 {
        Some(digits_number(digits) as u16)
    } else {
        None
    }
}

/// The value of a character that is a decimal digit.
fn digit_of(c: char) -> (digit: Option<u64>)
    ensures
        match digit {
            Some(d) => is_ascii_digit(c) && d == crate::decimal::digit_value(c),
            None => !is_ascii_digit(c),
        },
{
    if c == '0' {
        Some(0)
    } else if c == '1' {
        Some(1)
    } else if c == '2' {
        Some(2)
    } else if c == '3' {
        Some(3)
    } else if c == '4' {
        Some(4)
    } else if c == '5' {
        Some(5)
    } else if c == '6' {
        Some(6)
    } else if c == '7' {
        Some(7)
    } else if c == '8' {
        Some(8)
    } else if c == '9' {
        Some(9)
    } else {
        None
    }
}

/// Reads a port number from its decimal text.
pub fn parse_http_port(text: &str) -> (port: Option<u16>)
    ensures
        port == parse_port(text@),
{
    let len = text.unicode_len();
    if len == 0 {
        return None;
    }
    let start: usize = if text.get_char(0) == '+' {
        1
    } else {
        0
    };
    if start == len {
        return None;
    }
    let ghost digits = port_digits(text@);
    assert(digits =~= text@.subrange(start as int, len as int));
    let mut value: u64 = 0;
    let mut i: usize = start;
    while i < len
        invariant
            start <= i <= len,
            len == text@.len(),
            digits == text@.subrange(start as int, len as int),
            digits == port_digits(text@),
            forall|j: int| 0 <= j < i - start ==> is_ascii_digit(digits[j]),
            value <= 65536,
            value == if digits_number(digits.subrange(0, i - start)) <= 65536 {
                digits_number(digits.subrange(0, i - start))
            } else {
                65536
            },
        decreases len - i,
    {
        let c = text.get_char(i);
        assert(digits[i - start] == c);
        match digit_of(c) {
            Some(d) => {
                proof {
                    let longer = digits.subrange(0, i - start + 1);
                    assert(longer.drop_last() =~= digits.subrange(0, i - start));
                    assert(longer.last() == c);
                }
                let raised: u64 = value * 10 + d;
                value = if raised > 65536 {
                    65536
                } else {
                    raised
                };
            },
            None => {
                assert(!is_ascii_digit(digits[i - start]));
                return None;
            },
        }
        i += 1;
    }
    assert(digits.subrange(0, len - start) =~= digits);
    if value > 65535 {
        None
    } else {
        Some(value as u16)
    }
}

/// The operator's configuration.
#[derive(Debug)]
pub struct OperatorConfig {
    /// Port of the HTTP surface.
    pub http_port: u16,
    /// Namespace of a call that names none.
    pub default_namespace: String,
}

impl Clone for OperatorConfig {
    fn clone(&self) -> (copy: Self)
        ensures
            copy == *self,
    {
        OperatorConfig {
            http_port: self.http_port,
            default_namespace: self.default_namespace.clone(),
        }
    }
}

impl OperatorConfig {
    /// Builds the configuration from the two settings of the environment,
    /// each as it was found there or absent.
    ///
    /// An absent port is 8080, an absent namespace is `default`. A port
    /// that is set and is no port number is refused.
    pub fn from_vars(http_port: Option<String>, namespace: Option<String>) -> (loaded: Result<
        OperatorConfig,
        OperatorError,
    >)
        ensures
            match loaded {
                Ok(config) => {
                    &&& match http_port {
                        Some(text) => parse_port(text@) == Some(config.http_port),
                        None => config.http_port == 8080,
                    }
                    &&& match namespace {
                        Some(name) => config.default_namespace@ == name@,
                        None => config.default_namespace@ == "default"@,
                    }
                },
                Err(failure) => {
                    &&& http_port is Some
                    &&& parse_port(http_port->0@) is None
                    &&& failure is ConfigError
                    &&& failure->ConfigError_0@ == "Invalid HTTP_PORT"@
                },
            },
    {
        let port = match &http_port {
            Some(text) => match parse_http_port(text.as_str()) {
                Some(port) => port,
                None => {
                    return Err(OperatorError::ConfigError(String::from_str("Invalid HTTP_PORT")));
                },
            },
            None => DEFAULT_HTTP_PORT,
        };
        let default_namespace = match namespace {
            Some(name) => name,
            None => String::from_str("default"),
        };
        Ok(OperatorConfig { http_port: port, default_namespace })
    }
}

} // verus!
