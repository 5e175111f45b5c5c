//! The service's settings, checked once at startup.

use vstd::prelude::*;

verus! {

/// The settings of the service. Paths are kept as they were given.
#[derive(Debug, Clone)]
pub struct Config {
    pub cert_path: String,
    pub key_path: String,
    pub port: u16,
    pub assets_path: String,
    pub static_path: String,
}

/// Why the settings could not be taken.
#[derive(Debug, Clone, PartialEq, Eq)]
pub enum ConfigError {
    /// The named setting is missing.
    Missing(String),
    /// The port setting, held here, is not a number from 0 to 65535.
    InvalidPort(String),
}

pub open spec fn is_digit(c: char) -> bool {
    '0' <= c && c <= '9'
}

pub open spec fn all_digits(s: Seq<char>) -> bool {
    forall|i: int| 0 <= i < s.len() ==> is_digit(#[trigger] s[i])
}

/// The number that a string of decimal digits writes.
pub open spec fn decimal_value(s: Seq<char>) -> nat
    decreases s.len(),
{
    if s.len() == 0 {
        0
    } else {
        decimal_value(s.drop_last()) * 10 + ((s.last() as u32 - '0' as u32) as nat)
    }
}

/// The digits of a port setting: an optional leading `+` is not one.
pub open spec fn port_digits(s: Seq<char>) -> Seq<char> {
    if s.len() > 0 && s[0] == '+' {
        s.drop_first()
    } else {
        s
    }
}

/// The port that a setting names: one or more decimal digits after an
/// optional `+`, for a value that fits in 16 bits.
pub open spec fn port_of(s: Seq<char>) -> Option<u16> {
    let d = port_digits(s);
    if d.len() > 0 && all_digits(d) && decimal_value(d) <= 65535 {
        Some(decimal_value(d) as u16)
    } else {
        None
    }
}

proof fn lemma_decimal_value_grows(s: Seq<char>, i: int, j: int)
    requires
        0 <= i <= j <= s.len(),
        all_digits(s),
    ensures
        decimal_value(s.take(i)) <= decimal_value(s.take(j)),
    decreases j - i,
{
    if i < j {
        lemma_decimal_value_grows(s, i, j - 1);
        assert(s.take(j).drop_last() =~= s.take(j - 1));
        assert(is_digit(s[j - 1]));
    }
}

/// Reads a port setting.
pub fn parse_port(text: &str) -> (r: Option<u16>)
    ensures
        r == port_of(text@),
{
    let n = text.unicode_len();
    let start: usize = if n > 0 && text.get_char(0) == '+' {
        1
    } else {
        0
    };
    let ghost d = port_digits(text@);
    assert(d =~= text@.subrange(start as int, n as int));
    if start == n {
        return None;
    }
    let mut acc: u32 = 0;
    let mut i: usize = start;
    while i < n
        invariant
            start <= i <= n,
            n == text@.len(),
            d == text@.subrange(start as int, n as int),
            d == port_digits(text@),
            forall|k: int| 0 <= k < i - start ==> is_digit(#[trigger] d[k]),
            acc as nat == decimal_value(d.take(i - start)),
            acc <= 65535,
        decreases n - i,
    {
        let c = text.get_char(i);
        assert(d[i - start] == c);
        if !('0' <= c && c <= '9') {
            assert(!is_digit(d[i - start]));
            return None;
        }
        assert(d.take(i - start + 1).drop_last() =~= d.take(i - start));
        assert(d.take(i - start + 1).last() == c);
        let next = acc * 10 + (c as u32 - '0' as u32);
        assert(next as nat == decimal_value(d.take(i - start + 1)));
        if next > 65535 {
            proof {
                if all_digits(d) {
                    lemma_decimal_value_grows(d, i - start + 1, d.len() as int);
                    assert(d.take(d.len() as int) =~= d);
                }
            }
            return None;
        }
        acc = next;
        i = i + 1;
    }
    assert(d.take(n - start) =~= d);
    Some(acc as u16)
}

impl Config {
    /// Takes the settings from their raw values, each `None` where it is
    /// not set. They are checked in this order: `CERT_PATH`, `KEY_PATH`,
    /// `STATIC_PATH`, `ASSETS_PATH`, `SERVER_PORT`; the first one missing is
    /// reported, and a port that does not read as one fails last.
    pub fn new(
        cert_path: Option<String>,
        key_path: Option<String>,
        static_path: Option<String>,
        assets_path: Option<String>,
        server_port: Option<String>,
    ) -> (r: Result<Config, ConfigError>)
        ensures
            cert_path is None ==> (r matches Err(ConfigError::Missing(v)) && v@ == "CERT_PATH"@),
            cert_path is Some && key_path is None ==> (r matches Err(ConfigError::Missing(v)) && v@
                == "KEY_PATH"@),
            cert_path is Some && key_path is Some && static_path is None ==> (r matches Err(
                ConfigError::Missing(v),
            ) && v@ == "STATIC_PATH"@),
            cert_path is Some && key_path is Some && static_path is Some && assets_path is None ==> (
            r matches Err(ConfigError::Missing(v)) && v@ == "ASSETS_PATH"@),
            cert_path is Some && key_path is Some && static_path is Some && assets_path is Some
                && server_port is None ==> (r matches Err(ConfigError::Missing(v)) && v@
                == "SERVER_PORT"@),
            cert_path is Some && key_path is Some && static_path is Some && assets_path is Some
                && server_port is Some && port_of(server_port->0@) is None ==> (r matches Err(
                ConfigError::InvalidPort(p),
            ) && p@ == server_port->0@),
            cert_path is Some && key_path is Some && static_path is Some && assets_path is Some
                && server_port is Some && port_of(server_port->0@) is Some ==> r == Ok::<
                Config,
                ConfigError,
            >(
                Config {
                    cert_path: cert_path->0,
                    key_path: key_path->0,
                    port: port_of(server_port->0@)->0,
                    assets_path: assets_path->0,
                    static_path: static_path->0,
                },
            ),
    {
        let cert_path = match cert_path {
            Some(v) => v,
            None => return Err(ConfigError::Missing(String::from_str("CERT_PATH"))),
        };
        let key_path = match key_path {
            Some(v) => v,
            None => return Err(ConfigError::Missing(String::from_str("KEY_PATH"))),
        };
        let static_path = match static_path {
            Some(v) => v,
            None => return Err(ConfigError::Missing(String::from_str("STATIC_PATH"))),
        };
        let assets_path = match assets_path {
            Some(v) => v,
            None => return Err(ConfigError::Missing(String::from_str("ASSETS_PATH"))),
        };
        let server_port = match server_port {
            Some(v) => v,
            None => return Err(ConfigError::Missing(String::from_str("SERVER_PORT"))),
        };
        let port = match parse_port(server_port.as_str()) {
            Some(p) => p,
            None => return Err(ConfigError::InvalidPort(server_port)),
        };
        Ok(Config { cert_path, key_path, port, assets_path, static_path })
    }
}

} // verus!
