//! Application settings.

use vstd::prelude::*;

verus! {

/// Settings of the application.
#[derive(Debug)]
pub struct Config {
    pub database_url: String,
    pub server_port: u16,
}

/// Database used when none is configured.
pub open spec fn default_database_url() -> Seq<char> {
    "sqlite:gestor.db"@
}

/// Port served when none is configured.
pub open spec fn default_server_port() -> u16 {
    10020
}

/// The value of a string of decimal digits.
pub open spec fn digits_value(s: Seq<char>) -> int
    decreases s.len(),
{
    if s.len() == 0 {
        0
    } else {
        digits_value(s.drop_last()) * 10 + (s.last() as int - 48)
    }
}

/// Every character is an ASCII decimal digit.
pub open spec fn all_digits(s: Seq<char>) -> bool {
    forall|i: int| 0 <= i < s.len() ==> 48 <= #[trigger] (s[i] as int) <= 57
}

/// The text after an optional leading '+'.
pub open spec fn unsigned_digits(s: Seq<char>) -> Seq<char> {
    if s.len() > 0 && s[0] == '+' {
        s.drop_first()
    } else {
        s
    }
}

/// What `text.parse::<u16>()` gives: an optional '+' followed by at least
/// one decimal digit, nothing else, the value fitting in a `u16`.
pub open spec fn port_value(s: Seq<char>) -> Option<u16> {
    let d = unsigned_digits(s);
    if d.len() > 0 && all_digits(d) && digits_value(d) <= u16::MAX {
        Some(digits_value(d) as u16)
    } else {
        None
    }
}

/// Reads a port number written in decimal (`text.parse::<u16>()`).
pub fn parse_port(text: &str) -> (r: Option<u16>)
    ensures
        r == port_value(text@),
{
    let len = text.unicode_len();
    let mut start: usize = 0;
    if len > 0 && text.get_char(0) == '+' {
        start = 1;
    }
    let ghost d = unsigned_digits(text@);
    assert(d =~= text@.subrange(start as int, len as int));
    if start == len {
        return None;
    }
    let mut value: u32 = 0;
    let mut too_big = false;
    let mut i: usize = start;
    while i < len
        invariant
            len == text@.len(),
            start <= i <= len,
            d == text@.subrange(start as int, len as int),
            d == unsigned_digits(text@),
            all_digits(text@.subrange(start as int, i as int)),
            !too_big ==> value == digits_value(text@.subrange(start as int, i as int)) && value <= 65535,
            too_big ==> digits_value(text@.subrange(start as int, i as int)) > 65535,
        decreases len - i,
    {
        let c = text.get_char(i);
        let code = c as u32;
        if code < 48 || code > 57 {
            proof {
                assert(d[i - start] == c);
                assert(!(48 <= (d[i - start] as int) <= 57));
            }
            return None;
        }
        proof {
            let prev = text@.subrange(start as int, i as int);
            let next = text@.subrange(start as int, i + 1);
            assert(next.drop_last() =~= prev);
            assert(next.last() == c);
            assert(digits_value(next) == digits_value(prev) * 10 + (c as int - 48));
            assert forall|k: int| 0 <= k < next.len() implies 48 <= #[trigger] (next[k] as int) <= 57 by {
                if k < prev.len() {
                    assert(next[k] == prev[k]);
                }
            }
        }
        if !too_big {
            value = value * 10 + (code - 48);
            if value > 65535 {
                too_big = true;
            }
        }
        i = i + 1;
    }
    assert(text@.subrange(start as int, len as int) == d);
    if too_big {
        None
    } else {
        Some(value as u16)
    }
}

impl Config {
    /// The settings, from the configured database URL and server port text
    /// (each `None` when not configured), with the defaults for what is
    /// missing; `None` when the port is not a number from 0 to 65535.
    pub fn from_settings(database_url: Option<String>, server_port: Option<String>) -> (r: Option<Config>)
        ensures
            r is None <==> (server_port matches Some(p) && port_value(p@) is None),
            r matches Some(c) ==> {
                &&& c.database_url@ == match database_url {
                    Some(u) => u@,
                    None => default_database_url(),
                }
                &&& c.server_port == match server_port {
                    Some(p) => port_value(p@)->0,
                    None => default_server_port(),
                }
            },
    {
        let database_url = match database_url {
            Some(u) => u,
            None => String::from_str("sqlite:gestor.db"),
        };
        let server_port = match server_port {
            Some(p) => match parse_port(p.as_str()) {
                Some(v) => v,
                None => {
                    return None;
                },
            },
            None => 10020,
        };
        Some(Config { database_url, server_port })
    }
}

} // verus!
