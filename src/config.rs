//! Process configuration: the listening port, read once at startup.

use vstd::prelude::*;

verus! {

/// Port used when the `PORT` setting is absent.
pub const DEFAULT_PORT: u16 = 3030;

/// Largest request body, in bytes, that the transport accepts.
pub const MAX_BODY_BYTES: usize = 262144;

pub open spec fn is_digit(c: char) -> bool {
    '0' <= c && c <= '9'
}

pub open spec fn digit_value(c: char) -> int {
    c as int - '0' as int
}

pub open spec fn all_digits(s: Seq<char>) -> bool {
    forall|i: int| 0 <= i < s.len() ==> #[trigger] is_digit(s[i])
}

/// The number written by a sequence of decimal digits.
pub open spec fn decimal_value(s: Seq<char>) -> int
    decreases s.len(),
{
    if s.len() == 0 {
        0
    } else {
        decimal_value(s.drop_last()) * 10 + digit_value(s.last())
    }
}

/// The digits of a port setting: the text after an optional leading `+`.
pub open spec fn port_digits(s: Seq<char>) -> Seq<char> {
    if s.len() > 0 && s[0] == '+' {
        s.drop_first()
    } else {
        s
    }
}

/// The port that a setting names, if it is a decimal `u16`.
pub open spec fn port_value(s: Seq<char>) -> Option<u16> {
    let d = port_digits(s);
    if d.len() > 0 && all_digits(d) && decimal_value(d) <= u16::MAX {
        Some(decimal_value(d) as u16)
    } else {
        None
    }
}

proof fn lemma_decimal_value_nonneg(s: Seq<char>)
    requires
        all_digits(s),
    ensures
        decimal_value(s) >= 0,
    decreases s.len(),
{
    if s.len() > 0 {
        assert(is_digit(s[s.len() - 1]));
        lemma_decimal_value_nonneg(s.drop_last());
    }
}

/// Appending digits never makes the value smaller.
proof fn lemma_decimal_value_grows(s: Seq<char>, j: int)
    requires
        all_digits(s),
        0 <= j <= s.len(),
    ensures
        decimal_value(s.subrange(0, j)) <= decimal_value(s),
    decreases s.len(),
{
    if j < s.len() {
        let t = s.drop_last();
        assert(all_digits(t)) by {
            assert forall|i: int| 0 <= i < t.len() implies #[trigger] is_digit(t[i]) by {
                assert(is_digit(s[i]));
            }
        }
        lemma_decimal_value_grows(t, j);
        assert(t.subrange(0, j) =~= s.subrange(0, j));
        lemma_decimal_value_nonneg(t);
        assert(is_digit(s[s.len() - 1]));
    } else {
        assert(s.subrange(0, j) =~= s);
    }
}

/// Reads a port number: an optional `+` and decimal digits naming a value
/// that fits in 16 bits, as `u16`'s `FromStr` accepts it.
pub fn parse_port(text: &str) -> (r: Option<u16>)
    ensures
        r == port_value(text@),
{
    let n = text.unicode_len();
    let mut i: usize = 0;
    if n > 0 && text.get_char(0) == '+' {
        i = 1;
    }
    let start = i;
    let ghost d = port_digits(text@);
    assert(d =~= text@.subrange(start as int, n as int));
    if i == n {
        return None;
    }
    let mut acc: u32 = 0;
    while i < n
        invariant
            start <= i <= n,
            n == text@.len(),
            d == port_digits(text@),
            d == text@.subrange(start as int, n as int),
            all_digits(d.subrange(0, i - start)),
            acc as int == decimal_value(d.subrange(0, i - start)),
            acc <= u16::MAX,
        decreases n - i,
    {
        let c = text.get_char(i);
        let ghost k = (i - start) as int;
        assert(d[k] == c);
        if c < '0' || c > '9' {
            assert(!is_digit(d[k]));
            assert(!all_digits(d));
            return None;
        }
        let next = acc * 10 + (c as u32 - '0' as u32);
        proof {
            let p = d.subrange(0, k + 1);
            assert(p.drop_last() =~= d.subrange(0, k));
            assert(p.last() == c);
            assert(all_digits(p));
            assert(decimal_value(p) == next as int);
        }
        if next > u16::MAX as u32 {
            proof {
                if all_digits(d) {
                    lemma_decimal_value_grows(d, k + 1);
                }
            }
            return None;
        }
        acc = next;
        i = i + 1;
    }
    assert(d.subrange(0, n - start) =~= d);
    Some(acc as u16)
}

/// Why the configuration could not be read.
#[derive(Clone, Copy, Debug, PartialEq, Eq, Structural)]
pub enum ConfigError {
    /// `PORT` is set but is not a decimal 16-bit number.
    InvalidPort,
}

impl ConfigError {
    /// The diagnostic printed when startup fails.
    pub fn message(&self) -> (r: &'static str)
        ensures
            r@ == "PORT must be a number"@,
    {
        "PORT must be a number"
    }
}

/// Settings fixed for the life of the process.
#[derive(Clone, Copy, Debug, PartialEq, Eq, Structural)]
pub struct ServerConfig {
    pub port: u16,
}

impl ServerConfig {
    /// Builds the configuration from the `PORT` setting, if one is set.
    pub fn from_port_setting(setting: Option<&str>) -> (r: Result<ServerConfig, ConfigError>)
        ensures
            setting is None ==> r == Ok::<ServerConfig, ConfigError>(ServerConfig { port: DEFAULT_PORT }),
            setting matches Some(s) ==> match port_value(s@) {
                Some(p) => r == Ok::<ServerConfig, ConfigError>(ServerConfig { port: p }),
                None => r == Err::<ServerConfig, ConfigError>(ConfigError::InvalidPort),
            },
    {
        match setting {
            None => Ok(ServerConfig { port: DEFAULT_PORT }),
            Some(s) => match parse_port(s) {
                Some(p) => Ok(ServerConfig { port: p }),
                None => Err(ConfigError::InvalidPort),
            },
        }
    }

    /// The loopback address the listener binds to.
    pub fn host(&self) -> (r: &'static str)
        ensures
            r@ == "127.0.0.1"@,
    {
        "127.0.0.1"
    }
}

} // verus!
