//! Settings: defaults and the decimal numbers read from text.
use vstd::prelude::*;
use crate::model::Config;

verus! {

/// Port used when none is given.
pub const DEFAULT_PORT: u16 = 8080;

/// Token lifetime used when none, or no valid one, is given: a day.
pub const DEFAULT_TTL_SECS: i64 = 86400;

pub open spec fn is_digit(c: char) -> bool {
    '0' <= c <= '9'
}

pub open spec fn all_digits(s: Seq<char>) -> bool {
    forall|i: int| 0 <= i < s.len() ==> is_digit(#[trigger] s[i])
}

/// The value of a string of decimal digits.
pub open spec fn digits_value(s: Seq<char>) -> nat
    decreases s.len(),
{
    if s.len() == 0 {
        0
    } else {
        digits_value(s.drop_last()) * 10 + (s.last() as nat - '0' as nat) as nat
    }
}

/// The digits of a decimal numeral, which may start with `+`.
pub open spec fn numeral_digits(s: Seq<char>) -> Seq<char> {
    if s.len() > 0 && s[0] == '+' {
        s.skip(1)
    } else {
        s
    }
}

/// The value of one or more decimal digits and nothing else.
pub open spec fn digits_only_value(s: Seq<char>) -> Option<nat> {
    if s.len() > 0 && all_digits(s) {
        Some(digits_value(s))
    } else {
        None
    }
}

/// The value of a decimal numeral: optional `+`, then one or more digits.
pub open spec fn decimal_value(s: Seq<char>) -> Option<nat> {
    digits_only_value(numeral_digits(s))
}

/// The value of a signed decimal numeral: optional `+` or `-`, then one or
/// more digits.
pub open spec fn signed_value(s: Seq<char>) -> Option<int> {
    if s.len() > 0 && s[0] == '-' {
        match digits_only_value(s.skip(1)) {
            Some(v) => Some(-v),
            None => None,
        }
    } else {
        match decimal_value(s) {
            Some(v) => Some(v as int),
            None => None,
        }
    }
}

/// Whether `s` is a signed decimal numeral whose value fits an `i64`.
pub open spec fn fits_i64(s: Seq<char>) -> bool {
    signed_value(s) is Some && i64::MIN <= signed_value(s)->Some_0 <= i64::MAX
}

proof fn lemma_prefix_value_grows(s: Seq<char>, i: int)
    requires
        0 <= i <= s.len(),
        all_digits(s),
    ensures
        digits_value(s.take(i)) <= digits_value(s),
    decreases s.len() - i,
{
    if i < s.len() {
        lemma_prefix_value_grows(s, i + 1);
        assert(s.take(i + 1).drop_last() =~= s.take(i));
        assert(is_digit(s.take(i + 1).last()));
    } else {
        assert(s.take(i) =~= s);
    }
}

/// Reads the digits of `text` from position `start` on, as a number no
/// larger than `max`.
fn parse_digits(text: &str, start: usize, max: u64) -> (r: Option<u64>)
    requires
        start <= text@.len(),
    ensures
        r is Some <==> digits_only_value(text@.skip(start as int)) is Some
            && digits_only_value(text@.skip(start as int))->Some_0 <= max,
        r is Some ==> r->Some_0 == digits_only_value(text@.skip(start as int))->Some_0,
{
    let n = text.unicode_len();
    let ghost d = text@.skip(start as int);
    if start == n {
        return None;
    }
    let mut value: u64 = 0;
    let mut i: usize = start;
    while i < n
        invariant
            start <= i <= n == text@.len(),
            start < n,
            d == text@.skip(start as int),
            all_digits(d.take(i - start)),
            value as nat == digits_value(d.take(i - start)),
            value <= max,
        decreases n - i,
    {
        let c = text.get_char(i);
        proof {
            assert(d[i - start] == c);
        }
        if c < '0' || c > '9' {
            proof {
                assert(!is_digit(d[i - start]));
                assert(!all_digits(d));
            }
            return None;
        }
        let next: u128 = value as u128 * 10 + (c as u32 - '0' as u32) as u128;
        proof {
            assert(d.take(i + 1 - start).drop_last() =~= d.take(i - start));
            assert(d.take(i + 1 - start).last() == c);
            assert(next as nat == digits_value(d.take(i + 1 - start)));
            assert(all_digits(d.take(i + 1 - start))) by {
                assert forall|j: int| 0 <= j < d.take(i + 1 - start).len() implies is_digit(
                    #[trigger] d.take(i + 1 - start)[j],
                ) by {
                    if j < i - start {
                        assert(d.take(i + 1 - start)[j] == d.take(i - start)[j]);
                    }
                }
            }
        }
        if next > max as u128 {
            proof {
                if all_digits(d) {
                    lemma_prefix_value_grows(d, i + 1 - start);
                }
            }
            return None;
        }
        value = next as u64;
        i = i + 1;
    }
    proof {
        assert(d.take(i - start) =~= d);
    }
    Some(value)
}

/// Reads a decimal numeral no larger than `max`.
pub fn parse_decimal(text: &str, max: u64) -> (r: Option<u64>)
    ensures
        r is Some <==> decimal_value(text@) is Some && decimal_value(text@)->Some_0 <= max,
        r is Some ==> r->Some_0 == decimal_value(text@)->Some_0,
{
    let n = text.unicode_len();
    let mut start: usize = 0;
    if n > 0 && text.get_char(0) == '+' {
        start = 1;
    }
    proof {
        assert(numeral_digits(text@) =~= text@.skip(start as int));
    }
    parse_digits(text, start, max)
}

/// Reads a signed decimal numeral as an `i64`, as `str::parse::<i64>`
/// accepts it.
pub fn parse_i64(text: &str) -> (r: Option<i64>)
    ensures
        r is Some <==> fits_i64(text@),
        r is Some ==> r->Some_0 == signed_value(text@)->Some_0,
{
    let n = text.unicode_len();
    if n > 0 && text.get_char(0) == '-' {
        match parse_digits(text, 1, 9223372036854775808) {
            Some(v) => {
                if v == 9223372036854775808 {
                    Some(i64::MIN)
                } else {
                    Some(-(v as i64))
                }
            },
            None => None,
        }
    } else {
        match parse_decimal(text, 9223372036854775807) {
            Some(v) => Some(v as i64),
            None => None,
        }
    }
}

/// Settings from optional texts: the host defaults to `127.0.0.1`, the
/// port to 8080, the token lifetime to a day (also when its text is not a
/// signed decimal number that fits an `i64`). `None` when a port is given that is not a
/// decimal number up to 65535.
pub fn config_from_settings(
    database_url: String,
    redis_url: String,
    jwt_secret: String,
    server_host: Option<String>,
    server_port: Option<String>,
    jwt_ttl_seconds: Option<String>,
) -> (r: Option<Config>)
    ensures
        r is None <==> server_port is Some && !(decimal_value(server_port->Some_0@) is Some
            && decimal_value(server_port->Some_0@)->Some_0 <= u16::MAX),
        r is Some ==> {
            let c = r->Some_0;
            &&& c.database_url == database_url
            &&& c.redis_url == redis_url
            &&& c.jwt_secret == jwt_secret
            &&& server_host is Some ==> c.server_host == server_host->Some_0
            &&& server_host is None ==> c.server_host@ == "127.0.0.1"@
            &&& server_port is None ==> c.server_port == DEFAULT_PORT
            &&& server_port is Some ==> c.server_port == decimal_value(server_port->Some_0@)->Some_0
            &&& jwt_ttl_seconds is Some && fits_i64(jwt_ttl_seconds->Some_0@) ==> c.jwt_ttl_seconds
                == signed_value(jwt_ttl_seconds->Some_0@)->Some_0
            &&& !(jwt_ttl_seconds is Some && fits_i64(jwt_ttl_seconds->Some_0@)) ==> c.jwt_ttl_seconds
                == DEFAULT_TTL_SECS
        },
{
    let port: u16 = match &server_port {
        None => DEFAULT_PORT,
        Some(p) => match parse_decimal(p.as_str(), 65535) {
            Some(v) => v as u16,
            None => return None,
        },
    };
    let ttl: i64 = match &jwt_ttl_seconds {
        None => DEFAULT_TTL_SECS,
        Some(t) => match parse_i64(t.as_str()) {
            Some(v) => v,
            None => DEFAULT_TTL_SECS,
        },
    };
    let host = match server_host {
        Some(h) => h,
        None => String::from_str("127.0.0.1"),
    };
    Some(Config { database_url, redis_url, jwt_secret, server_host: host, server_port: port, jwt_ttl_seconds: ttl })
}

} // verus!
