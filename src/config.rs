//! Start-up settings: bind host, port and verbosity, each read from an
//! optional raw value with a fixed default.

use vstd::prelude::*;

verus! {

/// The port used when none is given or the given one does not parse.
pub const DEFAULT_PORT: u16 = 5000;

/// Whether a character is an ASCII decimal digit.
pub open spec fn is_digit(c: char) -> bool {
    '0' <= c && c <= '9'
}

/// The value of a decimal digit character.
pub open spec fn digit_value(c: char) -> int {
    (c as u32) as int - ('0' as u32) as int
}

/// The value of a sequence of decimal digits, most significant first.
pub open spec fn digits_value(s: Seq<char>) -> int
    decreases s.len(),
{
    if s.len() == 0 {
        0
    } else {
        digits_value(s.drop_last()) * 10 + digit_value(s.last())
    }
}

/// The digits of a port number: the text without one leading '+'.
pub open spec fn port_digits(s: Seq<char>) -> Seq<char> {
    if s.len() > 0 && s[0] == '+' {
        s.drop_first()
    } else {
        s
    }
}

/// The port that a text denotes: an optional '+' followed by one or more
/// decimal digits whose value fits in 16 bits; `None` for any other text
/// (empty, signs, spaces, letters, or a value above 65535).
pub open spec fn port_of(s: Seq<char>) -> Option<u16> {
    let d = port_digits(s);
    if d.len() > 0 && (forall|i: int| 0 <= i < d.len() ==> is_digit(#[trigger] d[i]))
        && digits_value(d) <= 65535 {
        Some(digits_value(d) as u16)
    } else {
        None
    }
}

/// The port chosen from an optional raw value.
pub open spec fn port_setting(raw: Option<Seq<char>>) -> u16 {
    match raw {
        Some(s) => match port_of(s) {
            Some(p) => p,
            None => DEFAULT_PORT,
        },
        None => DEFAULT_PORT,
    }
}

/// What `str::to_lowercase` returns for a text.
pub uninterp spec fn lower_of(s: Seq<char>) -> Seq<char>;

/// Relies on `str::to_lowercase`: the Unicode lowercase mapping of the text,
/// which depends on its characters alone.
#[verifier::external_body]
fn lowercase(s: &str) -> (r: String)
    ensures
        r@ == lower_of(s@),
{
    s.to_lowercase()
}

/// Parses a port number: an optional '+' and decimal digits, at most 65535.
pub fn parse_port(s: &str) -> (r: Option<u16>)
    ensures
        r == port_of(s@),
{
    let n = s.unicode_len();
    let ghost t = s@;
    let mut i: usize = 0;
    if n > 0 && s.get_char(0) == '+' {
        i = 1;
    }
    let start = i;
    let ghost d = port_digits(t);
    assert(d =~= t.subrange(start as int, n as int));
    if start == n {
        return None;
    }
    // The value of the digits read so far, capped at 65536.
    let mut acc: u32 = 0;
    while i < n
        invariant
            start <= i <= n,
            n == t.len(),
            t == s@,
            d =~= t.subrange(start as int, n as int),
            d == port_digits(t),
            forall|j: int| 0 <= j < i - start ==> is_digit(#[trigger] d[j]),
            acc as int == if digits_value(d.subrange(0, i - start)) < 65536 {
                digits_value(d.subrange(0, i - start))
            } else {
                65536
            },
        decreases n - i,
    {
        let c = s.get_char(i);
        if !('0' <= c && c <= '9') {
            assert(d[i - start] == t[i as int]);
            assert(!is_digit(d[i - start]));
            assert(!(forall|j: int| 0 <= j < d.len() ==> is_digit(#[trigger] d[j])));
            return None;
        }
        let ghost prev = digits_value(d.subrange(0, i - start));
        let dv: u32 = (c as u32) - ('0' as u32);
        assert(d.subrange(0, i + 1 - start).drop_last() =~= d.subrange(0, i - start));
        assert(digits_value(d.subrange(0, i + 1 - start)) == prev * 10 + dv);
        assert(prev >= 0) by {
            lemma_digits_value_nonneg(d.subrange(0, i - start));
        }
        let next: u32 = acc * 10 + dv;
        if next >= 65536 {
            assert(prev * 10 + dv >= 65536) by (nonlinear_arith)
                requires
                    acc as int == if prev < 65536 { prev } else { 65536 },
                    next == acc * 10 + dv,
                    next >= 65536,
                    prev >= 0,
            ;
            acc = 65536;
        } else {
            acc = next;
        }
        i = i + 1;
    }
    assert(d.subrange(0, n - start) =~= d);
    if acc <= 65535 {
        Some(acc as u16)
    } else {
        None
    }
}

proof fn lemma_digits_value_nonneg(s: Seq<char>)
    requires
        forall|i: int| 0 <= i < s.len() ==> is_digit(#[trigger] s[i]),
    ensures
        digits_value(s) >= 0,
    decreases s.len(),
{
    if s.len() > 0 {
        let p = s.drop_last();
        assert forall|i: int| 0 <= i < p.len() implies is_digit(#[trigger] p[i]) by {
            assert(p[i] == s[i]);
        }
        lemma_digits_value_nonneg(p);
        assert(is_digit(s[s.len() - 1]));
    }
}

/// Whether an already lowercased value switches verbose logging on.
pub fn debug_from_lowercase(lowered: &str) -> (r: bool)
    ensures
        r == (lowered@ == "true"@),
{
    proof { reveal_strlit("true"); }
    let n = lowered.unicode_len();
    if n != 4 {
        return false;
    }
    let a = lowered.get_char(0);
    let b = lowered.get_char(1);
    let c = lowered.get_char(2);
    let e = lowered.get_char(3);
    let r = a == 't' && b == 'r' && c == 'u' && e == 'e';
    if r {
        assert(lowered@ =~= "true"@);
    }
    r
}

/// Bind host, port and verbosity of the service.
pub struct Config {
    pub host: String,
    pub port: u16,
    pub debug: bool,
}

impl Config {
    /// Builds the settings from values whose verbosity text is already
    /// lowercased: the host defaults to "0.0.0.0", the port to 5000 when it is
    /// absent or does not parse, and verbosity is on only for "true".
    pub fn from_lowered(host: Option<String>, port: Option<String>, debug_lowered: Option<String>) -> (r: Config)
        ensures
            r.host@ == (match host {
                Some(h) => h@,
                None => "0.0.0.0"@,
            }),
            r.port == port_setting(
                match port {
                    Some(p) => Some(p@),
                    None => None,
                },
            ),
            r.debug == (match debug_lowered {
                Some(d) => d@ == "true"@,
                None => false,
            }),
    {
        let host = match host {
            Some(h) => h,
            None => String::from_str("0.0.0.0"),
        };
        let port = match port {
            Some(p) => match parse_port(p.as_str()) {
                Some(n) => n,
                None => DEFAULT_PORT,
            },
            None => DEFAULT_PORT,
        };
        let debug = match debug_lowered {
            Some(d) => debug_from_lowercase(d.as_str()),
            None => false,
        };
        Config { host, port, debug }
    }

    /// Builds the settings from the raw values: as `from_lowered`, where the
    /// verbosity text is compared with "true" case-insensitively.
    pub fn from_values(host: Option<String>, port: Option<String>, debug: Option<String>) -> (r: Config)
        ensures
            r.host@ == (match host {
                Some(h) => h@,
                None => "0.0.0.0"@,
            }),
            r.port == port_setting(
                match port {
                    Some(p) => Some(p@),
                    None => None,
                },
            ),
            r.debug == (match debug {
                Some(d) => lower_of(d@) == "true"@,
                None => false,
            }),
    {
        let lowered = match debug {
            Some(d) => Some(lowercase(d.as_str())),
            None => None,
        };
        Config::from_lowered(host, port, lowered)
    }
}

} // verus!
