//! Startup configuration rules.
//!
//! The process reads its settings once at startup: four mandatory
//! identity values (tenant, client, secret, scope), an optional proxy
//! address with a default, and a refresh interval in whole hours. A
//! missing mandatory value is a fatal startup error; the interval
//! falls back to six hours whenever the given text is not a number
//! between 1 and 24. Reading the environment is plumbing outside this
//! library; the rules on what was read live here.

use vstd::prelude::*;
use vstd::string::StrSliceExecFns;

verus! {

/// The refresh interval used when none, or an unusable one, is given.
pub const DEFAULT_REFRESH_HOURS: u8 = 6;

/// The proxy address assumed when none is given; the empty text
/// disables proxying instead.
pub const DEFAULT_PROXY: &'static str = "http://proxy-http:8080";

/// Whether `c` is a decimal digit.
pub open spec fn is_ascii_digit(c: char) -> bool {
    '0' as int <= c as int && c as int <= '9' as int
}

/// The value of the digit `c`.
pub open spec fn digit_value(c: char) -> int {
    c as int - '0' as int
}

/// Whether `s` consists of decimal digits only.
pub open spec fn all_digits(s: Seq<char>) -> bool {
    forall|i: int| 0 <= i < s.len() ==> is_ascii_digit(#[trigger] s[i])
}

/// The number a digit string denotes, most significant digit first.
pub open spec fn spec_digits_value(s: Seq<char>) -> int
    decreases s.len(),
{
    if s.len() == 0 {
        0
    } else {
        spec_digits_value(s.drop_last()) * 10 + digit_value(s.last())
    }
}

/// The digits of a number text: what stands after the optional
/// leading plus sign.
pub open spec fn spec_number_body(s: Seq<char>) -> Seq<char> {
    if s.len() > 0 && s[0] == '+' {
        s.skip(1)
    } else {
        s
    }
}

/// What parsing `s` as a small decimal number yields: an optional
/// leading plus sign, then at least one digit, denoting a value of at
/// most 255 — anything else is no number.
pub open spec fn spec_parse_u8(s: Seq<char>) -> Option<int> {
    if spec_number_body(s).len() > 0 && all_digits(spec_number_body(s)) && spec_digits_value(
        spec_number_body(s),
    ) <= 255 {
        Some(spec_digits_value(spec_number_body(s)))
    } else {
        None
    }
}

/// The refresh interval, in hours, that a given (or absent) setting
/// text selects: the number it denotes if that lies between 1 and 24,
/// and the default otherwise.
pub open spec fn spec_refresh_hours(raw: Option<Seq<char>>) -> int {
    match raw {
        Option::None => DEFAULT_REFRESH_HOURS as int,
        Option::Some(s) => match spec_parse_u8(s) {
            Option::Some(v) => if 1 <= v && v <= 24 {
                v
            } else {
                DEFAULT_REFRESH_HOURS as int
            },
            Option::None => DEFAULT_REFRESH_HOURS as int,
        },
    }
}

proof fn lemma_digits_value_nonneg(s: Seq<char>)
    requires
        all_digits(s),
    ensures
        spec_digits_value(s) >= 0,
    decreases s.len(),
{
    if s.len() > 0 {
        assert(all_digits(s.drop_last()));
        lemma_digits_value_nonneg(s.drop_last());
    }
}

proof fn lemma_digits_value_mono(s: Seq<char>, i: int)
    requires
        all_digits(s),
        0 <= i <= s.len(),
    ensures
        spec_digits_value(s.take(i)) <= spec_digits_value(s),
    decreases s.len() - i,
{
    if i < s.len() {
        assert(s.take(i + 1).drop_last() =~= s.take(i));
        assert(all_digits(s.take(i)));
        lemma_digits_value_nonneg(s.take(i));
        lemma_digits_value_mono(s, i + 1);
    } else {
        assert(s.take(i) =~= s);
    }
}

/// Parses a small decimal number: an optional leading plus sign, then
/// at least one digit, with a value of at most 255; returns nothing on
/// any other text.
pub fn parse_u8(s: &str) -> (r: Option<u8>)
    ensures
        match r {
            Option::Some(v) => spec_parse_u8(s@) == Option::Some(v as int),
            Option::None => spec_parse_u8(s@) is None,
        },
{
    let len: usize = s.unicode_len();
    let start: usize = if len > 0 && s.get_char(0) == '+' {
        1
    } else {
        0
    };
    let ghost body = spec_number_body(s@);
    proof {
        assert(body =~= s@.subrange(start as int, len as int));
    }
    if start == len {
        return Option::None;
    }
    let mut value: u64 = 0;
    let mut i: usize = start;
    while i < len
        invariant
            start <= i <= len,
            len == s@.len(),
            body == spec_number_body(s@),
            body == s@.subrange(start as int, len as int),
            all_digits(body.take(i - start)),
            value == spec_digits_value(body.take(i - start)),
            value <= 255,
        decreases len - i,
    {
        let c = s.get_char(i);
        if c < '0' || c > '9' {
            proof {
                assert(body[i - start] == s@[i as int]);
                assert(!all_digits(body));
            }
            return Option::None;
        }
        let d: u64 = (c as u32 as u64) - ('0' as u32 as u64);
        proof {
            assert(body.take(i - start + 1).drop_last() =~= body.take(i - start));
            assert(body.take(i - start + 1).last() == s@[i as int]);
        }
        proof {
            assert(all_digits(body.take(i - start + 1)));
            assert(spec_digits_value(body.take(i - start + 1)) == spec_digits_value(
                body.take(i - start),
            ) * 10 + digit_value(s@[i as int]));
        }
        value = value * 10 + d;
        i = i + 1;
        if value > 255 {
            proof {
                if all_digits(body) {
                    lemma_digits_value_mono(body, i - start);
                }
            }
            return Option::None;
        }
    }
    proof {
        assert(body.take((len - start) as int) =~= body);
    }
    Option::Some(value as u8)
}

/// The refresh interval, in hours, selected by the given setting text
/// (or its absence): always between 1 and 24.
pub fn refresh_hours(raw: Option<&str>) -> (h: u8)
    ensures
        1 <= h <= 24,
        h as int == spec_refresh_hours(
            match raw {
                Option::Some(s) => Option::Some(s@),
                Option::None => Option::None,
            },
        ),
{
    match raw {
        Option::None => DEFAULT_REFRESH_HOURS,
        Option::Some(s) => match parse_u8(s) {
            Option::Some(v) => if 1 <= v && v <= 24 {
                v
            } else {
                DEFAULT_REFRESH_HOURS
            },
            Option::None => DEFAULT_REFRESH_HOURS,
        },
    }
}

/// The length of the refresh interval in seconds.
pub fn interval_seconds(hours: u8) -> (s: u64)
    ensures
        s == hours as int * 3600,
{
    (hours as u64) * 3600
}

/// The complete startup configuration.
#[derive(Debug)]
pub struct Config {
    pub tenant_id: String,
    pub client_id: String,
    pub client_secret: String,
    pub scope: String,
    pub proxy: String,
    pub refresh_hours: u8,
}

/// Which mandatory setting was missing at startup.
#[derive(Clone, Copy, Debug, PartialEq, Eq, Structural)]
pub enum ConfigError {
    MissingTenantId,
    MissingClientId,
    MissingClientSecret,
    MissingScope,
}

impl ConfigError {
    /// The text of the fatal startup report for this error.
    pub fn message(&self) -> (m: &'static str)
        ensures
            *self is MissingTenantId ==> m@ == "env variable TENANT_ID"@,
            *self is MissingClientId ==> m@ == "env variable CLIENT_ID"@,
            *self is MissingClientSecret ==> m@ == "env variable CLIENT_SECRET"@,
            *self is MissingScope ==> m@ == "env variable SCOPE"@,
    {
        match self {
            ConfigError::MissingTenantId => "env variable TENANT_ID",
            ConfigError::MissingClientId => "env variable CLIENT_ID",
            ConfigError::MissingClientSecret => "env variable CLIENT_SECRET",
            ConfigError::MissingScope => "env variable SCOPE",
        }
    }
}

/// The proxy address a given (or absent) setting selects.
pub open spec fn spec_proxy(raw: Option<Seq<char>>) -> Seq<char> {
    match raw {
        Option::Some(p) => p,
        Option::None => DEFAULT_PROXY@,
    }
}

impl Config {
    /// Whether outbound calls go through a proxy: they do unless the
    /// proxy address is the empty text.
    pub fn wants_proxy(&self) -> (b: bool)
        ensures
            b <==> self.proxy@.len() != 0,
    {
        self.proxy.as_str().unicode_len() != 0
    }

    /// Builds the configuration from the raw setting values, each
    /// `None` where the environment had nothing. Fails on the first
    /// missing mandatory value — tenant, client, secret, then scope —
    /// and on nothing else; the proxy and the interval always fall
    /// back to their defaults.
    pub fn build(
        tenant_id: Option<String>,
        client_id: Option<String>,
        client_secret: Option<String>,
        scope: Option<String>,
        proxy: Option<String>,
        refresh_hours_raw: Option<String>,
    ) -> (r: Result<Config, ConfigError>)
        ensures
            r is Ok <==> tenant_id is Some && client_id is Some && client_secret is Some
                && scope is Some,
            r matches Ok(c) ==> {
                &&& tenant_id matches Some(t) && c.tenant_id@ == t@
                &&& client_id matches Some(ci) && c.client_id@ == ci@
                &&& client_secret matches Some(cs) && c.client_secret@ == cs@
                &&& scope matches Some(sc) && c.scope@ == sc@
                &&& c.proxy@ == spec_proxy(
                    match proxy {
                        Option::Some(p) => Option::Some(p@),
                        Option::None => Option::None,
                    },
                )
                &&& c.refresh_hours as int == spec_refresh_hours(
                    match refresh_hours_raw {
                        Option::Some(s) => Option::Some(s@),
                        Option::None => Option::None,
                    },
                )
                &&& 1 <= c.refresh_hours <= 24
            },
            r matches Err(e) ==> {
                &&& (e is MissingTenantId <==> tenant_id is None)
                &&& (e is MissingClientId <==> tenant_id is Some && client_id is None)
                &&& (e is MissingClientSecret <==> tenant_id is Some && client_id is Some
                    && client_secret is None)
                &&& (e is MissingScope <==> tenant_id is Some && client_id is Some
                    && client_secret is Some && scope is None)
            },
    {
        let tenant_id = match tenant_id {
            Option::Some(t) => t,
            Option::None => {
                return Result::Err(ConfigError::MissingTenantId);
            },
        };
        let client_id = match client_id {
            Option::Some(c) => c,
            Option::None => {
                return Result::Err(ConfigError::MissingClientId);
            },
        };
        let client_secret = match client_secret {
            Option::Some(c) => c,
            Option::None => {
                return Result::Err(ConfigError::MissingClientSecret);
            },
        };
        let scope = match scope {
            Option::Some(s) => s,
            Option::None => {
                return Result::Err(ConfigError::MissingScope);
            },
        };
        let proxy = match proxy {
            Option::Some(p) => p,
            Option::None => DEFAULT_PROXY.to_owned(),
        };
        let hours = match &refresh_hours_raw {
            Option::Some(s) => refresh_hours(Option::Some(s.as_str())),
            Option::None => refresh_hours(Option::None),
        };
        Result::Ok(
            Config {
                tenant_id,
                client_id,
                client_secret,
                scope,
                proxy,
                refresh_hours: hours,
            },
        )
    }
}

} // verus!
