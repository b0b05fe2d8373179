//! The run configuration: an interval in seconds and an optional file path,
//! built from the two command-line option values.

use vstd::prelude::*;
use vstd::string::StrSliceExecFns;

verus! {

/// Largest interval, in seconds, whose conversion to milliseconds still fits
/// in a `u64`.
pub const MAX_INTERVAL_SECONDS: u64 = u64::MAX / 1000;

/// The character is an ASCII decimal digit.
pub open spec fn is_dec_digit(c: char) -> bool {
    '0' <= c && c <= '9'
}

/// Numeric value of a decimal digit.
pub open spec fn digit_value(c: char) -> int {
    c as int - '0' as int
}

/// A nonempty string made of decimal digits only.
pub open spec fn is_decimal_string(s: Seq<char>) -> bool {
    s.len() > 0 && forall|i: int| 0 <= i < s.len() ==> is_dec_digit(#[trigger] s[i])
}

/// The number a digit string denotes, most significant digit first.
pub open spec fn decimal_value(s: Seq<char>) -> int
    decreases s.len(),
{
    if s.len() == 0 {
        0
    } else {
        decimal_value(s.drop_last()) * 10 + digit_value(s.last())
    }
}

proof fn lemma_decimal_value_nonneg(s: Seq<char>)
    requires
        forall|i: int| 0 <= i < s.len() ==> is_dec_digit(#[trigger] s[i]),
    ensures
        decimal_value(s) >= 0,
    decreases s.len(),
{
    if s.len() > 0 {
        assert(forall|i: int| 0 <= i < s.drop_last().len() ==> is_dec_digit(
            #[trigger] s.drop_last()[i],
        ));
        lemma_decimal_value_nonneg(s.drop_last());
        assert(is_dec_digit(s[s.len() - 1]));
    }
}

/// The value of a digit string never falls below the value of any of its
/// prefixes.
proof fn lemma_decimal_prefix_le(s: Seq<char>, k: int)
    requires
        0 <= k <= s.len(),
        forall|i: int| 0 <= i < s.len() ==> is_dec_digit(#[trigger] s[i]),
    ensures
        decimal_value(s.take(k)) <= decimal_value(s),
    decreases s.len() - k,
{
    if k < s.len() {
        assert(s.take(k + 1).drop_last() =~= s.take(k));
        assert(s.take(k + 1).last() == s[k]);
        assert(forall|i: int| 0 <= i < s.take(k).len() ==> is_dec_digit(
            #[trigger] s.take(k)[i],
        ));
        lemma_decimal_value_nonneg(s.take(k));
        assert(is_dec_digit(s[k]));
        assert(decimal_value(s.take(k)) <= decimal_value(s.take(k + 1)));
        lemma_decimal_prefix_le(s, k + 1);
    } else {
        assert(s.take(k) =~= s);
    }
}

/// The digit a character stands for, if it is one.
fn digit_of(c: char) -> (r: Option<u64>)
    ensures
        r is Some <==> is_dec_digit(c),
        r is Some ==> r->0 == digit_value(c),
{
    if '0' <= c && c <= '9' {
        Some((c as u32 - '0' as u32) as u64)
    } else {
        None
    }
}

/// Parses a nonnegative decimal integer, the whole string or nothing.
///
/// Returns the denoted number exactly when the string is a nonempty run of
/// decimal digits whose value fits in a `u64`.
pub fn parse_u64(s: &str) -> (r: Option<u64>)
    ensures
        r is Some <==> is_decimal_string(s@) && decimal_value(s@) <= u64::MAX,
        r is Some ==> r->0 == decimal_value(s@),
{
    let n = s.unicode_len();
    if n == 0 {
        return None;
    }
    let mut i: usize = 0;
    while i < n
        invariant
            0 < n == s@.len(),
            i <= n,
            forall|j: int| 0 <= j < i ==> is_dec_digit(#[trigger] s@[j]),
        decreases n - i,
    {
        let c = s.get_char(i);
        if digit_of(c).is_none() {
            return None;
        }
        i += 1;
    }
    let mut value: u64 = 0;
    let mut i: usize = 0;
    while i < n
        invariant
            0 < n == s@.len(),
            i <= n,
            is_decimal_string(s@),
            value == decimal_value(s@.take(i as int)),
        decreases n - i,
    {
        let c = s.get_char(i);
        let d = match digit_of(c) {
            Some(d) => d,
            None => {
                return None;
            },
        };
        proof {
            assert(s@.take(i + 1).drop_last() =~= s@.take(i as int));
            assert(s@.take(i + 1).last() == s@[i as int]);
        }
        if value > u64::MAX / 10 {
            proof {
                lemma_decimal_prefix_le(s@, i + 1);
            }
            return None;
        }
        let shifted = value * 10;
        if d > u64::MAX - shifted {
            proof {
                lemma_decimal_prefix_le(s@, i + 1);
            }
            return None;
        }
        value = shifted + d;
        i += 1;
    }
    proof {
        assert(s@.take(n as int) =~= s@);
    }
    Some(value)
}

/// Why a configuration could not be built from the option values.
#[derive(Clone, Copy, Debug, PartialEq, Eq, Structural)]
pub enum ConfigError {
    /// The interval value is not a nonnegative decimal integer that fits in
    /// a `u64`.
    InvalidInterval,
    /// The interval is a valid integer but too large to convert to
    /// milliseconds.
    IntervalTooLarge,
}

/// Mathematical image of a [`Config`].
pub struct ConfigModel {
    pub interval_seconds: u64,
    pub file_path: Option<Seq<char>>,
}

impl ConfigModel {
    /// The interval converts to milliseconds without overflow.
    pub open spec fn wf(self) -> bool {
        self.interval_seconds <= MAX_INTERVAL_SECONDS
    }
}

/// The string of an optional owned string.
pub open spec fn opt_str_view(o: Option<String>) -> Option<Seq<char>> {
    match o {
        Option::None => Option::None,
        Option::Some(s) => Option::Some(s@),
    }
}

/// What the interval option value denotes: a number of seconds, or the
/// reason it is rejected.
pub open spec fn spec_interval(t: Seq<char>) -> Result<u64, ConfigError> {
    if !(is_decimal_string(t) && decimal_value(t) <= u64::MAX) {
        Result::Err(ConfigError::InvalidInterval)
    } else if decimal_value(t) > MAX_INTERVAL_SECONDS {
        Result::Err(ConfigError::IntervalTooLarge)
    } else {
        Result::Ok(decimal_value(t) as u64)
    }
}

/// The configuration the two option values denote: an absent interval means
/// zero seconds, an absent path stays absent.
pub open spec fn spec_config(time: Option<Seq<char>>, file: Option<Seq<char>>) -> Result<
    ConfigModel,
    ConfigError,
> {
    match time {
        Option::None => Result::Ok(ConfigModel { interval_seconds: 0, file_path: file }),
        Option::Some(t) => match spec_interval(t) {
            Result::Ok(v) => Result::Ok(ConfigModel { interval_seconds: v, file_path: file }),
            Result::Err(e) => Result::Err(e),
        },
    }
}

/// Immutable run configuration: seconds between prints and the optional file
/// path.
#[derive(Debug)]
pub struct Config {
    pub interval_seconds: u64,
    pub file_path: Option<String>,
}

impl View for Config {
    type V = ConfigModel;

    open spec fn view(&self) -> ConfigModel {
        ConfigModel {
            interval_seconds: self.interval_seconds,
            file_path: opt_str_view(self.file_path),
        }
    }
}

impl Config {
    /// Builds the configuration from the two command-line option values.
    ///
    /// An absent interval defaults to zero seconds; an absent file path is
    /// kept absent, and the loop will print empty content.
    pub fn from_options(time: Option<String>, file: Option<String>) -> (r: Result<
        Config,
        ConfigError,
    >)
        ensures
            ({
                let m = spec_config(opt_str_view(time), opt_str_view(file));
                &&& r is Ok <==> m is Ok
                &&& r is Ok ==> r->Ok_0@ == m->Ok_0 && r->Ok_0@.wf()
                &&& r is Err ==> r->Err_0 == m->Err_0
            }),
    {
        let interval: u64 = match time {
            Option::None => 0,
            Option::Some(t) => match parse_u64(t.as_str()) {
                Option::None => {
                    return Result::Err(ConfigError::InvalidInterval);
                },
                Option::Some(v) => {
                    if v > MAX_INTERVAL_SECONDS {
                        return Result::Err(ConfigError::IntervalTooLarge);
                    }
                    v
                },
            },
        };
        Result::Ok(Config { interval_seconds: interval, file_path: file })
    }

    /// The sleep interval in milliseconds, the unit the loop sleeps in.
    pub fn interval_millis(&self) -> (r: u64)
        requires
            self@.wf(),
        ensures
            r == self.interval_seconds * 1000,
    {
        self.interval_seconds * 1000
    }
}

} // verus!
