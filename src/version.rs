//! The version that `usbipd --version` prints.
use vstd::prelude::*;

use crate::text::{segments, split};

verus! {

/// A `usbipd` version: major, minor and patch numbers.
#[derive(Debug, Clone, Copy, PartialEq, Eq, Structural)]
pub struct Version {
    pub major: u32,
    pub minor: u32,
    pub patch: u32,
}

/// The major version from which `attach` and `detach` no longer take the
/// `wsl` prefix.
pub const CURRENT_COMMANDS_MAJOR: u32 = 4;

pub open spec fn is_decimal_digit(c: char) -> bool {
    '0' <= c && c <= '9'
}

/// The number that a string of decimal digits denotes.
pub open spec fn digits_value(s: Seq<char>) -> nat
    decreases s.len(),
{
    if s.len() == 0 {
        0
    } else {
        digits_value(s.drop_last()) * 10 + (s.last() as nat - '0' as nat) as nat
    }
}

/// Every character is a decimal digit.
pub open spec fn all_decimal_digits(d: Seq<char>) -> bool {
    forall|i: int| 0 <= i < d.len() ==> is_decimal_digit(#[trigger] d[i])
}

/// The text after an optional leading `+`.
pub open spec fn unsigned_digits(s: Seq<char>) -> Seq<char> {
    if s.len() > 0 && s[0] == '+' {
        s.drop_first()
    } else {
        s
    }
}

/// What `str::parse::<u32>` gives: an optional `+` followed by at least one
/// decimal digit, denoting a value that fits in a `u32`.
pub open spec fn decimal_u32(s: Seq<char>) -> Option<u32> {
    let d = unsigned_digits(s);
    if d.len() > 0 && all_decimal_digits(d) && digits_value(d) <= u32::MAX {
        Some(digits_value(d) as u32)
    } else {
        None
    }
}

/// A prefix of a string of digits denotes no more than the whole.
proof fn lemma_digits_value_prefix(d: Seq<char>, k: int)
    requires
        0 <= k <= d.len(),
    ensures
        digits_value(d.subrange(0, k)) <= digits_value(d),
    decreases d.len(),
{
    if k < d.len() {
        lemma_digits_value_prefix(d.drop_last(), k);
        assert(d.drop_last().subrange(0, k) =~= d.subrange(0, k));
    } else {
        assert(d.subrange(0, k) =~= d);
    }
}

/// Parses a decimal `u32` as `str::parse::<u32>` does: an optional `+`, then
/// ASCII digits only, with a value that fits.
pub fn parse_u32(s: &str) -> (r: Option<u32>)
    ensures
        r == decimal_u32(s@),
{
    let n = s.unicode_len();
    let start: usize = if n > 0 && s.get_char(0) == '+' {
        1
    } else {
        0
    };
    let ghost d = s@.subrange(start as int, n as int);
    proof {
        if start == 1 {
            assert(d =~= s@.drop_first());
        } else {
            assert(d =~= s@);
        }
    }
    if start == n {
        return None;
    }
    let mut acc: u64 = 0;
    let mut i: usize = start;
    proof {
        assert(d.subrange(0, 0) =~= Seq::<char>::empty());
    }
    while i < n
        invariant
            start <= i <= n,
            n == s@.len(),
            start < n,
            d == s@.subrange(start as int, n as int),
            d == unsigned_digits(s@),
            forall|k: int| 0 <= k < i - start ==> is_decimal_digit(#[trigger] d[k]),
            acc == digits_value(d.subrange(0, i - start)),
            acc <= u32::MAX,
        decreases n - i,
    {
        let c = s.get_char(i);
        let ghost k = i - start;
        assert(d[k] == c);
        if !('0' <= c && c <= '9') {
            proof {
                assert(0 <= k < d.len());
                assert(!is_decimal_digit(d[k]));
                assert(!all_decimal_digits(d));
            }
            return None;
        }
        let digit = (c as u32 - '0' as u32) as u64;
        proof {
            let next = d.subrange(0, k + 1);
            assert(next.drop_last() =~= d.subrange(0, k));
            assert(next.last() == c);
        }
        acc = acc * 10 + digit;
        if acc > u32::MAX as u64 {
            proof {
                lemma_digits_value_prefix(d, k + 1);
            }
            return None;
        }
        i = i + 1;
    }
    proof {
        assert(d.subrange(0, n - start) =~= d);
    }
    Some(acc as u32)
}

/// Component `k` of a version text: the part before any `+` is split at `.`,
/// and a missing or unparsable component counts as 0.
pub open spec fn version_component(text: Seq<char>, k: int) -> u32 {
    let parts = segments(segments(text, '+')[0], '.');
    if 0 <= k < parts.len() {
        match decimal_u32(parts[k]) {
            Some(v) => v,
            None => 0,
        }
    } else {
        0
    }
}

fn component(parts: &Vec<String>, k: usize) -> (r: u32)
    ensures
        r == (if k < parts@.len() {
            match decimal_u32(parts@[k as int]@) {
                Some(v) => v,
                None => 0,
            }
        } else {
            0
        }),
{
    if k < parts.len() {
        match parse_u32(parts[k].as_str()) {
            Some(v) => v,
            None => 0,
        }
    } else {
        0
    }
}

/// Parses the output of `usbipd --version`, `<major>.<minor>.<patch>` with an
/// optional `+<build metadata>` suffix.
pub fn parse_version(text: &str) -> (r: Version)
    ensures
        r.major == version_component(text@, 0),
        r.minor == version_component(text@, 1),
        r.patch == version_component(text@, 2),
{
    let halves = split(text, '+');
    let parts = split(halves[0].as_str(), '.');
    Version { major: component(&parts, 0), minor: component(&parts, 1), patch: component(&parts, 2) }
}

impl Version {
    /// Whether this version still prefixes `attach` and `detach` with `wsl`.
    pub open spec fn legacy_spec(&self) -> bool {
        self.major < CURRENT_COMMANDS_MAJOR
    }

    /// Whether this version still prefixes `attach` and `detach` with `wsl`.
    pub fn is_legacy(&self) -> (r: bool)
        ensures
            r == self.legacy_spec(),
    {
        self.major < CURRENT_COMMANDS_MAJOR
    }
}

} // verus!
