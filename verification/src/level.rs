//! Ordered severity levels and their case-insensitive textual form.

use vstd::prelude::*;
use vstd::string::StringSliceAdditionalSpecFns;

verus! {

/// An ordered severity classification gating whether a message is emitted.
///
/// The order, from least to most severe, is
/// `Debug < Info < Warn < Error`.
#[derive(Clone, Copy, Debug, PartialEq, Eq, Structural)]
pub enum LogLevel {
    Debug,
    Info,
    Warn,
    Error,
}

/// An unrecognized severity token; the caller decides the fallback.
#[derive(Clone, Copy, Debug, PartialEq, Eq, Structural)]
pub struct LevelParseError;

/// The rank of a level in the severity order: `Debug` is lowest,
/// `Error` is highest.
pub open spec fn severity(l: LogLevel) -> int {
    match l {
        LogLevel::Debug => 0,
        LogLevel::Info => 1,
        LogLevel::Warn => 2,
        LogLevel::Error => 3,
    }
}

/// Whether a message at `level` is emitted when the logger's minimum is
/// `min`: emit iff `level >= min` in the severity order.
pub open spec fn spec_passes(level: LogLevel, min: LogLevel) -> bool {
    severity(level) >= severity(min)
}

/// ASCII lower-casing of one byte; bytes outside `A..=Z` are unchanged.
pub open spec fn ascii_lower(b: u8) -> u8 {
    if 'A' as u8 <= b && b <= 'Z' as u8 {
        (b + 32) as u8
    } else {
        b
    }
}

/// `s` spells `"debug"`, ignoring ASCII case.
pub open spec fn is_debug_token(s: Seq<u8>) -> bool {
    &&& s.len() == 5
    &&& ascii_lower(s[0]) == 'd' as u8
    &&& ascii_lower(s[1]) == 'e' as u8
    &&& ascii_lower(s[2]) == 'b' as u8
    &&& ascii_lower(s[3]) == 'u' as u8
    &&& ascii_lower(s[4]) == 'g' as u8
}

/// `s` spells `"info"`, ignoring ASCII case.
pub open spec fn is_info_token(s: Seq<u8>) -> bool {
    &&& s.len() == 4
    &&& ascii_lower(s[0]) == 'i' as u8
    &&& ascii_lower(s[1]) == 'n' as u8
    &&& ascii_lower(s[2]) == 'f' as u8
    &&& ascii_lower(s[3]) == 'o' as u8
}

/// `s` spells `"warn"`, ignoring ASCII case.
pub open spec fn is_warn_token(s: Seq<u8>) -> bool {
    &&& s.len() == 4
    &&& ascii_lower(s[0]) == 'w' as u8
    &&& ascii_lower(s[1]) == 'a' as u8
    &&& ascii_lower(s[2]) == 'r' as u8
    &&& ascii_lower(s[3]) == 'n' as u8
}

/// `s` spells `"error"`, ignoring ASCII case.
pub open spec fn is_error_token(s: Seq<u8>) -> bool {
    &&& s.len() == 5
    &&& ascii_lower(s[0]) == 'e' as u8
    &&& ascii_lower(s[1]) == 'r' as u8
    &&& ascii_lower(s[2]) == 'r' as u8
    &&& ascii_lower(s[3]) == 'o' as u8
    &&& ascii_lower(s[4]) == 'r' as u8
}

/// The level spelled by the byte sequence `s`, ignoring ASCII case, or
/// `None` when `s` spells none of the four level names.
pub open spec fn spec_parse(s: Seq<u8>) -> Option<LogLevel> {
    if is_debug_token(s) {
        Some(LogLevel::Debug)
    } else if is_info_token(s) {
        Some(LogLevel::Info)
    } else if is_warn_token(s) {
        Some(LogLevel::Warn)
    } else if is_error_token(s) {
        Some(LogLevel::Error)
    } else {
        None
    }
}

/// `s` with every byte ASCII-lower-cased.
pub open spec fn lower_bytes(s: Seq<u8>) -> Seq<u8> {
    Seq::new(s.len(), |i: int| ascii_lower(s[i]))
}

/// Parsing ignores ASCII case: lower-casing the input first changes
/// nothing about the outcome.
pub proof fn lemma_parse_case_insensitive(s: Seq<u8>)
    ensures
        spec_parse(lower_bytes(s)) == spec_parse(s),
{
    assert forall|i: int| 0 <= i < s.len() implies ascii_lower(lower_bytes(s)[i])
        == ascii_lower(s[i]) by {
    }
}

impl LogLevel {
    /// The rank of this level in the severity order, as a machine integer.
    pub fn severity_rank(&self) -> (r: u8)
        ensures
            r as int == severity(*self),
    {
        match self {
            LogLevel::Debug => 0,
            LogLevel::Info => 1,
            LogLevel::Warn => 2,
            LogLevel::Error => 3,
        }
    }

    /// Whether a message at level `self` passes a logger whose minimum
    /// level is `min`.
    pub fn passes(&self, min: &LogLevel) -> (r: bool)
        ensures
            r == spec_passes(*self, *min),
    {
        self.severity_rank() >= min.severity_rank()
    }

    /// Case-insensitive parse of a severity token: exactly the strings
    /// spelling `debug`, `info`, `warn` or `error` in any ASCII case are
    /// accepted; every other string is a [`LevelParseError`].
    pub fn parse(text: &str) -> (r: Result<LogLevel, LevelParseError>)
        ensures
            match r {
                Ok(l) => spec_parse(text.spec_bytes()) == Some(l),
                Err(_) => spec_parse(text.spec_bytes()) is None,
            },
    {
        let b = text.as_bytes();
        let n = b.len();
        if n == 5 && lower_at(b, 0) == 'd' as u8 && lower_at(b, 1) == 'e' as u8
            && lower_at(b, 2) == 'b' as u8 && lower_at(b, 3) == 'u' as u8
            && lower_at(b, 4) == 'g' as u8 {
            Ok(LogLevel::Debug)
        } else if n == 4 && lower_at(b, 0) == 'i' as u8 && lower_at(b, 1) == 'n' as u8
            && lower_at(b, 2) == 'f' as u8 && lower_at(b, 3) == 'o' as u8 {
            Ok(LogLevel::Info)
        } else if n == 4 && lower_at(b, 0) == 'w' as u8 && lower_at(b, 1) == 'a' as u8
            && lower_at(b, 2) == 'r' as u8 && lower_at(b, 3) == 'n' as u8 {
            Ok(LogLevel::Warn)
        } else if n == 5 && lower_at(b, 0) == 'e' as u8 && lower_at(b, 1) == 'r' as u8
            && lower_at(b, 2) == 'r' as u8 && lower_at(b, 3) == 'o' as u8
            && lower_at(b, 4) == 'r' as u8 {
            Ok(LogLevel::Error)
        } else {
            Err(LevelParseError)
        }
    }
}

/// The byte of `b` at `i`, ASCII-lower-cased.
fn lower_at(b: &[u8], i: usize) -> (r: u8)
    requires
        i < b@.len(),
    ensures
        r == ascii_lower(b@[i as int]),
{
    let c = b[i];
    if c >= 'A' as u8 && c <= 'Z' as u8 {
        c + 32
    } else {
        c
    }
}

} // verus!
