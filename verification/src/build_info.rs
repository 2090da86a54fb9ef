//! What is known of how this crate was built.
use vstd::prelude::*;

verus! {

/// Calls `is_debug::is_debug`: whether debug assertions were compiled in.
/// Nothing is stated of the result; it depends on the build.
#[verifier::external_body]
fn debug_assertions_enabled() -> bool {
    is_debug::is_debug()
}

/// The commit hash the build recorded, or `UNKNOWN GIT HASH` where it
/// recorded none.
pub fn git_hash_or_unknown(recorded: Option<&'static str>) -> (r: &'static str)
    ensures
        match recorded {
            Some(h) => r@ == h@,
            None => r@ == "UNKNOWN GIT HASH"@,
        },
{
    match recorded {
        Some(h) => h,
        None => "UNKNOWN GIT HASH",
    }
}

/// The commit hash recorded at build time, or `UNKNOWN GIT HASH` when none
/// was recorded; this package's own build records none.
pub fn get_git_hash() -> (r: &'static str)
    ensures
        r@ == "UNKNOWN GIT HASH"@,
{
    git_hash_or_unknown(None)
}

/// The name of the build profile: `debug` for a build with debug
/// assertions, `release` otherwise.
pub fn profile_name(debug: bool) -> (r: &'static str)
    ensures
        r@ == if debug { "debug"@ } else { "release"@ },
{
    if debug {
        "debug"
    } else {
        "release"
    }
}

/// The build profile: `debug` when debug assertions are compiled in,
/// `release` otherwise.
pub fn get_profile() -> (r: &'static str)
    ensures
        r@ == "debug"@ || r@ == "release"@,
{
    profile_name(debug_assertions_enabled())
}

/// `c` is an ASCII digit.
pub open spec fn is_digit(c: char) -> bool {
    '0' <= c <= '9'
}

/// The number the digits `s` spell in decimal.
pub open spec fn digits_value(s: Seq<char>) -> int
    decreases s.len(),
{
    if s.len() == 0 {
        0
    } else {
        digits_value(s.drop_last()) * 10 + (s.last() as int - 48)
    }
}

/// `s` begins with a minus sign.
pub open spec fn negative(s: Seq<char>) -> bool {
    s.len() > 0 && s[0] == '-'
}

/// The text `s` without its leading sign, if it has one.
pub open spec fn unsigned_part(s: Seq<char>) -> Seq<char> {
    if s.len() > 0 && (s[0] == '-' || s[0] == '+') {
        s.drop_first()
    } else {
        s
    }
}

/// `s` is one or more ASCII digits.
pub open spec fn all_digits(s: Seq<char>) -> bool {
    s.len() > 0 && forall|i: int| 0 <= i < s.len() ==> is_digit(#[trigger] s[i])
}

/// The value of `s` read as an `i64` the way `str::parse` reads it: an
/// optional sign, then one or more ASCII digits, the value within range.
pub open spec fn spec_parse_i64(s: Seq<char>) -> Option<int> {
    let v = if negative(s) {
        -digits_value(unsigned_part(s))
    } else {
        digits_value(unsigned_part(s))
    };
    if all_digits(unsigned_part(s)) && i64::MIN <= v <= i64::MAX {
        Some(v)
    } else {
        None
    }
}

/// More digits never make the value smaller.
proof fn lemma_digits_grow(s: Seq<char>, j: int)
    requires
        0 <= j <= s.len(),
        forall|i: int| 0 <= i < s.len() ==> is_digit(#[trigger] s[i]),
    ensures
        0 <= digits_value(s.take(j)) <= digits_value(s),
    decreases s.len(),
{
    if s.len() > 0 {
        if j == s.len() {
            assert(s.take(j) =~= s);
        } else {
            assert(s.drop_last().take(j) =~= s.take(j));
        }
        if j < s.len() {
            lemma_digits_grow(s.drop_last(), j);
        } else {
            lemma_digits_grow(s.drop_last(), j - 1);
        }
    }
}

/// Reads `s` as an `i64` the way `str::parse` does.
pub fn parse_i64(s: &str) -> (r: Option<i64>)
    ensures
        match spec_parse_i64(s@) {
            Some(v) => r == Some(v as i64),
            None => r is None,
        },
{
    let n = s.unicode_len();
    let mut start: usize = 0;
    let mut neg = false;
    if n > 0 {
        let c = s.get_char(0);
        if c == '-' {
            neg = true;
            start = 1;
        } else if c == '+' {
            start = 1;
        }
    }
    let ghost body = unsigned_part(s@);
    assert(body =~= s@.subrange(start as int, n as int));
    assert(neg == negative(s@));
    if start == n {
        return None;
    }
    let mut acc: i128 = 0;
    let mut k: usize = start;
    while k < n
        invariant
            start <= k <= n,
            n == s@.len(),
            body =~= s@.subrange(start as int, n as int),
            body == unsigned_part(s@),
            neg == negative(s@),
            forall|i: int| 0 <= i < k - start ==> is_digit(#[trigger] body[i]),
            acc == digits_value(body.take(k - start)),
            0 <= acc <= 0x8000_0000_0000_0000,
        decreases n - k,
    {
        let c = s.get_char(k);
        if !('0' <= c && c <= '9') {
            assert(body[k - start] == c);
            assert(!is_digit(body[k - start]));
            return None;
        }
        let d = (c as u32 - 48) as i128;
        assert(body.take(k - start + 1).drop_last() =~= body.take(k - start));
        assert(body.take(k - start + 1).last() == c);
        assert(is_digit(body[k - start]));
        acc = acc * 10 + d;
        assert(acc == digits_value(body.take(k - start + 1)));
        if acc > 0x8000_0000_0000_0000 {
            proof {
                if all_digits(body) {
                    lemma_digits_grow(body, k - start + 1);
                }
            }
            return None;
        }
        k += 1;
    }
    assert(body.take(n - start) =~= body);
    if neg {
        if acc > 0x8000_0000_0000_0000 {
            None
        } else {
            Some((-acc) as i64)
        }
    } else {
        if acc > 0x7FFF_FFFF_FFFF_FFFF {
            None
        } else {
            Some(acc as i64)
        }
    }
}

/// The seconds since the epoch that the build recorded, read as `str::parse`
/// reads them; one second before the epoch where it recorded none; `None`
/// where the record does not read as an `i64`.
pub fn recorded_secs(recorded: Option<&str>) -> (r: Option<i64>)
    ensures
        match recorded {
            Some(t) => match spec_parse_i64(t@) {
                Some(v) => r == Some(v as i64),
                None => r is None,
            },
            None => r == Some(-1i64),
        },
{
    match recorded {
        Some(t) => parse_i64(t),
        None => Some(-1),
    }
}

} // verus!
