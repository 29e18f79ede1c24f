//! Recognizer for numeric text.
//!
//! A mutating payload whose text parses as a floating-point number is a
//! domain error for the to-upper service. The recognizer accepts exactly the
//! grammar that `f64` parsing documents:
//!
//! ```text
//! Float  ::= Sign? ( 'inf' | 'infinity' | 'nan' | Number )
//! Number ::= ( Digit+ | Digit+ '.' Digit* | Digit* '.' Digit+ ) Exp?
//! Exp    ::= ('e' | 'E') Sign? Digit+
//! Sign   ::= '+' | '-'
//! ```
//!
//! with the three keywords matched case-insensitively.

use vstd::prelude::*;
use vstd::string::StrSliceExecFns;

verus! {

/// True when `c` is an ASCII decimal digit.
pub open spec fn is_ascii_digit(c: char) -> bool {
    '0' <= c && c <= '9'
}

/// Index of the first non-digit in `s` at or after `from`, or `s.len()`.
pub open spec fn digit_run_end(s: Seq<char>, from: int) -> int
    recommends
        0 <= from <= s.len(),
    decreases s.len() - from when 0 <= from <= s.len()
{
    if from >= s.len() {
        s.len() as int
    } else if is_ascii_digit(s[from]) {
        digit_run_end(s, from + 1)
    } else {
        from
    }
}

/// Number of characters taken by a leading sign.
pub open spec fn sign_end(s: Seq<char>) -> int {
    if s.len() > 0 && (s[0] == '+' || s[0] == '-') {
        1
    } else {
        0
    }
}

/// ASCII lower-casing of one character.
pub open spec fn ascii_lower(c: char) -> char {
    if 'A' <= c && c <= 'Z' {
        ((c as u32 + 32) as char)
    } else {
        c
    }
}

/// Case-insensitive equality with an ASCII keyword.
pub open spec fn eq_ignore_ascii_case(s: Seq<char>, kw: Seq<char>) -> bool {
    s.len() == kw.len() && forall|i: int| 0 <= i < s.len() ==> ascii_lower(s[i]) == kw[i]
}

/// True when `s` is one of the non-finite keywords, in any case.
pub open spec fn is_special(s: Seq<char>) -> bool {
    ||| eq_ignore_ascii_case(s, seq!['i', 'n', 'f'])
    ||| eq_ignore_ascii_case(s, seq!['i', 'n', 'f', 'i', 'n', 'i', 't', 'y'])
    ||| eq_ignore_ascii_case(s, seq!['n', 'a', 'n'])
}

/// True when `s[from..]` is an exponent part: an exponent marker, an
/// optional sign, and at least one digit reaching the end of the text.
pub open spec fn is_exponent_at(s: Seq<char>, from: int) -> bool
    recommends
        0 <= from <= s.len(),
{
    &&& from < s.len()
    &&& (s[from] == 'e' || s[from] == 'E')
    &&& {
        let d = if from + 1 < s.len() && (s[from + 1] == '+' || s[from + 1] == '-') {
            from + 2
        } else {
            from + 1
        };
        d < s.len() && digit_run_end(s, d) == s.len()
    }
}

/// True when `s[from..]` is a number: a mantissa with at least one digit and
/// at most one point, followed by an optional exponent.
pub open spec fn is_number_at(s: Seq<char>, from: int) -> bool
    recommends
        0 <= from <= s.len(),
{
    let i = digit_run_end(s, from);
    if i < s.len() && s[i] == '.' {
        let j = digit_run_end(s, i + 1);
        (i > from || j > i + 1) && (j == s.len() || is_exponent_at(s, j))
    } else {
        i > from && (i == s.len() || is_exponent_at(s, i))
    }
}

/// True when `s` is numeric text under the grammar above.
pub open spec fn spec_is_numeric(s: Seq<char>) -> bool {
    is_special(s.skip(sign_end(s))) || is_number_at(s, sign_end(s))
}

/// Case-insensitive comparison of `input[from..]` against a lower-case
/// ASCII keyword.
fn tail_matches_keyword(input: &str, from: usize, kw: &str) -> (r: bool)
    requires
        from <= input@.len(),
    ensures
        r == eq_ignore_ascii_case(input@.skip(from as int), kw@),
{
    let n = input.unicode_len();
    let m = kw.unicode_len();
    if n - from != m {
        return false;
    }
    let mut j: usize = 0;
    while j < m
        invariant
            j <= m,
            from + m <= n,
            n == input@.len(),
            m == kw@.len(),
            forall|k: int| 0 <= k < j ==> ascii_lower(input@.skip(from as int)[k]) == kw@[k],
        decreases m - j,
    {
        let c = input.get_char(from + j);
        let k = kw.get_char(j);
        let cu = c as u32;
        let matches = if cu >= 65 && cu <= 90 {
            cu + 32 == k as u32
        } else {
            c == k
        };
        if !matches {
            proof {
                assert(input@.skip(from as int)[j as int] == c);
                assert(ascii_lower(c) != k);
            }
            return false;
        }
        proof {
            assert(input@.skip(from as int)[j as int] == c);
            assert(ascii_lower(c) == k);
        }
        j += 1;
    }
    true
}

/// Index of the first non-digit at or after `from`.
fn scan_digits(input: &str, from: usize) -> (r: usize)
    requires
        from <= input@.len(),
    ensures
        r == digit_run_end(input@, from as int),
        from <= r <= input@.len(),
{
    let n = input.unicode_len();
    let mut i: usize = from;
    while i < n
        invariant
            from <= i <= n,
            n == input@.len(),
            digit_run_end(input@, from as int) == digit_run_end(input@, i as int),
        decreases n - i,
    {
        let c = input.get_char(i);
        if !(c >= '0' && c <= '9') {
            return i;
        }
        i += 1;
    }
    i
}

/// True when `input[from..]` is an exponent part.
fn scan_exponent(input: &str, from: usize) -> (r: bool)
    requires
        from <= input@.len(),
    ensures
        r == is_exponent_at(input@, from as int),
{
    let n = input.unicode_len();
    if from >= n {
        return false;
    }
    let c = input.get_char(from);
    if !(c == 'e' || c == 'E') {
        return false;
    }
    let d: usize = if from + 1 < n {
        let c1 = input.get_char(from + 1);
        if c1 == '+' || c1 == '-' {
            from + 2
        } else {
            from + 1
        }
    } else {
        from + 1
    };
    if d >= n {
        return false;
    }
    let e = scan_digits(input, d);
    e == n
}

/// True when `input` parses as a floating-point number: an optionally
/// signed non-finite keyword or decimal number with optional exponent.
pub fn is_numeric(input: &str) -> (r: bool)
    ensures
        r == spec_is_numeric(input@),
{
    let n = input.unicode_len();
    let start: usize = if n > 0 {
        let c0 = input.get_char(0);
        if c0 == '+' || c0 == '-' {
            1
        } else {
            0
        }
    } else {
        0
    };
    proof {
        assert(start as int == sign_end(input@));
        reveal_strlit("inf");
        reveal_strlit("infinity");
        reveal_strlit("nan");
        assert("inf"@ =~= seq!['i', 'n', 'f']);
        assert("infinity"@ =~= seq!['i', 'n', 'f', 'i', 'n', 'i', 't', 'y']);
        assert("nan"@ =~= seq!['n', 'a', 'n']);
    }
    if tail_matches_keyword(input, start, "inf") || tail_matches_keyword(input, start, "infinity")
        || tail_matches_keyword(input, start, "nan") {
        return true;
    }
    let i = scan_digits(input, start);
    if i < n {
        let c = input.get_char(i);
        if c == '.' {
            let j = scan_digits(input, i + 1);
            if !(i > start || j > i + 1) {
                return false;
            }
            if j == n {
                return true;
            }
            return scan_exponent(input, j);
        }
    }
    if i == start {
        return false;
    }
    if i == n {
        return true;
    }
    scan_exponent(input, i)
}

} // verus!
