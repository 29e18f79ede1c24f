//! Verified text utilities shared by the dispatchers: string equality,
//! path-segment extraction, decimal rendering, and the trusted case-folding
//! boundary.

use vstd::prelude::*;
use vstd::string::StrSliceExecFns;
use vstd::string::StringExecFns;

verus! {

/// Unicode lower-casing of a character sequence: the value
/// `str::to_lowercase` computes, which depends on the characters alone.
pub uninterp spec fn lower_of(s: Seq<char>) -> Seq<char>;

/// Unicode upper-casing of a character sequence: the value
/// `str::to_uppercase` computes, which depends on the characters alone.
pub uninterp spec fn upper_of(s: Seq<char>) -> Seq<char>;

/// Trusted boundary: relies on `str::to_lowercase`; the result is a function
/// of the input characters alone.
#[verifier::external_body]
pub(crate) fn to_lowercase(s: &str) -> (r: String)
    ensures
        r@ == lower_of(s@),
{
    s.to_lowercase()
}

/// Trusted boundary: relies on `str::to_uppercase`; the result is a function
/// of the input characters alone.
#[verifier::external_body]
pub(crate) fn to_uppercase(s: &str) -> (r: String)
    ensures
        r@ == upper_of(s@),
{
    s.to_uppercase()
}

/// Character-wise string equality.
pub fn str_eq(a: &str, b: &str) -> (r: bool)
    ensures
        r <==> a@ == b@,
{
    let na = a.unicode_len();
    let nb = b.unicode_len();
    if na != nb {
        return false;
    }
    let mut i: usize = 0;
    while i < na
        invariant
            i <= na,
            na == a@.len(),
            na == b@.len(),
            forall|j: int| 0 <= j < i ==> a@[j] == b@[j],
        decreases na - i,
    {
        if a.get_char(i) != b.get_char(i) {
            return false;
        }
        i += 1;
    }
    proof {
        assert(a@ =~= b@);
    }
    true
}

/// Index of the first occurrence of `sep` in `s` at or after `from`, or
/// `s.len()` when there is none.
pub open spec fn sep_index_from(s: Seq<char>, from: int, sep: char) -> int
    recommends
        0 <= from <= s.len(),
    decreases s.len() - from when 0 <= from <= s.len()
{
    if from >= s.len() {
        s.len() as int
    } else if s[from] == sep {
        from
    } else {
        sep_index_from(s, from + 1, sep)
    }
}

pub proof fn lemma_sep_index_from(s: Seq<char>, from: int, sep: char)
    requires
        0 <= from <= s.len(),
    ensures
        from <= sep_index_from(s, from, sep) <= s.len(),
        sep_index_from(s, from, sep) < s.len() ==> s[sep_index_from(s, from, sep)] == sep,
        forall|j: int| from <= j < sep_index_from(s, from, sep) ==> s[j] != sep,
    decreases s.len() - from,
{
    if from < s.len() && s[from] != sep {
        lemma_sep_index_from(s, from + 1, sep);
    }
}

/// Index of the first occurrence of `sep` in `s` at or after `from`, or the
/// length of `s`.
pub fn find_char(s: &str, from: usize, sep: char) -> (r: usize)
    requires
        from <= s@.len(),
    ensures
        r == sep_index_from(s@, from as int, sep),
        from <= r <= s@.len(),
{
    let n = s.unicode_len();
    let mut i: usize = from;
    while i < n
        invariant
            from <= i <= n,
            n == s@.len(),
            sep_index_from(s@, from as int, sep) == sep_index_from(s@, i as int, sep),
            forall|j: int| from <= j < i ==> s@[j] != sep,
        decreases n - i,
    {
        if s.get_char(i) == sep {
            return i;
        }
        i += 1;
    }
    i
}

/// First `/`-delimited segment of a path.
pub open spec fn first_segment(s: Seq<char>) -> Seq<char> {
    s.take(sep_index_from(s, 0, '/'))
}

/// Second `/`-delimited segment of a path, when the path has one.
pub open spec fn second_segment(s: Seq<char>) -> Option<Seq<char>> {
    let i = sep_index_from(s, 0, '/');
    if i == s.len() {
        None
    } else {
        Some(s.subrange(i + 1, sep_index_from(s, i + 1, '/')))
    }
}

/// Splits a path into its first segment and, when a delimiter is present,
/// its second segment.
pub fn path_segments(s: &str) -> (r: (String, Option<String>))
    ensures
        r.0@ == first_segment(s@),
        r.1 is Some <==> second_segment(s@) is Some,
        r.1 matches Some(t) ==> Some(t@) == second_segment(s@),
{
    let n = s.unicode_len();
    let i = find_char(s, 0, '/');
    proof {
        lemma_sep_index_from(s@, 0, '/');
    }
    let seg0 = String::from_str(s.substring_char(0, i));
    proof {
        assert(s@.subrange(0, i as int) =~= s@.take(i as int));
    }
    if i == n {
        (seg0, None)
    } else {
        let j = find_char(s, i + 1, '/');
        proof {
            lemma_sep_index_from(s@, i + 1, '/');
        }
        let seg1 = String::from_str(s.substring_char(i + 1, j));
        (seg0, Some(seg1))
    }
}

/// Decimal digit character for a value below 10.
pub open spec fn dec_digit_char(v: u8) -> char
    recommends
        v < 10,
{
    ((v + 48) as u32) as char
}

/// Decimal rendering of a natural number, most significant digit first.
pub open spec fn dec_chars_of(n: nat) -> Seq<char>
    decreases n,
{
    if n < 10 {
        seq![dec_digit_char(n as u8)]
    } else {
        dec_chars_of(n / 10) + seq![dec_digit_char((n % 10) as u8)]
    }
}

/// One-character string holding the decimal digit for `v`.
fn digit_str(v: u8) -> (r: &'static str)
    requires
        v < 10,
    ensures
        r@ =~= seq![dec_digit_char(v)],
{
    proof {
        reveal_strlit("0");
        reveal_strlit("1");
        reveal_strlit("2");
        reveal_strlit("3");
        reveal_strlit("4");
        reveal_strlit("5");
        reveal_strlit("6");
        reveal_strlit("7");
        reveal_strlit("8");
        reveal_strlit("9");
    }
    match v {
        0 => "0",
        1 => "1",
        2 => "2",
        3 => "3",
        4 => "4",
        5 => "5",
        6 => "6",
        7 => "7",
        8 => "8",
        _ => "9",
    }
}

/// Renders a counter value as decimal text.
pub fn u128_to_dec(n: u128) -> (r: String)
    ensures
        r@ == dec_chars_of(n as nat),
    decreases n,
{
    if n < 10 {
        String::from_str(digit_str(n as u8))
    } else {
        let mut s = u128_to_dec(n / 10);
        s.append(digit_str((n % 10) as u8));
        s
    }
}

} // verus!
