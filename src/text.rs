//! Text primitives used by the matching rules, the payload builders and the
//! command parser, each stated over the character sequence of its strings.
use vstd::prelude::*;

verus! {

/// `s` holds `k` as a contiguous run of characters.
pub open spec fn has_substring(s: Seq<char>, k: Seq<char>) -> bool {
    exists|i: int| 0 <= i && i + k.len() <= s.len() && #[trigger] s.subrange(i, i + k.len()) == k
}

/// `p` is a prefix of `s`.
pub open spec fn has_prefix(s: Seq<char>, p: Seq<char>) -> bool {
    p.len() <= s.len() && s.subrange(0, p.len() as int) == p
}

/// The decimal digit character for `d` in `0..10`.
pub open spec fn digit_char(d: int) -> char {
    seq!['0', '1', '2', '3', '4', '5', '6', '7', '8', '9'][d]
}

/// Decimal digits of a natural number, most significant first, without
/// leading zeros.
pub open spec fn nat_digits(n: nat) -> Seq<char>
    decreases n,
{
    if n < 10 {
        seq![digit_char(n as int)]
    } else {
        nat_digits(n / 10).push(digit_char((n % 10) as int))
    }
}

/// Decimal rendering of an integer, with a leading `-` when negative.
pub open spec fn decimal_of(n: int) -> Seq<char> {
    if n < 0 {
        seq!['-'] + nat_digits((-n) as nat)
    } else {
        nat_digits(n as nat)
    }
}

pub open spec fn is_digit(c: char) -> bool {
    '0' <= c && c <= '9'
}

/// Value of a run of decimal digits.
pub open spec fn digits_value(s: Seq<char>) -> int
    decreases s.len(),
{
    if s.len() == 0 {
        0
    } else {
        digits_value(s.drop_last()) * 10 + (s.last() as int - '0' as int)
    }
}

/// The digits of an unsigned number, after an optional leading `+`.
pub open spec fn unsigned_digits(s: Seq<char>) -> Seq<char> {
    if s.len() > 0 && s[0] == '+' {
        s.drop_first()
    } else {
        s
    }
}

/// What reading `s` as an unsigned 64-bit decimal number gives: the value when
/// `s` is an optional `+` followed by at least one digit and the value fits.
pub open spec fn parsed_u64(s: Seq<char>) -> Option<u64> {
    let d = unsigned_digits(s);
    if d.len() > 0 && (forall|i: int| 0 <= i < d.len() ==> is_digit(#[trigger] d[i]))
        && digits_value(d) <= u64::MAX {
        Some(digits_value(d) as u64)
    } else {
        None
    }
}

/// Position of the first `c` in `s`, if any.
pub open spec fn first_index_of(s: Seq<char>, c: char) -> Option<int> {
    if exists|i: int| 0 <= i < s.len() && s[i] == c {
        Some(choose|i: int| 0 <= i < s.len() && s[i] == c && forall|j: int| 0 <= j < i ==> s[j] != c)
    } else {
        None
    }
}

/// Lower-case form of a character sequence, as Unicode defines it.
pub uninterp spec fn lower_of(s: Seq<char>) -> Seq<char>;

/// Relies on `str::to_lowercase`: the Unicode lower-case mapping, which depends
/// on the characters alone.
#[verifier::external_body]
pub fn lowercase(s: &str) -> (r: String)
    ensures
        r@ == lower_of(s@),
{
    s.to_lowercase()
}

/// Relies on `str::contains` with a `&str` pattern: true exactly when `k`
/// occurs in `s`.
#[verifier::external_body]
pub fn contains_str(s: &str, k: &str) -> (r: bool)
    ensures
        r == has_substring(s@, k@),
{
    s.contains(k)
}

/// Relies on `str::starts_with` with a `&str` pattern: true exactly when `p`
/// is a prefix of `s`.
#[verifier::external_body]
pub fn starts_with_str(s: &str, p: &str) -> (r: bool)
    ensures
        r == has_prefix(s@, p@),
{
    s.starts_with(p)
}

/// Relies on `<String as Add<&str>>::add`: `b` appended to `a`.
#[verifier::external_body]
pub fn concat(a: String, b: &str) -> (r: String)
    ensures
        r@ == a@ + b@,
{
    a + b
}

/// Relies on `<i32 as ToString>::to_string`: the decimal form of `n`.
#[verifier::external_body]
pub fn i32_decimal(n: i32) -> (r: String)
    ensures
        r@ == decimal_of(n as int),
{
    n.to_string()
}

/// Relies on `str::parse::<u64>`: `Ok` with the value exactly for an optional
/// `+` followed by decimal digits whose value fits.
#[verifier::external_body]
pub fn parse_u64(s: &str) -> (r: Option<u64>)
    ensures
        r == parsed_u64(s@),
{
    s.parse::<u64>().ok()
}

/// Relies on `str::split_once` with a `char` pattern: the text before and after
/// the first occurrence of `c`.
#[verifier::external_body]
pub fn split_once_char(s: &str, c: char) -> (r: Option<(String, String)>)
    ensures
        match first_index_of(s@, c) {
            None => r is None,
            Some(i) => r matches Some(p) && p.0@ == s@.subrange(0, i) && p.1@ == s@.subrange(
                i + 1,
                s@.len() as int,
            ),
        },
{
    s.split_once(c).map(|(a, b)| (a.to_string(), b.to_string()))
}

} // verus!
