//! Text primitives: decimal rendering, JSON string quoting, form encoding
//! and placeholder substitution, with their specifications.
use vstd::prelude::*;

verus! {

/// The character of a decimal digit.
pub open spec fn digit_char(d: nat) -> char {
    if d == 0 { '0' }
    else if d == 1 { '1' }
    else if d == 2 { '2' }
    else if d == 3 { '3' }
    else if d == 4 { '4' }
    else if d == 5 { '5' }
    else if d == 6 { '6' }
    else if d == 7 { '7' }
    else if d == 8 { '8' }
    else { '9' }
}

/// The decimal digits of a natural number, most significant first.
pub open spec fn digits(n: nat) -> Seq<char>
    decreases n,
{
    if n < 10 {
        seq![digit_char(n)]
    } else {
        digits(n / 10).push(digit_char(n % 10))
    }
}

/// The decimal text of an integer, with a leading `-` when negative.
pub open spec fn decimal(i: int) -> Seq<char> {
    if i < 0 {
        seq!['-'] + digits((-i) as nat)
    } else {
        digits(i as nat)
    }
}

/// The text of `s` in which each occurrence of `pat`, taken from the left and
/// without overlap, is replaced by `to`.
pub open spec fn replaced(s: Seq<char>, pat: Seq<char>, to: Seq<char>) -> Seq<char>
    decreases s.len(),
{
    if pat.len() == 0 || s.len() < pat.len() {
        s
    } else if s.subrange(0, pat.len() as int) == pat {
        to + replaced(s.subrange(pat.len() as int, s.len() as int), pat, to)
    } else {
        seq![s[0]] + replaced(s.subrange(1, s.len() as int), pat, to)
    }
}

/// The JSON string literal for a text: quoted, with the escapes that
/// serde_json writes.
pub uninterp spec fn json_quoted(s: Seq<char>) -> Seq<char>;

/// The `application/x-www-form-urlencoded` form of one `key=value` pair.
pub uninterp spec fn form_pair(k: Seq<char>, v: Seq<char>) -> Seq<char>;

/// Relies on `i64`'s `Display` (through `to_string`): the decimal text of the
/// integer, with a `-` sign when negative.
#[verifier::external_body]
pub(crate) fn int_text(i: i64) -> (r: String)
    ensures
        r@ == decimal(i as int),
{
    i.to_string()
}

/// Relies on `serde_json::to_string` applied to a string: the quoted and
/// escaped JSON literal. Serialising a `str` does not fail.
#[verifier::external_body]
pub(crate) fn quote_json(s: &str) -> (r: String)
    ensures
        r@ == json_quoted(s@),
{
    match serde_json::to_string(s) {
        Ok(t) => t,
        Err(_) => String::new(),
    }
}

/// Relies on `serde_urlencoded::to_string` applied to one pair of strings:
/// the form-encoded `key=value`. Encoding a pair of strings does not fail.
#[verifier::external_body]
pub(crate) fn encode_form_pair(k: &str, v: &str) -> (r: String)
    ensures
        r@ == form_pair(k@, v@),
{
    match serde_urlencoded::to_string([(k, v)]) {
        Ok(t) => t,
        Err(_) => String::new(),
    }
}

/// Relies on `str::replace`: every occurrence of `from`, left to right and
/// without overlap, replaced by `to`.
#[verifier::external_body]
pub(crate) fn replace_all(s: &str, from: &str, to: &str) -> (r: String)
    requires
        from@.len() > 0,
    ensures
        r@ == replaced(s@, from@, to@),
{
    s.replace(from, to)
}

} // verus!
