//! HTTP status codes, as the `http` crate (through `reqwest` and
//! `actix-web`) knows them.

use vstd::prelude::*;

verus! {

/// The reason phrase that the HTTP status registry gives to `code`, such as
/// "No Content" for 204, if it has one.
pub uninterp spec fn canonical_reason_of(code: u16) -> Option<Seq<char>>;

/// `reqwest::StatusCode::from_u16(code)` followed by `canonical_reason()`.
/// Claims that the phrase is the registry's phrase for `code` (a function of
/// `code` alone: a fixed table in the `http` crate), and that codes outside
/// `100..=999`, which `from_u16` refuses, have none.
#[verifier::external_body]
pub(crate) fn canonical_reason(code: u16) -> (r: Option<String>)
    ensures
        r.deep_view() == canonical_reason_of(code),
        (code < 100 || code > 999) ==> r is None,
{
    match reqwest::StatusCode::from_u16(code) {
        Ok(status) => match status.canonical_reason() {
            Some(phrase) => Some(phrase.to_string()),
            None => None,
        },
        Err(_) => None,
    }
}

/// `actix_web::http::StatusCode::from_u16(code)`, reduced to whether it
/// succeeds. Claims what the `http` crate's source shows: it accepts exactly
/// the codes in `100..=999`.
#[verifier::external_body]
pub(crate) fn is_valid_status(code: u16) -> (b: bool)
    ensures
        b == (100 <= code <= 999),
{
    actix_web::http::StatusCode::from_u16(code).is_ok()
}

/// The description of a response status that an executor reports: the
/// registry's reason phrase, or "internal error" where there is none.
pub open spec fn reason_or_internal_error(code: u16) -> Seq<char> {
    match canonical_reason_of(code) {
        Some(phrase) => phrase,
        None => "internal error"@,
    }
}

/// The description of a status whose reason phrase is `phrase`: the phrase,
/// or "internal error" where there is none.
pub fn describe_reason(phrase: Option<String>) -> (s: String)
    ensures
        s@ == match phrase {
            Some(p) => p@,
            None => "internal error"@,
        },
{
    match phrase {
        Some(p) => p,
        None => String::from_str("internal error"),
    }
}

/// Renders `reason_or_internal_error(code)`.
pub fn describe_status(code: u16) -> (s: String)
    ensures
        s@ == reason_or_internal_error(code),
{
    describe_reason(canonical_reason(code))
}

/// The text of a decimal digit.
pub open spec fn digit_text(d: int) -> Seq<char> {
    if d == 0 {
        "0"@
    } else if d == 1 {
        "1"@
    } else if d == 2 {
        "2"@
    } else if d == 3 {
        "3"@
    } else if d == 4 {
        "4"@
    } else if d == 5 {
        "5"@
    } else if d == 6 {
        "6"@
    } else if d == 7 {
        "7"@
    } else if d == 8 {
        "8"@
    } else {
        "9"@
    }
}

/// The decimal notation of `n`, without leading zeros.
pub open spec fn decimal(n: nat) -> Seq<char>
    decreases n,
{
    if n < 10 {
        digit_text(n as int)
    } else {
        decimal(n / 10) + digit_text((n % 10) as int)
    }
}

/// The number that a text of decimal digits denotes.
pub open spec fn decimal_value(s: Seq<char>) -> int
    decreases s.len(),
{
    if s.len() == 0 {
        0
    } else {
        decimal_value(s.drop_last()) * 10 + (s.last() as int - '0' as int)
    }
}

proof fn lemma_digit_text(d: int)
    requires
        0 <= d < 10,
    ensures
        digit_text(d) == seq![(('0' as int) + d) as char],
{
    reveal_strlit("0");
    reveal_strlit("1");
    reveal_strlit("2");
    reveal_strlit("3");
    reveal_strlit("4");
    reveal_strlit("5");
    reveal_strlit("6");
    reveal_strlit("7");
    reveal_strlit("8");
    reveal_strlit("9");
    assert(digit_text(d) =~= seq![(('0' as int) + d) as char]);
}

/// The decimal notation of `n` consists of digits only, denotes `n`, and
/// has no leading zero.
pub proof fn lemma_decimal_denotes(n: nat)
    ensures
        decimal(n).len() > 0,
        forall|i: int| 0 <= i < decimal(n).len() ==> '0' <= #[trigger] decimal(n)[i] && decimal(n)[i] <= '9',
        decimal_value(decimal(n)) == n,
        decimal(n).len() > 1 ==> decimal(n)[0] != '0',
    decreases n,
{
    if n < 10 {
        lemma_digit_text(n as int);
        let c = (('0' as int) + n) as char;
        assert(c as int == '0' as int + n);
        assert(decimal(n).drop_last() =~= Seq::<char>::empty());
        assert(decimal(n).last() == c);
        assert(decimal_value(decimal(n)) == decimal_value(Seq::<char>::empty()) * 10 + (c as int - '0' as int));
    } else {
        lemma_decimal_denotes(n / 10);
        let d = (n % 10) as int;
        lemma_digit_text(d);
        let c = (('0' as int) + d) as char;
        assert(c as int == '0' as int + d);
        let hi = decimal(n / 10);
        assert(decimal(n) == hi + digit_text(d));
        assert(decimal(n).drop_last() =~= hi);
        assert(decimal(n).last() == c);
        assert(decimal_value(decimal(n)) == decimal_value(hi) * 10 + d);
        assert(n == (n / 10) * 10 + n % 10);
        assert(decimal(n)[0] == hi[0]);
        assert forall|i: int| 0 <= i < decimal(n).len() implies '0' <= #[trigger] decimal(n)[i] && decimal(n)[i]
            <= '9' by {
            if i < hi.len() {
                assert(decimal(n)[i] == hi[i]);
            } else {
                assert(decimal(n)[i] == c);
            }
        }
        if hi.len() == 1 {
            assert(hi.drop_last() =~= Seq::<char>::empty());
            assert(hi.last() == hi[0]);
            assert(decimal_value(hi) == decimal_value(hi.drop_last()) * 10 + (hi[0] as int - '0' as int));
            assert(hi[0] as int - '0' as int == n / 10);
        }
    }
}

/// Upper-casing changes exactly the letters `a` to `z`, each into its
/// capital `A` to `Z`.
pub proof fn lemma_ascii_upper(c: char)
    ensures
        'a' <= c <= 'z' ==> ascii_upper(c) as int == c as int - 32 && 'A' <= ascii_upper(c) <= 'Z',
        !('a' <= c <= 'z') ==> ascii_upper(c) == c,
{
}

fn digit_str(d: u16) -> (s: &'static str)
    requires
        d < 10,
    ensures
        s@ == digit_text(d as int),
{
    if d == 0 {
        "0"
    } else if d == 1 {
        "1"
    } else if d == 2 {
        "2"
    } else if d == 3 {
        "3"
    } else if d == 4 {
        "4"
    } else if d == 5 {
        "5"
    } else if d == 6 {
        "6"
    } else if d == 7 {
        "7"
    } else if d == 8 {
        "8"
    } else {
        "9"
    }
}

/// Renders `decimal(n)`.
pub fn decimal_string(n: u16) -> (s: String)
    ensures
        s@ == decimal(n as nat),
    decreases n,
{
    if n < 10 {
        String::from_str(digit_str(n))
    } else {
        let mut s = decimal_string(n / 10);
        s.append(digit_str(n % 10));
        s
    }
}

/// The ASCII upper case of a character: `a` to `z` become `A` to `Z`, all
/// other characters stay as they are.
pub open spec fn ascii_upper(c: char) -> char {
    if 'a' <= c && c <= 'z' {
        ((c as int) - 32) as char
    } else {
        c
    }
}

/// `str::to_ascii_uppercase`. Claims what std documents: a copy of the text
/// in which `a` to `z` become `A` to `Z` and every other character is kept.
#[verifier::external_body]
fn to_ascii_uppercase(s: &str) -> (r: String)
    ensures
        r@ == s@.map_values(|c: char| ascii_upper(c)),
{
    s.to_ascii_uppercase()
}

/// The status line that reports an executor's unexpected status: the code,
/// a space, and the status's description in upper case, such as
/// `500 INTERNAL SERVER ERROR`.
pub open spec fn status_line(code: u16) -> Seq<char> {
    decimal(code as nat) + " "@ + reason_or_internal_error(code).map_values(|c: char| ascii_upper(c))
}

/// Renders `status_line(code)`.
pub fn describe_status_line(code: u16) -> (s: String)
    ensures
        s@ == status_line(code),
{
    let mut s = decimal_string(code);
    s.append(" ");
    let reason = describe_status(code);
    let upper = to_ascii_uppercase(reason.as_str());
    s.append(upper.as_str());
    s
}

} // verus!
