//! Error responses of the HTTP interface.

use vstd::prelude::*;

use crate::error::{BanTargetConversionError, ExecutorError};
use crate::status::is_valid_status;

verus! {

/// Details attached to an error response: a message, or a description per
/// field (such as per executor).
#[derive(Debug, Clone)]
pub enum ErrorDetails {
    Message(String),
    Fields(Vec<(String, String)>),
}

/// `ErrorDetails` as plain text.
pub enum ErrorDetailsView {
    Message(Seq<char>),
    Fields(Seq<(Seq<char>, Seq<char>)>),
}

/// A sequence of pairs of strings, as pairs of plain text.
pub open spec fn pairs_view(ps: Seq<(String, String)>) -> Seq<(Seq<char>, Seq<char>)> {
    ps.map_values(|p: (String, String)| (p.0@, p.1@))
}

impl View for ErrorDetails {
    type V = ErrorDetailsView;

    open spec fn view(&self) -> ErrorDetailsView {
        match self {
            ErrorDetails::Message(m) => ErrorDetailsView::Message(m@),
            ErrorDetails::Fields(fs) => ErrorDetailsView::Fields(pairs_view(fs@)),
        }
    }
}

/// The body of an error response.
#[derive(Debug, Clone)]
pub struct ErrorResponse {
    pub code: u16,
    pub reason: String,
    pub details: Option<ErrorDetails>,
}

/// `ErrorResponse` as plain values.
pub struct ErrorResponseView {
    pub code: u16,
    pub reason: Seq<char>,
    pub details: Option<ErrorDetailsView>,
}

impl View for ErrorResponse {
    type V = ErrorResponseView;

    open spec fn view(&self) -> ErrorResponseView {
        ErrorResponseView {
            code: self.code,
            reason: self.reason@,
            details: match self.details {
                Some(d) => Some(d@),
                None => None,
            },
        }
    }
}

/// The map that a sequence of (field, description) pairs describes: each
/// field with the description of its last pair.
pub open spec fn fields_map(ps: Seq<(Seq<char>, Seq<char>)>) -> Map<Seq<char>, Seq<char>>
    decreases ps.len(),
{
    if ps.len() == 0 {
        Map::empty()
    } else {
        fields_map(ps.drop_last()).insert(ps.last().0, ps.last().1)
    }
}

/// No field occurs in two pairs.
pub open spec fn distinct_fields(ps: Seq<(Seq<char>, Seq<char>)>) -> bool {
    forall|i: int, j: int| 0 <= i < j < ps.len() ==> ps[i].0 != ps[j].0
}

/// Replacing the description of a field that occurs once is inserting it
/// into the map.
proof fn lemma_fields_map_update(ps: Seq<(Seq<char>, Seq<char>)>, j: int, desc: Seq<char>)
    requires
        distinct_fields(ps),
        0 <= j < ps.len(),
    ensures
        fields_map(ps.update(j, (ps[j].0, desc))) == fields_map(ps).insert(ps[j].0, desc),
    decreases ps.len(),
{
    let qs = ps.update(j, (ps[j].0, desc));
    if j == ps.len() - 1 {
        assert(qs.drop_last() =~= ps.drop_last());
        assert(fields_map(qs) =~= fields_map(ps).insert(ps[j].0, desc));
    } else {
        assert(qs.drop_last() =~= ps.drop_last().update(j, (ps[j].0, desc)));
        lemma_fields_map_update(ps.drop_last(), j, desc);
        assert(ps.last().0 != ps[j].0);
        assert(fields_map(qs) =~= fields_map(ps).insert(ps[j].0, desc));
    }
}

/// Every field of a report appears in its map; where no field occurs
/// twice, each with its own description.
pub proof fn lemma_fields_map_reports_each(ps: Seq<(Seq<char>, Seq<char>)>)
    ensures
        forall|i: int| 0 <= i < ps.len() ==> fields_map(ps).contains_key(#[trigger] ps[i].0),
        distinct_fields(ps) ==> forall|i: int|
            0 <= i < ps.len() ==> fields_map(ps)[#[trigger] ps[i].0] == ps[i].1,
        forall|k: Seq<char>| #[trigger] fields_map(ps).contains_key(k) ==> exists|i: int|
            0 <= i < ps.len() && ps[i].0 == k,
    decreases ps.len(),
{
    if ps.len() > 0 {
        let rest = ps.drop_last();
        lemma_fields_map_reports_each(rest);
        assert forall|i: int| 0 <= i < ps.len() implies fields_map(ps).contains_key(#[trigger] ps[i].0) by {
            if i < ps.len() - 1 {
                assert(rest[i] == ps[i]);
            }
        }
        if distinct_fields(ps) {
            assert(distinct_fields(rest));
            assert forall|i: int| 0 <= i < ps.len() implies fields_map(ps)[#[trigger] ps[i].0] == ps[i].1 by {
                if i < ps.len() - 1 {
                    assert(rest[i] == ps[i]);
                    assert(ps[i].0 != ps.last().0);
                }
            }
        }
        assert forall|k: Seq<char>| #[trigger] fields_map(ps).contains_key(k) implies exists|i: int|
            0 <= i < ps.len() && ps[i].0 == k by {
            if k != ps.last().0 {
                assert(fields_map(rest).contains_key(k));
                let j = choose|j: int| 0 <= j < rest.len() && rest[j].0 == k;
                assert(ps[j] == rest[j]);
            } else {
                assert(ps[ps.len() - 1].0 == k);
            }
        }
    }
}

/// The position of the pair for `name`, if there is one.
fn find_field(fields: &Vec<(String, String)>, name: &String) -> (r: Option<usize>)
    ensures
        match r {
            Some(j) => j < fields@.len() && fields@[j as int].0@ == name@,
            None => forall|m: int| 0 <= m < fields@.len() ==> fields@[m].0@ != name@,
        },
{
    let mut j: usize = 0;
    while j < fields.len()
        invariant
            j <= fields@.len(),
            forall|m: int| 0 <= m < j ==> fields@[m].0@ != name@,
        decreases fields@.len() - j,
    {
        if fields[j].0 == *name {
            return Some(j);
        }
        j = j + 1;
    }
    None
}

/// Gathers (field, description) pairs into one pair per field, each with the
/// description of the field's last pair, as inserting the pairs into a map
/// in turn does.
pub fn merge_fields(pairs: &Vec<(String, String)>) -> (r: Vec<(String, String)>)
    ensures
        distinct_fields(pairs_view(r@)),
        fields_map(pairs_view(r@)) == fields_map(pairs_view(pairs@)),
{
    let mut out: Vec<(String, String)> = Vec::new();
    let mut i: usize = 0;
    while i < pairs.len()
        invariant
            i <= pairs@.len(),
            distinct_fields(pairs_view(out@)),
            fields_map(pairs_view(out@)) == fields_map(pairs_view(pairs@).take(i as int)),
        decreases pairs@.len() - i,
    {
        let name = pairs[i].0.clone();
        let desc = pairs[i].1.clone();
        let ghost before = pairs_view(out@);
        proof {
            assert(pairs_view(pairs@).take(i + 1).drop_last() =~= pairs_view(pairs@).take(i as int));
            assert(pairs_view(pairs@).take(i + 1).last() == (name@, desc@));
        }
        match find_field(&out, &name) {
            Some(j) => {
                out.set(j, (name, desc));
                proof {
                    assert(pairs_view(out@) =~= before.update(j as int, (before[j as int].0, desc@)));
                    lemma_fields_map_update(before, j as int, desc@);
                    assert forall|a: int, b: int| 0 <= a < b < pairs_view(out@).len() implies
                        pairs_view(out@)[a].0 != pairs_view(out@)[b].0 by {
                        assert(pairs_view(out@)[a].0 == before[a].0);
                        assert(pairs_view(out@)[b].0 == before[b].0);
                    }
                }
            },
            None => {
                out.push((name, desc));
                proof {
                    assert(pairs_view(out@).drop_last() =~= before);
                    assert forall|a: int, b: int| 0 <= a < b < pairs_view(out@).len() implies
                        pairs_view(out@)[a].0 != pairs_view(out@)[b].0 by {
                        if b == before.len() {
                            assert(pairs_view(out@)[a].0 == out@[a].0@);
                        } else {
                            assert(pairs_view(out@)[a].0 == before[a].0);
                            assert(pairs_view(out@)[b].0 == before[b].0);
                        }
                    }
                }
            },
        }
        i = i + 1;
    }
    proof {
        assert(pairs_view(pairs@).take(pairs@.len() as int) =~= pairs_view(pairs@));
    }
    out
}

impl ErrorResponse {
    /// The HTTP status of the response: its code where that is a valid
    /// status code, and 500 otherwise.
    pub open spec fn spec_status_code(&self) -> u16 {
        if 100 <= self.code <= 999 {
            self.code
        } else {
            500
        }
    }

    /// A response is sent with its own code when that is a valid HTTP status
    /// (100 to 999), and with 500 otherwise.
    pub proof fn lemma_status_code(&self)
        ensures
            100 <= self.code <= 999 ==> self.spec_status_code() == self.code,
            !(100 <= self.code <= 999) ==> self.spec_status_code() == 500,
    {
    }

    /// The HTTP status of the response.
    pub fn status_code(&self) -> (s: u16)
        ensures
            s == self.spec_status_code(),
    {
        if is_valid_status(self.code) {
            self.code
        } else {
            500
        }
    }

    /// The body reported when some executors did not carry out a request:
    /// code 500, `reason`, and each failing executor with its description
    /// (the last one, for a name that occurs twice).
    fn from_executor_errors(errors: Vec<ExecutorError>, reason: &str) -> (r: ErrorResponse)
        ensures
            r.code == 500,
            r.reason@ == reason@,
            r.details matches Some(ErrorDetails::Fields(fs)) && distinct_fields(pairs_view(fs@))
                && fields_map(pairs_view(fs@)) == fields_map(
                errors@.map_values(|e: ExecutorError| e.view_pair()),
            ),
    {
        let ghost ev = errors@.map_values(|e: ExecutorError| e.view_pair());
        let mut pairs: Vec<(String, String)> = Vec::new();
        let mut i: usize = 0;
        while i < errors.len()
            invariant
                i <= errors@.len(),
                ev == errors@.map_values(|e: ExecutorError| e.view_pair()),
                pairs_view(pairs@) == ev.take(i as int),
            decreases errors@.len() - i,
        {
            let name = errors[i].executor_name.clone();
            let desc = errors[i].error_desc.clone();
            proof {
                assert(ev[i as int] == (name@, desc@));
            }
            let ghost before = pairs@;
            pairs.push((name, desc));
            proof {
                assert(pairs_view(pairs@) =~= pairs_view(before).push(ev[i as int]));
                assert(ev.take(i + 1) =~= ev.take(i as int).push(ev[i as int]));
            }
            i = i + 1;
        }
        proof {
            assert(ev.take(errors@.len() as int) =~= ev);
        }
        ErrorResponse {
            code: 500,
            reason: String::from_str(reason),
            details: Some(ErrorDetails::Fields(merge_fields(&pairs))),
        }
    }

    /// The body reported when some executors did not lift a ban: code 500,
    /// and each failing executor with its description.
    pub fn from_unban_errors(errors: Vec<ExecutorError>) -> (r: ErrorResponse)
        ensures
            r.code == 500,
            r.reason@ == "Some executors didn't response with success"@,
            r.details matches Some(ErrorDetails::Fields(fs)) && distinct_fields(pairs_view(fs@))
                && fields_map(pairs_view(fs@)) == fields_map(
                errors@.map_values(|e: ExecutorError| e.view_pair()),
            ),
    {
        Self::from_executor_errors(errors, "Some executors didn't response with success")
    }

    /// The body reported when some executors did not switch their dry-run
    /// mode: code 500, and each executor of the report with how it is
    /// reported (the last one, for a name that occurs twice).
    pub fn from_dry_run_report(report: Vec<(String, String)>) -> (r: ErrorResponse)
        ensures
            r.code == 500,
            r.reason@ == "Some executors didn't set dry run successfully"@,
            r.details matches Some(ErrorDetails::Fields(fs)) && distinct_fields(pairs_view(fs@))
                && fields_map(pairs_view(fs@)) == fields_map(pairs_view(report@)),
    {
        ErrorResponse {
            code: 500,
            reason: String::from_str("Some executors didn't set dry run successfully"),
            details: Some(ErrorDetails::Fields(merge_fields(&report))),
        }
    }
}

/// The body reported for a request that lacks the required field `field`:
/// code 400, with the field described as required.
pub open spec fn field_required_view(field: Seq<char>) -> ErrorResponseView {
    ErrorResponseView {
        code: 400,
        reason: "Provided request does not match the constraints"@,
        details: Some(ErrorDetailsView::Fields(seq![(field, "This field is required"@)])),
    }
}

/// The body reported for a request that does not describe a usable target:
/// a missing target is reported as a missing `target` field, every other
/// error with its message.
pub open spec fn conversion_error_response(e: BanTargetConversionError) -> ErrorResponseView {
    match e {
        BanTargetConversionError::TargetRequired => field_required_view("target"@),
        _ => ErrorResponseView {
            code: 400,
            reason: "Provided request does not match the constraints"@,
            details: Some(ErrorDetailsView::Message(e.message())),
        },
    }
}

/// The text that opens a parser's report of a missing field; the field's
/// name follows, closed by a backquote.
pub open spec fn missing_field_prefix() -> Seq<char> {
    "missing field `"@
}

/// The name of the missing field that a parser's error message reports,
/// such as `target` in "missing field `target` at line 1 column 2": the text
/// between the opening "missing field `" and the next backquote.
pub fn missing_field_name(message: &str) -> (r: Option<String>)
    ensures
        ({
            let p = missing_field_prefix();
            let m = message@;
            match r {
                Some(name) => m.len() > p.len() + name@.len() && m.take(p.len() as int) == p
                    && m.subrange(p.len() as int, (p.len() + name@.len()) as int) == name@ && m[(p.len()
                    + name@.len()) as int] == '`' && forall|k: int| 0 <= k < name@.len() ==> name@[k] != '`',
                None => !(m.len() >= p.len() && m.take(p.len() as int) == p) || forall|j: int|
                    p.len() <= j < m.len() ==> m[j] != '`',
            }
        }),
{
    let prefix = "missing field `";
    proof {
        reveal_strlit("missing field `");
    }
    let plen = prefix.unicode_len();
    let mlen = message.unicode_len();
    if mlen < plen {
        proof {
            assert(prefix@ == missing_field_prefix());
        }
        return None;
    }
    let mut i: usize = 0;
    while i < plen
        invariant
            prefix@ == missing_field_prefix(),
            plen == prefix@.len(),
            mlen == message@.len(),
            plen <= mlen,
            i <= plen,
            forall|k: int| 0 <= k < i ==> message@[k] == prefix@[k],
        decreases plen - i,
    {
        if message.get_char(i) != prefix.get_char(i) {
            proof {
                assert(message@.take(plen as int)[i as int] != prefix@[i as int]);
                assert(message@.take(plen as int) != prefix@);
                assert(prefix@ == missing_field_prefix());
            }
            return None;
        }
        i = i + 1;
    }
    proof {
        assert(message@.take(plen as int) =~= prefix@);
    }
    let mut j: usize = plen;
    while j < mlen
        invariant
            prefix@ == missing_field_prefix(),
            plen == prefix@.len(),
            mlen == message@.len(),
            plen <= j <= mlen,
            message@.take(plen as int) == prefix@,
            forall|k: int| plen <= k < j ==> message@[k] != '`',
        decreases mlen - j,
    {
        if message.get_char(j) == '`' {
            let name = message.substring_char(plen, j);
            let name = String::from_str(name);
            proof {
                assert(prefix@ == missing_field_prefix());
                assert(name@ == message@.subrange(plen as int, j as int));
                assert(name@.len() == j - plen);
                assert(message@[j as int] == '`');
                assert forall|k: int| 0 <= k < name@.len() implies name@[k] != '`' by {
                    assert(name@[k] == message@[plen + k]);
                }
            }
            return Some(name);
        }
        j = j + 1;
    }
    proof {
        assert(prefix@ == missing_field_prefix());
    }
    None
}

/// Every request refused for its target is answered with code 400 and the
/// reason "Provided request does not match the constraints"; a missing
/// target names the `target` field as required, the other errors carry
/// their message.
pub proof fn lemma_conversion_error_bodies(e: BanTargetConversionError)
    ensures
        conversion_error_response(e).code == 400,
        conversion_error_response(e).reason == "Provided request does not match the constraints"@,
        e == BanTargetConversionError::TargetRequired ==> conversion_error_response(e).details == Some(
            ErrorDetailsView::Fields(seq![("target"@, "This field is required"@)]),
        ),
        e == BanTargetConversionError::EmptyRequest ==> conversion_error_response(e).details == Some(
            ErrorDetailsView::Message("at least on field required: 'ip', 'user_agent'"@),
        ),
        e == BanTargetConversionError::PatternUnsupported ==> conversion_error_response(e).details == Some(
            ErrorDetailsView::Message("\"*\" is only allowed pattern"@),
        ),
{
}

/// The body for a request that lacks the required field `field`.
pub fn field_required_response(field: String) -> (r: ErrorResponse)
    ensures
        r@ == field_required_view(field@),
{
    let fields = vec![(field, String::from_str("This field is required"))];
    proof {
        assert(pairs_view(fields@) =~= seq![(field@, "This field is required"@)]);
    }
    ErrorResponse {
        code: 400,
        reason: String::from_str("Provided request does not match the constraints"),
        details: Some(ErrorDetails::Fields(fields)),
    }
}

impl BanTargetConversionError {
    /// The error response for this error (see `conversion_error_response`).
    pub fn to_error_response(self) -> (r: ErrorResponse)
        ensures
            r@ == conversion_error_response(self),
    {
        match self {
            BanTargetConversionError::TargetRequired => field_required_response(String::from_str("target")),
            _ => ErrorResponse {
                code: 400,
                reason: String::from_str("Provided request does not match the constraints"),
                details: Some(ErrorDetails::Message(self.to_string())),
            },
        }
    }
}

} // verus!
