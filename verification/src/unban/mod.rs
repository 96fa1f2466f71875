//! Lifting bans at every executor, one request per executor.
//!
//! The caller sends an unban request to each executor's URL and hands back
//! one `RequestOutcome` per executor, in the executors' order.

use vstd::prelude::*;

use crate::api::http_error::{distinct_fields, fields_map, merge_fields, pairs_view, ErrorDetails, ErrorResponse};
use crate::executor::RequestOutcome;
use crate::model::UnbanEntity;
use crate::status::{canonical_reason_of, describe_status, reason_or_internal_error};

verus! {

/// An executor's name and the URL that lifts its bans.
#[derive(Debug, Clone)]
pub struct Executor {
    pub name: String,
    pub url: String,
}

/// How one executor took an unban request: it lifted the ban, or it did not
/// (with a description).
#[derive(Debug, Clone)]
pub enum UnbanStatus {
    Unbanned(String),
    Error(String, String),
}

impl UnbanStatus {
    /// The executor's name, and the description where it failed.
    pub open spec fn view_status(&self) -> (Seq<char>, Option<Seq<char>>) {
        match self {
            UnbanStatus::Unbanned(name) => (name@, None),
            UnbanStatus::Error(name, desc) => (name@, Some(desc@)),
        }
    }

    /// The executor's name and what is reported for it: "OK", or the
    /// description of the failure.
    pub open spec fn report_pair(&self) -> (Seq<char>, Seq<char>) {
        match self {
            UnbanStatus::Unbanned(name) => (name@, "OK"@),
            UnbanStatus::Error(name, desc) => (name@, desc@),
        }
    }
}

/// Lifts bans.
pub trait UnBanner {
    fn unban(&self, ut: UnbanEntity) -> Result<(), Vec<UnbanStatus>>;
}

/// An unbanner that lifts nothing and always succeeds.
pub struct NoOpService {}

impl UnBanner for NoOpService {
    fn unban(&self, _ut: UnbanEntity) -> (r: Result<(), Vec<UnbanStatus>>)
        ensures
            r is Ok,
    {
        Ok(())
    }
}

/// How an executor took the request, given what came of it: a request that
/// failed is an internal error, a status other than 204 is described by its
/// reason phrase.
pub open spec fn unban_status_of(name: Seq<char>, outcome: RequestOutcome) -> (Seq<char>, Option<Seq<char>>) {
    match outcome {
        RequestOutcome::Failed(_) => (name, Some("internal error"@)),
        RequestOutcome::Responded(code) => if code != 204 {
            (name, Some(reason_or_internal_error(code)))
        } else {
            (name, None)
        },
    }
}

/// The status of each of the first `n` executors.
pub open spec fn unban_statuses_spec(
    executors: Seq<Executor>,
    outcomes: Seq<RequestOutcome>,
    n: nat,
) -> Seq<(Seq<char>, Option<Seq<char>>)> {
    Seq::new(n, |i: int| unban_status_of(executors[i].name@, outcomes[i]))
}

/// The number of executors that have an outcome.
pub open spec fn paired(executors: Seq<Executor>, outcomes: Seq<RequestOutcome>) -> nat {
    if executors.len() <= outcomes.len() {
        executors.len()
    } else {
        outcomes.len()
    }
}

/// An unban request succeeds at the paired executors exactly when each of
/// them answered with 204.
pub proof fn lemma_unban_succeeds_iff_no_content(executors: Seq<Executor>, outcomes: Seq<RequestOutcome>)
    ensures
        (forall|i: int|
            0 <= i < paired(executors, outcomes) ==> (#[trigger] unban_statuses_spec(
                executors,
                outcomes,
                paired(executors, outcomes),
            )[i]).1 is None) <==> (forall|i: int|
            0 <= i < paired(executors, outcomes) ==> #[trigger] outcomes[i] == RequestOutcome::Responded(
                204,
            )),
{
    let n = paired(executors, outcomes);
    let st = unban_statuses_spec(executors, outcomes, n);
    if forall|i: int| 0 <= i < n ==> (#[trigger] st[i]).1 is None {
        assert forall|i: int| 0 <= i < n implies #[trigger] outcomes[i] == RequestOutcome::Responded(204) by {
            assert(st[i].1 is None);
        }
    }
}

/// The statuses of an unban request have one entry per paired executor, in
/// order: its name, with no failure for a 204 answer, "internal error" for a
/// request that failed, and the reason phrase (or "internal error") for any
/// other status.
pub proof fn lemma_unban_statuses_each(executors: Seq<Executor>, outcomes: Seq<RequestOutcome>)
    ensures
        unban_statuses_spec(executors, outcomes, paired(executors, outcomes)).len() == paired(executors, outcomes),
        forall|i: int|
            0 <= i < paired(executors, outcomes) ==> (#[trigger] unban_statuses_spec(
                executors,
                outcomes,
                paired(executors, outcomes),
            )[i]).0 == executors[i].name@,
        forall|i: int|
            0 <= i < paired(executors, outcomes) ==> ((#[trigger] unban_statuses_spec(
                executors,
                outcomes,
                paired(executors, outcomes),
            )[i]).1 is None <==> outcomes[i] == RequestOutcome::Responded(204)),
        forall|i: int|
            0 <= i < paired(executors, outcomes) ==> (outcomes[i] is Failed ==> (#[trigger] unban_statuses_spec(
                executors,
                outcomes,
                paired(executors, outcomes),
            )[i]).1 == Some("internal error"@)),
        forall|i: int|
            0 <= i < paired(executors, outcomes) ==> (outcomes[i] matches RequestOutcome::Responded(c) ==> (c != 204
                ==> (#[trigger] unban_statuses_spec(executors, outcomes, paired(executors, outcomes))[i]).1 == Some(
                match canonical_reason_of(c) {
                    Some(phrase) => phrase,
                    None => "internal error"@,
                },
            ))),
{
}

/// Judges the executors' answers to an unban request: `Ok` when every paired
/// executor lifted the ban, and otherwise the status of every paired
/// executor, in order.
pub fn unban_statuses(executors: &Vec<Executor>, outcomes: &Vec<RequestOutcome>) -> (r: Result<
    (),
    Vec<UnbanStatus>,
>)
    ensures
        ({
            let st = unban_statuses_spec(executors@, outcomes@, paired(executors@, outcomes@));
            match r {
                Ok(()) => forall|i: int| 0 <= i < st.len() ==> (#[trigger] st[i]).1 is None,
                Err(ss) => ss@.map_values(|s: UnbanStatus| s.view_status()) == st && exists|i: int|
                    0 <= i < st.len() && (#[trigger] st[i]).1 is Some,
            }
        }),
{
    let n: usize = if executors.len() <= outcomes.len() {
        executors.len()
    } else {
        outcomes.len()
    };
    let ghost st = unban_statuses_spec(executors@, outcomes@, n as nat);
    let mut ubs: Vec<UnbanStatus> = Vec::new();
    let mut failed = false;
    let mut i: usize = 0;
    while i < n
        invariant
            i <= n,
            n == paired(executors@, outcomes@),
            st == unban_statuses_spec(executors@, outcomes@, n as nat),
            ubs@.map_values(|s: UnbanStatus| s.view_status()) == st.take(i as int),
            failed <==> exists|k: int| 0 <= k < i && (#[trigger] st[k]).1 is Some,
        decreases n - i,
    {
        let name = executors[i].name.clone();
        let status = match &outcomes[i] {
            RequestOutcome::Failed(_) => UnbanStatus::Error(name, String::from_str("internal error")),
            RequestOutcome::Responded(code) => {
                if *code != 204 {
                    UnbanStatus::Error(name, describe_status(*code))
                } else {
                    UnbanStatus::Unbanned(name)
                }
            },
        };
        proof {
            assert(status.view_status() == st[i as int]);
        }
        if let UnbanStatus::Error(_, _) = &status {
            failed = true;
        }
        let ghost before = ubs@;
        ubs.push(status);
        proof {
            assert(ubs@.map_values(|s: UnbanStatus| s.view_status()) =~= before.map_values(
                |s: UnbanStatus| s.view_status(),
            ).push(st[i as int]));
            assert(st.take(i + 1) =~= st.take(i as int).push(st[i as int]));
        }
        i = i + 1;
    }
    proof {
        assert(st.take(n as int) =~= st);
    }
    if failed {
        return Err(ubs);
    }
    Ok(())
}

impl ErrorResponse {
    /// The body reported when some executors did not lift a ban: code 500,
    /// and each executor with "OK" or the description of its failure (the
    /// last one, for a name that occurs twice).
    pub fn from_unban_statuses(uss: Vec<UnbanStatus>) -> (r: ErrorResponse)
        ensures
            r.code == 500,
            r.reason@ == "Some executors didn't unban successfully"@,
            r.details matches Some(ErrorDetails::Fields(fs)) && distinct_fields(pairs_view(fs@))
                && fields_map(pairs_view(fs@)) == fields_map(
                uss@.map_values(|s: UnbanStatus| s.report_pair()),
            ),
    {
        let ghost rv = uss@.map_values(|s: UnbanStatus| s.report_pair());
        let mut pairs: Vec<(String, String)> = Vec::new();
        let mut i: usize = 0;
        while i < uss.len()
            invariant
                i <= uss@.len(),
                rv == uss@.map_values(|s: UnbanStatus| s.report_pair()),
                pairs_view(pairs@) == rv.take(i as int),
            decreases uss@.len() - i,
        {
            let pair = match &uss[i] {
                UnbanStatus::Unbanned(s) => (s.clone(), String::from_str("OK")),
                UnbanStatus::Error(s, c) => (s.clone(), c.clone()),
            };
            proof {
                assert((pair.0@, pair.1@) == rv[i as int]);
            }
            let ghost before = pairs@;
            pairs.push(pair);
            proof {
                assert(pairs_view(pairs@) =~= pairs_view(before).push(rv[i as int]));
                assert(rv.take(i + 1) =~= rv.take(i as int).push(rv[i as int]));
            }
            i = i + 1;
        }
        proof {
            assert(rv.take(uss@.len() as int) =~= rv);
        }
        ErrorResponse {
            code: 500,
            reason: String::from_str("Some executors didn't unban successfully"),
            details: Some(ErrorDetails::Fields(merge_fields(&pairs))),
        }
    }
}

} // verus!
