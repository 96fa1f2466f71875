//! Forwarding a request to every executor, and judging their answers.
//!
//! The caller sends the requests (to `request_urls`) and hands back one
//! `RequestOutcome` per executor, in the executors' order.

use vstd::prelude::*;

use crate::error::ExecutorError;
use crate::executor::config::ExecutorConfig;
use crate::executor::{HttpMethod, RequestOutcome};
use crate::api::http_error::pairs_view;
use crate::status::{
    ascii_upper, canonical_reason_of, decimal, describe_status, describe_status_line,
    reason_or_internal_error, status_line,
};

verus! {

/// A request to be sent to every executor: its method, its path below the
/// executor's base URL, and the status that means success.
#[derive(Debug, Clone)]
pub struct ExecutorCall {
    pub method: HttpMethod,
    pub path: String,
    pub expected_status: u16,
}

/// Why an outcome counts as a failure, if it does: the error's text for a
/// request that failed, the status's description for an unexpected status.
pub open spec fn outcome_error(outcome: RequestOutcome, expected_status: u16) -> Option<Seq<char>> {
    match outcome {
        RequestOutcome::Failed(e) => Some(e@),
        RequestOutcome::Responded(code) => if code == expected_status {
            None
        } else {
            Some(reason_or_internal_error(code))
        },
    }
}

/// The failures among the first `n` executors, in order, each as the
/// executor's name and the description.
pub open spec fn executor_errors(
    executors: Seq<ExecutorConfig>,
    outcomes: Seq<RequestOutcome>,
    expected_status: u16,
    n: nat,
) -> Seq<(Seq<char>, Seq<char>)>
    decreases n,
{
    if n == 0 {
        Seq::empty()
    } else {
        let before = executor_errors(executors, outcomes, expected_status, (n - 1) as nat);
        match outcome_error(outcomes[n - 1], expected_status) {
            Some(d) => before.push((executors[n - 1].name@, d)),
            None => before,
        }
    }
}

/// The number of executors that have an outcome: outcomes are paired with
/// executors in order, and unpaired ones on either side are ignored.
pub open spec fn paired_len(a: nat, b: nat) -> nat {
    if a <= b {
        a
    } else {
        b
    }
}

/// A request succeeds at the first `n` executors, with no failure
/// reported, exactly when each of them answered with the expected status.
pub proof fn lemma_no_errors_iff_all_expected(
    executors: Seq<ExecutorConfig>,
    outcomes: Seq<RequestOutcome>,
    expected_status: u16,
    n: nat,
)
    requires
        n <= executors.len(),
        n <= outcomes.len(),
    ensures
        executor_errors(executors, outcomes, expected_status, n).len() == 0 <==> forall|i: int|
            0 <= i < n ==> #[trigger] outcomes[i] == RequestOutcome::Responded(expected_status),
    decreases n,
{
    if n > 0 {
        lemma_no_errors_iff_all_expected(executors, outcomes, expected_status, (n - 1) as nat);
        let prev = executor_errors(executors, outcomes, expected_status, (n - 1) as nat);
        if executor_errors(executors, outcomes, expected_status, n).len() == 0 {
            assert(outcome_error(outcomes[n - 1], expected_status) is None);
            assert forall|i: int| 0 <= i < n implies #[trigger] outcomes[i] == RequestOutcome::Responded(
                expected_status,
            ) by {
                if i < n - 1 {
                    assert(prev.len() == 0);
                }
            }
        }
    }
}

/// How one executor is reported after a dry-run mode switch: "OK" when it
/// answered with the expected status, the status line of an unexpected
/// status, or the error's text for a request that failed.
pub open spec fn dry_run_status(outcome: RequestOutcome, expected_status: u16) -> Seq<char> {
    match outcome {
        RequestOutcome::Failed(e) => e@,
        RequestOutcome::Responded(code) => if code == expected_status {
            "OK"@
        } else {
            status_line(code)
        },
    }
}

/// The report of a dry-run mode switch for the first `n` executors: each
/// executor's name with how it is reported, in order.
pub open spec fn dry_run_report_spec(
    executors: Seq<ExecutorConfig>,
    outcomes: Seq<RequestOutcome>,
    expected_status: u16,
    n: nat,
) -> Seq<(Seq<char>, Seq<char>)> {
    Seq::new(n, |i: int| (executors[i].name@, dry_run_status(outcomes[i], expected_status)))
}

/// The failures reported for the first `n` executors are exactly the
/// executors that did not answer with the expected status, one entry each,
/// in the executors' order: the returned positions `idx` say which executor
/// each entry reports. A failed request is described by its error's text,
/// an unexpected status by its reason phrase (or "internal error").
pub proof fn lemma_errors_report_each_failure(
    executors: Seq<ExecutorConfig>,
    outcomes: Seq<RequestOutcome>,
    expected_status: u16,
    n: nat,
) -> (idx: Seq<int>)
    requires
        n <= executors.len(),
        n <= outcomes.len(),
    ensures
        idx.len() == executor_errors(executors, outcomes, expected_status, n).len(),
        forall|j: int|
            0 <= j < idx.len() ==> 0 <= #[trigger] idx[j] < n && outcomes[idx[j]] != RequestOutcome::Responded(
                expected_status,
            ) && executor_errors(executors, outcomes, expected_status, n)[j].0 == executors[idx[j]].name@,
        forall|j: int|
            0 <= j < idx.len() ==> (outcomes[#[trigger] idx[j]] matches RequestOutcome::Failed(e) ==> executor_errors(
                executors,
                outcomes,
                expected_status,
                n,
            )[j].1 == e@),
        forall|j: int|
            0 <= j < idx.len() ==> (outcomes[#[trigger] idx[j]] matches RequestOutcome::Responded(c) ==> executor_errors(
                executors,
                outcomes,
                expected_status,
                n,
            )[j].1 == match canonical_reason_of(c) {
                Some(phrase) => phrase,
                None => "internal error"@,
            }),
        forall|j1: int, j2: int| 0 <= j1 < j2 < idx.len() ==> idx[j1] < idx[j2],
        forall|i: int|
            0 <= i < n && #[trigger] outcomes[i] != RequestOutcome::Responded(expected_status) ==> idx.contains(i),
    decreases n,
{
    if n == 0 {
        Seq::empty()
    } else {
        let prev = lemma_errors_report_each_failure(executors, outcomes, expected_status, (n - 1) as nat);
        let last = n - 1;
        let failing = outcomes[last] != RequestOutcome::Responded(expected_status);
        assert(failing <==> outcome_error(outcomes[last], expected_status) is Some);
        if failing {
            let idx = prev.push(last);
            assert forall|i: int|
                0 <= i < n && #[trigger] outcomes[i] != RequestOutcome::Responded(expected_status) implies idx.contains(
                i,
            ) by {
                if i < last {
                    let j = choose|j: int| 0 <= j < prev.len() && prev[j] == i;
                    assert(idx[j] == i);
                } else {
                    assert(idx[idx.len() - 1] == i);
                }
            }
            idx
        } else {
            assert forall|i: int|
                0 <= i < n && #[trigger] outcomes[i] != RequestOutcome::Responded(expected_status) implies prev.contains(
                i,
            ) by {
                assert(i < last);
            }
            prev
        }
    }
}

/// The report of a dry-run mode switch has one entry per paired executor,
/// in order: its name, with "OK" for the expected status, the status line
/// for any other status, and the error's text for a failed request.
pub proof fn lemma_dry_run_report_covers_every_executor(
    executors: Seq<ExecutorConfig>,
    outcomes: Seq<RequestOutcome>,
    expected_status: u16,
    n: nat,
)
    requires
        n <= executors.len(),
        n <= outcomes.len(),
    ensures
        dry_run_report_spec(executors, outcomes, expected_status, n).len() == n,
        forall|i: int|
            0 <= i < n ==> (#[trigger] dry_run_report_spec(executors, outcomes, expected_status, n)[i]).0
                == executors[i].name@,
        forall|i: int|
            0 <= i < n ==> (outcomes[i] == RequestOutcome::Responded(expected_status) ==> (
            #[trigger] dry_run_report_spec(executors, outcomes, expected_status, n)[i]).1 == "OK"@),
        forall|i: int|
            0 <= i < n ==> (outcomes[i] matches RequestOutcome::Failed(e) ==> (
            #[trigger] dry_run_report_spec(executors, outcomes, expected_status, n)[i]).1 == e@),
        forall|i: int|
            0 <= i < n ==> (outcomes[i] matches RequestOutcome::Responded(c) ==> (c != expected_status ==> (
            #[trigger] dry_run_report_spec(executors, outcomes, expected_status, n)[i]).1 == decimal(c as nat) + " "@
                + (match canonical_reason_of(c) {
                Some(phrase) => phrase,
                None => "internal error"@,
            }).map_values(|ch: char| ascii_upper(ch)))),
{
}

/// The executors that requests are forwarded to.
pub struct Pool {
    executors: Vec<ExecutorConfig>,
}

impl Pool {
    /// The executors, in order.
    pub closed spec fn executors(&self) -> Seq<ExecutorConfig> {
        self.executors@
    }

    /// A pool of the configured executors.
    pub fn new(cfg: Vec<ExecutorConfig>) -> (p: Pool)
        ensures
            p.executors() == cfg@,
    {
        Pool { executors: cfg }
    }

    /// The request that switches the executors' dry-run mode (its body
    /// carries the new mode): `POST /config`, answered with 204.
    pub fn dry_run_mode_call() -> (c: ExecutorCall)
        ensures
            c.method == HttpMethod::Post,
            c.path@ == "/config"@,
            c.expected_status == 204,
    {
        ExecutorCall { method: HttpMethod::Post, path: String::from_str("/config"), expected_status: 204 }
    }

    /// The request that lifts bans (its body carries the unban request):
    /// `DELETE /bans`, answered with 204.
    pub fn unban_call() -> (c: ExecutorCall)
        ensures
            c.method == HttpMethod::Delete,
            c.path@ == "/bans"@,
            c.expected_status == 204,
    {
        ExecutorCall { method: HttpMethod::Delete, path: String::from_str("/bans"), expected_status: 204 }
    }

    /// The URL of `path` at each executor: its base URL followed by `path`.
    pub fn request_urls(&self, path: &str) -> (urls: Vec<String>)
        ensures
            urls@.len() == self.executors().len(),
            forall|i: int|
                0 <= i < urls@.len() ==> #[trigger] urls@[i]@ == self.executors()[i].base_url@ + path@,
    {
        let mut urls: Vec<String> = Vec::new();
        let mut i: usize = 0;
        while i < self.executors.len()
            invariant
                i <= self.executors@.len(),
                urls@.len() == i,
                forall|k: int| 0 <= k < i ==> #[trigger] urls@[k]@ == self.executors@[k].base_url@ + path@,
            decreases self.executors@.len() - i,
        {
            let mut url = String::from_str(self.executors[i].base_url.as_str());
            url.append(path);
            urls.push(url);
            i = i + 1;
        }
        urls
    }

    /// Judges the executors' answers to a dry-run mode switch: `Ok` when
    /// every paired executor answered with the expected status, and
    /// otherwise a report on every paired executor, in order.
    pub fn dry_run_report(&self, outcomes: &Vec<RequestOutcome>, expected_status: u16) -> (r: Result<
        (),
        Vec<(String, String)>,
    >)
        ensures
            ({
                let n = paired_len(self.executors().len(), outcomes@.len());
                match r {
                    Ok(()) => forall|i: int|
                        0 <= i < n ==> #[trigger] outcomes@[i] == RequestOutcome::Responded(expected_status),
                    Err(ps) => pairs_view(ps@) == dry_run_report_spec(
                        self.executors(),
                        outcomes@,
                        expected_status,
                        n,
                    ) && exists|i: int|
                        0 <= i < n && #[trigger] outcomes@[i] != RequestOutcome::Responded(expected_status),
                }
            }),
    {
        let n: usize = if self.executors.len() <= outcomes.len() {
            self.executors.len()
        } else {
            outcomes.len()
        };
        let ghost rep = dry_run_report_spec(self.executors@, outcomes@, expected_status, n as nat);
        let mut report: Vec<(String, String)> = Vec::new();
        let mut failed = false;
        let mut i: usize = 0;
        while i < n
            invariant
                i <= n,
                n <= self.executors@.len(),
                n <= outcomes@.len(),
                rep == dry_run_report_spec(self.executors@, outcomes@, expected_status, n as nat),
                pairs_view(report@) == rep.take(i as int),
                failed <==> exists|k: int|
                    0 <= k < i && #[trigger] outcomes@[k] != RequestOutcome::Responded(expected_status),
            decreases n - i,
        {
            let name = self.executors[i].name.clone();
            let status = match &outcomes[i] {
                RequestOutcome::Failed(e) => {
                    failed = true;
                    e.clone()
                },
                RequestOutcome::Responded(code) => {
                    if *code == expected_status {
                        String::from_str("OK")
                    } else {
                        failed = true;
                        describe_status_line(*code)
                    }
                },
            };
            proof {
                assert((name@, status@) == rep[i as int]);
                if outcomes@[i as int] != RequestOutcome::Responded(expected_status) {
                    assert(failed);
                }
            }
            let ghost before = report@;
            report.push((name, status));
            proof {
                assert(pairs_view(report@) =~= pairs_view(before).push(rep[i as int]));
                assert(rep.take(i + 1) =~= rep.take(i as int).push(rep[i as int]));
            }
            i = i + 1;
        }
        proof {
            assert(rep.take(n as int) =~= rep);
        }
        if failed {
            Err(report)
        } else {
            Ok(())
        }
    }

    /// Judges the executors' answers to one request: `Ok` when every paired
    /// executor answered with the expected status, and otherwise each
    /// failing executor with why, in order.
    pub fn collect_errors(&self, outcomes: &Vec<RequestOutcome>, expected_status: u16) -> (r: Result<
        (),
        Vec<ExecutorError>,
    >)
        ensures
            ({
                let errs = executor_errors(
                    self.executors(),
                    outcomes@,
                    expected_status,
                    paired_len(self.executors().len(), outcomes@.len()),
                );
                match r {
                    Ok(()) => errs.len() == 0,
                    Err(es) => errs.len() > 0 && es@.map_values(|e: ExecutorError| e.view_pair())
                        == errs,
                }
            }),
    {
        let n: usize = if self.executors.len() <= outcomes.len() {
            self.executors.len()
        } else {
            outcomes.len()
        };
        let mut errors: Vec<ExecutorError> = Vec::new();
        let mut i: usize = 0;
        while i < n
            invariant
                i <= n,
                n <= self.executors@.len(),
                n <= outcomes@.len(),
                errors@.map_values(|e: ExecutorError| e.view_pair()) == executor_errors(
                    self.executors@,
                    outcomes@,
                    expected_status,
                    i as nat,
                ),
            decreases n - i,
        {
            let ghost before = errors@;
            match &outcomes[i] {
                RequestOutcome::Failed(e) => {
                    errors.push(
                        ExecutorError {
                            executor_name: self.executors[i].name.clone(),
                            error_desc: e.clone(),
                        },
                    );
                    proof {
                        assert(errors@.map_values(|e: ExecutorError| e.view_pair()) =~= before.map_values(
                            |e: ExecutorError| e.view_pair(),
                        ).push(errors@.last().view_pair()));
                    }
                },
                RequestOutcome::Responded(code) => {
                    if *code != expected_status {
                        errors.push(
                            ExecutorError {
                                executor_name: self.executors[i].name.clone(),
                                error_desc: describe_status(*code),
                            },
                        );
                        proof {
                            assert(errors@.map_values(|e: ExecutorError| e.view_pair())
                                =~= before.map_values(|e: ExecutorError| e.view_pair()).push(
                                errors@.last().view_pair(),
                            ));
                        }
                    }
                },
            }
            i = i + 1;
        }
        if errors.len() > 0 {
            Err(errors)
        } else {
            Ok(())
        }
    }
}

} // verus!
