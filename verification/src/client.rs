//! Ledger client: the decision core of every gateway operation.
//!
//! The network transport itself lives outside this library. A caller performs
//! one HTTP attempt at a time and classifies what happened into an outcome
//! value; the functions here consume those outcomes and decide — retry,
//! succeed, or fail with the right error. Read operations retry transient
//! failures up to the configured budget and stop immediately on a definitive
//! answer. Health probes and submissions are never retried.

use vstd::prelude::*;

use crate::config::{spec_horizon_url, StellarConfig};
use crate::errors::StellarError;
use crate::types::{
    account_info_from_horizon, account_info_matches, afri_balance_of, extract_afri_balance,
    is_valid_stellar_address, spec_balance_from_horizon, valid_account_id, AssetBalance,
    HealthStatus, HorizonAccount, StellarAccountInfo,
};

verus! {

/// What one account-fetch attempt against the gateway yielded.
#[derive(Debug, Clone)]
pub enum FetchOutcome {
    /// The gateway answered with an account record.
    Account(HorizonAccount),
    /// The gateway definitively reported that the account does not exist.
    NotFound,
    /// The attempt failed at the transport level.
    TransportError { message: String },
    /// The configured request timeout elapsed.
    TimedOut,
}

/// A transient outcome, worth retrying; `Account` and `NotFound` are
/// definitive.
pub open spec fn retriable(o: FetchOutcome) -> bool {
    o is TransportError || o is TimedOut
}

/// How many outcomes a fetch with `left` attempts remaining consumes.
pub open spec fn spec_requests_used(outcomes: Seq<FetchOutcome>, left: nat) -> nat
    decreases outcomes.len(),
{
    if outcomes.len() == 0 || left == 0 {
        0
    } else if !retriable(outcomes[0]) || left == 1 {
        1
    } else {
        1 + spec_requests_used(outcomes.drop_first(), (left - 1) as nat)
    }
}

/// Whether a fetch with `left` attempts remaining reaches a final answer
/// before the outcome script runs out.
pub open spec fn spec_resolves(outcomes: Seq<FetchOutcome>, left: nat) -> bool
    decreases outcomes.len(),
{
    if outcomes.len() == 0 || left == 0 {
        false
    } else if !retriable(outcomes[0]) || left == 1 {
        true
    } else {
        spec_resolves(outcomes.drop_first(), (left - 1) as nat)
    }
}

/// The outcome a resolving fetch ends on: the first definitive outcome, or
/// the outcome of the final permitted attempt.
pub open spec fn spec_final_outcome(outcomes: Seq<FetchOutcome>, left: nat) -> FetchOutcome
    decreases outcomes.len(),
{
    if outcomes.len() == 0 || left == 0 {
        FetchOutcome::TimedOut
    } else if !retriable(outcomes[0]) || left == 1 {
        outcomes[0]
    } else {
        spec_final_outcome(outcomes.drop_first(), (left - 1) as nat)
    }
}

/// How a finished account fetch relates to the outcome it ended on.
pub open spec fn fetch_result_matches(
    res: Result<StellarAccountInfo, StellarError>,
    o: FetchOutcome,
    address: Seq<char>,
    fallback_created_at: Seq<char>,
) -> bool {
    match o {
        FetchOutcome::Account(h) => res is Ok && account_info_matches(
            res->Ok_0,
            h,
            fallback_created_at,
        ),
        FetchOutcome::NotFound => res matches Err(
            StellarError::AccountNotFound { account_id },
        ) && account_id@ == address,
        FetchOutcome::TransportError { message } => res matches Err(
            StellarError::NetworkError { message: m },
        ) && m == message,
        FetchOutcome::TimedOut => res matches Err(StellarError::TimeoutError { message: m })
            && m@ == "request timed out"@,
    }
}

/// Consuming `k` retriable outcomes peels `k` attempts off the fetch.
proof fn lemma_fetch_unroll(outcomes: Seq<FetchOutcome>, left: nat, k: int)
    requires
        0 <= k <= outcomes.len(),
        k < left,
        forall|j: int| 0 <= j < k ==> retriable(#[trigger] outcomes[j]),
    ensures
        spec_requests_used(outcomes, left) == k + spec_requests_used(
            outcomes.skip(k),
            (left - k) as nat,
        ),
        spec_resolves(outcomes, left) == spec_resolves(outcomes.skip(k), (left - k) as nat),
        spec_resolves(outcomes, left) ==> spec_final_outcome(outcomes, left)
            == spec_final_outcome(outcomes.skip(k), (left - k) as nat),
    decreases k,
{
    if k == 0 {
        assert(outcomes.skip(0) =~= outcomes);
    } else {
        assert(retriable(outcomes[0]));
        assert(left > 1);
        let rest = outcomes.drop_first();
        assert forall|j: int| 0 <= j < k - 1 implies retriable(#[trigger] rest[j]) by {
            assert(rest[j] == outcomes[j + 1]);
        }
        lemma_fetch_unroll(rest, (left - 1) as nat, k - 1);
        assert(rest.skip(k - 1) =~= outcomes.skip(k));
    }
}

/// Result of driving an account fetch over a script of attempt outcomes:
/// how many attempts were consumed, and the final answer — `None` when the
/// script ran out while a retry was still owed.
#[derive(Debug)]
pub struct FetchRun {
    pub requests_made: u32,
    pub result: Option<Result<StellarAccountInfo, StellarError>>,
}

/// Result of an existence check driven the same way.
#[derive(Debug)]
pub struct ExistsRun {
    pub requests_made: u32,
    pub result: Option<Result<bool, StellarError>>,
}

/// Result of a balance-list fetch driven the same way.
#[derive(Debug)]
pub struct BalancesRun {
    pub requests_made: u32,
    pub result: Option<Result<Vec<AssetBalance>, StellarError>>,
}

/// Result of an application-asset balance fetch driven the same way.
#[derive(Debug)]
pub struct AfriBalanceRun {
    pub requests_made: u32,
    pub result: Option<Result<Option<String>, StellarError>>,
}

/// What one gateway health probe yielded.
#[derive(Debug, Clone)]
pub enum ProbeOutcome {
    /// The gateway answered; the probe took this long.
    Up { response_time_ms: u64 },
    /// The probe failed.
    Down { message: String },
}

/// What one transaction submission yielded.
#[derive(Debug, Clone)]
pub enum SubmitOutcome {
    /// The gateway accepted the envelope and answered with this payload.
    Accepted { body: String },
    /// The ledger rejected the envelope with this structured payload.
    Rejected { payload: String },
    /// The submission failed at the transport level.
    TransportError { message: String },
    /// The configured request timeout elapsed.
    TimedOut,
}

/// Gateway client. Immutable after construction and freely shared; it holds
/// no connection state, only the configuration that drives its decisions.
#[derive(Debug, Clone)]
pub struct StellarClient {
    pub config: StellarConfig,
}

impl StellarClient {
    /// Builds a client from a validated configuration.
    pub fn new(config: StellarConfig) -> (r: Result<StellarClient, StellarError>)
        ensures
            r is Ok <==> config.spec_valid(),
            r is Ok ==> r->Ok_0.config == config,
            r is Err ==> r->Err_0 is ValidationError,
    {
        match config.validate() {
            Ok(()) => Ok(StellarClient { config }),
            Err(e) => Err(e),
        }
    }

    /// Fetches an account, retrying transient failures up to the configured
    /// budget. A syntactically invalid identifier fails with
    /// `InvalidAddress` before any attempt is consumed; a not-found answer is
    /// definitive and never retried. The caller supplies one outcome per
    /// attempt actually made.
    pub fn get_account(
        &self,
        address: &str,
        outcomes: Vec<FetchOutcome>,
        fallback_created_at: String,
    ) -> (r: FetchRun)
        ensures
            !valid_account_id(address@) ==> r.requests_made == 0 && (r.result matches Some(
                Err(StellarError::InvalidAddress { address: a }),
            ) && a@ == address@),
            valid_account_id(address@) ==> {
                &&& r.requests_made == spec_requests_used(
                    outcomes@,
                    self.config.max_retries as nat,
                )
                &&& spec_resolves(outcomes@, self.config.max_retries as nat) ==> (
                r.result matches Some(res) && fetch_result_matches(
                    res,
                    spec_final_outcome(outcomes@, self.config.max_retries as nat),
                    address@,
                    fallback_created_at@,
                ))
                &&& !spec_resolves(outcomes@, self.config.max_retries as nat) ==> r.result
                    is None
            },
    {
        if !is_valid_stellar_address(address) {
            return FetchRun {
                requests_made: 0,
                result: Some(Err(StellarError::InvalidAddress { address: address.to_owned() })),
            };
        }
        let max = self.config.max_retries;
        let ghost all = outcomes@;
        let mut rem = outcomes;
        let n0 = rem.len();
        proof {
            assert(all.len() == n0);
        }
        let mut used: u32 = 0;
        while used < max && rem.len() > 0
            invariant
                valid_account_id(address@),
                max == self.config.max_retries,
                all == outcomes@,
                used <= max,
                max > 0 ==> used < max,
                used <= all.len() <= usize::MAX,
                rem@ =~= all.skip(used as int),
                forall|j: int| 0 <= j < used ==> retriable(#[trigger] all[j]),
            decreases rem@.len(),
        {
            let o = rem.remove(0);
            proof {
                assert(o == all[used as int]);
                assert(rem@ =~= all.skip(used as int + 1));
                lemma_fetch_unroll(all, max as nat, used as int);
                assert(all.skip(used as int)[0] == all[used as int]);
            }
            used = used + 1;
            let last_attempt = used == max;
            match o {
                FetchOutcome::Account(h) => {
                    return FetchRun {
                        requests_made: used,
                        result: Some(Ok(account_info_from_horizon(h, fallback_created_at))),
                    };
                },
                FetchOutcome::NotFound => {
                    return FetchRun {
                        requests_made: used,
                        result: Some(
                            Err(StellarError::AccountNotFound {
                                account_id: address.to_owned(),
                            }),
                        ),
                    };
                },
                FetchOutcome::TransportError { message } => {
                    if last_attempt {
                        return FetchRun {
                            requests_made: used,
                            result: Some(Err(StellarError::NetworkError { message })),
                        };
                    }
                },
                FetchOutcome::TimedOut => {
                    if last_attempt {
                        return FetchRun {
                            requests_made: used,
                            result: Some(
                                Err(StellarError::TimeoutError {
                                    message: String::from_str("request timed out"),
                                }),
                            ),
                        };
                    }
                },
            }
        }
        proof {
            if used < max {
                // the script ran out while a retry was still owed
                lemma_fetch_unroll(all, max as nat, used as int);
                assert(all.skip(used as int).len() == 0);
            }
        }
        FetchRun { requests_made: used, result: None }
    }

    /// Like `get_account`, but a definitive not-found answer converts to
    /// `Ok(false)` instead of an error: this operation never reports
    /// `AccountNotFound`.
    pub fn account_exists(
        &self,
        address: &str,
        outcomes: Vec<FetchOutcome>,
        fallback_created_at: String,
    ) -> (r: ExistsRun)
        ensures
            !(r.result matches Some(Err(e)) && e is AccountNotFound),
            !valid_account_id(address@) ==> r.requests_made == 0 && (r.result matches Some(
                Err(StellarError::InvalidAddress { address: a }),
            ) && a@ == address@),
            valid_account_id(address@) ==> {
                &&& r.requests_made == spec_requests_used(
                    outcomes@,
                    self.config.max_retries as nat,
                )
                &&& spec_resolves(outcomes@, self.config.max_retries as nat) ==> (
                r.result matches Some(res) && exists_result_matches(
                    res,
                    spec_final_outcome(outcomes@, self.config.max_retries as nat),
                ))
                &&& !spec_resolves(outcomes@, self.config.max_retries as nat) ==> r.result
                    is None
            },
    {
        let run = self.get_account(address, outcomes, fallback_created_at);
        let result = match run.result {
            Option::None => Option::None,
            Option::Some(Ok(_)) => Option::Some(Ok(true)),
            Option::Some(Err(StellarError::AccountNotFound { account_id: _ })) => Option::Some(
                Ok(false),
            ),
            Option::Some(Err(e)) => Option::Some(Err(e)),
        };
        ExistsRun { requests_made: run.requests_made, result }
    }

    /// Fetches an account and keeps only its balance list.
    pub fn get_balances(
        &self,
        address: &str,
        outcomes: Vec<FetchOutcome>,
        fallback_created_at: String,
    ) -> (r: BalancesRun)
        ensures
            !valid_account_id(address@) ==> r.requests_made == 0 && (r.result matches Some(
                Err(StellarError::InvalidAddress { address: a }),
            ) && a@ == address@),
            valid_account_id(address@) ==> {
                &&& r.requests_made == spec_requests_used(
                    outcomes@,
                    self.config.max_retries as nat,
                )
                &&& spec_resolves(outcomes@, self.config.max_retries as nat) ==> (
                r.result matches Some(res) && balances_result_matches(
                    res,
                    spec_final_outcome(outcomes@, self.config.max_retries as nat),
                    address@,
                ))
                &&& !spec_resolves(outcomes@, self.config.max_retries as nat) ==> r.result
                    is None
            },
    {
        let run = self.get_account(address, outcomes, fallback_created_at);
        let result = match run.result {
            Option::None => Option::None,
            Option::Some(Ok(account)) => {
                proof {
                    let fo = spec_final_outcome(outcomes@, self.config.max_retries as nat);
                    if fo is Account {
                        let h = fo->Account_0;
                        assert(account.balances@ =~= h.balances@.map_values(
                            |b: crate::types::HorizonBalance| spec_balance_from_horizon(b),
                        ));
                    }
                }
                Option::Some(Ok(account.balances))
            },
            Option::Some(Err(e)) => Option::Some(Err(e)),
        };
        BalancesRun { requests_made: run.requests_made, result }
    }

    /// Fetches an account and reports the balance string of its
    /// application-asset trustline, or nothing when no such trustline exists.
    pub fn get_afri_balance(
        &self,
        address: &str,
        outcomes: Vec<FetchOutcome>,
        fallback_created_at: String,
    ) -> (r: AfriBalanceRun)
        ensures
            !valid_account_id(address@) ==> r.requests_made == 0 && (r.result matches Some(
                Err(StellarError::InvalidAddress { address: a }),
            ) && a@ == address@),
            valid_account_id(address@) ==> {
                &&& r.requests_made == spec_requests_used(
                    outcomes@,
                    self.config.max_retries as nat,
                )
                &&& spec_resolves(outcomes@, self.config.max_retries as nat) ==> (
                r.result matches Some(res) && afri_result_matches(
                    res,
                    spec_final_outcome(outcomes@, self.config.max_retries as nat),
                    address@,
                ))
                &&& !spec_resolves(outcomes@, self.config.max_retries as nat) ==> r.result
                    is None
            },
    {
        let run = self.get_account(address, outcomes, fallback_created_at);
        let result = match run.result {
            Option::None => Option::None,
            Option::Some(Ok(account)) => {
                let found = extract_afri_balance(&account.balances);
                proof {
                    let fo = spec_final_outcome(outcomes@, self.config.max_retries as nat);
                    if fo is Account {
                        let h = fo->Account_0;
                        assert(account.balances@ =~= h.balances@.map_values(
                            |b: crate::types::HorizonBalance| spec_balance_from_horizon(b),
                        ));
                    }
                }
                Option::Some(Ok(found))
            },
            Option::Some(Err(e)) => Option::Some(Err(e)),
        };
        AfriBalanceRun { requests_made: run.requests_made, result }
    }

    /// Issues exactly one probe — a health check is never retried, because it
    /// must reflect instantaneous state — and reports the gateway's health.
    /// The error message is present precisely when the probe failed.
    pub fn health_check(&self, outcome: ProbeOutcome, checked_at: String) -> (r: HealthStatus)
        ensures
            r.is_healthy == outcome is Up,
            outcome matches ProbeOutcome::Up { response_time_ms } ==> r.response_time_ms
                == response_time_ms,
            r.error_message is Some <==> !r.is_healthy,
            outcome is Down ==> r.error_message->0@.len() > 0,
            outcome matches ProbeOutcome::Down { message } ==> message@.len() > 0
                ==> r.error_message->0@ == message@,
            r.horizon_url@ == spec_horizon_url(self.config.network),
            r.last_check@ == checked_at@,
    {
        let url = self.config.network.horizon_url().to_owned();
        match outcome {
            ProbeOutcome::Up { response_time_ms } => HealthStatus {
                is_healthy: true,
                horizon_url: url,
                response_time_ms,
                last_check: checked_at,
                error_message: None,
            },
            ProbeOutcome::Down { message } => {
                let msg = if message.as_str().unicode_len() == 0 {
                    proof {
                        reveal_strlit("health probe failed");
                    }
                    String::from_str("health probe failed")
                } else {
                    message
                };
                HealthStatus {
                    is_healthy: false,
                    horizon_url: url,
                    response_time_ms: 0,
                    last_check: checked_at,
                    error_message: Some(msg),
                }
            },
        }
    }

    /// Interprets the gateway's answer to one envelope submission. A
    /// submission is never retried by this client: retrying without
    /// re-checking the sequence number risks double-submission, so that
    /// responsibility stays with the caller. A ledger-level rejection keeps
    /// the gateway's structured payload so the caller can inspect it.
    pub fn submit_transaction_xdr(&self, outcome: SubmitOutcome) -> (r: Result<
        String,
        StellarError,
    >)
        ensures
            outcome matches SubmitOutcome::Accepted { body } ==> (r matches Ok(b) && b
                == body),
            outcome matches SubmitOutcome::Rejected { payload } ==> (r matches Err(
                StellarError::SubmissionRejected { payload: p },
            ) && p == payload),
            outcome matches SubmitOutcome::TransportError { message } ==> (r matches Err(
                StellarError::NetworkError { message: m },
            ) && m == message),
            outcome is TimedOut ==> (r matches Err(StellarError::TimeoutError { message: m })
                && m@ == "request timed out"@),
    {
        match outcome {
            SubmitOutcome::Accepted { body } => Ok(body),
            SubmitOutcome::Rejected { payload } => Err(
                StellarError::SubmissionRejected { payload },
            ),
            SubmitOutcome::TransportError { message } => Err(
                StellarError::NetworkError { message },
            ),
            SubmitOutcome::TimedOut => Err(
                StellarError::TimeoutError { message: String::from_str("request timed out") },
            ),
        }
    }
}

/// An account fetch in progress, for callers that perform one gateway
/// attempt at a time: start it, then hand in each attempt's outcome until a
/// step reports `Done`.
#[derive(Debug, Clone)]
pub struct AccountFetch {
    pub address: String,
    pub max_retries: u32,
    pub attempts_made: u32,
}

/// What to do after one attempt: stop with this answer, or try again.
#[derive(Debug)]
pub enum FetchStep {
    Done(Result<StellarAccountInfo, StellarError>),
    Retry,
}

impl AccountFetch {
    /// Begins a fetch. A syntactically invalid identifier fails here, before
    /// any attempt is made.
    pub fn start(address: &str, config: &StellarConfig) -> (r: Result<
        AccountFetch,
        StellarError,
    >)
        ensures
            r is Ok <==> valid_account_id(address@),
            r is Ok ==> {
                &&& r->Ok_0.address@ == address@
                &&& r->Ok_0.max_retries == config.max_retries
                &&& r->Ok_0.attempts_made == 0
            },
            r is Err ==> (r->Err_0 matches StellarError::InvalidAddress { address: a } && a@
                == address@),
    {
        if !is_valid_stellar_address(address) {
            return Err(StellarError::InvalidAddress { address: address.to_owned() });
        }
        Ok(AccountFetch {
            address: address.to_owned(),
            max_retries: config.max_retries,
            attempts_made: 0,
        })
    }

    /// Consumes the outcome of one attempt. Definitive outcomes finish the
    /// fetch at once; transient ones ask for a retry until the budget is
    /// spent, then surface the transient error.
    pub fn on_outcome(&mut self, outcome: FetchOutcome, fallback_created_at: String) -> (r:
        FetchStep)
        requires
            old(self).attempts_made < old(self).max_retries,
        ensures
            final(self).attempts_made == old(self).attempts_made + 1,
            final(self).address == old(self).address,
            final(self).max_retries == old(self).max_retries,
            !retriable(outcome) ==> (r matches FetchStep::Done(res) && fetch_result_matches(
                res,
                outcome,
                old(self).address@,
                fallback_created_at@,
            )),
            retriable(outcome) && old(self).attempts_made + 1 < old(self).max_retries ==> r
                is Retry,
            retriable(outcome) && old(self).attempts_made + 1 == old(self).max_retries ==> (
            r matches FetchStep::Done(res) && fetch_result_matches(
                res,
                outcome,
                old(self).address@,
                fallback_created_at@,
            )),
    {
        self.attempts_made = self.attempts_made + 1;
        let last_attempt = self.attempts_made == self.max_retries;
        match outcome {
            FetchOutcome::Account(h) => FetchStep::Done(
                Ok(account_info_from_horizon(h, fallback_created_at)),
            ),
            FetchOutcome::NotFound => FetchStep::Done(
                Err(StellarError::AccountNotFound { account_id: self.address.clone() }),
            ),
            FetchOutcome::TransportError { message } => {
                if last_attempt {
                    FetchStep::Done(Err(StellarError::NetworkError { message }))
                } else {
                    FetchStep::Retry
                }
            },
            FetchOutcome::TimedOut => {
                if last_attempt {
                    FetchStep::Done(
                        Err(StellarError::TimeoutError {
                            message: String::from_str("request timed out"),
                        }),
                    )
                } else {
                    FetchStep::Retry
                }
            },
        }
    }
}

/// How a finished existence check relates to the outcome it ended on.
pub open spec fn exists_result_matches(res: Result<bool, StellarError>, o: FetchOutcome) -> bool {
    match o {
        FetchOutcome::Account(_) => res == Result::<bool, StellarError>::Ok(true),
        FetchOutcome::NotFound => res == Result::<bool, StellarError>::Ok(false),
        FetchOutcome::TransportError { message } => res matches Err(
            StellarError::NetworkError { message: m },
        ) && m == message,
        FetchOutcome::TimedOut => res matches Err(StellarError::TimeoutError { message: m })
            && m@ == "request timed out"@,
    }
}

/// How a finished balance-list fetch relates to the outcome it ended on.
pub open spec fn balances_result_matches(
    res: Result<Vec<AssetBalance>, StellarError>,
    o: FetchOutcome,
    address: Seq<char>,
) -> bool {
    match o {
        FetchOutcome::Account(h) => res is Ok && res->Ok_0@ == h.balances@.map_values(
            |b: crate::types::HorizonBalance| spec_balance_from_horizon(b),
        ),
        FetchOutcome::NotFound => res matches Err(
            StellarError::AccountNotFound { account_id },
        ) && account_id@ == address,
        FetchOutcome::TransportError { message } => res matches Err(
            StellarError::NetworkError { message: m },
        ) && m == message,
        FetchOutcome::TimedOut => res matches Err(StellarError::TimeoutError { message: m })
            && m@ == "request timed out"@,
    }
}

/// How a finished application-asset balance fetch relates to the outcome it
/// ended on.
pub open spec fn afri_result_matches(
    res: Result<Option<String>, StellarError>,
    o: FetchOutcome,
    address: Seq<char>,
) -> bool {
    match o {
        FetchOutcome::Account(h) => res is Ok && {
            let found = afri_balance_of(
                h.balances@.map_values(
                    |b: crate::types::HorizonBalance| spec_balance_from_horizon(b),
                ),
            );
            &&& res->Ok_0 is Some <==> found is Some
            &&& res->Ok_0 is Some ==> res->Ok_0->0@ == found->0
        },
        FetchOutcome::NotFound => res matches Err(
            StellarError::AccountNotFound { account_id },
        ) && account_id@ == address,
        FetchOutcome::TransportError { message } => res matches Err(
            StellarError::NetworkError { message: m },
        ) && m == message,
        FetchOutcome::TimedOut => res matches Err(StellarError::TimeoutError { message: m })
            && m@ == "request timed out"@,
    }
}

} // verus!
