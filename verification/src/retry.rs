//! Which failures are worth another attempt, and how they are reported.
use crate::error::{SequencerError, TransportError, TransportKind};
use std::collections::VecDeque;
use vstd::prelude::*;

verus! {

/// How loudly a failure is reported before the attempt is repeated.
#[derive(Clone, Copy, Debug, PartialEq, Eq, Structural)]
pub enum Severity {
    Debug,
    Info,
    Warn,
    Error,
}

/// Statuses that a busy or restarting gateway answers with as a matter of course.
pub open spec fn is_routine_status(code: u16) -> bool {
    code == 404 || code == 429 || code == 502 || code == 503 || code == 504
}

/// The severity of a transport failure: the noise of a network is reported
/// lightly, a reply that cannot be read loudly.
pub open spec fn transport_severity(e: TransportError) -> Severity {
    if e.is_body() || e.is_connect() || e.is_timeout() {
        Severity::Info
    } else if let TransportKind::Status(code) = e.kind {
        if is_routine_status(code) {
            Severity::Debug
        } else if code == 500 {
            Severity::Error
        } else {
            Severity::Warn
        }
    } else if e.is_decode() {
        Severity::Error
    } else {
        Severity::Warn
    }
}

/// The severity at which a failure is reported, for each failure that is retried.
pub open spec fn severity_of(e: SequencerError) -> Option<Severity> {
    match e {
        SequencerError::ReqwestError(t) => Some(transport_severity(t)),
        SequencerError::StarknetError(_) => None,
        SequencerError::InvalidStarknetErrorVariant => Some(Severity::Error),
    }
}

/// Whether another attempt is warranted after this failure: after every one
/// but an error of the gateway's own.
pub open spec fn is_retryable(e: SequencerError) -> bool {
    !(e is StarknetError)
}

/// The severity at which `e` is to be reported before the attempt is repeated;
/// `None` where it is not repeated.
pub fn severity(e: &SequencerError) -> (level: Option<Severity>)
    ensures
        level == severity_of(*e),
{
    match e {
        SequencerError::ReqwestError(t) => {
            if t.is_body() || t.is_connect() || t.is_timeout() {
                Some(Severity::Info)
            } else if t.is_status() {
                match t.status() {
                    Some(404) | Some(429) | Some(502) | Some(503) | Some(504) => Some(Severity::Debug),
                    Some(500) => Some(Severity::Error),
                    _ => Some(Severity::Warn),
                }
            } else if t.is_decode() {
                Some(Severity::Error)
            } else {
                Some(Severity::Warn)
            }
        },
        SequencerError::StarknetError(_) => None,
        SequencerError::InvalidStarknetErrorVariant => Some(Severity::Error),
    }
}

/// Determines if an error is retryable or not.
pub fn retry_condition(e: &SequencerError) -> (retry: bool)
    ensures
        retry == is_retryable(*e),
{
    match e {
        SequencerError::ReqwestError(_) => true,
        SequencerError::StarknetError(_) => false,
        SequencerError::InvalidStarknetErrorVariant => true,
    }
}

/// A failure is reported before a retry exactly when it is retried.
pub proof fn lemma_reported_iff_retried(e: SequencerError)
    ensures
        severity_of(e) is Some <==> is_retryable(e),
{
}


/// How the pause between two attempts grows. All delays are in seconds.
#[derive(Clone, Copy, Debug, PartialEq, Eq, Structural)]
pub struct RetryPolicy {
    /// The pause after the first failure.
    pub initial_delay: u64,
    /// By how much the pause is multiplied after each failure.
    pub growth_factor: u64,
    /// The longest pause that growth leads to.
    pub max_delay: u64,
}

impl RetryPolicy {
    /// The pause that follows a pause of `delay`.
    pub open spec fn grow(self, delay: nat) -> nat {
        if delay * self.growth_factor < self.max_delay {
            delay * (self.growth_factor as nat)
        } else {
            self.max_delay as nat
        }
    }

    /// The pause after the failure of attempt `n`, counted from 0.
    pub open spec fn delay_at(self, n: nat) -> nat
        decreases n,
    {
        if n == 0 {
            self.initial_delay as nat
        } else {
            self.grow(self.delay_at((n - 1) as nat))
        }
    }

    /// When attempt `n` starts, in seconds after the first one, if the
    /// attempts themselves take no time.
    pub open spec fn start_of(self, n: nat) -> nat
        decreases n,
    {
        if n == 0 {
            0
        } else {
            self.start_of((n - 1) as nat) + self.delay_at((n - 1) as nat)
        }
    }

    /// The policy of the gateway client: 2 s at first, fifteenfold each time,
    /// up to ten minutes. There is no limit to the number of attempts.
    pub open spec fn spec_gateway() -> Self {
        RetryPolicy { initial_delay: 2, growth_factor: 15, max_delay: 600 }
    }

    /// The policy of the gateway client.
    #[verifier::when_used_as_spec(spec_gateway)]
    pub fn gateway() -> (policy: Self)
        ensures
            policy == Self::spec_gateway(),
    {
        RetryPolicy { initial_delay: 2, growth_factor: 15, max_delay: 600 }
    }

    /// The pause that follows a pause of `delay`.
    pub fn next_delay(&self, delay: u64) -> (next: u64)
        ensures
            next == self.grow(delay as nat),
    {
        match delay.checked_mul(self.growth_factor) {
            Some(product) => if product < self.max_delay {
                product
            } else {
                self.max_delay
            },
            None => self.max_delay,
        }
    }

    /// No pause is longer than the larger of the first pause and the cap.
    pub proof fn lemma_delay_bounded(self, n: nat)
        ensures
            self.delay_at(n) <= self.initial_delay || self.delay_at(n) <= self.max_delay,
        decreases n,
    {
        if n > 0 {
            self.lemma_delay_bounded((n - 1) as nat);
        }
    }

    /// Where the factor is at least 1 and the first pause is within the cap,
    /// no pause is shorter than the one before it.
    pub proof fn lemma_delay_grows(self, n: nat)
        requires
            self.growth_factor >= 1,
            self.initial_delay <= self.max_delay,
        ensures
            self.delay_at(n) <= self.delay_at(n + 1) <= self.max_delay,
        decreases n,
    {
        if n > 0 {
            self.lemma_delay_grows((n - 1) as nat);
        }
        let d = self.delay_at(n);
        assert(self.delay_at(n + 1) == self.grow(d));
        assert(d <= d * self.growth_factor) by (nonlinear_arith)
            requires
                self.growth_factor >= 1,
                d >= 0,
        ;
    }
}

/// The pauses of the gateway's policy follow `delay = min(600, delay * 15)`
/// from 2 s on: 2, 30, 450, and 600 ever after; so a fifth attempt starts
/// 1082 s after the first.
pub proof fn lemma_gateway_delays(n: nat)
    ensures
        ({
            let p = RetryPolicy::gateway();
            &&& p.delay_at(0) == 2
            &&& p.delay_at(n + 1) == if p.delay_at(n) * 15 < 600 {
                p.delay_at(n) * 15
            } else {
                600
            }
            &&& p.delay_at(1) == 30
            &&& p.delay_at(2) == 450
            &&& (n >= 3 ==> p.delay_at(n) == 600)
            &&& p.start_of(1) == 2
            &&& p.start_of(2) == 32
            &&& p.start_of(3) == 482
            &&& p.start_of(4) == 1082
        }),
    decreases n,
{
    let p = RetryPolicy::gateway();
    reveal_with_fuel(RetryPolicy::delay_at, 5);
    reveal_with_fuel(RetryPolicy::start_of, 5);
    assert(p.delay_at(3) == 600);
    if n > 3 {
        lemma_gateway_delays((n - 1) as nat);
    }
}

/// What to do after an attempt.
#[derive(Clone, Copy, Debug, PartialEq, Eq, Structural)]
pub enum Step {
    /// Hand the outcome to the caller: it is a success, or a failure that
    /// another attempt would not mend.
    Return,
    /// Wait this many seconds, then try again.
    Sleep(u64),
}

/// Whether an outcome is a failure after which the attempt is repeated.
pub open spec fn is_retried<T>(outcome: Result<T, SequencerError>) -> bool {
    outcome matches Err(e) && is_retryable(e)
}

/// The state of a run of attempts: how long to pause after the next failure.
pub struct Backoff {
    policy: RetryPolicy,
    delay: u64,
    retries: Ghost<nat>,
}

impl Backoff {
    #[verifier::type_invariant]
    spec fn wf(self) -> bool {
        self.delay == self.policy.delay_at(self.retries@)
    }

    /// The policy that the pauses follow.
    pub closed spec fn policy(self) -> RetryPolicy {
        self.policy
    }

    /// How many failures have been retried so far.
    pub closed spec fn retries(self) -> nat {
        self.retries@
    }

    /// The state before the first attempt.
    pub fn new(policy: RetryPolicy) -> (backoff: Self)
        ensures
            backoff.policy() == policy,
            backoff.retries() == 0,
    {
        Backoff { policy, delay: policy.initial_delay, retries: Ghost(0) }
    }

    /// The pause that a retryable failure would lead to now.
    pub fn delay(&self) -> (seconds: u64)
        ensures
            seconds == self.policy().delay_at(self.retries()),
    {
        proof {
            use_type_invariant(self);
        }
        self.delay
    }

    /// Decides what follows an attempt that ended in `outcome`. A success and
    /// a failure that is not retryable are returned, and change nothing. Any
    /// other failure is followed by the pause that is due, and the next pause
    /// grows.
    pub fn after<T>(&mut self, outcome: &Result<T, SequencerError>) -> (step: Step)
        ensures
            final(self).policy() == old(self).policy(),
            is_retried(*outcome) ==> step == Step::Sleep(
                old(self).policy().delay_at(old(self).retries()) as u64,
            ) && final(self).retries() == old(self).retries() + 1,
            !is_retried(*outcome) ==> step == Step::Return && final(self).retries() == old(
                self,
            ).retries(),
    {
        proof {
            use_type_invariant(&*self);
        }
        let retry = match outcome {
            Ok(_) => false,
            Err(e) => retry_condition(e),
        };
        if retry {
            let seconds: u64 = self.delay;
            let next: u64 = self.policy.next_delay(seconds);
            let ghost n = self.retries@;
            *self = Backoff { policy: self.policy, delay: next, retries: Ghost(n + 1) };
            Step::Sleep(seconds)
        } else {
            Step::Return
        }
    }
}


/// Whether the first `n` of `outcomes` are all failures that are retried.
pub open spec fn all_retried<T>(outcomes: Seq<Result<T, SequencerError>>, n: int) -> bool {
    forall|i: int| 0 <= i < n ==> is_retried(#[trigger] outcomes[i])
}

/// Whether an outcome is an error of the gateway's own.
pub open spec fn is_own_error<T>(outcome: Result<T, SequencerError>) -> bool {
    outcome matches Err(SequencerError::StarknetError(_))
}

/// Whether a run over `outcomes` pauses exactly `n` times: the first `n`
/// outcomes are failures that are retried, and the next one, if there is
/// one, is not.
pub open spec fn pauses<T>(outcomes: Seq<Result<T, SequencerError>>, n: int) -> bool {
    &&& 0 <= n <= outcomes.len()
    &&& all_retried(outcomes, n)
    &&& n < outcomes.len() ==> !is_retried(outcomes[n])
}

/// Whether `delays` are the first pauses of `policy`, in order.
pub open spec fn follows(delays: Seq<u64>, policy: RetryPolicy) -> bool {
    forall|i: int| 0 <= i < delays.len() ==> #[trigger] delays[i] == policy.delay_at(i as nat)
}

/// A run pauses a number of times that its outcomes determine.
pub proof fn lemma_pauses_unique<T>(outcomes: Seq<Result<T, SequencerError>>, m: int, n: int)
    requires
        pauses(outcomes, m),
        pauses(outcomes, n),
    ensures
        m == n,
{
    if m < n {
        assert(is_retried(outcomes[m]));
    } else if n < m {
        assert(is_retried(outcomes[n]));
    }
}

/// How a run of attempts went.
pub struct Run<T> {
    /// What the caller is handed: the outcome that ended the run; `None`
    /// where the attempts ran out while there was still reason to retry.
    pub result: Option<Result<T, SequencerError>>,
    /// The pauses made, in seconds, in the order in which they were made.
    pub delays: Vec<u64>,
}

impl<T> Run<T> {
    /// Whether this is how a run over `outcomes` goes, and `rest` what it
    /// leaves of them: it pauses after each leading failure that is retried,
    /// as the gateway's policy says, hands back the first other outcome, and
    /// touches none after it.
    pub open spec fn is_run_of(
        self,
        outcomes: Seq<Result<T, SequencerError>>,
        rest: Seq<Result<T, SequencerError>>,
    ) -> bool {
        let n = self.delays@.len() as int;
        &&& pauses(outcomes, n)
        &&& follows(self.delays@, RetryPolicy::gateway())
        &&& match self.result {
            Some(outcome) => {
                &&& n < outcomes.len()
                &&& outcome == outcomes[n]
                &&& rest == outcomes.skip(n + 1)
            },
            None => {
                &&& n == outcomes.len()
                &&& rest.len() == 0
            },
        }
    }
}

/// A run that meets nothing but retryable failures and then a success hands
/// back that success, and has then used every outcome.
pub proof fn lemma_success_is_returned<T>(
    run: Run<T>,
    outcomes: Seq<Result<T, SequencerError>>,
    rest: Seq<Result<T, SequencerError>>,
)
    requires
        run.is_run_of(outcomes, rest),
        outcomes.len() > 0,
        outcomes.last() is Ok,
        all_retried(outcomes, outcomes.len() - 1),
    ensures
        run.result == Some(outcomes.last()),
        run.delays@.len() == outcomes.len() - 1,
        rest.len() == 0,
{
    assert(pauses(outcomes, outcomes.len() - 1));
    lemma_pauses_unique(outcomes, run.delays@.len() as int, outcomes.len() - 1);
}

/// A run that meets an error of the gateway's own after nothing but
/// retryable failures hands back that error, and leaves every later outcome
/// untouched.
pub proof fn lemma_own_error_ends_run<T>(
    run: Run<T>,
    outcomes: Seq<Result<T, SequencerError>>,
    rest: Seq<Result<T, SequencerError>>,
    k: int,
)
    requires
        run.is_run_of(outcomes, rest),
        0 <= k < outcomes.len(),
        is_own_error(outcomes[k]),
        all_retried(outcomes, k),
    ensures
        run.result == Some(outcomes[k]),
        run.delays@.len() == k,
        rest == outcomes.skip(k + 1),
{
    assert(pauses(outcomes, k));
    lemma_pauses_unique(outcomes, run.delays@.len() as int, k);
}

/// Runs attempts, whose outcomes are taken from the front of `attempts` one
/// at a time, until one succeeds or fails for good, pausing after each other
/// failure as the gateway's policy says. What is left in `attempts` was never
/// attempted.
pub fn retry0<T>(attempts: &mut VecDeque<Result<T, SequencerError>>) -> (run: Run<T>)
    ensures
        run.is_run_of(old(attempts)@, final(attempts)@),
{
    let policy = RetryPolicy::gateway();
    let mut backoff = Backoff::new(policy);
    let mut delays: Vec<u64> = Vec::new();
    let mut result: Option<Result<T, SequencerError>> = None;
    let ghost all = attempts@;
    loop
        invariant_except_break
            result is None,
            attempts@ == all.skip(delays@.len() as int),
        invariant
            backoff.policy() == policy,
            policy == RetryPolicy::gateway(),
            backoff.retries() == delays@.len(),
            delays@.len() <= all.len(),
            all_retried(all, delays@.len() as int),
            follows(delays@, policy),
        ensures
            (Run { result, delays }).is_run_of(all, attempts@),
        decreases attempts@.len(),
    {
        match attempts.pop_front() {
            None => {
                break ;
            },
            Some(outcome) => {
                assert(outcome == all[delays@.len() as int]);
                assert(attempts@ == all.skip(delays@.len() as int + 1));
                match backoff.after(&outcome) {
                    Step::Return => {
                        result = Some(outcome);
                        break ;
                    },
                    Step::Sleep(seconds) => {
                        delays.push(seconds);
                    },
                }
            },
        }
    }
    Run { result, delays }
}

} // verus!
