//! The retry core: classification of one attempt's outcome, the retry
//! policy, and the executor's decision logic.
//!
//! One attempt at sending a request ends in an [`Outcome`]: either a
//! completed response, of which only the status code matters here, or a
//! transport-level failure described by a [`TransportError`]. The
//! classifier maps an outcome to a [`Retryable`] verdict; the executor
//! drives a bounded loop of attempts from those verdicts.

use vstd::prelude::*;

verus! {

/// Verdict on one attempt's outcome.
#[derive(Clone, Copy, Debug, PartialEq, Eq, Structural)]
pub enum Retryable {
    /// The failure was due to something that might resolve in the future.
    Transient,
    /// Unresolvable error.
    Fatal,
    /// No error.
    NoError,
}

/// The kind of a low-level I/O error found in a failure's cause chain.
#[derive(Clone, Copy, Debug, PartialEq, Eq, Structural)]
pub enum IoErrorKind {
    ConnectionReset,
    ConnectionAborted,
    /// Any other I/O error kind: never worth a retry.
    Other,
}

/// One node of a failure's cause chain, outermost first.
#[derive(Clone, Copy, Debug, PartialEq, Eq, Structural)]
pub enum Cause {
    /// The response was well formed but the connection was cut before all
    /// of its bytes arrived.
    IncompleteMessage,
    /// The connection was gracefully closed on the server side.
    CanceledByPeer,
    /// A low-level I/O error of the given kind.
    Io(IoErrorKind),
    /// A wrapper with no recognizable kind of its own; the walk continues
    /// past it to the next cause.
    Opaque,
}

/// A transport-level failure, by the kind the transport reports.
#[derive(Clone, Debug, PartialEq, Eq)]
pub enum TransportError {
    /// The middleware chain itself failed, not the network.
    Middleware,
    /// The request timed out.
    Timeout,
    /// The connection could not be established.
    Connect,
    /// Reading the response body failed.
    Body,
    /// Decoding the response failed.
    Decode,
    /// Building the request failed.
    Builder,
    /// The redirect policy rejected the exchange.
    Redirect,
    /// A request-level failure wrapping a chain of nested causes.
    Request(Vec<Cause>),
    /// A failure category the classifier does not recognize.
    Unrecognized,
}

/// The outcome of one attempt: a completed response's status code, or a
/// transport failure.
#[derive(Clone, Debug, PartialEq, Eq)]
pub enum Outcome {
    Success(u16),
    Failure(TransportError),
}

/// Verdict for a completed response, by its status code: server errors
/// and the two throttling statuses are transient, other client errors
/// fatal, success and redirection statuses no error, and anything else
/// fatal.
pub open spec fn spec_classify_status(status: u16) -> Retryable {
    if 500 <= status <= 599 {
        Retryable::Transient
    } else if status == 408 || status == 429 {
        Retryable::Transient
    } else if 400 <= status <= 499 {
        Retryable::Fatal
    } else if 200 <= status <= 399 {
        Retryable::NoError
    } else {
        Retryable::Fatal
    }
}

/// Classifies a completed response by its status code.
pub fn default_on_request_success(status: u16) -> (r: Retryable)
    ensures
        r == spec_classify_status(status),
{
    if 500 <= status && status <= 599 {
        Retryable::Transient
    } else if status == 408 || status == 429 {
        Retryable::Transient
    } else if 400 <= status && status <= 499 {
        Retryable::Fatal
    } else if 200 <= status && status <= 399 {
        Retryable::NoError
    } else {
        Retryable::Fatal
    }
}

/// Verdict for a low-level I/O error: a reset or aborted connection is
/// transient, everything else fatal.
pub open spec fn spec_classify_io(kind: IoErrorKind) -> Retryable {
    match kind {
        IoErrorKind::ConnectionReset => Retryable::Transient,
        IoErrorKind::ConnectionAborted => Retryable::Transient,
        IoErrorKind::Other => Retryable::Fatal,
    }
}

/// Classifies a low-level I/O error found in a cause chain.
fn classify_io_error(kind: IoErrorKind) -> (r: Retryable)
    ensures
        r == spec_classify_io(kind),
{
    match kind {
        IoErrorKind::ConnectionReset => Retryable::Transient,
        IoErrorKind::ConnectionAborted => Retryable::Transient,
        IoErrorKind::Other => Retryable::Fatal,
    }
}

/// The first cause in the chain with a recognizable kind, if any.
pub open spec fn spec_first_known_cause(causes: Seq<Cause>) -> Option<Cause>
    decreases causes.len(),
{
    if causes.len() == 0 {
        None
    } else if causes[0] is Opaque {
        spec_first_known_cause(causes.drop_first())
    } else {
        Some(causes[0])
    }
}

/// Verdict for a request-level failure, from its cause chain: the first
/// recognizable cause decides; a chain with none is fatal.
pub open spec fn spec_classify_causes(causes: Seq<Cause>) -> Retryable {
    match spec_first_known_cause(causes) {
        None => Retryable::Fatal,
        Some(cause) => match cause {
            Cause::IncompleteMessage => Retryable::Transient,
            Cause::CanceledByPeer => Retryable::Transient,
            Cause::Io(kind) => spec_classify_io(kind),
            Cause::Opaque => Retryable::Fatal,
        },
    }
}

proof fn lemma_first_known_cause_skip(causes: Seq<Cause>, i: int)
    requires
        0 <= i <= causes.len(),
        forall|j: int| 0 <= j < i ==> causes[j] is Opaque,
    ensures
        spec_first_known_cause(causes) == spec_first_known_cause(causes.skip(i)),
    decreases i,
{
    if i > 0 {
        assert(causes.drop_first() =~= causes.skip(1));
        lemma_first_known_cause_skip(causes.drop_first(), i - 1);
        assert(causes.drop_first().skip(i - 1) =~= causes.skip(i));
    } else {
        assert(causes.skip(0) =~= causes);
    }
}

/// Walks the cause chain, outermost first, to the first cause with a
/// recognizable kind.
fn first_known_cause(causes: &Vec<Cause>) -> (r: Option<Cause>)
    ensures
        r == spec_first_known_cause(causes@),
{
    let n = causes.len();
    let mut i: usize = 0;
    while i < n
        invariant
            0 <= i <= n,
            n == causes@.len(),
            forall|j: int| 0 <= j < i ==> causes@[j] is Opaque,
        decreases n - i,
    {
        let cause = causes[i];
        match cause {
            Cause::Opaque => {
                i = i + 1;
            },
            _ => {
                proof {
                    lemma_first_known_cause_skip(causes@, i as int);
                    assert(causes@.skip(i as int)[0] == causes@[i as int]);
                }
                return Some(cause);
            },
        }
    }
    proof {
        lemma_first_known_cause_skip(causes@, n as int);
        assert(causes@.skip(n as int).len() == 0);
    }
    None
}

/// Verdict for a transport-level failure, by its kind.
pub open spec fn spec_classify_failure(error: TransportError) -> Retryable {
    match error {
        TransportError::Middleware => Retryable::Fatal,
        TransportError::Timeout => Retryable::Transient,
        TransportError::Connect => Retryable::Transient,
        TransportError::Body => Retryable::Fatal,
        TransportError::Decode => Retryable::Fatal,
        TransportError::Builder => Retryable::Fatal,
        TransportError::Redirect => Retryable::Fatal,
        TransportError::Request(causes) => spec_classify_causes(causes@),
        TransportError::Unrecognized => Retryable::NoError,
    }
}

/// Classifies a transport-level failure.
pub fn default_on_request_failure(error: &TransportError) -> (r: Retryable)
    ensures
        r == spec_classify_failure(*error),
{
    match error {
        TransportError::Middleware => Retryable::Fatal,
        TransportError::Timeout => Retryable::Transient,
        TransportError::Connect => Retryable::Transient,
        TransportError::Body => Retryable::Fatal,
        TransportError::Decode => Retryable::Fatal,
        TransportError::Builder => Retryable::Fatal,
        TransportError::Redirect => Retryable::Fatal,
        TransportError::Request(causes) => match first_known_cause(causes) {
            None => Retryable::Fatal,
            Some(Cause::IncompleteMessage) => Retryable::Transient,
            Some(Cause::CanceledByPeer) => Retryable::Transient,
            Some(Cause::Io(kind)) => classify_io_error(kind),
            Some(Cause::Opaque) => Retryable::Fatal,
        },
        TransportError::Unrecognized => Retryable::NoError,
    }
}

/// Verdict for one attempt's outcome.
pub open spec fn spec_classify(outcome: Outcome) -> Retryable {
    match outcome {
        Outcome::Success(status) => spec_classify_status(status),
        Outcome::Failure(error) => spec_classify_failure(error),
    }
}

/// Classifies one attempt's outcome. The verdict is a function of the
/// outcome value alone: no state, no side effects.
pub fn classify(outcome: &Outcome) -> (r: Retryable)
    ensures
        r == spec_classify(*outcome),
{
    match outcome {
        Outcome::Success(status) => default_on_request_success(*status),
        Outcome::Failure(error) => default_on_request_failure(error),
    }
}

/// Immutable retry configuration: how many retries may follow the first
/// attempt, and the fixed delay between attempts.
#[derive(Clone, Copy, Debug, PartialEq, Eq, Structural)]
pub struct RetryPolicy {
    /// Retries allowed beyond the first attempt. Zero disables retrying.
    pub max_retries: u32,
    /// Fixed delay between attempts, in milliseconds.
    pub delay_ms: u64,
}

impl RetryPolicy {
    pub fn new(max_retries: u32, delay_ms: u64) -> (policy: Self)
        ensures
            policy.max_retries == max_retries,
            policy.delay_ms == delay_ms,
    {
        RetryPolicy { max_retries, delay_ms }
    }
}

impl Default for RetryPolicy {
    /// Three retries beyond the first attempt, one second apart.
    fn default() -> (policy: Self)
        ensures
            policy.max_retries == 3,
            policy.delay_ms == 1000,
    {
        RetryPolicy { max_retries: 3, delay_ms: 1000 }
    }
}

/// The terminal error of one execution.
#[derive(Clone, Debug, PartialEq, Eq)]
pub enum RetryError {
    /// The request body cannot be cloned, so no attempt can be replayed:
    /// a precondition failure, reported before anything is sent.
    NotCloneable,
    /// The retry budget ran out while the outcome stayed transient; carries
    /// how many attempts were made in all.
    WithRetries { retries: u32, source: TransportError },
    /// The last attempt failed with no retry owed: the original error,
    /// unwrapped.
    Error(TransportError),
}

/// What the executor does after one classified attempt.
#[derive(Clone, Copy, Debug, PartialEq, Eq, Structural)]
pub enum Decision {
    /// Stop and hand the response back as it is.
    ReturnSuccess,
    /// Wait out the policy's delay, then send again.
    RetryAfterDelay,
    /// Stop with the budget-exhausted error carrying the attempt count.
    FailExhausted,
    /// Stop with the original error, unwrapped.
    FailOriginal,
}

/// The decision after attempt number `attempts` (counted from 1) ended in
/// `outcome`: retry while the verdict is transient and the budget allows
/// another attempt; otherwise pass a response through as it is, and report
/// a failure as exhausted only when the budget was spent on at least one
/// retry.
pub open spec fn spec_decide(max_retries: u32, attempts: u32, outcome: Outcome) -> Decision {
    let verdict = spec_classify(outcome);
    if verdict is Transient && attempts <= max_retries {
        Decision::RetryAfterDelay
    } else if outcome is Success {
        Decision::ReturnSuccess
    } else if verdict is Transient && attempts > 1 {
        Decision::FailExhausted
    } else {
        Decision::FailOriginal
    }
}

/// Decides what follows attempt number `attempts` (counted from 1), whose
/// outcome was `outcome`, under `policy`.
pub fn decide(policy: &RetryPolicy, attempts: u32, outcome: &Outcome) -> (d: Decision)
    ensures
        d == spec_decide(policy.max_retries, attempts, *outcome),
{
    let verdict = classify(outcome);
    if verdict == Retryable::Transient && attempts <= policy.max_retries {
        Decision::RetryAfterDelay
    } else {
        match outcome {
            Outcome::Success(_) => Decision::ReturnSuccess,
            Outcome::Failure(_) => {
                if verdict == Retryable::Transient && attempts > 1 {
                    Decision::FailExhausted
                } else {
                    Decision::FailOriginal
                }
            },
        }
    }
}

/// The length of the longest prefix of `outcomes` whose members all
/// classify as transient.
pub open spec fn spec_transient_prefix(outcomes: Seq<Outcome>) -> int
    decreases outcomes.len(),
{
    if outcomes.len() == 0 {
        0
    } else if spec_classify(outcomes[0]) is Transient {
        1 + spec_transient_prefix(outcomes.drop_first())
    } else {
        0
    }
}

/// How many attempts an execution makes: one more than the transient
/// prefix it observes, the prefix capped by the retry budget.
pub open spec fn spec_attempts(max_retries: u32, outcomes: Seq<Outcome>) -> int {
    if spec_transient_prefix(outcomes) < max_retries {
        spec_transient_prefix(outcomes) + 1
    } else {
        max_retries + 1
    }
}

/// The terminal result of an execution over `outcomes`: the last attempt's
/// response as it is, or its error — wrapped with the attempt count exactly
/// when the budget was spent on at least one retry and the last verdict was
/// still transient.
pub open spec fn spec_execute(max_retries: u32, outcomes: Seq<Outcome>) -> Result<u16, RetryError> {
    let n = spec_attempts(max_retries, outcomes);
    let last = outcomes[n - 1];
    match last {
        Outcome::Success(status) => Ok(status),
        Outcome::Failure(error) => {
            if spec_classify(last) is Transient && n > 1 {
                Err(RetryError::WithRetries { retries: n as u32, source: error })
            } else {
                Err(RetryError::Error(error))
            }
        },
    }
}

/// What one execution of the retry loop did and returned.
#[derive(Debug, PartialEq, Eq)]
pub struct ExecutionReport {
    /// How many attempts were sent.
    pub attempts: u32,
    /// How many inter-attempt delays were waited out.
    pub waits: u32,
    /// The status code of the final response, or the terminal error.
    pub result: Result<u16, RetryError>,
}

proof fn lemma_transient_prefix_nonneg(outcomes: Seq<Outcome>)
    ensures
        spec_transient_prefix(outcomes) >= 0,
    decreases outcomes.len(),
{
    if outcomes.len() > 0 && spec_classify(outcomes[0]) is Transient {
        lemma_transient_prefix_nonneg(outcomes.drop_first());
    }
}

proof fn lemma_transient_prefix_bound(outcomes: Seq<Outcome>, k: int)
    requires
        0 <= k <= outcomes.len(),
        forall|j: int| 0 <= j < k ==> spec_classify(outcomes[j]) is Transient,
    ensures
        spec_transient_prefix(outcomes) >= k,
        k < outcomes.len() && !(spec_classify(outcomes[k]) is Transient)
            ==> spec_transient_prefix(outcomes) == k,
    decreases k,
{
    if k > 0 {
        let rest = outcomes.drop_first();
        assert(spec_classify(outcomes[0]) is Transient);
        assert forall|j: int| 0 <= j < k - 1 implies spec_classify(rest[j]) is Transient by {
            assert(rest[j] == outcomes[j + 1]);
        }
        lemma_transient_prefix_bound(rest, k - 1);
        if k < outcomes.len() {
            assert(rest[k - 1] == outcomes[k]);
        }
    } else {
        lemma_transient_prefix_nonneg(outcomes);
    }
}

/// Drives one execution of the bounded retry loop. The transport and the
/// inter-attempt sleep live with the caller: `outcomes` holds, in order,
/// what the transport returned for each attempt that was sent, and the
/// report counts the delays the caller was asked to wait out. A request
/// whose body cannot be cloned is rejected before any attempt: replaying
/// a request needs an identical copy of it.
#[verifier::loop_isolation(false)]
pub fn execute(policy: &RetryPolicy, request_cloneable: bool, outcomes: Vec<Outcome>) -> (report: ExecutionReport)
    requires
        policy.max_retries < u32::MAX,
        request_cloneable ==> spec_attempts(policy.max_retries, outcomes@) <= outcomes@.len(),
    ensures
        !request_cloneable ==> report == (ExecutionReport {
            attempts: 0u32,
            waits: 0u32,
            result: Err::<u16, RetryError>(RetryError::NotCloneable),
        }),
        request_cloneable ==> {
            &&& report.attempts == spec_attempts(policy.max_retries, outcomes@)
            &&& report.waits == report.attempts - 1
            &&& report.result == spec_execute(policy.max_retries, outcomes@)
        },
{
    if !request_cloneable {
        return ExecutionReport { attempts: 0, waits: 0, result: Err(RetryError::NotCloneable) };
    }
    let mut outcomes = outcomes;
    let ghost script = outcomes@;
    let mut attempts: u32 = 0;
    let mut waits: u32 = 0;
    loop
        invariant
            request_cloneable,
            policy.max_retries < u32::MAX,
            spec_attempts(policy.max_retries, script) <= script.len(),
            outcomes@ == script,
            0 <= attempts <= policy.max_retries,
            attempts <= script.len(),
            waits == attempts,
            forall|j: int| 0 <= j < attempts ==> spec_classify(script[j]) is Transient,
        decreases policy.max_retries - attempts,
    {
        proof {
            lemma_transient_prefix_bound(script, attempts as int);
            assert(spec_transient_prefix(script) >= attempts);
            assert(spec_attempts(policy.max_retries, script) >= attempts + 1);
        }
        let index = attempts as usize;
        attempts = attempts + 1;
        let decision = decide(policy, attempts, &outcomes[index]);
        if decision == Decision::RetryAfterDelay {
            // The caller waits out policy.delay_ms here before re-sending.
            waits = waits + 1;
        } else {
            proof {
                if spec_classify(script[attempts - 1]) is Transient {
                    assert(attempts > policy.max_retries);
                    lemma_transient_prefix_bound(script, attempts as int);
                    assert(spec_transient_prefix(script) >= attempts);
                } else {
                    lemma_transient_prefix_bound(script, attempts - 1);
                    assert(spec_transient_prefix(script) == attempts - 1);
                }
                assert(spec_attempts(policy.max_retries, script) == attempts);
            }
            let last = outcomes.remove(index);
            let result = match last {
                Outcome::Success(status) => Ok(status),
                Outcome::Failure(error) => {
                    if decision == Decision::FailExhausted {
                        Err(RetryError::WithRetries { retries: attempts, source: error })
                    } else {
                        Err(RetryError::Error(error))
                    }
                },
            };
            return ExecutionReport { attempts, waits, result };
        }
    }
}

/// Every server error and the two throttling statuses are transient;
/// every other client error is fatal; every success or redirection
/// status is no error.
pub proof fn lemma_status_classification(status: u16)
    ensures
        500 <= status <= 599 ==> spec_classify_status(status) is Transient,
        status == 408 || status == 429 ==> spec_classify_status(status) is Transient,
        400 <= status <= 499 && status != 408 && status != 429
            ==> spec_classify_status(status) is Fatal,
        200 <= status <= 399 ==> spec_classify_status(status) is NoError,
{
}

/// Classification is a function of the outcome value alone: equal
/// outcomes always get equal verdicts, however often they are asked.
pub proof fn lemma_classify_deterministic(first: Outcome, second: Outcome)
    requires
        first == second,
    ensures
        spec_classify(first) == spec_classify(second),
{
}

/// An execution always makes at least one attempt and never more than
/// the retry budget plus the first attempt.
pub proof fn lemma_attempts_bounded(max_retries: u32, outcomes: Seq<Outcome>)
    ensures
        1 <= spec_attempts(max_retries, outcomes) <= max_retries + 1,
{
    lemma_transient_prefix_nonneg(outcomes);
}

/// A policy with no retry budget makes exactly one attempt, whatever the
/// verdict; with [`execute`]'s contract, it therefore never waits and
/// never sends a second time.
pub proof fn lemma_zero_retries_single_attempt(outcomes: Seq<Outcome>)
    ensures
        spec_attempts(0, outcomes) == 1,
{
    lemma_attempts_bounded(0, outcomes);
}

} // verus!
