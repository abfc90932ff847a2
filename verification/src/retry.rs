//! Transmitting with retries: a busy channel or a full queue is waited out
//! with a random delay that grows from one attempt to the next.

use std::time::Duration;

use rand::Rng;
use vstd::prelude::*;

use crate::commands::{
    answer_view, from_secs, seconds, transmit_command, transmit_outcome, transmit_reply, transmit_request, Request,
    RequestView, SessionResponse,
};
use crate::dongle::{closed_error, Dongle, DongleView};
use crate::errors::{result_view, ClientError, ClientResult, ErrorView};
use crate::protocol::TxDonePayload;

verus! {

/// When to repeat a transmission, and after which delay. Only a busy channel
/// or a full queue is a reason to. By what factor the lower bound of the delay
/// grows is for the caller to say, who hands the grown bound to
/// [`RetryPause::resume`].
#[derive(Debug, Clone, Copy)]
pub struct RetryPolicy {
    pub max_attempts: u8,
    /// Lower bound of the first delay, in milliseconds.
    pub backoff_ms_min: u32,
    /// Upper bound of the first delay, in milliseconds.
    pub backoff_ms_max: u32,
    /// Absolute limit of the lower bound of a delay, in milliseconds.
    pub backoff_cap_ms: u32,
    /// How long one attempt may take.
    pub per_attempt_timeout: Duration,
    /// Transmit without listening to the channel first.
    pub skip_cad: bool,
}

impl Default for RetryPolicy {
    fn default() -> (r: RetryPolicy)
        ensures
            r.max_attempts == 3,
            r.backoff_ms_min == 20,
            r.backoff_ms_max == 100,
            r.backoff_cap_ms == 500,
            r.per_attempt_timeout == seconds(5),
            !r.skip_cad,
    {
        RetryPolicy {
            max_attempts: 3,
            backoff_ms_min: 20,
            backoff_ms_max: 100,
            backoff_cap_ms: 500,
            per_attempt_timeout: from_secs(5),
            skip_cad: false,
        }
    }
}

/// `rand::Rng::random_range` on `0..=limit`: a number of the range, its ends
/// included. Which one is left to chance, and nothing is claimed of it.
#[verifier::external_body]
fn random_up_to(limit: u32) -> (r: u32)
    ensures
        r <= limit,
{
    rand::rng().random_range(0..=limit)
}

impl RetryPolicy {
    /// How far a delay may be above its lower bound.
    pub open spec fn spread(self) -> nat {
        if self.backoff_ms_max > self.backoff_ms_min {
            (self.backoff_ms_max - self.backoff_ms_min) as nat
        } else {
            0
        }
    }

    /// A lower bound of a delay, within its limit.
    pub open spec fn capped(self, delay_ms: u32) -> u32 {
        if delay_ms < self.backoff_cap_ms {
            delay_ms
        } else {
            self.backoff_cap_ms
        }
    }

    fn cap(&self, delay_ms: u32) -> (r: u32)
        ensures
            r == self.capped(delay_ms),
    {
        if delay_ms < self.backoff_cap_ms {
            delay_ms
        } else {
            self.backoff_cap_ms
        }
    }

    /// How far a delay may be above its lower bound: the limit of the random
    /// part that is drawn.
    pub fn spread_ms(&self) -> (r: u32)
        ensures
            r == self.spread(),
    {
        self.backoff_ms_max.saturating_sub(self.backoff_ms_min)
    }

    /// A random part of a delay, up to [`RetryPolicy::spread_ms`]; none where
    /// that is 0. Which number it is is left to chance: what follows from it
    /// is for [`TxRetry::on_result`] to say, of every number.
    pub fn jitter_ms(&self) -> (r: u32)
        ensures
            r <= self.spread(),
    {
        let spread: u32 = self.spread_ms();
        if spread == 0 {
            return 0;
        }
        random_up_to(spread)
    }
}

/// One attempt of a transmission.
#[derive(Debug)]
pub struct TxAttempt {
    /// Its number, from 1.
    pub attempt: u8,
    /// What came of it.
    pub result: Result<TxDonePayload, ClientError>,
    /// How long it took.
    pub elapsed: Duration,
}

/// One attempt of a transmission, its error as a view.
pub struct AttemptView {
    pub attempt: u8,
    pub result: Result<TxDonePayload, ErrorView>,
    pub elapsed: Duration,
}

impl View for TxAttempt {
    type V = AttemptView;

    open spec fn view(&self) -> AttemptView {
        AttemptView { attempt: self.attempt, result: result_view(self.result), elapsed: self.elapsed }
    }
}

/// The views of a list of attempts.
pub open spec fn attempt_views(s: Seq<TxAttempt>) -> Seq<AttemptView> {
    s.map_values(|a: TxAttempt| a@)
}

/// A transmission that succeeded, with all its attempts.
#[derive(Debug)]
pub struct TxOutcome {
    /// The airtime of the attempt that succeeded.
    pub final_airtime_us: u32,
    /// Every attempt, in order.
    pub attempts: Vec<TxAttempt>,
}

/// A transmission that succeeded, its attempts as a sequence.
pub struct OutcomeView {
    pub final_airtime_us: u32,
    pub attempts: Seq<AttemptView>,
}

impl View for TxOutcome {
    type V = OutcomeView;

    open spec fn view(&self) -> OutcomeView {
        OutcomeView { final_airtime_us: self.final_airtime_us, attempts: attempt_views(self.attempts@) }
    }
}

impl TxOutcome {
    /// How many attempts it took.
    #[must_use]
    pub fn attempts_used(&self) -> (r: u8)
        ensures
            r == self@.attempts.len() % 256,
    {
        (self.attempts.len() % 256) as u8
    }

    /// It took more than one attempt.
    #[must_use]
    pub fn had_retries(&self) -> (r: bool)
        ensures
            r == (self@.attempts.len() > 1),
    {
        self.attempts.len() > 1
    }
}

/// The first attempts of a transmission, numbered from 1, which all failed for
/// a reason to repeat them.
pub open spec fn failed_attempts(attempts: Seq<AttemptView>) -> bool {
    forall|i: int|
        0 <= i < attempts.len() ==> (#[trigger] attempts[i]).attempt == i + 1 && attempts[i].result is Err
            && attempts[i].result->Err_0.retryable()
}

impl OutcomeView {
    /// What a transmission with at most `max` attempts reports: those that
    /// failed, then the one that succeeded.
    pub open spec fn reports(self, max: u8) -> bool {
        &&& 1 <= self.attempts.len() <= max
        &&& failed_attempts(self.attempts.drop_last())
        &&& self.attempts.last().attempt == self.attempts.len()
        &&& self.attempts.last().result is Ok
        &&& self.attempts.last().result->Ok_0.airtime_us == self.final_airtime_us
    }
}

#[derive(Debug)]
struct RetryState {
    request: Request,
    policy: RetryPolicy,
    attempt: u8,
    delay_ms: u32,
    attempts: Vec<TxAttempt>,
}

/// A transmission with retries, while an attempt is under way.
#[derive(Debug)]
pub struct TxRetry {
    state: RetryState,
}

/// A transmission with retries, while a delay is under way.
#[derive(Debug)]
pub struct RetryPause {
    state: RetryState,
}

/// The state of a transmission with retries.
pub struct RetryView {
    /// The request of every attempt.
    pub request: RequestView,
    pub policy: RetryPolicy,
    /// The number of the attempt that is under way or was made last.
    pub attempt: u8,
    /// The lower bound of the next delay.
    pub delay_ms: u32,
    /// The attempts that failed.
    pub attempts: Seq<AttemptView>,
}

impl RetryState {
    spec fn view(&self) -> RetryView {
        RetryView {
            request: self.request@,
            policy: self.policy,
            attempt: self.attempt,
            delay_ms: self.delay_ms,
            attempts: attempt_views(self.attempts@),
        }
    }
}

impl View for TxRetry {
    type V = RetryView;

    closed spec fn view(&self) -> RetryView {
        self.state@
    }
}

impl View for RetryPause {
    type V = RetryView;

    closed spec fn view(&self) -> RetryView {
        self.state@
    }
}

/// What a transmission with retries does next.
#[derive(Debug)]
pub enum RetryStep {
    /// Send the request, and hand its answer to `then`.
    Send { request: Request, then: TxRetry },
    /// Wait, then let `pause` go on.
    Wait { wait_ms: u64, pause: RetryPause },
    /// The transmission is over.
    Done(ClientResult<TxOutcome>),
}

/// What a transmission with retries does next, with views inside.
pub enum RetryStepView {
    Send { request: RequestView, then: RetryView },
    Wait { wait_ms: int, pause: RetryView },
    Done(Result<OutcomeView, ErrorView>),
}

impl View for RetryStep {
    type V = RetryStepView;

    open spec fn view(&self) -> RetryStepView {
        match self {
            RetryStep::Send { request, then } => RetryStepView::Send { request: request@, then: then@ },
            RetryStep::Wait { wait_ms, pause } => RetryStepView::Wait { wait_ms: *wait_ms as int, pause: pause@ },
            RetryStep::Done(Ok(outcome)) => RetryStepView::Done(Ok(outcome@)),
            RetryStep::Done(Err(e)) => RetryStepView::Done(Err(e@)),
        }
    }
}

impl RetryView {
    /// While an attempt is under way, those before it have failed.
    pub open spec fn attempting(self) -> bool {
        &&& 1 <= self.attempt <= self.policy.max_attempts
        &&& self.attempts.len() == self.attempt - 1
        &&& failed_attempts(self.attempts)
    }

    /// While a delay is under way, the last attempt has failed too, and
    /// another is left.
    pub open spec fn pausing(self) -> bool {
        &&& 1 <= self.attempt < self.policy.max_attempts
        &&& self.attempts.len() == self.attempt
        &&& failed_attempts(self.attempts)
    }

    /// The log with the present attempt.
    pub open spec fn log(self, out: Result<TxDonePayload, ErrorView>, elapsed: Duration) -> Seq<AttemptView> {
        self.attempts.push(AttemptView { attempt: self.attempt, result: out, elapsed })
    }

    /// What follows an attempt that came out as `out`: a success ends the
    /// transmission; so does an error that is no reason to repeat it, and the
    /// error of the last attempt. Otherwise a delay follows.
    pub open spec fn after_attempt(
        self,
        out: Result<TxDonePayload, ErrorView>,
        elapsed: Duration,
        jitter: u32,
    ) -> RetryStepView {
        match out {
            Ok(td) => RetryStepView::Done(
                Ok(OutcomeView { final_airtime_us: td.airtime_us, attempts: self.log(out, elapsed) }),
            ),
            Err(e) => if !e.retryable() || self.attempt == self.policy.max_attempts {
                RetryStepView::Done(Err(e))
            } else {
                RetryStepView::Wait {
                    wait_ms: self.delay_ms + jitter,
                    pause: RetryView { attempts: self.log(out, elapsed), ..self },
                }
            },
        }
    }

    /// The next attempt after a delay. `scaled` is the grown lower bound of
    /// the delay that is to follow, before its limit.
    pub open spec fn resumed(self, scaled: u32) -> RetryView {
        RetryView {
            attempt: (self.attempt + 1) as u8,
            delay_ms: self.policy.capped(scaled),
            ..self
        }
    }
}

impl DongleView {
    /// What a transmission with retries starts with.
    pub open spec fn retry_start(self, data: Seq<u8>, policy: RetryPolicy) -> RetryStepView {
        if self.closed {
            RetryStepView::Done(Err(closed_error()))
        } else if policy.max_attempts == 0 {
            RetryStepView::Done(Err(ErrorView::Other("tx_with_retry exited without result"@)))
        } else {
            match transmit_command(data, policy.skip_cad, policy.per_attempt_timeout) {
                Ok(request) => RetryStepView::Send {
                    request,
                    then: RetryView {
                        request,
                        policy,
                        attempt: 1,
                        delay_ms: policy.capped(policy.backoff_ms_min),
                        attempts: Seq::empty(),
                    },
                },
                Err(e) => RetryStepView::Done(Err(e)),
            }
        }
    }
}

impl Dongle {
    /// Transmits a packet, and repeats it as the policy says while the channel
    /// or the queue is busy.
    pub fn tx_with_retry(&mut self, data: &[u8], policy: &RetryPolicy, now_ns: u64) -> (r: RetryStep)
        ensures
            r@ == old(self)@.retry_start(data@, *policy),
            final(self)@ == if policy.max_attempts == 0 {
                old(self)@
            } else {
                old(self)@.touched(now_ns)
            },
    {
        if let Err(e) = self.check_open() {
            return RetryStep::Done(Err(e));
        }
        if policy.max_attempts == 0 {
            return RetryStep::Done(Err(ClientError::Other("tx_with_retry exited without result".to_owned())));
        }
        if let Err(e) = self.begin(now_ns) {
            return RetryStep::Done(Err(e));
        }
        match transmit_request(data, policy.skip_cad, policy.per_attempt_timeout) {
            Ok(request) => {
                let attempts: Vec<TxAttempt> = Vec::new();
                assert(attempt_views(attempts@) =~= Seq::empty());
                let state = RetryState {
                    request: request.copy(),
                    policy: *policy,
                    attempt: 1,
                    delay_ms: policy.cap(policy.backoff_ms_min),
                    attempts,
                };
                RetryStep::Send { request, then: TxRetry { state } }
            },
            Err(e) => RetryStep::Done(Err(e)),
        }
    }
}

impl TxRetry {
    #[verifier::type_invariant]
    spec fn inv(self) -> bool {
        self.state@.attempting()
    }

    /// Takes the answer to the present attempt, which took `elapsed`.
    pub fn on_answer(self, answer: ClientResult<SessionResponse>, elapsed: Duration) -> (r: RetryStep)
        ensures
            self@.attempting(),
            exists|out: Result<TxDonePayload, ErrorView>, jitter: u32|
                #![trigger self@.after_attempt(out, elapsed, jitter)]
                transmit_outcome(answer_view(answer), out) && jitter <= self@.policy.spread() && r@
                    == self@.after_attempt(out, elapsed, jitter),
            r matches RetryStep::Done(Ok(outcome)) ==> outcome@.reports(self@.policy.max_attempts),
    {
        let reply = transmit_reply(answer);
        let jitter: u32 = match &reply {
            Err(e) if e.is_retryable() && self.state.attempt != self.state.policy.max_attempts =>
                self.state.policy.jitter_ms(),
            _ => 0,
        };
        let ghost out = result_view(reply);
        let r = self.on_result(reply, elapsed, jitter);
        assert(r@ == self@.after_attempt(out, elapsed, jitter));
        r
    }

    /// Takes what came of the present attempt, and the random part of the
    /// delay that may follow.
    pub fn on_result(self, reply: ClientResult<TxDonePayload>, elapsed: Duration, jitter: u32) -> (r: RetryStep)
        ensures
            self@.attempting(),
            r@ == self@.after_attempt(result_view(reply), elapsed, jitter),
            r matches RetryStep::Done(Ok(outcome)) ==> outcome@.reports(self@.policy.max_attempts),
    {
        proof {
            use_type_invariant(&self);
        }
        let mut state = self.state;
        let ghost before = state@;
        match reply {
            Ok(td) => {
                state.attempts.push(TxAttempt { attempt: state.attempt, result: Ok(td), elapsed });
                assert(attempt_views(state.attempts@) =~= before.log(Ok(td), elapsed));
                assert(before.log(Ok(td), elapsed).drop_last() =~= before.attempts);
                RetryStep::Done(Ok(TxOutcome { final_airtime_us: td.airtime_us, attempts: state.attempts }))
            },
            Err(e) => {
                if !e.is_retryable() || state.attempt == state.policy.max_attempts {
                    return RetryStep::Done(Err(e));
                }
                state.attempts.push(TxAttempt { attempt: state.attempt, result: Err(e.clone_kind()), elapsed });
                assert(attempt_views(state.attempts@) =~= before.log(Err(e@), elapsed));
                let wait_ms: u64 = state.delay_ms as u64 + jitter as u64;
                RetryStep::Wait { wait_ms, pause: RetryPause { state } }
            },
        }
    }
}

impl RetryPause {
    #[verifier::type_invariant]
    spec fn inv(self) -> bool {
        self.state@.pausing()
    }

    /// The lower bound of the delay that is under way.
    pub fn delay_ms(&self) -> (r: u32)
        ensures
            r == self@.delay_ms,
    {
        self.state.delay_ms
    }

    /// Starts the next attempt at `now_ns`. `scaled` is the lower bound of the
    /// delay that may follow it; the policy's limit applies to it.
    pub fn resume(self, dongle: &mut Dongle, scaled: u32, now_ns: u64) -> (r: RetryStep)
        ensures
            self@.pausing(),
            final(dongle)@ == old(dongle)@.heard(now_ns),
            r@ == (RetryStepView::Send { request: self@.request, then: self@.resumed(scaled) }),
    {
        proof {
            use_type_invariant(&self);
        }
        let mut state = self.state;
        state.attempt = state.attempt + 1;
        state.delay_ms = state.policy.cap(scaled);
        dongle.touch(now_ns);
        RetryStep::Send { request: state.request.copy(), then: TxRetry { state } }
    }
}

// ---------------------------------------------------------------------
// Laws
// ---------------------------------------------------------------------

/// Only a busy channel and a full queue are waited out; every other error
/// ends the transmission at once.
pub proof fn only_busy_is_retried(s: RetryView, e: ErrorView, elapsed: Duration, jitter: u32)
    ensures
        s.after_attempt(Err(e), elapsed, jitter) is Wait ==> e is ChannelBusy || e is Busy,
        !(e is ChannelBusy) && !(e is Busy) ==> s.after_attempt(Err(e), elapsed, jitter) == RetryStepView::Done(Err(e)),
{
}

/// There are no more attempts than the policy allows: a delay is followed by
/// the attempt with the next number, and no delay follows the last attempt.
pub proof fn attempts_are_bounded(
    s: RetryView,
    out: Result<TxDonePayload, ErrorView>,
    elapsed: Duration,
    jitter: u32,
    scaled: u32,
)
    requires
        s.attempting(),
    ensures
        s.after_attempt(out, elapsed, jitter) matches RetryStepView::Wait { pause, .. } ==> {
            &&& pause.pausing()
            &&& pause.resumed(scaled).attempting()
            &&& pause.resumed(scaled).attempt == s.attempt + 1
            &&& pause.resumed(scaled).attempt <= s.policy.max_attempts
            &&& pause.resumed(scaled).request == s.request
        },
{
}

/// Every delay is above its lower bound by no more than the policy's spread,
/// and no lower bound exceeds the limit, the first one included. Where the
/// policy's numbers are in order, the first delay lies between its bounds.
pub proof fn delays_stay_in_bounds(
    d: DongleView,
    data: Seq<u8>,
    policy: RetryPolicy,
    e: ErrorView,
    elapsed: Duration,
    jitter: u32,
    later: RetryView,
    scaled: u32,
)
    requires
        jitter <= policy.spread(),
        later.policy == policy,
    ensures
        d.retry_start(data, policy) matches RetryStepView::Send { then, .. } ==> {
            &&& then.delay_ms <= policy.backoff_cap_ms
            &&& then.after_attempt(Err(e), elapsed, jitter) matches RetryStepView::Wait { wait_ms, .. } ==> {
                &&& wait_ms <= policy.backoff_cap_ms + policy.spread()
                &&& policy.backoff_ms_min <= policy.backoff_cap_ms ==> policy.backoff_ms_min <= wait_ms
                &&& policy.backoff_ms_min <= policy.backoff_ms_max ==> wait_ms <= policy.backoff_ms_max
            }
        },
        later.resumed(scaled).delay_ms <= policy.backoff_cap_ms,
        later.resumed(scaled).after_attempt(Err(e), elapsed, jitter) matches RetryStepView::Wait { wait_ms, .. }
            ==> wait_ms <= policy.backoff_cap_ms + policy.spread(),
{
}

/// What a transmission with retries sends first: on an open radio, where the
/// policy allows an attempt, a packet of 1 to 256 bytes goes out as a `TX` of
/// one flag byte, 1 exactly where the policy says not to listen to the channel
/// first, and then the packet, unchanged. It is the first attempt, with nothing
/// behind it, and may take as long as the policy says.
pub proof fn retry_sends_the_packet(d: DongleView, data: Seq<u8>, policy: RetryPolicy)
    ensures
        d.retry_start(data, policy) is Send <==> !d.closed && policy.max_attempts > 0 && 1 <= data.len() <= 256,
        d.retry_start(data, policy) matches RetryStepView::Send { request, then } ==> {
            &&& request.type_id == 0x04
            &&& request.payload.len() == 1 + data.len()
            &&& policy.skip_cad ==> request.payload[0] == 1
            &&& !policy.skip_cad ==> request.payload[0] == 0
            &&& forall|i: int| 0 <= i < data.len() ==> #[trigger] request.payload[1 + i] == data[i]
            &&& request.timeout == policy.per_attempt_timeout
            &&& then.request == request
            &&& then.policy == policy
            &&& then.attempt == 1
            &&& then.attempts.len() == 0
            &&& then.delay_ms <= policy.backoff_ms_min
            &&& then.delay_ms <= policy.backoff_cap_ms
            &&& then.delay_ms == policy.backoff_ms_min || then.delay_ms == policy.backoff_cap_ms
        },
        d.closed ==> d.retry_start(data, policy) == RetryStepView::Done(
            Err(ErrorView::TransportClosed("dongle closed"@)),
        ),
        !d.closed && policy.max_attempts == 0 ==> d.retry_start(data, policy) == RetryStepView::Done(
            Err(ErrorView::Other("tx_with_retry exited without result"@)),
        ),
        !d.closed && policy.max_attempts > 0 && !(1 <= data.len() <= 256) ==> d.retry_start(data, policy)
            == RetryStepView::Done(Err(ErrorView::Length)),
{
}

/// A busy channel or a full queue is waited out as long as an attempt is left;
/// the last attempt's error, and every other error, is what the caller is told.
/// The wait is the lower bound of the delay and the random part.
pub proof fn busy_is_waited_out(s: RetryView, e: ErrorView, elapsed: Duration, jitter: u32)
    requires
        s.attempting(),
    ensures
        (e is ChannelBusy || e is Busy) && s.attempt < s.policy.max_attempts <==> s.after_attempt(
            Err(e),
            elapsed,
            jitter,
        ) is Wait,
        !(s.after_attempt(Err(e), elapsed, jitter) is Wait) ==> s.after_attempt(Err(e), elapsed, jitter)
            == RetryStepView::Done(Err(e)),
        s.after_attempt(Err(e), elapsed, jitter) matches RetryStepView::Wait { wait_ms, pause } ==> {
            &&& wait_ms == s.delay_ms + jitter
            &&& pause.request == s.request
            &&& pause.policy == s.policy
            &&& pause.attempt == s.attempt
            &&& pause.delay_ms == s.delay_ms
            &&& pause.attempts.len() == s.attempts.len() + 1
            &&& forall|i: int| 0 <= i < s.attempts.len() ==> #[trigger] pause.attempts[i] == s.attempts[i]
            &&& pause.attempts.last().attempt == s.attempt
            &&& pause.attempts.last().result == Err::<TxDonePayload, ErrorView>(e)
            &&& pause.attempts.last().elapsed == elapsed
        },
{
}

/// A success ends the transmission: the caller gets the airtime of the attempt
/// that succeeded, and every attempt in order, each with its number, what came
/// of it and how long it took.
pub proof fn success_reports_every_attempt(s: RetryView, td: TxDonePayload, elapsed: Duration, jitter: u32)
    ensures
        s.after_attempt(Ok(td), elapsed, jitter) matches RetryStepView::Done(Ok(outcome)) && {
            &&& outcome.final_airtime_us == td.airtime_us
            &&& outcome.attempts.len() == s.attempts.len() + 1
            &&& forall|i: int| 0 <= i < s.attempts.len() ==> #[trigger] outcome.attempts[i] == s.attempts[i]
            &&& outcome.attempts.last().attempt == s.attempt
            &&& outcome.attempts.last().result == Ok::<TxDonePayload, ErrorView>(td)
            &&& outcome.attempts.last().elapsed == elapsed
        },
{
}

/// The attempt after a delay sends the same request, under the next number;
/// the lower bound of the delay that may follow is the grown one or the limit,
/// whichever is smaller; and what was logged stays logged.
pub proof fn next_attempt_sends_the_same(s: RetryView, scaled: u32)
    requires
        s.pausing(),
    ensures
        s.resumed(scaled).request == s.request,
        s.resumed(scaled).policy == s.policy,
        s.resumed(scaled).attempt == s.attempt + 1,
        s.resumed(scaled).attempts == s.attempts,
        s.resumed(scaled).delay_ms <= scaled,
        s.resumed(scaled).delay_ms <= s.policy.backoff_cap_ms,
        s.resumed(scaled).delay_ms == scaled || s.resumed(scaled).delay_ms == s.policy.backoff_cap_ms,
{
}

/// The random part of a delay reaches from the lower bound of the first delay
/// to its upper bound, where there is anything between them.
pub proof fn spread_is_between_the_bounds(policy: RetryPolicy)
    ensures
        policy.backoff_ms_min <= policy.backoff_ms_max ==> policy.backoff_ms_min + policy.spread()
            == policy.backoff_ms_max,
        policy.backoff_ms_max <= policy.backoff_ms_min ==> policy.spread() == 0,
{
}

/// What contracts say of a step is what the step is.
pub proof fn views_keep_steps(r: RetryStep)
    ensures
        r matches RetryStep::Send { request, then } ==> r@ == (RetryStepView::Send { request: request@, then: then@ }),
        r matches RetryStep::Wait { wait_ms, pause } ==> r@ == (RetryStepView::Wait {
            wait_ms: wait_ms as int,
            pause: pause@,
        }),
        r matches RetryStep::Done(Ok(outcome)) ==> r@ == RetryStepView::Done(Ok(outcome@)),
        r matches RetryStep::Done(Err(e)) ==> r@ == RetryStepView::Done(Err(e@)),
{
}

/// What a transmission reports: one attempt at least and no more than were
/// allowed, numbered from 1; all but the last failed, each for a busy channel
/// or a full queue; the last one succeeded, and its airtime is the one that is
/// reported.
pub proof fn report_lists_every_attempt(outcome: OutcomeView, max: u8, i: int)
    requires
        outcome.reports(max),
    ensures
        1 <= outcome.attempts.len() <= max,
        0 <= i < outcome.attempts.len() ==> outcome.attempts[i].attempt == i + 1,
        0 <= i < outcome.attempts.len() - 1 ==> (outcome.attempts[i].result matches Err(e) && (e is ChannelBusy || e
            is Busy)),
        outcome.attempts[outcome.attempts.len() - 1].result matches Ok(td) && td.airtime_us == outcome.final_airtime_us,
{
    let failed = outcome.attempts.drop_last();
    if 0 <= i < failed.len() {
        assert(failed[i] == outcome.attempts[i]);
    }
}

/// While a transmission is under way, its log holds the attempts that failed,
/// in order: all before the present one while it is made, and that one too
/// while a delay follows it, which it does only where another is left.
pub proof fn log_holds_the_failed_attempts(s: RetryView, i: int)
    ensures
        s.attempting() || s.pausing() ==> 1 <= s.attempt <= s.policy.max_attempts,
        s.attempting() ==> s.attempts.len() == s.attempt - 1,
        s.pausing() ==> s.attempts.len() == s.attempt && s.attempt < s.policy.max_attempts,
        (s.attempting() || s.pausing()) && 0 <= i < s.attempts.len() ==> s.attempts[i].attempt == i + 1 && (
        s.attempts[i].result matches Err(e) && (e is ChannelBusy || e is Busy)),
        s.policy.max_attempts >= 1 && s.attempt == 1 && s.attempts.len() == 0 ==> s.attempting(),
{
}

} // verus!
