//! The retry pipeline: what to do after each response, and when to give up.
//!
//! The pipeline is a state machine that does no I/O itself. A driver starts
//! with [`Client::process_request`] and then does what each [`Step`] says:
//! it sends the request and reports what came back to
//! [`Client::process_response`], or it sleeps and then calls
//! [`Client::resume`], until a step is [`Step::Done`].
use crate::client::{Client, ClientView};
use crate::error::{Error, ErrorView};
use crate::response::{
    Response, ResponseView, ACCEPTED, BAD_REQUEST, CREATED, FORBIDDEN, NOT_FOUND, NO_CONTENT, OK,
    TOO_MANY_REQUESTS, UNAUTHORIZED,
};
use crate::text::{
    all_visible, ascii_text, concat3, debug_text, decimal_digits, decimal_string, decimal_value,
    parse_decimal, quoted, visible_text,
};
use reqwest::Error as TransportError;
use vstd::prelude::*;
use vstd::string::StringExecFns;

verus! {

/// A request that is to be sent: the number of throttled attempts before it.
#[derive(Clone, Copy, Debug, PartialEq, Eq, Structural)]
pub struct Attempt {
    pub retries: usize,
}

/// A pause that the server asked for, after the attempt numbered `retries`.
#[derive(Clone, Copy, Debug, PartialEq, Eq, Structural)]
pub struct Backoff {
    pub seconds: u64,
    pub retries: usize,
}

/// What the driver does next.
#[derive(Debug)]
pub enum Step {
    /// Send the request, and report the outcome with this attempt.
    Send(Attempt),
    /// Sleep for the seconds of the pause, then resume with it.
    Wait(Backoff),
    /// The call is over: the response of a success status, or the failure.
    Done(Result<Response, Error>),
}

/// A [`Step`] over views.
pub enum StepView {
    Send(Attempt),
    Wait(Backoff),
    Done(Result<ResponseView, ErrorView>),
}

impl View for Step {
    type V = StepView;

    open spec fn view(&self) -> StepView {
        match self {
            Step::Send(attempt) => StepView::Send(*attempt),
            Step::Wait(backoff) => StepView::Wait(*backoff),
            Step::Done(Ok(response)) => StepView::Done(Ok(response@)),
            Step::Done(Err(e)) => StepView::Done(Err(e@)),
        }
    }
}

/// What one attempt met: a response, or the transport's error.
pub type Outcome = Result<ResponseView, TransportError>;

/// The view of what one attempt met.
pub open spec fn outcome_view(outcome: Result<Response, TransportError>) -> Outcome {
    match outcome {
        Ok(response) => Ok(response@),
        Err(failure) => Err(failure),
    }
}

/// The statuses that end a call in success.
pub open spec fn is_success(status: u16) -> bool {
    status == OK || status == CREATED || status == NO_CONTENT || status == ACCEPTED
}

/// The seconds that a `Retry-After` header asks for: the header must be
/// there, be readable as text and be a decimal numeral.
pub open spec fn header_wait(retry_after: Option<Seq<u8>>) -> Option<u64> {
    match retry_after {
        Some(bytes) => if all_visible(bytes) {
            decimal_value(bytes)
        } else {
            None
        },
        None => None,
    }
}

/// Why a throttled response without a usable `Retry-After` ends the call.
pub open spec fn unusable_header_reason(retry_after: Option<Seq<u8>>) -> Seq<char> {
    match retry_after {
        None => "Request got throttled without retry-after header"@,
        Some(bytes) => if !all_visible(bytes) {
            "Request got throttled with retry-after header containing non-visible ASCII chars"@
        } else {
            "Request was throttled and cannot parse retry after "@ + quoted(ascii_text(bytes))
        },
    }
}

/// What a throttled call reports when retries are off: the body, or a plain
/// sentence where the body could not be read.
pub open spec fn retries_off_reason(response: ResponseView) -> Seq<char> {
    match response.body {
        Ok(t) => t,
        Err(_) => "Request has been throttled, but retries are disabled"@,
    }
}

/// Why a wait longer than the accepted one ends the call.
pub open spec fn wait_too_long_reason(seconds: u64, max_wait_retry: u64) -> Seq<char> {
    "Wait time for retry "@ + decimal_digits(seconds as nat)
        + " exceeds max accepted wait time per retry "@ + decimal_digits(max_wait_retry as nat)
}

/// The seconds to wait before the next attempt at a throttled request, or
/// the failure that ends the call in place of a wait.
pub open spec fn time_to_wait(response: ResponseView, max_wait_retry: u64, should_retry: bool)
    -> Result<u64, ErrorView> {
    match header_wait(response.retry_after) {
        None => Err(
            ErrorView::RateLimitedWithoutRetry(unusable_header_reason(response.retry_after)),
        ),
        Some(seconds) => if !should_retry {
            Err(ErrorView::RateLimited(seconds, retries_off_reason(response)))
        } else if seconds > max_wait_retry {
            Err(ErrorView::RateLimited(seconds, wait_too_long_reason(seconds, max_wait_retry)))
        } else {
            Ok(seconds)
        },
    }
}

/// A result of [`parse_time_to_wait`] over views.
pub open spec fn wait_view(wait: Result<u64, Error>) -> Result<u64, ErrorView> {
    match wait {
        Ok(seconds) => Ok(seconds),
        Err(e) => Err(e@),
    }
}

/// Reads from a throttled response how long to wait. Fails where the header
/// is missing or unreadable, where retries are off, and where the wait is
/// longer than `max_wait_retry`.
pub fn parse_time_to_wait(response: Response, max_wait_retry: u64, should_retry: bool) -> (wait:
    Result<u64, Error>)
    ensures
        wait_view(wait) == time_to_wait(response@, max_wait_retry, should_retry),
{
    let time_to_wait: u64 = match &response.retry_after {
        Some(header) => match visible_text(header.as_slice()) {
            Some(header_text) => match parse_decimal(header.as_slice()) {
                Some(seconds) => seconds,
                None => {
                    let mut reason = String::from_str(
                        "Request was throttled and cannot parse retry after ",
                    );
                    reason.append(debug_text(header_text.as_str()).as_str());
                    return Err(Error::RateLimitedWithoutRetry(reason));
                },
            },
            None => {
                return Err(
                    Error::RateLimitedWithoutRetry(
                        String::from_str(
                            "Request got throttled with retry-after header containing non-visible ASCII chars",
                        ),
                    ),
                );
            },
        },
        None => {
            return Err(
                Error::RateLimitedWithoutRetry(
                    String::from_str("Request got throttled without retry-after header"),
                ),
            );
        },
    };
    if !should_retry {
        let reason = match response.body {
            Ok(t) => t,
            Err(_) => String::from_str("Request has been throttled, but retries are disabled"),
        };
        return Err(Error::RateLimited(time_to_wait, reason));
    }
    if time_to_wait > max_wait_retry {
        let mut reason = concat3(
            "Wait time for retry ",
            decimal_string(time_to_wait).as_str(),
            " exceeds max accepted wait time per retry ",
        );
        reason.append(decimal_string(max_wait_retry).as_str());
        return Err(Error::RateLimited(time_to_wait, reason));
    }
    Ok(time_to_wait)
}

/// The step that opens every call: the first attempt.
pub open spec fn first_step() -> StepView {
    StepView::Send(Attempt { retries: 0 })
}

/// The failure that a status other than success or throttling ends the call
/// in.
pub open spec fn status_failure(response: ResponseView) -> ErrorView {
    if response.status == UNAUTHORIZED {
        ErrorView::Unauthorized(response.text_or_empty())
    } else if response.status == FORBIDDEN {
        ErrorView::Forbidden
    } else if response.status == BAD_REQUEST {
        ErrorView::ApiError(response.status, response.text_or_empty())
    } else if response.status == NOT_FOUND {
        ErrorView::NotFound
    } else {
        ErrorView::UnexpectedStatusCode(response.status, response.text_or_empty())
    }
}

/// The step after an attempt. A transport failure ends the call, and so does
/// every response but a throttled one with an acceptable wait.
pub open spec fn verdict(client: ClientView, attempt: Attempt, outcome: Outcome) -> StepView {
    match outcome {
        Err(failure) => StepView::Done(Err(ErrorView::Reqwest(failure))),
        Ok(response) => if is_success(response.status) {
            StepView::Done(Ok(response))
        } else if response.status == TOO_MANY_REQUESTS {
            match time_to_wait(response, client.max_wait_retry, client.retry) {
                Ok(seconds) => StepView::Wait(Backoff { seconds, retries: attempt.retries }),
                Err(e) => StepView::Done(Err(e)),
            }
        } else {
            StepView::Done(Err(status_failure(response)))
        },
    }
}

/// The step after a pause: the next attempt, unless the retries are used up.
pub open spec fn after_wait(client: ClientView, backoff: Backoff) -> StepView {
    if backoff.retries >= client.max_retries {
        StepView::Done(Err(ErrorView::RateLimitedMaxRetriesReached))
    } else {
        StepView::Send(Attempt { retries: (backoff.retries + 1) as usize })
    }
}

fn failure_of(response: Response) -> (e: Error)
    ensures
        e@ == status_failure(response@),
{
    let status: u16 = response.status;
    if status == UNAUTHORIZED {
        Error::Unauthorized(response.text_or_empty())
    } else if status == FORBIDDEN {
        Error::Forbidden
    } else if status == BAD_REQUEST {
        Error::ApiError(status, response.text_or_empty())
    } else if status == NOT_FOUND {
        Error::NotFound
    } else {
        Error::UnexpectedStatusCode(status, response.text_or_empty())
    }
}

impl Client {
    /// Opens a call: the first attempt is to be sent.
    pub fn process_request(&self) -> (step: Step)
        ensures
            step@ == first_step(),
    {
        Step::Send(Attempt { retries: 0 })
    }

    /// Decides what follows an attempt, given the response or the
    /// transport's error.
    pub fn process_response(
        &self,
        attempt: Attempt,
        outcome: Result<Response, TransportError>,
    ) -> (step: Step)
        ensures
            step@ == verdict(self@, attempt, outcome_view(outcome)),
    {
        match outcome {
            Err(failure) => Step::Done(Err(Error::Reqwest(failure))),
            Ok(response) => {
                let status: u16 = response.status;
                if status == OK || status == CREATED || status == NO_CONTENT || status
                    == ACCEPTED {
                    Step::Done(Ok(response))
                } else if status == TOO_MANY_REQUESTS {
                    match parse_time_to_wait(
                        response,
                        *self.get_max_wait_retry(),
                        *self.get_retry(),
                    ) {
                        Ok(seconds) => Step::Wait(Backoff { seconds, retries: attempt.retries }),
                        Err(e) => Step::Done(Err(e)),
                    }
                } else {
                    Step::Done(Err(failure_of(response)))
                }
            },
        }
    }

    /// Decides what follows a pause: the next attempt, or the end of the
    /// call where no retry is left.
    pub fn resume(&self, backoff: Backoff) -> (step: Step)
        ensures
            step@ == after_wait(self@, backoff),
    {
        if backoff.retries >= *self.get_max_retries() {
            Step::Done(Err(Error::RateLimitedMaxRetriesReached))
        } else {
            Step::Send(Attempt { retries: backoff.retries + 1 })
        }
    }
}

/// What a whole call amounts to: how many times the request was sent, the
/// pauses in their order, and how the call ended; `None` where the outcomes
/// at hand ran out before it did.
pub struct Trace {
    pub attempts: nat,
    pub waits: Seq<u64>,
    pub result: Option<Result<ResponseView, ErrorView>>,
}

/// A trace with one more attempt at its start.
pub open spec fn sent_then(rest: Trace) -> Trace {
    Trace { attempts: rest.attempts + 1, waits: rest.waits, result: rest.result }
}

/// A trace with one more pause at its start.
pub open spec fn waited_then(seconds: u64, rest: Trace) -> Trace {
    Trace { attempts: rest.attempts, waits: seq![seconds] + rest.waits, result: rest.result }
}

/// The call from `step` on, driven as the module says, where the attempts
/// meet `outcomes` in turn.
pub open spec fn run(client: ClientView, step: StepView, outcomes: Seq<Outcome>) -> Trace
    decreases outcomes.len(), (if step is Wait { 1nat } else { 0nat }),
{
    match step {
        StepView::Done(result) => Trace {
            attempts: 0,
            waits: Seq::empty(),
            result: Some(result),
        },
        StepView::Send(attempt) => if outcomes.len() == 0 {
            Trace { attempts: 0, waits: Seq::empty(), result: None }
        } else {
            sent_then(
                run(client, verdict(client, attempt, outcomes.first()), outcomes.drop_first()),
            )
        },
        StepView::Wait(backoff) => waited_then(
            backoff.seconds,
            run(client, after_wait(client, backoff), outcomes),
        ),
    }
}

/// Whether an attempt met a throttled response whose `Retry-After` is a
/// numeral within the wait that the client accepts.
pub open spec fn throttled_within_bounds(client: ClientView, outcome: Outcome) -> bool {
    match outcome {
        Ok(response) => response.status == TOO_MANY_REQUESTS && match header_wait(
            response.retry_after,
        ) {
            Some(seconds) => seconds <= client.max_wait_retry,
            None => false,
        },
        Err(_) => false,
    }
}

/// The seconds that the response of an attempt asks for.
pub open spec fn asked_wait(outcome: Outcome) -> u64 {
    header_wait(outcome->Ok_0.retry_after)->0
}

proof fn lemma_throttled_from(client: ClientView, outcomes: Seq<Outcome>, k: nat)
    requires
        client.retry,
        k <= client.max_retries,
        outcomes.len() > client.max_retries,
        forall|i: int| 0 <= i < outcomes.len() ==> throttled_within_bounds(client, outcomes[i]),
    ensures
        run(client, StepView::Send(Attempt { retries: k as usize }), outcomes.skip(k as int))
            == (Trace {
            attempts: (client.max_retries - k + 1) as nat,
            waits: Seq::new(
                (client.max_retries - k + 1) as nat,
                |i: int| asked_wait(outcomes[k + i]),
            ),
            result: Some(Err(ErrorView::RateLimitedMaxRetriesReached)),
        }),
    decreases client.max_retries - k,
{
    reveal_with_fuel(run, 3);
    let left = outcomes.skip(k as int);
    let attempt = Attempt { retries: k as usize };
    let backoff = Backoff { seconds: asked_wait(outcomes[k as int]), retries: k as usize };
    assert(left.first() == outcomes[k as int]);
    assert(throttled_within_bounds(client, outcomes[k as int]));
    assert(verdict(client, attempt, left.first()) == StepView::Wait(backoff));
    assert(left.drop_first() == outcomes.skip(k as int + 1));
    let after = run(client, after_wait(client, backoff), left.drop_first());
    assert(run(client, StepView::Send(attempt), left) == sent_then(
        waited_then(backoff.seconds, after),
    ));
    let expected = Seq::new(
        (client.max_retries - k + 1) as nat,
        |i: int| asked_wait(outcomes[k + i]),
    );
    if k < client.max_retries {
        lemma_throttled_from(client, outcomes, k + 1);
        let later = Seq::new(
            (client.max_retries - k) as nat,
            |i: int| asked_wait(outcomes[k + 1 + i]),
        );
        assert(after.waits == later);
        assert(seq![backoff.seconds] + later =~= expected);
    } else {
        assert(after.waits == Seq::<u64>::empty());
        assert(seq![backoff.seconds] + after.waits =~= expected);
    }
}

/// A request that is throttled every time, each time with a `Retry-After`
/// that the client accepts, is sent once and then once more for each of the
/// `max_retries` retries, with the asked pause after every attempt, and then
/// fails because the retries are used up.
pub proof fn lemma_throttled_until_retries_used_up(client: ClientView, outcomes: Seq<Outcome>)
    requires
        client.retry,
        outcomes.len() > client.max_retries,
        forall|i: int| 0 <= i < outcomes.len() ==> throttled_within_bounds(client, outcomes[i]),
    ensures
        run(client, first_step(), outcomes).attempts == client.max_retries + 1,
        run(client, first_step(), outcomes).waits == Seq::new(
            (client.max_retries + 1) as nat,
            |i: int| asked_wait(outcomes[i]),
        ),
        run(client, first_step(), outcomes).result == Some(
            Err::<ResponseView, ErrorView>(ErrorView::RateLimitedMaxRetriesReached),
        ),
{
    lemma_throttled_from(client, outcomes, 0);
    assert(outcomes.skip(0) == outcomes);
    assert(Seq::new((client.max_retries + 1) as nat, |i: int| asked_wait(outcomes[0 + i]))
        =~= Seq::new((client.max_retries + 1) as nat, |i: int| asked_wait(outcomes[i])));
}

/// With retries on, a throttled response that asks for `seconds` makes the
/// pipeline pause for exactly `seconds` where that is within the accepted
/// wait, and the next attempt follows the pause while a retry is left. Where
/// it is longer, the call ends at once in a rate-limit failure that carries
/// the seconds, and there is no pause.
pub proof fn lemma_wait_is_bounded(
    client: ClientView,
    attempt: Attempt,
    response: ResponseView,
    seconds: u64,
    later: Seq<Outcome>,
)
    requires
        client.retry,
        response.status == TOO_MANY_REQUESTS,
        header_wait(response.retry_after) == Some(seconds),
    ensures
        seconds <= client.max_wait_retry ==> {
            let backoff = Backoff { seconds, retries: attempt.retries };
            &&& verdict(client, attempt, Ok(response)) == StepView::Wait(backoff)
            &&& attempt.retries < client.max_retries ==> after_wait(client, backoff)
                == StepView::Send(Attempt { retries: (attempt.retries + 1) as usize })
            &&& run(client, StepView::Send(attempt), seq![Ok(response)] + later).waits.len() > 0
            &&& run(client, StepView::Send(attempt), seq![Ok(response)] + later).waits[0]
                == seconds
        },
        seconds > client.max_wait_retry ==> {
            let failure = Err::<ResponseView, ErrorView>(
                ErrorView::RateLimited(
                    seconds,
                    wait_too_long_reason(seconds, client.max_wait_retry),
                ),
            );
            &&& verdict(client, attempt, Ok(response)) == StepView::Done(failure)
            &&& run(client, StepView::Send(attempt), seq![Ok(response)] + later) == (Trace {
                attempts: 1,
                waits: Seq::empty(),
                result: Some(failure),
            })
        },
{
    reveal_with_fuel(run, 3);
    let outcomes = seq![Ok::<ResponseView, TransportError>(response)] + later;
    assert(outcomes.first() == Ok::<ResponseView, TransportError>(response));
}

/// With retries off, a throttled response with a readable `Retry-After`
/// ends the call on the first attempt, without a pause, in a rate-limit
/// failure that carries the seconds asked for and the server's message.
pub proof fn lemma_no_retry_when_disabled(
    client: ClientView,
    response: ResponseView,
    seconds: u64,
    later: Seq<Outcome>,
)
    requires
        !client.retry,
        response.status == TOO_MANY_REQUESTS,
        header_wait(response.retry_after) == Some(seconds),
    ensures
        run(client, first_step(), seq![Ok(response)] + later) == (Trace {
            attempts: 1,
            waits: Seq::empty(),
            result: Some(Err(ErrorView::RateLimited(seconds, retries_off_reason(response)))),
        }),
        response.body matches Ok(message) ==> retries_off_reason(response) == message,
{
    reveal_with_fuel(run, 3);
    let outcomes = seq![Ok::<ResponseView, TransportError>(response)] + later;
    assert(outcomes.first() == Ok::<ResponseView, TransportError>(response));
}

/// Whatever the body, the settings and the attempt: 404 ends the call in
/// `NotFound`, 403 in `Forbidden`, and 401 in `Unauthorized` with the body's
/// text.
pub proof fn lemma_status_decides(client: ClientView, attempt: Attempt, response: ResponseView)
    ensures
        response.status == NOT_FOUND ==> verdict(client, attempt, Ok(response)) == StepView::Done(
            Err(ErrorView::NotFound),
        ),
        response.status == FORBIDDEN ==> verdict(client, attempt, Ok(response)) == StepView::Done(
            Err(ErrorView::Forbidden),
        ),
        response.status == UNAUTHORIZED ==> verdict(client, attempt, Ok(response))
            == StepView::Done(Err(ErrorView::Unauthorized(response.text_or_empty()))),
        response.body matches Ok(message) ==> response.text_or_empty() == message,
{
}

/// A throttled response whose `Retry-After` is missing, unreadable or not a
/// numeral ends the call in a rate-limit failure: the pipeline never pauses
/// for a time that it could not read.
pub proof fn lemma_unreadable_wait_ends_call(
    client: ClientView,
    attempt: Attempt,
    response: ResponseView,
    later: Seq<Outcome>,
)
    requires
        response.status == TOO_MANY_REQUESTS,
        header_wait(response.retry_after) is None,
    ensures
        verdict(client, attempt, Ok(response)) == StepView::Done(
            Err(ErrorView::RateLimitedWithoutRetry(unusable_header_reason(response.retry_after))),
        ),
        run(client, StepView::Send(attempt), seq![Ok(response)] + later) == (Trace {
            attempts: 1,
            waits: Seq::empty(),
            result: Some(
                Err(
                    ErrorView::RateLimitedWithoutRetry(
                        unusable_header_reason(response.retry_after),
                    ),
                ),
            ),
        }),
{
    reveal_with_fuel(run, 3);
    let outcomes = seq![Ok::<ResponseView, TransportError>(response)] + later;
    assert(outcomes.first() == Ok::<ResponseView, TransportError>(response));
}

/// A failure of the transport ends the call at once, whatever the settings
/// and the attempt: it is handed on as it is, and nothing is sent again.
pub proof fn lemma_transport_failure_is_final(
    client: ClientView,
    attempt: Attempt,
    failure: TransportError,
    later: Seq<Outcome>,
)
    ensures
        verdict(client, attempt, Err(failure)) == StepView::Done(Err(ErrorView::Reqwest(failure))),
        run(client, StepView::Send(attempt), seq![Err(failure)] + later) == (Trace {
            attempts: 1,
            waits: Seq::empty(),
            result: Some(Err(ErrorView::Reqwest(failure))),
        }),
{
    reveal_with_fuel(run, 3);
    let outcomes = seq![Err::<ResponseView, TransportError>(failure)] + later;
    assert(outcomes.first() == Err::<ResponseView, TransportError>(failure));
}

/// A response with a success status ends the call at once, and the call's
/// result is that response, unchanged.
pub proof fn lemma_success_ends_call(
    client: ClientView,
    attempt: Attempt,
    response: ResponseView,
    later: Seq<Outcome>,
)
    requires
        is_success(response.status),
    ensures
        verdict(client, attempt, Ok(response)) == StepView::Done(Ok(response)),
        run(client, StepView::Send(attempt), seq![Ok(response)] + later) == (Trace {
            attempts: 1,
            waits: Seq::empty(),
            result: Some(Ok(response)),
        }),
{
    reveal_with_fuel(run, 3);
    let outcomes = seq![Ok::<ResponseView, TransportError>(response)] + later;
    assert(outcomes.first() == Ok::<ResponseView, TransportError>(response));
}

/// Every call is bounded, whatever the server answers: from the attempt
/// that follows `retries` throttled ones, the request is sent at most once
/// and then once for each retry that is left; no pause is longer than the
/// wait that the client accepts; and every pause follows an attempt.
pub proof fn lemma_call_is_bounded(client: ClientView, attempt: Attempt, outcomes: Seq<Outcome>)
    requires
        attempt.retries <= client.max_retries,
    ensures
        run(client, StepView::Send(attempt), outcomes).attempts <= client.max_retries
            - attempt.retries + 1,
        run(client, StepView::Send(attempt), outcomes).attempts <= outcomes.len(),
        run(client, StepView::Send(attempt), outcomes).waits.len() <= run(
            client,
            StepView::Send(attempt),
            outcomes,
        ).attempts,
        forall|i: int|
            0 <= i < run(client, StepView::Send(attempt), outcomes).waits.len() ==> (#[trigger] run(
                client,
                StepView::Send(attempt),
                outcomes,
            ).waits[i]) <= client.max_wait_retry,
    decreases outcomes.len(),
{
    reveal_with_fuel(run, 3);
    if outcomes.len() > 0 {
        match verdict(client, attempt, outcomes.first()) {
            StepView::Wait(backoff) => {
                assert(backoff.seconds <= client.max_wait_retry);
                match after_wait(client, backoff) {
                    StepView::Send(next) => {
                        lemma_call_is_bounded(client, next, outcomes.drop_first());
                        let rest = run(client, StepView::Send(next), outcomes.drop_first());
                        let all = run(client, StepView::Send(attempt), outcomes);
                        assert(all.waits == seq![backoff.seconds] + rest.waits);
                        assert forall|i: int| 0 <= i < all.waits.len() implies (
                        #[trigger] all.waits[i]) <= client.max_wait_retry by {
                            if i > 0 {
                                assert(all.waits[i] == rest.waits[i - 1]);
                            }
                        }
                    },
                    _ => {},
                }
            },
            _ => {},
        }
    }
}

/// A whole call sends the request at most `max_retries + 1` times.
pub proof fn lemma_attempts_are_bounded(client: ClientView, outcomes: Seq<Outcome>)
    ensures
        run(client, first_step(), outcomes).attempts <= client.max_retries + 1,
{
    lemma_call_is_bounded(client, Attempt { retries: 0 }, outcomes);
}

proof fn lemma_throttled_then_from(client: ClientView, outcomes: Seq<Outcome>, k: nat, j: nat)
    requires
        client.retry,
        j <= k <= client.max_retries,
        k < outcomes.len(),
        forall|i: int| 0 <= i < k ==> throttled_within_bounds(client, outcomes[i]),
        verdict(client, Attempt { retries: k as usize }, outcomes[k as int]) is Done,
    ensures
        run(client, StepView::Send(Attempt { retries: j as usize }), outcomes.skip(j as int))
            == (Trace {
            attempts: (k - j + 1) as nat,
            waits: Seq::new((k - j) as nat, |i: int| asked_wait(outcomes[j + i])),
            result: Some(
                verdict(client, Attempt { retries: k as usize }, outcomes[k as int])->Done_0,
            ),
        }),
    decreases k - j,
{
    reveal_with_fuel(run, 3);
    let left = outcomes.skip(j as int);
    let attempt = Attempt { retries: j as usize };
    assert(left.first() == outcomes[j as int]);
    let expected = Seq::new((k - j) as nat, |i: int| asked_wait(outcomes[j + i]));
    if j < k {
        let backoff = Backoff { seconds: asked_wait(outcomes[j as int]), retries: j as usize };
        assert(throttled_within_bounds(client, outcomes[j as int]));
        assert(verdict(client, attempt, left.first()) == StepView::Wait(backoff));
        assert(left.drop_first() == outcomes.skip(j as int + 1));
        lemma_throttled_then_from(client, outcomes, k, j + 1);
        let later = Seq::new((k - j - 1) as nat, |i: int| asked_wait(outcomes[j + 1 + i]));
        assert(seq![backoff.seconds] + later =~= expected);
    } else {
        assert(expected =~= Seq::<u64>::empty());
    }
}

/// A request that is throttled `k` times, each time with a `Retry-After`
/// that the client accepts, and then meets an outcome that ends the call, is
/// sent `k + 1` times, with the asked pause after each of the first `k`
/// attempts, and ends as that last outcome decides. This holds while `k` is
/// within the retries of the client.
pub proof fn lemma_throttled_then_answered(client: ClientView, outcomes: Seq<Outcome>, k: nat)
    requires
        client.retry,
        k <= client.max_retries,
        k < outcomes.len(),
        forall|i: int| 0 <= i < k ==> throttled_within_bounds(client, outcomes[i]),
        verdict(client, Attempt { retries: k as usize }, outcomes[k as int]) is Done,
    ensures
        run(client, first_step(), outcomes) == (Trace {
            attempts: k + 1,
            waits: Seq::new(k, |i: int| asked_wait(outcomes[i])),
            result: Some(
                verdict(client, Attempt { retries: k as usize }, outcomes[k as int])->Done_0,
            ),
        }),
{
    lemma_throttled_then_from(client, outcomes, k, 0);
    assert(outcomes.skip(0) == outcomes);
    assert(Seq::new((k - 0) as nat, |i: int| asked_wait(outcomes[0 + i])) =~= Seq::new(
        k,
        |i: int| asked_wait(outcomes[i]),
    ));
}

/// The seconds that a call sleeps in all.
pub open spec fn total_wait(waits: Seq<u64>) -> nat
    decreases waits.len(),
{
    if waits.len() == 0 {
        0
    } else {
        waits.first() as nat + total_wait(waits.drop_first())
    }
}

proof fn lemma_total_wait(waits: Seq<u64>, bound: u64)
    requires
        forall|i: int| 0 <= i < waits.len() ==> (#[trigger] waits[i]) <= bound,
    ensures
        total_wait(waits) <= waits.len() * bound,
    decreases waits.len(),
{
    if waits.len() > 0 {
        let rest = waits.drop_first();
        assert forall|i: int| 0 <= i < rest.len() implies (#[trigger] rest[i]) <= bound by {
            assert(rest[i] == waits[i + 1]);
        }
        lemma_total_wait(rest, bound);
        assert(waits.first() <= bound);
        assert(waits.first() + rest.len() * bound <= waits.len() * bound) by (nonlinear_arith)
            requires
                waits.first() <= bound,
                rest.len() + 1 == waits.len(),
        ;
    }
}

proof fn lemma_ends_from(client: ClientView, attempt: Attempt, outcomes: Seq<Outcome>)
    requires
        attempt.retries <= client.max_retries,
        outcomes.len() > client.max_retries - attempt.retries,
    ensures
        run(client, StepView::Send(attempt), outcomes).result is Some,
    decreases outcomes.len(),
{
    reveal_with_fuel(run, 3);
    match verdict(client, attempt, outcomes.first()) {
        StepView::Wait(backoff) => {
            match after_wait(client, backoff) {
                StepView::Send(next) => {
                    lemma_ends_from(client, next, outcomes.drop_first());
                },
                _ => {},
            }
        },
        _ => {},
    }
}

/// Every call ends, and in bounded time: once the server has answered
/// `max_retries + 1` times the call is over, whatever the answers were, and
/// the call has slept for no more than `max_retries + 1` times the wait that
/// the client accepts.
pub proof fn lemma_call_ends(client: ClientView, outcomes: Seq<Outcome>)
    ensures
        outcomes.len() > client.max_retries ==> run(client, first_step(), outcomes).result
            is Some,
        total_wait(run(client, first_step(), outcomes).waits) <= (client.max_retries + 1)
            * client.max_wait_retry,
{
    let attempt = Attempt { retries: 0 };
    if outcomes.len() > client.max_retries {
        lemma_ends_from(client, attempt, outcomes);
    }
    lemma_call_is_bounded(client, attempt, outcomes);
    let waits = run(client, first_step(), outcomes).waits;
    lemma_total_wait(waits, client.max_wait_retry);
    assert(waits.len() * client.max_wait_retry <= (client.max_retries + 1)
        * client.max_wait_retry) by (nonlinear_arith)
        requires
            waits.len() <= client.max_retries + 1,
    ;
}

} // verus!
