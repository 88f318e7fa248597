//! The attempt and retry state machine of one execution. It decides and keeps
//! count; the caller performs the transfers and the waits it asks for, and
//! reports back what happened.

use vstd::prelude::*;
use crate::backoff::{backoff_ms, delay_for_attempt};
use crate::error::{ErrorKind, RequestError};
use crate::request::Request;
use crate::response::Response;

verus! {

/// Where an execution stands.
pub enum Execution {
    /// Transfer number `attempt` is to be made, or is under way.
    Attempting { request: Request, attempt: u64 },
    /// Transfer number `attempt` failed; the next follows after `delay_ms`.
    RetryWait { request: Request, attempt: u64, delay_ms: u64 },
    /// A transfer completed. The parser gets the request and the response.
    Success { request: Request, response: Response },
    /// The last transfer allowed has failed.
    Exhausted { error: RequestError },
}

/// What the caller reports.
pub enum Event {
    /// The transfer completed with this response, whatever its status.
    Completed(Response),
    /// The transfer failed before a response was there.
    Failed(curl::Error),
    /// The wait is over.
    Waited,
}

/// What the caller is to do next.
#[derive(Clone, Copy, PartialEq, Eq, Structural)]
pub enum Action {
    /// Perform one transfer and report `Completed` or `Failed`.
    Transfer,
    /// Wait so many milliseconds and report `Waited`.
    Sleep(u64),
    /// Hand request and response to the parser.
    Deliver,
    /// Hand the error to the caller.
    Report,
}

/// After `attempt` failed transfers another one is made: always without a
/// limit, and with one as long as the limit is not reached.
pub open spec fn retryable(retry_count: Option<u8>, attempt: u64) -> bool {
    match retry_count {
        None => true,
        Some(limit) => attempt < limit,
    }
}

/// The wait after attempt `attempt`. Past the largest attempt number that the
/// backoff is given for, it is the longest wait there is.
pub open spec fn delay_after(attempt: u64) -> u64 {
    if attempt <= 0xff {
        backoff_ms(attempt as u8)
    } else {
        0xffff_ffff_ffff_ffff
    }
}

/// The number of the attempt after `attempt`. The count stops at the largest
/// `u64`.
pub open spec fn next_attempt(attempt: u64) -> u64 {
    if attempt < 0xffff_ffff_ffff_ffff {
        (attempt + 1) as u64
    } else {
        attempt
    }
}

impl Execution {
    /// The state an execution starts in: the first attempt.
    pub open spec fn start_of(request: Request) -> Execution {
        Execution::Attempting { request, attempt: 1 }
    }

    /// `Success` and `Exhausted` are final.
    pub open spec fn is_terminal(&self) -> bool {
        self is Success || self is Exhausted
    }

    /// The transition: the state after `event` was reported in state `self`.
    /// An event that the state does not wait for changes nothing.
    pub open spec fn after(self, event: Event) -> Execution {
        match (self, event) {
            (Execution::Attempting { request, attempt }, Event::Completed(response)) => {
                Execution::Success { request, response }
            },
            (Execution::Attempting { request, attempt }, Event::Failed(cause)) => {
                if retryable(request.retry_count, attempt) {
                    Execution::RetryWait { request, attempt, delay_ms: delay_after(attempt) }
                } else {
                    Execution::Exhausted {
                        error: RequestError { request, kind: ErrorKind::CurlError(cause) },
                    }
                }
            },
            (Execution::RetryWait { request, attempt, delay_ms }, Event::Waited) => {
                Execution::Attempting { request, attempt: next_attempt(attempt) }
            },
            (state, _) => state,
        }
    }

    /// What state `self` asks of the caller.
    pub open spec fn action_of(&self) -> Action {
        match self {
            Execution::Attempting { .. } => Action::Transfer,
            Execution::RetryWait { delay_ms, .. } => Action::Sleep(*delay_ms),
            Execution::Success { .. } => Action::Deliver,
            Execution::Exhausted { .. } => Action::Report,
        }
    }

    /// The state after the events of `events` were reported one by one.
    pub open spec fn run(self, events: Seq<Event>) -> Execution
        decreases events.len(),
    {
        if events.len() == 0 {
            self
        } else {
            self.run(events.drop_last()).after(events.last())
        }
    }

    /// How many transfers `events` reports the end of: the events `Completed`
    /// and `Failed` that come while a transfer is awaited.
    pub open spec fn transfers(self, events: Seq<Event>) -> nat
        decreases events.len(),
    {
        if events.len() == 0 {
            0
        } else {
            let before = self.run(events.drop_last());
            let ends_transfer = before is Attempting && !(events.last() is Waited);
            self.transfers(events.drop_last()) + if ends_transfer {
                1nat
            } else {
                0nat
            }
        }
    }

    /// Takes over `request` and asks for the first transfer.
    pub fn start(request: Request) -> (state: Execution)
        ensures
            state == Self::start_of(request),
    {
        Execution::Attempting { request, attempt: 1 }
    }

    /// Takes `event` and moves on.
    pub fn step(self, event: Event) -> (next: Execution)
        ensures
            next == self.after(event),
    {
        match self {
            Execution::Attempting { request, attempt } => match event {
                Event::Completed(response) => Execution::Success { request, response },
                Event::Failed(cause) => {
                    let again = match request.retry_count {
                        None => true,
                        Some(limit) => attempt < limit as u64,
                    };
                    if again {
                        let delay_ms = if attempt <= 0xff {
                            delay_for_attempt(attempt as u8)
                        } else {
                            0xffff_ffff_ffff_ffff
                        };
                        Execution::RetryWait { request, attempt, delay_ms }
                    } else {
                        Execution::Exhausted {
                            error: RequestError { request, kind: ErrorKind::CurlError(cause) },
                        }
                    }
                },
                Event::Waited => Execution::Attempting { request, attempt },
            },
            Execution::RetryWait { request, attempt, delay_ms } => match event {
                Event::Waited => {
                    let next = if attempt < 0xffff_ffff_ffff_ffff {
                        attempt + 1
                    } else {
                        attempt
                    };
                    Execution::Attempting { request, attempt: next }
                },
                _ => Execution::RetryWait { request, attempt, delay_ms },
            },
            Execution::Success { request, response } => Execution::Success { request, response },
            Execution::Exhausted { error } => Execution::Exhausted { error },
        }
    }

    /// What the caller is to do in this state.
    pub fn action(&self) -> (action: Action)
        ensures
            action == self.action_of(),
    {
        match self {
            Execution::Attempting { .. } => Action::Transfer,
            Execution::RetryWait { delay_ms, .. } => Action::Sleep(*delay_ms),
            Execution::Success { .. } => Action::Deliver,
            Execution::Exhausted { .. } => Action::Report,
        }
    }

    /// Ends an execution: after a completed transfer the result is what
    /// `parse` makes of request and response, and after the last failure it is
    /// the transport error.
    pub fn finish<R, P>(self, parse: P) -> (result: Result<R, RequestError>) where
        P: FnOnce(Request, Response) -> Result<R, RequestError>,

        requires
            self.is_terminal(),
            self matches Execution::Success { request, response } ==> parse.requires(
                (request, response),
            ),
        ensures
            self matches Execution::Success { request, response } ==> parse.ensures(
                (request, response),
                result,
            ),
            self matches Execution::Exhausted { error } ==> result == Err::<R, RequestError>(
                error,
            ),
    {
        match self {
            Execution::Success { request, response } => parse(request, response),
            Execution::Exhausted { error } => Err(error),
            _ => vstd::pervasive::unreached(),
        }
    }
}

/// The events of transfers that fail one after the other, each followed by
/// its wait.
pub open spec fn failed_rounds(failures: Seq<curl::Error>) -> Seq<Event>
    decreases failures.len(),
{
    if failures.len() == 0 {
        Seq::empty()
    } else {
        failed_rounds(failures.drop_last()).push(Event::Failed(failures.last())).push(
            Event::Waited,
        )
    }
}

/// The number of the attempt that follows `done` transfers.
pub open spec fn attempt_after(done: nat) -> u64 {
    if done < 0xffff_ffff_ffff_ffff {
        (done + 1) as u64
    } else {
        0xffff_ffff_ffff_ffff
    }
}

/// The most transfers that a limit allows. The first transfer is always made.
pub open spec fn most_transfers(limit: u8) -> nat {
    if limit == 0 {
        1
    } else {
        limit as nat
    }
}

/// Reporting `first` and then `then` is reporting them in one go.
pub proof fn lemma_run_concat(state: Execution, first: Seq<Event>, then: Seq<Event>)
    ensures
        state.run(first + then) == state.run(first).run(then),
        state.transfers(first + then) == state.transfers(first) + state.run(first).transfers(
            then,
        ),
    decreases then.len(),
{
    if then.len() == 0 {
        assert(first + then == first);
    } else {
        assert((first + then).drop_last() == first + then.drop_last());
        assert((first + then).last() == then.last());
        lemma_run_concat(state, first, then.drop_last());
    }
}

/// A final state stays as it is, and no transfer follows it.
pub proof fn lemma_terminal_absorbs(state: Execution, events: Seq<Event>)
    requires
        state.is_terminal(),
    ensures
        state.run(events) == state,
        state.transfers(events) == 0,
    decreases events.len(),
{
    if events.len() > 0 {
        lemma_terminal_absorbs(state, events.drop_last());
    }
}

/// A transfer that completes ends the execution, whatever the status of the
/// response and whatever the retry limit: the state is `Success` with that
/// response, and nothing reported later leads to another transfer.
pub proof fn lemma_completed_is_final(
    request: Request,
    attempt: u64,
    response: Response,
    later: Seq<Event>,
)
    ensures
        ({
            let state = Execution::Attempting { request, attempt };
            let events = seq![Event::Completed(response)] + later;
            &&& state.run(events) == Execution::Success { request, response }
            &&& state.transfers(events) == 1
        }),
{
    let state = Execution::Attempting { request, attempt };
    let first = seq![Event::Completed(response)];
    assert(first.drop_last() == Seq::<Event>::empty());
    assert(state.run(first.drop_last()) == state);
    assert(state.run(first) == Execution::Success { request, response });
    assert(state.transfers(first.drop_last()) == 0);
    assert(state.transfers(first) == 1);
    lemma_run_concat(state, first, later);
    lemma_terminal_absorbs(state.run(first), later);
}

/// As long as a retry is allowed after each of them, failures only count up:
/// after `failures` and their waits the next attempt is due, and as many
/// transfers were made as there were failures.
pub proof fn lemma_failed_rounds(request: Request, failures: Seq<curl::Error>)
    requires
        request.retry_count matches Some(limit) ==> failures.len() < most_transfers(limit),
    ensures
        ({
            let start = Execution::start_of(request);
            let events = failed_rounds(failures);
            &&& start.run(events) == Execution::Attempting {
                request,
                attempt: attempt_after(failures.len()),
            }
            &&& start.transfers(events) == failures.len()
        }),
    decreases failures.len(),
{
    let start = Execution::start_of(request);
    if failures.len() > 0 {
        let earlier = failed_rounds(failures.drop_last());
        let failed = earlier.push(Event::Failed(failures.last()));
        let events = failed.push(Event::Waited);
        lemma_failed_rounds(request, failures.drop_last());
        assert(failed.drop_last() == earlier);
        assert(events.drop_last() == failed);
        assert(events == failed_rounds(failures));
        let attempt = attempt_after((failures.len() - 1) as nat);
        assert(start.run(earlier) == Execution::Attempting { request, attempt });
        assert(retryable(request.retry_count, attempt));
        assert(start.run(failed) == Execution::RetryWait {
            request,
            attempt,
            delay_ms: delay_after(attempt),
        });
        assert(next_attempt(attempt) == attempt_after(failures.len()));
        assert(start.transfers(failed) == failures.len());
        assert(start.transfers(events) == failures.len());
    }
}

/// Without a retry limit, an execution whose transfers fail any number of
/// times and then complete ends in `Success` with the response of the transfer
/// that completed, after one transfer more than there were failures.
pub proof fn lemma_unlimited_retries_until_success(
    request: Request,
    failures: Seq<curl::Error>,
    response: Response,
)
    requires
        request.retry_count is None,
    ensures
        ({
            let start = Execution::start_of(request);
            let events = failed_rounds(failures).push(Event::Completed(response));
            &&& start.run(events) == Execution::Success { request, response }
            &&& start.transfers(events) == failures.len() + 1
        }),
{
    lemma_failed_rounds(request, failures);
    let events = failed_rounds(failures).push(Event::Completed(response));
    assert(events.drop_last() == failed_rounds(failures));
}

/// Without a retry limit no sequence of events leads to `Exhausted`.
pub proof fn lemma_unlimited_never_exhausted(request: Request, events: Seq<Event>)
    requires
        request.retry_count is None,
    ensures
        !(Execution::start_of(request).run(events) is Exhausted),
        match Execution::start_of(request).run(events) {
            Execution::Attempting { request: held, .. } => held == request,
            Execution::RetryWait { request: held, .. } => held == request,
            Execution::Success { request: held, .. } => held == request,
            Execution::Exhausted { .. } => false,
        },
    decreases events.len(),
{
    if events.len() > 0 {
        lemma_unlimited_never_exhausted(request, events.drop_last());
    }
}

/// What holds of every state that an execution with a retry limit can reach:
/// the attempts are counted one by one and stay within the limit.
pub open spec fn within_limit(state: Execution, request: Request, limit: u8, done: nat) -> bool {
    match state {
        Execution::Attempting { request: held, attempt } => {
            &&& held == request
            &&& attempt == done + 1
            &&& attempt <= most_transfers(limit)
        },
        Execution::RetryWait { request: held, attempt, delay_ms } => {
            &&& held == request
            &&& attempt == done
            &&& attempt < limit
            &&& delay_ms == delay_after(attempt)
        },
        Execution::Success { request: held, .. } => {
            &&& held == request
            &&& 1 <= done <= most_transfers(limit)
        },
        Execution::Exhausted { error } => {
            &&& error.request == request
            &&& error.kind is CurlError
            &&& done == most_transfers(limit)
        },
    }
}

/// With a retry limit, whatever is reported, the execution never makes more
/// transfers than the limit allows, and it is `Exhausted` only after exactly
/// that many, with a transport error that holds the request.
pub proof fn lemma_attempts_within_limit(request: Request, limit: u8, events: Seq<Event>)
    requires
        request.retry_count == Some(limit),
    ensures
        Execution::start_of(request).transfers(events) <= most_transfers(limit),
        within_limit(
            Execution::start_of(request).run(events),
            request,
            limit,
            Execution::start_of(request).transfers(events),
        ),
    decreases events.len(),
{
    if events.len() > 0 {
        lemma_attempts_within_limit(request, limit, events.drop_last());
    }
}

/// With a retry limit of at least one, an execution makes at most as many
/// transfers as the limit says, whatever is reported.
pub proof fn lemma_at_most_limit_transfers(request: Request, limit: u8, events: Seq<Event>)
    requires
        request.retry_count == Some(limit),
        limit >= 1,
    ensures
        Execution::start_of(request).transfers(events) <= limit,
{
    lemma_attempts_within_limit(request, limit, events);
}

/// With a retry limit and transfers that always fail, the execution makes
/// exactly as many transfers as the limit allows, and ends `Exhausted` with a
/// transport error that holds the request and the last failure.
pub proof fn lemma_exhausted_at_limit(request: Request, limit: u8, failures: Seq<curl::Error>)
    requires
        request.retry_count == Some(limit),
        failures.len() == most_transfers(limit),
    ensures
        ({
            let start = Execution::start_of(request);
            let events = failed_rounds(failures.drop_last()).push(Event::Failed(failures.last()));
            &&& start.run(events) == Execution::Exhausted {
                error: RequestError { request, kind: ErrorKind::CurlError(failures.last()) },
            }
            &&& start.transfers(events) == most_transfers(limit)
        }),
{
    lemma_failed_rounds(request, failures.drop_last());
    let events = failed_rounds(failures.drop_last()).push(Event::Failed(failures.last()));
    assert(events.drop_last() == failed_rounds(failures.drop_last()));
}

} // verus!
