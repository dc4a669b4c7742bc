//! Laws of submissions: when one goes on, when it ends, and with what.

use crate::poll::{PollEffect, PollError, PollEvent, PollState};
use crate::request::VideoGenerationRequest;
use crate::status::HttpStatus;
use vstd::prelude::*;

verus! {

/// The states that a submission goes through, with the events that are reported
/// to it, under a timeout in seconds.
pub open spec fn submission(
    states: Seq<PollState>,
    events: Seq<PollEvent>,
    timeout_seconds: u64,
) -> bool {
    &&& states.len() == events.len() + 1
    &&& states[0] is Submitting
    &&& forall|i: int|
        0 <= i < events.len() ==> call_ensures(
            PollState::step,
            (#[trigger] states[i], events[i], timeout_seconds),
            states[i + 1],
        )
}

/// Without its last event, a submission is still one.
proof fn shorter_submission(
    states: Seq<PollState>,
    events: Seq<PollEvent>,
    timeout_seconds: u64,
)
    requires
        submission(states, events, timeout_seconds),
        events.len() > 0,
    ensures
        submission(states.drop_last(), events.drop_last(), timeout_seconds),
        call_ensures(
            PollState::step,
            (states.drop_last().last(), events.last(), timeout_seconds),
            states.last(),
        ),
{
    let last = events.len() - 1;
    assert(states[last] == states.drop_last().last());
    assert(states[last + 1] == states.last());
    assert forall|i: int| 0 <= i < events.drop_last().len() implies call_ensures(
        PollState::step,
        (#[trigger] states.drop_last()[i], events.drop_last()[i], timeout_seconds),
        states.drop_last()[i + 1],
    ) by {
        assert(states[i] == states.drop_last()[i]);
        assert(states[i + 1] == states.drop_last()[i + 1]);
    }
}

/// A reading of the clock that was taken before a poll ends the submission exactly
/// if it has reached the timeout, counted in nanoseconds, and leads to the pause
/// otherwise. Nothing but the reading and the timeout decides.
pub proof fn clock_decides_before_a_poll(
    request_id: String,
    failures: u32,
    nanoseconds: u128,
    timeout_seconds: u64,
    after: PollState,
)
    requires
        call_ensures(
            PollState::step,
            (
                PollState::Checking { request_id, failures },
                PollEvent::Elapsed(nanoseconds),
                timeout_seconds,
            ),
            after,
        ),
    ensures
        nanoseconds >= timeout_seconds * 1_000_000_000 ==> after == PollState::Finished(
            Err(PollError::TimedOut { seconds: timeout_seconds, request_id }),
        ),
        nanoseconds < timeout_seconds * 1_000_000_000 ==> after == (PollState::Pausing {
            request_id,
            failures,
        }),
{
}

/// While time is left, the next poll is made: the caller is asked to pause for the
/// interval, and, once it has, to get the address of the submission with the key.
pub proof fn next_poll_follows_the_pause(
    request_id: String,
    failures: u32,
    nanoseconds: u128,
    timeout_seconds: u64,
    api_key: &str,
    interval_seconds: u64,
    pausing: PollState,
    pause: PollEffect<'_>,
    polling: PollState,
    poll: PollEffect<'_>,
)
    requires
        nanoseconds < timeout_seconds * 1_000_000_000,
        call_ensures(
            PollState::step,
            (
                PollState::Checking { request_id, failures },
                PollEvent::Elapsed(nanoseconds),
                timeout_seconds,
            ),
            pausing,
        ),
        call_ensures(PollState::effect, (&pausing, api_key, interval_seconds), pause),
        call_ensures(PollState::step, (pausing, PollEvent::Rested, timeout_seconds), polling),
        call_ensures(PollState::effect, (&polling, api_key, interval_seconds), poll),
    ensures
        pause == (PollEffect::Rest { seconds: interval_seconds }),
        polling == (PollState::Polling { request_id, failures }),
        poll matches PollEffect::Poll { url, authorization } && url@
            == "https://api.x.ai/v1/videos"@ + "/"@ + request_id@ && authorization@ == "Bearer "@
            + api_key@,
{
}

/// Whether a clock was read before a poll, at the given place of a submission, that
/// had reached the timeout.
pub open spec fn late_reading(
    states: Seq<PollState>,
    events: Seq<PollEvent>,
    timeout_seconds: u64,
    i: int,
) -> bool {
    &&& 0 <= i < events.len()
    &&& states[i] is Checking
    &&& events[i] matches PollEvent::Elapsed(nanoseconds)
    &&& nanoseconds >= timeout_seconds * 1_000_000_000
}

/// A submission times out exactly if some reading of the clock before a poll had
/// reached the timeout, whatever the timeout is; the error names that timeout.
pub proof fn times_out_on_a_late_reading(
    states: Seq<PollState>,
    events: Seq<PollEvent>,
    timeout_seconds: u64,
)
    requires
        submission(states, events, timeout_seconds),
    ensures
        states.last() matches PollState::Finished(Err(PollError::TimedOut { seconds, .. })) ==> {
            &&& seconds == timeout_seconds
            &&& exists|i: int| #[trigger] late_reading(states, events, timeout_seconds, i)
        },
        forall|i: int| #[trigger]
            late_reading(states, events, timeout_seconds, i) ==> (states.last()
                matches PollState::Finished(Err(PollError::TimedOut { .. }))),
    decreases events.len(),
{
    if events.len() > 0 {
        let last = events.len() - 1;
        let before = states.drop_last();
        let earlier = events.drop_last();
        shorter_submission(states, events, timeout_seconds);
        times_out_on_a_late_reading(before, earlier, timeout_seconds);
        if let PollState::Finished(Err(PollError::TimedOut { .. })) = states.last() {
            if let PollState::Finished(_) = before.last() {
                let i = choose|i: int| late_reading(before, earlier, timeout_seconds, i);
                assert(late_reading(states, events, timeout_seconds, i));
            } else {
                assert(late_reading(states, events, timeout_seconds, last));
            }
        }
        assert forall|i: int| #[trigger] late_reading(states, events, timeout_seconds, i) implies (
        states.last() matches PollState::Finished(Err(PollError::TimedOut { .. }))) by {
            if i < last {
                assert(late_reading(before, earlier, timeout_seconds, i));
            }
        }
    }
}

/// What a submission may be answered: a number from 200 to 299 is an acceptance,
/// any other a refusal.
pub proof fn submission_is_accepted_or_refused(
    request: VideoGenerationRequest,
    reply: Result<HttpStatus, String>,
    number: u16,
    timeout_seconds: u64,
    after: PollState,
)
    requires
        call_ensures(
            PollState::step,
            (PollState::Submitting { request }, PollEvent::Replied(reply), timeout_seconds),
            after,
        ),
        reply matches Ok(status) ==> call_ensures(HttpStatus::as_u16, (status,), number),
    ensures
        reply matches Ok(status) ==> if number >= 200 && number <= 299 {
            after is SubmitAccepted
        } else {
            after == (PollState::SubmitRefused { status })
        },
        reply matches Err(error) ==> after == PollState::Finished(Err(PollError::Unsent(error))),
{
}

/// A submission that was accepted is polled under the number that the reply gives,
/// with no failure counted; one that was refused ends with the status and the text
/// of the reply.
pub proof fn reply_starts_the_polling(
    reply: Result<crate::request::VideoSubmitResponse, String>,
    status: HttpStatus,
    body: Option<String>,
    timeout_seconds: u64,
    accepted: PollState,
    refused: PollState,
)
    requires
        call_ensures(
            PollState::step,
            (PollState::SubmitAccepted, PollEvent::Submitted(reply), timeout_seconds),
            accepted,
        ),
        call_ensures(
            PollState::step,
            (PollState::SubmitRefused { status }, PollEvent::Text(body), timeout_seconds),
            refused,
        ),
    ensures
        reply matches Ok(submitted) ==> accepted == (PollState::Checking {
            request_id: submitted.request_id,
            failures: 0,
        }),
        reply matches Err(error) ==> accepted == PollState::Finished(
            Err(PollError::BadSubmission(error)),
        ),
        refused == PollState::Finished(Err(PollError::Refused { status, body })),
{
}

/// A poll without a response, or with 429, 502, 503 or 504, is tried again up to
/// four times in a row, and the fifth time in a row ends the submission. A number
/// from 200 to 299 is an acceptance, and any other a refusal.
pub proof fn failed_polls_are_retried(
    request_id: String,
    failures: u32,
    reply: Result<HttpStatus, String>,
    number: u16,
    timeout_seconds: u64,
    after: PollState,
)
    requires
        call_ensures(
            PollState::step,
            (
                PollState::Polling { request_id, failures },
                PollEvent::Replied(reply),
                timeout_seconds,
            ),
            after,
        ),
        reply matches Ok(status) ==> call_ensures(HttpStatus::as_u16, (status,), number),
    ensures
        reply matches Err(error) ==> if failures < 4 {
            after == (PollState::Checking { request_id, failures: (failures + 1) as u32 })
        } else {
            after == PollState::Finished(Err(PollError::Unreachable(error)))
        },
        reply matches Ok(status) ==> if number == 429 || number == 502 || number == 503 || number
            == 504 {
            if failures < 4 {
                after == (PollState::Checking { request_id, failures: (failures + 1) as u32 })
            } else {
                after == PollState::Finished(Err(PollError::Unavailable(status)))
            }
        } else if number >= 200 && number <= 299 {
            after == (PollState::PollAccepted { request_id })
        } else {
            after == (PollState::PollRefused { status })
        },
{
}

/// The reply to a poll ends the submission if its status is `done` or `expired`, or
/// if it could not be parsed; otherwise polling goes on, with no failure counted. A
/// poll that was refused ends with the status and the text of the reply.
pub proof fn reply_to_a_poll_decides(
    request_id: String,
    reply: Result<crate::request::VideoPollResponse, String>,
    status: HttpStatus,
    body: Option<String>,
    timeout_seconds: u64,
    accepted: PollState,
    refused: PollState,
)
    requires
        call_ensures(
            PollState::step,
            (PollState::PollAccepted { request_id }, PollEvent::Polled(reply), timeout_seconds),
            accepted,
        ),
        call_ensures(
            PollState::step,
            (PollState::PollRefused { status }, PollEvent::Text(body), timeout_seconds),
            refused,
        ),
    ensures
        reply matches Ok(response) ==> {
            &&& response.status@ == seq!['d', 'o', 'n', 'e'] ==> accepted == PollState::Finished(
                Ok(response),
            )
            &&& response.status@ == seq!['e', 'x', 'p', 'i', 'r', 'e', 'd'] ==> accepted
                == PollState::Finished(Err(PollError::Expired { request_id }))
            &&& response.status@ != seq!['d', 'o', 'n', 'e'] && response.status@
                != seq!['e', 'x', 'p', 'i', 'r', 'e', 'd'] ==> accepted == (PollState::Checking {
                request_id,
                failures: 0,
            })
        },
        reply matches Err(error) ==> accepted == PollState::Finished(
            Err(PollError::BadPoll(error)),
        ),
        refused == PollState::Finished(Err(PollError::PollRefused { status, body })),
{
    reveal_strlit("done");
    reveal_strlit("expired");
    assert("done"@ =~= seq!['d', 'o', 'n', 'e']);
    assert("expired"@ =~= seq!['e', 'x', 'p', 'i', 'r', 'e', 'd']);
    assert("done"@.len() != "expired"@.len());
}

/// An event that answers something else changes nothing, and a submission that has
/// finished stays as it is.
pub proof fn other_answers_change_nothing(
    state: PollState,
    event: PollEvent,
    timeout_seconds: u64,
    after: PollState,
)
    requires
        call_ensures(PollState::step, (state, event, timeout_seconds), after),
    ensures
        state is Finished ==> after == state,
        state is Submitting && event !is Replied ==> after == state,
        state is SubmitAccepted && event !is Submitted ==> after == state,
        state is SubmitRefused && event !is Text ==> after == state,
        state is Checking && event !is Elapsed ==> after == state,
        state is Pausing && event !is Rested ==> after == state,
        state is Polling && event !is Replied ==> after == state,
        state is PollAccepted && event !is Polled ==> after == state,
        state is PollRefused && event !is Text ==> after == state,
{
}

/// The number that the reply to a submission gives, where it has come in.
pub open spec fn given_number(states: Seq<PollState>, events: Seq<PollEvent>) -> Option<String>
    decreases events.len(),
{
    if events.len() == 0 {
        None
    } else {
        match (states[events.len() - 1], events.last()) {
            (PollState::SubmitAccepted, PollEvent::Submitted(Ok(reply))) => Some(reply.request_id),
            _ => given_number(states.drop_last(), events.drop_last()),
        }
    }
}

/// How many polls in a row have had no response, or 429, 502, 503 or 504, up to the
/// last event.
pub open spec fn failed_in_a_row(states: Seq<PollState>, events: Seq<PollEvent>) -> nat
    decreases events.len(),
{
    if events.len() == 0 {
        0
    } else {
        let before = failed_in_a_row(states.drop_last(), events.drop_last());
        match (states[events.len() - 1], events.last()) {
            (PollState::Polling { .. }, PollEvent::Replied(Ok(status))) => if status.code() == 429
                || status.code() == 502 || status.code() == 503 || status.code() == 504 {
                before + 1
            } else {
                0
            },
            (PollState::Polling { .. }, PollEvent::Replied(Err(_))) => before + 1,
            _ => before,
        }
    }
}

/// A submission is given up exactly when five polls in a row have failed in a way
/// that may pass, and every poll, the timeout and the expiry name the number that
/// the reply to the submission gave.
pub proof fn five_failures_end_a_submission(
    states: Seq<PollState>,
    events: Seq<PollEvent>,
    timeout_seconds: u64,
)
    requires
        submission(states, events, timeout_seconds),
    ensures
        failed_in_a_row(states, events) <= 5,
        (states.last() matches PollState::Finished(Err(PollError::Unreachable(_))))
            || (states.last() matches PollState::Finished(Err(PollError::Unavailable(_)))) <==>
            failed_in_a_row(states, events) == 5,
        match states.last() {
            PollState::Checking { request_id, failures } => failures == failed_in_a_row(
                states,
                events,
            ) && given_number(states, events) == Some(request_id),
            PollState::Pausing { request_id, failures } => failures == failed_in_a_row(
                states,
                events,
            ) && given_number(states, events) == Some(request_id),
            PollState::Polling { request_id, failures } => failures == failed_in_a_row(
                states,
                events,
            ) && given_number(states, events) == Some(request_id),
            PollState::PollAccepted { request_id } => failed_in_a_row(states, events) == 0
                && given_number(states, events) == Some(request_id),
            PollState::Finished(
                Err(PollError::TimedOut { request_id, .. }),
            ) => given_number(states, events) == Some(request_id),
            PollState::Finished(Err(PollError::Expired { request_id })) => given_number(
                states,
                events,
            ) == Some(request_id),
            PollState::Submitting { .. }
            | PollState::SubmitAccepted
            | PollState::SubmitRefused { .. } => failed_in_a_row(states, events) == 0,
            PollState::PollRefused { .. } => failed_in_a_row(states, events) == 0,
            _ => true,
        },
    decreases events.len(),
{
    if events.len() > 0 {
        shorter_submission(states, events, timeout_seconds);
        five_failures_end_a_submission(states.drop_last(), events.drop_last(), timeout_seconds);
        assert(states.drop_last().last() == states[events.len() - 1]);
    }
}

/// A submission ends well only with a response that came in to a poll and has the
/// status `done`, and that response is the outcome.
pub proof fn outcome_is_a_response_that_came(
    states: Seq<PollState>,
    events: Seq<PollEvent>,
    timeout_seconds: u64,
)
    requires
        submission(states, events, timeout_seconds),
    ensures
        states.last() matches PollState::Finished(Ok(response)) ==> response.status@ == "done"@
            && exists|i: int|
            0 <= i < events.len() && #[trigger] states[i] is PollAccepted && events[i]
                == PollEvent::Polled(Ok(response)),
    decreases events.len(),
{
    if events.len() > 0 {
        let last = events.len() - 1;
        let before = states.drop_last();
        shorter_submission(states, events, timeout_seconds);
        outcome_is_a_response_that_came(before, events.drop_last(), timeout_seconds);
        if let PollState::Finished(Ok(response)) = states.last() {
            if let PollState::Finished(Ok(_)) = before.last() {
                let i = choose|i: int|
                    0 <= i < events.drop_last().len() && #[trigger] before[i] is PollAccepted
                        && events.drop_last()[i] == PollEvent::Polled(Ok(response));
                assert(states[i] is PollAccepted);
            } else {
                assert(states[last] is PollAccepted);
            }
        }
    }
}

/// The request that is submitted is the one that the submission was started with,
/// to the address of the API and with the key; the other effects are those that the
/// state waits for.
pub proof fn submission_asks_for_its_stage(
    state: PollState,
    api_key: &str,
    interval_seconds: u64,
    effect: PollEffect<'_>,
)
    requires
        call_ensures(PollState::effect, (&state, api_key, interval_seconds), effect),
    ensures
        state matches PollState::Submitting { request } ==> (effect matches PollEffect::Submit {
            url,
            authorization,
            request: sent,
        } && url@ == "https://api.x.ai/v1/videos/generations"@ && authorization@ == "Bearer "@
            + api_key@ && *sent == request),
        state matches PollState::Polling { request_id, .. } ==> (effect matches PollEffect::Poll {
            url,
            authorization,
        } && url@ == "https://api.x.ai/v1/videos"@ + "/"@ + request_id@ && authorization@
            == "Bearer "@ + api_key@),
        state is Pausing ==> effect == (PollEffect::Rest { seconds: interval_seconds }),
        state is Checking ==> effect is ReadClock,
        state is SubmitAccepted ==> effect is ReadSubmission,
        state is PollAccepted ==> effect is ReadPoll,
        state is SubmitRefused || state is PollRefused ==> effect is ReadText,
        state matches PollState::Finished(outcome) ==> effect == PollEffect::Finish(&outcome),
{
}

/// The text of a reply, or what stands for one that could not be read.
pub open spec fn shown_body(body: Option<String>) -> Seq<char> {
    match body {
        Some(text) => text@,
        None => "failed to read response body"@,
    }
}

/// What the user is told of a failed submission.
pub proof fn failures_are_told(
    error: PollError,
    status: HttpStatus,
    line: String,
    seconds: u64,
    digits: String,
    message: String,
)
    requires
        call_ensures(PollError::message, (&error,), message),
        call_ensures(HttpStatus::line, (status,), line),
        call_ensures(crate::text::decimal_text, (seconds,), digits),
    ensures
        error matches PollError::Unsent(why) ==> message@ == "HTTP request failed: "@ + why@,
        error matches PollError::Refused { status: shown, body } ==> (shown == status ==> message@
            == "Grok Video API error ("@ + line@ + "): "@ + shown_body(body)),
        error matches PollError::BadSubmission(why) ==> message@
            == "Failed to parse submit response: "@ + why@,
        error matches PollError::TimedOut { seconds: shown, request_id } ==> (shown == seconds
            ==> message@ == "Video generation timed out after "@ + digits@ + "s (request_id: "@
            + request_id@ + ")"@),
        error matches PollError::Unreachable(why) ==> message@
            == "Poll failed after 5 consecutive network errors: "@ + why@,
        error matches PollError::Unavailable(shown) ==> (shown == status ==> message@
            == "Poll failed after 5 consecutive transient errors ("@ + line@ + ")"@),
        error matches PollError::PollRefused { status: shown, body } ==> (shown == status
            ==> message@ == "Poll error ("@ + line@ + "): "@ + shown_body(body)),
        error matches PollError::BadPoll(why) ==> message@ == "Failed to parse poll response: "@
            + why@,
        error matches PollError::Expired { request_id } ==> message@
            == "Video generation expired (request_id: "@ + request_id@ + ")"@,
{
    five_is_shown();
}

/// How the number of failed polls is shown.
proof fn five_is_shown()
    ensures
        "Poll failed after "@ + crate::text::decimal(5) + " consecutive network errors: "@
            == "Poll failed after 5 consecutive network errors: "@,
        "Poll failed after "@ + crate::text::decimal(5) + " consecutive transient errors ("@
            == "Poll failed after 5 consecutive transient errors ("@,
{
    reveal_strlit("Poll failed after ");
    reveal_strlit(" consecutive network errors: ");
    reveal_strlit(" consecutive transient errors (");
    reveal_strlit("Poll failed after 5 consecutive network errors: ");
    reveal_strlit("Poll failed after 5 consecutive transient errors (");
    assert(crate::text::decimal(5) =~= seq!['5']);
    assert("Poll failed after "@ + seq!['5'] + " consecutive network errors: "@
        =~= "Poll failed after 5 consecutive network errors: "@);
    assert("Poll failed after "@ + seq!['5'] + " consecutive transient errors ("@
        =~= "Poll failed after 5 consecutive transient errors ("@);
}

/// What the user is told of a refusal with a given status line.
pub proof fn refusals_are_told(
    line: &str,
    body: Option<String>,
    submit: String,
    poll: String,
    unavailable: String,
)
    requires
        call_ensures(crate::poll::api_error_message, (line, &body), submit),
        call_ensures(crate::poll::poll_error_message, (line, &body), poll),
        call_ensures(crate::poll::unavailable_message, (line,), unavailable),
    ensures
        submit@ == "Grok Video API error ("@ + line@ + "): "@ + shown_body(body),
        poll@ == "Poll error ("@ + line@ + "): "@ + shown_body(body),
        unavailable@ == "Poll failed after 5 consecutive transient errors ("@ + line@ + ")"@,
{
    five_is_shown();
}

} // verus!
