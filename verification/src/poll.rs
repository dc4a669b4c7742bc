//! Submitting a request and polling until the video is there.
//!
//! The network, the clock and the pauses are left to the caller: a
//! [`PollState`] names the effect it waits for, and the caller answers with a
//! [`PollEvent`].

use crate::request::{VideoGenerationRequest, VideoPollResponse, VideoSubmitResponse};
use crate::status::{is_transient, HttpStatus};
use crate::text::{decimal_text, same_text};
use vstd::prelude::*;

verus! {

/// Where requests are submitted.
pub const GROK_VIDEO_SUBMIT_URL: &'static str = "https://api.x.ai/v1/videos/generations";

/// Below which address a submitted request is polled.
pub const GROK_VIDEO_POLL_URL: &'static str = "https://api.x.ai/v1/videos";

/// How many polls in a row may fail before polling is given up.
pub const MAX_TRANSIENT_RETRIES: u32 = 5;

/// How a submission stands.
#[derive(Debug)]
pub enum PollState {
    /// The request is to be sent.
    Submitting { request: VideoGenerationRequest },
    /// The request was accepted; the reply is to be read.
    SubmitAccepted,
    /// The request was refused; the text of the reply is to be read.
    SubmitRefused { status: HttpStatus },
    /// The time that has passed is to be held against the timeout.
    Checking { request_id: String, failures: u32 },
    /// The pause before the next poll is to be made.
    Pausing { request_id: String, failures: u32 },
    /// The next poll is to be sent.
    Polling { request_id: String, failures: u32 },
    /// The poll was accepted; the reply is to be read.
    PollAccepted { request_id: String },
    /// The poll was refused; the text of the reply is to be read.
    PollRefused { status: HttpStatus },
    /// The video is there, or the attempt has failed.
    Finished(Result<VideoPollResponse, PollError>),
}

/// What the caller reports to a submission.
#[derive(Debug)]
pub enum PollEvent {
    /// A response came to what was sent, or why none came.
    Replied(Result<HttpStatus, String>),
    /// The reply to a submission, or why it could not be parsed.
    Submitted(Result<VideoSubmitResponse, String>),
    /// The reply to a poll, or why it could not be parsed.
    Polled(Result<VideoPollResponse, String>),
    /// The text of a reply, if it could be read.
    Text(Option<String>),
    /// The nanoseconds since the submission was accepted.
    Elapsed(u128),
    /// The pause is over.
    Rested,
}

/// What a submission asks of its caller.
#[derive(Debug)]
pub enum PollEffect<'a> {
    /// Post the request; answer with `Replied`.
    Submit { url: String, authorization: String, request: &'a VideoGenerationRequest },
    /// Read the reply to the submission; answer with `Submitted`.
    ReadSubmission,
    /// Read the clock; answer with `Elapsed`.
    ReadClock,
    /// Pause for some seconds; answer with `Rested`.
    Rest { seconds: u64 },
    /// Get the state of the submission; answer with `Replied`.
    Poll { url: String, authorization: String },
    /// Read the reply to the poll; answer with `Polled`.
    ReadPoll,
    /// Read the reply as text; answer with `Text`.
    ReadText,
    /// Nothing more is asked.
    Finish(&'a Result<VideoPollResponse, PollError>),
}

/// Why a submission failed.
#[derive(Debug)]
pub enum PollError {
    /// The request could not be sent.
    Unsent(String),
    /// The request was refused.
    Refused { status: HttpStatus, body: Option<String> },
    /// The reply to the request could not be parsed.
    BadSubmission(String),
    /// The video was not there in time.
    TimedOut { seconds: u64, request_id: String },
    /// Too many polls in a row failed, the last one on the network.
    Unreachable(String),
    /// Too many polls in a row failed, the last one with a transient status.
    Unavailable(HttpStatus),
    /// A poll was refused.
    PollRefused { status: HttpStatus, body: Option<String> },
    /// The reply to a poll could not be parsed.
    BadPoll(String),
    /// The submission has expired.
    Expired { request_id: String },
}

/// The value of the `Authorization` header.
pub open spec fn bearer(api_key: Seq<char>) -> Seq<char> {
    "Bearer "@ + api_key
}

/// Where a submission is polled.
pub open spec fn poll_url(request_id: Seq<char>) -> Seq<char> {
    GROK_VIDEO_POLL_URL@ + "/"@ + request_id
}

/// The text of a reply, or what stands for one that could not be read.
pub open spec fn body_text(body: Option<String>) -> Seq<char> {
    match body {
        Some(text) => text@,
        None => "failed to read response body"@,
    }
}

/// Whether the time that has passed reaches the timeout.
pub open spec fn overdue(nanoseconds: u128, timeout_seconds: u64) -> bool {
    nanoseconds >= timeout_seconds * 1_000_000_000
}

/// Whether a poll failed in a way that may pass.
pub open spec fn failed_poll(reply: Result<HttpStatus, String>) -> bool {
    match reply {
        Ok(status) => crate::status::transient_code(status.code()),
        Err(_) => true,
    }
}

impl PollError {
    /// The message for the user.
    pub open spec fn text(self) -> Seq<char> {
        match self {
            PollError::Unsent(error) => "HTTP request failed: "@ + error@,
            PollError::Refused { status, body } => "Grok Video API error ("@
                + crate::status::status_text(status.code()) + "): "@ + body_text(body),
            PollError::BadSubmission(error) => "Failed to parse submit response: "@ + error@,
            PollError::TimedOut { seconds, request_id } => "Video generation timed out after "@
                + crate::text::decimal(seconds as nat) + "s (request_id: "@ + request_id@ + ")"@,
            PollError::Unreachable(error) => "Poll failed after "@ + crate::text::decimal(
                MAX_TRANSIENT_RETRIES as nat,
            ) + " consecutive network errors: "@ + error@,
            PollError::Unavailable(status) => "Poll failed after "@ + crate::text::decimal(
                MAX_TRANSIENT_RETRIES as nat,
            ) + " consecutive transient errors ("@ + crate::status::status_text(status.code())
                + ")"@,
            PollError::PollRefused { status, body } => "Poll error ("@
                + crate::status::status_text(status.code()) + "): "@ + body_text(body),
            PollError::BadPoll(error) => "Failed to parse poll response: "@ + error@,
            PollError::Expired { request_id } => "Video generation expired (request_id: "@
                + request_id@ + ")"@,
        }
    }

    /// The message for the user.
    pub fn message(&self) -> (message: String)
        ensures
            message@ == self.text(),
    {
        match self {
            PollError::Unsent(error) => {
                let mut message = "HTTP request failed: ".to_string();
                message.append(error.as_str());
                message
            },
            PollError::Refused { status, body } => api_error_message(
                status.line().as_str(),
                body,
            ),
            PollError::BadSubmission(error) => {
                let mut message = "Failed to parse submit response: ".to_string();
                message.append(error.as_str());
                message
            },
            PollError::TimedOut { seconds, request_id } => {
                let mut message = "Video generation timed out after ".to_string();
                message.append(decimal_text(*seconds).as_str());
                message.append("s (request_id: ");
                message.append(request_id.as_str());
                message.append(")");
                message
            },
            PollError::Unreachable(error) => {
                let mut message = "Poll failed after ".to_string();
                message.append(decimal_text(MAX_TRANSIENT_RETRIES as u64).as_str());
                message.append(" consecutive network errors: ");
                message.append(error.as_str());
                message
            },
            PollError::Unavailable(status) => unavailable_message(status.line().as_str()),
            PollError::PollRefused { status, body } => poll_error_message(
                status.line().as_str(),
                body,
            ),
            PollError::BadPoll(error) => {
                let mut message = "Failed to parse poll response: ".to_string();
                message.append(error.as_str());
                message
            },
            PollError::Expired { request_id } => {
                let mut message = "Video generation expired (request_id: ".to_string();
                message.append(request_id.as_str());
                message.append(")");
                message
            },
        }
    }
}

/// The message for a request that was refused with the given status line.
pub fn api_error_message(line: &str, body: &Option<String>) -> (message: String)
    ensures
        message@ == "Grok Video API error ("@ + line@ + "): "@ + body_text(*body),
{
    let mut message = "Grok Video API error (".to_string();
    message.append(line);
    message.append("): ");
    append_body(&mut message, body);
    message
}

/// The message for a poll that was refused with the given status line.
pub fn poll_error_message(line: &str, body: &Option<String>) -> (message: String)
    ensures
        message@ == "Poll error ("@ + line@ + "): "@ + body_text(*body),
{
    let mut message = "Poll error (".to_string();
    message.append(line);
    message.append("): ");
    append_body(&mut message, body);
    message
}

/// The message for too many failed polls, the last one with the given status line.
pub fn unavailable_message(line: &str) -> (message: String)
    ensures
        message@ == "Poll failed after "@ + crate::text::decimal(MAX_TRANSIENT_RETRIES as nat)
            + " consecutive transient errors ("@ + line@ + ")"@,
{
    let mut message = "Poll failed after ".to_string();
    message.append(decimal_text(MAX_TRANSIENT_RETRIES as u64).as_str());
    message.append(" consecutive transient errors (");
    message.append(line);
    message.append(")");
    message
}

/// Append the text of a reply, or what stands for one that could not be read.
fn append_body(message: &mut String, body: &Option<String>)
    ensures
        final(message)@ == old(message)@ + body_text(*body),
{
    match body {
        Some(text) => message.append(text.as_str()),
        None => message.append("failed to read response body"),
    }
}

impl PollState {
    /// The state after an event. An event that does not answer the effect that
    /// the state waits for changes nothing.
    pub open spec fn next(self, event: PollEvent, timeout_seconds: u64) -> PollState {
        match (self, event) {
            (PollState::Submitting { .. }, PollEvent::Replied(Ok(status))) => if crate::status::success_code(
                status.code(),
            ) {
                PollState::SubmitAccepted
            } else {
                PollState::SubmitRefused { status }
            },
            (PollState::Submitting { .. }, PollEvent::Replied(Err(error))) => PollState::Finished(
                Err(PollError::Unsent(error)),
            ),
            (PollState::SubmitRefused { status }, PollEvent::Text(body)) => PollState::Finished(
                Err(PollError::Refused { status, body }),
            ),
            (PollState::SubmitAccepted, PollEvent::Submitted(Ok(reply))) => PollState::Checking {
                request_id: reply.request_id,
                failures: 0,
            },
            (PollState::SubmitAccepted, PollEvent::Submitted(Err(error))) => PollState::Finished(
                Err(PollError::BadSubmission(error)),
            ),
            (
                PollState::Checking { request_id, failures },
                PollEvent::Elapsed(nanoseconds),
            ) => if overdue(nanoseconds, timeout_seconds) {
                PollState::Finished(
                    Err(PollError::TimedOut { seconds: timeout_seconds, request_id }),
                )
            } else {
                PollState::Pausing { request_id, failures }
            },
            (PollState::Pausing { request_id, failures }, PollEvent::Rested) => PollState::Polling {
                request_id,
                failures,
            },
            (PollState::Polling { request_id, failures }, PollEvent::Replied(reply)) => if failed_poll(
                reply,
            ) {
                if failures + 1 < MAX_TRANSIENT_RETRIES {
                    PollState::Checking { request_id, failures: (failures + 1) as u32 }
                } else {
                    match reply {
                        Ok(status) => PollState::Finished(Err(PollError::Unavailable(status))),
                        Err(error) => PollState::Finished(Err(PollError::Unreachable(error))),
                    }
                }
            } else if crate::status::success_code(reply->Ok_0.code()) {
                PollState::PollAccepted { request_id }
            } else {
                PollState::PollRefused { status: reply->Ok_0 }
            },
            (PollState::PollRefused { status }, PollEvent::Text(body)) => PollState::Finished(
                Err(PollError::PollRefused { status, body }),
            ),
            (PollState::PollAccepted { request_id }, PollEvent::Polled(Ok(response))) => if response.status@
                == "done"@ {
                PollState::Finished(Ok(response))
            } else if response.status@ == "expired"@ {
                PollState::Finished(Err(PollError::Expired { request_id }))
            } else {
                PollState::Checking { request_id, failures: 0 }
            },
            (PollState::PollAccepted { .. }, PollEvent::Polled(Err(error))) => PollState::Finished(
                Err(PollError::BadPoll(error)),
            ),
            _ => self,
        }
    }

    /// Whether an effect is what the state waits for.
    pub open spec fn asks(
        self,
        effect: PollEffect<'_>,
        api_key: Seq<char>,
        interval_seconds: u64,
    ) -> bool {
        match self {
            PollState::Submitting { request } => effect matches PollEffect::Submit {
                url,
                authorization,
                request: sent,
            } && url@ == GROK_VIDEO_SUBMIT_URL@ && authorization@ == bearer(api_key) && *sent
                == request,
            PollState::SubmitAccepted => effect is ReadSubmission,
            PollState::Checking { .. } => effect is ReadClock,
            PollState::Pausing { .. } => effect == (PollEffect::Rest {
                seconds: interval_seconds,
            }),
            PollState::Polling { request_id, .. } => effect matches PollEffect::Poll {
                url,
                authorization,
            } && url@ == poll_url(request_id@) && authorization@ == bearer(api_key),
            PollState::PollAccepted { .. } => effect is ReadPoll,
            PollState::SubmitRefused { .. } | PollState::PollRefused { .. } => effect
                is ReadText,
            PollState::Finished(outcome) => effect == PollEffect::Finish(&outcome),
        }
    }

    /// The state after an event.
    pub fn step(self, event: PollEvent, timeout_seconds: u64) -> (state: PollState)
        ensures
            state == self.next(event, timeout_seconds),
    {
        match (self, event) {
            (PollState::Submitting { request: _ }, PollEvent::Replied(Ok(status))) => {
                if status.is_success() {
                    PollState::SubmitAccepted
                } else {
                    PollState::SubmitRefused { status }
                }
            },
            (PollState::Submitting { request: _ }, PollEvent::Replied(Err(error))) => {
                PollState::Finished(Err(PollError::Unsent(error)))
            },
            (PollState::SubmitRefused { status }, PollEvent::Text(body)) => PollState::Finished(
                Err(PollError::Refused { status, body }),
            ),
            (PollState::SubmitAccepted, PollEvent::Submitted(Ok(reply))) => PollState::Checking {
                request_id: reply.request_id,
                failures: 0,
            },
            (PollState::SubmitAccepted, PollEvent::Submitted(Err(error))) => PollState::Finished(
                Err(PollError::BadSubmission(error)),
            ),
            (PollState::Checking { request_id, failures }, PollEvent::Elapsed(nanoseconds)) => {
                if nanoseconds >= timeout_seconds as u128 * 1_000_000_000 {
                    PollState::Finished(
                        Err(PollError::TimedOut { seconds: timeout_seconds, request_id }),
                    )
                } else {
                    PollState::Pausing { request_id, failures }
                }
            },
            (PollState::Pausing { request_id, failures }, PollEvent::Rested) => PollState::Polling {
                request_id,
                failures,
            },
            (PollState::Polling { request_id, failures }, PollEvent::Replied(Err(error))) => {
                if failures >= MAX_TRANSIENT_RETRIES - 1 {
                    PollState::Finished(Err(PollError::Unreachable(error)))
                } else {
                    PollState::Checking { request_id, failures: failures + 1 }
                }
            },
            (PollState::Polling { request_id, failures }, PollEvent::Replied(Ok(status))) => {
                if status.is_success() {
                    PollState::PollAccepted { request_id }
                } else if is_transient(status) {
                    if failures >= MAX_TRANSIENT_RETRIES - 1 {
                        PollState::Finished(Err(PollError::Unavailable(status)))
                    } else {
                        PollState::Checking { request_id, failures: failures + 1 }
                    }
                } else {
                    PollState::PollRefused { status }
                }
            },
            (PollState::PollRefused { status }, PollEvent::Text(body)) => PollState::Finished(
                Err(PollError::PollRefused { status, body }),
            ),
            (PollState::PollAccepted { request_id }, PollEvent::Polled(Ok(response))) => {
                if same_text(response.status.as_str(), "done") {
                    PollState::Finished(Ok(response))
                } else if same_text(response.status.as_str(), "expired") {
                    PollState::Finished(Err(PollError::Expired { request_id }))
                } else {
                    PollState::Checking { request_id, failures: 0 }
                }
            },
            (PollState::PollAccepted { request_id: _ }, PollEvent::Polled(Err(error))) => {
                PollState::Finished(Err(PollError::BadPoll(error)))
            },
            (state, _) => state,
        }
    }

    /// What the state waits for.
    pub fn effect<'a>(&'a self, api_key: &str, interval_seconds: u64) -> (effect: PollEffect<'a>)
        ensures
            self.asks(effect, api_key@, interval_seconds),
    {
        match self {
            PollState::Submitting { request } => PollEffect::Submit {
                url: GROK_VIDEO_SUBMIT_URL.to_string(),
                authorization: authorization(api_key),
                request,
            },
            PollState::SubmitAccepted => PollEffect::ReadSubmission,
            PollState::Checking { request_id: _, failures: _ } => PollEffect::ReadClock,
            PollState::Pausing { request_id: _, failures: _ } => PollEffect::Rest {
                seconds: interval_seconds,
            },
            PollState::Polling { request_id, failures: _ } => {
                let mut url = GROK_VIDEO_POLL_URL.to_string();
                url.append("/");
                url.append(request_id.as_str());
                PollEffect::Poll { url, authorization: authorization(api_key) }
            },
            PollState::PollAccepted { request_id: _ } => PollEffect::ReadPoll,
            PollState::SubmitRefused { status: _ } => PollEffect::ReadText,
            PollState::PollRefused { status: _ } => PollEffect::ReadText,
            PollState::Finished(outcome) => PollEffect::Finish(outcome),
        }
    }
}

/// The value of the `Authorization` header.
fn authorization(api_key: &str) -> (value: String)
    ensures
        value@ == bearer(api_key@),
{
    let mut value = "Bearer ".to_string();
    value.append(api_key);
    value
}

/// The state after several events.
pub open spec fn run(
    start: PollState,
    events: Seq<PollEvent>,
    timeout_seconds: u64,
) -> PollState
    decreases events.len(),
{
    if events.len() == 0 {
        start
    } else {
        run(start, events.drop_last(), timeout_seconds).next(events.last(), timeout_seconds)
    }
}

/// How many polls have failed in a row, up to the last event, in a way that may pass.
pub open spec fn failure_streak(
    start: PollState,
    events: Seq<PollEvent>,
    timeout_seconds: u64,
) -> nat
    decreases events.len(),
{
    if events.len() == 0 {
        0
    } else {
        let before = failure_streak(start, events.drop_last(), timeout_seconds);
        match (run(start, events.drop_last(), timeout_seconds), events.last()) {
            (PollState::Polling { .. }, PollEvent::Replied(reply)) => if failed_poll(reply) {
                before + 1
            } else {
                0
            },
            _ => before,
        }
    }
}

impl PollState {
    /// Whether an event answers the effect that the state waits for.
    pub open spec fn answered_by(self, event: PollEvent) -> bool {
        match self {
            PollState::Submitting { .. } | PollState::Polling { .. } => event is Replied,
            PollState::SubmitAccepted => event is Submitted,
            PollState::Checking { .. } => event is Elapsed,
            PollState::Pausing { .. } => event is Rested,
            PollState::PollAccepted { .. } => event is Polled,
            PollState::SubmitRefused { .. } | PollState::PollRefused { .. } => event is Text,
            PollState::Finished(_) => false,
        }
    }

    /// The number of the submission, once there is one.
    pub open spec fn submission(self) -> Option<String> {
        match self {
            PollState::Checking { request_id, .. } => Some(request_id),
            PollState::Pausing { request_id, .. } => Some(request_id),
            PollState::Polling { request_id, .. } => Some(request_id),
            PollState::PollAccepted { request_id } => Some(request_id),
            PollState::Finished(Err(PollError::TimedOut { request_id, .. })) => Some(request_id),
            PollState::Finished(Err(PollError::Expired { request_id })) => Some(request_id),
            _ => None,
        }
    }

    /// Whether polling was given up after too many failures in a row.
    pub open spec fn gave_up(self) -> bool {
        self matches PollState::Finished(Err(error)) && (error is Unreachable || error
            is Unavailable)
    }
}

/// An event moves a submission on exactly when it answers the effect that the
/// submission waits for.
pub proof fn only_answers_move(state: PollState, event: PollEvent, timeout_seconds: u64)
    ensures
        state.next(event, timeout_seconds) != state <==> state.answered_by(event),
{
}

/// What has finished stays as it is, whatever is reported later.
pub proof fn finished_for_good(start: PollState, events: Seq<PollEvent>, timeout_seconds: u64)
    requires
        start is Finished,
    ensures
        run(start, events, timeout_seconds) == start,
    decreases events.len(),
{
    if events.len() > 0 {
        finished_for_good(start, events.drop_last(), timeout_seconds);
    }
}

/// Polling is given up exactly when `MAX_TRANSIENT_RETRIES` polls in a row have
/// failed in a way that may pass. Until then the failures are counted from the
/// last poll that was answered.
pub proof fn gives_up_on_streak(
    request: VideoGenerationRequest,
    events: Seq<PollEvent>,
    timeout_seconds: u64,
)
    ensures
        ({
            let start = PollState::Submitting { request };
            let state = run(start, events, timeout_seconds);
            let streak = failure_streak(start, events, timeout_seconds);
            &&& streak <= MAX_TRANSIENT_RETRIES
            &&& state.gave_up() <==> streak == MAX_TRANSIENT_RETRIES
            &&& state matches PollState::Checking { failures, .. } ==> failures == streak
            &&& state matches PollState::Pausing { failures, .. } ==> failures == streak
            &&& state matches PollState::Polling { failures, .. } ==> failures == streak
        }),
    decreases events.len(),
{
    if events.len() > 0 {
        gives_up_on_streak(request, events.drop_last(), timeout_seconds);
        polling_starts_fresh(request, events.drop_last(), timeout_seconds);
    }
}

/// Before the first poll, and right after a poll that was answered, no failures
/// are counted.
proof fn polling_starts_fresh(
    request: VideoGenerationRequest,
    events: Seq<PollEvent>,
    timeout_seconds: u64,
)
    ensures
        ({
            let start = PollState::Submitting { request };
            let state = run(start, events, timeout_seconds);
            state is Submitting || state is SubmitAccepted || state is SubmitRefused || state
                is PollAccepted || state is PollRefused ==> failure_streak(
                start,
                events,
                timeout_seconds,
            ) == 0
        }),
    decreases events.len(),
{
    if events.len() > 0 {
        polling_starts_fresh(request, events.drop_last(), timeout_seconds);
    }
}

/// A submission keeps its number: what is polled, and what a timeout or an
/// expiry names, is what the reply to the submission named.
pub proof fn submission_is_kept(start: PollState, events: Seq<PollEvent>, timeout_seconds: u64)
    requires
        start.submission() is Some,
    ensures
        run(start, events, timeout_seconds).submission() matches Some(request_id) ==> Some(
            request_id,
        ) == start.submission(),
        run(start, events, timeout_seconds).submission() is None ==> run(
            start,
            events,
            timeout_seconds,
        ) is Finished || run(start, events, timeout_seconds) is PollRefused,
    decreases events.len(),
{
    if events.len() > 0 {
        submission_is_kept(start, events.drop_last(), timeout_seconds);
    }
}

/// Whether an event answered a poll.
pub open spec fn answers_poll(
    start: PollState,
    events: Seq<PollEvent>,
    timeout_seconds: u64,
    i: int,
) -> bool {
    run(start, events.take(i), timeout_seconds) is Polling && events[i] is Replied
}

/// Whether an event was the answer to a look at the clock, and found it before
/// the deadline or not.
pub open spec fn reads_clock(
    start: PollState,
    events: Seq<PollEvent>,
    timeout_seconds: u64,
    i: int,
    late: bool,
) -> bool {
    &&& 0 <= i < events.len()
    &&& run(start, events.take(i), timeout_seconds) is Checking
    &&& events[i] matches PollEvent::Elapsed(nanoseconds) && overdue(nanoseconds, timeout_seconds)
        == late
}

/// Each poll is preceded by its own look at the clock, which found it before the
/// deadline: since that look no poll was answered. A timeout is reported only
/// after a look that found the deadline reached.
pub proof fn deadline_is_kept(
    request: VideoGenerationRequest,
    events: Seq<PollEvent>,
    timeout_seconds: u64,
)
    ensures
        ({
            let start = PollState::Submitting { request };
            let state = run(start, events, timeout_seconds);
            &&& state is Pausing || state is Polling ==> exists|i: int| #[trigger]
                reads_clock(start, events, timeout_seconds, i, false) && forall|j: int|
                    i < j < events.len() ==> !#[trigger] answers_poll(
                        start,
                        events,
                        timeout_seconds,
                        j,
                    )
            &&& state matches PollState::Finished(Err(PollError::TimedOut { seconds, .. }))
                ==> seconds == timeout_seconds && exists|i: int| #[trigger]
                reads_clock(start, events, timeout_seconds, i, true)
        }),
    decreases events.len(),
{
    let start = PollState::Submitting { request };
    let state = run(start, events, timeout_seconds);
    if events.len() > 0 {
        let earlier = events.drop_last();
        let last = events.len() - 1;
        let before = run(start, earlier, timeout_seconds);
        deadline_is_kept(request, earlier, timeout_seconds);
        assert(events.take(last) =~= earlier);
        assert forall|i: int| 0 <= i < earlier.len() implies #[trigger] events.take(i)
            == earlier.take(i) by {
            assert(events.take(i) =~= earlier.take(i));
        }
        if state is Pausing || state is Polling {
            if before is Checking {
                assert(reads_clock(start, events, timeout_seconds, last, false));
            } else {
                let i = choose|i: int| #[trigger]
                    reads_clock(start, earlier, timeout_seconds, i, false) && forall|j: int|
                        i < j < earlier.len() ==> !#[trigger] answers_poll(
                            start,
                            earlier,
                            timeout_seconds,
                            j,
                        );
                assert(events.take(i) == earlier.take(i));
                assert(reads_clock(start, events, timeout_seconds, i, false));
                assert forall|j: int| i < j < events.len() implies !#[trigger] answers_poll(
                    start,
                    events,
                    timeout_seconds,
                    j,
                ) by {
                    if j < last {
                        assert(events.take(j) == earlier.take(j));
                        assert(!answers_poll(start, earlier, timeout_seconds, j));
                    }
                }
            }
        }
        if state matches PollState::Finished(Err(PollError::TimedOut { .. })) {
            if before is Checking {
                assert(reads_clock(start, events, timeout_seconds, last, true));
            } else {
                let i = choose|i: int| #[trigger]
                    reads_clock(start, earlier, timeout_seconds, i, true);
                assert(events.take(i) == earlier.take(i));
                assert(reads_clock(start, events, timeout_seconds, i, true));
            }
        }
    }
}

/// How many polls the caller was asked to send: one after each pause.
pub open spec fn polls_asked(
    start: PollState,
    events: Seq<PollEvent>,
    timeout_seconds: u64,
) -> nat
    decreases events.len(),
{
    if events.len() == 0 {
        0
    } else {
        let before = polls_asked(start, events.drop_last(), timeout_seconds);
        if run(start, events.drop_last(), timeout_seconds) is Pausing && events.last() is Rested {
            before + 1
        } else {
            before
        }
    }
}

/// Whether the clock is honest: what it shows is at least the time of the pauses
/// that were made.
pub open spec fn honest_clock(
    start: PollState,
    events: Seq<PollEvent>,
    timeout_seconds: u64,
    interval_seconds: u64,
) -> bool
    decreases events.len(),
{
    events.len() > 0 ==> {
        let earlier = events.drop_last();
        &&& honest_clock(start, earlier, timeout_seconds, interval_seconds)
        &&& run(start, earlier, timeout_seconds) is Checking ==> (events.last()
            matches PollEvent::Elapsed(nanoseconds) ==> nanoseconds >= polls_asked(
            start,
            earlier,
            timeout_seconds,
        ) * interval_seconds * 1_000_000_000)
    }
}

/// With an honest clock the number of polls is bounded: all the pauses before the
/// last one together are shorter than the timeout.
pub proof fn polls_are_bounded(
    request: VideoGenerationRequest,
    events: Seq<PollEvent>,
    timeout_seconds: u64,
    interval_seconds: u64,
)
    requires
        honest_clock(
            PollState::Submitting { request },
            events,
            timeout_seconds,
            interval_seconds,
        ),
    ensures
        ({
            let start = PollState::Submitting { request };
            let polls = polls_asked(start, events, timeout_seconds);
            &&& polls > 0 ==> (polls - 1) * interval_seconds < timeout_seconds
            &&& run(start, events, timeout_seconds) is Pausing ==> polls * interval_seconds
                < timeout_seconds
        }),
    decreases events.len(),
{
    if events.len() > 0 {
        polls_are_bounded(request, events.drop_last(), timeout_seconds, interval_seconds);
    }
}

impl PollState {
    /// The state without its place in a round of polling and without the
    /// failures that were counted.
    pub open spec fn outline(self) -> PollState {
        match self {
            PollState::Checking { request_id, .. } => PollState::Polling { request_id, failures: 0 },
            PollState::Pausing { request_id, .. } => PollState::Polling { request_id, failures: 0 },
            PollState::Polling { request_id, .. } => PollState::Polling { request_id, failures: 0 },
            _ => self,
        }
    }

    /// Whether an event says something about the submission itself: it answers
    /// the pending effect, and is no look at the clock, no pause and no poll that
    /// failed in a way that may pass.
    pub open spec fn informed_by(self, event: PollEvent) -> bool {
        &&& self.answered_by(event)
        &&& self !is Checking
        &&& self !is Pausing
        &&& self is Polling ==> !failed_poll(event->Replied_0)
    }

    /// Whether time or failures have ended the submission.
    pub open spec fn cut_short(self) -> bool {
        self.gave_up() || self matches PollState::Finished(Err(PollError::TimedOut { .. }))
    }
}

/// The events that say something about the submission itself, in order.
pub open spec fn substance(
    start: PollState,
    events: Seq<PollEvent>,
    timeout_seconds: u64,
) -> Seq<PollEvent>
    decreases events.len(),
{
    if events.len() == 0 {
        Seq::empty()
    } else {
        let earlier = substance(start, events.drop_last(), timeout_seconds);
        if run(start, events.drop_last(), timeout_seconds).informed_by(events.last()) {
            earlier.push(events.last())
        } else {
            earlier
        }
    }
}

/// The outline of a submission after the events that say something about it.
pub open spec fn replay(
    start: PollState,
    events: Seq<PollEvent>,
    timeout_seconds: u64,
) -> PollState
    decreases events.len(),
{
    if events.len() == 0 {
        start.outline()
    } else {
        replay(start, events.drop_last(), timeout_seconds).next(
            events.last(),
            timeout_seconds,
        ).outline()
    }
}

/// The outline of a submission that was not cut short depends only on the events
/// that say something about it.
proof fn outline_follows_substance(
    start: PollState,
    events: Seq<PollEvent>,
    timeout_seconds: u64,
)
    requires
        !run(start, events, timeout_seconds).cut_short(),
    ensures
        run(start, events, timeout_seconds).outline() == replay(
            start,
            substance(start, events, timeout_seconds),
            timeout_seconds,
        ),
    decreases events.len(),
{
    if events.len() > 0 {
        let earlier = events.drop_last();
        let before = run(start, earlier, timeout_seconds);
        outline_follows_substance(start, earlier, timeout_seconds);
        let said = substance(start, events, timeout_seconds);
        if before.informed_by(events.last()) {
            assert(said.drop_last() =~= substance(start, earlier, timeout_seconds));
            assert(said.last() == events.last());
        }
    }
}

/// Failures that pass make no difference: two submissions that are told the same
/// end alike, however many polls failed in between and however long the pauses
/// were, as long as neither ran out of time or of retries.
pub proof fn passing_failures_make_no_difference(
    start: PollState,
    first: Seq<PollEvent>,
    second: Seq<PollEvent>,
    timeout_seconds: u64,
)
    requires
        substance(start, first, timeout_seconds) == substance(start, second, timeout_seconds),
        !run(start, first, timeout_seconds).cut_short(),
        !run(start, second, timeout_seconds).cut_short(),
    ensures
        run(start, first, timeout_seconds).outline() == run(
            start,
            second,
            timeout_seconds,
        ).outline(),
        run(start, first, timeout_seconds) is Finished ==> run(start, first, timeout_seconds)
            == run(start, second, timeout_seconds),
{
    outline_follows_substance(start, first, timeout_seconds);
    outline_follows_substance(start, second, timeout_seconds);
}

/// Whether the events account for a refusal or an outcome: each error carries
/// what was reported, and each was reported for the reason that it names.
pub open spec fn accounted_for(state: PollState, events: Seq<PollEvent>) -> bool {
    match state {
        PollState::SubmitRefused { status } => was_refused(status, events),
        PollState::PollRefused { status } => was_refused(status, events)
            && !crate::status::transient_code(status.code()),
        PollState::Finished(Ok(response)) => response.status@ == "done"@ && events.contains(
            PollEvent::Polled(Ok(response)),
        ),
        PollState::Finished(Err(error)) => match error {
            PollError::Unsent(reason) => events.contains(PollEvent::Replied(Err(reason))),
            PollError::Refused { status, body } => was_refused(status, events) && events.contains(
                PollEvent::Text(body),
            ),
            PollError::BadSubmission(reason) => events.contains(PollEvent::Submitted(Err(reason))),
            PollError::TimedOut { seconds, .. } => exists|time: u128|
                overdue(time, seconds) && #[trigger] events.contains(PollEvent::Elapsed(time)),
            PollError::Unreachable(reason) => events.contains(PollEvent::Replied(Err(reason))),
            PollError::Unavailable(status) => was_refused(status, events)
                && crate::status::transient_code(status.code()),
            PollError::PollRefused { status, body } => was_refused(status, events)
                && !crate::status::transient_code(status.code()) && events.contains(
                PollEvent::Text(body),
            ),
            PollError::BadPoll(reason) => events.contains(PollEvent::Polled(Err(reason))),
            PollError::Expired { .. } => exists|response: VideoPollResponse|
                response.status@ == "expired"@ && #[trigger] events.contains(
                    PollEvent::Polled(Ok(response)),
                ),
        },
        _ => true,
    }
}

/// Whether a response without success came.
pub open spec fn was_refused(status: HttpStatus, events: Seq<PollEvent>) -> bool {
    !crate::status::success_code(status.code()) && events.contains(PollEvent::Replied(Ok(status)))
}

/// No outcome is made up: a submission succeeds only with a response that came to
/// a poll and whose status is `done`, and every error goes back to what was
/// reported.
pub proof fn outcome_is_accounted_for(
    request: VideoGenerationRequest,
    events: Seq<PollEvent>,
    timeout_seconds: u64,
)
    ensures
        accounted_for(run(PollState::Submitting { request }, events, timeout_seconds), events),
    decreases events.len(),
{
    if events.len() > 0 {
        let earlier = events.drop_last();
        outcome_is_accounted_for(request, earlier, timeout_seconds);
        assert forall|event: PollEvent| #[trigger] earlier.contains(event) implies events.contains(
            event,
        ) by {
            let i = choose|i: int| 0 <= i < earlier.len() && earlier[i] == event;
            assert(events[i] == event);
        }
        assert(events.contains(events.last())) by {
            assert(events[events.len() - 1] == events.last());
        }
        let before = run(PollState::Submitting { request }, earlier, timeout_seconds);
        match before {
            PollState::Finished(Err(PollError::TimedOut { seconds, .. })) => {
                let time = choose|time: u128|
                    overdue(time, seconds) && #[trigger] earlier.contains(PollEvent::Elapsed(time));
                assert(events.contains(PollEvent::Elapsed(time)));
            },
            PollState::Finished(Err(PollError::Expired { .. })) => {
                let response = choose|response: VideoPollResponse|
                    response.status@ == "expired"@ && #[trigger] earlier.contains(
                        PollEvent::Polled(Ok(response)),
                    );
                assert(events.contains(PollEvent::Polled(Ok(response))));
            },
            _ => {},
        }
    }
}

/// A round of polling that is begun in time and answered ends the submission if
/// the video is done or has expired. Otherwise the next round begins, with no
/// failures counted.
pub proof fn answered_round(
    request_id: String,
    failures: u32,
    nanoseconds: u128,
    status: HttpStatus,
    response: VideoPollResponse,
    timeout_seconds: u64,
)
    requires
        !overdue(nanoseconds, timeout_seconds),
        crate::status::success_code(status.code()),
    ensures
        run(
            PollState::Checking { request_id, failures },
            seq![
                PollEvent::Elapsed(nanoseconds),
                PollEvent::Rested,
                PollEvent::Replied(Ok(status)),
                PollEvent::Polled(Ok(response)),
            ],
            timeout_seconds,
        ) == if response.status@ == "done"@ {
            PollState::Finished(Ok(response))
        } else if response.status@ == "expired"@ {
            PollState::Finished(Err(PollError::Expired { request_id }))
        } else {
            PollState::Checking { request_id, failures: 0 }
        },
{
    let events = seq![
        PollEvent::Elapsed(nanoseconds),
        PollEvent::Rested,
        PollEvent::Replied(Ok(status)),
        PollEvent::Polled(Ok(response)),
    ];
    reveal_with_fuel(run, 5);
    assert(events.drop_last().drop_last().drop_last().drop_last() =~= Seq::<PollEvent>::empty());
}

/// A round of polling that is begun in time and fails in a way that may pass is
/// counted and followed by another, unless it is the last that is allowed.
pub proof fn failed_round(
    request_id: String,
    failures: u32,
    nanoseconds: u128,
    reply: Result<HttpStatus, String>,
    timeout_seconds: u64,
)
    requires
        !overdue(nanoseconds, timeout_seconds),
        failed_poll(reply),
    ensures
        ({
            let after = run(
                PollState::Checking { request_id, failures },
                seq![PollEvent::Elapsed(nanoseconds), PollEvent::Rested, PollEvent::Replied(reply)],
                timeout_seconds,
            );
            if failures + 1 < MAX_TRANSIENT_RETRIES {
                after == (PollState::Checking { request_id, failures: (failures + 1) as u32 })
            } else {
                after.gave_up()
            }
        }),
{
    let events = seq![
        PollEvent::Elapsed(nanoseconds),
        PollEvent::Rested,
        PollEvent::Replied(reply),
    ];
    reveal_with_fuel(run, 4);
    assert(events.drop_last().drop_last().drop_last() =~= Seq::<PollEvent>::empty());
}

/// The API key is sent to the API alone: whatever a submission asks to be sent
/// with it goes to an address below that of the API.
pub proof fn key_goes_to_the_api(
    state: PollState,
    effect: PollEffect<'_>,
    api_key: Seq<char>,
    interval_seconds: u64,
)
    requires
        state.asks(effect, api_key, interval_seconds),
    ensures
        effect matches PollEffect::Submit { url, .. } ==> GROK_VIDEO_POLL_URL@.is_prefix_of(url@),
        effect matches PollEffect::Poll { url, .. } ==> GROK_VIDEO_POLL_URL@.is_prefix_of(url@),
{
    reveal_strlit("https://api.x.ai/v1/videos/generations");
    reveal_strlit("https://api.x.ai/v1/videos");
    assert(GROK_VIDEO_POLL_URL@ =~= GROK_VIDEO_SUBMIT_URL@.take(GROK_VIDEO_POLL_URL@.len() as int));
    if let PollState::Polling { request_id, .. } = state {
        assert(GROK_VIDEO_POLL_URL@.is_prefix_of(poll_url(request_id@)));
    }
}

} // verus!
