//! The decisions of one request attempt.
//!
//! An executor tells its caller which step to take on the transport; the
//! caller takes it and reports what happened. The steps come in one order:
//! connect, write the header, write the body or close it, read the response
//! header, read the response body chunk by chunk to its end.

use vstd::prelude::*;
use vstd::string::StringExecFns;

use crate::header::{ascii_chars, is_text, text_accepted};
use crate::outcome::{HeaderError, RequestError, RequestOutcome, Stage, TransportError};
use crate::request::{texts_of, Header, HeaderText, RequestSpec};

verus! {

/// What an executor is waiting for.
#[derive(Clone, Copy, Debug, PartialEq, Eq)]
pub enum Phase {
    /// A connection to the endpoint.
    Connecting,
    /// The request header to be written.
    WritingHeader,
    /// The request body to be written or closed.
    WritingBody,
    /// The response header.
    AwaitingResponse,
    /// The next chunk of the response body, or its end.
    Draining,
    /// Nothing: the attempt is over.
    Done,
}

/// One header of a response, its value as it came.
#[derive(Clone, Debug, PartialEq, Eq)]
pub struct ResponseHeader {
    pub name: String,
    pub value: Vec<u8>,
}

/// Status and headers of a response.
#[derive(Clone, Debug, PartialEq, Eq)]
pub struct ResponseHead {
    pub status: u16,
    pub headers: Vec<ResponseHeader>,
}

/// What the transport reports.
#[derive(Clone, Debug, PartialEq, Eq)]
pub enum Event {
    Connected,
    HeaderWritten,
    BodyWritten,
    ResponseHead(ResponseHead),
    BodyChunk(Vec<u8>),
    /// The response body has ended, `elapsed` nanoseconds after the attempt began.
    BodyEnd { elapsed: u64 },
    /// The step under way failed.
    Failed { reason: String },
}

/// The step that the caller takes next.
#[derive(Clone, Debug, PartialEq, Eq)]
pub enum Action {
    WriteHeader(Vec<Header>),
    /// Write the body of the request and close it.
    WriteBody,
    /// Close the body of a request that has none.
    FinishBody,
    ReadResponseHeader,
    ReadBodyChunk,
    /// The attempt is over.
    Finish(RequestOutcome),
}

/// A part of the response that a diagnostic attempt shows.
#[derive(Clone, Debug, PartialEq, Eq)]
pub enum Shown {
    Head(ResponseHead),
    Chunk(Vec<u8>),
}

/// The answer of an executor to an event: what to show, and what to do next.
#[derive(Clone, Debug, PartialEq, Eq)]
pub struct Step {
    pub show: Option<Shown>,
    pub next: Action,
}

/// One request attempt.
#[derive(Clone, Copy, Debug, PartialEq, Eq)]
pub struct RequestExecutor {
    /// The response is shown as it arrives.
    pub diagnostic: bool,
    pub phase: Phase,
}

impl Phase {
    /// The step that fails where the transport fails in this phase.
    pub open spec fn stage(self) -> Stage {
        match self {
            Phase::Connecting => Stage::Connect,
            Phase::WritingHeader => Stage::WriteHeader,
            Phase::WritingBody => Stage::WriteBody,
            Phase::AwaitingResponse => Stage::ReadHeader,
            Phase::Draining | Phase::Done => Stage::ReadBody,
        }
    }
}

impl ResponseHeader {
    /// The value as it is shown: its text, or a marker where it is not text.
    pub open spec fn spec_shown_value(&self) -> Seq<char> {
        if is_text(self.value@) {
            ascii_chars(self.value@)
        } else {
            "<binary>"@
        }
    }

    /// The value as it is shown: its text, or a marker where it is not text.
    pub fn shown_value(&self) -> (text: String)
        ensures
            text@ == self.spec_shown_value(),
    {
        match text_accepted(self.value.as_slice()) {
            Some(text) => text,
            None => String::from_str("<binary>"),
        }
    }
}

/// The phase after `event` arrives in `phase`. `sendable` says whether the
/// headers of the request can be built.
pub open spec fn next_phase(phase: Phase, event: Event, sendable: bool) -> Phase {
    match (phase, event) {
        (Phase::Connecting, Event::Connected) => if sendable {
            Phase::WritingHeader
        } else {
            Phase::Done
        },
        (Phase::WritingHeader, Event::HeaderWritten) => Phase::WritingBody,
        (Phase::WritingBody, Event::BodyWritten) => Phase::AwaitingResponse,
        (Phase::AwaitingResponse, Event::ResponseHead(_)) => Phase::Draining,
        (Phase::Draining, Event::BodyChunk(_)) => Phase::Draining,
        _ => Phase::Done,
    }
}

/// The end of an attempt in failure.
pub open spec fn failure(cause: RequestError) -> Step {
    Step { show: None, next: Action::Finish(RequestOutcome::Failure { cause }) }
}

/// A step that shows nothing.
pub open spec fn quiet(next: Action) -> Step {
    Step { show: None, next }
}

/// The step ends the attempt in success.
pub open spec fn ends_in_success(step: Step) -> bool {
    step.next matches Action::Finish(RequestOutcome::Success { .. })
}

/// `step` is the answer to `event` in `phase`.
///
/// Each phase has one event that moves the attempt on. The header is
/// written once the connection stands, unless a user-supplied header cannot
/// be sent, which ends the attempt. Only the end of the response body ends
/// it in success: every chunk before is read, shown or not. A failure of
/// the transport ends the attempt with the step that failed; any other
/// event ends it as out of order.
pub open spec fn answers(
    step: Step,
    diagnostic: bool,
    phase: Phase,
    event: Event,
    has_body: bool,
    headers: Result<Seq<HeaderText>, HeaderError>,
) -> bool {
    match (phase, event) {
        (Phase::Done, _) => step == failure(RequestError::OutOfOrder),
        (_, Event::Failed { reason }) => step == failure(
            RequestError::Transport(TransportError { stage: phase.stage(), reason }),
        ),
        (Phase::Connecting, Event::Connected) => match headers {
            Ok(texts) => {
                &&& step.show is None
                &&& step.next matches Action::WriteHeader(built)
                &&& texts_of(built@) == texts
            },
            Err(e) => step == failure(RequestError::Header(e)),
        },
        (Phase::WritingHeader, Event::HeaderWritten) => step == quiet(
            if has_body {
                Action::WriteBody
            } else {
                Action::FinishBody
            },
        ),
        (Phase::WritingBody, Event::BodyWritten) => step == quiet(Action::ReadResponseHeader),
        (Phase::AwaitingResponse, Event::ResponseHead(head)) => step == Step {
            show: if diagnostic {
                Some(Shown::Head(head))
            } else {
                None
            },
            next: Action::ReadBodyChunk,
        },
        (Phase::Draining, Event::BodyChunk(chunk)) => step == Step {
            show: if diagnostic {
                Some(Shown::Chunk(chunk))
            } else {
                None
            },
            next: Action::ReadBodyChunk,
        },
        (Phase::Draining, Event::BodyEnd { elapsed }) => step == quiet(
            Action::Finish(RequestOutcome::Success { latency: elapsed }),
        ),
        _ => step == failure(RequestError::OutOfOrder),
    }
}

impl RequestExecutor {
    /// A new attempt. Its caller connects to the endpoint first.
    pub fn begin(diagnostic: bool) -> (executor: RequestExecutor)
        ensures
            executor.diagnostic == diagnostic,
            executor.phase is Connecting,
    {
        RequestExecutor { diagnostic, phase: Phase::Connecting }
    }

    /// Whether the attempt is over.
    pub fn is_done(&self) -> (done: bool)
        ensures
            done == (self.phase is Done),
    {
        match self.phase {
            Phase::Done => true,
            _ => false,
        }
    }

    /// The step of the transport that is under way.
    pub fn stage(&self) -> (stage: Stage)
        ensures
            stage == self.phase.stage(),
    {
        stage_of(self.phase)
    }

    /// Takes what the transport reports and answers with the next step.
    pub fn advance(&mut self, spec: &RequestSpec, event: Event) -> (step: Step)
        ensures
            final(self).diagnostic == old(self).diagnostic,
            final(self).phase == next_phase(old(self).phase, event, spec.spec_header_set() is Ok),
            answers(
                step,
                old(self).diagnostic,
                old(self).phase,
                event,
                spec.spec_body() is Some,
                spec.spec_header_set(),
            ),
    {
        let phase = self.phase;
        self.phase = Phase::Done;
        match (phase, event) {
            (Phase::Done, _) => end_in_failure(RequestError::OutOfOrder),
            (_, Event::Failed { reason }) => end_in_failure(
                RequestError::Transport(TransportError { stage: stage_of(phase), reason }),
            ),
            (Phase::Connecting, Event::Connected) => match spec.header_set() {
                Ok(built) => {
                    self.phase = Phase::WritingHeader;
                    proceed(Action::WriteHeader(built))
                },
                Err(e) => end_in_failure(RequestError::Header(e)),
            },
            (Phase::WritingHeader, Event::HeaderWritten) => {
                self.phase = Phase::WritingBody;
                if spec.body().is_some() {
                    proceed(Action::WriteBody)
                } else {
                    proceed(Action::FinishBody)
                }
            },
            (Phase::WritingBody, Event::BodyWritten) => {
                self.phase = Phase::AwaitingResponse;
                proceed(Action::ReadResponseHeader)
            },
            (Phase::AwaitingResponse, Event::ResponseHead(head)) => {
                self.phase = Phase::Draining;
                let show = if self.diagnostic {
                    Some(Shown::Head(head))
                } else {
                    None
                };
                Step { show, next: Action::ReadBodyChunk }
            },
            (Phase::Draining, Event::BodyChunk(chunk)) => {
                self.phase = Phase::Draining;
                let show = if self.diagnostic {
                    Some(Shown::Chunk(chunk))
                } else {
                    None
                };
                Step { show, next: Action::ReadBodyChunk }
            },
            (Phase::Draining, Event::BodyEnd { elapsed }) => proceed(
                Action::Finish(RequestOutcome::Success { latency: elapsed }),
            ),
            _ => end_in_failure(RequestError::OutOfOrder),
        }
    }
}

/// The step that fails where the transport fails in `phase`.
fn stage_of(phase: Phase) -> (stage: Stage)
    ensures
        stage == phase.stage(),
{
    match phase {
        Phase::Connecting => Stage::Connect,
        Phase::WritingHeader => Stage::WriteHeader,
        Phase::WritingBody => Stage::WriteBody,
        Phase::AwaitingResponse => Stage::ReadHeader,
        Phase::Draining => Stage::ReadBody,
        Phase::Done => Stage::ReadBody,
    }
}

/// The end of an attempt in failure.
fn end_in_failure(cause: RequestError) -> (step: Step)
    ensures
        step == failure(cause),
{
    Step { show: None, next: Action::Finish(RequestOutcome::Failure { cause }) }
}

/// A step that shows nothing.
fn proceed(next: Action) -> (step: Step)
    ensures
        step == quiet(next),
{
    Step { show: None, next }
}

/// An attempt ends in success only when the end of the response body is
/// reported while the body is being read: the body is always read to its end.
pub proof fn lemma_success_only_after_drain(
    step: Step,
    diagnostic: bool,
    phase: Phase,
    event: Event,
    has_body: bool,
    headers: Result<Seq<HeaderText>, HeaderError>,
)
    requires
        answers(step, diagnostic, phase, event, has_body, headers),
        ends_in_success(step),
    ensures
        phase is Draining,
        event is BodyEnd,
        step == quiet(Action::Finish(RequestOutcome::Success { latency: event->elapsed })),
{
}

/// An attempt that does not show the response shows nothing at all.
pub proof fn lemma_quiet_unless_diagnostic(
    step: Step,
    phase: Phase,
    event: Event,
    has_body: bool,
    headers: Result<Seq<HeaderText>, HeaderError>,
)
    requires
        answers(step, false, phase, event, has_body, headers),
    ensures
        step.show is None,
{
}

/// The attempt is over exactly when the caller is told to finish.
pub proof fn lemma_finish_iff_done(
    step: Step,
    diagnostic: bool,
    phase: Phase,
    event: Event,
    has_body: bool,
    headers: Result<Seq<HeaderText>, HeaderError>,
)
    requires
        answers(step, diagnostic, phase, event, has_body, headers),
    ensures
        step.next is Finish <==> next_phase(phase, event, headers is Ok) is Done,
{
}

} // verus!
