//! One exchange over one connection, as a state machine.
//!
//! The machine decides and the caller acts: each [`Action`] names one
//! operation on the connection, the file system or a child process, and the
//! caller reports how it went with the next [`Event`]. An exchange frames one
//! request, decodes it, stages and runs the source, and sends the encoded
//! result; nothing is tried twice.

use crate::dispatch::{
    collect_result, collected, launch_failed, launch_failure, plan, plan_of, staging, staging_of,
    Invocation, InvocationView, Plan, PlanView, Staging, StagingView,
};
use crate::frame::{frame_status, FrameStatus, Framer};
use crate::json::json_object;
use crate::message::{
    decode_request, encode_result, encoded_result, parse_failure, parse_failure_text,
    request_of_object, DecodeErrorView, ExecutionRequest, ExecutionResult,
    RequestView, ResultView,
};
use crate::unicode::{utf8_lossy, utf8_lossy_text};
use vstd::prelude::*;
use vstd::slice::{slice_subrange, slice_to_vec};
use vstd::utf8::encode_utf8;

verus! {

/// Where an exchange stands.
#[derive(Debug, Clone, Copy, PartialEq, Eq, Structural)]
pub enum Phase {
    /// Reading the request.
    Framing,
    /// The source is being written to the scratch directory.
    Staging,
    /// The child process is running.
    Running,
    /// The result is being written to the connection.
    Sending,
    /// Over: the result was sent in full.
    Answered,
    /// Over: the exchange was given up without a full answer.
    Aborted,
}

/// What the caller reports.
#[derive(Debug)]
pub enum Event {
    /// A read delivered these bytes; none means that the peer closed.
    Received(Vec<u8>),
    /// A read failed.
    ReceiveFailed,
    /// The source was staged.
    Staged,
    /// The source could not be staged.
    StagingFailed,
    /// The child process ended. `exit_code` is `None` where it left none,
    /// as when a signal killed it.
    Exited { exit_code: Option<i32>, stdout: Vec<u8>, stderr: Vec<u8> },
    /// The child process could not be started; the text says why.
    LaunchFailed(String),
    /// A write took this many bytes.
    Sent(usize),
    /// A write failed.
    SendFailed,
}

/// The mathematical value of an [`Event`].
pub enum EventView {
    Received(Seq<u8>),
    ReceiveFailed,
    Staged,
    StagingFailed,
    Exited { exit_code: Option<i32>, stdout: Seq<u8>, stderr: Seq<u8> },
    LaunchFailed(Seq<char>),
    Sent(nat),
    SendFailed,
}

impl View for Event {
    type V = EventView;

    open spec fn view(&self) -> EventView {
        match self {
            Event::Received(bytes) => EventView::Received(bytes@),
            Event::ReceiveFailed => EventView::ReceiveFailed,
            Event::Staged => EventView::Staged,
            Event::StagingFailed => EventView::StagingFailed,
            Event::Exited { exit_code, stdout, stderr } => EventView::Exited {
                exit_code: *exit_code,
                stdout: stdout@,
                stderr: stderr@,
            },
            Event::LaunchFailed(detail) => EventView::LaunchFailed(detail@),
            Event::Sent(count) => EventView::Sent(*count as nat),
            Event::SendFailed => EventView::SendFailed,
        }
    }
}

/// What the caller is to do next.
#[derive(Debug)]
pub enum Action {
    /// Read from the connection and report what came.
    Receive,
    /// Write this file and report whether that worked.
    Stage(Staging),
    /// Run this child process to its end and report its exit code and output.
    Launch(Invocation),
    /// Write these bytes to the connection and report how many were taken.
    Send(Vec<u8>),
    /// Close the connection: the exchange is over.
    Close,
}

/// The mathematical value of an [`Action`].
pub enum ActionView {
    Receive,
    Stage(StagingView),
    Launch(InvocationView),
    Send(Seq<u8>),
    Close,
}

impl View for Action {
    type V = ActionView;

    open spec fn view(&self) -> ActionView {
        match self {
            Action::Receive => ActionView::Receive,
            Action::Stage(staging) => ActionView::Stage(staging@),
            Action::Launch(invocation) => ActionView::Launch(invocation@),
            Action::Send(bytes) => ActionView::Send(bytes@),
            Action::Close => ActionView::Close,
        }
    }
}

/// The state of one exchange.
#[derive(Debug)]
pub struct Exchange {
    phase: Phase,
    framer: Framer,
    request: Option<ExecutionRequest>,
    outgoing: Vec<u8>,
    sent: usize,
}

/// The mathematical value of an [`Exchange`].
pub struct ExchangeView {
    /// Where the exchange stands.
    pub phase: Phase,
    /// The bytes of the request read so far.
    pub received: Seq<u8>,
    /// The decoded request, while its source is being staged.
    pub request: Option<RequestView>,
    /// The bytes of the encoded result.
    pub outgoing: Seq<u8>,
    /// How many of them have been written.
    pub sent: nat,
}

impl View for Exchange {
    type V = ExchangeView;

    closed spec fn view(&self) -> ExchangeView {
        ExchangeView {
            phase: self.phase,
            received: self.framer@,
            request: match self.request {
                Some(request) => Some(request@),
                None => None,
            },
            outgoing: self.outgoing@,
            sent: self.sent as nat,
        }
    }
}

/// An exchange that has just been accepted.
pub open spec fn accepted() -> ExchangeView {
    ExchangeView {
        phase: Phase::Framing,
        received: Seq::empty(),
        request: None,
        outgoing: Seq::empty(),
        sent: 0,
    }
}

/// Giving the exchange up.
pub open spec fn abort_of(state: ExchangeView) -> (ExchangeView, ActionView) {
    (ExchangeView { phase: Phase::Aborted, ..state }, ActionView::Close)
}

/// Answering with `result`: its encoding is sent from the first byte on. Where
/// the encoder fails the exchange is given up.
pub open spec fn answer_of(state: ExchangeView, result: ResultView) -> (ExchangeView, ActionView) {
    match encoded_result(result) {
        Some(text) => (
            ExchangeView {
                phase: Phase::Sending,
                request: None,
                outgoing: encode_utf8(text),
                sent: 0,
                ..state
            },
            ActionView::Send(encode_utf8(text)),
        ),
        None => abort_of(ExchangeView { request: None, ..state }),
    }
}

/// What becomes of a framed payload. It is decoded as text, lossily, and
/// parsed. A request is staged; anything else is answered with a parse
/// failure. `detail` stands for the parser's description of a payload that is
/// not one JSON object, and is read in that case alone.
pub open spec fn payload_of(state: ExchangeView, detail: Seq<char>) -> (ExchangeView, ActionView) {
    match json_object(utf8_lossy(state.received)) {
        Some(members) => match request_of_object(members) {
            Ok(request) => (
                ExchangeView { phase: Phase::Staging, request: Some(request), ..state },
                ActionView::Stage(staging_of(request)),
            ),
            Err(e) => answer_of(state, ExecutionResult::failure(parse_failure_text(e))),
        },
        None => answer_of(
            state,
            ExecutionResult::failure(parse_failure_text(DecodeErrorView::Malformed(detail))),
        ),
    }
}

/// How many bytes of the result are still to be written.
pub open spec fn unsent(state: ExchangeView) -> nat {
    if state.sent <= state.outgoing.len() {
        (state.outgoing.len() - state.sent) as nat
    } else {
        0
    }
}

/// The step that `event` makes from `state`: the next state and the action to
/// take. An event that does not answer the action of the current phase, and
/// every reported failure but that of starting the child, gives the exchange
/// up. Once over, an exchange stays as it is. `detail` is as in
/// [`payload_of`].
pub open spec fn transition(state: ExchangeView, event: EventView, detail: Seq<char>) -> (
    ExchangeView,
    ActionView,
) {
    match state.phase {
        Phase::Framing => match event {
            EventView::Received(chunk) => {
                let next = ExchangeView { received: state.received + chunk, ..state };
                match frame_status(state.received, chunk) {
                    FrameStatus::Incomplete => (next, ActionView::Receive),
                    FrameStatus::Complete => payload_of(next, detail),
                }
            },
            _ => abort_of(state),
        },
        Phase::Staging => match (event, state.request) {
            (EventView::Staged, Some(request)) => match plan_of(request) {
                PlanView::Run(invocation) => (
                    ExchangeView { phase: Phase::Running, request: None, ..state },
                    ActionView::Launch(invocation),
                ),
                PlanView::Reject(result) => answer_of(state, result),
            },
            _ => abort_of(state),
        },
        Phase::Running => match event {
            EventView::Exited { exit_code, stdout, stderr } => answer_of(
                state,
                collected(exit_code, stdout, stderr),
            ),
            EventView::LaunchFailed(why) => answer_of(state, launch_failed(why)),
            _ => abort_of(state),
        },
        Phase::Sending => match event {
            EventView::Sent(count) => if count >= unsent(state) {
                (
                    ExchangeView { phase: Phase::Answered, sent: state.outgoing.len(), ..state },
                    ActionView::Close,
                )
            } else {
                (
                    ExchangeView { sent: state.sent + count, ..state },
                    ActionView::Send(state.outgoing.skip((state.sent + count) as int)),
                )
            },
            _ => abort_of(state),
        },
        Phase::Answered | Phase::Aborted => (state, ActionView::Close),
    }
}

impl Exchange {
    /// Opens the exchange of a connection that was just accepted. Its first
    /// action is to read.
    pub fn start() -> (r: (Exchange, Action))
        ensures
            r.0@ == accepted(),
            r.1@ == ActionView::Receive,
    {
        (
            Exchange {
                phase: Phase::Framing,
                framer: Framer::new(),
                request: None,
                outgoing: Vec::new(),
                sent: 0,
            },
            Action::Receive,
        )
    }

    /// Where the exchange stands.
    pub fn phase(&self) -> (r: Phase)
        ensures
            r == self@.phase,
    {
        self.phase
    }

    /// Whether the exchange is over.
    pub fn is_over(&self) -> (r: bool)
        ensures
            r == (self@.phase == Phase::Answered || self@.phase == Phase::Aborted),
    {
        match self.phase {
            Phase::Answered | Phase::Aborted => true,
            _ => false,
        }
    }

    /// The bytes of the request read so far.
    pub fn received(&self) -> (r: &[u8])
        ensures
            r@ == self@.received,
    {
        self.framer.bytes()
    }

    fn abort(&mut self) -> (action: Action)
        ensures
            (final(self)@, action@) == abort_of(old(self)@),
    {
        self.phase = Phase::Aborted;
        Action::Close
    }

    fn answer(&mut self, result: ExecutionResult) -> (action: Action)
        ensures
            (final(self)@, action@) == answer_of(old(self)@, result@),
    {
        self.request = None;
        match encode_result(&result) {
            Ok(text) => {
                let bytes = text.as_str().as_bytes_vec();
                self.phase = Phase::Sending;
                self.outgoing = slice_to_vec(bytes.as_slice());
                self.sent = 0;
                Action::Send(bytes)
            },
            Err(_) => self.abort(),
        }
    }

    fn dispatch_payload(&mut self) -> (action: Action)
        ensures
            exists|detail: Seq<char>| #[trigger]
                payload_of(old(self)@, detail) == (final(self)@, action@),
    {
        let text = utf8_lossy_text(self.framer.bytes());
        match decode_request(text.as_str()) {
            Ok(request) => {
                let staged = staging(&request);
                self.phase = Phase::Staging;
                self.request = Some(request);
                assert(payload_of(old(self)@, Seq::empty()) == (self@, ActionView::Stage(staged@)));
                Action::Stage(staged)
            },
            Err(error) => {
                let ghost detail = match error@ {
                    DecodeErrorView::Malformed(m) => m,
                    _ => Seq::empty(),
                };
                let action = self.answer(parse_failure(&error));
                assert(payload_of(old(self)@, detail) == (self@, action@));
                action
            },
        }
    }

    /// Takes the caller's report and says what to do next.
    pub fn step(&mut self, event: Event) -> (action: Action)
        ensures
            exists|detail: Seq<char>| #[trigger]
                transition(old(self)@, event@, detail) == (final(self)@, action@),
    {
        let ghost before = self@;
        let ghost happened = event@;
        match self.phase {
            Phase::Framing => match event {
                Event::Received(chunk) => {
                    match self.framer.accept(chunk.as_slice()) {
                        FrameStatus::Incomplete => {
                            assert(transition(before, happened, Seq::empty()) == (
                                self@,
                                ActionView::Receive,
                            ));
                            Action::Receive
                        },
                        FrameStatus::Complete => {
                            let ghost framed = self@;
                            let action = self.dispatch_payload();
                            proof {
                                let detail = choose|detail: Seq<char>| #[trigger]
                                    payload_of(framed, detail) == (self@, action@);
                                assert(transition(before, happened, detail) == (self@, action@));
                            }
                            action
                        },
                    }
                },
                _ => {
                    let action = self.abort();
                    assert(transition(before, happened, Seq::empty()) == (self@, action@));
                    action
                },
            },
            Phase::Staging => match (event, self.request.take()) {
                (Event::Staged, Some(request)) => {
                    let action = match plan(&request) {
                        Plan::Run(invocation) => {
                            self.phase = Phase::Running;
                            Action::Launch(invocation)
                        },
                        Plan::Reject(result) => self.answer(result),
                    };
                    assert(transition(before, happened, Seq::empty()) == (self@, action@));
                    action
                },
                (_, request) => {
                    self.request = request;
                    let action = self.abort();
                    assert(transition(before, happened, Seq::empty()) == (self@, action@));
                    action
                },
            },
            Phase::Running => {
                let action = match event {
                    Event::Exited { exit_code, stdout, stderr } => self.answer(
                        collect_result(exit_code, stdout.as_slice(), stderr.as_slice()),
                    ),
                    Event::LaunchFailed(why) => self.answer(launch_failure(why.as_str())),
                    _ => self.abort(),
                };
                assert(transition(before, happened, Seq::empty()) == (self@, action@));
                action
            },
            Phase::Sending => {
                let action = match event {
                    Event::Sent(count) => {
                        let total: usize = self.outgoing.len();
                        let unsent: usize = if self.sent <= total {
                            total - self.sent
                        } else {
                            0
                        };
                        if count >= unsent {
                            self.phase = Phase::Answered;
                            self.sent = total;
                            Action::Close
                        } else {
                            self.sent = self.sent + count;
                            Action::Send(
                                slice_to_vec(
                                    slice_subrange(self.outgoing.as_slice(), self.sent, total),
                                ),
                            )
                        }
                    },
                    _ => self.abort(),
                };
                assert(transition(before, happened, Seq::empty()) == (self@, action@));
                action
            },
            Phase::Answered | Phase::Aborted => {
                assert(transition(before, happened, Seq::empty()) == (self@, ActionView::Close));
                Action::Close
            },
        }
    }
}

/// The order of the phases: an exchange only moves forward in it.
pub open spec fn rank(phase: Phase) -> nat {
    match phase {
        Phase::Framing => 0,
        Phase::Staging => 1,
        Phase::Running => 2,
        Phase::Sending => 3,
        Phase::Answered => 4,
        Phase::Aborted => 4,
    }
}

/// Whether the exchange is over.
pub open spec fn over(phase: Phase) -> bool {
    phase == Phase::Answered || phase == Phase::Aborted
}

/// An exchange that is over stays as it is, whatever is reported: the only
/// action left is to close.
pub proof fn lemma_over_is_final(state: ExchangeView, event: EventView, detail: Seq<char>)
    requires
        over(state.phase),
    ensures
        transition(state, event, detail) == (state, ActionView::Close),
{
}

/// No step goes back to an earlier phase, and no step is tried a second
/// time: only reading and writing go on within their phase, and staging and
/// running are each left by the first report.
pub proof fn lemma_phases_move_forward(state: ExchangeView, event: EventView, detail: Seq<char>)
    ensures
        rank(transition(state, event, detail).0.phase) >= rank(state.phase),
        state.phase == Phase::Staging || state.phase == Phase::Running ==> rank(
            transition(state, event, detail).0.phase,
        ) > rank(state.phase),
{
}

/// The exchange asks to close exactly when it is over.
pub proof fn lemma_close_means_over(state: ExchangeView, event: EventView, detail: Seq<char>)
    ensures
        transition(state, event, detail).1 == ActionView::Close <==> over(
            transition(state, event, detail).0.phase,
        ),
{
}

/// A write that took bytes brings the end nearer: either the result is sent
/// in full and the exchange is answered, or fewer bytes are left than before.
pub proof fn lemma_sending_makes_progress(state: ExchangeView, count: nat, detail: Seq<char>)
    requires
        state.phase == Phase::Sending,
        count > 0,
    ensures
        ({
            let next = transition(state, EventView::Sent(count), detail).0;
            next.phase == Phase::Answered && next.sent == next.outgoing.len() || next.phase
                == Phase::Sending && unsent(next) < unsent(state)
        }),
{
}

/// The finished child's exit code is what the answer reports, and the answer
/// says success exactly for exit code zero.
pub proof fn lemma_exit_code_is_reported(
    state: ExchangeView,
    code: i32,
    stdout: Seq<u8>,
    stderr: Seq<u8>,
    detail: Seq<char>,
)
    requires
        state.phase == Phase::Running,
    ensures
        ({
            let result = collected(Some(code), stdout, stderr);
            &&& transition(
                state,
                EventView::Exited { exit_code: Some(code), stdout, stderr },
                detail,
            ) == answer_of(state, result)
            &&& result.exit_code == code
            &&& result.success <==> result.exit_code == 0
        }),
{
}

/// A request that names no supported language is answered, not dropped: once
/// its source is staged, the exchange answers with the fixed rejection, and
/// starts no child process.
pub proof fn lemma_unsupported_language_is_answered(
    state: ExchangeView,
    request: RequestView,
    detail: Seq<char>,
)
    requires
        state.phase == Phase::Staging,
        state.request == Some(request),
        crate::dispatch::language_of(request.language) is None,
    ensures
        transition(state, EventView::Staged, detail) == answer_of(
            state,
            crate::dispatch::unsupported(),
        ),
        !crate::dispatch::unsupported().success,
        crate::dispatch::unsupported().exit_code == -1,
{
}

/// Whether a framed payload decodes to a request.
pub open spec fn decodable(payload: Seq<u8>) -> bool {
    match json_object(utf8_lossy(payload)) {
        Some(members) => request_of_object(members) is Ok,
        None => false,
    }
}

/// A payload that does not decode to a request is answered with a result that
/// reports failure, holds no output, explains itself on `stderr` and carries
/// the exit code -1.
pub proof fn lemma_undecodable_payload_is_answered(
    state: ExchangeView,
    chunk: Seq<u8>,
    detail: Seq<char>,
)
    requires
        state.phase == Phase::Framing,
        frame_status(state.received, chunk) == FrameStatus::Complete,
        !decodable(state.received + chunk),
    ensures
        exists|result: ResultView|
            {
                &&& #[trigger] answer_of(
                    ExchangeView { received: state.received + chunk, ..state },
                    result,
                ) == transition(state, EventView::Received(chunk), detail)
                &&& !result.success
                &&& result.stdout.len() == 0
                &&& result.stderr.len() > 0
                &&& result.exit_code == -1
            },
{
    reveal_strlit("Failed to parse request: ");
    let next = ExchangeView { received: state.received + chunk, ..state };
    let error = match json_object(utf8_lossy(next.received)) {
        Some(members) => request_of_object(members)->Err_0,
        None => DecodeErrorView::Malformed(detail),
    };
    let result = ExecutionResult::failure(parse_failure_text(error));
    assert(answer_of(next, result) == transition(state, EventView::Received(chunk), detail));
}

} // verus!
