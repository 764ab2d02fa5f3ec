//! One connection, as the server sees it.
//!
//! A session waits for a header, then for the body that the header announces,
//! then for the response to the command, then for the response to be on its
//! way, and starts over. It reads and writes nothing itself: the caller
//! reports what happened on the transport, and the session says what to do
//! next. One command is in the works at a time; the next header is asked for
//! only when the response has been written.

use crate::codec::{encode_frame, frame_of, oversized_error, payload_length};
use crate::error::{PdbError, PdbErrorView};
use crate::protocol::MessageHeader;
use vstd::prelude::*;
use vstd::string::*;

verus! {

/// Where a session stands.
#[derive(Debug, Clone, Copy, PartialEq, Eq, Structural)]
pub enum SessionState {
    /// Waiting for the eight bytes of a header.
    AwaitHeader,
    /// Waiting for the `length` bytes of a body.
    AwaitBody { length: usize },
    /// Waiting for the response to the command that the body holds.
    Dispatch,
    /// Waiting for the response to be written.
    Respond,
    /// Over. Nothing brings a session back from here.
    Closed,
}

/// What the caller reports to a session.
#[derive(Debug, PartialEq, Eq)]
pub enum SessionEvent {
    /// The eight bytes of a header were read.
    Header([u8; 8]),
    /// The peer closed the stream before the first byte of a header.
    EndOfStream,
    /// The bytes of the body were read.
    Body(Vec<u8>),
    /// The command was answered; this is the response, ready to be framed.
    Reply(Vec<u8>),
    /// The body is no command, or the response could not be written down.
    Malformed(String),
    /// The frame was written and flushed.
    Written,
    /// Reading or writing the transport failed.
    Failed(String),
}

/// The mathematical value of a [`SessionEvent`].
pub enum SessionEventView {
    Header(Seq<u8>),
    EndOfStream,
    Body(Seq<u8>),
    Reply(Seq<u8>),
    Malformed(Seq<char>),
    Written,
    Failed(Seq<char>),
}

impl View for SessionEvent {
    type V = SessionEventView;

    open spec fn view(&self) -> SessionEventView {
        match self {
            SessionEvent::Header(bytes) => SessionEventView::Header(bytes@),
            SessionEvent::EndOfStream => SessionEventView::EndOfStream,
            SessionEvent::Body(bytes) => SessionEventView::Body(bytes@),
            SessionEvent::Reply(payload) => SessionEventView::Reply(payload@),
            SessionEvent::Malformed(text) => SessionEventView::Malformed(text@),
            SessionEvent::Written => SessionEventView::Written,
            SessionEvent::Failed(text) => SessionEventView::Failed(text@),
        }
    }
}

/// What a session asks of the caller.
#[derive(Debug, PartialEq, Eq)]
pub enum SessionAction {
    /// Read exactly eight bytes.
    ReadHeader,
    /// Read exactly `length` bytes.
    ReadBody { length: usize },
    /// Decode the payload, answer the command and hand the response back.
    Dispatch { payload: Vec<u8> },
    /// Write the frame and flush.
    Write { frame: Vec<u8> },
    /// Release the transport. The session ended in peace or with this error.
    Close(Result<(), PdbError>),
}

/// The mathematical value of a [`SessionAction`].
pub enum SessionActionView {
    ReadHeader,
    ReadBody { length: usize },
    Dispatch { payload: Seq<u8> },
    Write { frame: Seq<u8> },
    Close(Result<(), PdbErrorView>),
}

impl View for SessionAction {
    type V = SessionActionView;

    open spec fn view(&self) -> SessionActionView {
        match self {
            SessionAction::ReadHeader => SessionActionView::ReadHeader,
            SessionAction::ReadBody { length } => SessionActionView::ReadBody { length: *length },
            SessionAction::Dispatch { payload } => SessionActionView::Dispatch { payload: payload@ },
            SessionAction::Write { frame } => SessionActionView::Write { frame: frame@ },
            SessionAction::Close(Ok(())) => SessionActionView::Close(Ok(())),
            SessionAction::Close(Err(e)) => SessionActionView::Close(Err(e@)),
        }
    }
}

/// The end of a session in peace.
pub open spec fn closed_in_peace() -> (SessionState, SessionActionView) {
    (SessionState::Closed, SessionActionView::Close(Ok(())))
}

/// The end of a session with an error.
pub open spec fn closed_with(e: PdbErrorView) -> (SessionState, SessionActionView) {
    (SessionState::Closed, SessionActionView::Close(Err(e)))
}

/// The error for an event that cannot happen where the session stands.
pub open spec fn out_of_turn() -> PdbErrorView {
    PdbErrorView::ProtocolError("Unexpected event"@)
}

/// The error for a body that has not the announced length.
pub open spec fn wrong_length() -> PdbErrorView {
    PdbErrorView::ProtocolError("Body length mismatch"@)
}

/// The error for a stream that ends inside a frame.
pub open spec fn cut_short() -> PdbErrorView {
    PdbErrorView::IoError("Unexpected end of stream"@)
}

/// The state after an event and the action that it calls for.
///
/// `max_request` bounds the payload of a request; a response may be as long
/// as a header can announce.
pub open spec fn stepped(state: SessionState, event: SessionEventView, max_request: u32) -> (
    SessionState,
    SessionActionView,
) {
    match (state, event) {
        (SessionState::Closed, _) => closed_with(out_of_turn()),
        (_, SessionEventView::Failed(text)) => closed_with(PdbErrorView::IoError(text)),
        (SessionState::AwaitHeader, SessionEventView::EndOfStream) => closed_in_peace(),
        (SessionState::AwaitHeader, SessionEventView::Header(bytes)) => {
            let header = MessageHeader::spec_from_bytes(bytes);
            if header.length <= max_request {
                (
                    SessionState::AwaitBody { length: header.length as usize },
                    SessionActionView::ReadBody { length: header.length as usize },
                )
            } else {
                closed_with(oversized_error())
            }
        },
        (SessionState::AwaitBody { length }, SessionEventView::Body(bytes)) => {
            if bytes.len() == length {
                (SessionState::Dispatch, SessionActionView::Dispatch { payload: bytes })
            } else {
                closed_with(wrong_length())
            }
        },
        (SessionState::AwaitBody { .. }, SessionEventView::EndOfStream) => closed_with(cut_short()),
        (SessionState::Dispatch, SessionEventView::Reply(payload)) => {
            if payload.len() <= u32::MAX {
                (SessionState::Respond, SessionActionView::Write { frame: frame_of(payload) })
            } else {
                closed_with(oversized_error())
            }
        },
        (SessionState::Dispatch, SessionEventView::Malformed(text)) => closed_with(
            PdbErrorView::SerializationError(text),
        ),
        (SessionState::Respond, SessionEventView::Written) => (
            SessionState::AwaitHeader,
            SessionActionView::ReadHeader,
        ),
        _ => closed_with(out_of_turn()),
    }
}

/// The server's end of one connection.
#[derive(Debug)]
pub struct Session {
    state: SessionState,
    max_request: u32,
}

fn protocol_error(text: &str) -> (e: PdbError)
    ensures
        e@ == PdbErrorView::ProtocolError(text@),
{
    PdbError::ProtocolError(String::from_str(text))
}

impl Session {
    /// Where the session stands.
    pub closed spec fn spec_state(&self) -> SessionState {
        self.state
    }

    /// The longest request payload that the session accepts.
    pub closed spec fn spec_max_request(&self) -> u32 {
        self.max_request
    }

    /// A session on a fresh connection. It accepts request payloads of up to
    /// `max_request` bytes. Its first wish is `SessionAction::ReadHeader`.
    pub fn new(max_request: u32) -> (session: Self)
        ensures
            session.spec_state() == SessionState::AwaitHeader,
            session.spec_max_request() == max_request,
    {
        Self { state: SessionState::AwaitHeader, max_request }
    }

    /// Where the session stands.
    pub fn state(&self) -> (state: SessionState)
        ensures
            state == self.spec_state(),
    {
        self.state
    }

    /// The longest request payload that the session accepts.
    pub fn max_request(&self) -> (max: u32)
        ensures
            max == self.spec_max_request(),
    {
        self.max_request
    }

    /// Whether the session is over.
    pub fn is_closed(&self) -> (closed: bool)
        ensures
            closed == (self.spec_state() is Closed),
    {
        match self.state {
            SessionState::Closed => true,
            _ => false,
        }
    }

    fn close(&mut self, e: PdbError) -> (action: SessionAction)
        ensures
            (final(self).spec_state(), action@) == closed_with(e@),
            final(self).spec_max_request() == old(self).spec_max_request(),
    {
        self.state = SessionState::Closed;
        SessionAction::Close(Err(e))
    }

    /// Takes an event in and says what to do next.
    pub fn step(&mut self, event: SessionEvent) -> (action: SessionAction)
        ensures
            (final(self).spec_state(), action@) == stepped(
                old(self).spec_state(),
                event@,
                old(self).spec_max_request(),
            ),
            final(self).spec_max_request() == old(self).spec_max_request(),
    {
        let state = self.state;
        match (state, event) {
            (SessionState::Closed, _) => self.close(protocol_error("Unexpected event")),
            (_, SessionEvent::Failed(text)) => self.close(PdbError::IoError(text)),
            (SessionState::AwaitHeader, SessionEvent::EndOfStream) => {
                self.state = SessionState::Closed;
                SessionAction::Close(Ok(()))
            },
            (SessionState::AwaitHeader, SessionEvent::Header(bytes)) => {
                let header = MessageHeader::from_bytes(&bytes);
                match payload_length(&header, self.max_request) {
                    Ok(length) => {
                        self.state = SessionState::AwaitBody { length };
                        SessionAction::ReadBody { length }
                    },
                    Err(e) => self.close(e),
                }
            },
            (SessionState::AwaitBody { length }, SessionEvent::Body(bytes)) => {
                if bytes.len() == length {
                    self.state = SessionState::Dispatch;
                    SessionAction::Dispatch { payload: bytes }
                } else {
                    self.close(protocol_error("Body length mismatch"))
                }
            },
            (SessionState::AwaitBody { .. }, SessionEvent::EndOfStream) => self.close(
                PdbError::IoError(String::from_str("Unexpected end of stream")),
            ),
            (SessionState::Dispatch, SessionEvent::Reply(payload)) => {
                match encode_frame(payload.as_slice(), u32::MAX) {
                    Ok(frame) => {
                        self.state = SessionState::Respond;
                        SessionAction::Write { frame }
                    },
                    Err(e) => self.close(e),
                }
            },
            (SessionState::Dispatch, SessionEvent::Malformed(text)) => self.close(
                PdbError::SerializationError(text),
            ),
            (SessionState::Respond, SessionEvent::Written) => {
                self.state = SessionState::AwaitHeader;
                SessionAction::ReadHeader
            },
            _ => self.close(protocol_error("Unexpected event")),
        }
    }
}

/// A closed session stays closed, whatever is reported to it.
pub proof fn lemma_closed_is_final(event: SessionEventView, max_request: u32)
    ensures
        stepped(SessionState::Closed, event, max_request).0 == SessionState::Closed,
        stepped(SessionState::Closed, event, max_request).1 is Close,
{
}

/// A failure closes the session, and so does everything that is out of turn:
/// a session that goes on has moved one place along the round of states.
pub proof fn lemma_session_round(state: SessionState, event: SessionEventView, max_request: u32)
    ensures
        ({
            let (next, action) = stepped(state, event, max_request);
            &&& next is Closed <==> action is Close
            &&& next is AwaitBody ==> state is AwaitHeader && action is ReadBody
            &&& next is Dispatch ==> state is AwaitBody && action is Dispatch
            &&& next is Respond ==> state is Dispatch && action is Write
            &&& next is AwaitHeader ==> state is Respond && action is ReadHeader
            &&& event is Failed ==> next is Closed
        }),
{
}

/// The end of the stream where a header is due ends the session in peace.
/// Anywhere else it ends the session with an error.
pub proof fn lemma_end_of_stream(state: SessionState, max_request: u32)
    ensures
        stepped(SessionState::AwaitHeader, SessionEventView::EndOfStream, max_request)
            == closed_in_peace(),
        !(state is AwaitHeader) ==> stepped(state, SessionEventView::EndOfStream, max_request).1
            matches SessionActionView::Close(Err(_)),
{
}

/// The body that is handed to dispatch has exactly the length that the header
/// announced, and a header that announces more than the bound ends the
/// session before any byte of a body is asked for.
pub proof fn lemma_body_is_exact(header: Seq<u8>, body: Seq<u8>, max_request: u32)
    requires
        header.len() == 8,
    ensures
        ({
            let announced = MessageHeader::spec_from_bytes(header).length;
            let (state, action) = stepped(
                SessionState::AwaitHeader,
                SessionEventView::Header(header),
                max_request,
            );
            &&& announced > max_request ==> (state, action) == closed_with(oversized_error())
            &&& announced <= max_request ==> action == (SessionActionView::ReadBody {
                length: announced as usize,
            })
            &&& announced <= max_request ==> (stepped(
                state,
                SessionEventView::Body(body),
                max_request,
            ).1 is Dispatch <==> body.len() == announced)
        }),
{
}

/// The actions that a run of events calls for, one for each event, from the
/// state `state` on.
pub open spec fn run(state: SessionState, events: Seq<SessionEventView>, max_request: u32) -> (
    SessionState,
    Seq<SessionActionView>,
)
    decreases events.len(),
{
    if events.len() == 0 {
        (state, Seq::empty())
    } else {
        let (next, action) = stepped(state, events[0], max_request);
        let (last, actions) = run(next, events.drop_first(), max_request);
        (last, seq![action] + actions)
    }
}

/// The number of commands handed to dispatch less the number of responses
/// handed to the transport.
pub open spec fn unanswered(actions: Seq<SessionActionView>) -> int
    decreases actions.len(),
{
    if actions.len() == 0 {
        0
    } else {
        let rest = unanswered(actions.drop_first());
        match actions[0] {
            SessionActionView::Dispatch { .. } => rest + 1,
            SessionActionView::Write { .. } => rest - 1,
            _ => rest,
        }
    }
}

proof fn lemma_unanswered_from(state: SessionState, events: Seq<SessionEventView>, max_request: u32)
    ensures
        ({
            let (last, actions) = run(state, events, max_request);
            let before: int = if state is Dispatch { 1 } else { 0 };
            let after: int = if last is Dispatch { 1 } else { 0 };
            &&& 0 <= before + unanswered(actions) <= 1
            &&& !(last is Closed) ==> before + unanswered(actions) == after
        }),
    decreases events.len(),
{
    if events.len() > 0 {
        let (next, action) = stepped(state, events[0], max_request);
        let (last, actions) = run(next, events.drop_first(), max_request);
        let all = run(state, events, max_request).1;
        assert(all.drop_first() =~= actions);
        assert(all[0] == action);
        lemma_unanswered_from(next, events.drop_first(), max_request);
        if next is Closed {
            lemma_closed_run(events.drop_first(), max_request);
        }
    }
}

proof fn lemma_closed_run(events: Seq<SessionEventView>, max_request: u32)
    ensures
        run(SessionState::Closed, events, max_request).0 == SessionState::Closed,
        unanswered(run(SessionState::Closed, events, max_request).1) == 0,
    decreases events.len(),
{
    if events.len() > 0 {
        lemma_closed_run(events.drop_first(), max_request);
        let actions = run(SessionState::Closed, events.drop_first(), max_request).1;
        let all = run(SessionState::Closed, events, max_request).1;
        assert(all.drop_first() =~= actions);
    }
}

proof fn lemma_run_prefix(state: SessionState, events: Seq<SessionEventView>, max_request: u32, k: int)
    requires
        0 <= k <= events.len(),
    ensures
        run(state, events, max_request).1.len() == events.len(),
        run(state, events.take(k), max_request).1 == run(state, events, max_request).1.take(k),
    decreases events.len(),
{
    if events.len() > 0 {
        let (next, action) = stepped(state, events[0], max_request);
        let rest = events.drop_first();
        lemma_run_prefix(next, rest, max_request, 0);
        if k > 0 {
            lemma_run_prefix(next, rest, max_request, k - 1);
            assert(events.take(k).drop_first() =~= rest.take(k - 1));
            assert(events.take(k)[0] == events[0]);
            assert(run(state, events.take(k), max_request).1 =~= run(
                state,
                events,
                max_request,
            ).1.take(k));
        } else {
            assert(events.take(0) =~= Seq::<SessionEventView>::empty());
            assert(run(state, events, max_request).1.take(0) =~= Seq::<
                SessionActionView,
            >::empty());
        }
    } else {
        assert(events.take(k) =~= events);
        assert(run(state, events, max_request).1.take(k) =~= run(state, events, max_request).1);
    }
}

/// A session has one command in the works at a time: whatever is reported
/// to it, and in whatever order, at every moment at most one command has
/// been handed to dispatch whose response has not been handed to the
/// transport, and no response is written that answers no command.
pub proof fn lemma_one_command_at_a_time(events: Seq<SessionEventView>, max_request: u32, k: int)
    requires
        0 <= k <= events.len(),
    ensures
        ({
            let actions = run(SessionState::AwaitHeader, events, max_request).1;
            &&& actions.len() == events.len()
            &&& 0 <= unanswered(actions.take(k)) <= 1
        }),
{
    lemma_run_prefix(SessionState::AwaitHeader, events, max_request, k);
    lemma_unanswered_from(SessionState::AwaitHeader, events.take(k), max_request);
}

} // verus!
