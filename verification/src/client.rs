//! The client's end of a connection.
//!
//! The connection carries one request at a time and nothing on the wire says
//! which request a response belongs to. So the client never writes a second
//! request before the response to the first has been read in full: `Client`
//! is the machine that holds this line. The caller reports what happened on
//! the transport, and the client says what to do next.
//!
//! The rest of the module builds the command for each call and reads the
//! answer out of the response.

use crate::codec::{encode_frame, frame_of, oversized_error, payload_length};
use crate::error::{PdbError, PdbErrorView};
use crate::protocol::{Command, CommandView, MessageHeader, Response, ResponseView};
use crate::session::{out_of_turn, wrong_length};
use crate::types::{window_views, KeyCode, Screenshot, WindowInfo, WindowInfoView};
use vstd::prelude::*;
use vstd::string::*;

verus! {

/// Where an exchange stands.
#[derive(Debug, Clone, Copy, PartialEq, Eq, Structural)]
pub enum ExchangeState {
    /// No request is under way: the next one may be written.
    Idle,
    /// A request is being written.
    Sending,
    /// The request is out; the header of the response is awaited.
    AwaitHeader,
    /// The `length` bytes of the response are awaited.
    AwaitBody { length: usize },
    /// The transport failed or the peer broke the protocol. What is read from
    /// now on cannot be told apart from the rest of a lost response, so the
    /// connection carries no further request.
    Broken,
}

/// What the caller reports to a client.
#[derive(Debug, PartialEq, Eq)]
pub enum ClientEvent {
    /// A caller wants this request sent.
    Request(Vec<u8>),
    /// The frame was written and flushed.
    Written,
    /// The eight bytes of a header were read.
    Header([u8; 8]),
    /// The bytes of the body were read.
    Body(Vec<u8>),
    /// Reading or writing the transport failed.
    Failed(String),
}

/// The mathematical value of a [`ClientEvent`].
pub enum ClientEventView {
    Request(Seq<u8>),
    Written,
    Header(Seq<u8>),
    Body(Seq<u8>),
    Failed(Seq<char>),
}

impl View for ClientEvent {
    type V = ClientEventView;

    open spec fn view(&self) -> ClientEventView {
        match self {
            ClientEvent::Request(payload) => ClientEventView::Request(payload@),
            ClientEvent::Written => ClientEventView::Written,
            ClientEvent::Header(bytes) => ClientEventView::Header(bytes@),
            ClientEvent::Body(bytes) => ClientEventView::Body(bytes@),
            ClientEvent::Failed(text) => ClientEventView::Failed(text@),
        }
    }
}

/// What a client asks of the caller.
#[derive(Debug, PartialEq, Eq)]
pub enum ClientAction {
    /// Write the frame and flush.
    Write { frame: Vec<u8> },
    /// Read exactly eight bytes.
    ReadHeader,
    /// Read exactly `length` bytes.
    ReadBody { length: usize },
    /// Hand the response to the caller whose request is under way.
    Deliver { payload: Vec<u8> },
    /// Keep the request back: another one is under way.
    Wait,
    /// Report the error to the caller.
    Fail(PdbError),
}

/// The mathematical value of a [`ClientAction`].
pub enum ClientActionView {
    Write { frame: Seq<u8> },
    ReadHeader,
    ReadBody { length: usize },
    Deliver { payload: Seq<u8> },
    Wait,
    Fail(PdbErrorView),
}

impl View for ClientAction {
    type V = ClientActionView;

    open spec fn view(&self) -> ClientActionView {
        match self {
            ClientAction::Write { frame } => ClientActionView::Write { frame: frame@ },
            ClientAction::ReadHeader => ClientActionView::ReadHeader,
            ClientAction::ReadBody { length } => ClientActionView::ReadBody { length: *length },
            ClientAction::Deliver { payload } => ClientActionView::Deliver { payload: payload@ },
            ClientAction::Wait => ClientActionView::Wait,
            ClientAction::Fail(e) => ClientActionView::Fail(e@),
        }
    }
}

/// The error for a request on a connection that is broken.
pub open spec fn broken_connection() -> PdbErrorView {
    PdbErrorView::ConnectionError("Connection is broken"@)
}

/// The end of a connection's use, with an error.
pub open spec fn broken_with(e: PdbErrorView) -> (ExchangeState, ClientActionView) {
    (ExchangeState::Broken, ClientActionView::Fail(e))
}

/// The state after an event and the action that it calls for.
///
/// `max_response` bounds the payload of a response; a request may be as long
/// as a header can announce.
pub open spec fn exchanged(state: ExchangeState, event: ClientEventView, max_response: u32) -> (
    ExchangeState,
    ClientActionView,
) {
    match (state, event) {
        (ExchangeState::Broken, _) => broken_with(broken_connection()),
        (_, ClientEventView::Failed(text)) => broken_with(PdbErrorView::IoError(text)),
        (ExchangeState::Idle, ClientEventView::Request(payload)) => {
            if payload.len() <= u32::MAX {
                (ExchangeState::Sending, ClientActionView::Write { frame: frame_of(payload) })
            } else {
                (ExchangeState::Idle, ClientActionView::Fail(oversized_error()))
            }
        },
        (_, ClientEventView::Request(_)) => (state, ClientActionView::Wait),
        (ExchangeState::Sending, ClientEventView::Written) => (
            ExchangeState::AwaitHeader,
            ClientActionView::ReadHeader,
        ),
        (ExchangeState::AwaitHeader, ClientEventView::Header(bytes)) => {
            let header = MessageHeader::spec_from_bytes(bytes);
            if header.length <= max_response {
                (
                    ExchangeState::AwaitBody { length: header.length as usize },
                    ClientActionView::ReadBody { length: header.length as usize },
                )
            } else {
                broken_with(oversized_error())
            }
        },
        (ExchangeState::AwaitBody { length }, ClientEventView::Body(bytes)) => {
            if bytes.len() == length {
                (ExchangeState::Idle, ClientActionView::Deliver { payload: bytes })
            } else {
                broken_with(wrong_length())
            }
        },
        _ => broken_with(out_of_turn()),
    }
}

/// The client's end of one connection: the keeper of the rule that one
/// request is under way at a time.
#[derive(Debug)]
pub struct Client {
    state: ExchangeState,
    max_response: u32,
}

impl Client {
    /// Where the exchange stands.
    pub closed spec fn spec_state(&self) -> ExchangeState {
        self.state
    }

    /// The longest response payload that the client accepts.
    pub closed spec fn spec_max_response(&self) -> u32 {
        self.max_response
    }

    /// A client on a fresh connection. It accepts response payloads of up to
    /// `max_response` bytes.
    pub fn new(max_response: u32) -> (client: Self)
        ensures
            client.spec_state() == ExchangeState::Idle,
            client.spec_max_response() == max_response,
    {
        Self { state: ExchangeState::Idle, max_response }
    }

    /// Where the exchange stands.
    pub fn state(&self) -> (state: ExchangeState)
        ensures
            state == self.spec_state(),
    {
        self.state
    }

    /// The longest response payload that the client accepts.
    pub fn max_response(&self) -> (max: u32)
        ensures
            max == self.spec_max_response(),
    {
        self.max_response
    }

    fn fail(&mut self, e: PdbError) -> (action: ClientAction)
        ensures
            (final(self).spec_state(), action@) == broken_with(e@),
            final(self).spec_max_response() == old(self).spec_max_response(),
    {
        self.state = ExchangeState::Broken;
        ClientAction::Fail(e)
    }

    /// Takes an event in and says what to do next.
    pub fn step(&mut self, event: ClientEvent) -> (action: ClientAction)
        ensures
            (final(self).spec_state(), action@) == exchanged(
                old(self).spec_state(),
                event@,
                old(self).spec_max_response(),
            ),
            final(self).spec_max_response() == old(self).spec_max_response(),
    {
        let state = self.state;
        match (state, event) {
            (ExchangeState::Broken, _) => self.fail(
                PdbError::ConnectionError(String::from_str("Connection is broken")),
            ),
            (_, ClientEvent::Failed(text)) => self.fail(PdbError::IoError(text)),
            (ExchangeState::Idle, ClientEvent::Request(payload)) => {
                match encode_frame(payload.as_slice(), u32::MAX) {
                    Ok(frame) => {
                        self.state = ExchangeState::Sending;
                        ClientAction::Write { frame }
                    },
                    Err(e) => ClientAction::Fail(e),
                }
            },
            (_, ClientEvent::Request(_)) => ClientAction::Wait,
            (ExchangeState::Sending, ClientEvent::Written) => {
                self.state = ExchangeState::AwaitHeader;
                ClientAction::ReadHeader
            },
            (ExchangeState::AwaitHeader, ClientEvent::Header(bytes)) => {
                let header = MessageHeader::from_bytes(&bytes);
                match payload_length(&header, self.max_response) {
                    Ok(length) => {
                        self.state = ExchangeState::AwaitBody { length };
                        ClientAction::ReadBody { length }
                    },
                    Err(e) => self.fail(e),
                }
            },
            (ExchangeState::AwaitBody { length }, ClientEvent::Body(bytes)) => {
                if bytes.len() == length {
                    self.state = ExchangeState::Idle;
                    ClientAction::Deliver { payload: bytes }
                } else {
                    self.fail(PdbError::ProtocolError(String::from_str("Body length mismatch")))
                }
            },
            _ => self.fail(PdbError::ProtocolError(String::from_str("Unexpected event"))),
        }
    }
}

/// The actions that a run of events calls for, one for each event, from the
/// state `state` on.
pub open spec fn run(state: ExchangeState, events: Seq<ClientEventView>, max_response: u32) -> (
    ExchangeState,
    Seq<ClientActionView>,
)
    decreases events.len(),
{
    if events.len() == 0 {
        (state, Seq::empty())
    } else {
        let (next, action) = exchanged(state, events[0], max_response);
        let (last, actions) = run(next, events.drop_first(), max_response);
        (last, seq![action] + actions)
    }
}

/// The number of requests written less the number of responses delivered.
pub open spec fn in_flight(actions: Seq<ClientActionView>) -> int
    decreases actions.len(),
{
    if actions.len() == 0 {
        0
    } else {
        let rest = in_flight(actions.drop_first());
        match actions[0] {
            ClientActionView::Write { .. } => rest + 1,
            ClientActionView::Deliver { .. } => rest - 1,
            _ => rest,
        }
    }
}

/// Whether a request is under way in a state.
pub open spec fn under_way(state: ExchangeState) -> bool {
    state is Sending || state is AwaitHeader || state is AwaitBody
}

proof fn lemma_broken_stays(events: Seq<ClientEventView>, max_response: u32)
    ensures
        run(ExchangeState::Broken, events, max_response).0 == ExchangeState::Broken,
        in_flight(run(ExchangeState::Broken, events, max_response).1) == 0,
    decreases events.len(),
{
    if events.len() > 0 {
        lemma_broken_stays(events.drop_first(), max_response);
        let (last, actions) = run(ExchangeState::Broken, events.drop_first(), max_response);
        let all = run(ExchangeState::Broken, events, max_response).1;
        assert(all.drop_first() =~= actions);
    }
}

proof fn lemma_in_flight_from(state: ExchangeState, events: Seq<ClientEventView>, max_response: u32)
    ensures
        ({
            let (last, actions) = run(state, events, max_response);
            let before: int = if under_way(state) { 1 } else { 0 };
            let after: int = if under_way(last) { 1 } else { 0 };
            &&& 0 <= before + in_flight(actions) <= 1
            &&& !(last is Broken) ==> before + in_flight(actions) == after
        }),
    decreases events.len(),
{
    if events.len() > 0 {
        let (next, action) = exchanged(state, events[0], max_response);
        let (last, actions) = run(next, events.drop_first(), max_response);
        let all = run(state, events, max_response).1;
        assert(all.drop_first() =~= actions);
        assert(all[0] == action);
        if next is Broken {
            lemma_broken_stays(events.drop_first(), max_response);
        } else {
            lemma_in_flight_from(next, events.drop_first(), max_response);
        }
    }
}

proof fn lemma_run_prefix(state: ExchangeState, events: Seq<ClientEventView>, max_response: u32, k: int)
    requires
        0 <= k <= events.len(),
    ensures
        run(state, events, max_response).1.len() == events.len(),
        run(state, events.take(k), max_response).1 == run(state, events, max_response).1.take(k),
    decreases events.len(),
{
    if events.len() > 0 {
        let (next, action) = exchanged(state, events[0], max_response);
        let rest = events.drop_first();
        lemma_run_prefix(next, rest, max_response, 0);
        if k > 0 {
            lemma_run_prefix(next, rest, max_response, k - 1);
            assert(events.take(k).drop_first() =~= rest.take(k - 1));
            assert(events.take(k)[0] == events[0]);
            assert(run(state, events.take(k), max_response).1 =~= run(
                state,
                events,
                max_response,
            ).1.take(k));
        } else {
            assert(events.take(0) =~= Seq::<ClientEventView>::empty());
            assert(run(state, events, max_response).1.take(0) =~= Seq::<ClientActionView>::empty());
        }
    } else {
        assert(events.take(k) =~= events);
        assert(run(state, events, max_response).1.take(k) =~= run(state, events, max_response).1);
    }
}

/// Whatever is reported to a client, and in whatever order, at every moment
/// at most one request has been written whose response has not been
/// delivered, and no response is delivered without a request before it. So
/// requests and responses alternate on the connection, and each response
/// goes to the request that was written last before it: responses come in
/// the order of their requests.
pub proof fn lemma_one_request_under_way(events: Seq<ClientEventView>, max_response: u32, k: int)
    requires
        0 <= k <= events.len(),
    ensures
        ({
            let actions = run(ExchangeState::Idle, events, max_response).1;
            &&& actions.len() == events.len()
            &&& 0 <= in_flight(actions.take(k)) <= 1
        }),
{
    lemma_run_prefix(ExchangeState::Idle, events, max_response, k);
    lemma_in_flight_from(ExchangeState::Idle, events.take(k), max_response);
}

/// While a request is under way, a further request is kept back: nothing is
/// written for it and the exchange stands where it stood.
pub proof fn lemma_second_request_waits(state: ExchangeState, payload: Seq<u8>, max_response: u32)
    requires
        under_way(state),
    ensures
        exchanged(state, ClientEventView::Request(payload), max_response) == (
            state,
            ClientActionView::Wait,
        ),
{
}

/// A response is delivered only when its body has been read in full, and it
/// is the body as it was read.
pub proof fn lemma_delivery_is_whole(state: ExchangeState, event: ClientEventView, max_response: u32)
    ensures
        exchanged(state, event, max_response).1 matches ClientActionView::Deliver { payload } ==> {
            &&& state matches ExchangeState::AwaitBody { length }
            &&& event == ClientEventView::Body(payload)
            &&& payload.len() == length
            &&& exchanged(state, event, max_response).0 is Idle
        },
{
}

/// The error for a response of a shape that does not answer the call.
pub open spec fn unexpected_response() -> PdbErrorView {
    PdbErrorView::ProtocolError("Unexpected response"@)
}

/// The error that a call makes of a response that does not carry what the
/// call asked for: the server's error text under the call's own error
/// variant, or the error for a response out of place.
pub open spec fn refusal(
    response: ResponseView,
    variant: spec_fn(Seq<char>) -> PdbErrorView,
) -> PdbErrorView {
    match response {
        ResponseView::Error(text) => variant(text),
        _ => unexpected_response(),
    }
}

/// The error variants that calls put a server's error text under.
#[derive(Debug, Clone, Copy, PartialEq, Eq, Structural)]
pub enum Blame {
    Connection,
    WindowNotFound,
    Input,
    Capture,
    Handle,
}

impl Blame {
    /// The error of this variant with the text `text`.
    pub open spec fn error(self, text: Seq<char>) -> PdbErrorView {
        match self {
            Blame::Connection => PdbErrorView::ConnectionError(text),
            Blame::WindowNotFound => PdbErrorView::WindowNotFound(text),
            Blame::Input => PdbErrorView::InputError(text),
            Blame::Capture => PdbErrorView::CaptureError(text),
            Blame::Handle => PdbErrorView::HandleError(text),
        }
    }
}

/// Makes the error for a response that does not carry what a call asked for.
pub fn refuse(response: Response, blame: Blame) -> (e: PdbError)
    ensures
        e@ == refusal(response@, |text: Seq<char>| blame.error(text)),
{
    match response {
        Response::Error(text) => match blame {
            Blame::Connection => PdbError::ConnectionError(text),
            Blame::WindowNotFound => PdbError::WindowNotFound(text),
            Blame::Input => PdbError::InputError(text),
            Blame::Capture => PdbError::CaptureError(text),
            Blame::Handle => PdbError::HandleError(text),
        },
        _ => PdbError::ProtocolError(String::from_str("Unexpected response")),
    }
}

/// Reads the answer to a call that asks for nothing but to be carried out.
pub fn expect_done(response: Response, blame: Blame) -> (r: Result<(), PdbError>)
    ensures
        r is Ok <==> response@ is Done,
        r matches Err(e) ==> e@ == refusal(response@, |text: Seq<char>| blame.error(text)),
{
    match response {
        Response::Done => Ok(()),
        other => Err(refuse(other, blame)),
    }
}

impl Client {
    /// The address of a server on this machine, on the default port.
    pub fn local_addr() -> (addr: String)
        ensures
            addr@ == "127.0.0.1:5037"@,
    {
        String::from_str("127.0.0.1:5037")
    }

    /// The command that asks whether the server is alive.
    pub fn ping() -> (command: Command)
        ensures
            command@ == CommandView::Ping,
    {
        Command::Ping
    }

    /// Whether the response answers a ping: whether it is a pong.
    pub fn ping_reply(response: &Response) -> (alive: bool)
        ensures
            alive == (response@ is Pong),
    {
        match response {
            Response::Pong => true,
            _ => false,
        }
    }

    /// The command that lists the windows of the host.
    pub fn list_windows() -> (command: Command)
        ensures
            command@ == CommandView::ListWindows,
    {
        Command::ListWindows
    }

    /// Reads the windows out of the response to a listing. An error response
    /// becomes a connection error.
    pub fn list_windows_reply(response: Response) -> (r: Result<Vec<WindowInfo>, PdbError>)
        ensures
            r is Ok <==> response@ is Windows,
            r matches Ok(windows) ==> response@ == ResponseView::Windows(window_views(windows@)),
            r matches Err(e) ==> e@ == refusal(
                response@,
                |text: Seq<char>| PdbErrorView::ConnectionError(text),
            ),
    {
        match response {
            Response::Windows(windows) => Ok(windows),
            other => Err(refuse(other, Blame::Connection)),
        }
    }

    /// The command that connects to the first window whose title contains `title`.
    pub fn connect_window(title: &str) -> (command: Command)
        ensures
            command@ == (CommandView::Connect { title: title@ }),
    {
        Command::Connect { title: String::from_str(title) }
    }

    /// The command that connects to the window with this handle.
    pub fn connect_window_by_hwnd(hwnd: usize) -> (command: Command)
        ensures
            command@ == (CommandView::ConnectByHwnd { hwnd }),
    {
        Command::ConnectByHwnd { hwnd }
    }

    /// Reads the device out of the response to a connect. An error response
    /// becomes a window-not-found error.
    pub fn connect_reply(response: Response) -> (r: Result<RemoteDevice, PdbError>)
        ensures
            r is Ok <==> response@ is Window,
            r matches Ok(device) ==> response@ == ResponseView::Window(device@),
            r matches Err(e) ==> e@ == refusal(
                response@,
                |text: Seq<char>| PdbErrorView::WindowNotFound(text),
            ),
    {
        match response {
            Response::Window(info) => Ok(RemoteDevice::new(info)),
            other => Err(refuse(other, Blame::WindowNotFound)),
        }
    }
}

/// A window on the server's host that this client has connected to.
#[derive(Debug, PartialEq, Eq)]
pub struct RemoteDevice {
    info: WindowInfo,
}

impl View for RemoteDevice {
    type V = WindowInfoView;

    closed spec fn view(&self) -> WindowInfoView {
        self.info@
    }
}

impl RemoteDevice {
    /// The device for a window that the server has connected to.
    pub fn new(info: WindowInfo) -> (device: Self)
        ensures
            device@ == info@,
    {
        Self { info }
    }

    /// The identity that the window had when the connection was made.
    pub fn info(&self) -> (info: &WindowInfo)
        ensures
            info@ == self@,
    {
        &self.info
    }

    /// The window's handle.
    pub fn hwnd(&self) -> (hwnd: usize)
        ensures
            hwnd == self@.hwnd,
    {
        self.info.hwnd
    }

    /// The command that clicks at a position of the window.
    pub fn click(&self, x: i32, y: i32) -> (command: Command)
        ensures
            command@ == (CommandView::Click { hwnd: self@.hwnd, x, y }),
    {
        Command::Click { hwnd: self.info.hwnd, x, y }
    }

    /// Reads the answer to a click. An error response becomes an input error.
    pub fn click_reply(response: Response) -> (r: Result<(), PdbError>)
        ensures
            r is Ok <==> response@ is Done,
            r matches Err(e) ==> e@ == refusal(
                response@,
                |text: Seq<char>| PdbErrorView::InputError(text),
            ),
    {
        expect_done(response, Blame::Input)
    }

    /// The command that taps at a position of the window: a click.
    pub fn tap(&self, x: i32, y: i32) -> (command: Command)
        ensures
            command@ == (CommandView::Click { hwnd: self@.hwnd, x, y }),
    {
        self.click(x, y)
    }

    /// Reads the answer to a tap, as that to a click.
    pub fn tap_reply(response: Response) -> (r: Result<(), PdbError>)
        ensures
            r is Ok <==> response@ is Done,
            r matches Err(e) ==> e@ == refusal(
                response@,
                |text: Seq<char>| PdbErrorView::InputError(text),
            ),
    {
        Self::click_reply(response)
    }

    /// The command that drags from one position to another in `duration_ms`
    /// milliseconds.
    pub fn swipe(&self, x1: i32, y1: i32, x2: i32, y2: i32, duration_ms: u32) -> (command: Command)
        ensures
            command@ == (CommandView::Swipe { hwnd: self@.hwnd, x1, y1, x2, y2, duration_ms }),
    {
        Command::Swipe { hwnd: self.info.hwnd, x1, y1, x2, y2, duration_ms }
    }

    /// Reads the answer to a swipe. An error response becomes an input error.
    pub fn swipe_reply(response: Response) -> (r: Result<(), PdbError>)
        ensures
            r is Ok <==> response@ is Done,
            r matches Err(e) ==> e@ == refusal(
                response@,
                |text: Seq<char>| PdbErrorView::InputError(text),
            ),
    {
        expect_done(response, Blame::Input)
    }

    /// The command that captures the window.
    pub fn screenshot(&self) -> (command: Command)
        ensures
            command@ == (CommandView::Screenshot { hwnd: self@.hwnd }),
    {
        Command::Screenshot { hwnd: self.info.hwnd }
    }

    /// Reads the image out of the response to a capture. An error response
    /// becomes a capture error.
    pub fn screenshot_reply(response: Response) -> (r: Result<Screenshot, PdbError>)
        ensures
            r is Ok <==> response@ is Screenshot,
            r matches Ok(shot) ==> response@ == ResponseView::Screenshot(shot@),
            r matches Err(e) ==> e@ == refusal(
                response@,
                |text: Seq<char>| PdbErrorView::CaptureError(text),
            ),
    {
        match response {
            Response::Screenshot(shot) => Ok(shot),
            other => Err(refuse(other, Blame::Capture)),
        }
    }

    /// The command that types a text into the window.
    pub fn input_text(&self, text: &str) -> (command: Command)
        ensures
            command@ == (CommandView::InputText { hwnd: self@.hwnd, text: text@ }),
    {
        Command::InputText { hwnd: self.info.hwnd, text: String::from_str(text) }
    }

    /// Reads the answer to typing. An error response becomes an input error.
    pub fn input_text_reply(response: Response) -> (r: Result<(), PdbError>)
        ensures
            r is Ok <==> response@ is Done,
            r matches Err(e) ==> e@ == refusal(
                response@,
                |text: Seq<char>| PdbErrorView::InputError(text),
            ),
    {
        expect_done(response, Blame::Input)
    }

    /// The command that presses and releases a key in the window.
    pub fn key_event(&self, key: KeyCode) -> (command: Command)
        ensures
            command@ == (CommandView::KeyEvent { hwnd: self@.hwnd, key }),
    {
        Command::KeyEvent { hwnd: self.info.hwnd, key }
    }

    /// Reads the answer to a key press. An error response becomes an input error.
    pub fn key_event_reply(response: Response) -> (r: Result<(), PdbError>)
        ensures
            r is Ok <==> response@ is Done,
            r matches Err(e) ==> e@ == refusal(
                response@,
                |text: Seq<char>| PdbErrorView::InputError(text),
            ),
    {
        expect_done(response, Blame::Input)
    }

    /// The command that asks for the size of the window's client area.
    pub fn get_size(&self) -> (command: Command)
        ensures
            command@ == (CommandView::GetSize { hwnd: self@.hwnd }),
    {
        Command::GetSize { hwnd: self.info.hwnd }
    }

    /// Reads width and height out of the response to a size query. An error
    /// response becomes a handle error.
    pub fn get_size_reply(response: Response) -> (r: Result<(i32, i32), PdbError>)
        ensures
            r is Ok <==> response@ is Size,
            r matches Ok(size) ==> response@ == (ResponseView::Size {
                width: size.0,
                height: size.1,
            }),
            r matches Err(e) ==> e@ == refusal(
                response@,
                |text: Seq<char>| PdbErrorView::HandleError(text),
            ),
    {
        match response {
            Response::Size { width, height } => Ok((width, height)),
            other => Err(refuse(other, Blame::Handle)),
        }
    }

    /// The command that brings the window to the foreground.
    pub fn focus(&self) -> (command: Command)
        ensures
            command@ == (CommandView::Focus { hwnd: self@.hwnd }),
    {
        Command::Focus { hwnd: self.info.hwnd }
    }

    /// Reads the answer to a focus. An error response becomes a handle error.
    pub fn focus_reply(response: Response) -> (r: Result<(), PdbError>)
        ensures
            r is Ok <==> response@ is Done,
            r matches Err(e) ==> e@ == refusal(
                response@,
                |text: Seq<char>| PdbErrorView::HandleError(text),
            ),
    {
        expect_done(response, Blame::Handle)
    }
}

} // verus!
