//! The wire contract: commands, responses and the frame that carries them.
//!
//! A frame is a header of eight bytes followed by a payload. The header holds
//! the protocol version and the payload's length, each as four bytes, least
//! significant byte first. How a command or a response becomes a payload is
//! the caller's business; this module frames payloads and takes frames apart.

use crate::types::{window_views, KeyCode, Screenshot, ScreenshotView, WindowInfo, WindowInfoView};
use vstd::prelude::*;

verus! {

/// The port that a server listens on when none is given.
pub const DEFAULT_PORT: u16 = 5037;

/// The version that every header is stamped with.
pub const PROTOCOL_VERSION: u32 = 1;

/// The number of bytes of a header.
pub const HEADER_LEN: usize = 8;

/// The longest request payload that a server accepts when the caller sets
/// no other bound: 64 MiB. Commands are short.
pub const DEFAULT_MAX_PAYLOAD: u32 = 67108864;

/// The longest response payload that a client accepts when the caller sets
/// no other bound: 1 GiB, room for the capture of a large screen.
pub const DEFAULT_MAX_RESPONSE: u32 = 1073741824;

/// A request of a client.
#[derive(Debug, PartialEq, Eq)]
pub enum Command {
    /// List the windows of the host.
    ListWindows,
    /// Connect to the first window whose title contains `title`.
    Connect { title: String },
    /// Connect to the window with this handle.
    ConnectByHwnd { hwnd: usize },
    /// Click at a position of the window's client area.
    Click { hwnd: usize, x: i32, y: i32 },
    /// Drag from one position to another in `duration_ms` milliseconds.
    Swipe { hwnd: usize, x1: i32, y1: i32, x2: i32, y2: i32, duration_ms: u32 },
    /// Capture the window.
    Screenshot { hwnd: usize },
    /// Type a text into the window.
    InputText { hwnd: usize, text: String },
    /// Press and release a key.
    KeyEvent { hwnd: usize, key: KeyCode },
    /// Ask for the size of the window's client area.
    GetSize { hwnd: usize },
    /// Bring the window to the foreground.
    Focus { hwnd: usize },
    /// Ask whether the server is alive.
    Ping,
    /// Announce the end of the conversation.
    Disconnect,
}

/// The mathematical value of a [`Command`].
pub enum CommandView {
    ListWindows,
    Connect { title: Seq<char> },
    ConnectByHwnd { hwnd: usize },
    Click { hwnd: usize, x: i32, y: i32 },
    Swipe { hwnd: usize, x1: i32, y1: i32, x2: i32, y2: i32, duration_ms: u32 },
    Screenshot { hwnd: usize },
    InputText { hwnd: usize, text: Seq<char> },
    KeyEvent { hwnd: usize, key: KeyCode },
    GetSize { hwnd: usize },
    Focus { hwnd: usize },
    Ping,
    Disconnect,
}

impl View for Command {
    type V = CommandView;

    open spec fn view(&self) -> CommandView {
        match self {
            Command::ListWindows => CommandView::ListWindows,
            Command::Connect { title } => CommandView::Connect { title: title@ },
            Command::ConnectByHwnd { hwnd } => CommandView::ConnectByHwnd { hwnd: *hwnd },
            Command::Click { hwnd, x, y } => CommandView::Click { hwnd: *hwnd, x: *x, y: *y },
            Command::Swipe { hwnd, x1, y1, x2, y2, duration_ms } => CommandView::Swipe {
                hwnd: *hwnd,
                x1: *x1,
                y1: *y1,
                x2: *x2,
                y2: *y2,
                duration_ms: *duration_ms,
            },
            Command::Screenshot { hwnd } => CommandView::Screenshot { hwnd: *hwnd },
            Command::InputText { hwnd, text } => CommandView::InputText { hwnd: *hwnd, text: text@ },
            Command::KeyEvent { hwnd, key } => CommandView::KeyEvent { hwnd: *hwnd, key: *key },
            Command::GetSize { hwnd } => CommandView::GetSize { hwnd: *hwnd },
            Command::Focus { hwnd } => CommandView::Focus { hwnd: *hwnd },
            Command::Ping => CommandView::Ping,
            Command::Disconnect => CommandView::Disconnect,
        }
    }
}

impl Clone for Command {
    fn clone(&self) -> (copy: Self)
        ensures
            copy@ == self@,
    {
        match self {
            Command::ListWindows => Command::ListWindows,
            Command::Connect { title } => Command::Connect { title: title.clone() },
            Command::ConnectByHwnd { hwnd } => Command::ConnectByHwnd { hwnd: *hwnd },
            Command::Click { hwnd, x, y } => Command::Click { hwnd: *hwnd, x: *x, y: *y },
            Command::Swipe { hwnd, x1, y1, x2, y2, duration_ms } => Command::Swipe {
                hwnd: *hwnd,
                x1: *x1,
                y1: *y1,
                x2: *x2,
                y2: *y2,
                duration_ms: *duration_ms,
            },
            Command::Screenshot { hwnd } => Command::Screenshot { hwnd: *hwnd },
            Command::InputText { hwnd, text } => Command::InputText { hwnd: *hwnd, text: text.clone() },
            Command::KeyEvent { hwnd, key } => Command::KeyEvent { hwnd: *hwnd, key: *key },
            Command::GetSize { hwnd } => Command::GetSize { hwnd: *hwnd },
            Command::Focus { hwnd } => Command::Focus { hwnd: *hwnd },
            Command::Ping => Command::Ping,
            Command::Disconnect => Command::Disconnect,
        }
    }
}

/// The answer of a server. Every command gets exactly one.
#[derive(Debug, PartialEq, Eq)]
pub enum Response {
    /// The command was carried out; there is nothing to report.
    Done,
    /// The windows of the host.
    Windows(Vec<WindowInfo>),
    /// The window that was connected to.
    Window(WindowInfo),
    /// A captured image.
    Screenshot(Screenshot),
    /// The size of a window's client area.
    Size { width: i32, height: i32 },
    /// The command failed; the text says why.
    Error(String),
    /// The answer to a ping.
    Pong,
}

/// The mathematical value of a [`Response`].
pub enum ResponseView {
    Done,
    Windows(Seq<WindowInfoView>),
    Window(WindowInfoView),
    Screenshot(ScreenshotView),
    Size { width: i32, height: i32 },
    Error(Seq<char>),
    Pong,
}

impl View for Response {
    type V = ResponseView;

    open spec fn view(&self) -> ResponseView {
        match self {
            Response::Done => ResponseView::Done,
            Response::Windows(windows) => ResponseView::Windows(window_views(windows@)),
            Response::Window(info) => ResponseView::Window(info@),
            Response::Screenshot(shot) => ResponseView::Screenshot(shot@),
            Response::Size { width, height } => ResponseView::Size { width: *width, height: *height },
            Response::Error(text) => ResponseView::Error(text@),
            Response::Pong => ResponseView::Pong,
        }
    }
}

/// The shape of a response, without what it carries.
#[derive(Debug, Clone, Copy, PartialEq, Eq, Structural)]
pub enum ResponseKind {
    Done,
    Windows,
    Window,
    Screenshot,
    Size,
    Error,
    Pong,
}

impl ResponseView {
    /// The shape of the response.
    pub open spec fn kind(self) -> ResponseKind {
        match self {
            ResponseView::Done => ResponseKind::Done,
            ResponseView::Windows(_) => ResponseKind::Windows,
            ResponseView::Window(_) => ResponseKind::Window,
            ResponseView::Screenshot(_) => ResponseKind::Screenshot,
            ResponseView::Size { .. } => ResponseKind::Size,
            ResponseView::Error(_) => ResponseKind::Error,
            ResponseView::Pong => ResponseKind::Pong,
        }
    }
}

impl CommandView {
    /// The shape of the response that answers the command when it succeeds.
    /// A command that fails is answered by an error, whatever the command.
    pub open spec fn success_kind(self) -> ResponseKind {
        match self {
            CommandView::ListWindows => ResponseKind::Windows,
            CommandView::Connect { .. } => ResponseKind::Window,
            CommandView::ConnectByHwnd { .. } => ResponseKind::Window,
            CommandView::Click { .. } => ResponseKind::Done,
            CommandView::Swipe { .. } => ResponseKind::Done,
            CommandView::Screenshot { .. } => ResponseKind::Screenshot,
            CommandView::InputText { .. } => ResponseKind::Done,
            CommandView::KeyEvent { .. } => ResponseKind::Done,
            CommandView::GetSize { .. } => ResponseKind::Size,
            CommandView::Focus { .. } => ResponseKind::Done,
            CommandView::Ping => ResponseKind::Pong,
            CommandView::Disconnect => ResponseKind::Done,
        }
    }
}

impl Response {
    /// The shape of the response.
    pub fn kind(&self) -> (kind: ResponseKind)
        ensures
            kind == self@.kind(),
    {
        match self {
            Response::Done => ResponseKind::Done,
            Response::Windows(_) => ResponseKind::Windows,
            Response::Window(_) => ResponseKind::Window,
            Response::Screenshot(_) => ResponseKind::Screenshot,
            Response::Size { .. } => ResponseKind::Size,
            Response::Error(_) => ResponseKind::Error,
            Response::Pong => ResponseKind::Pong,
        }
    }
}

impl Command {
    /// The shape of the response that answers the command when it succeeds.
    pub fn success_kind(&self) -> (kind: ResponseKind)
        ensures
            kind == self@.success_kind(),
    {
        match self {
            Command::ListWindows => ResponseKind::Windows,
            Command::Connect { .. } => ResponseKind::Window,
            Command::ConnectByHwnd { .. } => ResponseKind::Window,
            Command::Click { .. } => ResponseKind::Done,
            Command::Swipe { .. } => ResponseKind::Done,
            Command::Screenshot { .. } => ResponseKind::Screenshot,
            Command::InputText { .. } => ResponseKind::Done,
            Command::KeyEvent { .. } => ResponseKind::Done,
            Command::GetSize { .. } => ResponseKind::Size,
            Command::Focus { .. } => ResponseKind::Done,
            Command::Ping => ResponseKind::Pong,
            Command::Disconnect => ResponseKind::Done,
        }
    }
}

/// The four bytes of a 32-bit number, least significant first.
pub open spec fn le_bytes(x: u32) -> Seq<u8> {
    seq![
        (x % 256) as u8,
        (x / 256 % 256) as u8,
        (x / 65536 % 256) as u8,
        (x / 16777216) as u8,
    ]
}

/// The number that four bytes stand for, least significant first.
pub open spec fn le_value(bytes: Seq<u8>) -> int
    recommends
        bytes.len() == 4,
{
    bytes[0] + 256 * bytes[1] + 65536 * bytes[2] + 16777216 * bytes[3]
}

/// The header of a frame.
#[derive(Debug, Clone, Copy, PartialEq, Eq, Structural)]
pub struct MessageHeader {
    /// The protocol version of the sender.
    pub version: u32,
    /// The number of payload bytes that follow the header.
    pub length: u32,
}

impl MessageHeader {
    /// The header of a payload of `length` bytes, in this protocol version.
    pub fn new(length: u32) -> (h: Self)
        ensures
            h.version == PROTOCOL_VERSION,
            h.length == length,
    {
        Self { version: PROTOCOL_VERSION, length }
    }

    /// The eight bytes of the header: version, then length.
    pub open spec fn spec_to_bytes(self) -> Seq<u8> {
        le_bytes(self.version) + le_bytes(self.length)
    }

    /// The header that eight bytes stand for.
    pub open spec fn spec_from_bytes(bytes: Seq<u8>) -> MessageHeader
        recommends
            bytes.len() == 8,
    {
        MessageHeader {
            version: le_value(bytes.subrange(0, 4)) as u32,
            length: le_value(bytes.subrange(4, 8)) as u32,
        }
    }

    /// Writes the header out.
    pub fn to_bytes(&self) -> (bytes: [u8; 8])
        ensures
            bytes@ == self.spec_to_bytes(),
    {
        let v: u32 = self.version;
        let n: u32 = self.length;
        let bytes: [u8; 8] = [
            (v % 256) as u8,
            (v / 256 % 256) as u8,
            (v / 65536 % 256) as u8,
            (v / 16777216) as u8,
            (n % 256) as u8,
            (n / 256 % 256) as u8,
            (n / 65536 % 256) as u8,
            (n / 16777216) as u8,
        ];
        assert(bytes@ =~= self.spec_to_bytes());
        bytes
    }

    /// Reads a header. Every eight bytes are a header.
    pub fn from_bytes(bytes: &[u8; 8]) -> (h: Self)
        ensures
            h == Self::spec_from_bytes(bytes@),
    {
        let version: u32 = bytes[0] as u32 + 256 * (bytes[1] as u32) + 65536 * (bytes[2] as u32)
            + 16777216 * (bytes[3] as u32);
        let length: u32 = bytes[4] as u32 + 256 * (bytes[5] as u32) + 65536 * (bytes[6] as u32)
            + 16777216 * (bytes[7] as u32);
        Self { version, length }
    }
}

/// A number that is written as four bytes and read again is unchanged.
pub proof fn lemma_le_bytes_value(x: u32)
    ensures
        le_bytes(x).len() == 4,
        le_value(le_bytes(x)) == x,
{
    let v = x as int;
    let q1 = v / 256;
    let q2 = v / 65536;
    let q3 = v / 16777216;
    assert(v == 256 * q1 + v % 256);
    assert(q2 == q1 / 256 && q1 == 256 * q2 + q1 % 256);
    assert(q3 == q2 / 256 && q2 == 256 * q3 + q2 % 256);
    assert(0 <= q3 < 256);
    let bytes = le_bytes(x);
    assert(bytes[0] == v % 256);
    assert(bytes[1] == q1 % 256);
    assert(bytes[2] == q2 % 256);
    assert(bytes[3] == q3);
}

/// A header that is written and read again is unchanged.
pub proof fn lemma_header_round_trip(h: MessageHeader)
    ensures
        h.spec_to_bytes().len() == 8,
        MessageHeader::spec_from_bytes(h.spec_to_bytes()) == h,
{
    let bytes = h.spec_to_bytes();
    lemma_le_bytes_value(h.version);
    lemma_le_bytes_value(h.length);
    assert(bytes.subrange(0, 4) =~= le_bytes(h.version));
    assert(bytes.subrange(4, 8) =~= le_bytes(h.length));
}

/// Four bytes that are read as a number and written again are unchanged.
pub proof fn lemma_le_value_bytes(bytes: Seq<u8>)
    requires
        bytes.len() == 4,
    ensures
        0 <= le_value(bytes) <= u32::MAX,
        le_bytes(le_value(bytes) as u32) == bytes,
{
    let b0 = bytes[0] as int;
    let b1 = bytes[1] as int;
    let b2 = bytes[2] as int;
    let b3 = bytes[3] as int;
    let v = le_value(bytes);
    assert(v == b0 + 256 * (b1 + 256 * (b2 + 256 * b3)));
    assert(v % 256 == b0 && v / 256 == b1 + 256 * (b2 + 256 * b3));
    assert(v / 256 % 256 == b1 && v / 65536 == b2 + 256 * b3);
    assert(v / 65536 % 256 == b2 && v / 16777216 == b3);
    assert(le_bytes(v as u32) =~= bytes);
}

/// Eight bytes that are read as a header and written again are unchanged.
pub proof fn lemma_bytes_round_trip(bytes: Seq<u8>)
    requires
        bytes.len() == 8,
    ensures
        MessageHeader::spec_from_bytes(bytes).spec_to_bytes() == bytes,
{
    lemma_le_value_bytes(bytes.subrange(0, 4));
    lemma_le_value_bytes(bytes.subrange(4, 8));
    assert(bytes.subrange(0, 4) + bytes.subrange(4, 8) =~= bytes);
}

} // verus!
