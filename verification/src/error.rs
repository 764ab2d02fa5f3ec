//! The error type of the library.

use vstd::prelude::*;
use vstd::string::*;

verus! {

/// What went wrong, with a human-readable detail.
///
/// Failures of the operating system, of the transport, of the payload format
/// and of the image encoder are carried by their message.
#[derive(Debug, PartialEq, Eq)]
pub enum PdbError {
    /// No window matched a title, class name or handle.
    WindowNotFound(String),
    /// A window handle could not be obtained or read.
    HandleError(String),
    /// Input simulation failed.
    InputError(String),
    /// Screenshot capture failed.
    CaptureError(String),
    /// The windowing system reported an error.
    WindowsError(String),
    /// Reading or writing the transport failed.
    IoError(String),
    /// The connection could not be made, or the peer refused a request.
    ConnectionError(String),
    /// The peer broke the protocol.
    ProtocolError(String),
    /// A payload could not be serialised or parsed.
    SerializationError(String),
    /// An image could not be encoded.
    ImageError(String),
}

/// The mathematical value of a [`PdbError`]: the same variants over character sequences.
pub enum PdbErrorView {
    WindowNotFound(Seq<char>),
    HandleError(Seq<char>),
    InputError(Seq<char>),
    CaptureError(Seq<char>),
    WindowsError(Seq<char>),
    IoError(Seq<char>),
    ConnectionError(Seq<char>),
    ProtocolError(Seq<char>),
    SerializationError(Seq<char>),
    ImageError(Seq<char>),
}

impl PdbErrorView {
    /// The words that introduce the detail in the error's text.
    pub open spec fn prefix(self) -> Seq<char> {
        match self {
            PdbErrorView::WindowNotFound(_) => "Window not found: "@,
            PdbErrorView::HandleError(_) => "Failed to get window handle: "@,
            PdbErrorView::InputError(_) => "Input simulation failed: "@,
            PdbErrorView::CaptureError(_) => "Screenshot capture failed: "@,
            PdbErrorView::WindowsError(_) => "Windows API error: "@,
            PdbErrorView::IoError(_) => "IO error: "@,
            PdbErrorView::ConnectionError(_) => "Connection error: "@,
            PdbErrorView::ProtocolError(_) => "Protocol error: "@,
            PdbErrorView::SerializationError(_) => "Serialization error: "@,
            PdbErrorView::ImageError(_) => "Image error: "@,
        }
    }

    /// The detail that the error carries.
    pub open spec fn detail(self) -> Seq<char> {
        match self {
            PdbErrorView::WindowNotFound(d) => d,
            PdbErrorView::HandleError(d) => d,
            PdbErrorView::InputError(d) => d,
            PdbErrorView::CaptureError(d) => d,
            PdbErrorView::WindowsError(d) => d,
            PdbErrorView::IoError(d) => d,
            PdbErrorView::ConnectionError(d) => d,
            PdbErrorView::ProtocolError(d) => d,
            PdbErrorView::SerializationError(d) => d,
            PdbErrorView::ImageError(d) => d,
        }
    }

    /// The error's full text: the prefix of its variant, then the detail.
    pub open spec fn text(self) -> Seq<char> {
        self.prefix() + self.detail()
    }
}

impl View for PdbError {
    type V = PdbErrorView;

    open spec fn view(&self) -> PdbErrorView {
        match self {
            PdbError::WindowNotFound(d) => PdbErrorView::WindowNotFound(d@),
            PdbError::HandleError(d) => PdbErrorView::HandleError(d@),
            PdbError::InputError(d) => PdbErrorView::InputError(d@),
            PdbError::CaptureError(d) => PdbErrorView::CaptureError(d@),
            PdbError::WindowsError(d) => PdbErrorView::WindowsError(d@),
            PdbError::IoError(d) => PdbErrorView::IoError(d@),
            PdbError::ConnectionError(d) => PdbErrorView::ConnectionError(d@),
            PdbError::ProtocolError(d) => PdbErrorView::ProtocolError(d@),
            PdbError::SerializationError(d) => PdbErrorView::SerializationError(d@),
            PdbError::ImageError(d) => PdbErrorView::ImageError(d@),
        }
    }
}

impl Clone for PdbError {
    fn clone(&self) -> (copy: Self)
        ensures
            copy@ == self@,
    {
        match self {
            PdbError::WindowNotFound(d) => PdbError::WindowNotFound(d.clone()),
            PdbError::HandleError(d) => PdbError::HandleError(d.clone()),
            PdbError::InputError(d) => PdbError::InputError(d.clone()),
            PdbError::CaptureError(d) => PdbError::CaptureError(d.clone()),
            PdbError::WindowsError(d) => PdbError::WindowsError(d.clone()),
            PdbError::IoError(d) => PdbError::IoError(d.clone()),
            PdbError::ConnectionError(d) => PdbError::ConnectionError(d.clone()),
            PdbError::ProtocolError(d) => PdbError::ProtocolError(d.clone()),
            PdbError::SerializationError(d) => PdbError::SerializationError(d.clone()),
            PdbError::ImageError(d) => PdbError::ImageError(d.clone()),
        }
    }
}

impl PdbError {
    /// The detail that the error carries.
    pub fn detail(&self) -> (d: &str)
        ensures
            d@ == self@.detail(),
    {
        match self {
            PdbError::WindowNotFound(d) => d.as_str(),
            PdbError::HandleError(d) => d.as_str(),
            PdbError::InputError(d) => d.as_str(),
            PdbError::CaptureError(d) => d.as_str(),
            PdbError::WindowsError(d) => d.as_str(),
            PdbError::IoError(d) => d.as_str(),
            PdbError::ConnectionError(d) => d.as_str(),
            PdbError::ProtocolError(d) => d.as_str(),
            PdbError::SerializationError(d) => d.as_str(),
            PdbError::ImageError(d) => d.as_str(),
        }
    }

    /// The words that introduce the detail in the error's text.
    pub fn prefix(&self) -> (p: &'static str)
        ensures
            p@ == self@.prefix(),
    {
        match self {
            PdbError::WindowNotFound(_) => "Window not found: ",
            PdbError::HandleError(_) => "Failed to get window handle: ",
            PdbError::InputError(_) => "Input simulation failed: ",
            PdbError::CaptureError(_) => "Screenshot capture failed: ",
            PdbError::WindowsError(_) => "Windows API error: ",
            PdbError::IoError(_) => "IO error: ",
            PdbError::ConnectionError(_) => "Connection error: ",
            PdbError::ProtocolError(_) => "Protocol error: ",
            PdbError::SerializationError(_) => "Serialization error: ",
            PdbError::ImageError(_) => "Image error: ",
        }
    }

    /// The error as one line of text, as it is shown to a user and sent to a peer.
    pub fn to_string(&self) -> (s: String)
        ensures
            s@ == self@.text(),
    {
        String::from_str(self.prefix()).concat(self.detail())
    }
}

} // verus!
