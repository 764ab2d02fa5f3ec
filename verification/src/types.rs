//! Value types shared by both ends of the protocol.

use crate::error::{PdbError, PdbErrorView};
use vstd::prelude::*;
use vstd::string::*;

verus! {

/// A point in pixel coordinates.
#[derive(Debug, Clone, Copy, PartialEq, Eq, Structural)]
pub struct Point {
    pub x: i32,
    pub y: i32,
}

impl Point {
    /// The point with these coordinates.
    pub fn new(x: i32, y: i32) -> (p: Self)
        ensures
            p.x == x,
            p.y == y,
    {
        Self { x, y }
    }
}

/// A rectangle in pixel coordinates, given by its four edges.
#[derive(Debug, Clone, Copy, PartialEq, Eq, Structural)]
pub struct Rect {
    pub left: i32,
    pub top: i32,
    pub right: i32,
    pub bottom: i32,
}

impl Rect {
    /// The rectangle with these edges.
    pub fn new(left: i32, top: i32, right: i32, bottom: i32) -> (r: Self)
        ensures
            r.left == left,
            r.top == top,
            r.right == right,
            r.bottom == bottom,
    {
        Self { left, top, right, bottom }
    }

    /// The horizontal extent, `right - left`, as a mathematical integer.
    pub open spec fn spec_width(&self) -> int {
        self.right - self.left
    }

    /// The vertical extent, `bottom - top`, as a mathematical integer.
    pub open spec fn spec_height(&self) -> int {
        self.bottom - self.top
    }

    /// The horizontal extent. The difference has to fit in an `i32`.
    pub fn width(&self) -> (w: i32)
        requires
            i32::MIN <= self.spec_width() <= i32::MAX,
        ensures
            w == self.spec_width(),
    {
        self.right - self.left
    }

    /// The vertical extent. The difference has to fit in an `i32`.
    pub fn height(&self) -> (h: i32)
        requires
            i32::MIN <= self.spec_height() <= i32::MAX,
        ensures
            h == self.spec_height(),
    {
        self.bottom - self.top
    }
}

/// A key of the keyboard, named as on the keyboard.
#[derive(Debug, Clone, Copy, PartialEq, Eq, Structural)]
pub enum KeyCode {
    // Digits
    Num0,
    Num1,
    Num2,
    Num3,
    Num4,
    Num5,
    Num6,
    Num7,
    Num8,
    Num9,
    // Letters
    A,
    B,
    C,
    D,
    E,
    F,
    G,
    H,
    I,
    J,
    K,
    L,
    M,
    N,
    O,
    P,
    Q,
    R,
    S,
    T,
    U,
    V,
    W,
    X,
    Y,
    Z,
    // Function keys
    F1,
    F2,
    F3,
    F4,
    F5,
    F6,
    F7,
    F8,
    F9,
    F10,
    F11,
    F12,
    // Editing, modifier and navigation keys
    Backspace,
    Tab,
    Enter,
    Shift,
    Ctrl,
    Alt,
    Pause,
    CapsLock,
    Escape,
    Space,
    PageUp,
    PageDown,
    End,
    Home,
    Left,
    Up,
    Right,
    Down,
    Insert,
    Delete,
    // Logo keys
    LWin,
    RWin,
}

impl KeyCode {
    /// The virtual key code that the windowing system knows the key by.
    pub open spec fn spec_vk_code(self) -> u16 {
        match self {
            KeyCode::Num0 => 0x30,
            KeyCode::Num1 => 0x31,
            KeyCode::Num2 => 0x32,
            KeyCode::Num3 => 0x33,
            KeyCode::Num4 => 0x34,
            KeyCode::Num5 => 0x35,
            KeyCode::Num6 => 0x36,
            KeyCode::Num7 => 0x37,
            KeyCode::Num8 => 0x38,
            KeyCode::Num9 => 0x39,
            KeyCode::A => 0x41,
            KeyCode::B => 0x42,
            KeyCode::C => 0x43,
            KeyCode::D => 0x44,
            KeyCode::E => 0x45,
            KeyCode::F => 0x46,
            KeyCode::G => 0x47,
            KeyCode::H => 0x48,
            KeyCode::I => 0x49,
            KeyCode::J => 0x4A,
            KeyCode::K => 0x4B,
            KeyCode::L => 0x4C,
            KeyCode::M => 0x4D,
            KeyCode::N => 0x4E,
            KeyCode::O => 0x4F,
            KeyCode::P => 0x50,
            KeyCode::Q => 0x51,
            KeyCode::R => 0x52,
            KeyCode::S => 0x53,
            KeyCode::T => 0x54,
            KeyCode::U => 0x55,
            KeyCode::V => 0x56,
            KeyCode::W => 0x57,
            KeyCode::X => 0x58,
            KeyCode::Y => 0x59,
            KeyCode::Z => 0x5A,
            KeyCode::F1 => 0x70,
            KeyCode::F2 => 0x71,
            KeyCode::F3 => 0x72,
            KeyCode::F4 => 0x73,
            KeyCode::F5 => 0x74,
            KeyCode::F6 => 0x75,
            KeyCode::F7 => 0x76,
            KeyCode::F8 => 0x77,
            KeyCode::F9 => 0x78,
            KeyCode::F10 => 0x79,
            KeyCode::F11 => 0x7A,
            KeyCode::F12 => 0x7B,
            KeyCode::Backspace => 0x08,
            KeyCode::Tab => 0x09,
            KeyCode::Enter => 0x0D,
            KeyCode::Shift => 0x10,
            KeyCode::Ctrl => 0x11,
            KeyCode::Alt => 0x12,
            KeyCode::Pause => 0x13,
            KeyCode::CapsLock => 0x14,
            KeyCode::Escape => 0x1B,
            KeyCode::Space => 0x20,
            KeyCode::PageUp => 0x21,
            KeyCode::PageDown => 0x22,
            KeyCode::End => 0x23,
            KeyCode::Home => 0x24,
            KeyCode::Left => 0x25,
            KeyCode::Up => 0x26,
            KeyCode::Right => 0x27,
            KeyCode::Down => 0x28,
            KeyCode::Insert => 0x2D,
            KeyCode::Delete => 0x2E,
            KeyCode::LWin => 0x5B,
            KeyCode::RWin => 0x5C,
        }
    }

    /// The virtual key code of the key.
    pub fn vk_code(&self) -> (code: u16)
        ensures
            code == self.spec_vk_code(),
    {
        match self {
            KeyCode::Num0 => 0x30,
            KeyCode::Num1 => 0x31,
            KeyCode::Num2 => 0x32,
            KeyCode::Num3 => 0x33,
            KeyCode::Num4 => 0x34,
            KeyCode::Num5 => 0x35,
            KeyCode::Num6 => 0x36,
            KeyCode::Num7 => 0x37,
            KeyCode::Num8 => 0x38,
            KeyCode::Num9 => 0x39,
            KeyCode::A => 0x41,
            KeyCode::B => 0x42,
            KeyCode::C => 0x43,
            KeyCode::D => 0x44,
            KeyCode::E => 0x45,
            KeyCode::F => 0x46,
            KeyCode::G => 0x47,
            KeyCode::H => 0x48,
            KeyCode::I => 0x49,
            KeyCode::J => 0x4A,
            KeyCode::K => 0x4B,
            KeyCode::L => 0x4C,
            KeyCode::M => 0x4D,
            KeyCode::N => 0x4E,
            KeyCode::O => 0x4F,
            KeyCode::P => 0x50,
            KeyCode::Q => 0x51,
            KeyCode::R => 0x52,
            KeyCode::S => 0x53,
            KeyCode::T => 0x54,
            KeyCode::U => 0x55,
            KeyCode::V => 0x56,
            KeyCode::W => 0x57,
            KeyCode::X => 0x58,
            KeyCode::Y => 0x59,
            KeyCode::Z => 0x5A,
            KeyCode::F1 => 0x70,
            KeyCode::F2 => 0x71,
            KeyCode::F3 => 0x72,
            KeyCode::F4 => 0x73,
            KeyCode::F5 => 0x74,
            KeyCode::F6 => 0x75,
            KeyCode::F7 => 0x76,
            KeyCode::F8 => 0x77,
            KeyCode::F9 => 0x78,
            KeyCode::F10 => 0x79,
            KeyCode::F11 => 0x7A,
            KeyCode::F12 => 0x7B,
            KeyCode::Backspace => 0x08,
            KeyCode::Tab => 0x09,
            KeyCode::Enter => 0x0D,
            KeyCode::Shift => 0x10,
            KeyCode::Ctrl => 0x11,
            KeyCode::Alt => 0x12,
            KeyCode::Pause => 0x13,
            KeyCode::CapsLock => 0x14,
            KeyCode::Escape => 0x1B,
            KeyCode::Space => 0x20,
            KeyCode::PageUp => 0x21,
            KeyCode::PageDown => 0x22,
            KeyCode::End => 0x23,
            KeyCode::Home => 0x24,
            KeyCode::Left => 0x25,
            KeyCode::Up => 0x26,
            KeyCode::Right => 0x27,
            KeyCode::Down => 0x28,
            KeyCode::Insert => 0x2D,
            KeyCode::Delete => 0x2E,
            KeyCode::LWin => 0x5B,
            KeyCode::RWin => 0x5C,
        }
    }
}

/// What is known of a window at one point in time.
#[derive(Debug, PartialEq, Eq)]
pub struct WindowInfo {
    /// The window's handle, as a number.
    pub hwnd: usize,
    /// The window's title.
    pub title: String,
    /// The name of the window's class.
    pub class_name: String,
    /// The window's rectangle on the screen.
    pub rect: Rect,
    /// Whether the window is visible.
    pub visible: bool,
}

/// The mathematical value of a [`WindowInfo`].
pub struct WindowInfoView {
    pub hwnd: usize,
    pub title: Seq<char>,
    pub class_name: Seq<char>,
    pub rect: Rect,
    pub visible: bool,
}

impl View for WindowInfo {
    type V = WindowInfoView;

    open spec fn view(&self) -> WindowInfoView {
        WindowInfoView {
            hwnd: self.hwnd,
            title: self.title@,
            class_name: self.class_name@,
            rect: self.rect,
            visible: self.visible,
        }
    }
}

impl Clone for WindowInfo {
    fn clone(&self) -> (copy: Self)
        ensures
            copy@ == self@,
    {
        WindowInfo {
            hwnd: self.hwnd,
            title: self.title.clone(),
            class_name: self.class_name.clone(),
            rect: self.rect,
            visible: self.visible,
        }
    }
}

/// The values of a sequence of windows, in the same order.
pub open spec fn window_views(windows: Seq<WindowInfo>) -> Seq<WindowInfoView> {
    windows.map_values(|w: WindowInfo| w@)
}

/// A copy of a list of windows.
pub fn clone_windows(windows: &Vec<WindowInfo>) -> (copy: Vec<WindowInfo>)
    ensures
        window_views(copy@) == window_views(windows@),
{
    let mut copy: Vec<WindowInfo> = Vec::new();
    let mut i: usize = 0;
    while i < windows.len()
        invariant
            i <= windows.len(),
            copy.len() == i,
            forall|k: int| 0 <= k < i ==> copy@[k]@ == windows@[k]@,
        decreases windows.len() - i,
    {
        copy.push(windows[i].clone());
        i += 1;
    }
    assert(window_views(copy@) =~= window_views(windows@));
    copy
}

/// A captured image: its size and its pixels, row by row, four bytes a pixel.
#[derive(Debug, PartialEq, Eq)]
pub struct Screenshot {
    /// Width in pixels.
    pub width: u32,
    /// Height in pixels.
    pub height: u32,
    /// The pixels: red, green, blue and alpha of each, rows from the top.
    pub data: Vec<u8>,
}

/// The mathematical value of a [`Screenshot`].
pub struct ScreenshotView {
    pub width: u32,
    pub height: u32,
    pub data: Seq<u8>,
}

impl ScreenshotView {
    /// The number of bytes that an image of this size takes.
    pub open spec fn pixel_bytes(self) -> int {
        4 * self.width * self.height
    }

    /// Whether the size of a row, and of the whole image, can be counted in
    /// bytes on this machine: whether `4 * width` and `4 * width * height`
    /// fit in a `usize`.
    pub open spec fn is_countable(self) -> bool {
        4 * self.width <= usize::MAX && self.pixel_bytes() <= usize::MAX
    }

    /// Whether the image can be made of the buffer: whether its size can be
    /// counted and the buffer holds every pixel.
    pub open spec fn is_complete(self) -> bool {
        self.is_countable() && self.pixel_bytes() <= self.data.len()
    }
}

impl View for Screenshot {
    type V = ScreenshotView;

    open spec fn view(&self) -> ScreenshotView {
        ScreenshotView { width: self.width, height: self.height, data: self.data@ }
    }
}

impl Clone for Screenshot {
    fn clone(&self) -> (copy: Self)
        ensures
            copy@ == self@,
    {
        Screenshot { width: self.width, height: self.height, data: self.data.clone() }
    }
}

/// `image::ImageBuffer::from_raw` for four-channel pixels of one byte each, asked
/// whether it accepts the buffer. It multiplies 4 by the width and the product
/// by the height, each time with a check that the result fits in a `usize`,
/// and accepts a buffer that holds at least that many bytes. A width of which
/// four times does not fit is refused whatever the height is, zero too.
#[verifier::external_body]
fn rgba_buffer_accepted(width: u32, height: u32, data: &[u8]) -> (accepted: bool)
    ensures
        accepted == (4 * width <= usize::MAX && 4 * width * height <= usize::MAX && 4 * width
            * height <= data@.len()),
{
    image::ImageBuffer::<image::Rgba<u8>, &[u8]>::from_raw(width, height, data).is_some()
}

impl Screenshot {
    /// The pixel data as it was captured.
    pub fn raw_data(&self) -> (data: &[u8])
        ensures
            data@ == self@.data,
    {
        self.data.as_slice()
    }

    /// The pixel data in red, green, blue, alpha order.
    pub fn rgba_data(&self) -> (data: &[u8])
        ensures
            data@ == self@.data,
    {
        self.data.as_slice()
    }

    /// Checks that the image can be encoded: that its size can be counted in
    /// bytes on this machine and the buffer holds every pixel.
    pub fn check_complete(&self) -> (r: Result<(), PdbError>)
        ensures
            r is Ok <==> self@.is_complete(),
            r matches Err(e) ==> e@ == PdbErrorView::CaptureError("Failed to create image"@),
    {
        if rgba_buffer_accepted(self.width, self.height, self.data.as_slice()) {
            Ok(())
        } else {
            Err(PdbError::CaptureError(String::from_str("Failed to create image")))
        }
    }
}

} // verus!
