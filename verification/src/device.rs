//! A connected window, as the protocol core knows it.

use crate::types::{WindowInfo, WindowInfoView};
use vstd::prelude::*;

verus! {

/// A window that a client has connected to: the identity that the window had
/// when the connection was made.
///
/// The core never acts on a window itself. It hands the device to the caller,
/// who clicks, types and captures through the windowing system.
#[derive(Debug, PartialEq, Eq)]
pub struct Device {
    info: WindowInfo,
}

impl View for Device {
    type V = WindowInfoView;

    closed spec fn view(&self) -> WindowInfoView {
        self.info@
    }
}

impl Clone for Device {
    fn clone(&self) -> (copy: Self)
        ensures
            copy@ == self@,
    {
        Device { info: self.info.clone() }
    }
}

impl Device {
    /// The device for a window.
    pub fn new(info: WindowInfo) -> (device: Self)
        ensures
            device@ == info@,
    {
        Self { info }
    }

    /// The identity that the window had when the device was made.
    pub fn info(&self) -> (info: &WindowInfo)
        ensures
            info@ == self@,
    {
        &self.info
    }

    /// The window's handle.
    pub fn hwnd(&self) -> (hwnd: usize)
        ensures
            hwnd == self@.hwnd,
    {
        self.info.hwnd
    }
}

} // verus!
