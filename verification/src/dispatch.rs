//! The server's rules: what a command asks of the host, and which response
//! answers it.
//!
//! Dispatch has two halves. `plan` reads the command and the registry and says
//! what has to be done on the host, if anything. The caller does it, and
//! `complete` turns what came of it into the response. Neither half fails:
//! whatever goes wrong on the host reaches the client as an error response.

use crate::controller::{found, Wanted, WindowController};
use crate::device::Device;
use crate::error::{PdbError, PdbErrorView};
use crate::protocol::{Command, CommandView, Response, ResponseView};
use crate::registry::{registered, resolved, DeviceRegistry};
use crate::types::{window_views, KeyCode, Screenshot, ScreenshotView, WindowInfo, WindowInfoView};
use vstd::prelude::*;
use vstd::string::*;

verus! {

/// What a command asks the caller to do.
#[derive(Debug, PartialEq, Eq)]
pub enum Action {
    /// Nothing: the response is already known.
    Reply(Response),
    /// List the windows of the host.
    ListWindows,
    /// List the windows of the host, for a connect by title.
    FindByTitle { title: String },
    /// Look up the window with this handle.
    FindByHwnd { hwnd: usize },
    /// Click at a position of the device's window.
    Click { device: Device, x: i32, y: i32 },
    /// Drag across the device's window.
    Swipe { device: Device, x1: i32, y1: i32, x2: i32, y2: i32, duration_ms: u32 },
    /// Capture the device's window.
    Screenshot { device: Device },
    /// Type a text into the device's window.
    InputText { device: Device, text: String },
    /// Press and release a key in the device's window.
    KeyEvent { device: Device, key: KeyCode },
    /// Measure the client area of the device's window.
    GetSize { device: Device },
    /// Bring the device's window to the foreground.
    Focus { device: Device },
}

/// The mathematical value of an [`Action`].
pub enum ActionView {
    Reply(ResponseView),
    ListWindows,
    FindByTitle { title: Seq<char> },
    FindByHwnd { hwnd: usize },
    Click { device: WindowInfoView, x: i32, y: i32 },
    Swipe { device: WindowInfoView, x1: i32, y1: i32, x2: i32, y2: i32, duration_ms: u32 },
    Screenshot { device: WindowInfoView },
    InputText { device: WindowInfoView, text: Seq<char> },
    KeyEvent { device: WindowInfoView, key: KeyCode },
    GetSize { device: WindowInfoView },
    Focus { device: WindowInfoView },
}

impl View for Action {
    type V = ActionView;

    open spec fn view(&self) -> ActionView {
        match self {
            Action::Reply(response) => ActionView::Reply(response@),
            Action::ListWindows => ActionView::ListWindows,
            Action::FindByTitle { title } => ActionView::FindByTitle { title: title@ },
            Action::FindByHwnd { hwnd } => ActionView::FindByHwnd { hwnd: *hwnd },
            Action::Click { device, x, y } => ActionView::Click { device: device@, x: *x, y: *y },
            Action::Swipe { device, x1, y1, x2, y2, duration_ms } => ActionView::Swipe {
                device: device@,
                x1: *x1,
                y1: *y1,
                x2: *x2,
                y2: *y2,
                duration_ms: *duration_ms,
            },
            Action::Screenshot { device } => ActionView::Screenshot { device: device@ },
            Action::InputText { device, text } => ActionView::InputText {
                device: device@,
                text: text@,
            },
            Action::KeyEvent { device, key } => ActionView::KeyEvent { device: device@, key: *key },
            Action::GetSize { device } => ActionView::GetSize { device: device@ },
            Action::Focus { device } => ActionView::Focus { device: device@ },
        }
    }
}

/// What came of an action on the host.
#[derive(Debug, PartialEq, Eq)]
pub enum Outcome {
    /// The windows of the host.
    Windows(Vec<WindowInfo>),
    /// The window that was looked up.
    Window(WindowInfo),
    /// The device did what it was asked to.
    Done,
    /// The size of the client area.
    Size { width: i32, height: i32 },
    /// The captured image.
    Screenshot(Screenshot),
    /// The host could not do it.
    Failed(PdbError),
}

/// The mathematical value of an [`Outcome`].
pub enum OutcomeView {
    Windows(Seq<WindowInfoView>),
    Window(WindowInfoView),
    Done,
    Size { width: i32, height: i32 },
    Screenshot(ScreenshotView),
    Failed(PdbErrorView),
}

impl View for Outcome {
    type V = OutcomeView;

    open spec fn view(&self) -> OutcomeView {
        match self {
            Outcome::Windows(windows) => OutcomeView::Windows(window_views(windows@)),
            Outcome::Window(info) => OutcomeView::Window(info@),
            Outcome::Done => OutcomeView::Done,
            Outcome::Size { width, height } => OutcomeView::Size { width: *width, height: *height },
            Outcome::Screenshot(shot) => OutcomeView::Screenshot(shot@),
            Outcome::Failed(e) => OutcomeView::Failed(e@),
        }
    }
}

/// The answer to a command for a handle that no client has connected to.
pub open spec fn not_connected() -> ResponseView {
    ResponseView::Error("Device not connected"@)
}

/// The answer where the host hands back something that the action did not ask for.
pub open spec fn unexpected_outcome() -> ResponseView {
    ResponseView::Error("Unexpected outcome"@)
}

/// The action for a command that needs a connected device: `action` applied
/// to the device of the handle, or the reply that says that there is none.
pub open spec fn with_device(
    entries: Map<usize, WindowInfoView>,
    hwnd: usize,
    action: spec_fn(WindowInfoView) -> ActionView,
) -> ActionView {
    match resolved(entries, hwnd) {
        Some(device) => action(device),
        None => ActionView::Reply(not_connected()),
    }
}

/// What a command asks for, given the registry's entries.
///
/// A ping and a disconnect are answered at once. Listing and connecting go to
/// the host. Every other command needs the device of its handle: it is never
/// connected on the way.
pub open spec fn planned(command: CommandView, entries: Map<usize, WindowInfoView>) -> ActionView {
    match command {
        CommandView::Ping => ActionView::Reply(ResponseView::Pong),
        CommandView::Disconnect => ActionView::Reply(ResponseView::Done),
        CommandView::ListWindows => ActionView::ListWindows,
        CommandView::Connect { title } => ActionView::FindByTitle { title },
        CommandView::ConnectByHwnd { hwnd } => ActionView::FindByHwnd { hwnd },
        CommandView::Click { hwnd, x, y } => with_device(
            entries,
            hwnd,
            |device: WindowInfoView| ActionView::Click { device, x, y },
        ),
        CommandView::Swipe { hwnd, x1, y1, x2, y2, duration_ms } => with_device(
            entries,
            hwnd,
            |device: WindowInfoView| ActionView::Swipe { device, x1, y1, x2, y2, duration_ms },
        ),
        CommandView::Screenshot { hwnd } => with_device(
            entries,
            hwnd,
            |device: WindowInfoView| ActionView::Screenshot { device },
        ),
        CommandView::InputText { hwnd, text } => with_device(
            entries,
            hwnd,
            |device: WindowInfoView| ActionView::InputText { device, text },
        ),
        CommandView::KeyEvent { hwnd, key } => with_device(
            entries,
            hwnd,
            |device: WindowInfoView| ActionView::KeyEvent { device, key },
        ),
        CommandView::GetSize { hwnd } => with_device(
            entries,
            hwnd,
            |device: WindowInfoView| ActionView::GetSize { device },
        ),
        CommandView::Focus { hwnd } => with_device(
            entries,
            hwnd,
            |device: WindowInfoView| ActionView::Focus { device },
        ),
    }
}

/// The window that an action connects to, if the outcome gives one: for a
/// connect by title the first listed window whose title contains the title,
/// for a connect by handle the window that was looked up.
pub open spec fn connected(action: ActionView, outcome: OutcomeView) -> Option<WindowInfoView> {
    match (action, outcome) {
        (ActionView::FindByTitle { title }, OutcomeView::Windows(windows)) => match found(
            windows,
            Wanted::TitleContains(title),
        ) {
            Ok(info) => Some(info),
            Err(_) => None,
        },
        (ActionView::FindByHwnd { .. }, OutcomeView::Window(info)) => Some(info),
        _ => None,
    }
}

/// Whether the outcome is what the action asks the host for.
pub open spec fn answers(action: ActionView, outcome: OutcomeView) -> bool {
    match action {
        ActionView::Reply(_) => false,
        ActionView::ListWindows => outcome is Windows,
        ActionView::FindByTitle { .. } => outcome is Windows,
        ActionView::FindByHwnd { .. } => outcome is Window,
        ActionView::Click { .. } => outcome is Done,
        ActionView::Swipe { .. } => outcome is Done,
        ActionView::Screenshot { .. } => outcome is Screenshot,
        ActionView::InputText { .. } => outcome is Done,
        ActionView::KeyEvent { .. } => outcome is Done,
        ActionView::GetSize { .. } => outcome is Size,
        ActionView::Focus { .. } => outcome is Done,
    }
}

/// The response that an outcome carries over, when it answers the action.
pub open spec fn carried(action: ActionView, outcome: OutcomeView) -> ResponseView {
    match outcome {
        OutcomeView::Windows(windows) => match action {
            ActionView::FindByTitle { title } => match found(windows, Wanted::TitleContains(title)) {
                Ok(info) => ResponseView::Window(info),
                Err(e) => ResponseView::Error(e.text()),
            },
            _ => ResponseView::Windows(windows),
        },
        OutcomeView::Window(info) => ResponseView::Window(info),
        OutcomeView::Done => ResponseView::Done,
        OutcomeView::Size { width, height } => ResponseView::Size { width, height },
        OutcomeView::Screenshot(shot) => ResponseView::Screenshot(shot),
        OutcomeView::Failed(e) => ResponseView::Error(e.text()),
    }
}

/// The response to a command whose action had this outcome.
///
/// A reply is the response. A failure becomes an error response with the
/// failure's text. An outcome that answers the action is carried over. Any
/// other outcome becomes an error response.
pub open spec fn completed(action: ActionView, outcome: OutcomeView) -> ResponseView {
    match action {
        ActionView::Reply(response) => response,
        _ => if outcome is Failed || answers(action, outcome) {
            carried(action, outcome)
        } else {
            unexpected_outcome()
        },
    }
}

/// The registry's entries after an action with this outcome: a connect that
/// found its window stores it, nothing else changes the registry.
pub open spec fn entries_after(
    entries: Map<usize, WindowInfoView>,
    action: ActionView,
    outcome: OutcomeView,
) -> Map<usize, WindowInfoView> {
    match connected(action, outcome) {
        Some(info) => registered(entries, info),
        None => entries,
    }
}

fn reply_not_connected() -> (action: Action)
    ensures
        action@ == ActionView::Reply(not_connected()),
{
    Action::Reply(Response::Error(String::from_str("Device not connected")))
}

fn reply_failure(e: &PdbError) -> (response: Response)
    ensures
        response@ == ResponseView::Error(e@.text()),
{
    Response::Error(e.to_string())
}

fn reply_unexpected() -> (response: Response)
    ensures
        response@ == unexpected_outcome(),
{
    Response::Error(String::from_str("Unexpected outcome"))
}

/// Says what a command asks of the host.
pub fn plan(command: Command, registry: &DeviceRegistry) -> (action: Action)
    ensures
        action@ == planned(command@, registry@),
        action_device(action@) matches Some(device) ==> device.hwnd == command_handle(command@),
{
    match command {
        Command::Ping => Action::Reply(Response::Pong),
        Command::Disconnect => Action::Reply(Response::Done),
        Command::ListWindows => Action::ListWindows,
        Command::Connect { title } => Action::FindByTitle { title },
        Command::ConnectByHwnd { hwnd } => Action::FindByHwnd { hwnd },
        Command::Click { hwnd, x, y } => match registry.resolve(hwnd) {
            Some(device) => Action::Click { device: device.clone(), x, y },
            None => reply_not_connected(),
        },
        Command::Swipe { hwnd, x1, y1, x2, y2, duration_ms } => match registry.resolve(hwnd) {
            Some(device) => Action::Swipe { device: device.clone(), x1, y1, x2, y2, duration_ms },
            None => reply_not_connected(),
        },
        Command::Screenshot { hwnd } => match registry.resolve(hwnd) {
            Some(device) => Action::Screenshot { device: device.clone() },
            None => reply_not_connected(),
        },
        Command::InputText { hwnd, text } => match registry.resolve(hwnd) {
            Some(device) => Action::InputText { device: device.clone(), text },
            None => reply_not_connected(),
        },
        Command::KeyEvent { hwnd, key } => match registry.resolve(hwnd) {
            Some(device) => Action::KeyEvent { device: device.clone(), key },
            None => reply_not_connected(),
        },
        Command::GetSize { hwnd } => match registry.resolve(hwnd) {
            Some(device) => Action::GetSize { device: device.clone() },
            None => reply_not_connected(),
        },
        Command::Focus { hwnd } => match registry.resolve(hwnd) {
            Some(device) => Action::Focus { device: device.clone() },
            None => reply_not_connected(),
        },
    }
}

/// Turns the outcome of an action into the response, and stores the device of
/// a connect that found its window.
pub fn complete(action: Action, outcome: Outcome, registry: &mut DeviceRegistry) -> (response:
    Response)
    ensures
        response@ == completed(action@, outcome@),
        final(registry)@ == entries_after(old(registry)@, action@, outcome@),
{
    match action {
        Action::Reply(response) => response,
        Action::ListWindows => match outcome {
            Outcome::Windows(windows) => Response::Windows(windows),
            Outcome::Failed(e) => reply_failure(&e),
            _ => reply_unexpected(),
        },
        Action::FindByTitle { title } => match outcome {
            Outcome::Windows(windows) => {
                let controller = WindowController::new();
                match controller.find_window(windows.as_slice(), title.as_str()) {
                    Ok(info) => connect(info, registry),
                    Err(e) => reply_failure(&e),
                }
            },
            Outcome::Failed(e) => reply_failure(&e),
            _ => reply_unexpected(),
        },
        Action::FindByHwnd { .. } => match outcome {
            Outcome::Window(info) => connect(info, registry),
            Outcome::Failed(e) => reply_failure(&e),
            _ => reply_unexpected(),
        },
        Action::Screenshot { .. } => match outcome {
            Outcome::Screenshot(shot) => Response::Screenshot(shot),
            Outcome::Failed(e) => reply_failure(&e),
            _ => reply_unexpected(),
        },
        Action::GetSize { .. } => match outcome {
            Outcome::Size { width, height } => Response::Size { width, height },
            Outcome::Failed(e) => reply_failure(&e),
            _ => reply_unexpected(),
        },
        Action::Click { .. } => acknowledge(outcome),
        Action::Swipe { .. } => acknowledge(outcome),
        Action::InputText { .. } => acknowledge(outcome),
        Action::KeyEvent { .. } => acknowledge(outcome),
        Action::Focus { .. } => acknowledge(outcome),
    }
}

fn connect(info: WindowInfo, registry: &mut DeviceRegistry) -> (response: Response)
    ensures
        response@ == ResponseView::Window(info@),
        final(registry)@ == registered(old(registry)@, info@),
{
    let _ = registry.register(info.clone());
    Response::Window(info)
}

fn acknowledge(outcome: Outcome) -> (response: Response)
    ensures
        response@ == match outcome@ {
            OutcomeView::Done => ResponseView::Done,
            OutcomeView::Failed(e) => ResponseView::Error(e.text()),
            _ => unexpected_outcome(),
        },
{
    match outcome {
        Outcome::Done => Response::Done,
        Outcome::Failed(e) => reply_failure(&e),
        _ => reply_unexpected(),
    }
}

/// Every command is answered in the shape that belongs to it, or by an error.
/// Where the host does what the action asks for, the answer has the
/// command's shape; only a connect by title can then still fail, when no
/// listed window has the title.
pub proof fn lemma_dispatch_pairing(
    command: CommandView,
    entries: Map<usize, WindowInfoView>,
    outcome: OutcomeView,
)
    ensures
        ({
            let action = planned(command, entries);
            let response = completed(action, outcome);
            &&& response.kind() == command.success_kind() || response is Error
            &&& answers(action, outcome) && !(command is Connect && connected(action, outcome) is None)
                ==> response.kind() == command.success_kind()
            &&& command is Ping ==> response == ResponseView::Pong
            &&& command is Disconnect ==> response == ResponseView::Done
        }),
{
}

/// A command for a handle without an entry is answered by the error that
/// says so, and asks nothing of the host. A command for a handle with an
/// entry goes to the device of that entry.
pub proof fn lemma_device_commands_resolve(command: CommandView, entries: Map<usize, WindowInfoView>)
    requires
        !(command is Ping || command is Disconnect || command is ListWindows || command is Connect
            || command is ConnectByHwnd),
    ensures
        ({
            let hwnd = command_handle(command);
            let action = planned(command, entries);
            &&& !entries.contains_key(hwnd) ==> action == ActionView::Reply(not_connected())
            &&& entries.contains_key(hwnd) ==> action_device(action) == Some(entries[hwnd])
        }),
{
}

/// The handle that a command names, or zero where it names none.
pub open spec fn command_handle(command: CommandView) -> usize {
    match command {
        CommandView::ConnectByHwnd { hwnd } => hwnd,
        CommandView::Click { hwnd, .. } => hwnd,
        CommandView::Swipe { hwnd, .. } => hwnd,
        CommandView::Screenshot { hwnd } => hwnd,
        CommandView::InputText { hwnd, .. } => hwnd,
        CommandView::KeyEvent { hwnd, .. } => hwnd,
        CommandView::GetSize { hwnd } => hwnd,
        CommandView::Focus { hwnd } => hwnd,
        _ => 0,
    }
}

/// The device that an action is for, if it is for one.
pub open spec fn action_device(action: ActionView) -> Option<WindowInfoView> {
    match action {
        ActionView::Click { device, .. } => Some(device),
        ActionView::Swipe { device, .. } => Some(device),
        ActionView::Screenshot { device } => Some(device),
        ActionView::InputText { device, .. } => Some(device),
        ActionView::KeyEvent { device, .. } => Some(device),
        ActionView::GetSize { device } => Some(device),
        ActionView::Focus { device } => Some(device),
        _ => None,
    }
}

/// Only a connect that finds its window changes the registry, and it changes
/// the entry of that window's handle alone.
pub proof fn lemma_registry_grows_by_connect(
    command: CommandView,
    entries: Map<usize, WindowInfoView>,
    outcome: OutcomeView,
)
    ensures
        ({
            let action = planned(command, entries);
            let after = entries_after(entries, action, outcome);
            &&& !(command is Connect || command is ConnectByHwnd) ==> after == entries
            &&& completed(action, outcome) is Error ==> after == entries
            &&& forall|hwnd: usize| entries.contains_key(hwnd) ==> after.contains_key(hwnd)
        }),
{
}

} // verus!
