//! What a command line of the client program asks for.
//!
//! `parse_invocation` reads the arguments and says what the program is to do.
//! It opens no connection and prints nothing; the program does what the
//! invocation says.

use crate::cli::{
    default_addr, filter_args, get_addr, handle_value, hwnd_of, is_local_flag, is_local_mode,
    keycode_of, parse_hwnd, parse_keycode, texts,
};
use crate::error::{PdbError, PdbErrorView};
use crate::text::{decimal_i64, decimal_u64, lowercase, parse_i64, parse_u64, str_eq};
use crate::types::KeyCode;
use vstd::prelude::*;

verus! {

/// The commands of the program.
#[derive(Debug, Clone, Copy, PartialEq, Eq, Structural)]
pub enum Verb {
    Devices,
    Connect,
    Click,
    Swipe,
    Text,
    Key,
    Screenshot,
    Coord,
    Ping,
}

/// The number arguments that have to be numbers.
#[derive(Debug, Clone, Copy, PartialEq, Eq, Structural)]
pub enum Operand {
    X,
    Y,
    X1,
    Y1,
    X2,
    Y2,
}

/// Where a command is carried out.
#[derive(Debug, PartialEq, Eq)]
pub enum Target {
    /// On this machine, without a server.
    Local,
    /// On the host of the server at this address.
    Remote { addr: String },
}

/// The mathematical value of a [`Target`].
pub enum TargetView {
    Local,
    Remote { addr: Seq<char> },
}

impl View for Target {
    type V = TargetView;

    open spec fn view(&self) -> TargetView {
        match self {
            Target::Local => TargetView::Local,
            Target::Remote { addr } => TargetView::Remote { addr: addr@ },
        }
    }
}

/// What the program is asked to do.
#[derive(Debug, PartialEq, Eq)]
pub enum Invocation {
    /// Print the usage text.
    Usage,
    /// Print how the command is used: it was given too few arguments.
    Hint { verb: Verb, local: bool },
    /// List the windows.
    Devices { target: Target },
    /// Connect to a window by title.
    Connect { title: String, target: Target },
    /// Click at a position.
    Click { hwnd: usize, x: i32, y: i32, target: Target },
    /// Drag from one position to another.
    Swipe { hwnd: usize, x1: i32, y1: i32, x2: i32, y2: i32, duration_ms: u32, target: Target },
    /// Type a text.
    Text { hwnd: usize, text: String, target: Target },
    /// Press a key.
    Key { hwnd: usize, key: KeyCode, target: Target },
    /// Capture the window and save the image at `path`.
    Screenshot { hwnd: usize, path: String, target: Target },
    /// Follow the mouse over a window of this machine.
    Coord { hwnd: usize },
    /// Ask the server whether it is alive.
    Ping { addr: String },
    /// Give up with this error: a handle or a key name is wrong.
    Fail(PdbError),
    /// Give up at once: this argument is no number.
    Abort(Operand),
}

/// The mathematical value of an [`Invocation`].
pub enum InvocationView {
    Usage,
    Hint { verb: Verb, local: bool },
    Devices { target: TargetView },
    Connect { title: Seq<char>, target: TargetView },
    Click { hwnd: usize, x: i32, y: i32, target: TargetView },
    Swipe { hwnd: usize, x1: i32, y1: i32, x2: i32, y2: i32, duration_ms: u32, target: TargetView },
    Text { hwnd: usize, text: Seq<char>, target: TargetView },
    Key { hwnd: usize, key: KeyCode, target: TargetView },
    Screenshot { hwnd: usize, path: Seq<char>, target: TargetView },
    Coord { hwnd: usize },
    Ping { addr: Seq<char> },
    Fail(PdbErrorView),
    Abort(Operand),
}

impl View for Invocation {
    type V = InvocationView;

    open spec fn view(&self) -> InvocationView {
        match self {
            Invocation::Usage => InvocationView::Usage,
            Invocation::Hint { verb, local } => InvocationView::Hint { verb: *verb, local: *local },
            Invocation::Devices { target } => InvocationView::Devices { target: target@ },
            Invocation::Connect { title, target } => InvocationView::Connect {
                title: title@,
                target: target@,
            },
            Invocation::Click { hwnd, x, y, target } => InvocationView::Click {
                hwnd: *hwnd,
                x: *x,
                y: *y,
                target: target@,
            },
            Invocation::Swipe { hwnd, x1, y1, x2, y2, duration_ms, target } => InvocationView::Swipe {
                hwnd: *hwnd,
                x1: *x1,
                y1: *y1,
                x2: *x2,
                y2: *y2,
                duration_ms: *duration_ms,
                target: target@,
            },
            Invocation::Text { hwnd, text, target } => InvocationView::Text {
                hwnd: *hwnd,
                text: text@,
                target: target@,
            },
            Invocation::Key { hwnd, key, target } => InvocationView::Key {
                hwnd: *hwnd,
                key: *key,
                target: target@,
            },
            Invocation::Screenshot { hwnd, path, target } => InvocationView::Screenshot {
                hwnd: *hwnd,
                path: path@,
                target: target@,
            },
            Invocation::Coord { hwnd } => InvocationView::Coord { hwnd: *hwnd },
            Invocation::Ping { addr } => InvocationView::Ping { addr: addr@ },
            Invocation::Fail(e) => InvocationView::Fail(e@),
            Invocation::Abort(operand) => InvocationView::Abort(*operand),
        }
    }
}

/// The command that a word names. Following the mouse is for local mode
/// only, a ping for remote mode only.
pub open spec fn verb_of(word: Seq<char>, local: bool) -> Option<Verb> {
    if word == "devices"@ || word == "list"@ {
        Some(Verb::Devices)
    } else if word == "connect"@ {
        Some(Verb::Connect)
    } else if word == "click"@ {
        Some(Verb::Click)
    } else if word == "swipe"@ {
        Some(Verb::Swipe)
    } else if word == "text"@ {
        Some(Verb::Text)
    } else if word == "key"@ {
        Some(Verb::Key)
    } else if word == "screenshot"@ {
        Some(Verb::Screenshot)
    } else if local && (word == "coord"@ || word == "mouse"@) {
        Some(Verb::Coord)
    } else if !local && word == "ping"@ {
        Some(Verb::Ping)
    } else {
        None
    }
}

impl Verb {
    /// The number of arguments, program name and command included, that the
    /// command cannot do without.
    pub open spec fn spec_least_args(self) -> int {
        match self {
            Verb::Devices => 2,
            Verb::Connect => 3,
            Verb::Click => 5,
            Verb::Swipe => 7,
            Verb::Text => 4,
            Verb::Key => 4,
            Verb::Screenshot => 4,
            Verb::Coord => 3,
            Verb::Ping => 2,
        }
    }

    /// The place of the server address among the arguments of the command.
    pub open spec fn spec_addr_index(self) -> int {
        match self {
            Verb::Devices => 2,
            Verb::Connect => 3,
            Verb::Click => 5,
            Verb::Swipe => 8,
            Verb::Text => 4,
            Verb::Key => 4,
            Verb::Screenshot => 4,
            Verb::Coord => 3,
            Verb::Ping => 2,
        }
    }

    /// The number of arguments that the command cannot do without.
    pub fn least_args(self) -> (n: usize)
        ensures
            n == self.spec_least_args(),
    {
        match self {
            Verb::Devices => 2,
            Verb::Connect => 3,
            Verb::Click => 5,
            Verb::Swipe => 7,
            Verb::Text => 4,
            Verb::Key => 4,
            Verb::Screenshot => 4,
            Verb::Coord => 3,
            Verb::Ping => 2,
        }
    }

    /// The place of the server address among the arguments of the command.
    pub fn addr_index(self) -> (n: usize)
        ensures
            n == self.spec_addr_index(),
    {
        match self {
            Verb::Devices => 2,
            Verb::Connect => 3,
            Verb::Click => 5,
            Verb::Swipe => 8,
            Verb::Text => 4,
            Verb::Key => 4,
            Verb::Screenshot => 4,
            Verb::Coord => 3,
            Verb::Ping => 2,
        }
    }
}

impl Verb {
    /// The line that says how the command is used in a mode. A command that
    /// takes no argument, or does not exist in the mode, has the general line.
    pub open spec fn spec_hint(self, local: bool) -> Seq<char> {
        match (self, local) {
            (Verb::Connect, true) => "Usage: pdb-client --local connect <window_title>"@,
            (Verb::Click, true) => "Usage: pdb-client --local click <hwnd> <x> <y>"@,
            (Verb::Swipe, true) => "Usage: pdb-client --local swipe <hwnd> <x1> <y1> <x2> <y2> [duration_ms]"@,
            (Verb::Text, true) => "Usage: pdb-client --local text <hwnd> <text>"@,
            (Verb::Key, true) => "Usage: pdb-client --local key <hwnd> <keycode>"@,
            (Verb::Screenshot, true) => "Usage: pdb-client --local screenshot <hwnd> <output_path>"@,
            (Verb::Coord, true) => "Usage: pdb-client --local coord <hwnd>"@,
            (Verb::Connect, false) => "Usage: pdb-client connect <window_title> [server_addr]"@,
            (Verb::Click, false) => "Usage: pdb-client click <hwnd> <x> <y> [server_addr]"@,
            (Verb::Swipe, false) => "Usage: pdb-client swipe <hwnd> <x1> <y1> <x2> <y2> [duration_ms] [server_addr]"@,
            (Verb::Text, false) => "Usage: pdb-client text <hwnd> <text> [server_addr]"@,
            (Verb::Key, false) => "Usage: pdb-client key <hwnd> <keycode> [server_addr]"@,
            (Verb::Screenshot, false) => "Usage: pdb-client screenshot <hwnd> <output_path> [server_addr]"@,
            _ => "Usage: pdb-client [--local|-l] <command> [args...]"@,
        }
    }

    /// The line that says how the command is used in a mode.
    pub fn hint(self, local: bool) -> (line: &'static str)
        ensures
            line@ == self.spec_hint(local),
    {
        match (self, local) {
            (Verb::Connect, true) => "Usage: pdb-client --local connect <window_title>",
            (Verb::Click, true) => "Usage: pdb-client --local click <hwnd> <x> <y>",
            (Verb::Swipe, true) => "Usage: pdb-client --local swipe <hwnd> <x1> <y1> <x2> <y2> [duration_ms]",
            (Verb::Text, true) => "Usage: pdb-client --local text <hwnd> <text>",
            (Verb::Key, true) => "Usage: pdb-client --local key <hwnd> <keycode>",
            (Verb::Screenshot, true) => "Usage: pdb-client --local screenshot <hwnd> <output_path>",
            (Verb::Coord, true) => "Usage: pdb-client --local coord <hwnd>",
            (Verb::Connect, false) => "Usage: pdb-client connect <window_title> [server_addr]",
            (Verb::Click, false) => "Usage: pdb-client click <hwnd> <x> <y> [server_addr]",
            (Verb::Swipe, false) => "Usage: pdb-client swipe <hwnd> <x1> <y1> <x2> <y2> [duration_ms] [server_addr]",
            (Verb::Text, false) => "Usage: pdb-client text <hwnd> <text> [server_addr]",
            (Verb::Key, false) => "Usage: pdb-client key <hwnd> <keycode> [server_addr]",
            (Verb::Screenshot, false) => "Usage: pdb-client screenshot <hwnd> <output_path> [server_addr]",
            _ => "Usage: pdb-client [--local|-l] <command> [args...]",
        }
    }
}

impl Operand {
    /// The words that say which argument is no number.
    pub open spec fn spec_message(self) -> Seq<char> {
        match self {
            Operand::X => "Invalid x coordinate"@,
            Operand::Y => "Invalid y coordinate"@,
            Operand::X1 => "Invalid x1"@,
            Operand::Y1 => "Invalid y1"@,
            Operand::X2 => "Invalid x2"@,
            Operand::Y2 => "Invalid y2"@,
        }
    }

    /// The words that say which argument is no number.
    pub fn message(self) -> (words: &'static str)
        ensures
            words@ == self.spec_message(),
    {
        match self {
            Operand::X => "Invalid x coordinate",
            Operand::Y => "Invalid y coordinate",
            Operand::X1 => "Invalid x1",
            Operand::Y1 => "Invalid y1",
            Operand::X2 => "Invalid x2",
            Operand::Y2 => "Invalid y2",
        }
    }
}

/// The coordinate for a number that was read, if one was read and it is one
/// that a coordinate can hold.
pub open spec fn coordinate_of(value: Option<i64>) -> Option<i32> {
    match value {
        Some(v) if i32::MIN <= v <= i32::MAX => Some(v as i32),
        _ => None,
    }
}

/// The duration of a swipe for a number that was read: the number, or half a
/// second where none was read or it is more than a duration can hold.
pub open spec fn duration_of(value: Option<u64>) -> u32 {
    match value {
        Some(v) if v <= u32::MAX => v as u32,
        _ => 500,
    }
}

/// Makes a coordinate of a number that was read from the command line.
pub fn coordinate_from(value: Option<i64>) -> (coordinate: Option<i32>)
    ensures
        coordinate == coordinate_of(value),
{
    match value {
        Some(v) => {
            if -2147483648 <= v && v <= 2147483647 {
                Some(v as i32)
            } else {
                None
            }
        },
        None => None,
    }
}

/// Makes the duration of a swipe of a number that was read from the command line.
pub fn duration_from(value: Option<u64>) -> (duration_ms: u32)
    ensures
        duration_ms == duration_of(value),
{
    match value {
        Some(v) => {
            if v <= 4294967295 {
                v as u32
            } else {
                500
            }
        },
        None => 500,
    }
}

/// Where a command is carried out: on this machine in local mode, else on
/// the host of the server whose address stands at the command's place for
/// it, or of the default server.
pub open spec fn target_of(args: Seq<Seq<char>>, verb: Verb, local: bool) -> TargetView {
    if local {
        TargetView::Local
    } else {
        TargetView::Remote { addr: addr_of(args, verb) }
    }
}

/// The server address among the arguments of a command.
pub open spec fn addr_of(args: Seq<Seq<char>>, verb: Verb) -> Seq<char> {
    if verb.spec_addr_index() < args.len() {
        args[verb.spec_addr_index()]
    } else {
        default_addr()
    }
}

/// The coordinate that stands at a place among the arguments.
pub open spec fn coordinate_at(args: Seq<Seq<char>>, index: int) -> Option<i32> {
    coordinate_of(decimal_i64(args[index]))
}

/// What a command with enough arguments asks for.
///
/// The handle is read first and a wrong one is an error. Then the numbers
/// are read from left to right, and the first that is none gives up. The
/// duration of a swipe may be left out.
pub open spec fn request_of(args: Seq<Seq<char>>, verb: Verb, local: bool) -> InvocationView
    recommends
        args.len() >= verb.spec_least_args(),
{
    let target = target_of(args, verb, local);
    match verb {
        Verb::Devices => InvocationView::Devices { target },
        Verb::Connect => InvocationView::Connect { title: args[2], target },
        Verb::Ping => InvocationView::Ping { addr: addr_of(args, verb) },
        _ => match hwnd_of(handle_value(args[2])) {
            Err(e) => InvocationView::Fail(e),
            Ok(hwnd) => match verb {
                Verb::Click => match (coordinate_at(args, 3), coordinate_at(args, 4)) {
                    (None, _) => InvocationView::Abort(Operand::X),
                    (_, None) => InvocationView::Abort(Operand::Y),
                    (Some(x), Some(y)) => InvocationView::Click { hwnd, x, y, target },
                },
                Verb::Swipe => match (
                    coordinate_at(args, 3),
                    coordinate_at(args, 4),
                    coordinate_at(args, 5),
                    coordinate_at(args, 6),
                ) {
                    (None, _, _, _) => InvocationView::Abort(Operand::X1),
                    (_, None, _, _) => InvocationView::Abort(Operand::Y1),
                    (_, _, None, _) => InvocationView::Abort(Operand::X2),
                    (_, _, _, None) => InvocationView::Abort(Operand::Y2),
                    (Some(x1), Some(y1), Some(x2), Some(y2)) => InvocationView::Swipe {
                        hwnd,
                        x1,
                        y1,
                        x2,
                        y2,
                        duration_ms: duration_of(
                            if args.len() > 7 {
                                decimal_u64(args[7])
                            } else {
                                None
                            },
                        ),
                        target,
                    },
                },
                Verb::Text => InvocationView::Text { hwnd, text: args[3], target },
                Verb::Key => match keycode_of(lowercase(args[3]), args[3]) {
                    Ok(key) => InvocationView::Key { hwnd, key, target },
                    Err(e) => InvocationView::Fail(e),
                },
                Verb::Screenshot => InvocationView::Screenshot { hwnd, path: args[3], target },
                _ => InvocationView::Coord { hwnd },
            },
        },
    }
}

/// What a command line asks for.
///
/// `--local` and `-l` choose local mode wherever they stand, and are not
/// counted among the arguments. Without a command, or with a word that is
/// none in the chosen mode, the usage text is due; with too few arguments
/// for the command, the hint for the command.
pub open spec fn invocation_of(raw: Seq<Seq<char>>) -> InvocationView {
    let local = exists|i: int| 0 <= i < raw.len() && is_local_flag(#[trigger] raw[i]);
    let args = raw.filter(|a: Seq<char>| !is_local_flag(a));
    if args.len() < 2 {
        InvocationView::Usage
    } else {
        match verb_of(args[1], local) {
            None => InvocationView::Usage,
            Some(verb) => if args.len() < verb.spec_least_args() {
                InvocationView::Hint { verb, local }
            } else {
                request_of(args, verb, local)
            },
        }
    }
}

/// The command that a word names in the chosen mode.
pub fn verb_for(word: &str, local: bool) -> (verb: Option<Verb>)
    ensures
        verb == verb_of(word@, local),
{
    if str_eq(word, "devices") || str_eq(word, "list") {
        Some(Verb::Devices)
    } else if str_eq(word, "connect") {
        Some(Verb::Connect)
    } else if str_eq(word, "click") {
        Some(Verb::Click)
    } else if str_eq(word, "swipe") {
        Some(Verb::Swipe)
    } else if str_eq(word, "text") {
        Some(Verb::Text)
    } else if str_eq(word, "key") {
        Some(Verb::Key)
    } else if str_eq(word, "screenshot") {
        Some(Verb::Screenshot)
    } else if local && (str_eq(word, "coord") || str_eq(word, "mouse")) {
        Some(Verb::Coord)
    } else if !local && str_eq(word, "ping") {
        Some(Verb::Ping)
    } else {
        None
    }
}

fn target_for(args: &[String], verb: Verb, local: bool) -> (target: Target)
    ensures
        target@ == target_of(texts(args@), verb, local),
{
    if local {
        Target::Local
    } else {
        Target::Remote { addr: get_addr(args, verb.addr_index()) }
    }
}

fn coordinate(args: &[String], index: usize) -> (value: Option<i32>)
    requires
        index < args@.len(),
    ensures
        value == coordinate_at(texts(args@), index as int),
{
    coordinate_from(parse_i64(args[index].as_str()))
}

fn swipe_duration(args: &[String]) -> (duration_ms: u32)
    ensures
        duration_ms == duration_of(
            if args@.len() > 7 {
                decimal_u64(texts(args@)[7])
            } else {
                None
            },
        ),
{
    if args.len() > 7 {
        duration_from(parse_u64(args[7].as_str()))
    } else {
        duration_from(None)
    }
}

/// Says what a command with enough arguments asks for. `args` are the
/// arguments without the mode flags.
fn request(args: &[String], verb: Verb, local: bool) -> (invocation: Invocation)
    requires
        args@.len() >= verb.spec_least_args(),
    ensures
        invocation@ == request_of(texts(args@), verb, local),
{
    let target = target_for(args, verb, local);
    match verb {
        Verb::Devices => { return Invocation::Devices { target }; },
        Verb::Connect => { return Invocation::Connect { title: args[2].clone(), target }; },
        Verb::Ping => { return Invocation::Ping { addr: get_addr(args, verb.addr_index()) }; },
        _ => {},
    }
    let hwnd: usize = match parse_hwnd(args[2].as_str()) {
        Ok(hwnd) => hwnd,
        Err(e) => { return Invocation::Fail(e); },
    };
    match verb {
        Verb::Click => {
            let x: i32 = match coordinate(args, 3) {
                Some(x) => x,
                None => { return Invocation::Abort(Operand::X); },
            };
            let y: i32 = match coordinate(args, 4) {
                Some(y) => y,
                None => { return Invocation::Abort(Operand::Y); },
            };
            Invocation::Click { hwnd, x, y, target }
        },
        Verb::Swipe => {
            let x1: i32 = match coordinate(args, 3) {
                Some(v) => v,
                None => { return Invocation::Abort(Operand::X1); },
            };
            let y1: i32 = match coordinate(args, 4) {
                Some(v) => v,
                None => { return Invocation::Abort(Operand::Y1); },
            };
            let x2: i32 = match coordinate(args, 5) {
                Some(v) => v,
                None => { return Invocation::Abort(Operand::X2); },
            };
            let y2: i32 = match coordinate(args, 6) {
                Some(v) => v,
                None => { return Invocation::Abort(Operand::Y2); },
            };
            let duration_ms: u32 = swipe_duration(args);
            Invocation::Swipe { hwnd, x1, y1, x2, y2, duration_ms, target }
        },
        Verb::Text => Invocation::Text { hwnd, text: args[3].clone(), target },
        Verb::Key => match parse_keycode(args[3].as_str()) {
            Ok(key) => Invocation::Key { hwnd, key, target },
            Err(e) => Invocation::Fail(e),
        },
        Verb::Screenshot => Invocation::Screenshot { hwnd, path: args[3].clone(), target },
        _ => Invocation::Coord { hwnd },
    }
}

/// Reads a command line, program name first.
pub fn parse_invocation(raw: &[String]) -> (invocation: Invocation)
    ensures
        invocation@ == invocation_of(texts(raw@)),
{
    let local = is_local_mode(raw);
    let args = filter_args(raw);
    assert(local == exists|i: int| 0 <= i < texts(raw@).len() && is_local_flag(#[trigger] texts(raw@)[i])) by {
        if local {
            let i = choose|i: int| 0 <= i < raw@.len() && is_local_flag(#[trigger] raw@[i]@);
            assert(is_local_flag(texts(raw@)[i]));
        }
    }
    if args.len() < 2 {
        return Invocation::Usage;
    }
    match verb_for(args[1].as_str(), local) {
        None => Invocation::Usage,
        Some(verb) => {
            if args.len() < verb.least_args() {
                Invocation::Hint { verb, local }
            } else {
                request(args.as_slice(), verb, local)
            }
        },
    }
}

} // verus!
