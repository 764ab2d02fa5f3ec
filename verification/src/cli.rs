//! Reading the command line of the client program.

use crate::error::{PdbError, PdbErrorView};
use crate::text::{
    decimal_u64, hex_u64, lowercase, parse_hex_u64, parse_u64, str_eq, to_lowercase,
};
use crate::types::KeyCode;
use vstd::prelude::*;
use vstd::string::*;

verus! {

/// The texts of a list of arguments, in the same order.
pub open spec fn texts(args: Seq<String>) -> Seq<Seq<char>> {
    args.map_values(|a: String| a@)
}

/// Whether an argument asks for local mode.
pub open spec fn is_local_flag(arg: Seq<char>) -> bool {
    arg == "--local"@ || arg == "-l"@
}

fn local_flag(arg: &str) -> (b: bool)
    ensures
        b == is_local_flag(arg@),
{
    str_eq(arg, "--local") || str_eq(arg, "-l")
}

/// Whether the arguments ask for local mode: whether one of them is
/// `--local` or `-l`.
pub fn is_local_mode(args: &[String]) -> (local: bool)
    ensures
        local == exists|i: int| 0 <= i < args@.len() && is_local_flag(#[trigger] args@[i]@),
{
    let mut i: usize = 0;
    while i < args.len()
        invariant
            i <= args.len(),
            forall|k: int| 0 <= k < i ==> !is_local_flag(#[trigger] args@[k]@),
        decreases args.len() - i,
    {
        if local_flag(args[i].as_str()) {
            return true;
        }
        i += 1;
    }
    false
}

/// The arguments without those that ask for local mode, in the same order.
pub fn filter_args(args: &[String]) -> (kept: Vec<String>)
    ensures
        texts(kept@) == texts(args@).filter(|a: Seq<char>| !is_local_flag(a)),
{
    let ghost keep = |a: Seq<char>| !is_local_flag(a);
    let mut kept: Vec<String> = Vec::new();
    let mut i: usize = 0;
    proof {
        reveal(Seq::filter);
        assert(texts(args@).take(0) =~= Seq::<Seq<char>>::empty());
        assert(texts(kept@) =~= Seq::<Seq<char>>::empty());
    }
    while i < args.len()
        invariant
            i <= args.len(),
            keep == (|a: Seq<char>| !is_local_flag(a)),
            texts(kept@) == texts(args@).take(i as int).filter(keep),
        decreases args.len() - i,
    {
        let ghost before = texts(kept@);
        let ghost seen = texts(args@).take(i as int + 1);
        proof {
            reveal(Seq::filter);
            assert(seen.drop_last() =~= texts(args@).take(i as int));
            assert(seen.last() == args@[i as int]@);
        }
        if !local_flag(args[i].as_str()) {
            kept.push(args[i].clone());
            assert(texts(kept@) =~= before.push(args@[i as int]@));
        }
        i += 1;
    }
    assert(texts(args@).take(args@.len() as int) =~= texts(args@));
    kept
}

/// The address of a server on this machine, on the default port.
pub open spec fn default_addr() -> Seq<char> {
    "127.0.0.1:5037"@
}

/// The server address among the arguments: the argument at `index`, or the
/// default address if there are not that many arguments.
pub fn get_addr(args: &[String], index: usize) -> (addr: String)
    ensures
        addr@ == if index < args@.len() {
            args@[index as int]@
        } else {
            default_addr()
        },
{
    if index < args.len() {
        args[index].clone()
    } else {
        String::from_str("127.0.0.1:5037")
    }
}

/// Whether a text starts with `0x` or `0X`.
pub open spec fn has_hex_prefix(text: Seq<char>) -> bool {
    text.len() >= 2 && text[0] == '0' && (text[1] == 'x' || text[1] == 'X')
}

/// The number that a text stands for as a window handle: the digits behind
/// `0x` or `0X` read in base 16, or else the whole text read in base 10.
pub open spec fn handle_value(text: Seq<char>) -> Option<u64> {
    if has_hex_prefix(text) {
        hex_u64(text.subrange(2, text.len() as int))
    } else {
        decimal_u64(text)
    }
}

/// The error for a text that is no window handle.
pub open spec fn invalid_hwnd() -> PdbErrorView {
    PdbErrorView::HandleError("Invalid HWND"@)
}

/// The window handle for a number that was read, if one was read and it is
/// one that a handle can hold.
pub open spec fn hwnd_of(value: Option<u64>) -> Result<usize, PdbErrorView> {
    match value {
        Some(v) if v <= usize::MAX => Ok(v as usize),
        _ => Err(invalid_hwnd()),
    }
}

/// Makes a window handle of a number that was read from the command line.
pub fn hwnd_from(value: Option<u64>) -> (r: Result<usize, PdbError>)
    ensures
        r is Ok <==> hwnd_of(value) is Ok,
        r matches Ok(hwnd) ==> hwnd_of(value) == Ok::<usize, PdbErrorView>(hwnd),
        r matches Err(e) ==> e@ == invalid_hwnd(),
{
    match value {
        Some(v) => {
            if v <= usize::MAX as u64 {
                Ok(v as usize)
            } else {
                Err(PdbError::HandleError(String::from_str("Invalid HWND")))
            }
        },
        None => Err(PdbError::HandleError(String::from_str("Invalid HWND"))),
    }
}

/// Reads a window handle, written in base 10 or, behind `0x` or `0X`, in base 16.
pub fn parse_hwnd(s: &str) -> (r: Result<usize, PdbError>)
    ensures
        r is Ok <==> hwnd_of(handle_value(s@)) is Ok,
        r matches Ok(hwnd) ==> hwnd_of(handle_value(s@)) == Ok::<usize, PdbErrorView>(hwnd),
        r matches Err(e) ==> e@ == invalid_hwnd(),
{
    let len = s.unicode_len();
    let hex = len >= 2 && s.get_char(0) == '0' && (s.get_char(1) == 'x' || s.get_char(1) == 'X');
    if hex {
        hwnd_from(parse_hex_u64(s.substring_char(2, len)))
    } else {
        hwnd_from(parse_u64(s))
    }
}

/// The bound on payloads that a setting asks for: the number that the
/// setting reads as in base 10, or the bound to fall back on where it reads
/// as none or as more than a header can announce.
pub open spec fn bound_of(value: Option<u64>, fallback: u32) -> u32 {
    match value {
        Some(v) if v <= u32::MAX => v as u32,
        _ => fallback,
    }
}

/// Makes the bound on payloads of a number that was read from a setting.
pub fn bound_from(value: Option<u64>, fallback: u32) -> (bound: u32)
    ensures
        bound == bound_of(value, fallback),
{
    match value {
        Some(v) => {
            if v <= 4294967295 {
                v as u32
            } else {
                fallback
            }
        },
        None => fallback,
    }
}

/// Reads the bound on payloads out of a setting, if there is one.
pub fn payload_bound(setting: Option<&str>, fallback: u32) -> (bound: u32)
    ensures
        bound == match setting {
            Some(text) => bound_of(decimal_u64(text@), fallback),
            None => fallback,
        },
{
    match setting {
        Some(text) => bound_from(parse_u64(text), fallback),
        None => fallback,
    }
}

/// The first `max_chars` characters of a text whose end is cut off: all but
/// the last three of them, and three dots in their place.
pub open spec fn truncated(text: Seq<char>, max_chars: int) -> Seq<char> {
    if text.len() > max_chars {
        text.subrange(0, max_chars - 3) + "..."@
    } else {
        text
    }
}

/// Shortens a text to at most `max_chars` characters, counting characters and
/// not bytes. A text that is longer ends in three dots, so there has to be
/// room for them where the text is cut.
pub fn truncate_unicode(s: &str, max_chars: usize) -> (short: String)
    requires
        s@.len() > max_chars ==> max_chars >= 3,
    ensures
        short@ == truncated(s@, max_chars as int),
{
    let char_count = s.unicode_len();
    if char_count > max_chars {
        String::from_str(s.substring_char(0, max_chars - 3)).concat("...")
    } else {
        String::from_str(s)
    }
}

/// The key that a name stands for. Names are in lower case: the words for
/// the editing and navigation keys, `f1` to `f12`, the letters and the digits.
pub open spec fn key_named(name: Seq<char>) -> Option<KeyCode> {
    if name == "enter"@ {
        Some(KeyCode::Enter)
    } else     if name == "return"@ {
        Some(KeyCode::Enter)
    } else     if name == "backspace"@ {
        Some(KeyCode::Backspace)
    } else     if name == "back"@ {
        Some(KeyCode::Backspace)
    } else     if name == "escape"@ {
        Some(KeyCode::Escape)
    } else     if name == "esc"@ {
        Some(KeyCode::Escape)
    } else     if name == "tab"@ {
        Some(KeyCode::Tab)
    } else     if name == "space"@ {
        Some(KeyCode::Space)
    } else     if name == "up"@ {
        Some(KeyCode::Up)
    } else     if name == "down"@ {
        Some(KeyCode::Down)
    } else     if name == "left"@ {
        Some(KeyCode::Left)
    } else     if name == "right"@ {
        Some(KeyCode::Right)
    } else     if name == "home"@ {
        Some(KeyCode::Home)
    } else     if name == "end"@ {
        Some(KeyCode::End)
    } else     if name == "pageup"@ {
        Some(KeyCode::PageUp)
    } else     if name == "pagedown"@ {
        Some(KeyCode::PageDown)
    } else     if name == "insert"@ {
        Some(KeyCode::Insert)
    } else     if name == "delete"@ {
        Some(KeyCode::Delete)
    } else     if name == "f1"@ {
        Some(KeyCode::F1)
    } else     if name == "f2"@ {
        Some(KeyCode::F2)
    } else     if name == "f3"@ {
        Some(KeyCode::F3)
    } else     if name == "f4"@ {
        Some(KeyCode::F4)
    } else     if name == "f5"@ {
        Some(KeyCode::F5)
    } else     if name == "f6"@ {
        Some(KeyCode::F6)
    } else     if name == "f7"@ {
        Some(KeyCode::F7)
    } else     if name == "f8"@ {
        Some(KeyCode::F8)
    } else     if name == "f9"@ {
        Some(KeyCode::F9)
    } else     if name == "f10"@ {
        Some(KeyCode::F10)
    } else     if name == "f11"@ {
        Some(KeyCode::F11)
    } else     if name == "f12"@ {
        Some(KeyCode::F12)
    } else     if name == "a"@ {
        Some(KeyCode::A)
    } else     if name == "b"@ {
        Some(KeyCode::B)
    } else     if name == "c"@ {
        Some(KeyCode::C)
    } else     if name == "d"@ {
        Some(KeyCode::D)
    } else     if name == "e"@ {
        Some(KeyCode::E)
    } else     if name == "f"@ {
        Some(KeyCode::F)
    } else     if name == "g"@ {
        Some(KeyCode::G)
    } else     if name == "h"@ {
        Some(KeyCode::H)
    } else     if name == "i"@ {
        Some(KeyCode::I)
    } else     if name == "j"@ {
        Some(KeyCode::J)
    } else     if name == "k"@ {
        Some(KeyCode::K)
    } else     if name == "l"@ {
        Some(KeyCode::L)
    } else     if name == "m"@ {
        Some(KeyCode::M)
    } else     if name == "n"@ {
        Some(KeyCode::N)
    } else     if name == "o"@ {
        Some(KeyCode::O)
    } else     if name == "p"@ {
        Some(KeyCode::P)
    } else     if name == "q"@ {
        Some(KeyCode::Q)
    } else     if name == "r"@ {
        Some(KeyCode::R)
    } else     if name == "s"@ {
        Some(KeyCode::S)
    } else     if name == "t"@ {
        Some(KeyCode::T)
    } else     if name == "u"@ {
        Some(KeyCode::U)
    } else     if name == "v"@ {
        Some(KeyCode::V)
    } else     if name == "w"@ {
        Some(KeyCode::W)
    } else     if name == "x"@ {
        Some(KeyCode::X)
    } else     if name == "y"@ {
        Some(KeyCode::Y)
    } else     if name == "z"@ {
        Some(KeyCode::Z)
    } else     if name == "0"@ {
        Some(KeyCode::Num0)
    } else     if name == "1"@ {
        Some(KeyCode::Num1)
    } else     if name == "2"@ {
        Some(KeyCode::Num2)
    } else     if name == "3"@ {
        Some(KeyCode::Num3)
    } else     if name == "4"@ {
        Some(KeyCode::Num4)
    } else     if name == "5"@ {
        Some(KeyCode::Num5)
    } else     if name == "6"@ {
        Some(KeyCode::Num6)
    } else     if name == "7"@ {
        Some(KeyCode::Num7)
    } else     if name == "8"@ {
        Some(KeyCode::Num8)
    } else     if name == "9"@ {
        Some(KeyCode::Num9)
    } else {
        None
    }
}

/// The key that a name in lower case stands for, if it stands for one.
pub fn key_by_name(name: &str) -> (key: Option<KeyCode>)
    ensures
        key == key_named(name@),
{
    if str_eq(name, "enter") {
        Some(KeyCode::Enter)
    } else     if str_eq(name, "return") {
        Some(KeyCode::Enter)
    } else     if str_eq(name, "backspace") {
        Some(KeyCode::Backspace)
    } else     if str_eq(name, "back") {
        Some(KeyCode::Backspace)
    } else     if str_eq(name, "escape") {
        Some(KeyCode::Escape)
    } else     if str_eq(name, "esc") {
        Some(KeyCode::Escape)
    } else     if str_eq(name, "tab") {
        Some(KeyCode::Tab)
    } else     if str_eq(name, "space") {
        Some(KeyCode::Space)
    } else     if str_eq(name, "up") {
        Some(KeyCode::Up)
    } else     if str_eq(name, "down") {
        Some(KeyCode::Down)
    } else     if str_eq(name, "left") {
        Some(KeyCode::Left)
    } else     if str_eq(name, "right") {
        Some(KeyCode::Right)
    } else     if str_eq(name, "home") {
        Some(KeyCode::Home)
    } else     if str_eq(name, "end") {
        Some(KeyCode::End)
    } else     if str_eq(name, "pageup") {
        Some(KeyCode::PageUp)
    } else     if str_eq(name, "pagedown") {
        Some(KeyCode::PageDown)
    } else     if str_eq(name, "insert") {
        Some(KeyCode::Insert)
    } else     if str_eq(name, "delete") {
        Some(KeyCode::Delete)
    } else     if str_eq(name, "f1") {
        Some(KeyCode::F1)
    } else     if str_eq(name, "f2") {
        Some(KeyCode::F2)
    } else     if str_eq(name, "f3") {
        Some(KeyCode::F3)
    } else     if str_eq(name, "f4") {
        Some(KeyCode::F4)
    } else     if str_eq(name, "f5") {
        Some(KeyCode::F5)
    } else     if str_eq(name, "f6") {
        Some(KeyCode::F6)
    } else     if str_eq(name, "f7") {
        Some(KeyCode::F7)
    } else     if str_eq(name, "f8") {
        Some(KeyCode::F8)
    } else     if str_eq(name, "f9") {
        Some(KeyCode::F9)
    } else     if str_eq(name, "f10") {
        Some(KeyCode::F10)
    } else     if str_eq(name, "f11") {
        Some(KeyCode::F11)
    } else     if str_eq(name, "f12") {
        Some(KeyCode::F12)
    } else     if str_eq(name, "a") {
        Some(KeyCode::A)
    } else     if str_eq(name, "b") {
        Some(KeyCode::B)
    } else     if str_eq(name, "c") {
        Some(KeyCode::C)
    } else     if str_eq(name, "d") {
        Some(KeyCode::D)
    } else     if str_eq(name, "e") {
        Some(KeyCode::E)
    } else     if str_eq(name, "f") {
        Some(KeyCode::F)
    } else     if str_eq(name, "g") {
        Some(KeyCode::G)
    } else     if str_eq(name, "h") {
        Some(KeyCode::H)
    } else     if str_eq(name, "i") {
        Some(KeyCode::I)
    } else     if str_eq(name, "j") {
        Some(KeyCode::J)
    } else     if str_eq(name, "k") {
        Some(KeyCode::K)
    } else     if str_eq(name, "l") {
        Some(KeyCode::L)
    } else     if str_eq(name, "m") {
        Some(KeyCode::M)
    } else     if str_eq(name, "n") {
        Some(KeyCode::N)
    } else     if str_eq(name, "o") {
        Some(KeyCode::O)
    } else     if str_eq(name, "p") {
        Some(KeyCode::P)
    } else     if str_eq(name, "q") {
        Some(KeyCode::Q)
    } else     if str_eq(name, "r") {
        Some(KeyCode::R)
    } else     if str_eq(name, "s") {
        Some(KeyCode::S)
    } else     if str_eq(name, "t") {
        Some(KeyCode::T)
    } else     if str_eq(name, "u") {
        Some(KeyCode::U)
    } else     if str_eq(name, "v") {
        Some(KeyCode::V)
    } else     if str_eq(name, "w") {
        Some(KeyCode::W)
    } else     if str_eq(name, "x") {
        Some(KeyCode::X)
    } else     if str_eq(name, "y") {
        Some(KeyCode::Y)
    } else     if str_eq(name, "z") {
        Some(KeyCode::Z)
    } else     if str_eq(name, "0") {
        Some(KeyCode::Num0)
    } else     if str_eq(name, "1") {
        Some(KeyCode::Num1)
    } else     if str_eq(name, "2") {
        Some(KeyCode::Num2)
    } else     if str_eq(name, "3") {
        Some(KeyCode::Num3)
    } else     if str_eq(name, "4") {
        Some(KeyCode::Num4)
    } else     if str_eq(name, "5") {
        Some(KeyCode::Num5)
    } else     if str_eq(name, "6") {
        Some(KeyCode::Num6)
    } else     if str_eq(name, "7") {
        Some(KeyCode::Num7)
    } else     if str_eq(name, "8") {
        Some(KeyCode::Num8)
    } else     if str_eq(name, "9") {
        Some(KeyCode::Num9)
    } else {
        None
    }
}

/// The error for a text that names no key.
pub open spec fn unknown_keycode(given: Seq<char>) -> PdbErrorView {
    PdbErrorView::InputError("Unknown keycode: "@ + given)
}

/// The key for a name as it was given and as it reads in lower case: the key
/// that the lower-case name stands for, or the error that quotes the name as
/// it was given.
pub open spec fn keycode_of(lower: Seq<char>, given: Seq<char>) -> Result<KeyCode, PdbErrorView> {
    match key_named(lower) {
        Some(key) => Ok(key),
        None => Err(unknown_keycode(given)),
    }
}

/// Looks a key up by its name in lower case; `given` is the name as the user
/// wrote it.
pub fn keycode_from(lower: &str, given: &str) -> (r: Result<KeyCode, PdbError>)
    ensures
        match r {
            Ok(key) => keycode_of(lower@, given@) == Ok::<KeyCode, PdbErrorView>(key),
            Err(e) => keycode_of(lower@, given@) == Err::<KeyCode, PdbErrorView>(e@),
        },
{
    match key_by_name(lower) {
        Some(key) => Ok(key),
        None => Err(PdbError::InputError(String::from_str("Unknown keycode: ").concat(given))),
    }
}

/// Reads the name of a key, in upper or lower case.
pub fn parse_keycode(s: &str) -> (r: Result<KeyCode, PdbError>)
    ensures
        match r {
            Ok(key) => keycode_of(lowercase(s@), s@) == Ok::<KeyCode, PdbErrorView>(key),
            Err(e) => keycode_of(lowercase(s@), s@) == Err::<KeyCode, PdbErrorView>(e@),
        },
{
    let lower = to_lowercase(s);
    keycode_from(lower.as_str(), s)
}

} // verus!
