use pdb::cli::{
    bound_from, filter_args, get_addr, hwnd_from, is_local_mode, key_by_name, keycode_from,
    parse_hwnd, parse_keycode, payload_bound, truncate_unicode,
};
use pdb::{KeyCode, PdbError};

fn args(words: &[&str]) -> Vec<String> {
    words.iter().map(|w| w.to_string()).collect()
}

fn invalid_hwnd() -> PdbError {
    PdbError::HandleError("Invalid HWND".to_string())
}

#[test]
fn local_mode_is_asked_for_by_either_flag_anywhere() {
    assert!(is_local_mode(&args(&["pdb-client", "--local", "devices"])));
    assert!(is_local_mode(&args(&["pdb-client", "devices", "-l"])));
    assert!(is_local_mode(&args(&["-l"])));
    assert!(!is_local_mode(&args(&["pdb-client", "devices"])));
    assert!(!is_local_mode(&args(&["pdb-client", "--LOCAL", "-L", "local", "--local=1"])));
    assert!(!is_local_mode(&[]));
}

#[test]
fn filter_args_drops_the_flags_and_keeps_the_order() {
    assert_eq!(
        filter_args(&args(&["pdb-client", "--local", "click", "-l", "0x10", "1", "2", "--local"])),
        args(&["pdb-client", "click", "0x10", "1", "2"])
    );
    assert_eq!(filter_args(&args(&["a", "b"])), args(&["a", "b"]));
    assert_eq!(filter_args(&args(&["-l", "--local"])), Vec::<String>::new());
    assert_eq!(filter_args(&[]), Vec::<String>::new());
}

#[test]
fn get_addr_takes_the_argument_or_the_default() {
    let given = args(&["pdb-client", "devices", "192.168.1.100:5037"]);
    assert_eq!(get_addr(&given, 2), "192.168.1.100:5037");
    assert_eq!(get_addr(&given, 1), "devices");
    assert_eq!(get_addr(&given, 3), format!("127.0.0.1:{}", pdb::DEFAULT_PORT));
    assert_eq!(get_addr(&[], 0), "127.0.0.1:5037");
}

#[test]
fn parse_hwnd_reads_decimal_and_hexadecimal() {
    assert_eq!(parse_hwnd("1234"), Ok(1234));
    assert_eq!(parse_hwnd("0"), Ok(0));
    assert_eq!(parse_hwnd("0xDEAD"), Ok(0xDEAD));
    assert_eq!(parse_hwnd("0Xdead"), Ok(0xDEAD));
    assert_eq!(parse_hwnd("0x12345"), Ok(0x12345));
    assert_eq!(parse_hwnd("0x0"), Ok(0));
    assert_eq!(parse_hwnd("10"), Ok(10));
    assert_eq!(parse_hwnd("0x10"), Ok(16));
}

#[test]
fn parse_hwnd_refuses_what_is_no_handle() {
    for text in ["", "0x", "0X", "window", "12a", "0xG1", "-1", " 12", "1.5", "x10", "0x-1"] {
        assert_eq!(parse_hwnd(text), Err(invalid_hwnd()), "{:?}", text);
    }
    assert_eq!(parse_hwnd("340282366920938463463374607431768211456"), Err(invalid_hwnd()));
    assert_eq!(parse_hwnd("0x10000000000000000"), Err(invalid_hwnd()));
}

#[test]
fn parse_hwnd_reads_the_largest_handle() {
    assert_eq!(parse_hwnd(&usize::MAX.to_string()), Ok(usize::MAX));
    assert_eq!(parse_hwnd(&format!("0x{:X}", usize::MAX)), Ok(usize::MAX));
}

#[test]
fn hwnd_from_takes_what_fits_a_handle() {
    assert_eq!(hwnd_from(Some(0)), Ok(0));
    assert_eq!(hwnd_from(Some(57005)), Ok(57005));
    assert_eq!(hwnd_from(None), Err(invalid_hwnd()));
    assert_eq!(hwnd_from(Some(usize::MAX as u64)), Ok(usize::MAX));
}

#[test]
fn parse_keycode_knows_the_named_keys() {
    assert_eq!(parse_keycode("enter"), Ok(KeyCode::Enter));
    assert_eq!(parse_keycode("return"), Ok(KeyCode::Enter));
    assert_eq!(parse_keycode("backspace"), Ok(KeyCode::Backspace));
    assert_eq!(parse_keycode("back"), Ok(KeyCode::Backspace));
    assert_eq!(parse_keycode("escape"), Ok(KeyCode::Escape));
    assert_eq!(parse_keycode("esc"), Ok(KeyCode::Escape));
    assert_eq!(parse_keycode("tab"), Ok(KeyCode::Tab));
    assert_eq!(parse_keycode("space"), Ok(KeyCode::Space));
    assert_eq!(parse_keycode("up"), Ok(KeyCode::Up));
    assert_eq!(parse_keycode("down"), Ok(KeyCode::Down));
    assert_eq!(parse_keycode("left"), Ok(KeyCode::Left));
    assert_eq!(parse_keycode("right"), Ok(KeyCode::Right));
    assert_eq!(parse_keycode("home"), Ok(KeyCode::Home));
    assert_eq!(parse_keycode("end"), Ok(KeyCode::End));
    assert_eq!(parse_keycode("pageup"), Ok(KeyCode::PageUp));
    assert_eq!(parse_keycode("pagedown"), Ok(KeyCode::PageDown));
    assert_eq!(parse_keycode("insert"), Ok(KeyCode::Insert));
    assert_eq!(parse_keycode("delete"), Ok(KeyCode::Delete));
}

#[test]
fn parse_keycode_knows_letters_digits_and_function_keys() {
    assert_eq!(parse_keycode("a"), Ok(KeyCode::A));
    assert_eq!(parse_keycode("f"), Ok(KeyCode::F));
    assert_eq!(parse_keycode("z"), Ok(KeyCode::Z));
    assert_eq!(parse_keycode("0"), Ok(KeyCode::Num0));
    assert_eq!(parse_keycode("9"), Ok(KeyCode::Num9));
    assert_eq!(parse_keycode("f1"), Ok(KeyCode::F1));
    assert_eq!(parse_keycode("f10"), Ok(KeyCode::F10));
    assert_eq!(parse_keycode("f12"), Ok(KeyCode::F12));
    for (i, c) in ('a'..='z').enumerate() {
        let key = parse_keycode(&c.to_string()).unwrap();
        assert_eq!(key.vk_code(), 0x41 + i as u16);
    }
    for d in 0..10u16 {
        assert_eq!(parse_keycode(&d.to_string()).unwrap().vk_code(), 0x30 + d);
    }
    for n in 1..=12u16 {
        assert_eq!(parse_keycode(&format!("f{}", n)).unwrap().vk_code(), 0x70 + n - 1);
    }
}

#[test]
fn parse_keycode_ignores_case() {
    assert_eq!(parse_keycode("ENTER"), Ok(KeyCode::Enter));
    assert_eq!(parse_keycode("Esc"), Ok(KeyCode::Escape));
    assert_eq!(parse_keycode("PageUp"), Ok(KeyCode::PageUp));
    assert_eq!(parse_keycode("F5"), Ok(KeyCode::F5));
    assert_eq!(parse_keycode("Q"), Ok(KeyCode::Q));
}

#[test]
fn parse_keycode_quotes_an_unknown_name_as_it_was_given() {
    assert_eq!(parse_keycode("Hyper"), Err(PdbError::InputError("Unknown keycode: Hyper".to_string())));
    assert_eq!(parse_keycode(""), Err(PdbError::InputError("Unknown keycode: ".to_string())));
    assert_eq!(parse_keycode("f13"), Err(PdbError::InputError("Unknown keycode: f13".to_string())));
    assert_eq!(parse_keycode("shift"), Err(PdbError::InputError("Unknown keycode: shift".to_string())));
    assert_eq!(parse_keycode(" a"), Err(PdbError::InputError("Unknown keycode:  a".to_string())));
}

#[test]
fn key_names_are_looked_up_in_lower_case_only() {
    assert_eq!(key_by_name("enter"), Some(KeyCode::Enter));
    assert_eq!(key_by_name("ENTER"), None);
    assert_eq!(keycode_from("esc", "ESC"), Ok(KeyCode::Escape));
    assert_eq!(
        keycode_from("hyper", "HYPER"),
        Err(PdbError::InputError("Unknown keycode: HYPER".to_string()))
    );
}

#[test]
fn truncate_unicode_leaves_short_texts_alone() {
    assert_eq!(truncate_unicode("Notepad", 58), "Notepad");
    assert_eq!(truncate_unicode("ab", 2), "ab");
    assert_eq!(truncate_unicode("", 0), "");
    assert_eq!(truncate_unicode("", 3), "");
    assert_eq!(truncate_unicode("abc", 3), "abc");
    assert_eq!(truncate_unicode("exactly ten", 11), "exactly ten");
}

#[test]
fn truncate_unicode_cuts_long_texts_and_adds_dots() {
    assert_eq!(truncate_unicode("abcdefghij", 8), "abcde...");
    assert_eq!(truncate_unicode("abcd", 3), "...");
    assert_eq!(truncate_unicode("abcdefghij", 9), "abcdef...");
    let long = "x".repeat(100);
    assert_eq!(truncate_unicode(&long, 58), format!("{}...", "x".repeat(55)));
    assert_eq!(truncate_unicode(&long, 58).chars().count(), 58);
}

#[test]
fn truncate_unicode_counts_characters_not_bytes() {
    assert_eq!(truncate_unicode("äöüäöüäöü", 9), "äöüäöüäöü");
    assert_eq!(truncate_unicode("äöüäöüäöü", 8), "äöüäö...");
    assert_eq!(truncate_unicode("日本語のウィンドウタイトル", 6), "日本語...");
}

#[test]
fn payload_bound_reads_a_setting_or_falls_back() {
    assert_eq!(payload_bound(None, 64), 64);
    assert_eq!(payload_bound(Some("1024"), 64), 1024);
    assert_eq!(payload_bound(Some("+1024"), 64), 1024);
    assert_eq!(payload_bound(Some("0"), 64), 0);
    assert_eq!(payload_bound(Some("4294967295"), 64), u32::MAX);
    assert_eq!(payload_bound(Some("4294967296"), 64), 64);
    assert_eq!(payload_bound(Some("18446744073709551616"), 64), 64);
    for text in ["", "+", "-1", "1k", " 1", "1 ", "1_000", "0x10", "١٢"] {
        assert_eq!(payload_bound(Some(text), 64), 64, "{:?}", text);
    }
    assert_eq!(bound_from(Some(7), 64), 7);
    assert_eq!(bound_from(Some(u32::MAX as u64 + 1), 64), 64);
    assert_eq!(bound_from(None, 64), 64);
}

#[test]
fn parse_hwnd_reads_signs_and_zeros_as_the_standard_library_does() {
    assert_eq!(parse_hwnd("+12"), Ok(12));
    assert_eq!(parse_hwnd("0012"), Ok(12));
    assert_eq!(parse_hwnd("0x+1F"), Ok(31));
    assert_eq!(parse_hwnd("0x00ff"), Ok(255));
    assert_eq!(parse_hwnd("0xaBcDeF"), Ok(0xABCDEF));
    assert_eq!(parse_hwnd("00000000000000000000000000000000000000001"), Ok(1));
    for text in ["+", "++1", "-0", "0x+", "0x-1", "0xg", "1_0", "１２"] {
        assert_eq!(parse_hwnd(text), Err(invalid_hwnd()), "{:?}", text);
    }
}
