use pdb::types::clone_windows;
use pdb::{KeyCode, PdbError, Point, Rect, Screenshot, WindowInfo};

#[test]
fn point_keeps_its_coordinates() {
    let p = Point::new(-3, 9);
    assert_eq!((p.x, p.y), (-3, 9));
}

#[test]
fn rect_measures_its_sides() {
    let r = Rect::new(10, 20, 110, 220);
    assert_eq!((r.left, r.top, r.right, r.bottom), (10, 20, 110, 220));
    assert_eq!(r.width(), 100);
    assert_eq!(r.height(), 200);
}

#[test]
fn rect_sides_may_be_negative_or_empty() {
    assert_eq!(Rect::new(5, 5, 5, 5).width(), 0);
    assert_eq!(Rect::new(5, 5, 5, 5).height(), 0);
    assert_eq!(Rect::new(100, 50, -20, -30).width(), -120);
    assert_eq!(Rect::new(100, 50, -20, -30).height(), -80);
    assert_eq!(Rect::new(i32::MIN, 0, -1, i32::MAX).width(), i32::MAX);
    assert_eq!(Rect::new(i32::MIN, 0, -1, i32::MAX).height(), i32::MAX);
}

#[test]
fn virtual_key_codes_follow_the_keyboard_table() {
    assert_eq!(KeyCode::Num0.vk_code(), 0x30);
    assert_eq!(KeyCode::Num9.vk_code(), 0x39);
    assert_eq!(KeyCode::A.vk_code(), 0x41);
    assert_eq!(KeyCode::Z.vk_code(), 0x5A);
    assert_eq!(KeyCode::F1.vk_code(), 0x70);
    assert_eq!(KeyCode::F12.vk_code(), 0x7B);
    assert_eq!(KeyCode::Backspace.vk_code(), 0x08);
    assert_eq!(KeyCode::Tab.vk_code(), 0x09);
    assert_eq!(KeyCode::Enter.vk_code(), 0x0D);
    assert_eq!(KeyCode::Shift.vk_code(), 0x10);
    assert_eq!(KeyCode::Ctrl.vk_code(), 0x11);
    assert_eq!(KeyCode::Alt.vk_code(), 0x12);
    assert_eq!(KeyCode::Pause.vk_code(), 0x13);
    assert_eq!(KeyCode::CapsLock.vk_code(), 0x14);
    assert_eq!(KeyCode::Escape.vk_code(), 0x1B);
    assert_eq!(KeyCode::Space.vk_code(), 0x20);
    assert_eq!(KeyCode::PageUp.vk_code(), 0x21);
    assert_eq!(KeyCode::PageDown.vk_code(), 0x22);
    assert_eq!(KeyCode::End.vk_code(), 0x23);
    assert_eq!(KeyCode::Home.vk_code(), 0x24);
    assert_eq!(KeyCode::Left.vk_code(), 0x25);
    assert_eq!(KeyCode::Up.vk_code(), 0x26);
    assert_eq!(KeyCode::Right.vk_code(), 0x27);
    assert_eq!(KeyCode::Down.vk_code(), 0x28);
    assert_eq!(KeyCode::Insert.vk_code(), 0x2D);
    assert_eq!(KeyCode::Delete.vk_code(), 0x2E);
    assert_eq!(KeyCode::LWin.vk_code(), 0x5B);
    assert_eq!(KeyCode::RWin.vk_code(), 0x5C);
}

#[test]
fn letters_and_digits_have_their_character_codes() {
    let letters = [
        KeyCode::A, KeyCode::B, KeyCode::C, KeyCode::D, KeyCode::E, KeyCode::F, KeyCode::G,
        KeyCode::H, KeyCode::I, KeyCode::J, KeyCode::K, KeyCode::L, KeyCode::M, KeyCode::N,
        KeyCode::O, KeyCode::P, KeyCode::Q, KeyCode::R, KeyCode::S, KeyCode::T, KeyCode::U,
        KeyCode::V, KeyCode::W, KeyCode::X, KeyCode::Y, KeyCode::Z,
    ];
    for (i, key) in letters.iter().enumerate() {
        assert_eq!(key.vk_code(), b'A' as u16 + i as u16);
    }
    let digits = [
        KeyCode::Num0, KeyCode::Num1, KeyCode::Num2, KeyCode::Num3, KeyCode::Num4, KeyCode::Num5,
        KeyCode::Num6, KeyCode::Num7, KeyCode::Num8, KeyCode::Num9,
    ];
    for (i, key) in digits.iter().enumerate() {
        assert_eq!(key.vk_code(), b'0' as u16 + i as u16);
    }
    let function_keys = [
        KeyCode::F1, KeyCode::F2, KeyCode::F3, KeyCode::F4, KeyCode::F5, KeyCode::F6, KeyCode::F7,
        KeyCode::F8, KeyCode::F9, KeyCode::F10, KeyCode::F11, KeyCode::F12,
    ];
    for (i, key) in function_keys.iter().enumerate() {
        assert_eq!(key.vk_code(), 0x70 + i as u16);
    }
}

#[test]
fn screenshot_hands_out_its_pixels() {
    let shot = Screenshot { width: 1, height: 2, data: vec![1, 2, 3, 4, 5, 6, 7, 8] };
    assert_eq!(shot.raw_data(), &[1, 2, 3, 4, 5, 6, 7, 8]);
    assert_eq!(shot.rgba_data(), &[1, 2, 3, 4, 5, 6, 7, 8]);
    assert_eq!(shot.clone(), shot);
}

#[test]
fn screenshot_is_complete_when_the_buffer_holds_every_pixel() {
    let failed = Err(PdbError::CaptureError("Failed to create image".to_string()));
    assert_eq!(Screenshot { width: 2, height: 2, data: vec![0; 16] }.check_complete(), Ok(()));
    assert_eq!(Screenshot { width: 2, height: 2, data: vec![0; 20] }.check_complete(), Ok(()));
    assert_eq!(Screenshot { width: 2, height: 2, data: vec![0; 15] }.check_complete(), failed);
    assert_eq!(Screenshot { width: 0, height: 7, data: vec![] }.check_complete(), Ok(()));
    assert_eq!(Screenshot { width: 1, height: 1, data: vec![] }.check_complete(), failed);
    assert_eq!(
        Screenshot { width: u32::MAX, height: u32::MAX, data: vec![0; 64] }.check_complete(),
        failed
    );
}

#[test]
fn windows_are_copied_field_by_field() {
    let windows = vec![
        WindowInfo {
            hwnd: 1,
            title: "one".to_string(),
            class_name: "A".to_string(),
            rect: Rect::new(0, 0, 1, 1),
            visible: true,
        },
        WindowInfo {
            hwnd: 2,
            title: "zwei äöü".to_string(),
            class_name: "B".to_string(),
            rect: Rect::new(-5, -5, 5, 5),
            visible: false,
        },
    ];
    assert_eq!(clone_windows(&windows), windows);
    assert_eq!(clone_windows(&Vec::new()), Vec::<WindowInfo>::new());
    assert_eq!(windows[1].clone(), windows[1]);
}

#[test]
fn errors_read_as_prefix_and_detail() {
    let d = || "x".to_string();
    assert_eq!(PdbError::WindowNotFound(d()).to_string(), "Window not found: x");
    assert_eq!(PdbError::HandleError(d()).to_string(), "Failed to get window handle: x");
    assert_eq!(PdbError::InputError(d()).to_string(), "Input simulation failed: x");
    assert_eq!(PdbError::CaptureError(d()).to_string(), "Screenshot capture failed: x");
    assert_eq!(PdbError::WindowsError(d()).to_string(), "Windows API error: x");
    assert_eq!(PdbError::IoError(d()).to_string(), "IO error: x");
    assert_eq!(PdbError::ConnectionError(d()).to_string(), "Connection error: x");
    assert_eq!(PdbError::ProtocolError(d()).to_string(), "Protocol error: x");
    assert_eq!(PdbError::SerializationError(d()).to_string(), "Serialization error: x");
    assert_eq!(PdbError::ImageError(d()).to_string(), "Image error: x");
}

#[test]
fn errors_hand_out_prefix_and_detail() {
    let e = PdbError::CaptureError("BitBlt failed".to_string());
    assert_eq!(e.prefix(), "Screenshot capture failed: ");
    assert_eq!(e.detail(), "BitBlt failed");
    assert_eq!(e.clone(), e);
    assert_eq!(PdbError::IoError(String::new()).to_string(), "IO error: ");
}

#[test]
fn screenshot_whose_row_cannot_be_counted_is_not_complete() {
    let failed = Err(PdbError::CaptureError("Failed to create image".to_string()));
    let wide = Screenshot { width: 1_073_741_824, height: 0, data: vec![] };
    let countable = 4u64 * 1_073_741_824 <= usize::MAX as u64;
    assert_eq!(wide.check_complete(), if countable { Ok(()) } else { failed });
    let tall = Screenshot { width: 0, height: u32::MAX, data: vec![] };
    assert_eq!(tall.check_complete(), Ok(()));
}
