use pdb::{PdbError, Rect, WindowController, WindowInfo};

fn window(hwnd: usize, title: &str, class_name: &str) -> WindowInfo {
    WindowInfo {
        hwnd,
        title: title.to_string(),
        class_name: class_name.to_string(),
        rect: Rect::new(0, 0, 640, 480),
        visible: true,
    }
}

fn desktop() -> Vec<WindowInfo> {
    vec![
        window(1, "Calculator", "ApplicationFrameWindow"),
        window(2, "Untitled - Notepad", "Notepad"),
        window(3, "Notepad", "Notepad"),
        window(4, "Paint", "MSPaintApp"),
    ]
}

fn not_found(what: &str) -> PdbError {
    PdbError::WindowNotFound(what.to_string())
}

#[test]
fn find_window_takes_the_first_title_that_contains_the_words() {
    let controller = WindowController::new();
    assert_eq!(controller.find_window(&desktop(), "Notepad"), Ok(desktop()[1].clone()));
    assert_eq!(controller.find_window(&desktop(), "Paint"), Ok(desktop()[3].clone()));
    assert_eq!(controller.find_window(&desktop(), "alc"), Ok(desktop()[0].clone()));
    assert_eq!(controller.find_window(&desktop(), ""), Ok(desktop()[0].clone()));
}

#[test]
fn find_window_is_case_sensitive_and_reports_what_it_looked_for() {
    let controller = WindowController::new();
    assert_eq!(controller.find_window(&desktop(), "notepad"), Err(not_found("notepad")));
    assert_eq!(controller.find_window(&desktop(), "Word"), Err(not_found("Word")));
    assert_eq!(controller.find_window(&[], "Paint"), Err(not_found("Paint")));
}

#[test]
fn find_window_exact_wants_the_whole_title() {
    let controller = WindowController::default();
    assert_eq!(controller.find_window_exact(&desktop(), "Notepad"), Ok(desktop()[2].clone()));
    assert_eq!(controller.find_window_exact(&desktop(), "Untitled"), Err(not_found("Untitled")));
    assert_eq!(controller.find_window_exact(&desktop(), ""), Err(not_found("")));
}

#[test]
fn find_window_by_class_looks_at_the_class_name() {
    let controller = WindowController::new();
    assert_eq!(controller.find_window_by_class(&desktop(), "Notepad"), Ok(desktop()[1].clone()));
    assert_eq!(controller.find_window_by_class(&desktop(), "Paint"), Ok(desktop()[3].clone()));
    assert_eq!(controller.find_window_by_class(&desktop(), "Calculator"), Err(not_found("Calculator")));
}

#[test]
fn patterns_are_matched_by_characters() {
    let controller = WindowController::new();
    let windows = vec![window(9, "Übersicht – Größe", "Fenster")];
    assert_eq!(controller.find_window(&windows, "Größe"), Ok(windows[0].clone()));
    assert_eq!(controller.find_window(&windows, "– G"), Ok(windows[0].clone()));
    assert_eq!(controller.find_window(&windows, "Grosse"), Err(not_found("Grosse")));
}

#[test]
fn windows_are_listed_when_visible_and_titled() {
    let controller = WindowController::new();
    assert!(controller.lists(&window(1, "Paint", "MSPaintApp")));
    assert!(!controller.lists(&window(1, "", "MSPaintApp")));
    let mut hidden = window(1, "Paint", "MSPaintApp");
    hidden.visible = false;
    assert!(!controller.lists(&hidden));
    hidden.title.clear();
    assert!(!controller.lists(&hidden));
}
