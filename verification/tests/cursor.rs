use freecam::{apply_to_windows, CursorRequest, GrabMode, WindowCursor};

fn window(focused: bool, grab_mode: GrabMode, visible: bool) -> WindowCursor {
    WindowCursor { focused, grab_mode, visible }
}

fn desk() -> Vec<WindowCursor> {
    vec![
        window(true, GrabMode::Free, true),
        window(false, GrabMode::Confined, true),
        window(true, GrabMode::Confined, false),
        window(false, GrabMode::Locked, false),
    ]
}

#[test]
fn capture_locks_and_hides_focused_windows_only() {
    let mut windows = desk();
    apply_to_windows(&mut windows, CursorRequest::CaptureFocused);
    assert_eq!(
        windows,
        vec![
            window(true, GrabMode::Locked, false),
            window(false, GrabMode::Confined, true),
            window(true, GrabMode::Locked, false),
            window(false, GrabMode::Locked, false),
        ]
    );
}

#[test]
fn release_frees_and_shows_every_window() {
    let mut windows = desk();
    apply_to_windows(&mut windows, CursorRequest::ReleaseAll);
    assert_eq!(
        windows,
        vec![
            window(true, GrabMode::Free, true),
            window(false, GrabMode::Free, true),
            window(true, GrabMode::Free, true),
            window(false, GrabMode::Free, true),
        ]
    );
}

#[test]
fn keep_leaves_every_window_alone() {
    let mut windows = desk();
    apply_to_windows(&mut windows, CursorRequest::Keep);
    assert_eq!(windows, desk());
}

#[test]
fn no_windows_is_no_error() {
    let mut windows: Vec<WindowCursor> = Vec::new();
    apply_to_windows(&mut windows, CursorRequest::CaptureFocused);
    assert!(windows.is_empty());
    apply_to_windows(&mut windows, CursorRequest::ReleaseAll);
    assert!(windows.is_empty());
}

#[test]
fn one_window_is_served_like_a_list_of_one() {
    for request in [CursorRequest::Keep, CursorRequest::CaptureFocused, CursorRequest::ReleaseAll] {
        for start in desk() {
            let mut single = start;
            single.apply(request);
            let mut list = vec![start];
            apply_to_windows(&mut list, request);
            assert_eq!(list, vec![single]);
            assert_eq!(single.focused, start.focused);
        }
    }
}

#[test]
fn request_follows_the_new_capture_flag() {
    assert_eq!(CursorRequest::to_match(true), CursorRequest::CaptureFocused);
    assert_eq!(CursorRequest::to_match(false), CursorRequest::ReleaseAll);
}
