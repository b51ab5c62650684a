use tmux_workspace::capture::{generate_layout, LayoutError};

#[test]
fn active_window_layout_is_captured() {
    let listing = "0 c1a2,80x24,0,0,1\n1 34ed,230x56,0,0{132x56,0,0,3,97x56,133,0,222}\n0 aaaa,1x1,0,0,2\n";
    assert_eq!(
        generate_layout(Some(listing)),
        Ok("34ed,230x56,0,0{132x56,0,0,3,97x56,133,0,222}".to_string())
    );
}

#[test]
fn first_active_line_wins() {
    assert_eq!(generate_layout(Some("1 first\n1 second")), Ok("first".to_string()));
    assert_eq!(generate_layout(Some("0 zero\n\n1 one")), Ok("one".to_string()));
}

#[test]
fn last_word_of_the_line_is_taken() {
    assert_eq!(generate_layout(Some("1   a  b\tc  \t")), Ok("c".to_string()));
    assert_eq!(generate_layout(Some("1")), Ok("1".to_string()));
    assert_eq!(generate_layout(Some("1\u{3000}\n")), Ok("1".to_string()));
    assert_eq!(generate_layout(Some("10,x\r\n0 y")), Ok("10,x".to_string()));
    assert_eq!(generate_layout(Some("1 d\u{e9}j\u{e0}\u{a0}vu")), Ok("vu".to_string()));
}

#[test]
fn flag_must_open_the_line() {
    assert_eq!(generate_layout(Some("0 1 x\n 1 y\n01 z")), Err(LayoutError::NoActiveWindow));
    assert_eq!(generate_layout(Some("")), Err(LayoutError::NoActiveWindow));
    assert_eq!(generate_layout(Some("\n\n")), Err(LayoutError::NoActiveWindow));
}

#[test]
fn missing_listing_is_reported() {
    assert_eq!(generate_layout(None), Err(LayoutError::Unavailable));
}

#[test]
fn capture_errors_have_messages() {
    assert_eq!(LayoutError::Unavailable.message(), "Couldn't get layouts");
    assert_eq!(LayoutError::NoActiveWindow.message(), "No active tmux window");
}
