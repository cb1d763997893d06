use callrx::hyperlink::{link, osc8_supported_for};

#[test]
fn link_wraps_text_in_osc8() {
    assert_eq!(link("https://x/1", "ULS", true), "\x1b]8;;https://x/1\x1b\\ULS\x1b]8;;\x1b\\");
}

#[test]
fn link_degrades_to_text() {
    assert_eq!(link("https://x/1", "ULS", false), "ULS");
    assert_eq!(link("", "ULS", true), "ULS");
}

#[test]
fn linked_text_keeps_its_width() {
    let linked = link("https://example.com/long/path", "click", true);
    assert_eq!(callrx::display::visible_width(&linked), 5);
}

#[test]
fn links_need_a_terminal() {
    assert!(!osc8_supported_for(false, "xterm-256color", "iTerm.app", true));
}

#[test]
fn known_terminals_are_recognised() {
    assert!(osc8_supported_for(true, "xterm-256color", "", false));
    assert!(osc8_supported_for(true, "xterm-kitty", "", false));
    assert!(osc8_supported_for(true, "linux", "WezTerm", false));
    assert!(osc8_supported_for(true, "xterm", "vscode-insiders", false));
    assert!(osc8_supported_for(true, "xterm", "", true));
    assert!(!osc8_supported_for(true, "xterm", "Apple_Terminal", false));
}

#[test]
fn incapable_terminals_are_refused() {
    assert!(!osc8_supported_for(true, "dumb", "iTerm.app", true));
    assert!(!osc8_supported_for(true, "xterm-mono", "", true));
}
