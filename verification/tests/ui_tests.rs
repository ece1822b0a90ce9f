use ai_barometer::ui::{bold, err, info, ok, paint, title, use_color, warn};

#[test]
fn color_depends_on_the_terminal() {
    assert!(use_color(false, true, Some("xterm")));
    assert!(use_color(false, true, None));
    assert!(!use_color(true, true, Some("xterm")));
    assert!(!use_color(false, false, Some("xterm")));
    assert!(!use_color(false, true, Some("dumb")));
}

#[test]
fn paint_wraps_text_in_codes() {
    assert_eq!(paint("x", "\x1b[36m", true), "\x1b[36mx\x1b[0m");
    assert_eq!(paint("x", "\x1b[36m", false), "x");
    assert_eq!(bold("x", true), "\x1b[1mx\x1b[0m");
    assert_eq!(bold("x", false), "x");
}

#[test]
fn title_has_a_rule_below() {
    assert_eq!(title("Setup", false), "  Setup\n  ─────────────────────────");
    assert_eq!(
        title("Setup", true),
        "  \x1b[1mSetup\x1b[0m\n  ─────────────────────────"
    );
}

#[test]
fn status_lines_have_their_icons() {
    assert_eq!(info("m", false), "ℹ  m");
    assert_eq!(ok("m", false), "✓  m");
    assert_eq!(warn("m", false), "⚠  m");
    assert_eq!(err("m", false), "✗  m");
    assert_eq!(info("m", true), "\x1b[36mℹ\x1b[0m  m");
    assert_eq!(ok("m", true), "\x1b[32m✓\x1b[0m  m");
    assert_eq!(warn("m", true), "\x1b[33m⚠\x1b[0m  m");
    assert_eq!(err("m", true), "\x1b[31m✗\x1b[0m  m");
}
