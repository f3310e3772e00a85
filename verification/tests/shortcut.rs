use headroom_tray::shortcut::{capture, is_valid_shortcut, Capture};

#[test]
fn escape_cancels_and_backspace_disables() {
    assert_eq!(capture("Escape", false, "Escape"), Capture::Cancel);
    assert_eq!(capture("BackSpace", false, "BackSpace"), Capture::Disable);
    assert_eq!(
        capture("BackSpace", true, "<Control>BackSpace"),
        Capture::Assign("<Control>BackSpace".into())
    );
}

#[test]
fn needs_a_modifier_except_for_function_keys() {
    assert_eq!(capture("u", false, "u"), Capture::Wait);
    assert_eq!(
        capture("u", true, "<Super>u"),
        Capture::Assign("<Super>u".into())
    );
    assert_eq!(capture("F12", false, "F12"), Capture::Assign("F12".into()));
    assert_eq!(capture("F", false, "F"), Capture::Wait);
}

#[test]
fn waits_while_only_modifiers_are_down() {
    for key in [
        "Super_L",
        "Control_R",
        "Shift_L",
        "Alt_L",
        "ISO_Level3_Shift",
        "",
    ] {
        assert_eq!(capture(key, true, "<Super>"), Capture::Wait, "{key}");
    }
    assert_eq!(capture("u", true, "<Super>u+"), Capture::Wait);
}

#[test]
fn accelerators_are_modifier_groups_then_a_key() {
    assert!(is_valid_shortcut(""));
    assert!(is_valid_shortcut("<Control><Shift>h"));
    assert!(is_valid_shortcut("F5"));
    assert!(!is_valid_shortcut("<Super>"));
    assert!(!is_valid_shortcut("<>u"));
    assert!(!is_valid_shortcut("<Super u"));
    assert!(!is_valid_shortcut("u v"));
}

#[test]
fn modified_escape_is_an_accelerator_and_function_keys_need_digits() {
    assert_eq!(
        capture("Escape", true, "<Control>Escape"),
        Capture::Assign("<Control>Escape".into())
    );
    assert_eq!(capture("Fx", false, "Fx"), Capture::Wait);
    assert_eq!(capture("F1", false, ""), Capture::Wait);
    assert_eq!(capture("Num_Lock", false, "Num_Lock"), Capture::Wait);
}
