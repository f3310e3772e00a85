use headroom_tray::context::{Change, PrefsAction, RefreshMode, UiState};
use headroom_tray::combined_row::{meter_tip, parts_look};
use headroom_tray::i18n::Lang;
use headroom_tray::key_form::{key_ready, key_to_send, trim_key};
use headroom_tray::marks::{kind_class, kind_icon, tone_class, NoticeKind, Tone};
use headroom_tray::payload::Notifications;
use headroom_tray::registry::{console_url, hint, key_label, reason, AddMethod};
use headroom_tray::shortcut::{capture, capture_effect, Capture};

fn key(label: Option<&str>, console: Option<&str>, tip: Option<&str>) -> AddMethod {
    AddMethod::ApiKey {
        label: label.map(str::to_owned),
        console_url: console.map(str::to_owned),
        hint: tip.map(str::to_owned),
    }
}

#[test]
fn notices_and_tones_have_their_marks() {
    assert_eq!(kind_icon(NoticeKind::Error), "dialog-error-symbolic");
    assert_eq!(kind_icon(NoticeKind::SignIn), "system-users-symbolic");
    assert_eq!(kind_icon(NoticeKind::Info), "dialog-warning-symbolic");
    assert_eq!(kind_class(NoticeKind::Warning), "warning");
    assert_eq!(kind_class(NoticeKind::SignIn), "signin");
    assert_eq!(tone_class(Tone::Good), "accent");
    assert_eq!(tone_class(Tone::Critical), "error");
    assert_eq!(tone_class(Tone::Neutral), "dim-label");
}

#[test]
fn the_key_form_uses_the_provider_texts() {
    let own = key(Some("Token"), Some("https://console.example/keys"), Some("Starts with sk-"));
    assert_eq!(key_label(Lang::En, &own), "Token");
    assert_eq!(hint(&own), "Starts with sk-");
    assert_eq!(console_url(&own).as_deref(), Some("https://console.example/keys"));
    let plain = key(None, None, None);
    assert_eq!(key_label(Lang::En, &plain), "API key");
    assert_eq!(key_label(Lang::Ru, &plain), "API-ключ");
    assert_eq!(hint(&plain), "");
    assert_eq!(console_url(&plain), None);
    let cli = AddMethod::CliLogin { program: None };
    assert_eq!(key_label(Lang::En, &cli), "API key");
    assert_eq!(console_url(&cli), None);
}

#[test]
fn the_recording_dialog_saves_only_what_a_press_settles() {
    let shortcut = |text: &str| Some(PrefsAction::Change(Change::Shortcut(text.into())));
    let wait = capture_effect(Capture::Wait);
    assert_eq!((wait.action, wait.close), (None, false));
    let cancel = capture_effect(Capture::Cancel);
    assert_eq!((cancel.action, cancel.close), (None, true));
    let disable = capture_effect(capture("BackSpace", false, "BackSpace"));
    assert_eq!((disable.action, disable.close), (shortcut(""), true));
    let set = capture_effect(capture("h", true, "<Control>h"));
    assert_eq!((set.action, set.close), (shortcut("<Control>h"), true));
}

#[test]
fn a_new_session_starts_with_everything_folded() {
    let ui = UiState::default();
    assert!(!ui.more_expanded && !ui.copied && !ui.service_starting);
    assert!(ui.expanded.is_empty() && ui.retrying.is_empty());
    assert_eq!(ui.refresh, RefreshMode::Idle);
    assert_eq!(ui.service_error, None);
    assert_eq!(ui.copied_command, None);
}

#[test]
fn detection_gives_its_reason() {
    let with = AddMethod::AutoDetect { reason: Some("Reads the local config".into()) };
    assert_eq!(reason(&with), Some("Reads the local config"));
    assert_eq!(reason(&AddMethod::AutoDetect { reason: None }), None);
    assert_eq!(reason(&AddMethod::CliLogin { program: None }), None);
}

#[test]
fn a_provider_threshold_replaces_the_old_one() {
    let mut notifications = Notifications::default();
    notifications.set_threshold("codex".into(), 20);
    notifications.set_threshold("qwen".into(), 5);
    notifications.set_threshold("codex".into(), 30);
    assert_eq!(notifications.provider_thresholds.len(), 2);
    assert_eq!(notifications.threshold_of(&"codex".to_owned()), Some(30));
    assert_eq!(notifications.threshold_of(&"qwen".to_owned()), Some(5));
    assert!(!notifications.has_threshold(&"gemini".to_owned()));
    assert!(notifications.almost_out && notifications.reset);
}

#[test]
fn a_key_counts_once_white_space_is_trimmed() {
    assert!(!key_ready("  \t\n"));
    assert!(!key_ready(""));
    assert!(key_ready(" sk-123 "));
    assert_eq!(trim_key("\u{a0} sk-123\u{3000}"), "sk-123");
    assert_eq!(trim_key("sk 1"), "sk 1");
    assert_eq!(key_to_send("  sk-123\n", false).as_deref(), Some("sk-123"));
    assert_eq!(key_to_send("  sk-123\n", true), None);
    assert_eq!(key_to_send("   ", false), None);
}

#[test]
fn combined_rows_show_their_parts_and_tooltip() {
    let look = parts_look(Some(true), false, true);
    assert!(look.flame && look.note && !look.forecast && look.tip_on_meter);
    let quiet = parts_look(Some(false), true, false);
    assert!(!quiet.flame && quiet.note && quiet.forecast && !quiet.tip_on_meter);
    assert!(!parts_look(None, false, false).note);
    assert_eq!(
        meter_tip("40% left", Some("Lasts until reset"), "A 20% · B 20%"),
        "40% left\nLasts until reset\nA 20% · B 20%"
    );
    assert_eq!(meter_tip("40% left", None, "A 40%"), "40% left\nA 40%");
}
