use headroom_tray::i18n::Lang;
use headroom_tray::notify::{enabled, notify_look, texts, Milestone};
use headroom_tray::panel::{panel_rows, PanelMode};
use headroom_tray::payload::{Display, Notifications, DEFAULT_THRESHOLD};
use headroom_tray::sections::{section_switches, section_text, section_value, Section};
use headroom_tray::release::{release_row, ReleaseFacts, UpdateAction, UpdateRun};
use headroom_tray::service::{advanced_service_line, log_file_line};

fn display() -> Display {
    Display {
        panel_limits: vec![],
        hidden_windows: vec![],
        show_spend: true,
        show_account_spend: false,
        show_trend: true,
        show_forecast: false,
    }
}

#[test]
fn alerts_have_titles_and_descriptions() {
    assert_eq!(texts(Lang::En, Milestone::AlmostOut), ("Almost out", ""));
    assert_eq!(
        texts(Lang::En, Milestone::WillRunOut),
        ("Will run out", "The pace says a limit runs out before it resets")
    );
    assert_eq!(texts(Lang::Ru, Milestone::Reset).0, "Лимит сброшен");
}

#[test]
fn alert_switches_follow_the_settings() {
    let mut notifications = Notifications::default();
    notifications.will_run_out = false;
    assert!(enabled(&notifications, Milestone::AlmostOut));
    assert!(!enabled(&notifications, Milestone::WillRunOut));
    let look = notify_look(Lang::En, &notifications, true);
    assert_eq!(
        look.switches,
        vec![
            (Milestone::AlmostOut, true),
            (Milestone::CuttingItClose, true),
            (Milestone::WillRunOut, false),
            (Milestone::Reset, true),
        ]
    );
    assert!(look.advanced);
}

#[test]
fn an_old_service_describes_the_default_threshold() {
    let mut notifications = Notifications::default();
    notifications.threshold_percent = 25;
    let capable = notify_look(Lang::En, &notifications, true);
    assert_eq!(capable.almost_out_subtitle, "A limit drops under 25% left");
    let old = notify_look(Lang::En, &notifications, false);
    assert_eq!(
        old.almost_out_subtitle,
        format!("A limit drops under {DEFAULT_THRESHOLD}% left")
    );
    assert!(!old.advanced);
}

#[test]
fn sections_list_their_switches() {
    assert_eq!(
        section_text(Lang::En, Section::Trend),
        ("Usage trend", "Daily token bars for the last 30 days")
    );
    assert!(section_value(&display(), Section::Spend));
    assert!(!section_value(&display(), Section::Forecast));
    let capable = section_switches(&display(), true);
    assert_eq!(capable.len(), 4);
    assert!(!capable[0].visible);
    assert!(capable[0].on);
    assert!(capable[1].visible && !capable[1].on);
    assert!(capable[2].visible && capable[2].on);
    let old = section_switches(&display(), false);
    assert!(old.iter().all(|switch| switch.visible));
}

#[test]
fn the_tray_icon_rows_follow_the_mode() {
    let several = panel_rows(PanelMode::Several, true);
    assert_eq!(several.mode, PanelMode::Several);
    assert!(several.mode_row && several.limits_row && several.marks);
    assert!(!several.headline_row);
    let icon = panel_rows(PanelMode::Icon, true);
    assert!(!icon.marks && !icon.headline_row && !icon.limits_row);
    let old = panel_rows(PanelMode::Icon, false);
    assert_eq!(old.mode, PanelMode::Headline);
    assert!(old.headline_row && !old.mode_row && !old.marks);
}

#[test]
fn the_advanced_page_describes_the_service_and_its_log() {
    assert_eq!(
        advanced_service_line(Lang::En, true, Some("0.6.0")),
        "Running · version 0.6.0 · systemd user service"
    );
    assert_eq!(
        advanced_service_line(Lang::En, false, None),
        "Not running · systemd user service"
    );
    assert_eq!(
        log_file_line(Lang::En, Some("/tmp/headroom.log")),
        ("/tmp/headroom.log".to_owned(), true)
    );
    assert_eq!(
        log_file_line(Lang::En, None),
        ("Not available".to_owned(), false)
    );
}

fn release(action: Option<UpdateAction>) -> ReleaseFacts {
    ReleaseFacts {
        action,
        title: "Headroom 0.7.0 is available".into(),
        command: "pipx upgrade headroom".into(),
        has_whats_new: true,
        action_label: "Install".into(),
    }
}

#[test]
fn without_a_release_the_row_says_whether_updates_are_checked() {
    let checking = release_row(Lang::En, None, true, &UpdateRun::Idle, None);
    assert_eq!(checking.title, "Updates");
    assert_eq!(checking.subtitle, "No newer release known");
    assert!(!checking.spinner && !checking.whats_new && !checking.action);
    let off = release_row(Lang::En, None, false, &UpdateRun::Idle, None);
    assert_eq!(off.subtitle, "Update checks are off");
}

#[test]
fn an_installable_release_follows_its_installation() {
    let facts = release(Some(UpdateAction::Install));
    let idle = release_row(Lang::En, Some(&facts), true, &UpdateRun::Idle, None);
    assert_eq!(idle.title, "Headroom 0.7.0 is available");
    assert_eq!(idle.subtitle, "");
    assert!(idle.whats_new && idle.action && idle.suggested && !idle.spinner);
    assert_eq!(idle.action_label.as_deref(), Some("Install"));
    let running = release_row(
        Lang::En,
        Some(&facts),
        true,
        &UpdateRun::Running("Downloading".into()),
        Some("Downloading…"),
    );
    assert_eq!(running.subtitle, "Downloading…");
    assert!(running.spinner && !running.whats_new && !running.action);
    let failed = release_row(
        Lang::En,
        Some(&facts),
        true,
        &UpdateRun::Failed("disk full".into()),
        Some("Update failed: disk full"),
    );
    assert!(failed.action && !failed.suggested && !failed.spinner && !failed.whats_new);
    assert_eq!(failed.action_label.as_deref(), Some("Retry"));
}

#[test]
fn other_releases_ignore_the_installation() {
    let command = release(Some(UpdateAction::Command));
    let row = release_row(
        Lang::Ru,
        Some(&command),
        true,
        &UpdateRun::Running("x".into()),
        Some("ignored"),
    );
    assert_eq!(row.subtitle, "pipx upgrade headroom");
    assert!(!row.spinner && row.action && row.whats_new && !row.suggested);
    assert_eq!(row.action_label.as_deref(), Some("Скопировать"));
    let none = release_row(Lang::En, Some(&release(None)), true, &UpdateRun::Idle, None);
    assert!(!none.action && none.action_label.is_none());
}

#[test]
fn an_idle_installation_has_no_line() {
    let facts = release(Some(UpdateAction::Install));
    let row = release_row(Lang::En, Some(&facts), true, &UpdateRun::Idle, Some("x"));
    assert_eq!(row.subtitle, "");
}
