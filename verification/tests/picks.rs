use headroom_tray::choices::window_label;
use headroom_tray::i18n::Lang;
use headroom_tray::payload::{
    Account, Display, HiddenWindow, Notifications, PanelLimit, State, Status, Usage, Window,
};
use headroom_tray::picks::{
    account_providers, almost_out_subtitle, limit_items, limits_summary, star_items, star_label,
    thresholds_summary,
};

fn window(id: &str, label: &str, remaining: u8) -> Window {
    Window {
        id: id.into(),
        label: label.into(),
        remaining_percent: remaining,
    }
}

fn state() -> State {
    State {
        accounts: vec![
            Account {
                id: "codex:work".into(),
                provider: "codex".into(),
                provider_name: "Codex".into(),
                label: Some("Work".into()),
                email: Some("ada@example.com".into()),
                plan: Some("Pro".into()),
                status: Status::Current,
                hidden: false,
                collapsed: false,
                windows: vec![window("session", "Session", 45), window("weekly", "Weekly", 70)],
            },
            Account {
                id: "qwen:main".into(),
                provider: "qwen".into(),
                provider_name: "Qwen".into(),
                label: None,
                email: Some("ada@qwen.example".into()),
                plan: Some("Pro".into()),
                status: Status::SignedOut,
                hidden: false,
                collapsed: false,
                windows: vec![window("session", "Session", 8), window("weekly", "Weekly", 40)],
            },
            Account {
                id: "codex:hidden".into(),
                provider: "codex".into(),
                provider_name: "Codex".into(),
                label: Some("Side".into()),
                email: None,
                plan: None,
                status: Status::Current,
                hidden: true,
                collapsed: false,
                windows: vec![window("session", "Session", 90)],
            },
        ],
        usage: vec![
            Usage { provider: "codex".into() },
            Usage { provider: "qwen".into() },
        ],
        display: Display {
            panel_limits: vec![],
            hidden_windows: vec![
                HiddenWindow { account_id: "codex:work".into(), window: "weekly".into() },
                HiddenWindow { account_id: "qwen:main".into(), window: "weekly".into() },
            ],
            show_spend: false,
            show_account_spend: false,
            show_trend: false,
            show_forecast: false,
        },
        panel_items: Some(vec![]),
        combined: vec![],
    }
}

fn limit(account: &str, window: &str) -> PanelLimit {
    PanelLimit {
        account_id: account.into(),
        window: window.into(),
    }
}

#[test]
fn limit_items_keep_chosen_limits_first_and_skip_hidden_windows() {
    let state = state();
    let mut display = state.display.clone();
    display.panel_limits = vec![limit("qwen:main", "session"), limit("gone:1", "weekly")];
    let items = limit_items(Lang::En, &state, &display);
    let titles: Vec<(&str, &str)> = items
        .iter()
        .map(|item| (item.title.as_str(), item.subtitle.as_str()))
        .collect();
    assert_eq!(
        titles,
        [
            ("Qwen — Session", "ada@qwen.example · 8% left"),
            ("Pinned limit (not available now)", "gone:1 · weekly"),
            ("Codex — Session", "Work · 45% left"),
        ]
    );
    assert_eq!(items[0].provider, "qwen");
}

#[test]
fn summaries_in_both_languages() {
    assert_eq!(
        limits_summary(Lang::En, 2),
        "2 of 3 chosen · shown in this order"
    );
    assert_eq!(
        limits_summary(Lang::Ru, 1),
        "Выбрано 1 из 3 · в этом порядке"
    );
    assert_eq!(
        limits_summary(Lang::En, 0),
        "None chosen · the two most critical are shown"
    );
    assert_eq!(star_label(Lang::En, true), "Always open");
    assert_eq!(star_label(Lang::Ru, false), "По запросу");
    assert_eq!(
        almost_out_subtitle(Lang::En, 20),
        "A limit drops under 20% left"
    );
}

#[test]
fn stars_list_visible_accounts() {
    let items = star_items(&state());
    let rows: Vec<(&str, &str)> = items
        .iter()
        .map(|item| (item.title.as_str(), item.subtitle.as_str()))
        .collect();
    assert_eq!(
        rows,
        [
            ("Work", "Codex · Pro · ada@example.com"),
            ("ada@qwen.example", "Qwen · Pro"),
        ]
    );
}

#[test]
fn provider_thresholds_summary_counts_overrides() {
    let state = state();
    let providers = account_providers(&state);
    let ids: Vec<&str> = providers.iter().map(|item| item.id.as_str()).collect();
    assert_eq!(ids, ["codex", "qwen"]);
    let mut notifications = Notifications::default();
    assert_eq!(
        thresholds_summary(Lang::En, &notifications, &providers),
        "Every provider uses the default"
    );
    notifications.set_threshold("qwen".into(), 20);
    notifications.set_threshold("unknown".into(), 0);
    assert_eq!(
        thresholds_summary(Lang::En, &notifications, &providers),
        "1 provider differs from the default"
    );
    notifications.set_threshold("codex".into(), 0);
    assert_eq!(
        thresholds_summary(Lang::Ru, &notifications, &providers),
        "2 провайдера отличаются от общего"
    );
}

#[test]
fn pinned_limits_stay_in_place_when_every_window_is_live() {
    let state = state();
    let mut display = state.display.clone();
    display.panel_limits = vec![limit("codex:work", "session"), limit("qwen:main", "session")];
    let items = limit_items(Lang::Ru, &state, &display);
    let titles: Vec<(&str, &str)> = items
        .iter()
        .map(|item| (item.title.as_str(), item.subtitle.as_str()))
        .collect();
    assert_eq!(
        titles,
        [
            ("Codex — Сессия", "Work · осталось 45%"),
            ("Qwen — Сессия", "ada@qwen.example · осталось 8%"),
        ]
    );
}

#[test]
fn hidden_accounts_offer_no_limits_or_stars() {
    let mut state = state();
    for account in &mut state.accounts {
        account.hidden = true;
    }
    let display = state.display.clone();
    assert!(limit_items(Lang::En, &state, &display).is_empty());
    assert!(star_items(&state).is_empty());
    assert_eq!(account_providers(&state).len(), 2);
}

#[test]
fn russian_plural_forms_follow_the_last_digits() {
    let state = state();
    let mut providers = account_providers(&state);
    let mut notifications = Notifications::default();
    for n in 0..21 {
        let id = format!("p{n}");
        providers.push(headroom_tray::picks::ProviderItem {
            id: id.clone(),
            name: id.clone(),
        });
        notifications.set_threshold(id, 5);
    }
    assert_eq!(
        thresholds_summary(Lang::Ru, &notifications, &providers),
        "21 провайдер отличается от общего"
    );
    assert_eq!(
        thresholds_summary(Lang::En, &notifications, &providers[..7]),
        "5 providers differ from the default"
    );
    assert_eq!(
        thresholds_summary(Lang::Ru, &notifications, &providers[..7]),
        "5 провайдеров отличаются от общего"
    );
}

#[test]
fn a_set_threshold_reads_back() {
    let mut notifications = Notifications::default();
    notifications.set_threshold("qwen".into(), 20);
    notifications.set_threshold("codex".into(), 5);
    notifications.set_threshold("qwen".into(), 30);
    assert_eq!(notifications.threshold_of(&"qwen".to_string()), Some(30));
    assert_eq!(notifications.threshold_of(&"codex".to_string()), Some(5));
    assert_eq!(notifications.threshold_of(&"gemini".to_string()), None);
    assert_eq!(notifications.provider_thresholds.len(), 2);
    assert_eq!(notifications.threshold_percent, 10);
}

#[test]
fn windows_the_interface_knows_are_named_in_its_language() {
    assert_eq!(window_label(Lang::Ru, "weekly", "Weekly"), "Неделя");
    assert_eq!(window_label(Lang::En, "session", "5-hour"), "Session");
    assert_eq!(window_label(Lang::Ru, "opus", "Opus weekly"), "Opus weekly");
}
