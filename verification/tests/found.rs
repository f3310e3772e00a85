use headroom_tray::found::{found_rows, should_open, Found};
use headroom_tray::i18n::Lang;
use headroom_tray::payload::{
    Account, Display, HiddenWindow, Settings, State, Status, Usage, Window,
};
use headroom_tray::registry::{AddMethod, ProviderInfo, ProviderLinks};

fn window(id: &str, label: &str, remaining: u8) -> Window {
    Window {
        id: id.into(),
        label: label.into(),
        remaining_percent: remaining,
    }
}

fn state() -> State {
    State {
        accounts: vec![
            Account {
                id: "codex:work".into(),
                provider: "codex".into(),
                provider_name: "Codex".into(),
                label: Some("Work".into()),
                email: Some("ada@example.com".into()),
                plan: Some("Pro".into()),
                status: Status::Current,
                hidden: false,
                collapsed: false,
                windows: vec![window("session", "Session", 45), window("weekly", "Weekly", 70)],
            },
            Account {
                id: "qwen:main".into(),
                provider: "qwen".into(),
                provider_name: "Qwen".into(),
                label: None,
                email: Some("ada@qwen.example".into()),
                plan: Some("Pro".into()),
                status: Status::SignedOut,
                hidden: false,
                collapsed: false,
                windows: vec![window("session", "Session", 8), window("weekly", "Weekly", 40)],
            },
            Account {
                id: "codex:hidden".into(),
                provider: "codex".into(),
                provider_name: "Codex".into(),
                label: Some("Side".into()),
                email: None,
                plan: None,
                status: Status::Current,
                hidden: true,
                collapsed: false,
                windows: vec![window("session", "Session", 90)],
            },
        ],
        usage: vec![
            Usage { provider: "codex".into() },
            Usage { provider: "qwen".into() },
        ],
        display: Display {
            panel_limits: vec![],
            hidden_windows: vec![
                HiddenWindow { account_id: "codex:work".into(), window: "weekly".into() },
                HiddenWindow { account_id: "qwen:main".into(), window: "weekly".into() },
            ],
            show_spend: false,
            show_account_spend: false,
            show_trend: false,
            show_forecast: false,
        },
        panel_items: Some(vec![]),
        combined: vec![],
    }
}

fn provider(id: &str, name: &str, method: AddMethod) -> ProviderInfo {
    ProviderInfo {
        id: id.into(),
        display_name: name.into(),
        methods: vec![method],
        links: ProviderLinks::default(),
    }
}

fn cli() -> AddMethod {
    AddMethod::CliLogin { program: None }
}

fn registry() -> Vec<ProviderInfo> {
    let key = AddMethod::ApiKey {
        label: None,
        console_url: None,
        hint: None,
    };
    vec![
        provider("codex", "Codex", cli()),
        provider("qwen", "Qwen", cli()),
        provider("cursor", "Cursor", cli()),
        provider("zai", "Z.ai", key),
        provider("copilot", "GitHub Copilot", cli()),
        provider("gemini", "Gemini", cli()),
        provider("amp", "Amp", cli()),
    ]
}

#[test]
fn lists_accounts_then_tools_that_are_not_installed() {
    let rows = found_rows(Lang::En, &state(), &registry());
    assert_eq!(rows[0].title, "Codex · Work");
    assert_eq!(rows[0].subtitle, "Signed in · Pro · ada@example.com");
    assert_eq!(
        rows[0].found,
        Found::SignedIn {
            account_id: "codex:work".into(),
            hidden: false
        }
    );
    assert_eq!(rows[1].title, "Qwen");
    assert_eq!(rows[1].subtitle, "Found, not signed in");
    assert_eq!(rows[1].found, Found::SignedOut);
    assert_eq!(
        rows[2].found,
        Found::SignedIn {
            account_id: "codex:hidden".into(),
            hidden: true
        }
    );
    let missing: Vec<&str> = rows[3..].iter().map(|row| row.title.as_str()).collect();
    assert_eq!(missing, ["Cursor", "GitHub Copilot", "Gemini"]);
    assert!(rows[3..].iter().all(|row| row.found == Found::NotInstalled));
}

#[test]
fn a_usage_home_without_an_account_counts_as_found() {
    let mut state = state();
    state
        .accounts
        .retain(|account| account.provider != "qwen");
    let rows = found_rows(Lang::Ru, &state, &registry());
    let qwen = rows.iter().find(|row| row.provider == "qwen").unwrap();
    assert_eq!(qwen.found, Found::SignedOut);
    assert_eq!(qwen.subtitle, "Найден, вход не выполнен");
}

#[test]
fn opens_only_for_new_daemons_that_have_not_finished_it() {
    let state = state();
    let mut settings = Settings::default();
    assert!(should_open(Some(&state), Some(&settings), false));
    assert!(!should_open(Some(&state), Some(&settings), true));
    assert!(!should_open(None, Some(&settings), false));
    assert!(!should_open(Some(&state), None, false));
    settings.onboarding.completed = true;
    assert!(!should_open(Some(&state), Some(&settings), false));
    let mut old = state.clone();
    old.panel_items = None;
    assert!(!should_open(Some(&old), Some(&Settings::default()), false));
}

#[test]
fn at_most_three_tools_are_suggested_and_found_tools_come_first() {
    let mut state = state();
    state.accounts.clear();
    state.usage = vec![Usage { provider: "gemini".into() }];
    let rows = found_rows(Lang::En, &state, &registry());
    let titles: Vec<&str> = rows.iter().map(|row| row.title.as_str()).collect();
    assert_eq!(titles, ["Gemini", "Codex", "Qwen", "Cursor"]);
    assert_eq!(rows[0].found, Found::SignedOut);
    assert_eq!(rows[1].subtitle, "Not installed");
    assert!(rows[1..].iter().all(|row| row.found == Found::NotInstalled));
}

#[test]
fn a_single_account_of_a_provider_shows_only_the_provider() {
    let mut state = state();
    state.accounts.remove(2);
    let rows = found_rows(Lang::Ru, &state, &registry());
    assert_eq!(rows[0].title, "Codex");
    assert_eq!(rows[0].subtitle, "Вход выполнен · Pro · ada@example.com");
}
