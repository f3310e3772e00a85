use headroom_tray::dwell::{Dwell, DwellAction, DwellEvent, DWELL_MS};
use headroom_tray::found::{Found, FoundRow};
use headroom_tray::payload::{Account, CombinedGroup, Display, State, Status, Usage};
use headroom_tray::popup::{members, placements, ready_entries, Entry, Placed};
use headroom_tray::context::PrefsAction;
use headroom_tray::welcome::{line_look, row_gesture, welcome_sync, without_hidden, RowGesture, WelcomeEffect};

fn account(id: &str, provider: &str, hidden: bool, collapsed: bool) -> Account {
    Account {
        id: id.into(),
        provider: provider.into(),
        provider_name: provider.to_uppercase(),
        label: None,
        email: None,
        plan: None,
        status: Status::Current,
        hidden,
        collapsed,
        windows: vec![],
    }
}

fn display(show_spend: bool) -> Display {
    Display {
        panel_limits: vec![],
        hidden_windows: vec![],
        show_spend,
        show_account_spend: false,
        show_trend: false,
        show_forecast: false,
    }
}

fn state() -> State {
    State {
        accounts: vec![
            account("codex:a", "codex", false, false),
            account("qwen:a", "qwen", false, false),
            account("qwen:b", "qwen", false, false),
            account("gemini:a", "gemini", false, true),
            account("codex:b", "codex", true, false),
        ],
        usage: vec![Usage { provider: "codex".into() }],
        display: display(true),
        panel_items: Some(vec![]),
        combined: vec![CombinedGroup {
            account_ids: vec!["qwen:b".into(), "qwen:a".into()],
            collapsed: false,
        }],
    }
}

#[test]
fn a_group_takes_the_place_of_its_first_shown_member() {
    let cards = placements(&state());
    assert_eq!(
        cards,
        vec![
            (Placed::Account(0), false),
            (Placed::Group(0), false),
            (Placed::Account(3), true),
        ]
    );
    let shown = members(&state().combined[0], &state().accounts)
        .iter()
        .map(|account| account.id.clone())
        .collect::<Vec<_>>();
    assert_eq!(shown, ["qwen:a", "qwen:b"]);
}

#[test]
fn folded_cards_hide_behind_more() {
    let state = state();
    assert_eq!(
        ready_entries(&state, &display(true), true, false),
        vec![Entry::Leading(true), Entry::Account(0), Entry::Group(0), Entry::More]
    );
    assert_eq!(
        ready_entries(&state, &display(false), true, true),
        vec![
            Entry::Leading(false),
            Entry::Account(0),
            Entry::Group(0),
            Entry::Less,
            Entry::Account(3),
        ]
    );
    assert_eq!(
        ready_entries(&state, &display(true), false, true),
        vec![Entry::Leading(true), Entry::Account(0), Entry::Group(0)]
    );
}

#[test]
fn nothing_to_show_without_accounts_or_spend() {
    let mut state = state();
    for account in &mut state.accounts {
        account.hidden = true;
    }
    assert_eq!(ready_entries(&state, &display(false), false, false), vec![Entry::Empty]);
    assert_eq!(
        ready_entries(&state, &display(true), false, false),
        vec![Entry::Leading(true)]
    );
    state.usage.clear();
    assert_eq!(ready_entries(&state, &display(true), false, false), vec![Entry::Empty]);
}

#[test]
fn resting_on_a_widget_opens_its_popover_and_leaving_closes_it() {
    let idle = Dwell::new();
    let (entered, actions) = idle.step(DwellEvent::Enter);
    assert_eq!(actions, [DwellAction::StartTimer(DWELL_MS)]);
    let (again, actions) = entered.step(DwellEvent::Enter);
    assert_eq!(actions, [DwellAction::CancelTimer, DwellAction::StartTimer(DWELL_MS)]);
    let (elapsed, actions) = again.step(DwellEvent::Elapsed);
    assert_eq!(actions, [DwellAction::Open]);
    let (open, actions) = elapsed.step(DwellEvent::Opened(true));
    assert!(actions.is_empty());
    assert_eq!(open, Dwell { pending: false, shown: true });
    let (closed, actions) = open.step(DwellEvent::Leave);
    assert_eq!(actions, [DwellAction::PopDown]);
    assert_eq!(closed, idle);
}

#[test]
fn passing_over_a_widget_opens_nothing() {
    let (entered, _) = Dwell::new().step(DwellEvent::Enter);
    let (left, actions) = entered.step(DwellEvent::Unmap);
    assert_eq!(actions, [DwellAction::CancelTimer]);
    assert_eq!(left, Dwell::new());
}

fn row(id: &str, hidden: bool) -> FoundRow {
    FoundRow {
        provider: "codex".into(),
        title: "Codex".into(),
        subtitle: "Signed in".into(),
        found: Found::SignedIn { account_id: id.into(), hidden },
    }
}

#[test]
fn hiding_an_account_only_moves_its_switch() {
    let found = vec![row("codex:a", false), FoundRow {
        provider: "qwen".into(),
        title: "Qwen".into(),
        subtitle: "Not installed".into(),
        found: Found::NotInstalled,
    }];
    let first = welcome_sync(&[], &found);
    assert!(first.rebuild);
    assert_eq!(first.switches, [Some(true), None]);
    let mut hidden = found.clone();
    hidden[0] = row("codex:a", true);
    let second = welcome_sync(&first.shapes, &hidden);
    assert!(!second.rebuild);
    assert_eq!(second.switches, [Some(false), None]);
    assert_eq!(without_hidden(&hidden[0]), row("codex:a", false));
    let other = welcome_sync(&first.shapes, &[row("codex:b", false)]);
    assert!(other.rebuild);
}

#[test]
fn welcome_lines_ask_for_visibility_changes_and_sign_ins() {
    let account = row("codex:a", false);
    assert_eq!(line_look(&account).switch, Some(true));
    assert_eq!(
        row_gesture(&account, RowGesture::Toggle(false), false),
        WelcomeEffect::Act(PrefsAction::SetHidden {
            account_id: "codex:a".into(),
            hidden: true
        })
    );
    assert_eq!(
        row_gesture(&account, RowGesture::Toggle(false), true),
        WelcomeEffect::Nothing
    );
    let found = FoundRow {
        provider: "gemini".into(),
        title: "Gemini".into(),
        subtitle: "Found, not signed in".into(),
        found: Found::SignedOut,
    };
    let look = line_look(&found);
    assert!(look.sign_in && look.switch.is_none() && look.sensitive);
    assert_eq!(
        row_gesture(&found, RowGesture::SignIn, false),
        WelcomeEffect::Add(Some("gemini".into()))
    );
    let missing = FoundRow { found: Found::NotInstalled, ..found };
    let look = line_look(&missing);
    assert!(!look.sensitive && look.placeholder && !look.sign_in);
    assert_eq!(row_gesture(&missing, RowGesture::SignIn, false), WelcomeEffect::Nothing);
}

#[test]
fn the_pointer_rests_four_tenths_of_a_second() {
    assert_eq!(DWELL_MS, 400);
    let (_, actions) = Dwell::new().step(DwellEvent::Enter);
    assert_eq!(actions, [DwellAction::StartTimer(400)]);
}
