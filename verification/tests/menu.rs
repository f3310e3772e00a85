use headroom_tray::context::{Action, ShareTarget};
use headroom_tray::i18n::Lang;
use headroom_tray::menu::{
    account_entries, link_entries, menu_groups, menu_lines, share_entries, LinkKind, MenuIcon,
    MenuInput, MenuLine, QuickLink,
};
use headroom_tray::service::{
    service_notice, service_row, shown_for, visible_tabs, Service, Tab,
};

fn input(starred: bool) -> MenuInput {
    MenuInput {
        provider_name: "Codex".into(),
        account_ids: vec!["codex:a".into(), "codex:b".into()],
        starred,
        target: ShareTarget::Combined("codex".into()),
        links: vec![],
    }
}

fn link(kind: LinkKind, host: &str) -> QuickLink {
    QuickLink {
        kind,
        host: host.into(),
        url: format!("https://{host}/"),
    }
}

#[test]
fn account_items_refresh_hide_and_star() {
    let entries = account_entries(Lang::En, true, &input(false));
    assert_eq!(entries.len(), 3);
    assert_eq!(entries[0].title, "Refresh Codex");
    assert_eq!(
        entries[0].actions,
        [Action::Refresh("codex:a".into()), Action::Refresh("codex:b".into())]
    );
    assert_eq!(entries[1].title, "Hide from popup");
    assert_eq!(
        entries[1].actions,
        [Action::HideAccounts(vec!["codex:a".into(), "codex:b".into()])]
    );
    assert_eq!(entries[2].icon, MenuIcon::Named("non-starred-symbolic"));
    assert_eq!(
        entries[2].actions,
        [Action::SetStarred(vec!["codex:a".into(), "codex:b".into()], true)]
    );
    let starred = account_entries(Lang::Ru, true, &input(true));
    assert_eq!(starred[0].title, "Обновить Codex");
    assert_eq!(starred[2].icon, MenuIcon::Named("starred-symbolic"));
    assert_eq!(account_entries(Lang::En, false, &input(true)).len(), 2);
}

#[test]
fn share_items_cover_the_target() {
    let target = ShareTarget::Account("qwen:main".into());
    let entries = share_entries(Lang::En, &target);
    assert_eq!(entries[0].title, "Share as image…");
    assert_eq!(entries[0].actions, [Action::Share(target.clone())]);
    assert_eq!(entries[1].title, "Copy as text");
    assert_eq!(entries[1].actions, [Action::CopySummary(target)]);
}

#[test]
fn links_come_in_a_fixed_order_once_per_kind() {
    let links = vec![
        link(LinkKind::Usage, "usage.example"),
        link(LinkKind::Status, "status.example"),
        link(LinkKind::Usage, "other.example"),
    ];
    let entries = link_entries(Lang::En, &links);
    assert_eq!(entries.len(), 2);
    assert_eq!(entries[0].icon, MenuIcon::Link(LinkKind::Status));
    assert_eq!(entries[0].title, "Status");
    assert_eq!(entries[0].detail.as_deref(), Some("status.example"));
    assert_eq!(
        entries[0].actions,
        [Action::OpenUrl("https://status.example/".into())]
    );
    assert_eq!(entries[1].detail.as_deref(), Some("usage.example"));
    assert!(link_entries(Lang::En, &vec![]).is_empty());
}

#[test]
fn a_card_menu_has_accounts_links_and_sharing() {
    let mut with_links = input(false);
    with_links.links = vec![link(LinkKind::Dashboard, "console.example")];
    let groups = menu_groups(Lang::En, true, &with_links);
    assert_eq!(groups.len(), 3);
    assert_eq!(groups[0].len(), 3);
    assert_eq!(groups[1][0].title, "Dashboard");
    assert_eq!(groups[2][1].title, "Copy as text");
    let lines = menu_lines(&groups);
    assert_eq!(lines.len(), 3 + 1 + 1 + 1 + 2);
    assert_eq!(lines[3], MenuLine::Separator);
    assert_eq!(lines[5], MenuLine::Separator);
}

#[test]
fn separators_stand_only_between_non_empty_groups() {
    let target = ShareTarget::Account("x".into());
    let groups = vec![
        account_entries(Lang::En, false, &input(false)),
        vec![],
        share_entries(Lang::En, &target),
    ];
    assert_eq!(
        menu_lines(&groups),
        [
            MenuLine::Item { group: 0, index: 0 },
            MenuLine::Item { group: 0, index: 1 },
            MenuLine::Separator,
            MenuLine::Item { group: 2, index: 0 },
            MenuLine::Item { group: 2, index: 1 },
        ]
    );
    assert!(menu_lines(&vec![vec![], vec![]]).is_empty());
}

#[test]
fn the_service_row_follows_the_connection() {
    let running = service_row(Lang::En, &Service::Running, Some("0.6.0"));
    assert_eq!(running.subtitle, "Running · 0.6.0");
    assert!(!running.starting && !running.stopped);
    assert_eq!(service_row(Lang::En, &Service::Running, None).subtitle, "Running");
    let stopped = service_row(
        Lang::En,
        &Service::Stopped {
            starting: false,
            error: None,
        },
        None,
    );
    assert_eq!(stopped.subtitle, "Not running");
    assert!(stopped.stopped);
    let failed = service_row(
        Lang::En,
        &Service::Stopped {
            starting: true,
            error: Some("no systemd".into()),
        },
        None,
    );
    assert_eq!(failed.subtitle, "no systemd");
    assert!(failed.starting && !failed.stopped);
    let notice = service_notice(Lang::En, &Service::Connecting);
    assert_eq!(notice.title, "Connecting to Headroom…");
    assert!(notice.busy && notice.description.is_empty());
}

#[test]
fn pages_show_once_the_service_is_ready() {
    let ready = shown_for(&Service::Running, true, true, true);
    assert_eq!(
        visible_tabs(ready),
        [Tab::General, Tab::Accounts, Tab::Notifications, Tab::Advanced, Tab::About]
    );
    let old = shown_for(&Service::Running, true, true, false);
    assert_eq!(
        visible_tabs(old),
        [Tab::General, Tab::Accounts, Tab::Notifications, Tab::About]
    );
    let waiting = shown_for(&Service::Connecting, true, true, true);
    assert!(!waiting.ready && !waiting.advanced);
    assert_eq!(visible_tabs(waiting), [Tab::Service, Tab::About]);
}
