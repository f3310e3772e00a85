use headroom_tray::context::{refresh_look, RefreshMode};
use headroom_tray::i18n::{plural, Lang, Msg, Plural};
use headroom_tray::text::{decimal_string, fill, join_strs};
use headroom_tray::thresholds::percent_choices;

#[test]
fn fill_replaces_known_keys_only() {
    assert_eq!(fill("{a} and {b}", &[("a", "x"), ("b", "y")]), "x and y");
    assert_eq!(fill("{a}{a}", &[("a", "1")]), "11");
    assert_eq!(fill("{c} stays", &[("a", "x")]), "{c} stays");
    assert_eq!(fill("{open", &[("open", "x")]), "{open");
    assert_eq!(fill("{{a}}", &[("a", "x")]), "{x}");
    assert_eq!(fill("no braces", &[]), "no braces");
    assert_eq!(fill("{a}", &[("a", "first"), ("a", "second")]), "first");
    assert_eq!(fill("", &[("a", "x")]), "");
}

#[test]
fn numbers_are_written_in_decimal() {
    assert_eq!(decimal_string(0), "0");
    assert_eq!(decimal_string(7), "7");
    assert_eq!(decimal_string(10), "10");
    assert_eq!(decimal_string(1_234_567), "1234567");
    assert_eq!(decimal_string(usize::MAX), usize::MAX.to_string());
}

#[test]
fn parts_join_with_a_separator() {
    assert_eq!(join_strs(&vec![], " · "), "");
    assert_eq!(join_strs(&vec!["a"], " · "), "a");
    assert_eq!(join_strs(&vec!["a", "b", "c"], " · "), "a · b · c");
}

#[test]
fn plural_forms() {
    assert_eq!(plural(Lang::En, 1), Plural::One);
    assert_eq!(plural(Lang::En, 0), Plural::Many);
    assert_eq!(plural(Lang::En, 21), Plural::Many);
    assert_eq!(plural(Lang::Ru, 1), Plural::One);
    assert_eq!(plural(Lang::Ru, 11), Plural::Many);
    assert_eq!(plural(Lang::Ru, 22), Plural::Few);
    assert_eq!(plural(Lang::Ru, 12), Plural::Many);
    assert_eq!(plural(Lang::Ru, 105), Plural::Many);
    assert_eq!(plural(Lang::Ru, 101), Plural::One);
}

#[test]
fn both_languages_have_every_message() {
    for msg in [Msg::SignedIn, Msg::NotInstalled, Msg::Running, Msg::ProvidersDiffer(Plural::Few)] {
        assert!(!Lang::En.tr(msg).is_empty());
        assert!(!Lang::Ru.tr(msg).is_empty());
        assert_ne!(Lang::En.tr(msg), Lang::Ru.tr(msg));
    }
}

#[test]
fn thresholds_offer_presets_and_the_current_value_in_order() {
    let values = |current: u8| -> Vec<(u8, String)> {
        percent_choices(current)
            .into_iter()
            .map(|choice| (choice.value, choice.label))
            .collect()
    };
    assert_eq!(
        values(10),
        [(5, "5%".into()), (10, "10%".into()), (20, "20%".into()), (30, "30%".into())]
    );
    let with = values(15);
    assert_eq!(with.iter().map(|v| v.0).collect::<Vec<_>>(), [5, 10, 15, 20, 30]);
    assert_eq!(with[2].1, "15%");
    assert_eq!(values(0)[0], (0, "0%".into()));
    assert_eq!(values(255)[4], (255, "255%".into()));
}

#[test]
fn refresh_button_spins_only_when_busy_with_motion() {
    let busy = refresh_look(Lang::En, RefreshMode::Busy, true);
    assert!(busy.spinning && busy.busy && !busy.failed && !busy.dimmed);
    assert_eq!(busy.tip, "Refresh");
    let still = refresh_look(Lang::En, RefreshMode::Busy, false);
    assert!(!still.spinning && still.dimmed);
    assert!(!refresh_look(Lang::En, RefreshMode::Idle, false).dimmed);
    let failed = refresh_look(Lang::En, RefreshMode::Failed, true);
    assert!(!failed.spinning && failed.failed);
    assert_eq!(failed.tip, "Refresh failed");
    assert_eq!(RefreshMode::default(), RefreshMode::Idle);
}
