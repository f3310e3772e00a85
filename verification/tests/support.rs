use headroom_tray::i18n::{Lang, Msg};
use headroom_tray::support::{support_texts, REPOSITORY_URL};

#[test]
fn repository_url_has_no_tracking_parameters() {
    assert_eq!(REPOSITORY_URL, "https://github.com/daniarjabagin/headroom");
    assert!(!REPOSITORY_URL.contains('?'));
}

#[test]
fn support_strings_are_translated_to_russian() {
    let expected = [
        (Msg::SupportHeadroom, "Support Headroom", "Поддержать Headroom"),
        (Msg::StarOnGitHub, "Star Headroom on GitHub", "Поставьте звезду на GitHub"),
        (
            Msg::StarsHelp,
            "Stars help other people find it. It's free and takes a second.",
            "Звёзды помогают другим найти Headroom. Это бесплатно и занимает секунду.",
        ),
        (Msg::OpenGitHub, "Open GitHub", "Открыть GitHub"),
    ];
    for (msg, english, russian) in expected {
        assert_eq!(Lang::Ru.tr(msg), russian);
        assert_eq!(Lang::En.tr(msg), english);
    }
}

#[test]
fn the_support_group_reads_in_the_interface_language() {
    let english = support_texts(Lang::En);
    assert_eq!(english.title, "Support Headroom");
    assert_eq!(english.button, "Open GitHub");
    let russian = support_texts(Lang::Ru);
    assert_eq!(russian.row_title, "Поставьте звезду на GitHub");
}
