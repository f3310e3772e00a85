use headroom_tray::i18n::Lang;
use headroom_tray::registry::{add_account_args, AddMethod, ProviderInfo, ProviderLinks};
use headroom_tray::target::{login_method, provider_of_account, Target};

fn cli() -> AddMethod {
    AddMethod::CliLogin {
        program: Some("qwen".into()),
    }
}

fn key() -> AddMethod {
    AddMethod::ApiKey {
        label: None,
        console_url: None,
        hint: None,
    }
}

fn provider(methods: Vec<AddMethod>) -> ProviderInfo {
    ProviderInfo {
        id: "qwen".into(),
        display_name: "Qwen".into(),
        methods,
        links: ProviderLinks::default(),
    }
}

#[test]
fn signing_in_again_runs_accounts_login() {
    let login = Target::Login {
        account_id: "qwen:abc".into(),
    };
    assert_eq!(
        login.args("qwen", &cli(), "ignored"),
        ["accounts", "login", "qwen:abc", "--progress", "json"]
    );
    assert_eq!(
        login.args("qwen", &key(), ""),
        [
            "accounts",
            "login",
            "qwen:abc",
            "--api-key-stdin",
            "--progress",
            "json"
        ]
    );
    assert!(login.is_login());
    assert_eq!(
        Target::Add.args("qwen", &cli(), "Work"),
        [
            "accounts",
            "add",
            "qwen",
            "--label=Work",
            "--progress",
            "json"
        ]
    );
}

#[test]
fn prefers_the_cli_sign_in_for_a_new_login() {
    let auto = AddMethod::AutoDetect { reason: None };
    assert_eq!(login_method(&provider(vec![key(), cli()])), Some(&cli()));
    assert_eq!(
        login_method(&provider(vec![auto.clone(), key()])),
        Some(&key())
    );
    assert_eq!(login_method(&provider(vec![auto])), None);
}

#[test]
fn titles_name_the_flow() {
    let login = Target::Login {
        account_id: "x".into(),
    };
    assert_eq!(Target::Add.title(Lang::En, "Codex"), "Add Codex Account");
    assert_eq!(login.title(Lang::En, "Codex"), "Sign In to Codex Again");
    assert_eq!(login.title(Lang::Ru, "Codex"), "Повторный вход в Codex");
    assert_eq!(
        login.done_text(Lang::Ru),
        "Вход выполнен. Аккаунт скоро обновится."
    );
}

#[test]
fn account_ids_start_with_the_provider() {
    assert_eq!(provider_of_account("codex:1a2b"), "codex");
    assert_eq!(provider_of_account("plain"), "plain");
}

#[test]
fn adding_by_key_reads_it_from_standard_input_and_skips_an_empty_label() {
    assert_eq!(
        add_account_args("zai", &key(), ""),
        ["accounts", "add", "zai", "--api-key-stdin", "--progress", "json"]
    );
    assert!(!Target::Add.is_login());
    assert_eq!(
        Target::Add.done_text(Lang::En),
        "Account added. It shows up in the tray in a moment."
    );
    assert_eq!(provider_of_account("a:b:c"), "a");
    assert_eq!(provider_of_account(":x"), "");
    assert_eq!(provider_of_account(""), "");
}
