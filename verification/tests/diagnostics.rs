use std::path::PathBuf;

use headroom_tray::diagnostics::{diagnostics_outcome, expand_home, Diagnostics};
use headroom_tray::i18n::Lang;

#[test]
fn expands_only_a_leading_tilde() {
    let home = "/home/ada";
    assert_eq!(
        PathBuf::from(expand_home("~/.local/state/headroom/headroom.log", home)),
        PathBuf::from("/home/ada/.local/state/headroom/headroom.log")
    );
    assert_eq!(PathBuf::from(expand_home("~", home)), PathBuf::from("/home/ada"));
    assert_eq!(
        PathBuf::from(expand_home("/var/log/x", home)),
        PathBuf::from("/var/log/x")
    );
    assert_eq!(PathBuf::from(expand_home("~ada/x", home)), PathBuf::from("~ada/x"));
}

#[test]
fn expansion_joins_like_a_path() {
    assert_eq!(expand_home("~/x", "/home/ada/"), "/home/ada/x");
    assert_eq!(expand_home("~//etc/x", "/home/ada"), "/etc/x");
    assert_eq!(expand_home("~/x", ""), "x");
    assert_eq!(expand_home("x/~", "/home/ada"), "x/~");
    for (path, home) in [("~/a/b", "/h"), ("~/", "/h"), ("~/c", "/")] {
        assert_eq!(
            PathBuf::from(expand_home(path, home)),
            PathBuf::from(home).join(&path[2..])
        );
    }
}

#[test]
fn a_report_is_copied_only_when_asked() {
    let report = || Diagnostics {
        text: "Headroom 0.6.0\n".into(),
        log_file: Some("~/.local/state/headroom/headroom.log".into()),
    };
    let copied = diagnostics_outcome(Lang::En, true, Ok(report()));
    assert_eq!(
        copied.log_file,
        Some(Some("~/.local/state/headroom/headroom.log".into()))
    );
    assert_eq!(copied.clipboard.as_deref(), Some("Headroom 0.6.0\n"));
    assert_eq!(copied.toast.as_deref(), Some("Diagnostics copied"));
    let quiet = diagnostics_outcome(Lang::Ru, false, Ok(report()));
    assert!(quiet.log_file.is_some() && quiet.clipboard.is_none() && quiet.toast.is_none());
    let failed = diagnostics_outcome(Lang::En, true, Err("no service".into()));
    assert_eq!(failed.log_file, None);
    assert_eq!(failed.toast.as_deref(), Some("no service"));
    let unnoticed = diagnostics_outcome(Lang::En, false, Err("no service".into()));
    assert_eq!(unnoticed.toast, None);
}
