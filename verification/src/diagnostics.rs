//! The diagnostics report of the service, and where its log file lies.

use vstd::prelude::*;
use crate::shortcut::starts_with;
use crate::i18n::{Lang, Msg, text};
use crate::text::same_text;

verus! {

/// The diagnostics report: its text, and the log file when the service names one.
#[derive(Debug, Clone, PartialEq, Eq)]
pub struct Diagnostics {
    pub text: String,
    pub log_file: Option<String>,
}

/// `rest` joined onto `base` as a path: an absolute `rest` stands alone, an empty base gives
/// `rest`, and otherwise one `/` separates them.
pub open spec fn join_path(base: Seq<char>, rest: Seq<char>) -> Seq<char> {
    if rest.len() > 0 && rest[0] == '/' {
        rest
    } else if base.len() == 0 {
        rest
    } else if base.last() == '/' {
        base + rest
    } else {
        base + seq!['/'] + rest
    }
}

/// The path with a leading `~/`, or a lone `~`, read as the home directory.
pub open spec fn expand_home_spec(path: Seq<char>, home: Seq<char>) -> Seq<char> {
    if starts_with(path, "~/"@) {
        join_path(home, path.skip(2))
    } else if path == "~"@ {
        home
    } else {
        path
    }
}

/// Only a leading tilde is expanded: a path that does not begin with `~` comes back as it is,
/// whatever the home directory.
pub proof fn lemma_expand_only_leading_tilde(path: Seq<char>, home: Seq<char>)
    requires
        path.len() == 0 || path[0] != '~',
    ensures
        expand_home_spec(path, home) == path,
{
    reveal_strlit("~/");
    reveal_strlit("~");
    if starts_with(path, "~/"@) {
        assert(path.take(2)[0] == path[0]);
    }
}

fn join_onto(base: &str, rest: &str) -> (s: String)
    ensures
        s@ == join_path(base@, rest@),
{
    let (blen, rlen) = (base.unicode_len(), rest.unicode_len());
    if rlen > 0 && rest.get_char(0) == '/' {
        rest.to_owned()
    } else if blen == 0 {
        rest.to_owned()
    } else if base.get_char(blen - 1) == '/' {
        base.to_owned().concat(rest)
    } else {
        let s = base.to_owned().concat("/").concat(rest);
        proof {
            reveal_strlit("/");
        }
        assert(s@ =~= base@ + seq!['/'] + rest@);
        s
    }
}

/// The path with a leading `~/` or a lone `~` expanded to `home`; any other path, `~user/…`
/// among them, is kept as it is.
pub fn expand_home(path: &str, home: &str) -> (s: String)
    ensures
        s@ == expand_home_spec(path@, home@),
{
    let len = path.unicode_len();
    if len >= 2 && path.get_char(0) == '~' && path.get_char(1) == '/' {
        proof {
            reveal_strlit("~/");
        }
        assert(path@.take(2) =~= "~/"@);
        let rest = path.substring_char(2, len);
        assert(rest@ =~= path@.skip(2));
        join_onto(home, rest)
    } else {
        proof {
            reveal_strlit("~/");
            reveal_strlit("~");
            if starts_with(path@, "~/"@) {
                assert(path@.take(2)[0] == path@[0]);
                assert(path@.take(2)[1] == path@[1]);
                assert(path@[0] == '~' && path@[1] == '/');
            }
        }
        if same_text(path, "~") {
            home.to_owned()
        } else {
            path.to_owned()
        }
    }
}

/// What the settings do with a diagnostics report that arrived, or failed to.
#[derive(Debug, Clone, PartialEq, Eq)]
pub struct DiagnosticsOutcome {
    /// The log file to remember and show, when the report arrived.
    pub log_file: Option<Option<String>>,
    /// The text to put on the clipboard.
    pub clipboard: Option<String>,
    /// The message to show as a toast.
    pub toast: Option<String>,
}

/// What the settings do with a report: an arrived report always updates the log file, and,
/// when the user asked to copy it, goes to the clipboard with a toast that says so; a report
/// that could not be had is shown as a toast only when the user asked to copy it.
pub fn diagnostics_outcome(lang: Lang, copy: bool, result: Result<Diagnostics, String>) -> (out: DiagnosticsOutcome)
    ensures
        match result {
            Ok(d) => {
                &&& out.log_file matches Some(f) && match (f, d.log_file) {
                    (Some(a), Some(b)) => a@ == b@,
                    (None, None) => true,
                    _ => false,
                }
                &&& if copy {
                    &&& out.clipboard matches Some(c) && c@ == d.text@
                    &&& out.toast matches Some(t) && t@ == text(lang, Msg::DiagnosticsCopied)
                } else {
                    out.clipboard is None && out.toast is None
                }
            },
            Err(message) => {
                &&& out.log_file is None
                &&& out.clipboard is None
                &&& if copy {
                    out.toast matches Some(t) && t@ == message@
                } else {
                    out.toast is None
                }
            },
        },
{
    match result {
        Ok(diagnostics) => {
            if copy {
                DiagnosticsOutcome {
                    log_file: Some(diagnostics.log_file),
                    clipboard: Some(diagnostics.text),
                    toast: Some(lang.tr(Msg::DiagnosticsCopied).to_owned()),
                }
            } else {
                DiagnosticsOutcome {
                    log_file: Some(diagnostics.log_file),
                    clipboard: None,
                    toast: None,
                }
            }
        },
        Err(message) => {
            if copy {
                DiagnosticsOutcome { log_file: None, clipboard: None, toast: Some(message) }
            } else {
                DiagnosticsOutcome { log_file: None, clipboard: None, toast: None }
            }
        },
    }
}

} // verus!
