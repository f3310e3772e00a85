//! The update row of the About page: what it says about the newest release, and which of its
//! spinner and buttons show.

use vstd::prelude::*;
use crate::i18n::{Lang, Msg, text};

verus! {

/// What the tray can do about a newer release.
#[derive(Debug, Clone, Copy, PartialEq, Eq, Structural)]
pub enum UpdateAction {
    /// Install it in place.
    Install,
    /// Copy the command that installs it.
    Command,
    /// Open its release notes.
    Notes,
}

/// Where an installation stands.
#[derive(Debug, Clone, PartialEq, Eq)]
pub enum UpdateRun {
    Idle,
    /// Installing; the step under way.
    Running(String),
    /// The installation failed; why.
    Failed(String),
}

/// What is known of the newest release, as the update helpers describe it.
#[derive(Debug, Clone, PartialEq, Eq)]
pub struct ReleaseFacts {
    /// What the tray can do about it, if anything.
    pub action: Option<UpdateAction>,
    /// The row's title for it.
    pub title: String,
    /// The command that installs it.
    pub command: String,
    /// It has a "what's new" page.
    pub has_whats_new: bool,
    /// The name of its action.
    pub action_label: String,
}

/// The update row.
#[derive(Debug, Clone, PartialEq, Eq)]
pub struct ReleaseRow {
    pub title: String,
    pub subtitle: String,
    /// The spinner shows and turns.
    pub spinner: bool,
    /// The "what's new" button shows.
    pub whats_new: bool,
    /// The action button shows.
    pub action: bool,
    /// The action button's label, when there is an action.
    pub action_label: Option<String>,
    /// The action button carries the suggested style.
    pub suggested: bool,
}

/// The run that counts for the row: the installation's own for an installable release, and
/// an idle one for any other.
pub open spec fn effective_run(action: Option<UpdateAction>, run: UpdateRun) -> UpdateRun {
    if action == Some(UpdateAction::Install) {
        run
    } else {
        UpdateRun::Idle
    }
}

/// The row's subtitle for a release: the line of the run that counts, else the install
/// command when the action is to copy it, else nothing. An idle run has no line, so
/// `run_line`, the line of the installation's run, counts only for an installable release
/// whose installation is running or failed.
pub open spec fn release_subtitle(facts: ReleaseFacts, run: UpdateRun, run_line: Option<Seq<char>>) -> Seq<char> {
    match (if facts.action == Some(UpdateAction::Install) && !(run is Idle) {
        run_line
    } else {
        None
    }) {
        Some(line) => line,
        None => if facts.action == Some(UpdateAction::Command) {
            facts.command@
        } else {
            Seq::empty()
        },
    }
}

/// The update row. Without a known release it reads "Updates" with a subtitle that says
/// whether updates are checked, and shows neither spinner nor buttons. With one, it shows
/// the release's title and subtitle, the spinner while the run that counts is running, the
/// "what's new" button while that run is idle and there is such a page, and the action
/// button when there is an action and the run is idle or failed, labelled "Retry" after a
/// failure, "Copy" for a command, else by the action, and suggested for an installation that
/// has not failed.
pub open spec fn release_row_spec(
    lang: Lang,
    release: Option<ReleaseFacts>,
    checking: bool,
    run: UpdateRun,
    run_line: Option<Seq<char>>,
    row: ReleaseRow,
) -> bool {
    match release {
        None => {
            &&& row.title@ == text(lang, Msg::Updates)
            &&& row.subtitle@ == text(
                lang,
                if checking { Msg::NoNewerRelease } else { Msg::UpdateChecksOff },
            )
            &&& !row.spinner && !row.whats_new && !row.action
            &&& row.action_label is None
            &&& !row.suggested
        },
        Some(facts) => {
            let r = effective_run(facts.action, run);
            let failed = r is Failed;
            &&& row.title@ == facts.title@
            &&& row.subtitle@ == release_subtitle(facts, run, run_line)
            &&& row.spinner == r is Running
            &&& row.whats_new == (r is Idle && facts.has_whats_new)
            &&& row.action == (facts.action is Some && (r is Idle || failed))
            &&& match facts.action {
                None => row.action_label is None && !row.suggested,
                Some(a) => {
                    &&& row.action_label matches Some(l) && l@ == if failed {
                        text(lang, Msg::Retry)
                    } else if a == UpdateAction::Command {
                        text(lang, Msg::Copy)
                    } else {
                        facts.action_label@
                    }
                    &&& row.suggested == (a == UpdateAction::Install && !failed)
                },
            }
        },
    }
}

/// The update row of the About page, from what is known of the newest release, whether
/// updates are checked, where an installation stands, and that installation's line (which
/// counts only while it runs or after it failed).
pub fn release_row(
    lang: Lang,
    release: Option<&ReleaseFacts>,
    checking: bool,
    run: &UpdateRun,
    run_line: Option<&str>,
) -> (row: ReleaseRow)
    ensures
        release_row_spec(
            lang,
            match release {
                Some(f) => Some(*f),
                None => None,
            },
            checking,
            *run,
            match run_line {
                Some(l) => Some(l@),
                None => None,
            },
            row,
        ),
        release matches Some(f) ==> row.action == (f.action is Some && (f.action != Some(
            UpdateAction::Install,
        ) || *run is Idle || *run is Failed)),
        release is None ==> !row.action && !row.spinner && !row.whats_new,
        release matches Some(f) ==> row.spinner == (f.action == Some(UpdateAction::Install)
            && *run is Running),
        release matches Some(f) ==> row.whats_new == (f.has_whats_new && (f.action != Some(
            UpdateAction::Install,
        ) || *run is Idle)),
        release matches Some(f) ==> row.title@ == f.title@,
{
    let facts = match release {
        None => {
            let subtitle = if checking {
                lang.tr(Msg::NoNewerRelease)
            } else {
                lang.tr(Msg::UpdateChecksOff)
            };
            return ReleaseRow {
                title: lang.tr(Msg::Updates).to_owned(),
                subtitle: subtitle.to_owned(),
                spinner: false,
                whats_new: false,
                action: false,
                action_label: None,
                suggested: false,
            };
        },
        Some(facts) => facts,
    };
    let installable = match facts.action {
        Some(UpdateAction::Install) => true,
        _ => false,
    };
    let (idle, running, failed) = if installable {
        match run {
            UpdateRun::Idle => (true, false, false),
            UpdateRun::Running(_) => (false, true, false),
            UpdateRun::Failed(_) => (false, false, true),
        }
    } else {
        (true, false, false)
    };
    let subtitle = match run_line {
        Some(line) if installable && !idle => line.to_owned(),
        _ => match facts.action {
            Some(UpdateAction::Command) => facts.command.clone(),
            _ => String::new(),
        },
    };
    let (action_label, suggested) = match facts.action {
        None => (None, false),
        Some(a) => {
            let label = if failed {
                lang.tr(Msg::Retry).to_owned()
            } else {
                match a {
                    UpdateAction::Command => lang.tr(Msg::Copy).to_owned(),
                    _ => facts.action_label.clone(),
                }
            };
            (Some(label), installable && !failed)
        },
    };
    ReleaseRow {
        title: facts.title.clone(),
        subtitle,
        spinner: running,
        whats_new: idle && facts.has_whats_new,
        action: facts.action.is_some() && (idle || failed),
        action_label,
        suggested,
    }
}

/// The action button shows exactly when the release has an action of any kind and the
/// installation does not hold it back: only an installable release waits for its running
/// installation, and a failed one offers its action again.
pub proof fn lemma_action_button(
    lang: Lang,
    facts: ReleaseFacts,
    checking: bool,
    run: UpdateRun,
    run_line: Option<Seq<char>>,
    row: ReleaseRow,
)
    requires
        release_row_spec(lang, Some(facts), checking, run, run_line, row),
    ensures
        row.action == (facts.action is Some && (facts.action != Some(UpdateAction::Install)
            || run is Idle || run is Failed)),
        facts.action is Some && !(run is Running) ==> row.action,
{
}

} // verus!
