//! What the popup and the settings ask the tray to do, and how the popup's refresh button
//! looks.

use vstd::prelude::*;
use std::collections::BTreeSet;
use crate::i18n::{Lang, Msg, text};
use crate::notify::Milestone;
use crate::panel::PanelMode;
use crate::payload::{Account, PanelLimit, ValueMode};
use crate::sections::Section;

verus! {

/// The spend period a card shows.
#[derive(Debug, Clone, Copy, PartialEq, Eq, Structural)]
pub enum SpendPeriod {
    Today,
    Yesterday,
    Month,
}

/// The unit spend is shown in.
#[derive(Debug, Clone, Copy, PartialEq, Eq, Structural)]
pub enum SpendUnit {
    Cost,
    Tokens,
}

/// What the spend breakdown lists.
#[derive(Debug, Clone, Copy, PartialEq, Eq, Structural)]
pub enum SpendBreakdown {
    Models,
    Projects,
}

/// What a share or copy covers: one account, or the combined card of a provider.
#[derive(Debug, Clone, PartialEq, Eq)]
pub enum ShareTarget {
    Account(String),
    Combined(String),
}

/// An action the popup asks the tray to carry out.
#[derive(Debug, Clone, PartialEq, Eq)]
pub enum Action {
    RefreshNow,
    Refresh(String),
    Retry(String),
    ToggleValueMode,
    ToggleResetFormat,
    SelectPeriod(SpendPeriod),
    SelectUnit(SpendUnit),
    SelectBreakdown(SpendBreakdown),
    SetMoreExpanded(bool),
    HideAccounts(Vec<String>),
    SetStarred(Vec<String>, bool),
    Share(ShareTarget),
    CopySummary(ShareTarget),
    SetExpanded(String, bool),
    StartService,
    InstallUpdate,
    ToggleUpdateCommand,
    Copy(String),
    OpenUrl(String),
    SignIn(String),
    SignInAgain(String),
    CopyCommand { account_id: String, command: String },
    OpenSettings,
    Quit,
}

/// A change of one setting. Settings whose value types belong to the settings model (theme,
/// language, time and reset formats, density, headline, panel indicator and label, quiet
/// hours, log level, hidden windows) are not among them.
#[derive(Debug, Clone, PartialEq, Eq)]
pub enum Change {
    ValueMode(ValueMode),
    ReducedMotion(bool),
    CombineAccounts(bool),
    Section(Section, bool),
    RefreshInterval(u32),
    AdaptiveRefresh(bool),
    PanelMode(PanelMode),
    PanelLimits(Vec<PanelLimit>),
    SpendPeriod(SpendPeriod),
    SpendUnit(SpendUnit),
    ShowBreakdown(bool),
    SpendBreakdown(SpendBreakdown),
    ThresholdPercent(u8),
    ProviderThreshold { provider: String, threshold: Option<u8> },
    Notify(Milestone, bool),
    CheckUpdates(bool),
    StatusPages(bool),
    StarredAccounts(Vec<String>),
    CollapseUnstarred(bool),
    Shortcut(String),
    OnboardingCompleted(bool),
}

/// An action the settings ask the tray to carry out.
#[derive(Debug, Clone, PartialEq, Eq)]
pub enum PrefsAction {
    Change(Change),
    SetLabel { account_id: String, label: String },
    SetHidden { account_id: String, hidden: bool },
    SetOrder(Vec<String>),
    Remove(Box<Account>),
    Restore(String),
    StartService,
    RestartService,
    InstallUpdate,
    OpenUrl(String),
    CheckForUpdates,
    CopyDiagnostics,
    ResetSettings,
}

/// The state of a manual refresh.
#[derive(Debug, Clone, Copy, PartialEq, Eq, Structural)]
pub enum RefreshMode {
    Idle,
    Busy,
    Failed,
}

impl Default for RefreshMode {
    fn default() -> (m: Self)
        ensures
            m == RefreshMode::Idle,
    {
        RefreshMode::Idle
    }
}

/// The popup's state for one session, as far as it is plain values: which sections are open,
/// what is in progress, and what was just copied.
#[derive(Debug, Clone)]
pub struct UiState {
    /// The list of further accounts is open.
    pub more_expanded: bool,
    /// The accounts whose details are open.
    pub expanded: BTreeSet<String>,
    /// The state of a manual refresh.
    pub refresh: RefreshMode,
    /// The update command is shown.
    pub update_command_open: bool,
    /// The summary was just copied.
    pub copied: bool,
    /// The service is being started.
    pub service_starting: bool,
    /// Why the service could not be started, when it could not.
    pub service_error: Option<String>,
    /// The accounts whose fetch is being retried.
    pub retrying: BTreeSet<String>,
    /// The command that was just copied.
    pub copied_command: Option<String>,
}

impl Default for UiState {
    fn default() -> (s: Self)
        ensures
            !s.more_expanded,
            s.expanded@ == Set::<String>::empty(),
            s.refresh == RefreshMode::Idle,
            !s.update_command_open,
            !s.copied,
            !s.service_starting,
            s.service_error is None,
            s.retrying@ == Set::<String>::empty(),
            s.copied_command is None,
    {
        UiState {
            more_expanded: false,
            expanded: BTreeSet::new(),
            refresh: RefreshMode::Idle,
            update_command_open: false,
            copied: false,
            service_starting: false,
            service_error: None,
            retrying: BTreeSet::new(),
            copied_command: None,
        }
    }
}

/// How the refresh button looks.
#[derive(Debug, Clone, Copy, PartialEq, Eq)]
pub struct RefreshLook {
    /// The spinner turns in place of the icon.
    pub spinning: bool,
    /// The button carries the busy style.
    pub busy: bool,
    /// The button carries the failed style.
    pub failed: bool,
    /// The button is drawn faded: busy, with no spinner to show it.
    pub dimmed: bool,
    /// The tooltip.
    pub tip: &'static str,
}

/// The same share target.
pub open spec fn same_target(a: ShareTarget, b: ShareTarget) -> bool {
    match (a, b) {
        (ShareTarget::Account(x), ShareTarget::Account(y)) => x@ == y@,
        (ShareTarget::Combined(x), ShareTarget::Combined(y)) => x@ == y@,
        _ => false,
    }
}

impl ShareTarget {
    /// A copy of the target.
    pub fn copied(&self) -> (r: ShareTarget)
        ensures
            r == *self,
    {
        match self {
            ShareTarget::Account(id) => ShareTarget::Account(id.clone()),
            ShareTarget::Combined(provider) => ShareTarget::Combined(provider.clone()),
        }
    }
}

/// How the refresh button looks: it spins only while busy and when motion is on, it is
/// styled busy or failed by the mode, it fades while busy without motion, and its tooltip
/// says when the last refresh failed.
pub fn refresh_look(lang: Lang, mode: RefreshMode, motion: bool) -> (look: RefreshLook)
    ensures
        look.spinning == (mode == RefreshMode::Busy && motion),
        look.busy == (mode == RefreshMode::Busy),
        look.failed == (mode == RefreshMode::Failed),
        look.dimmed == (mode == RefreshMode::Busy && !motion),
        look.tip@ == text(
            lang,
            if mode == RefreshMode::Failed { Msg::RefreshFailed } else { Msg::Refresh },
        ),
{
    let busy = mode == RefreshMode::Busy;
    let failed = mode == RefreshMode::Failed;
    RefreshLook {
        spinning: busy && motion,
        busy,
        failed,
        dimmed: busy && !motion,
        tip: if failed { lang.tr(Msg::RefreshFailed) } else { lang.tr(Msg::Refresh) },
    }
}

} // verus!
