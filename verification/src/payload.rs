//! What the Headroom service reports: accounts, their limit windows, usage homes, the
//! display settings, and the notification settings.

use vstd::prelude::*;

verus! {

/// The sign-in state of an account.
#[derive(Debug, Clone, Copy, PartialEq, Eq, Structural)]
pub enum Status {
    Current,
    Failing,
    SignedOut,
}

/// Whether readings show what is left or what is used.
#[derive(Debug, Clone, Copy, PartialEq, Eq, Structural)]
pub enum ValueMode {
    Left,
    Used,
}

/// One limit window of an account, with the whole percent that is left of it.
#[derive(Debug, Clone, PartialEq, Eq)]
pub struct Window {
    pub id: String,
    pub label: String,
    pub remaining_percent: u8,
}

/// A tracked account.
#[derive(Debug, Clone, PartialEq, Eq)]
pub struct Account {
    pub id: String,
    pub provider: String,
    pub provider_name: String,
    pub label: Option<String>,
    pub email: Option<String>,
    pub plan: Option<String>,
    pub status: Status,
    pub hidden: bool,
    /// The popup folds the account under "more".
    pub collapsed: bool,
    pub windows: Vec<Window>,
}

/// Local usage logs found for a provider.
#[derive(Debug, Clone, PartialEq, Eq)]
pub struct Usage {
    pub provider: String,
}

/// A limit pinned to the tray icon: one window of one account.
#[derive(Debug, Clone, PartialEq, Eq)]
pub struct PanelLimit {
    pub account_id: String,
    pub window: String,
}

/// A window the user hid from the popup, the tray and notifications.
#[derive(Debug, Clone, PartialEq, Eq)]
pub struct HiddenWindow {
    pub account_id: String,
    pub window: String,
}

/// The display settings the service reports.
#[derive(Debug, Clone, PartialEq, Eq)]
pub struct Display {
    pub panel_limits: Vec<PanelLimit>,
    pub hidden_windows: Vec<HiddenWindow>,
    /// The popup opens with the spend card.
    pub show_spend: bool,
    /// Each account shows its own spend.
    pub show_account_spend: bool,
    /// Accounts show their usage trend.
    pub show_trend: bool,
    /// Limits show where the current pace takes them.
    pub show_forecast: bool,
}

/// Accounts of one provider that the popup shows as one combined card.
#[derive(Debug, Clone, PartialEq, Eq)]
pub struct CombinedGroup {
    pub account_ids: Vec<String>,
    /// The popup folds the card under "more".
    pub collapsed: bool,
}

/// A state snapshot from the service. `panel_items` is present only from services that
/// speak the 0.6 protocol.
#[derive(Debug, Clone, PartialEq, Eq)]
pub struct State {
    pub accounts: Vec<Account>,
    pub usage: Vec<Usage>,
    pub display: Display,
    pub panel_items: Option<Vec<PanelLimit>>,
    pub combined: Vec<CombinedGroup>,
}

/// The first-run flow's progress.
#[derive(Debug, Clone, Copy, PartialEq, Eq, Structural)]
pub struct Onboarding {
    pub completed: bool,
}

/// The service settings the tray reads.
#[derive(Debug, Clone, Copy, PartialEq, Eq, Structural)]
pub struct Settings {
    pub onboarding: Onboarding,
}

/// A provider whose alert threshold differs from the general one.
#[derive(Debug, Clone, PartialEq, Eq)]
pub struct ProviderThreshold {
    pub provider: String,
    pub percent: u8,
}

/// The general alert threshold, in percent left, of a service that cannot change it.
pub const DEFAULT_THRESHOLD: u8 = 10;

/// The notification settings: which alerts are on, the general threshold, and the providers
/// whose threshold differs from it.
#[derive(Debug, Clone, PartialEq, Eq)]
pub struct Notifications {
    pub almost_out: bool,
    pub cutting_it_close: bool,
    pub will_run_out: bool,
    pub reset: bool,
    pub threshold_percent: u8,
    pub provider_thresholds: Vec<ProviderThreshold>,
}

/// Whether the window is one the user hid.
pub open spec fn window_hidden(display: Display, account_id: Seq<char>, window: Seq<char>) -> bool {
    exists|k: int|
        0 <= k < display.hidden_windows@.len() && #[trigger] display.hidden_windows@[k].account_id@
            == account_id && display.hidden_windows@[k].window@ == window
}

/// Whether no provider has two overrides, as in a map from provider to threshold.
pub open spec fn distinct_providers(entries: Seq<ProviderThreshold>) -> bool {
    forall|i: int, j: int|
        0 <= i < j < entries.len() ==> #[trigger] entries[i].provider@ != #[trigger] entries[j].provider@
}

/// The override of a provider: the first entry that names it.
pub open spec fn threshold_in(entries: Seq<ProviderThreshold>, provider: Seq<char>) -> Option<u8>
    decreases entries.len(),
{
    if entries.len() == 0 {
        None
    } else if entries[0].provider@ == provider {
        Some(entries[0].percent)
    } else {
        threshold_in(entries.drop_first(), provider)
    }
}

/// The equal views of two limits.
pub open spec fn same_limit(a: PanelLimit, b: PanelLimit) -> bool {
    a.account_id@ == b.account_id@ && a.window@ == b.window@
}

impl State {
    /// Whether the service speaks the 0.6 protocol.
    pub fn speaks_0_6(&self) -> (r: bool)
        ensures
            r == self.panel_items is Some,
    {
        self.panel_items.is_some()
    }
}

impl Default for Settings {
    fn default() -> (s: Self)
        ensures
            !s.onboarding.completed,
    {
        Settings { onboarding: Onboarding { completed: false } }
    }
}

impl Default for Notifications {
    fn default() -> (n: Self)
        ensures
            n.almost_out && n.cutting_it_close && n.will_run_out && n.reset,
            n.threshold_percent == DEFAULT_THRESHOLD,
            n.provider_thresholds@.len() == 0,
            n.wf(),
    {
        Notifications {
            almost_out: true,
            cutting_it_close: true,
            will_run_out: true,
            reset: true,
            threshold_percent: DEFAULT_THRESHOLD,
            provider_thresholds: Vec::new(),
        }
    }
}

impl PanelLimit {
    /// Whether both limits name the same window of the same account.
    pub fn same(&self, other: &PanelLimit) -> (r: bool)
        ensures
            r == same_limit(*self, *other),
    {
        self.account_id == other.account_id && self.window == other.window
    }

    /// A copy of the limit.
    pub fn copied(&self) -> (r: PanelLimit)
        ensures
            r == *self,
    {
        PanelLimit { account_id: self.account_id.clone(), window: self.window.clone() }
    }
}

impl Display {
    /// Whether the user hid this window of this account.
    pub fn is_window_hidden(&self, account_id: &String, window: &String) -> (r: bool)
        ensures
            r == window_hidden(*self, account_id@, window@),
    {
        let mut k: usize = 0;
        while k < self.hidden_windows.len()
            invariant
                k <= self.hidden_windows@.len(),
                forall|m: int|
                    0 <= m < k ==> !(#[trigger] self.hidden_windows@[m].account_id@ == account_id@
                        && self.hidden_windows@[m].window@ == window@),
            decreases self.hidden_windows.len() - k,
        {
            let entry = &self.hidden_windows[k];
            if entry.account_id == *account_id && entry.window == *window {
                return true;
            }
            k = k + 1;
        }
        false
    }
}

impl Notifications {
    /// Well-formed settings name each provider at most once among the overrides.
    pub open spec fn wf(&self) -> bool {
        distinct_providers(self.provider_thresholds@)
    }

    /// The override of `provider`, if it has one.
    pub fn threshold_of(&self, provider: &String) -> (r: Option<u8>)
        ensures
            r == threshold_in(self.provider_thresholds@, provider@),
    {
        let ghost all = self.provider_thresholds@;
        let mut k: usize = 0;
        assert(all.skip(0) =~= all);
        while k < self.provider_thresholds.len()
            invariant
                k <= all.len(),
                all == self.provider_thresholds@,
                threshold_in(all, provider@) == threshold_in(all.skip(k as int), provider@),
            decreases all.len() - k,
        {
            assert(all.skip(k as int).drop_first() =~= all.skip(k + 1));
            if self.provider_thresholds[k].provider == *provider {
                return Some(self.provider_thresholds[k].percent);
            }
            k = k + 1;
        }
        assert(all.skip(k as int) =~= Seq::<ProviderThreshold>::empty());
        None
    }

    /// Whether `provider` has an override.
    pub fn has_threshold(&self, provider: &String) -> (r: bool)
        ensures
            r == threshold_in(self.provider_thresholds@, provider@) is Some,
    {
        self.threshold_of(provider).is_some()
    }

    /// Gives `provider` the override `percent`, replacing the one it had; nothing else
    /// changes.
    pub fn set_threshold(&mut self, provider: String, percent: u8)
        ensures
            final(self).threshold_percent == old(self).threshold_percent,
            final(self).almost_out == old(self).almost_out,
            final(self).cutting_it_close == old(self).cutting_it_close,
            final(self).will_run_out == old(self).will_run_out,
            final(self).reset == old(self).reset,
            old(self).wf() ==> final(self).wf(),
            threshold_in(final(self).provider_thresholds@, provider@) == Some(percent),
            forall|other: Seq<char>|
                other != provider@ ==> threshold_in(final(self).provider_thresholds@, other)
                    == threshold_in(old(self).provider_thresholds@, other),
    {
        let ghost before = self.provider_thresholds@;
        let mut k: usize = 0;
        while k < self.provider_thresholds.len()
            invariant
                k <= before.len(),
                self.provider_thresholds@ == before,
                before == old(self).provider_thresholds@,
                self.threshold_percent == old(self).threshold_percent,
                self.almost_out == old(self).almost_out,
                self.cutting_it_close == old(self).cutting_it_close,
                self.will_run_out == old(self).will_run_out,
                self.reset == old(self).reset,
                forall|m: int| 0 <= m < k ==> #[trigger] before[m].provider@ != provider@,
            decreases before.len() - k,
        {
            if self.provider_thresholds[k].provider == provider {
                let entry = ProviderThreshold { provider, percent };
                proof {
                    lemma_threshold_after_set(before, k as int, entry);
                }
                self.provider_thresholds.set(k, entry);
                proof {
                    if old(self).wf() {
                        let after = self.provider_thresholds@;
                        assert forall|i: int, j: int| 0 <= i < j < after.len() implies #[trigger] after[i].provider@
                            != #[trigger] after[j].provider@ by {
                            assert(before[i].provider@ != before[j].provider@);
                        }
                    }
                }
                return;
            }
            k = k + 1;
        }
        let entry = ProviderThreshold { provider, percent };
        proof {
            lemma_threshold_after_push(before, entry);
        }
        self.provider_thresholds.push(entry);
        proof {
            if old(self).wf() {
                let after = self.provider_thresholds@;
                assert forall|i: int, j: int| 0 <= i < j < after.len() implies #[trigger] after[i].provider@
                    != #[trigger] after[j].provider@ by {
                    if j < before.len() {
                        assert(before[i].provider@ != before[j].provider@);
                    } else {
                        assert(after[j].provider@ == provider@);
                        assert(after[i] == before[i]);
                    }
                }
            }
        }
    }
}

proof fn lemma_threshold_after_set(entries: Seq<ProviderThreshold>, pos: int, e: ProviderThreshold)
    requires
        0 <= pos < entries.len(),
        entries[pos].provider@ == e.provider@,
        forall|m: int| 0 <= m < pos ==> #[trigger] entries[m].provider@ != e.provider@,
    ensures
        threshold_in(entries.update(pos, e), e.provider@) == Some(e.percent),
        forall|other: Seq<char>|
            other != e.provider@ ==> threshold_in(entries.update(pos, e), other) == threshold_in(
                entries,
                other,
            ),
    decreases pos,
{
    if pos > 0 {
        assert(entries[0].provider@ != e.provider@);
        lemma_threshold_after_set(entries.drop_first(), pos - 1, e);
        assert(entries.update(pos, e).drop_first() =~= entries.drop_first().update(pos - 1, e));
        assert forall|other: Seq<char>| other != e.provider@ implies threshold_in(
            entries.update(pos, e),
            other,
        ) == threshold_in(entries, other) by {
            let u = entries.update(pos, e);
            assert(u[0] == entries[0]);
            if entries[0].provider@ != other {
                assert(threshold_in(u, other) == threshold_in(u.drop_first(), other));
                assert(threshold_in(entries, other) == threshold_in(entries.drop_first(), other));
                assert(threshold_in(entries.drop_first().update(pos - 1, e), other)
                    == threshold_in(entries.drop_first(), other));
            }
        }
    } else {
        assert(entries.update(pos, e).drop_first() =~= entries.drop_first());
        assert forall|other: Seq<char>| other != e.provider@ implies threshold_in(
            entries.update(pos, e),
            other,
        ) == threshold_in(entries, other) by {
            assert(entries.update(pos, e)[0] == e);
        }
    }
}

proof fn lemma_threshold_after_push(entries: Seq<ProviderThreshold>, e: ProviderThreshold)
    requires
        forall|m: int| 0 <= m < entries.len() ==> #[trigger] entries[m].provider@ != e.provider@,
    ensures
        threshold_in(entries.push(e), e.provider@) == Some(e.percent),
        forall|other: Seq<char>|
            other != e.provider@ ==> threshold_in(entries.push(e), other) == threshold_in(
                entries,
                other,
            ),
    decreases entries.len(),
{
    if entries.len() > 0 {
        assert(entries[0].provider@ != e.provider@);
        lemma_threshold_after_push(entries.drop_first(), e);
        assert(entries.push(e).drop_first() =~= entries.drop_first().push(e));
        assert forall|other: Seq<char>| other != e.provider@ implies threshold_in(
            entries.push(e),
            other,
        ) == threshold_in(entries, other) by {
            let u = entries.push(e);
            assert(u[0] == entries[0]);
            if entries[0].provider@ != other {
                assert(threshold_in(u, other) == threshold_in(u.drop_first(), other));
                assert(threshold_in(entries, other) == threshold_in(entries.drop_first(), other));
                assert(threshold_in(entries.drop_first().push(e), other) == threshold_in(
                    entries.drop_first(),
                    other,
                ));
            }
        }
    } else {
        assert(entries.push(e).drop_first() =~= Seq::<ProviderThreshold>::empty());
        assert forall|other: Seq<char>| other != e.provider@ implies threshold_in(entries.push(e), other)
            == threshold_in(entries, other) by {
            assert(entries.push(e)[0] == e);
            assert(threshold_in(Seq::<ProviderThreshold>::empty(), other) is None);
        }
    }
}

} // verus!
