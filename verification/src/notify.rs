//! The alerts of the notification settings: their texts, whether each is on, and what the
//! settings page shows for a service that can or cannot tune them.

use vstd::prelude::*;
use crate::i18n::{Lang, Msg, text};
use crate::payload::{DEFAULT_THRESHOLD, Notifications};
use crate::picks::almost_out_subtitle;
use crate::text::{decimal, fill_spec};

verus! {

/// An alert the tray can raise.
#[derive(Debug, Clone, Copy, PartialEq, Eq, Structural)]
pub enum Milestone {
    /// A limit drops under the threshold.
    AlmostOut,
    /// The pace says a limit will barely last until it resets.
    CuttingItClose,
    /// The pace says a limit runs out before it resets.
    WillRunOut,
    /// A limit that was running low resets.
    Reset,
}

/// The alerts, in the order the settings list them.
pub open spec fn milestones() -> Seq<Milestone> {
    seq![Milestone::AlmostOut, Milestone::CuttingItClose, Milestone::WillRunOut, Milestone::Reset]
}

/// The title and the description of an alert; the first alert's description is written
/// from the threshold instead.
pub open spec fn texts_spec(lang: Lang, milestone: Milestone) -> (Seq<char>, Seq<char>) {
    match milestone {
        Milestone::AlmostOut => (text(lang, Msg::AlmostOut), Seq::empty()),
        Milestone::CuttingItClose => (
            text(lang, Msg::CuttingItClose),
            text(lang, Msg::CuttingItCloseDetail),
        ),
        Milestone::WillRunOut => (text(lang, Msg::WillRunOut), text(lang, Msg::WillRunOutDetail)),
        Milestone::Reset => (text(lang, Msg::LimitReset), text(lang, Msg::LimitResetDetail)),
    }
}

/// Whether the user turned the alert on.
pub open spec fn enabled_spec(notifications: Notifications, milestone: Milestone) -> bool {
    match milestone {
        Milestone::AlmostOut => notifications.almost_out,
        Milestone::CuttingItClose => notifications.cutting_it_close,
        Milestone::WillRunOut => notifications.will_run_out,
        Milestone::Reset => notifications.reset,
    }
}

/// The threshold the first alert is described with: the user's, when the service can
/// change it, and the default otherwise.
pub open spec fn shown_threshold(notifications: Notifications, capable: bool) -> u8 {
    if capable {
        notifications.threshold_percent
    } else {
        DEFAULT_THRESHOLD
    }
}

/// The title and the description of an alert.
pub fn texts(lang: Lang, milestone: Milestone) -> (r: (&'static str, &'static str))
    ensures
        r.0@ == texts_spec(lang, milestone).0,
        r.1@ == texts_spec(lang, milestone).1,
{
    match milestone {
        Milestone::AlmostOut => {
            let none = "";
            proof {
                reveal_strlit("");
            }
            (lang.tr(Msg::AlmostOut), none)
        },
        Milestone::CuttingItClose => (
            lang.tr(Msg::CuttingItClose),
            lang.tr(Msg::CuttingItCloseDetail),
        ),
        Milestone::WillRunOut => (lang.tr(Msg::WillRunOut), lang.tr(Msg::WillRunOutDetail)),
        Milestone::Reset => (lang.tr(Msg::LimitReset), lang.tr(Msg::LimitResetDetail)),
    }
}

/// Whether the user turned the alert on.
pub fn enabled(notifications: &Notifications, milestone: Milestone) -> (on: bool)
    ensures
        on == enabled_spec(*notifications, milestone),
{
    match milestone {
        Milestone::AlmostOut => notifications.almost_out,
        Milestone::CuttingItClose => notifications.cutting_it_close,
        Milestone::WillRunOut => notifications.will_run_out,
        Milestone::Reset => notifications.reset,
    }
}

/// What the notification settings show.
#[derive(Debug, Clone, PartialEq, Eq)]
pub struct NotifyLook {
    /// Each alert with whether it is on, in the order of the list.
    pub switches: Vec<(Milestone, bool)>,
    /// The description of the first alert.
    pub almost_out_subtitle: String,
    /// The threshold and quiet hours groups are shown.
    pub advanced: bool,
}

/// What the notification settings show for the user's settings: every alert's switch, the
/// first alert described with the threshold in force, and the threshold and quiet hours
/// groups only when the service can change them.
pub fn notify_look(lang: Lang, notifications: &Notifications, capable: bool) -> (look: NotifyLook)
    ensures
        look.switches@.len() == milestones().len(),
        forall|i: int|
            0 <= i < milestones().len() ==> #[trigger] look.switches@[i] == (
                milestones()[i],
                enabled_spec(*notifications, milestones()[i]),
            ),
        look.almost_out_subtitle@ == fill_spec(
            text(lang, Msg::AlmostOutUnder),
            seq![("percent"@, decimal(shown_threshold(*notifications, capable) as nat))],
        ),
        look.advanced == capable,
{
    let mut switches: Vec<(Milestone, bool)> = Vec::new();
    switches.push((Milestone::AlmostOut, enabled(notifications, Milestone::AlmostOut)));
    switches.push((Milestone::CuttingItClose, enabled(notifications, Milestone::CuttingItClose)));
    switches.push((Milestone::WillRunOut, enabled(notifications, Milestone::WillRunOut)));
    switches.push((Milestone::Reset, enabled(notifications, Milestone::Reset)));
    let threshold = if capable {
        notifications.threshold_percent
    } else {
        DEFAULT_THRESHOLD
    };
    NotifyLook { switches, almost_out_subtitle: almost_out_subtitle(lang, threshold), advanced: capable }
}

} // verus!
