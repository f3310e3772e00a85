//! What the settings show about the Headroom service, and which pages they offer.

use vstd::prelude::*;
use crate::i18n::{Lang, Msg, text};
use crate::text::{dot_sep, join, join_strs};

verus! {

/// The state of the connection to the Headroom service.
#[derive(Debug, Clone, PartialEq, Eq)]
pub enum Service {
    Connecting,
    Stopped { starting: bool, error: Option<String> },
    Running,
}

/// The service row of the About page.
#[derive(Debug, Clone, PartialEq, Eq)]
pub struct ServiceRow {
    pub subtitle: String,
    pub starting: bool,
    pub stopped: bool,
}

/// The status page shown while the service is not reachable.
#[derive(Debug, Clone, PartialEq, Eq)]
pub struct ServiceNotice {
    pub title: &'static str,
    pub description: &'static str,
    pub busy: bool,
    pub error: Option<String>,
}

/// Which settings pages are shown.
#[derive(Debug, Clone, Copy, PartialEq, Eq, Structural)]
pub struct Shown {
    pub ready: bool,
    pub advanced: bool,
}

/// A settings page.
#[derive(Debug, Clone, Copy, PartialEq, Eq, Structural)]
pub enum Tab {
    General,
    Accounts,
    Notifications,
    Advanced,
    About,
    Service,
}

/// The service row: running (with the version when known), connecting, or stopped with the
/// error or "not running"; the spinner turns while connecting or starting, and the start
/// button shows while stopped and not starting.
pub open spec fn service_row_spec(lang: Lang, service: Service, version: Option<Seq<char>>, row: ServiceRow) -> bool {
    match service {
        Service::Running => {
            &&& row.subtitle@ == match version {
                Some(v) => text(lang, Msg::Running) + dot_sep() + v,
                None => text(lang, Msg::Running),
            }
            &&& !row.starting
            &&& !row.stopped
        },
        Service::Connecting => {
            &&& row.subtitle@ == text(lang, Msg::ConnectingEllipsis)
            &&& row.starting
            &&& !row.stopped
        },
        Service::Stopped { starting, error } => {
            &&& row.subtitle@ == match error {
                Some(e) => e@,
                None => text(lang, Msg::NotRunning),
            }
            &&& row.starting == starting
            &&& row.stopped == !starting
        },
    }
}

/// The service row of the About page.
pub fn service_row(lang: Lang, service: &Service, version: Option<&str>) -> (row: ServiceRow)
    ensures
        service_row_spec(
            lang,
            *service,
            match version {
                Some(v) => Some(v@),
                None => None,
            },
            row,
        ),
{
    match service {
        Service::Running => {
            let subtitle = match version {
                Some(v) => lang.tr(Msg::Running).to_owned().concat(" · ").concat(v),
                None => lang.tr(Msg::Running).to_owned(),
            };
            ServiceRow { subtitle, starting: false, stopped: false }
        },
        Service::Connecting => ServiceRow {
            subtitle: lang.tr(Msg::ConnectingEllipsis).to_owned(),
            starting: true,
            stopped: false,
        },
        Service::Stopped { starting, error } => ServiceRow {
            subtitle: match error {
                Some(e) => e.clone(),
                None => lang.tr(Msg::NotRunning).to_owned(),
            },
            starting: *starting,
            stopped: !*starting,
        },
    }
}

/// The status page while the service is connecting, running, or stopped.
pub fn service_notice(lang: Lang, service: &Service) -> (notice: ServiceNotice)
    ensures
        match *service {
            Service::Stopped { starting, error } => {
                &&& notice.title@ == text(lang, Msg::ServiceNotRunning)
                &&& notice.description@ == text(lang, Msg::SettingsLiveInService)
                &&& notice.busy == starting
                &&& match (notice.error, error) {
                    (Some(a), Some(b)) => a@ == b@,
                    (None, None) => true,
                    _ => false,
                }
            },
            _ => {
                &&& notice.title@ == text(lang, Msg::ConnectingToHeadroom)
                &&& notice.description@.len() == 0
                &&& notice.busy
                &&& notice.error is None
            },
        },
{
    match service {
        Service::Stopped { starting, error } => ServiceNotice {
            title: lang.tr(Msg::ServiceNotRunning),
            description: lang.tr(Msg::SettingsLiveInService),
            busy: *starting,
            error: match error {
                Some(e) => Some(e.clone()),
                None => None,
            },
        },
        _ => {
            let description = "";
            proof {
                reveal_strlit("");
            }
            ServiceNotice {
                title: lang.tr(Msg::ConnectingToHeadroom),
                description,
                busy: true,
                error: None,
            }
        },
    }
}

/// Which pages show: the full set once the service runs and its settings and state are
/// known; the advanced page only for services that speak the 0.6 protocol.
pub fn shown_for(service: &Service, has_settings: bool, has_state: bool, release_0_6: bool) -> (shown: Shown)
    ensures
        shown.ready == (*service is Running && has_settings && has_state),
        shown.advanced == (shown.ready && release_0_6),
{
    let running = match service {
        Service::Running => true,
        _ => false,
    };
    let ready = running && has_settings && has_state;
    Shown { ready, advanced: ready && release_0_6 }
}

/// The pages in the order they show.
pub open spec fn tabs_spec(shown: Shown) -> Seq<Tab> {
    (if shown.ready {
        seq![Tab::General, Tab::Accounts, Tab::Notifications]
    } else {
        seq![Tab::Service]
    }) + (if shown.advanced {
        seq![Tab::Advanced]
    } else {
        Seq::<Tab>::empty()
    }) + seq![Tab::About]
}

/// The pages to show, in order: general, accounts and notifications when ready, else the
/// service page; the advanced page when allowed; and always the about page.
pub fn visible_tabs(shown: Shown) -> (tabs: Vec<Tab>)
    ensures
        tabs@ == tabs_spec(shown),
{
    let mut tabs: Vec<Tab> = Vec::new();
    if shown.ready {
        tabs.push(Tab::General);
        tabs.push(Tab::Accounts);
        tabs.push(Tab::Notifications);
    } else {
        tabs.push(Tab::Service);
    }
    if shown.advanced {
        tabs.push(Tab::Advanced);
    }
    tabs.push(Tab::About);
    assert(tabs@ =~= tabs_spec(shown));
    tabs
}

/// The parts of the service line of the Advanced page: whether it runs, its version when
/// known, and what kind of service it is.
pub open spec fn service_parts(lang: Lang, running: bool, version: Option<Seq<char>>) -> Seq<Seq<char>> {
    seq![if running { text(lang, Msg::Running) } else { text(lang, Msg::NotRunning) }] + (match version {
        Some(v) => seq![text(lang, Msg::Version) + " "@ + v],
        None => Seq::<Seq<char>>::empty(),
    }) + seq![text(lang, Msg::SystemdUserService)]
}

/// The service line of the Advanced page, its parts joined by " · ".
pub fn advanced_service_line(lang: Lang, running: bool, version: Option<&str>) -> (line: String)
    ensures
        line@ == join(
            service_parts(
                lang,
                running,
                match version {
                    Some(v) => Some(v@),
                    None => None,
                },
            ),
            dot_sep(),
        ),
{
    let status = if running {
        lang.tr(Msg::Running)
    } else {
        lang.tr(Msg::NotRunning)
    };
    let mut parts: Vec<String> = Vec::new();
    parts.push(status.to_owned());
    match version {
        Some(v) => {
            parts.push(lang.tr(Msg::Version).to_owned().concat(" ").concat(v));
        },
        None => {},
    }
    parts.push(lang.tr(Msg::SystemdUserService).to_owned());
    let mut refs: Vec<&str> = Vec::new();
    let mut k: usize = 0;
    while k < parts.len()
        invariant
            k <= parts@.len(),
            refs@.len() == k,
            forall|j: int| 0 <= j < k ==> #[trigger] refs@[j]@ == parts@[j]@,
        decreases parts.len() - k,
    {
        refs.push(parts[k].as_str());
        k = k + 1;
    }
    let line = join_strs(&refs, " · ");
    proof {
        reveal_strlit(" ");
        let want = service_parts(
            lang,
            running,
            match version {
                Some(v) => Some(v@),
                None => None,
            },
        );
        assert(refs@.map_values(|p: &str| p@) =~= want);
    }
    line
}

/// The log file line of the Advanced page: the path, or "not available"; the buttons that open
/// the log show only with a path.
pub fn log_file_line(lang: Lang, path: Option<&str>) -> (r: (String, bool))
    ensures
        r.0@ == match path {
            Some(p) => p@,
            None => text(lang, Msg::NotAvailable),
        },
        r.1 == path is Some,
{
    match path {
        Some(p) => (p.to_owned(), true),
        None => (lang.tr(Msg::NotAvailable).to_owned(), false),
    }
}

} // verus!
