//! The interface languages and the catalog of the messages the library writes.

use vstd::prelude::*;

verus! {

/// An interface language.
#[derive(Debug, Clone, Copy, PartialEq, Eq, Structural)]
pub enum Lang {
    En,
    Ru,
}

/// Which plural form a count takes.
#[derive(Debug, Clone, Copy, PartialEq, Eq, Structural)]
pub enum Plural {
    One,
    Few,
    Many,
}

/// The plural form of `n` in a language: English has one form for 1 and another for every
/// other count; Russian follows the last one and two digits.
pub open spec fn plural_spec(lang: Lang, n: nat) -> Plural {
    match lang {
        Lang::En => if n == 1 { Plural::One } else { Plural::Many },
        Lang::Ru => if n % 10 == 1 && n % 100 != 11 {
            Plural::One
        } else if 2 <= n % 10 <= 4 && !(12 <= n % 100 <= 14) {
            Plural::Few
        } else {
            Plural::Many
        },
    }
}

/// The plural form of `n`.
pub fn plural(lang: Lang, n: u64) -> (p: Plural)
    ensures
        p == plural_spec(lang, n as nat),
{
    match lang {
        Lang::En => if n == 1 { Plural::One } else { Plural::Many },
        Lang::Ru => {
            let (last, last_two) = (n % 10, n % 100);
            if last == 1 && last_two != 11 {
                Plural::One
            } else if 2 <= last && last <= 4 && !(12 <= last_two && last_two <= 14) {
                Plural::Few
            } else {
                Plural::Many
            }
        },
    }
}

/// A message of the interface.
#[derive(Debug, Clone, Copy, PartialEq, Eq, Structural)]
pub enum Msg {
    SignedIn,
    FoundNotSignedIn,
    NotInstalled,
    PinnedLimitUnavailable,
    NoneChosen,
    ChosenOfMax,
    AlwaysOpen,
    OnDemand,
    EveryProviderDefault,
    ProvidersDiffer(Plural),
    AlmostOutUnder,
    AddProviderAccount,
    SignInAgainTo,
    AccountAdded,
    SignedInAgain,
    PercentLeft,
    PercentUsed,
    Refresh,
    RefreshFailed,
    RefreshProvider,
    HideFromPopup,
    AlwaysShow,
    ShareAsImage,
    CopyAsText,
    Running,
    ConnectingEllipsis,
    NotRunning,
    ConnectingToHeadroom,
    ServiceNotRunning,
    SettingsLiveInService,
    ApiKey,
    AlmostOut,
    CuttingItClose,
    CuttingItCloseDetail,
    WillRunOut,
    WillRunOutDetail,
    LimitReset,
    LimitResetDetail,
    TotalSpend,
    TotalSpendDetail,
    AccountSpend,
    AccountSpendDetail,
    UsageTrend,
    UsageTrendDetail,
    PaceForecast,
    PaceForecastDetail,
    Version,
    SystemdUserService,
    NotAvailable,
    SupportHeadroom,
    StarOnGitHub,
    StarsHelp,
    OpenGitHub,
    LinkStatus,
    LinkDashboard,
    LinkUsage,
    DiagnosticsCopied,
    Updates,
    NoNewerRelease,
    UpdateChecksOff,
    Retry,
    Copy,
    WindowSession,
    WindowWeekly,
}

/// The text of a message in a language.
pub open spec fn text(lang: Lang, msg: Msg) -> Seq<char> {
    match lang {
        Lang::En => match msg {
            Msg::SignedIn => "Signed in"@,
            Msg::FoundNotSignedIn => "Found, not signed in"@,
            Msg::NotInstalled => "Not installed"@,
            Msg::PinnedLimitUnavailable => "Pinned limit (not available now)"@,
            Msg::NoneChosen => "None chosen · the two most critical are shown"@,
            Msg::ChosenOfMax => "{count} of {max} chosen · shown in this order"@,
            Msg::AlwaysOpen => "Always open"@,
            Msg::OnDemand => "On demand"@,
            Msg::EveryProviderDefault => "Every provider uses the default"@,
            Msg::ProvidersDiffer(Plural::One) => "{count} provider differs from the default"@,
            Msg::ProvidersDiffer(_) => "{count} providers differ from the default"@,
            Msg::AlmostOutUnder => "A limit drops under {percent}% left"@,
            Msg::AddProviderAccount => "Add {provider} Account"@,
            Msg::SignInAgainTo => "Sign In to {provider} Again"@,
            Msg::AccountAdded => "Account added. It shows up in the tray in a moment."@,
            Msg::SignedInAgain => "Signed in again. The account updates in a moment."@,
            Msg::PercentLeft => "{percent}% left"@,
            Msg::PercentUsed => "{percent}% used"@,
            Msg::Refresh => "Refresh"@,
            Msg::RefreshFailed => "Refresh failed"@,
            Msg::RefreshProvider => "Refresh {provider}"@,
            Msg::HideFromPopup => "Hide from popup"@,
            Msg::AlwaysShow => "Always show"@,
            Msg::ShareAsImage => "Share as image…"@,
            Msg::CopyAsText => "Copy as text"@,
            Msg::Running => "Running"@,
            Msg::ConnectingEllipsis => "Connecting…"@,
            Msg::NotRunning => "Not running"@,
            Msg::ConnectingToHeadroom => "Connecting to Headroom…"@,
            Msg::ServiceNotRunning => "Headroom service isn't running"@,
            Msg::SettingsLiveInService => "Settings live in the Headroom service. Start it to change them."@,
            Msg::ApiKey => "API key"@,
            Msg::AlmostOut => "Almost out"@,
            Msg::CuttingItClose => "Cutting it close"@,
            Msg::CuttingItCloseDetail => "The pace says a limit will barely last until reset"@,
            Msg::WillRunOut => "Will run out"@,
            Msg::WillRunOutDetail => "The pace says a limit runs out before it resets"@,
            Msg::LimitReset => "Limit reset"@,
            Msg::LimitResetDetail => "A limit that was running low resets"@,
            Msg::TotalSpend => "Total spend"@,
            Msg::TotalSpendDetail => "Spend ring for all tools at the top"@,
            Msg::AccountSpend => "Per-account spend"@,
            Msg::AccountSpendDetail => "Today, yesterday and 30 days under each account"@,
            Msg::UsageTrend => "Usage trend"@,
            Msg::UsageTrendDetail => "Daily token bars for the last 30 days"@,
            Msg::PaceForecast => "Pace forecast"@,
            Msg::PaceForecastDetail => "Where each limit lands at the current pace"@,
            Msg::Version => "version"@,
            Msg::SystemdUserService => "systemd user service"@,
            Msg::NotAvailable => "Not available"@,
            Msg::SupportHeadroom => "Support Headroom"@,
            Msg::StarOnGitHub => "Star Headroom on GitHub"@,
            Msg::StarsHelp => "Stars help other people find it. It's free and takes a second."@,
            Msg::OpenGitHub => "Open GitHub"@,
            Msg::LinkStatus => "Status"@,
            Msg::LinkDashboard => "Dashboard"@,
            Msg::LinkUsage => "Usage"@,
            Msg::DiagnosticsCopied => "Diagnostics copied"@,
            Msg::Updates => "Updates"@,
            Msg::NoNewerRelease => "No newer release known"@,
            Msg::UpdateChecksOff => "Update checks are off"@,
            Msg::Retry => "Retry"@,
            Msg::Copy => "Copy"@,
            Msg::WindowSession => "Session"@,
            Msg::WindowWeekly => "Weekly"@,
        },
        Lang::Ru => match msg {
            Msg::SignedIn => "Вход выполнен"@,
            Msg::FoundNotSignedIn => "Найден, вход не выполнен"@,
            Msg::NotInstalled => "Не установлен"@,
            Msg::PinnedLimitUnavailable => "Закреплённый лимит (сейчас недоступен)"@,
            Msg::NoneChosen => "Ничего не выбрано · показаны два самых критичных"@,
            Msg::ChosenOfMax => "Выбрано {count} из {max} · в этом порядке"@,
            Msg::AlwaysOpen => "Всегда открыт"@,
            Msg::OnDemand => "По запросу"@,
            Msg::EveryProviderDefault => "Все провайдеры используют общий порог"@,
            Msg::ProvidersDiffer(Plural::One) => "{count} провайдер отличается от общего"@,
            Msg::ProvidersDiffer(Plural::Few) => "{count} провайдера отличаются от общего"@,
            Msg::ProvidersDiffer(Plural::Many) => "{count} провайдеров отличаются от общего"@,
            Msg::AlmostOutUnder => "Остаток лимита падает ниже {percent}%"@,
            Msg::AddProviderAccount => "Добавить аккаунт {provider}"@,
            Msg::SignInAgainTo => "Повторный вход в {provider}"@,
            Msg::AccountAdded => "Аккаунт добавлен. Он скоро появится в трее."@,
            Msg::SignedInAgain => "Вход выполнен. Аккаунт скоро обновится."@,
            Msg::PercentLeft => "осталось {percent}%"@,
            Msg::PercentUsed => "использовано {percent}%"@,
            Msg::Refresh => "Обновить"@,
            Msg::RefreshFailed => "Не удалось обновить"@,
            Msg::RefreshProvider => "Обновить {provider}"@,
            Msg::HideFromPopup => "Скрыть из окна"@,
            Msg::AlwaysShow => "Всегда показывать"@,
            Msg::ShareAsImage => "Поделиться картинкой…"@,
            Msg::CopyAsText => "Скопировать текстом"@,
            Msg::Running => "Работает"@,
            Msg::ConnectingEllipsis => "Подключение…"@,
            Msg::NotRunning => "Не запущена"@,
            Msg::ConnectingToHeadroom => "Подключение к Headroom…"@,
            Msg::ServiceNotRunning => "Служба Headroom не запущена"@,
            Msg::SettingsLiveInService => "Настройки хранит служба Headroom. Запустите её, чтобы их изменить."@,
            Msg::ApiKey => "API-ключ"@,
            Msg::AlmostOut => "Почти закончился"@,
            Msg::CuttingItClose => "Впритык"@,
            Msg::CuttingItCloseDetail => "Судя по темпу, лимита едва хватит до сброса"@,
            Msg::WillRunOut => "Закончится"@,
            Msg::WillRunOutDetail => "Судя по темпу, лимит закончится до сброса"@,
            Msg::LimitReset => "Лимит сброшен"@,
            Msg::LimitResetDetail => "Сбрасывается лимит, который был на исходе"@,
            Msg::TotalSpend => "Общие расходы"@,
            Msg::TotalSpendDetail => "Кольцо расходов по всем инструментам вверху"@,
            Msg::AccountSpend => "Расходы по аккаунтам"@,
            Msg::AccountSpendDetail => "Сегодня, вчера и за 30 дней под каждым аккаунтом"@,
            Msg::UsageTrend => "Динамика использования"@,
            Msg::UsageTrendDetail => "Столбики токенов по дням за последние 30 дней"@,
            Msg::PaceForecast => "Прогноз по темпу"@,
            Msg::PaceForecastDetail => "Где окажется каждый лимит при текущем темпе"@,
            Msg::Version => "версия"@,
            Msg::SystemdUserService => "пользовательская служба systemd"@,
            Msg::NotAvailable => "Недоступно"@,
            Msg::SupportHeadroom => "Поддержать Headroom"@,
            Msg::StarOnGitHub => "Поставьте звезду на GitHub"@,
            Msg::StarsHelp => "Звёзды помогают другим найти Headroom. Это бесплатно и занимает секунду."@,
            Msg::OpenGitHub => "Открыть GitHub"@,
            Msg::LinkStatus => "Статус"@,
            Msg::LinkDashboard => "Панель управления"@,
            Msg::LinkUsage => "Использование"@,
            Msg::DiagnosticsCopied => "Диагностика скопирована"@,
            Msg::Updates => "Обновления"@,
            Msg::NoNewerRelease => "Более новых версий нет"@,
            Msg::UpdateChecksOff => "Проверка обновлений выключена"@,
            Msg::Retry => "Повторить"@,
            Msg::Copy => "Скопировать"@,
            Msg::WindowSession => "Сессия"@,
            Msg::WindowWeekly => "Неделя"@,
        },
    }
}

impl Lang {
    /// The text of `msg` in this language.
    pub fn tr(self, msg: Msg) -> (s: &'static str)
        ensures
            s@ == text(self, msg),
    {
        match self {
            Lang::En => match msg {
                Msg::SignedIn => "Signed in",
                Msg::FoundNotSignedIn => "Found, not signed in",
                Msg::NotInstalled => "Not installed",
                Msg::PinnedLimitUnavailable => "Pinned limit (not available now)",
                Msg::NoneChosen => "None chosen · the two most critical are shown",
                Msg::ChosenOfMax => "{count} of {max} chosen · shown in this order",
                Msg::AlwaysOpen => "Always open",
                Msg::OnDemand => "On demand",
                Msg::EveryProviderDefault => "Every provider uses the default",
                Msg::ProvidersDiffer(Plural::One) => "{count} provider differs from the default",
                Msg::ProvidersDiffer(_) => "{count} providers differ from the default",
                Msg::AlmostOutUnder => "A limit drops under {percent}% left",
                Msg::AddProviderAccount => "Add {provider} Account",
                Msg::SignInAgainTo => "Sign In to {provider} Again",
                Msg::AccountAdded => "Account added. It shows up in the tray in a moment.",
                Msg::SignedInAgain => "Signed in again. The account updates in a moment.",
                Msg::PercentLeft => "{percent}% left",
                Msg::PercentUsed => "{percent}% used",
                Msg::Refresh => "Refresh",
                Msg::RefreshFailed => "Refresh failed",
                Msg::RefreshProvider => "Refresh {provider}",
                Msg::HideFromPopup => "Hide from popup",
                Msg::AlwaysShow => "Always show",
                Msg::ShareAsImage => "Share as image…",
                Msg::CopyAsText => "Copy as text",
                Msg::Running => "Running",
                Msg::ConnectingEllipsis => "Connecting…",
                Msg::NotRunning => "Not running",
                Msg::ConnectingToHeadroom => "Connecting to Headroom…",
                Msg::ServiceNotRunning => "Headroom service isn't running",
                Msg::SettingsLiveInService => "Settings live in the Headroom service. Start it to change them.",
                Msg::ApiKey => "API key",
                Msg::AlmostOut => "Almost out",
                Msg::CuttingItClose => "Cutting it close",
                Msg::CuttingItCloseDetail => "The pace says a limit will barely last until reset",
                Msg::WillRunOut => "Will run out",
                Msg::WillRunOutDetail => "The pace says a limit runs out before it resets",
                Msg::LimitReset => "Limit reset",
                Msg::LimitResetDetail => "A limit that was running low resets",
                Msg::TotalSpend => "Total spend",
                Msg::TotalSpendDetail => "Spend ring for all tools at the top",
                Msg::AccountSpend => "Per-account spend",
                Msg::AccountSpendDetail => "Today, yesterday and 30 days under each account",
                Msg::UsageTrend => "Usage trend",
                Msg::UsageTrendDetail => "Daily token bars for the last 30 days",
                Msg::PaceForecast => "Pace forecast",
                Msg::PaceForecastDetail => "Where each limit lands at the current pace",
                Msg::Version => "version",
                Msg::SystemdUserService => "systemd user service",
                Msg::NotAvailable => "Not available",
                Msg::SupportHeadroom => "Support Headroom",
                Msg::StarOnGitHub => "Star Headroom on GitHub",
                Msg::StarsHelp => "Stars help other people find it. It's free and takes a second.",
                Msg::OpenGitHub => "Open GitHub",
                Msg::LinkStatus => "Status",
                Msg::LinkDashboard => "Dashboard",
                Msg::LinkUsage => "Usage",
                Msg::DiagnosticsCopied => "Diagnostics copied",
                Msg::Updates => "Updates",
                Msg::NoNewerRelease => "No newer release known",
                Msg::UpdateChecksOff => "Update checks are off",
                Msg::Retry => "Retry",
                Msg::Copy => "Copy",
                Msg::WindowSession => "Session",
                Msg::WindowWeekly => "Weekly",
            },
            Lang::Ru => match msg {
                Msg::SignedIn => "Вход выполнен",
                Msg::FoundNotSignedIn => "Найден, вход не выполнен",
                Msg::NotInstalled => "Не установлен",
                Msg::PinnedLimitUnavailable => "Закреплённый лимит (сейчас недоступен)",
                Msg::NoneChosen => "Ничего не выбрано · показаны два самых критичных",
                Msg::ChosenOfMax => "Выбрано {count} из {max} · в этом порядке",
                Msg::AlwaysOpen => "Всегда открыт",
                Msg::OnDemand => "По запросу",
                Msg::EveryProviderDefault => "Все провайдеры используют общий порог",
                Msg::ProvidersDiffer(Plural::One) => "{count} провайдер отличается от общего",
                Msg::ProvidersDiffer(Plural::Few) => "{count} провайдера отличаются от общего",
                Msg::ProvidersDiffer(Plural::Many) => "{count} провайдеров отличаются от общего",
                Msg::AlmostOutUnder => "Остаток лимита падает ниже {percent}%",
                Msg::AddProviderAccount => "Добавить аккаунт {provider}",
                Msg::SignInAgainTo => "Повторный вход в {provider}",
                Msg::AccountAdded => "Аккаунт добавлен. Он скоро появится в трее.",
                Msg::SignedInAgain => "Вход выполнен. Аккаунт скоро обновится.",
                Msg::PercentLeft => "осталось {percent}%",
                Msg::PercentUsed => "использовано {percent}%",
                Msg::Refresh => "Обновить",
                Msg::RefreshFailed => "Не удалось обновить",
                Msg::RefreshProvider => "Обновить {provider}",
                Msg::HideFromPopup => "Скрыть из окна",
                Msg::AlwaysShow => "Всегда показывать",
                Msg::ShareAsImage => "Поделиться картинкой…",
                Msg::CopyAsText => "Скопировать текстом",
                Msg::Running => "Работает",
                Msg::ConnectingEllipsis => "Подключение…",
                Msg::NotRunning => "Не запущена",
                Msg::ConnectingToHeadroom => "Подключение к Headroom…",
                Msg::ServiceNotRunning => "Служба Headroom не запущена",
                Msg::SettingsLiveInService => "Настройки хранит служба Headroom. Запустите её, чтобы их изменить.",
                Msg::ApiKey => "API-ключ",
                Msg::AlmostOut => "Почти закончился",
                Msg::CuttingItClose => "Впритык",
                Msg::CuttingItCloseDetail => "Судя по темпу, лимита едва хватит до сброса",
                Msg::WillRunOut => "Закончится",
                Msg::WillRunOutDetail => "Судя по темпу, лимит закончится до сброса",
                Msg::LimitReset => "Лимит сброшен",
                Msg::LimitResetDetail => "Сбрасывается лимит, который был на исходе",
                Msg::TotalSpend => "Общие расходы",
                Msg::TotalSpendDetail => "Кольцо расходов по всем инструментам вверху",
                Msg::AccountSpend => "Расходы по аккаунтам",
                Msg::AccountSpendDetail => "Сегодня, вчера и за 30 дней под каждым аккаунтом",
                Msg::UsageTrend => "Динамика использования",
                Msg::UsageTrendDetail => "Столбики токенов по дням за последние 30 дней",
                Msg::PaceForecast => "Прогноз по темпу",
                Msg::PaceForecastDetail => "Где окажется каждый лимит при текущем темпе",
                Msg::Version => "версия",
                Msg::SystemdUserService => "пользовательская служба systemd",
                Msg::NotAvailable => "Недоступно",
                Msg::SupportHeadroom => "Поддержать Headroom",
                Msg::StarOnGitHub => "Поставьте звезду на GitHub",
                Msg::StarsHelp => "Звёзды помогают другим найти Headroom. Это бесплатно и занимает секунду.",
                Msg::OpenGitHub => "Открыть GitHub",
                Msg::LinkStatus => "Статус",
                Msg::LinkDashboard => "Панель управления",
                Msg::LinkUsage => "Использование",
                Msg::DiagnosticsCopied => "Диагностика скопирована",
                Msg::Updates => "Обновления",
                Msg::NoNewerRelease => "Более новых версий нет",
                Msg::UpdateChecksOff => "Проверка обновлений выключена",
                Msg::Retry => "Повторить",
                Msg::Copy => "Скопировать",
                Msg::WindowSession => "Сессия",
                Msg::WindowWeekly => "Неделя",
            },
        }
    }
}

} // verus!
