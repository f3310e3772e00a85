//! The optional sections of the popup as the general settings list them: their texts,
//! whether each is on, and which of them the settings offer.

use vstd::prelude::*;
use crate::i18n::{Lang, Msg, text};
use crate::payload::Display;

verus! {

/// An optional section of the popup.
#[derive(Debug, Clone, Copy, PartialEq, Eq, Structural)]
pub enum Section {
    /// The spend ring for all tools at the top.
    Spend,
    /// The spend under each account.
    AccountSpend,
    /// The daily usage bars.
    Trend,
    /// Where each limit lands at the current pace.
    Forecast,
}

/// The sections, in the order the settings list them.
pub open spec fn all_sections() -> Seq<Section> {
    seq![Section::Spend, Section::AccountSpend, Section::Trend, Section::Forecast]
}

/// The title and the description of a section.
pub open spec fn section_text_spec(lang: Lang, section: Section) -> (Seq<char>, Seq<char>) {
    match section {
        Section::Spend => (text(lang, Msg::TotalSpend), text(lang, Msg::TotalSpendDetail)),
        Section::AccountSpend => (
            text(lang, Msg::AccountSpend),
            text(lang, Msg::AccountSpendDetail),
        ),
        Section::Trend => (text(lang, Msg::UsageTrend), text(lang, Msg::UsageTrendDetail)),
        Section::Forecast => (text(lang, Msg::PaceForecast), text(lang, Msg::PaceForecastDetail)),
    }
}

/// Whether the section is on.
pub open spec fn section_value_spec(display: Display, section: Section) -> bool {
    match section {
        Section::Spend => display.show_spend,
        Section::AccountSpend => display.show_account_spend,
        Section::Trend => display.show_trend,
        Section::Forecast => display.show_forecast,
    }
}

/// Whether the general settings list the section's switch: a service that can change the
/// spend settings has a group of its own for the spend ring.
pub open spec fn section_listed(section: Section, capable: bool) -> bool {
    !capable || section != Section::Spend
}

/// The title and the description of a section.
pub fn section_text(lang: Lang, section: Section) -> (r: (&'static str, &'static str))
    ensures
        r.0@ == section_text_spec(lang, section).0,
        r.1@ == section_text_spec(lang, section).1,
{
    match section {
        Section::Spend => (lang.tr(Msg::TotalSpend), lang.tr(Msg::TotalSpendDetail)),
        Section::AccountSpend => (lang.tr(Msg::AccountSpend), lang.tr(Msg::AccountSpendDetail)),
        Section::Trend => (lang.tr(Msg::UsageTrend), lang.tr(Msg::UsageTrendDetail)),
        Section::Forecast => (lang.tr(Msg::PaceForecast), lang.tr(Msg::PaceForecastDetail)),
    }
}

/// Whether the section is on.
pub fn section_value(display: &Display, section: Section) -> (on: bool)
    ensures
        on == section_value_spec(*display, section),
{
    match section {
        Section::Spend => display.show_spend,
        Section::AccountSpend => display.show_account_spend,
        Section::Trend => display.show_trend,
        Section::Forecast => display.show_forecast,
    }
}

/// A section's switch as the settings show it.
#[derive(Debug, Clone, Copy, PartialEq, Eq, Structural)]
pub struct SectionSwitch {
    pub section: Section,
    /// The switch is listed.
    pub visible: bool,
    /// The switch is on.
    pub on: bool,
}

/// Every section's switch, in order: listed unless the service has a spend group of its own
/// and the section is the spend ring, and on as the display settings say.
pub fn section_switches(display: &Display, capable: bool) -> (switches: Vec<SectionSwitch>)
    ensures
        switches@.len() == all_sections().len(),
        forall|i: int|
            0 <= i < all_sections().len() ==> #[trigger] switches@[i] == (SectionSwitch {
                section: all_sections()[i],
                visible: section_listed(all_sections()[i], capable),
                on: section_value_spec(*display, all_sections()[i]),
            }),
{
    let mut switches: Vec<SectionSwitch> = Vec::new();
    switches.push(
        SectionSwitch {
            section: Section::Spend,
            visible: !capable,
            on: section_value(display, Section::Spend),
        },
    );
    switches.push(
        SectionSwitch {
            section: Section::AccountSpend,
            visible: true,
            on: section_value(display, Section::AccountSpend),
        },
    );
    switches.push(
        SectionSwitch {
            section: Section::Trend,
            visible: true,
            on: section_value(display, Section::Trend),
        },
    );
    switches.push(
        SectionSwitch {
            section: Section::Forecast,
            visible: true,
            on: section_value(display, Section::Forecast),
        },
    );
    switches
}

} // verus!
