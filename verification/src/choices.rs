//! How an account is named and how a limit reading is written.

use vstd::prelude::*;
use crate::i18n::{Lang, Msg, text};
use crate::payload::{Account, ValueMode};
use crate::text::{decimal, decimal_string, fill, fill_spec, pairs_view, same_text};

verus! {

/// The name an account goes by: its label, else its e-mail, else its provider's name.
pub open spec fn name_of(account: Account) -> Seq<char> {
    match account.label {
        Some(label) => label@,
        None => match account.email {
            Some(email) => email@,
            None => account.provider_name@,
        },
    }
}

/// The name a limit window is shown with: the interface's own name for the windows it knows
/// (the session and the week), and the name the service reports for any other.
pub open spec fn window_label_spec(lang: Lang, id: Seq<char>, label: Seq<char>) -> Seq<char> {
    if id == "session"@ {
        text(lang, Msg::WindowSession)
    } else if id == "weekly"@ {
        text(lang, Msg::WindowWeekly)
    } else {
        label
    }
}

/// The percent a reading shows: what is left, or what is used of a whole hundred.
pub open spec fn reading_value(remaining: u8, mode: ValueMode) -> nat {
    match mode {
        ValueMode::Left => remaining as nat,
        ValueMode::Used => if remaining >= 100 { 0 } else { (100 - remaining) as nat },
    }
}

/// The message a reading is written with.
pub open spec fn reading_msg(mode: ValueMode) -> Msg {
    match mode {
        ValueMode::Left => Msg::PercentLeft,
        ValueMode::Used => Msg::PercentUsed,
    }
}

/// The text of a reading.
pub open spec fn reading_text(lang: Lang, remaining: u8, mode: ValueMode) -> Seq<char> {
    fill_spec(
        text(lang, reading_msg(mode)),
        seq![("percent"@, decimal(reading_value(remaining, mode)))],
    )
}

/// The name the account goes by.
pub fn account_name(account: &Account) -> (s: String)
    ensures
        s@ == name_of(*account),
{
    match &account.label {
        Some(label) => label.clone(),
        None => match &account.email {
            Some(email) => email.clone(),
            None => account.provider_name.clone(),
        },
    }
}

/// A reading of a limit with `remaining` percent left, in the given mode.
pub fn percent_reading(lang: Lang, remaining: u8, mode: ValueMode) -> (s: String)
    ensures
        s@ == reading_text(lang, remaining, mode),
{
    let value: u8 = match mode {
        ValueMode::Left => remaining,
        ValueMode::Used => if remaining >= 100 { 0 } else { 100 - remaining },
    };
    let template = match mode {
        ValueMode::Left => lang.tr(Msg::PercentLeft),
        ValueMode::Used => lang.tr(Msg::PercentUsed),
    };
    let number = decimal_string(value as usize);
    let pairs = [("percent", number.as_str())];
    let s = fill(template, &pairs);
    assert(pairs_view(pairs@) =~= seq![("percent"@, decimal(reading_value(remaining, mode)))]);
    s
}

/// The name a limit window is shown with in the language.
pub fn window_label(lang: Lang, id: &str, label: &str) -> (s: String)
    ensures
        s@ == window_label_spec(lang, id@, label@),
{
    if same_text(id, "session") {
        lang.tr(Msg::WindowSession).to_owned()
    } else if same_text(id, "weekly") {
        lang.tr(Msg::WindowWeekly).to_owned()
    } else {
        label.to_owned()
    }
}

} // verus!
