//! The settings group that asks for a star on GitHub.

use vstd::prelude::*;
use crate::i18n::{Lang, Msg, text};

verus! {

/// The project's repository.
pub const REPOSITORY_URL: &'static str = "https://github.com/daniarjabagin/headroom";

/// The texts of the support group: its title, the row's title and description, and the
/// button's label.
#[derive(Debug, Clone, Copy, PartialEq, Eq)]
pub struct SupportTexts {
    pub title: &'static str,
    pub row_title: &'static str,
    pub row_subtitle: &'static str,
    pub button: &'static str,
}

/// The texts of the support group in a language.
pub fn support_texts(lang: Lang) -> (t: SupportTexts)
    ensures
        t.title@ == text(lang, Msg::SupportHeadroom),
        t.row_title@ == text(lang, Msg::StarOnGitHub),
        t.row_subtitle@ == text(lang, Msg::StarsHelp),
        t.button@ == text(lang, Msg::OpenGitHub),
{
    SupportTexts {
        title: lang.tr(Msg::SupportHeadroom),
        row_title: lang.tr(Msg::StarOnGitHub),
        row_subtitle: lang.tr(Msg::StarsHelp),
        button: lang.tr(Msg::OpenGitHub),
    }
}

} // verus!
