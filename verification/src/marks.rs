//! The icons and style classes that mark notices and the tone of an account.

use vstd::prelude::*;

verus! {

/// What a notice is about.
#[derive(Debug, Clone, Copy, PartialEq, Eq, Structural)]
pub enum NoticeKind {
    Error,
    SignIn,
    Warning,
    Info,
}

/// How an account is doing.
#[derive(Debug, Clone, Copy, PartialEq, Eq, Structural)]
pub enum Tone {
    Good,
    Warning,
    Critical,
    Neutral,
}

/// The icon of a notice's tile: an error sign, people for a sign-in, and a warning sign for
/// the rest.
pub fn kind_icon(kind: NoticeKind) -> (icon: &'static str)
    ensures
        icon@ == (match kind {
            NoticeKind::Error => "dialog-error-symbolic"@,
            NoticeKind::SignIn => "system-users-symbolic"@,
            NoticeKind::Warning | NoticeKind::Info => "dialog-warning-symbolic"@,
        }),
{
    match kind {
        NoticeKind::Error => "dialog-error-symbolic",
        NoticeKind::SignIn => "system-users-symbolic",
        NoticeKind::Warning | NoticeKind::Info => "dialog-warning-symbolic",
    }
}

/// The style class of a notice; warnings and information look alike.
pub fn kind_class(kind: NoticeKind) -> (class: &'static str)
    ensures
        class@ == (match kind {
            NoticeKind::Error => "error"@,
            NoticeKind::SignIn => "signin"@,
            NoticeKind::Warning | NoticeKind::Info => "warning"@,
        }),
{
    match kind {
        NoticeKind::Error => "error",
        NoticeKind::SignIn => "signin",
        NoticeKind::Warning | NoticeKind::Info => "warning",
    }
}

/// The style class of an account's status dot.
pub fn tone_class(tone: Tone) -> (class: &'static str)
    ensures
        class@ == (match tone {
            Tone::Good => "accent"@,
            Tone::Warning => "warning"@,
            Tone::Critical => "error"@,
            Tone::Neutral => "dim-label"@,
        }),
{
    match tone {
        Tone::Good => "accent",
        Tone::Warning => "warning",
        Tone::Critical => "error",
        Tone::Neutral => "dim-label",
    }
}

} // verus!
