//! Recording a keyboard shortcut: what each key press during the capture means.

use vstd::prelude::*;
use crate::context::{Change, PrefsAction};
use crate::text::{find_char, same_text};

verus! {

/// The outcome of one key press while a shortcut is being recorded.
#[derive(Debug, Clone, PartialEq, Eq)]
pub enum Capture {
    /// Keep listening.
    Wait,
    /// Stop without a change.
    Cancel,
    /// Turn the shortcut off.
    Disable,
    /// Use this accelerator.
    Assign(String),
}

/// Whether `s` begins with `prefix`.
pub open spec fn starts_with(s: Seq<char>, prefix: Seq<char>) -> bool {
    prefix.len() <= s.len() && s.take(prefix.len() as int) == prefix
}

/// Whether the key is a modifier or a lock key, by the prefix of its name.
pub open spec fn is_modifier_spec(key: Seq<char>) -> bool {
    ||| starts_with(key, "Shift"@)
    ||| starts_with(key, "Control"@)
    ||| starts_with(key, "Alt"@)
    ||| starts_with(key, "Super"@)
    ||| starts_with(key, "Meta"@)
    ||| starts_with(key, "Hyper"@)
    ||| starts_with(key, "ISO_"@)
    ||| starts_with(key, "Caps_Lock"@)
    ||| starts_with(key, "Num_Lock"@)
}

/// Whether the character is an ASCII digit.
pub open spec fn is_digit(c: char) -> bool {
    '0' <= c <= '9'
}

/// Whether the key is a function key: `F` followed by one or more digits.
pub open spec fn is_function_key_spec(key: Seq<char>) -> bool {
    &&& key.len() >= 2
    &&& key[0] == 'F'
    &&& forall|k: int| 1 <= k < key.len() ==> is_digit(#[trigger] key[k])
}

/// Whether the character may stand in a key or modifier name.
pub open spec fn is_word_char(c: char) -> bool {
    ('a' <= c <= 'z') || ('A' <= c <= 'Z') || ('0' <= c <= '9') || c == '_'
}

/// Whether positions `a` up to `b` of `s` are all name characters.
pub open spec fn all_word(s: Seq<char>, a: int, b: int) -> bool {
    forall|k: int| a <= k < b ==> is_word_char(#[trigger] s[k])
}

/// Whether `s` from position `i` on is a run of `<Modifier>` groups followed by a key name.
pub open spec fn accel_from(s: Seq<char>, i: int) -> bool
    decreases s.len() - i,
{
    if i < 0 || i >= s.len() {
        false
    } else if s[i] == '<' {
        let j = find_char(s, '>', i + 1);
        if i + 1 < j < s.len() && all_word(s, i + 1, j) {
            proof {
                crate::text::lemma_find_char_bounds(s, '>', i + 1);
            }
            accel_from(s, j + 1)
        } else {
            false
        }
    } else {
        all_word(s, i, s.len() as int)
    }
}

/// Whether the text is an accelerator the tray accepts; the empty text, which turns the
/// shortcut off, counts as one.
pub open spec fn is_valid_shortcut_spec(s: Seq<char>) -> bool {
    s.len() == 0 || accel_from(s, 0)
}

/// What a key press means, from the key's name, whether a modifier was held, and the
/// accelerator the press spells.
pub open spec fn capture_spec(key: Seq<char>, modified: bool, accelerator: Seq<char>, r: Capture) -> bool {
    if key.len() == 0 || is_modifier_spec(key) {
        r is Wait
    } else if key == "Escape"@ && !modified {
        r is Cancel
    } else if key == "BackSpace"@ && !modified {
        r is Disable
    } else if !modified && !is_function_key_spec(key) {
        r is Wait
    } else if is_valid_shortcut_spec(accelerator) && accelerator.len() > 0 {
        r matches Capture::Assign(a) && a@ == accelerator
    } else {
        r is Wait
    }
}

/// A recorded shortcut is never one the tray would refuse: whatever key press assigns an
/// accelerator, that accelerator is valid, is not empty, and is the one the press spelled.
pub proof fn lemma_capture_assigns_only_valid(
    key: Seq<char>,
    modified: bool,
    accelerator: Seq<char>,
    r: Capture,
)
    requires
        capture_spec(key, modified, accelerator, r),
    ensures
        r matches Capture::Assign(a) ==> is_valid_shortcut_spec(a@) && a@.len() > 0 && a@
            == accelerator,
        r matches Capture::Assign(_) ==> key.len() > 0 && !is_modifier_spec(key),
{
}

fn begins_with(s: &str, prefix: &str) -> (r: bool)
    ensures
        r == starts_with(s@, prefix@),
{
    let (len, plen) = (s.unicode_len(), prefix.unicode_len());
    if plen > len {
        false
    } else {
        let head = s.substring_char(0, plen);
        assert(s@.subrange(0, plen as int) =~= s@.take(plen as int));
        same_text(head, prefix)
    }
}

fn is_modifier(key: &str) -> (r: bool)
    ensures
        r == is_modifier_spec(key@),
{
    begins_with(key, "Shift") || begins_with(key, "Control") || begins_with(key, "Alt")
        || begins_with(key, "Super") || begins_with(key, "Meta") || begins_with(key, "Hyper")
        || begins_with(key, "ISO_") || begins_with(key, "Caps_Lock") || begins_with(
        key,
        "Num_Lock",
    )
}

fn is_function_key(key: &str) -> (r: bool)
    ensures
        r == is_function_key_spec(key@),
{
    let len = key.unicode_len();
    if len < 2 || key.get_char(0) != 'F' {
        return false;
    }
    let mut i: usize = 1;
    while i < len
        invariant
            len == key@.len(),
            1 <= i <= len,
            forall|k: int| 1 <= k < i ==> is_digit(#[trigger] key@[k]),
        decreases len - i,
    {
        let c = key.get_char(i);
        if !('0' <= c && c <= '9') {
            return false;
        }
        i = i + 1;
    }
    true
}

fn word_run(s: &str, a: usize, b: usize) -> (r: bool)
    requires
        a <= b <= s@.len(),
    ensures
        r == all_word(s@, a as int, b as int),
{
    let mut k = a;
    while k < b
        invariant
            a <= k <= b <= s@.len(),
            all_word(s@, a as int, k as int),
        decreases b - k,
    {
        let c = s.get_char(k);
        if !(('a' <= c && c <= 'z') || ('A' <= c && c <= 'Z') || ('0' <= c && c <= '9') || c
            == '_') {
            return false;
        }
        k = k + 1;
    }
    true
}

fn find_gt(s: &str, len: usize, from: usize) -> (j: usize)
    requires
        len == s@.len(),
        from <= len,
    ensures
        j as int == find_char(s@, '>', from as int),
    decreases len - from,
{
    if from >= len {
        len
    } else if s.get_char(from) == '>' {
        from
    } else {
        find_gt(s, len, from + 1)
    }
}

fn accel_at(s: &str, len: usize, i: usize) -> (r: bool)
    requires
        len == s@.len(),
        i <= len,
    ensures
        r == accel_from(s@, i as int),
    decreases len - i,
{
    if i >= len {
        false
    } else if s.get_char(i) == '<' {
        let j = find_gt(s, len, i + 1);
        proof {
            crate::text::lemma_find_char_bounds(s@, '>', i + 1);
        }
        if i + 1 < j && j < len && word_run(s, i + 1, j) {
            accel_at(s, len, j + 1)
        } else {
            false
        }
    } else {
        word_run(s, i, len)
    }
}

/// Whether the accelerator text is one the tray accepts.
pub fn is_valid_shortcut(accelerator: &str) -> (r: bool)
    ensures
        r == is_valid_shortcut_spec(accelerator@),
{
    let len = accelerator.unicode_len();
    len == 0 || accel_at(accelerator, len, 0)
}

/// What a key press means while the shortcut is being recorded.
pub fn capture(key: &str, modified: bool, accelerator: &str) -> (r: Capture)
    ensures
        capture_spec(key@, modified, accelerator@, r),
{
    if key.is_empty() || is_modifier(key) {
        return Capture::Wait;
    }
    if !modified && same_text(key, "Escape") {
        Capture::Cancel
    } else if !modified && same_text(key, "BackSpace") {
        Capture::Disable
    } else if !modified && !is_function_key(key) {
        Capture::Wait
    } else if is_valid_shortcut(accelerator) && !accelerator.is_empty() {
        Capture::Assign(accelerator.to_owned())
    } else {
        Capture::Wait
    }
}

/// What the recording dialog does after a key press.
#[derive(Debug, Clone, PartialEq, Eq)]
pub struct CaptureEffect {
    /// The action that saves the shortcut: an accelerator, or the empty text that turns it
    /// off.
    pub action: Option<PrefsAction>,
    /// The dialog closes.
    pub close: bool,
}

/// Whether the dialog saves exactly this shortcut.
pub open spec fn saves(effect: CaptureEffect, shortcut: Seq<char>) -> bool {
    effect.action matches Some(PrefsAction::Change(Change::Shortcut(a))) && a@ == shortcut
}

/// What a key press's meaning asks of the dialog: keep listening; close without a change;
/// save the empty shortcut and close; or save the accelerator and close.
pub open spec fn effect_spec(outcome: Capture, effect: CaptureEffect) -> bool {
    match outcome {
        Capture::Wait => effect.action is None && !effect.close,
        Capture::Cancel => effect.action is None && effect.close,
        Capture::Disable => saves(effect, Seq::empty()) && effect.close,
        Capture::Assign(acc) => saves(effect, acc@) && effect.close,
    }
}

/// What the recording dialog does after a key press with this meaning.
pub fn capture_effect(outcome: Capture) -> (effect: CaptureEffect)
    ensures
        effect_spec(outcome, effect),
{
    match outcome {
        Capture::Wait => CaptureEffect { action: None, close: false },
        Capture::Cancel => CaptureEffect { action: None, close: true },
        Capture::Disable => CaptureEffect {
            action: Some(PrefsAction::Change(Change::Shortcut(String::new()))),
            close: true,
        },
        Capture::Assign(accelerator) => CaptureEffect {
            action: Some(PrefsAction::Change(Change::Shortcut(accelerator))),
            close: true,
        },
    }
}

/// The recording dialog only ever saves a shortcut the tray accepts: whatever key is pressed,
/// what it saves is a valid accelerator or the empty text that turns the shortcut off, and
/// it closes exactly when the press did not just keep it listening.
pub proof fn lemma_saved_shortcut_is_valid(
    key: Seq<char>,
    modified: bool,
    accelerator: Seq<char>,
    outcome: Capture,
    effect: CaptureEffect,
)
    requires
        capture_spec(key, modified, accelerator, outcome),
        effect_spec(outcome, effect),
    ensures
        effect.action is Some ==> effect.action matches Some(
            PrefsAction::Change(Change::Shortcut(_)),
        ),
        effect.action matches Some(PrefsAction::Change(Change::Shortcut(a))) ==> is_valid_shortcut_spec(
            a@,
        ),
        effect.close == !(outcome is Wait),
{
}

/// Function keys need no modifier: a key named `F` followed by one or more digits, pressed
/// alone, records the accelerator it spells whenever that is valid and not empty.
pub proof fn lemma_function_keys_record_alone(key: Seq<char>, accelerator: Seq<char>, r: Capture)
    requires
        key.len() >= 2,
        key[0] == 'F',
        forall|k: int| 1 <= k < key.len() ==> '0' <= #[trigger] key[k] <= '9',
        is_valid_shortcut_spec(accelerator),
        accelerator.len() > 0,
        capture_spec(key, false, accelerator, r),
    ensures
        r matches Capture::Assign(a) && a@ == accelerator,
{
    reveal_strlit("Shift");
    reveal_strlit("Control");
    reveal_strlit("Alt");
    reveal_strlit("Super");
    reveal_strlit("Meta");
    reveal_strlit("Hyper");
    reveal_strlit("ISO_");
    reveal_strlit("Caps_Lock");
    reveal_strlit("Num_Lock");
    reveal_strlit("Escape");
    reveal_strlit("BackSpace");
    let names = seq!["Shift"@, "Control"@, "Alt"@, "Super"@, "Meta"@, "Hyper"@, "ISO_"@,
        "Caps_Lock"@, "Num_Lock"@];
    assert forall|n: int| 0 <= n < names.len() implies !starts_with(key, #[trigger] names[n]) by {
        if starts_with(key, names[n]) {
            assert(key.take(names[n].len() as int)[0] == key[0]);
        }
    }
    assert(!starts_with(key, names[0]));
    assert(!starts_with(key, names[1]));
    assert(!starts_with(key, names[2]));
    assert(!starts_with(key, names[3]));
    assert(!starts_with(key, names[4]));
    assert(!starts_with(key, names[5]));
    assert(!starts_with(key, names[6]));
    assert(!starts_with(key, names[7]));
    assert(!starts_with(key, names[8]));
    assert(key != "Escape"@);
    assert(key != "BackSpace"@);
    assert(forall|k: int| 1 <= k < key.len() ==> is_digit(#[trigger] key[k]));
}

/// Escape alone cancels, Backspace alone turns the shortcut off, a modifier or lock key alone
/// keeps the dialog listening, and any other key that is not a function key needs a
/// modifier.
pub proof fn lemma_plain_keys(key: Seq<char>, accelerator: Seq<char>, r: Capture)
    requires
        capture_spec(key, false, accelerator, r),
    ensures
        key == "Escape"@ ==> r is Cancel,
        key == "BackSpace"@ ==> r is Disable,
        key.len() == 0 || starts_with(key, "Shift"@) || starts_with(key, "Control"@)
            || starts_with(key, "Super"@) || starts_with(key, "Alt"@) ==> r is Wait,
        key.len() > 0 && key[0] != 'F' && key != "Escape"@ && key != "BackSpace"@ ==> r is Wait,
{
    reveal_strlit("Escape");
    reveal_strlit("BackSpace");
    reveal_strlit("Shift");
    reveal_strlit("Control");
    reveal_strlit("Alt");
    reveal_strlit("Super");
    if key == "Escape"@ || key == "BackSpace"@ {
        reveal_strlit("Meta");
        reveal_strlit("Hyper");
        reveal_strlit("ISO_");
        reveal_strlit("Caps_Lock");
        reveal_strlit("Num_Lock");
        assert(!starts_with(key, "Shift"@)) by {
            if starts_with(key, "Shift"@) { assert(key.take(5)[0] == key[0]); }
        }
        assert(!starts_with(key, "Control"@)) by {
            if starts_with(key, "Control"@) { assert(key.take(7)[0] == key[0]); }
        }
        assert(!starts_with(key, "Alt"@)) by {
            if starts_with(key, "Alt"@) { assert(key.take(3)[0] == key[0]); }
        }
        assert(!starts_with(key, "Super"@)) by {
            if starts_with(key, "Super"@) { assert(key.take(5)[0] == key[0]); }
        }
        assert(!starts_with(key, "Meta"@)) by {
            if starts_with(key, "Meta"@) { assert(key.take(4)[0] == key[0]); }
        }
        assert(!starts_with(key, "Hyper"@)) by {
            if starts_with(key, "Hyper"@) { assert(key.take(5)[0] == key[0]); }
        }
        assert(!starts_with(key, "ISO_"@)) by {
            if starts_with(key, "ISO_"@) { assert(key.take(4)[0] == key[0]); }
        }
        assert(!starts_with(key, "Caps_Lock"@)) by {
            if starts_with(key, "Caps_Lock"@) { assert(key.take(9)[0] == key[0]); }
        }
        assert(!starts_with(key, "Num_Lock"@)) by {
            if starts_with(key, "Num_Lock"@) { assert(key.take(8)[0] == key[0]); }
        }
    }
}

} // verus!
