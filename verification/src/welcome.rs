//! Keeping the first-run welcome list in step with what was found: the list is built anew
//! only when its lines change, and a change of visibility alone only moves the switches.

use vstd::prelude::*;
use crate::context::PrefsAction;
use crate::found::{Found, FoundRow};

verus! {

/// The same finding: the same account and visibility, or the same kind without an account.
pub open spec fn found_eq(a: Found, b: Found) -> bool {
    match (a, b) {
        (
            Found::SignedIn { account_id: x, hidden: h },
            Found::SignedIn { account_id: y, hidden: k },
        ) => x@ == y@ && h == k,
        (Found::SignedOut, Found::SignedOut) => true,
        (Found::NotInstalled, Found::NotInstalled) => true,
        _ => false,
    }
}

/// The same line, field by field.
pub open spec fn row_eq(a: FoundRow, b: FoundRow) -> bool {
    &&& a.provider@ == b.provider@
    &&& a.title@ == b.title@
    &&& a.subtitle@ == b.subtitle@
    &&& found_eq(a.found, b.found)
}

/// The same lines, in the same order.
pub open spec fn rows_eq(a: Seq<FoundRow>, b: Seq<FoundRow>) -> bool {
    a.len() == b.len() && forall|i: int| 0 <= i < a.len() ==> row_eq(#[trigger] a[i], b[i])
}

/// The line with its account shown: what the list is built from, whatever the visibility.
pub open spec fn cleared(row: FoundRow) -> FoundRow {
    FoundRow {
        provider: row.provider,
        title: row.title,
        subtitle: row.subtitle,
        found: match row.found {
            Found::SignedIn { account_id, hidden: _ } => Found::SignedIn {
                account_id,
                hidden: false,
            },
            other => other,
        },
    }
}

/// The shapes of some lines.
pub open spec fn shapes(rows: Seq<FoundRow>) -> Seq<FoundRow> {
    rows.map_values(|r: FoundRow| cleared(r))
}

/// The state of the visibility switch of a line: on for a shown account, off for a hidden
/// one, and none for a line without an account.
pub open spec fn switch_of(row: FoundRow) -> Option<bool> {
    match row.found {
        Found::SignedIn { hidden, .. } => Some(!hidden),
        _ => None,
    }
}

/// The line with its account shown.
pub fn without_hidden(row: &FoundRow) -> (shape: FoundRow)
    ensures
        row_eq(shape, cleared(*row)),
{
    let found = match &row.found {
        Found::SignedIn { account_id, .. } => Found::SignedIn {
            account_id: account_id.clone(),
            hidden: false,
        },
        Found::SignedOut => Found::SignedOut,
        Found::NotInstalled => Found::NotInstalled,
    };
    FoundRow {
        provider: row.provider.clone(),
        title: row.title.clone(),
        subtitle: row.subtitle.clone(),
        found,
    }
}

fn same_found(a: &Found, b: &Found) -> (r: bool)
    ensures
        r == found_eq(*a, *b),
{
    match (a, b) {
        (
            Found::SignedIn { account_id: x, hidden: h },
            Found::SignedIn { account_id: y, hidden: k },
        ) => *x == *y && *h == *k,
        (Found::SignedOut, Found::SignedOut) => true,
        (Found::NotInstalled, Found::NotInstalled) => true,
        _ => false,
    }
}

fn same_row(a: &FoundRow, b: &FoundRow) -> (r: bool)
    ensures
        r == row_eq(*a, *b),
{
    a.provider == b.provider && a.title == b.title && a.subtitle == b.subtitle && same_found(
        &a.found,
        &b.found,
    )
}

/// What the welcome list does with a new finding.
#[derive(Debug, Clone, PartialEq, Eq)]
pub struct WelcomeSync {
    /// The lines are built anew.
    pub rebuild: bool,
    /// The shapes the list keeps for the next comparison.
    pub shapes: Vec<FoundRow>,
    /// The state of each line's visibility switch, in order.
    pub switches: Vec<Option<bool>>,
}

/// How the welcome list follows a new finding, given the shapes of the lines it shows: it is
/// built anew exactly when the shapes of the new lines differ from those, and every line's
/// switch then follows whether its account is hidden.
pub fn welcome_sync(known: &[FoundRow], found: &[FoundRow]) -> (sync: WelcomeSync)
    ensures
        sync.rebuild == !rows_eq(known@, shapes(found@)),
        !sync.rebuild <==> (known@.len() == found@.len() && forall|i: int|
            #![trigger found@[i]]
            0 <= i < found@.len() ==> known@[i].provider@ == found@[i].provider@
                && known@[i].title@ == found@[i].title@ && known@[i].subtitle@ == found@[i].subtitle@
                && match (found@[i].found, known@[i].found) {
                (Found::SignedIn { account_id: a, .. }, Found::SignedIn { account_id: b, hidden }) => a@
                    == b@ && !hidden,
                (Found::SignedOut, Found::SignedOut) => true,
                (Found::NotInstalled, Found::NotInstalled) => true,
                _ => false,
            }),
        rows_eq(sync.shapes@, shapes(found@)),
        sync.switches@ == found@.map_values(|r: FoundRow| switch_of(r)),
{
    let mut shapes_now: Vec<FoundRow> = Vec::new();
    let mut switches: Vec<Option<bool>> = Vec::new();
    let mut i: usize = 0;
    while i < found.len()
        invariant
            i <= found@.len(),
            shapes_now@.len() == i,
            switches@.len() == i,
            forall|k: int| 0 <= k < i ==> row_eq(#[trigger] shapes_now@[k], cleared(found@[k])),
            forall|k: int| 0 <= k < i ==> #[trigger] switches@[k] == switch_of(found@[k]),
        decreases found@.len() - i,
    {
        shapes_now.push(without_hidden(&found[i]));
        let switch = match &found[i].found {
            Found::SignedIn { hidden, .. } => Some(!*hidden),
            _ => None,
        };
        switches.push(switch);
        i = i + 1;
    }
    let mut same = known.len() == found.len();
    let mut k: usize = 0;
    while same && k < known.len()
        invariant
            k <= known@.len(),
            shapes_now@.len() == found@.len(),
            forall|j: int| 0 <= j < found@.len() ==> row_eq(#[trigger] shapes_now@[j], cleared(found@[j])),
            same ==> known@.len() == found@.len(),
            same ==> forall|j: int| 0 <= j < k ==> row_eq(#[trigger] known@[j], shapes(found@)[j]),
            !same ==> !rows_eq(known@, shapes(found@)),
        decreases known@.len() - k,
    {
        let equal = same_row(&known[k], &shapes_now[k]);
        proof {
            assert(shapes(found@)[k as int] == cleared(found@[k as int]));
        }
        if !equal {
            same = false;
        }
        k = k + 1;
    }
    assert(switches@ =~= found@.map_values(|r: FoundRow| switch_of(r)));
    proof {
        lemma_kept_shapes_fields(known@, found@);
    }
    WelcomeSync { rebuild: !same, shapes: shapes_now, switches }
}

/// The kept lines match a finding exactly when, line by line, the provider, the title, the
/// subtitle and the kind of line are the same, accounts the same account and kept as shown:
/// a change in any of them, the hidden flag apart, rebuilds the list.
pub proof fn lemma_kept_shapes_fields(known: Seq<FoundRow>, found: Seq<FoundRow>)
    ensures
        rows_eq(known, shapes(found)) <==> (known.len() == found.len() && forall|i: int|
            #![trigger found[i]]
            0 <= i < found.len() ==> known[i].provider@ == found[i].provider@
                && known[i].title@ == found[i].title@ && known[i].subtitle@ == found[i].subtitle@
                && match (found[i].found, known[i].found) {
                (Found::SignedIn { account_id: a, .. }, Found::SignedIn { account_id: b, hidden }) => a@
                    == b@ && !hidden,
                (Found::SignedOut, Found::SignedOut) => true,
                (Found::NotInstalled, Found::NotInstalled) => true,
                _ => false,
            }),
{
    if known.len() == found.len() {
        assert forall|i: int| 0 <= i < found.len() implies (row_eq(known[i], shapes(found)[i]) <==> known[i].provider@ == found[i].provider@
                && known[i].title@ == found[i].title@ && known[i].subtitle@ == found[i].subtitle@
                && match (found[i].found, known[i].found) {
                (Found::SignedIn { account_id: a, .. }, Found::SignedIn { account_id: b, hidden }) => a@
                    == b@ && !hidden,
                (Found::SignedOut, Found::SignedOut) => true,
                (Found::NotInstalled, Found::NotInstalled) => true,
                _ => false,
            }) by {
            assert(shapes(found)[i] == cleared(found[i]));
        }
        if rows_eq(known, shapes(found)) {
            assert forall|i: int| #![trigger found[i]] 0 <= i < found.len() implies known[i].provider@ == found[i].provider@
                && known[i].title@ == found[i].title@ && known[i].subtitle@ == found[i].subtitle@
                && match (found[i].found, known[i].found) {
                (Found::SignedIn { account_id: a, .. }, Found::SignedIn { account_id: b, hidden }) => a@
                    == b@ && !hidden,
                (Found::SignedOut, Found::SignedOut) => true,
                (Found::NotInstalled, Found::NotInstalled) => true,
                _ => false,
            } by {
                assert(row_eq(known[i], shapes(found)[i]));
            }
        }
        if forall|i: int| #![trigger found[i]] 0 <= i < found.len() ==> known[i].provider@ == found[i].provider@
                && known[i].title@ == found[i].title@ && known[i].subtitle@ == found[i].subtitle@
                && match (found[i].found, known[i].found) {
                (Found::SignedIn { account_id: a, .. }, Found::SignedIn { account_id: b, hidden }) => a@
                    == b@ && !hidden,
                (Found::SignedOut, Found::SignedOut) => true,
                (Found::NotInstalled, Found::NotInstalled) => true,
                _ => false,
            } {
            assert forall|i: int| 0 <= i < known.len() implies row_eq(#[trigger] known[i], shapes(found)[i]) by {
                assert(shapes(found)[i] == cleared(found[i]));
            }
        }
    }
}

/// Showing or hiding accounts never rebuilds the welcome list: when the list shows the
/// shapes of one finding, a finding that differs from it only in which accounts are hidden
/// leaves the list as it is.
pub proof fn lemma_visibility_keeps_list(known: Seq<FoundRow>, a: Seq<FoundRow>, b: Seq<FoundRow>)
    requires
        rows_eq(known, shapes(a)),
        rows_eq(shapes(a), shapes(b)),
    ensures
        rows_eq(known, shapes(b)),
{
    assert forall|i: int| 0 <= i < known.len() implies row_eq(#[trigger] known[i], shapes(b)[i]) by {
        assert(row_eq(known[i], shapes(a)[i]));
        assert(row_eq(shapes(a)[i], shapes(b)[i]));
    }
}

/// Two findings that differ only in which accounts are hidden have the same shapes.
pub proof fn lemma_hidden_flags_do_not_shape(a: Seq<FoundRow>, b: Seq<FoundRow>)
    requires
        a.len() == b.len(),
        forall|i: int|
            0 <= i < a.len() ==> row_eq(#[trigger] cleared(a[i]), cleared(b[i])),
    ensures
        rows_eq(shapes(a), shapes(b)),
{
    assert forall|i: int| 0 <= i < a.len() implies row_eq(#[trigger] shapes(a)[i], shapes(b)[i]) by {
        assert(row_eq(cleared(a[i]), cleared(b[i])));
    }
}

/// Clearing the visibility twice changes nothing more: the shapes of shapes are the shapes.
pub proof fn lemma_shapes_idempotent(rows: Seq<FoundRow>)
    ensures
        rows_eq(shapes(shapes(rows)), shapes(rows)),
{
    assert forall|i: int| 0 <= i < rows.len() implies row_eq(
        #[trigger] shapes(shapes(rows))[i],
        shapes(rows)[i],
    ) by {
        assert(shapes(rows)[i] == cleared(rows[i]));
    }
}

/// The controls of a line of the welcome list.
#[derive(Debug, Clone, Copy, PartialEq, Eq, Structural)]
pub struct LineLook {
    /// The visibility switch of a tracked account, and whether it is on.
    pub switch: Option<bool>,
    /// The "Sign In" button of a tool found without an account.
    pub sign_in: bool,
    /// An inert switch beside a tool that is not installed.
    pub placeholder: bool,
    /// The line can be used; a tool that is not installed is greyed out.
    pub sensitive: bool,
}

/// The controls of a line: a switch that is on while the account shows, for a tracked
/// account; a "Sign In" button, for a tool found without an account; a greyed-out line with
/// an inert switch, for a tool that is not installed.
pub fn line_look(row: &FoundRow) -> (look: LineLook)
    ensures
        look == match row.found {
            Found::SignedIn { hidden, .. } => LineLook {
                switch: Some(!hidden),
                sign_in: false,
                placeholder: false,
                sensitive: true,
            },
            Found::SignedOut => LineLook {
                switch: None,
                sign_in: true,
                placeholder: false,
                sensitive: true,
            },
            Found::NotInstalled => LineLook {
                switch: None,
                sign_in: false,
                placeholder: true,
                sensitive: false,
            },
        },
{
    match &row.found {
        Found::SignedIn { hidden, .. } => LineLook {
            switch: Some(!*hidden),
            sign_in: false,
            placeholder: false,
            sensitive: true,
        },
        Found::SignedOut => LineLook { switch: None, sign_in: true, placeholder: false, sensitive: true },
        Found::NotInstalled => LineLook {
            switch: None,
            sign_in: false,
            placeholder: true,
            sensitive: false,
        },
    }
}

/// What the user does on a line.
#[derive(Debug, Clone, Copy, PartialEq, Eq, Structural)]
pub enum RowGesture {
    /// The visibility switch was turned; `true` when it is now on.
    Toggle(bool),
    /// The "Sign In" button was pressed.
    SignIn,
}

/// What a gesture on a line asks of the tray.
#[derive(Debug, Clone, PartialEq, Eq)]
pub enum WelcomeEffect {
    /// A settings action.
    Act(PrefsAction),
    /// The add-account flow, for the provider when one is named.
    Add(Option<String>),
    /// Nothing.
    Nothing,
}

/// What a gesture on a line asks for: turning an account's switch hides the account when it
/// goes off and shows it when it goes on, unless the list itself is moving the switches;
/// "Sign In" on a tool found without an account opens the add flow for that provider; any
/// other gesture asks for nothing.
pub fn row_gesture(row: &FoundRow, gesture: RowGesture, syncing: bool) -> (effect: WelcomeEffect)
    ensures
        match (row.found, gesture) {
            (Found::SignedIn { account_id, .. }, RowGesture::Toggle(on)) => if syncing {
                effect is Nothing
            } else {
                effect matches WelcomeEffect::Act(PrefsAction::SetHidden { account_id: id, hidden })
                    && id@ == account_id@ && hidden == !on
            },
            (Found::SignedOut, RowGesture::SignIn) => effect matches WelcomeEffect::Add(Some(p))
                && p@ == row.provider@,
            _ => effect is Nothing,
        },
{
    match (&row.found, gesture) {
        (Found::SignedIn { account_id, .. }, RowGesture::Toggle(on)) => {
            if syncing {
                WelcomeEffect::Nothing
            } else {
                WelcomeEffect::Act(PrefsAction::SetHidden { account_id: account_id.clone(), hidden: !on })
            }
        },
        (Found::SignedOut, RowGesture::SignIn) => WelcomeEffect::Add(Some(row.provider.clone())),
        _ => WelcomeEffect::Nothing,
    }
}

} // verus!
