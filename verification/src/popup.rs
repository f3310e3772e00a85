//! The order of the popup's cards: the spend card, then one card per shown account or per
//! combined group of accounts, with the folded ones behind a "more" line.

use vstd::prelude::*;
use crate::payload::{Account, CombinedGroup, Display, State};

verus! {

/// What a card shows: an account, by its place in the state's accounts, or a combined
/// group, by its place in the state's groups.
#[derive(Debug, Clone, Copy, PartialEq, Eq, Structural)]
pub enum Placed {
    Account(usize),
    Group(usize),
}

/// One entry of the popup, from top to bottom.
#[derive(Debug, Clone, Copy, PartialEq, Eq, Structural)]
pub enum Entry {
    /// Nothing to show.
    Empty,
    /// The leading card; `true` when it shows spend.
    Leading(bool),
    /// An account's card.
    Account(usize),
    /// A combined group's card.
    Group(usize),
    /// The line that unfolds the folded cards.
    More,
    /// The line that folds them again, above them.
    Less,
}

/// Whether one of the ids is `id`.
pub open spec fn has_id(ids: Seq<String>, id: Seq<char>) -> bool {
    exists|k: int| 0 <= k < ids.len() && #[trigger] ids[k]@ == id
}

/// The first group from `from` on that lists `id`, or the number of groups.
pub open spec fn group_index(groups: Seq<CombinedGroup>, id: Seq<char>, from: int) -> int
    decreases groups.len() - from,
{
    if from < 0 || from >= groups.len() {
        groups.len() as int
    } else if has_id(groups[from].account_ids@, id) {
        from
    } else {
        group_index(groups, id, from + 1)
    }
}

/// Whether a shown account has the id.
pub open spec fn shown_id(accounts: Seq<Account>, id: Seq<char>) -> bool {
    exists|a: int| 0 <= a < accounts.len() && !accounts[a].hidden && #[trigger] accounts[a].id@ == id
}

/// The first of the ids from `from` on that a shown account has, or the number of ids.
pub open spec fn first_shown(accounts: Seq<Account>, ids: Seq<String>, from: int) -> int
    decreases ids.len() - from,
{
    if from < 0 || from >= ids.len() {
        ids.len() as int
    } else if shown_id(accounts, ids[from]@) {
        from
    } else {
        first_shown(accounts, ids, from + 1)
    }
}

/// Whether the account with this id opens the card of group `g`: it is the group's first
/// member that is shown.
pub open spec fn leads_group(accounts: Seq<Account>, group: CombinedGroup, id: Seq<char>) -> bool {
    let k = first_shown(accounts, group.account_ids@, 0);
    k < group.account_ids@.len() && group.account_ids@[k]@ == id
}

/// Where the shown account `i` goes, with whether that card is folded: the card of its group
/// when it is the group's first shown member, nowhere when it is another member, and a card
/// of its own when it is in no group.
pub open spec fn place(state: State, i: int) -> Option<(Placed, bool)> {
    let account = state.accounts@[i];
    let g = group_index(state.combined@, account.id@, 0);
    if g < state.combined@.len() {
        if leads_group(state.accounts@, state.combined@[g], account.id@) {
            Some((Placed::Group(g as usize), state.combined@[g].collapsed))
        } else {
            None
        }
    } else {
        Some((Placed::Account(i as usize), account.collapsed))
    }
}

/// The cards of the first `n` accounts, in order.
pub open spec fn placements_upto(state: State, n: int) -> Seq<(Placed, bool)>
    decreases n,
{
    if n <= 0 {
        Seq::empty()
    } else {
        placements_upto(state, n - 1) + if state.accounts@[n - 1].hidden {
            Seq::<(Placed, bool)>::empty()
        } else {
            match place(state, n - 1) {
                Some(p) => seq![p],
                None => Seq::<(Placed, bool)>::empty(),
            }
        }
    }
}

/// The cards of all shown accounts, in order.
pub open spec fn placements_spec(state: State) -> Seq<(Placed, bool)> {
    placements_upto(state, state.accounts@.len() as int)
}

/// The entry of a card.
pub open spec fn entry_of(p: (Placed, bool)) -> Entry {
    match p.0 {
        Placed::Account(i) => Entry::Account(i),
        Placed::Group(g) => Entry::Group(g),
    }
}

/// The entries of some cards.
pub open spec fn entries_of(ps: Seq<(Placed, bool)>) -> Seq<Entry> {
    ps.map_values(|p: (Placed, bool)| entry_of(p))
}

/// The cards that are not folded.
pub open spec fn unfolded() -> spec_fn((Placed, bool)) -> bool {
    |p: (Placed, bool)| !p.1
}

/// The cards that are folded.
pub open spec fn folded() -> spec_fn((Placed, bool)) -> bool {
    |p: (Placed, bool)| p.1
}

/// Whether every account is hidden.
pub open spec fn no_shown(accounts: Seq<Account>) -> bool {
    forall|a: int| 0 <= a < accounts.len() ==> #[trigger] accounts[a].hidden
}

/// Whether the popup opens with spend.
pub open spec fn shows_spend(state: State, display: Display) -> bool {
    display.show_spend && state.usage@.len() > 0
}

/// The popup's entries: nothing when there is neither a shown account nor spend; otherwise
/// the leading card, the unfolded cards in order, and, when the folded cards have a summary,
/// either the "more" line or, unfolded, the "less" line and the folded cards in order.
pub open spec fn entries_spec(state: State, display: Display, has_summary: bool, expanded: bool) -> Seq<Entry> {
    let cards = placements_spec(state);
    if no_shown(state.accounts@) && !shows_spend(state, display) {
        seq![Entry::Empty]
    } else {
        seq![Entry::Leading(shows_spend(state, display))] + entries_of(cards.filter(unfolded()))
            + if !has_summary {
            Seq::<Entry>::empty()
        } else if expanded {
            seq![Entry::Less] + entries_of(cards.filter(folded()))
        } else {
            seq![Entry::More]
        }
    }
}

fn contains_id(ids: &Vec<String>, id: &String) -> (r: bool)
    ensures
        r == has_id(ids@, id@),
{
    let mut k: usize = 0;
    while k < ids.len()
        invariant
            k <= ids@.len(),
            forall|j: int| 0 <= j < k ==> ids@[j]@ != id@,
        decreases ids.len() - k,
    {
        if ids[k] == *id {
            return true;
        }
        k = k + 1;
    }
    false
}

fn group_of(groups: &Vec<CombinedGroup>, id: &String) -> (g: usize)
    ensures
        g as int == group_index(groups@, id@, 0),
{
    let mut g: usize = 0;
    while g < groups.len()
        invariant
            g <= groups@.len(),
            group_index(groups@, id@, 0) == group_index(groups@, id@, g as int),
        decreases groups.len() - g,
    {
        if contains_id(&groups[g].account_ids, id) {
            return g;
        }
        g = g + 1;
    }
    g
}

fn is_shown_id(accounts: &Vec<Account>, id: &String) -> (r: bool)
    ensures
        r == shown_id(accounts@, id@),
{
    let mut a: usize = 0;
    while a < accounts.len()
        invariant
            a <= accounts@.len(),
            forall|j: int| 0 <= j < a ==> !(!accounts@[j].hidden && #[trigger] accounts@[j].id@ == id@),
        decreases accounts.len() - a,
    {
        if !accounts[a].hidden && accounts[a].id == *id {
            return true;
        }
        a = a + 1;
    }
    false
}

fn first_shown_member(accounts: &Vec<Account>, ids: &Vec<String>) -> (k: usize)
    ensures
        k as int == first_shown(accounts@, ids@, 0),
{
    let mut k: usize = 0;
    while k < ids.len()
        invariant
            k <= ids@.len(),
            first_shown(accounts@, ids@, 0) == first_shown(accounts@, ids@, k as int),
        decreases ids.len() - k,
    {
        if is_shown_id(accounts, &ids[k]) {
            return k;
        }
        k = k + 1;
    }
    k
}

fn place_account(state: &State, i: usize) -> (p: Option<(Placed, bool)>)
    requires
        i < state.accounts@.len(),
    ensures
        p == place(*state, i as int),
{
    let account = &state.accounts[i];
    let g = group_of(&state.combined, &account.id);
    if g < state.combined.len() {
        let group = &state.combined[g];
        let k = first_shown_member(&state.accounts, &group.account_ids);
        if k < group.account_ids.len() && group.account_ids[k] == account.id {
            Some((Placed::Group(g), group.collapsed))
        } else {
            None
        }
    } else {
        Some((Placed::Account(i), account.collapsed))
    }
}

/// The cards of the shown accounts, in order, each with whether it is folded: an account in
/// a combined group opens the group's card when it is the group's first shown member and adds
/// nothing otherwise; any other account has a card of its own.
pub fn placements(state: &State) -> (cards: Vec<(Placed, bool)>)
    ensures
        cards@ == placements_spec(*state),
        forall|k: int|
            0 <= k < cards@.len() ==> match (#[trigger] cards@[k]).0 {
                Placed::Group(g) => g < state.combined@.len() && cards@[k].1
                    == state.combined@[g as int].collapsed,
                Placed::Account(i) => i < state.accounts@.len() && cards@[k].1
                    == state.accounts@[i as int].collapsed,
            },
{
    proof {
        lemma_cards_fold_as_their_source(*state);
    }
    let mut cards: Vec<(Placed, bool)> = Vec::new();
    let mut i: usize = 0;
    while i < state.accounts.len()
        invariant
            i <= state.accounts@.len(),
            cards@ == placements_upto(*state, i as int),
        decreases state.accounts.len() - i,
    {
        let ghost before = cards@;
        if !state.accounts[i].hidden {
            match place_account(state, i) {
                Some(p) => {
                    cards.push(p);
                },
                None => {},
            }
        }
        proof {
            let tail = if state.accounts@[i as int].hidden {
                Seq::<(Placed, bool)>::empty()
            } else {
                match place(*state, i as int) {
                    Some(p) => seq![p],
                    None => Seq::<(Placed, bool)>::empty(),
                }
            };
            assert(placements_upto(*state, i + 1) == before + tail);
            assert(cards@ =~= before + tail);
        }
        i = i + 1;
    }
    cards
}

proof fn lemma_group_index_bounds(groups: Seq<CombinedGroup>, id: Seq<char>, from: int)
    requires
        0 <= from,
    ensures
        group_index(groups, id, from) == groups.len() || (from <= group_index(groups, id, from)
            < groups.len() && has_id(groups[group_index(groups, id, from)].account_ids@, id)),
        forall|g: int|
            from <= g < group_index(groups, id, from) && g < groups.len() ==> !has_id(
                #[trigger] groups[g].account_ids@,
                id,
            ),
    decreases groups.len() - from,
{
    if from < groups.len() && !has_id(groups[from].account_ids@, id) {
        lemma_group_index_bounds(groups, id, from + 1);
    }
}

proof fn lemma_first_shown_bounds(accounts: Seq<Account>, ids: Seq<String>, from: int)
    requires
        0 <= from,
    ensures
        first_shown(accounts, ids, from) == ids.len() || (from <= first_shown(accounts, ids, from)
            < ids.len() && shown_id(accounts, ids[first_shown(accounts, ids, from)]@)),
        forall|m: int|
            from <= m < ids.len() && shown_id(accounts, #[trigger] ids[m]@) ==> first_shown(
                accounts,
                ids,
                from,
            ) <= m,
    decreases ids.len() - from,
{
    if from < ids.len() && !shown_id(accounts, ids[from]@) {
        lemma_first_shown_bounds(accounts, ids, from + 1);
    }
}

/// What the cards of the first `n` accounts are made of, and that each shown account among
/// them that opens a card has it there.
proof fn lemma_placements_upto(state: State, n: int)
    requires
        0 <= n <= state.accounts@.len(),
    ensures
        forall|k: int|
            0 <= k < placements_upto(state, n).len() ==> {
                let p = #[trigger] placements_upto(state, n)[k];
                exists|j: int| 0 <= j < n && !state.accounts@[j].hidden && place(state, j) == Some(p)
            },
        forall|j: int|
            0 <= j < n && !state.accounts@[j].hidden && #[trigger] place(state, j) is Some ==> exists|
                k: int,
            |
                0 <= k < placements_upto(state, n).len() && placements_upto(state, n)[k] == place(
                    state,
                    j,
                )->0,
    decreases n,
{
    if n > 0 {
        lemma_placements_upto(state, n - 1);
        let before = placements_upto(state, n - 1);
        let tail = if state.accounts@[n - 1].hidden {
            Seq::<(Placed, bool)>::empty()
        } else {
            match place(state, n - 1) {
                Some(p) => seq![p],
                None => Seq::<(Placed, bool)>::empty(),
            }
        };
        let now = placements_upto(state, n);
        assert(now == before + tail);
        assert forall|k: int| 0 <= k < now.len() implies {
            let p = #[trigger] now[k];
            exists|j: int| 0 <= j < n && !state.accounts@[j].hidden && place(state, j) == Some(p)
        } by {
            if k < before.len() {
                assert(now[k] == before[k]);
                let p = before[k];
                let j = choose|j: int|
                    0 <= j < n - 1 && !state.accounts@[j].hidden && place(state, j) == Some(p);
            } else {
                assert(now[k] == tail[k - before.len()]);
            }
        }
        assert forall|j: int|
            0 <= j < n && !state.accounts@[j].hidden && #[trigger] place(state, j) is Some implies exists|
            k: int,
        | 0 <= k < now.len() && now[k] == place(state, j)->0 by {
            if j < n - 1 {
                let k = choose|k: int|
                    0 <= k < before.len() && before[k] == place(state, j)->0;
                assert(now[k] == before[k]);
            } else {
                assert(now[before.len() as int] == place(state, j)->0);
            }
        }
    }
}

/// A card is folded exactly as its source says: a group's card as the group, an account's
/// card as the account.
pub proof fn lemma_cards_fold_as_their_source(state: State)
    ensures
        forall|k: int|
            0 <= k < placements_spec(state).len() ==> match (#[trigger] placements_spec(state)[k]).0 {
                Placed::Group(g) => g < state.combined@.len() && placements_spec(state)[k].1
                    == state.combined@[g as int].collapsed,
                Placed::Account(i) => i < state.accounts@.len() && placements_spec(state)[k].1
                    == state.accounts@[i as int].collapsed,
            },
{
    let n = state.accounts@.len() as int;
    lemma_placements_upto(state, n);
    assert forall|k: int| 0 <= k < placements_spec(state).len() implies match (
    #[trigger] placements_spec(state)[k]).0 {
        Placed::Group(g) => g < state.combined@.len() && placements_spec(state)[k].1
            == state.combined@[g as int].collapsed,
        Placed::Account(i) => i < state.accounts@.len() && placements_spec(state)[k].1
            == state.accounts@[i as int].collapsed,
    } by {
        let p = placements_spec(state)[k];
        let j = choose|j: int| 0 <= j < n && !state.accounts@[j].hidden && place(state, j) == Some(p);
        assert(state.accounts.len() == state.accounts@.len());
        assert(state.combined.len() == state.combined@.len());
        let id = state.accounts@[j].id@;
        lemma_group_index_bounds(state.combined@, id, 0);
        let g = group_index(state.combined@, id, 0);
        if g < state.combined@.len() {
            assert(p == (Placed::Group(g as usize), state.combined@[g].collapsed));
            assert((g as usize) as int == g);
        } else {
            assert(p == (Placed::Account(j as usize), state.accounts@[j].collapsed));
            assert((j as usize) as int == j);
        }
    }
}

/// Every card of the popup belongs to a shown account: an account card to a shown account in
/// no group, a group card to a group whose first shown member is a shown account of it.
pub proof fn lemma_cards_come_from_shown_accounts(state: State)
    ensures
        forall|k: int|
            0 <= k < placements_spec(state).len() ==> match (#[trigger] placements_spec(state)[k]).0 {
                Placed::Account(i) => i < state.accounts@.len() && !state.accounts@[i as int].hidden
                    && group_index(state.combined@, state.accounts@[i as int].id@, 0)
                    == state.combined@.len(),
                Placed::Group(g) => g < state.combined@.len() && exists|j: int|
                    0 <= j < state.accounts@.len() && !state.accounts@[j].hidden && group_index(
                        state.combined@,
                        #[trigger] state.accounts@[j].id@,
                        0,
                    ) == g && leads_group(state.accounts@, state.combined@[g as int], state.accounts@[j].id@),
            },
{
    let n = state.accounts@.len() as int;
    lemma_placements_upto(state, n);
    assert forall|k: int| 0 <= k < placements_spec(state).len() implies match (
    #[trigger] placements_spec(state)[k]).0 {
        Placed::Account(i) => i < state.accounts@.len() && !state.accounts@[i as int].hidden
            && group_index(state.combined@, state.accounts@[i as int].id@, 0)
            == state.combined@.len(),
        Placed::Group(g) => g < state.combined@.len() && exists|j: int|
            0 <= j < state.accounts@.len() && !state.accounts@[j].hidden && group_index(
                state.combined@,
                #[trigger] state.accounts@[j].id@,
                0,
            ) == g && leads_group(state.accounts@, state.combined@[g as int], state.accounts@[j].id@),
    } by {
        let p = placements_spec(state)[k];
        let j = choose|j: int| 0 <= j < n && !state.accounts@[j].hidden && place(state, j) == Some(p);
        assert(state.accounts.len() == state.accounts@.len());
        assert(state.combined.len() == state.combined@.len());
        let id = state.accounts@[j].id@;
        lemma_group_index_bounds(state.combined@, id, 0);
        let g = group_index(state.combined@, id, 0);
        if g < state.combined@.len() {
            assert(p.0 == Placed::Group(g as usize));
            assert(leads_group(state.accounts@, state.combined@[g], id));
        } else {
            assert(p.0 == Placed::Account(j as usize));
        }
    }
}

/// No card is shown twice, as long as no two accounts share an id.
pub proof fn lemma_no_card_twice(state: State)
    requires
        forall|a: int, b: int|
            0 <= a < b < state.accounts@.len() ==> #[trigger] state.accounts@[a].id@
                != #[trigger] state.accounts@[b].id@,
    ensures
        forall|k: int, m: int|
            0 <= k < m < placements_spec(state).len() ==> (#[trigger] placements_spec(state)[k]).0
                != (#[trigger] placements_spec(state)[m]).0,
{
    lemma_no_card_twice_upto(state, state.accounts@.len() as int);
}

proof fn lemma_places_differ(state: State, j: int, i: int)
    requires
        0 <= j < i < state.accounts@.len(),
        state.accounts@[j].id@ != state.accounts@[i].id@,
        place(state, j) is Some,
        place(state, i) is Some,
    ensures
        (place(state, j)->0).0 != (place(state, i)->0).0,
{
    assert(state.accounts.len() == state.accounts@.len());
    assert(state.combined.len() == state.combined@.len());
    lemma_group_index_bounds(state.combined@, state.accounts@[j].id@, 0);
    lemma_group_index_bounds(state.combined@, state.accounts@[i].id@, 0);
    let gj = group_index(state.combined@, state.accounts@[j].id@, 0);
    let gi = group_index(state.combined@, state.accounts@[i].id@, 0);
    if gj < state.combined@.len() && gi < state.combined@.len() {
        if gi == gj {
            let ids = state.combined@[gi].account_ids@;
            let f = first_shown(state.accounts@, ids, 0);
            assert(ids[f]@ == state.accounts@[j].id@);
            assert(ids[f]@ == state.accounts@[i].id@);
        } else {
            assert((gi as usize) as int == gi);
            assert((gj as usize) as int == gj);
        }
    } else if gj >= state.combined@.len() && gi >= state.combined@.len() {
        assert((i as usize) as int == i);
        assert((j as usize) as int == j);
    }
}

proof fn lemma_no_card_twice_upto(state: State, n: int)
    requires
        0 <= n <= state.accounts@.len(),
        forall|a: int, b: int|
            0 <= a < b < state.accounts@.len() ==> #[trigger] state.accounts@[a].id@
                != #[trigger] state.accounts@[b].id@,
    ensures
        forall|k: int, m: int|
            0 <= k < m < placements_upto(state, n).len() ==> (#[trigger] placements_upto(state, n)[k]).0
                != (#[trigger] placements_upto(state, n)[m]).0,
    decreases n,
{
    if n > 0 {
        lemma_no_card_twice_upto(state, n - 1);
        lemma_placements_upto(state, n - 1);
        let before = placements_upto(state, n - 1);
        let now = placements_upto(state, n);
        let i = n - 1;
        if !state.accounts@[i].hidden && place(state, i) is Some {
            let p = place(state, i)->0;
            assert(now == before.push(p));
            assert forall|k: int, m: int| 0 <= k < m < now.len() implies (#[trigger] now[k]).0
                != (#[trigger] now[m]).0 by {
                if m == before.len() {
                    assert(now[k] == before[k]);
                    let q = before[k];
                    let j = choose|j: int|
                        0 <= j < n - 1 && !state.accounts@[j].hidden && place(state, j) == Some(q);
                    lemma_places_differ(state, j, i);
                } else {
                    assert(now[k] == before[k]);
                    assert(now[m] == before[m]);
                }
            }
        } else {
            assert(now =~= before);
        }
    }
}

/// The card a shown account is on: its group's, when it is in one, or its own.
pub open spec fn card_of(state: State, i: int) -> Placed {
    let g = group_index(state.combined@, state.accounts@[i].id@, 0);
    if g < state.combined@.len() {
        Placed::Group(g as usize)
    } else {
        Placed::Account(i as usize)
    }
}

/// Whether no account id is listed by two groups.
pub open spec fn groups_disjoint(groups: Seq<CombinedGroup>) -> bool {
    forall|g: int, h: int, id: Seq<char>|
        0 <= g < h < groups.len() && #[trigger] has_id(groups[g].account_ids@, id) ==> !#[trigger] has_id(
            groups[h].account_ids@,
            id,
        )
}

proof fn lemma_account_has_card(state: State, i: int)
    requires
        groups_disjoint(state.combined@),
        0 <= i < state.accounts@.len(),
        !state.accounts@[i].hidden,
    ensures
        exists|k: int|
            #![trigger placements_spec(state)[k]]
            0 <= k < placements_spec(state).len() && placements_spec(state)[k].0 == card_of(state, i),
{
    let n = state.accounts@.len() as int;
    assert(state.accounts.len() == state.accounts@.len());
    assert(state.combined.len() == state.combined@.len());
    lemma_placements_upto(state, n);
    let id = state.accounts@[i].id@;
    lemma_group_index_bounds(state.combined@, id, 0);
    let g = group_index(state.combined@, id, 0);
    if g < state.combined@.len() {
        let ids = state.combined@[g].account_ids@;
        let m = choose|m: int| 0 <= m < ids.len() && #[trigger] ids[m]@ == id;
        assert(shown_id(state.accounts@, ids[m]@));
        lemma_first_shown_bounds(state.accounts@, ids, 0);
        let f = first_shown(state.accounts@, ids, 0);
        let lead = ids[f]@;
        let j = choose|j: int|
            0 <= j < state.accounts@.len() && !state.accounts@[j].hidden
                && #[trigger] state.accounts@[j].id@ == lead;
        lemma_group_index_bounds(state.combined@, lead, 0);
        assert(has_id(ids, lead));
        let gj = group_index(state.combined@, lead, 0);
        if gj < g {
            assert(has_id(state.combined@[gj].account_ids@, lead));
        } else if gj > g {
            assert(!has_id(state.combined@[g].account_ids@, lead));
        }
        assert(gj == g);
        assert(place(state, j) == Some((Placed::Group(g as usize), state.combined@[g].collapsed)));
        assert(place(state, j) is Some);
        let k = choose|k: int|
            0 <= k < placements_upto(state, n).len() && placements_upto(state, n)[k] == place(
                state,
                j,
            )->0;
        assert(placements_spec(state)[k].0 == card_of(state, i));
    } else {
        assert(place(state, i) is Some);
        let k = choose|k: int|
            0 <= k < placements_upto(state, n).len() && placements_upto(state, n)[k] == place(
                state,
                i,
            )->0;
        assert(placements_spec(state)[k].0 == card_of(state, i));
    }
}

/// Every shown account is on a card, its group's when it is in a group and its own
/// otherwise, as long as no account is listed by two groups.
pub proof fn lemma_every_shown_account_has_a_card(state: State)
    requires
        groups_disjoint(state.combined@),
    ensures
        forall|i: int|
            #![trigger state.accounts@[i]]
            0 <= i < state.accounts@.len() && !state.accounts@[i].hidden ==> exists|k: int|
                #![trigger placements_spec(state)[k]]
                0 <= k < placements_spec(state).len() && placements_spec(state)[k].0 == card_of(
                    state,
                    i,
                ),
{
    assert forall|i: int|
        #![trigger state.accounts@[i]]
        0 <= i < state.accounts@.len() && !state.accounts@[i].hidden implies exists|k: int|
        #![trigger placements_spec(state)[k]]
        0 <= k < placements_spec(state).len() && placements_spec(state)[k].0 == card_of(state, i) by {
        lemma_account_has_card(state, i);
    }
}

/// The accounts the group lists.
pub open spec fn member_of(group: CombinedGroup) -> spec_fn(Account) -> bool {
    |a: Account| has_id(group.account_ids@, a.id@)
}

/// The accounts a combined card shows: those the group lists, in the order of the accounts.
pub fn members<'a>(group: &CombinedGroup, accounts: &'a Vec<Account>) -> (r: Vec<&'a Account>)
    ensures
        r@.len() == accounts@.filter(member_of(*group)).len(),
        forall|i: int| 0 <= i < r@.len() ==> *r@[i] == accounts@.filter(member_of(*group))[i],
{
    let ghost keep = member_of(*group);
    let mut r: Vec<&Account> = Vec::new();
    let mut i: usize = 0;
    proof {
        reveal(Seq::filter);
        assert(accounts@.take(0) =~= Seq::<Account>::empty());
    }
    while i < accounts.len()
        invariant
            i <= accounts@.len(),
            keep == member_of(*group),
            r@.len() == accounts@.take(i as int).filter(keep).len(),
            forall|k: int| 0 <= k < r@.len() ==> *r@[k] == accounts@.take(i as int).filter(keep)[k],
        decreases accounts.len() - i,
    {
        proof {
            assert(accounts@.take(i + 1) =~= accounts@.take(i as int).push(accounts@[i as int]));
            accounts@.take(i as int).lemma_filter_push(accounts@[i as int], keep);
        }
        let account = &accounts[i];
        if contains_id(&group.account_ids, &account.id) {
            r.push(account);
        }
        i = i + 1;
    }
    assert(accounts@.take(i as int) =~= accounts@);
    r
}

/// Unless the folded cards are opened, no card the popup shows is folded: every account or
/// group card shown is one whose account or group is not collapsed.
pub proof fn lemma_unfolded_entries(state: State, display: Display, has_summary: bool, expanded: bool)
    ensures
        !expanded ==> forall|k: int|
            0 <= k < entries_spec(state, display, has_summary, expanded).len() ==> match #[trigger] entries_spec(
                state,
                display,
                has_summary,
                expanded,
            )[k] {
                Entry::Group(g) => g < state.combined@.len() && !state.combined@[g as int].collapsed,
                Entry::Account(i) => i < state.accounts@.len() && !state.accounts@[i as int].collapsed,
                _ => true,
            },
{
    if !expanded {
        let cards = placements_spec(state);
        lemma_cards_fold_as_their_source(state);
        let shown = cards.filter(unfolded());
        let es = entries_spec(state, display, has_summary, expanded);
        assert forall|k: int| 0 <= k < es.len() implies match #[trigger] es[k] {
            Entry::Group(g) => g < state.combined@.len() && !state.combined@[g as int].collapsed,
            Entry::Account(i) => i < state.accounts@.len() && !state.accounts@[i as int].collapsed,
            _ => true,
        } by {
            if !(no_shown(state.accounts@) && !shows_spend(state, display)) && 1 <= k < 1 + shown.len() {
                let p = shown[k - 1];
                assert(es[k] == entry_of(p));
                cards.lemma_filter_pred(unfolded(), k - 1);
                cards.lemma_filter_contains_rev(unfolded(), p);
                let m = choose|m: int| 0 <= m < cards.len() && cards[m] == p;
                assert(cards[m] == p);
            } else if !(no_shown(state.accounts@) && !shows_spend(state, display)) {
                assert(k == 1 + shown.len() || k == 0);
            }
        }
    }
}

fn entry_for(p: (Placed, bool)) -> (e: Entry)
    ensures
        e == entry_of(p),
{
    match p.0 {
        Placed::Account(i) => Entry::Account(i),
        Placed::Group(g) => Entry::Group(g),
    }
}

/// The popup's entries for a state: nothing to show when no account is shown and spend is
/// off; otherwise the leading card (with spend when it is on and there is usage), the
/// unfolded cards in order, and, when `has_summary` says the folded cards have a summary
/// line, that "more" line, or, when `expanded`, the "less" line followed by the folded cards.
pub fn ready_entries(state: &State, display: &Display, has_summary: bool, expanded: bool) -> (entries: Vec<Entry>)
    ensures
        entries@ == entries_spec(*state, *display, has_summary, expanded),
        entries@.len() > 0,
        entries@[0] == if (forall|a: int|
            0 <= a < state.accounts@.len() ==> #[trigger] state.accounts@[a].hidden) && !(
        display.show_spend && state.usage@.len() > 0) {
            Entry::Empty
        } else {
            Entry::Leading(display.show_spend && state.usage@.len() > 0)
        },
        !expanded ==> forall|k: int|
            0 <= k < entries@.len() ==> match #[trigger] entries@[k] {
                Entry::Group(g) => g < state.combined@.len() && !state.combined@[g as int].collapsed,
                Entry::Account(i) => i < state.accounts@.len() && !state.accounts@[i as int].collapsed,
                _ => true,
            },
{
    proof {
        lemma_unfolded_entries(*state, *display, has_summary, expanded);
    }
    let spend = display.show_spend && state.usage.len() > 0;
    let mut any_shown = false;
    let mut a: usize = 0;
    while a < state.accounts.len()
        invariant
            a <= state.accounts@.len(),
            !any_shown ==> forall|j: int| 0 <= j < a ==> #[trigger] state.accounts@[j].hidden,
            any_shown ==> !no_shown(state.accounts@),
        decreases state.accounts.len() - a,
    {
        if !state.accounts[a].hidden {
            any_shown = true;
        }
        a = a + 1;
    }
    if !any_shown && !spend {
        return vec![Entry::Empty];
    }
    let cards = placements(state);
    let ghost all = cards@;
    let mut entries: Vec<Entry> = Vec::new();
    entries.push(Entry::Leading(spend));
    let mut rest: Vec<Entry> = Vec::new();
    let mut k: usize = 0;
    proof {
        reveal(Seq::filter);
        assert(all.take(0) =~= Seq::<(Placed, bool)>::empty());
    }
    while k < cards.len()
        invariant
            k <= all.len(),
            all == cards@,
            entries@ == seq![Entry::Leading(spend)] + entries_of(all.take(k as int).filter(unfolded())),
            rest@ == entries_of(all.take(k as int).filter(folded())),
        decreases all.len() - k,
    {
        let p = cards[k];
        proof {
            assert(all.take(k + 1) =~= all.take(k as int).push(all[k as int]));
            all.take(k as int).lemma_filter_push(all[k as int], unfolded());
            all.take(k as int).lemma_filter_push(all[k as int], folded());
        }
        let ghost before_entries = entries@;
        let ghost before_rest = rest@;
        let e = entry_for(p);
        if !p.1 {
            entries.push(e);
            assert(entries_of(all.take(k + 1).filter(unfolded())) =~= entries_of(
                all.take(k as int).filter(unfolded()),
            ).push(e));
            assert(entries@ =~= seq![Entry::Leading(spend)] + entries_of(
                all.take(k + 1).filter(unfolded()),
            ));
            assert(rest@ =~= entries_of(all.take(k + 1).filter(folded())));
        } else {
            rest.push(e);
            assert(entries_of(all.take(k + 1).filter(folded())) =~= entries_of(
                all.take(k as int).filter(folded()),
            ).push(e));
            assert(rest@ =~= entries_of(all.take(k + 1).filter(folded())));
            assert(entries@ =~= seq![Entry::Leading(spend)] + entries_of(
                all.take(k + 1).filter(unfolded()),
            ));
        }
        k = k + 1;
    }
    proof {
        assert(all.take(k as int) =~= all);
    }
    if has_summary {
        if expanded {
            let ghost head = entries@;
            entries.push(Entry::Less);
            entries.append(&mut rest);
            assert(entries@ =~= head + (seq![Entry::Less] + entries_of(all.filter(folded()))));
        } else {
            let ghost head = entries@;
            entries.push(Entry::More);
            assert(entries@ =~= head + seq![Entry::More]);
        }
    } else {
        assert(entries@ =~= entries@ + Seq::<Entry>::empty());
    }
    entries
}

} // verus!
