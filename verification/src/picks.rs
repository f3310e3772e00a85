//! The pick lists of the settings: the limits that can be pinned to the tray icon, the
//! accounts that can be starred, and the providers that can get their own alert threshold.

use vstd::prelude::*;
use crate::choices::{account_name, name_of, percent_reading, reading_text, window_label,
    window_label_spec};
use crate::i18n::{Lang, Msg, Plural, plural, plural_spec, text};
use crate::payload::{Account, Display, Notifications, PanelLimit, State, ValueMode, Window,
    same_limit, threshold_in, window_hidden};
use crate::text::{decimal, decimal_string, dot_sep, fill, fill_spec, join, join_strs, pairs_view};

verus! {

/// How many limits the tray icon shows at most.
pub const MAX_PANEL_LIMITS: usize = 3;

/// A limit that can be pinned to the tray icon.
#[derive(Debug, Clone, PartialEq, Eq)]
pub struct LimitItem {
    pub limit: PanelLimit,
    pub provider: String,
    pub title: String,
    pub subtitle: String,
}

/// An account that can be starred.
#[derive(Debug, Clone, PartialEq, Eq)]
pub struct StarItem {
    pub account_id: String,
    pub provider: String,
    pub title: String,
    pub subtitle: String,
}

/// A provider that can get its own alert threshold.
#[derive(Debug, Clone, PartialEq, Eq)]
pub struct ProviderItem {
    pub id: String,
    pub name: String,
}

/// The texts of a limit item.
pub struct LimitView {
    pub account_id: Seq<char>,
    pub window: Seq<char>,
    pub provider: Seq<char>,
    pub title: Seq<char>,
    pub subtitle: Seq<char>,
}

/// The texts of a star item.
pub struct StarView {
    pub account_id: Seq<char>,
    pub provider: Seq<char>,
    pub title: Seq<char>,
    pub subtitle: Seq<char>,
}

impl View for LimitItem {
    type V = LimitView;

    open spec fn view(&self) -> LimitView {
        LimitView {
            account_id: self.limit.account_id@,
            window: self.limit.window@,
            provider: self.provider@,
            title: self.title@,
            subtitle: self.subtitle@,
        }
    }
}

impl View for StarItem {
    type V = StarView;

    open spec fn view(&self) -> StarView {
        StarView {
            account_id: self.account_id@,
            provider: self.provider@,
            title: self.title@,
            subtitle: self.subtitle@,
        }
    }
}

impl View for ProviderItem {
    type V = (Seq<char>, Seq<char>);

    open spec fn view(&self) -> (Seq<char>, Seq<char>) {
        (self.id@, self.name@)
    }
}

/// The texts of limit items.
pub open spec fn limit_views(items: Seq<LimitItem>) -> Seq<LimitView> {
    items.map_values(|x: LimitItem| x@)
}

/// The texts of star items.
pub open spec fn star_views(items: Seq<StarItem>) -> Seq<StarView> {
    items.map_values(|x: StarItem| x@)
}

/// The ids and names of provider items.
pub open spec fn provider_views(items: Seq<ProviderItem>) -> Seq<(Seq<char>, Seq<char>)> {
    items.map_values(|x: ProviderItem| x@)
}

/// The items of some windows of an account.
pub open spec fn window_items(lang: Lang, account: Account, windows: Seq<Window>) -> Seq<LimitView> {
    windows.map_values(|w: Window| window_item(lang, account, w))
}

/// The star items of some accounts.
pub open spec fn star_items_of(accounts: Seq<Account>) -> Seq<StarView> {
    accounts.map_values(|a: Account| star_item(a))
}

/// The accounts the user has not hidden.
pub open spec fn visible() -> spec_fn(Account) -> bool {
    |a: Account| !a.hidden
}

/// The separator between a provider and a window in a limit's title.
pub open spec fn dash_sep() -> Seq<char> {
    " — "@
}

/// The item of one window of an account.
pub open spec fn window_item(lang: Lang, account: Account, window: Window) -> LimitView {
    LimitView {
        account_id: account.id@,
        window: window.id@,
        provider: account.provider@,
        title: account.provider_name@ + dash_sep() + window_label_spec(
            lang,
            window.id@,
            window.label@,
        ),
        subtitle: name_of(account) + dot_sep() + reading_text(
            lang,
            window.remaining_percent,
            ValueMode::Left,
        ),
    }
}

/// The item of a pinned limit that no account offers now.
pub open spec fn missing_item(lang: Lang, limit: PanelLimit) -> LimitView {
    LimitView {
        account_id: limit.account_id@,
        window: limit.window@,
        provider: Seq::empty(),
        title: text(lang, Msg::PinnedLimitUnavailable),
        subtitle: limit.account_id@ + dot_sep() + limit.window@,
    }
}

/// The windows of the account the user has not hidden.
pub open spec fn shown_window(display: Display, account: Account) -> spec_fn(Window) -> bool {
    |w: Window| !window_hidden(display, account.id@, w.id@)
}

/// The items of an account's shown windows, in order.
pub open spec fn account_items(lang: Lang, display: Display, account: Account) -> Seq<LimitView> {
    window_items(lang, account, account.windows@.filter(shown_window(display, account)))
}

/// The items of all shown windows of the visible accounts, account by account.
pub open spec fn live_items(lang: Lang, display: Display, accounts: Seq<Account>) -> Seq<LimitView>
    decreases accounts.len(),
{
    if accounts.len() == 0 {
        Seq::empty()
    } else {
        live_items(lang, display, accounts.drop_last()) + if accounts.last().hidden {
            Seq::<LimitView>::empty()
        } else {
            account_items(lang, display, accounts.last())
        }
    }
}

/// Whether two items stand for the same limit.
pub open spec fn same_key(a: LimitView, b: LimitView) -> bool {
    a.account_id == b.account_id && a.window == b.window
}

/// The first position from `i` on whose item stands for the same limit as `x`, or the length.
pub open spec fn first_same(items: Seq<LimitView>, x: LimitView, i: int) -> int
    decreases items.len() - i,
{
    if i < 0 || i >= items.len() {
        items.len() as int
    } else if same_key(items[i], x) {
        i
    } else {
        first_same(items, x, i + 1)
    }
}

/// Puts `x` in place of the first item for the same limit, or at the end when there is none.
pub open spec fn merge(items: Seq<LimitView>, x: LimitView) -> Seq<LimitView> {
    let i = first_same(items, x, 0);
    if i < items.len() {
        items.update(i, x)
    } else {
        items.push(x)
    }
}

/// Merges each of `xs` in turn.
pub open spec fn merge_all(items: Seq<LimitView>, xs: Seq<LimitView>) -> Seq<LimitView>
    decreases xs.len(),
{
    if xs.len() == 0 {
        items
    } else {
        merge(merge_all(items, xs.drop_last()), xs.last())
    }
}

/// The pick list of limits: the pinned limits in their order, each shown as the live window
/// it names or as unavailable, then every other shown window of the visible accounts.
pub open spec fn limit_items_spec(lang: Lang, state: State, display: Display) -> Seq<LimitView> {
    merge_all(
        display.panel_limits@.map_values(|l: PanelLimit| missing_item(lang, l)),
        live_items(lang, display, state.accounts@),
    )
}

/// The parts of an account's star subtitle: the provider, the plan, and, when the account has
/// a label, its e-mail.
pub open spec fn star_parts(account: Account) -> Seq<Seq<char>> {
    seq![account.provider_name@] + (match account.plan {
        Some(p) => seq![p@],
        None => Seq::<Seq<char>>::empty(),
    }) + (if account.label is Some {
        match account.email {
            Some(e) => seq![e@],
            None => Seq::<Seq<char>>::empty(),
        }
    } else {
        Seq::<Seq<char>>::empty()
    })
}

/// The star item of an account.
pub open spec fn star_item(account: Account) -> StarView {
    StarView {
        account_id: account.id@,
        provider: account.provider@,
        title: name_of(account),
        subtitle: join(star_parts(account), dot_sep()),
    }
}

/// Whether a provider id is among the items.
pub open spec fn has_provider(items: Seq<(Seq<char>, Seq<char>)>, id: Seq<char>) -> bool {
    exists|k: int| 0 <= k < items.len() && #[trigger] items[k].0 == id
}

/// The providers of the accounts, each once, in the order they first appear.
pub open spec fn providers_of(accounts: Seq<Account>) -> Seq<(Seq<char>, Seq<char>)>
    decreases accounts.len(),
{
    if accounts.len() == 0 {
        Seq::empty()
    } else {
        let known = providers_of(accounts.drop_last());
        if has_provider(known, accounts.last().provider@) {
            known
        } else {
            known.push((accounts.last().provider@, accounts.last().provider_name@))
        }
    }
}

/// How many of the providers have a threshold of their own.
pub open spec fn overrides(notifications: Notifications, providers: Seq<ProviderItem>) -> nat
    decreases providers.len(),
{
    if providers.len() == 0 {
        0
    } else {
        overrides(notifications, providers.drop_last()) + if threshold_in(
            notifications.provider_thresholds@,
            providers.last().id@,
        ) is Some {
            1nat
        } else {
            0nat
        }
    }
}

/// The summary of the per-provider thresholds.
pub open spec fn thresholds_summary_spec(lang: Lang, n: nat) -> Seq<char> {
    if n == 0 {
        text(lang, Msg::EveryProviderDefault)
    } else {
        fill_spec(
            text(lang, Msg::ProvidersDiffer(plural_spec(lang, n))),
            seq![("count"@, decimal(n))],
        )
    }
}

/// The summary of the pinned limits.
pub open spec fn limits_summary_spec(lang: Lang, chosen: nat) -> Seq<char> {
    if chosen == 0 {
        text(lang, Msg::NoneChosen)
    } else {
        fill_spec(
            text(lang, Msg::ChosenOfMax),
            seq![("count"@, decimal(chosen)), ("max"@, decimal(MAX_PANEL_LIMITS as nat))],
        )
    }
}

/// The accounts the user has not hidden, in order.
pub fn visible_accounts(state: &State) -> (r: Vec<&Account>)
    ensures
        r@.len() == state.accounts@.filter(visible()).len(),
        forall|i: int| 0 <= i < r@.len() ==> *r@[i] == state.accounts@.filter(visible())[i],
{
    let mut r: Vec<&Account> = Vec::new();
    let mut i: usize = 0;
    assert(state.accounts@.take(0) =~= Seq::<Account>::empty());
    proof {
        reveal(Seq::filter);
    }
    while i < state.accounts.len()
        invariant
            i <= state.accounts@.len(),
            r@.len() == state.accounts@.take(i as int).filter(visible()).len(),
            forall|k: int|
                0 <= k < r@.len() ==> *r@[k] == state.accounts@.take(i as int).filter(visible())[k],
        decreases state.accounts.len() - i,
    {
        proof {
            assert(state.accounts@.take(i + 1) =~= state.accounts@.take(i as int).push(
                state.accounts@[i as int],
            ));
            state.accounts@.take(i as int).lemma_filter_push(state.accounts@[i as int], visible());
        }
        let account = &state.accounts[i];
        if !account.hidden {
            r.push(account);
        }
        i = i + 1;
    }
    assert(state.accounts@.take(i as int) =~= state.accounts@);
    r
}

fn window_limit(lang: Lang, account: &Account, who: &String, window: &Window) -> (item: LimitItem)
    requires
        who@ == name_of(*account),
    ensures
        item@ == window_item(lang, *account, *window),
{
    let label = window_label(lang, window.id.as_str(), window.label.as_str());
    let title = account.provider_name.clone().concat(" — ").concat(label.as_str());
    let reading = percent_reading(lang, window.remaining_percent, ValueMode::Left);
    let subtitle = who.clone().concat(" · ").concat(reading.as_str());
    LimitItem {
        limit: PanelLimit { account_id: account.id.clone(), window: window.id.clone() },
        provider: account.provider.clone(),
        title,
        subtitle,
    }
}

fn account_limits(lang: Lang, display: &Display, account: &Account) -> (items: Vec<LimitItem>)
    ensures
        limit_views(items@) == account_items(lang, *display, *account),
{
    let who = account_name(account);
    let ghost keep = shown_window(*display, *account);
    let ghost ws = account.windows@;
    let mut items: Vec<LimitItem> = Vec::new();
    let mut i: usize = 0;
    assert(ws.take(0) =~= Seq::<Window>::empty());
    proof {
        reveal(Seq::filter);
    }
    while i < account.windows.len()
        invariant
            i <= ws.len(),
            ws == account.windows@,
            keep == shown_window(*display, *account),
            who@ == name_of(*account),
            limit_views(items@) == window_items(lang, *account, ws.take(i as int).filter(keep)),
            items@.len() == ws.take(i as int).filter(keep).len(),
        decreases ws.len() - i,
    {
        let window = &account.windows[i];
        proof {
            assert(ws.take(i + 1) =~= ws.take(i as int).push(ws[i as int]));
            ws.take(i as int).lemma_filter_push(ws[i as int], keep);
        }
        let ghost old_items = items@;
        let ghost old_f = ws.take(i as int).filter(keep);
        assert(keep(ws[i as int]) == !window_hidden(*display, account.id@, ws[i as int].id@));
        if !display.is_window_hidden(&account.id, &window.id) {
            let item = window_limit(lang, account, &who, window);
            items.push(item);
            proof {
                let new_f = ws.take(i + 1).filter(keep);
                assert(new_f == old_f.push(ws[i as int]));
                assert(limit_views(items@).len() == items@.len());
                assert(window_items(lang, *account, new_f).len() == new_f.len());
                assert forall|k: int| 0 <= k < items@.len() implies limit_views(items@)[k]
                    == window_items(lang, *account, new_f)[k] by {
                    if k < old_items.len() {
                        assert(limit_views(items@)[k] == limit_views(old_items)[k]);
                        assert(window_items(lang, *account, new_f)[k] == window_items(
                            lang,
                            *account,
                            old_f,
                        )[k]);
                    }
                }
            }
        }
        assert(limit_views(items@) =~= window_items(lang, *account, ws.take(i + 1).filter(keep)));
        i = i + 1;
    }
    assert(ws.take(i as int) =~= ws);
    items
}

fn missing_limit(lang: Lang, limit: &PanelLimit) -> (item: LimitItem)
    ensures
        item@ == missing_item(lang, *limit),
{
    LimitItem {
        limit: limit.copied(),
        provider: String::new(),
        title: lang.tr(Msg::PinnedLimitUnavailable).to_owned(),
        subtitle: limit.account_id.clone().concat(" · ").concat(limit.window.as_str()),
    }
}

fn find_same(items: &Vec<LimitItem>, x: &LimitItem) -> (i: usize)
    ensures
        i as int == first_same(limit_views(items@), x@, 0),
{
    let ghost views = limit_views(items@);
    let mut i: usize = 0;
    while i < items.len()
        invariant
            i <= items@.len(),
            views == limit_views(items@),
            first_same(views, x@, 0) == first_same(views, x@, i as int),
        decreases items.len() - i,
    {
        if items[i].limit.same(&x.limit) {
            return i;
        }
        i = i + 1;
    }
    i
}

proof fn lemma_first_same_bounds(items: Seq<LimitView>, x: LimitView, i: int)
    requires
        0 <= i,
    ensures
        first_same(items, x, i) == items.len() || (i <= first_same(items, x, i) < items.len()
            && same_key(items[first_same(items, x, i)], x)),
    decreases items.len() - i,
{
    if i < items.len() && !same_key(items[i], x) {
        lemma_first_same_bounds(items, x, i + 1);
    }
}

/// Merging keeps every earlier limit at its place, and adds the new one.
pub proof fn lemma_merge_keeps_keys(items: Seq<LimitView>, x: LimitView)
    ensures
        merge(items, x).len() >= items.len(),
        forall|k: int| 0 <= k < items.len() ==> same_key(#[trigger] merge(items, x)[k], items[k]),
        exists|k: int| 0 <= k < merge(items, x).len() && merge(items, x)[k] == x,
{
    lemma_first_same_bounds(items, x, 0);
    let i = first_same(items, x, 0);
    if i < items.len() {
        assert(merge(items, x)[i] == x);
    } else {
        assert(merge(items, x)[items.len() as int] == x);
    }
}

/// Merging a run of items keeps the starting limits at their places, and every merged item's
/// limit ends up in the result.
pub proof fn lemma_merge_all_keys(items: Seq<LimitView>, xs: Seq<LimitView>)
    ensures
        merge_all(items, xs).len() >= items.len(),
        forall|k: int|
            0 <= k < items.len() ==> same_key(#[trigger] merge_all(items, xs)[k], items[k]),
        forall|j: int|
            0 <= j < xs.len() ==> exists|k: int|
                0 <= k < merge_all(items, xs).len() && same_key(
                    #[trigger] merge_all(items, xs)[k],
                    #[trigger] xs[j],
                ),
    decreases xs.len(),
{
    if xs.len() > 0 {
        let before = merge_all(items, xs.drop_last());
        lemma_merge_all_keys(items, xs.drop_last());
        lemma_merge_keeps_keys(before, xs.last());
        let after = merge(before, xs.last());
        assert(after == merge_all(items, xs));
        assert forall|k: int| 0 <= k < items.len() implies same_key(
            #[trigger] merge_all(items, xs)[k],
            items[k],
        ) by {
            assert(same_key(after[k], before[k]));
            assert(same_key(before[k], items[k]));
        }
        assert forall|j: int| 0 <= j < xs.len() implies exists|k: int|
            0 <= k < merge_all(items, xs).len() && same_key(
                #[trigger] merge_all(items, xs)[k],
                #[trigger] xs[j],
            ) by {
            if j == xs.len() - 1 {
                let k = choose|k: int| 0 <= k < after.len() && after[k] == xs.last();
                assert(same_key(after[k], xs[j]));
            } else {
                assert(xs.drop_last()[j] == xs[j]);
                let k = choose|k: int|
                    0 <= k < before.len() && same_key(#[trigger] before[k], xs.drop_last()[j]);
                assert(same_key(after[k], before[k]));
            }
        }
    }
}

/// Merging a run of items adds at most one item per merged item, and every item of the result
/// is either the starting item at its place or one of the merged items.
pub proof fn lemma_merge_all_sources(items: Seq<LimitView>, xs: Seq<LimitView>)
    ensures
        merge_all(items, xs).len() <= items.len() + xs.len(),
        forall|k: int|
            0 <= k < merge_all(items, xs).len() ==> (k < items.len() && #[trigger] merge_all(
                items,
                xs,
            )[k] == items[k]) || exists|j: int|
                0 <= j < xs.len() && merge_all(items, xs)[k] == #[trigger] xs[j],
    decreases xs.len(),
{
    if xs.len() > 0 {
        let before = merge_all(items, xs.drop_last());
        lemma_merge_all_sources(items, xs.drop_last());
        lemma_first_same_bounds(before, xs.last(), 0);
        let after = merge(before, xs.last());
        assert(after == merge_all(items, xs));
        assert forall|k: int| 0 <= k < after.len() implies (k < items.len() && #[trigger] after[k]
            == items[k]) || exists|j: int| 0 <= j < xs.len() && after[k] == #[trigger] xs[j] by {
            if after[k] == xs.last() {
                assert(xs[xs.len() - 1] == xs.last());
            } else {
                assert(k < before.len() && after[k] == before[k]);
                if !(k < items.len() && before[k] == items[k]) {
                    let j = choose|j: int|
                        0 <= j < xs.drop_last().len() && before[k] == #[trigger] xs.drop_last()[j];
                    assert(xs[j] == xs.drop_last()[j]);
                }
            }
        }
    }
}

/// Every item of the limit pick list is a pinned limit, at its own place and shown as
/// unavailable, or a shown window of a visible account; and the list holds no more items
/// than the pinned limits and those windows together.
pub proof fn lemma_limit_items_sources(lang: Lang, state: State, display: Display)
    ensures
        limit_items_spec(lang, state, display).len() <= display.panel_limits@.len() + live_items(
            lang,
            display,
            state.accounts@,
        ).len(),
        forall|k: int|
            0 <= k < limit_items_spec(lang, state, display).len() ==> (k
                < display.panel_limits@.len() && #[trigger] limit_items_spec(lang, state, display)[k]
                == missing_item(lang, display.panel_limits@[k])) || exists|j: int|
                0 <= j < live_items(lang, display, state.accounts@).len()
                    && limit_items_spec(lang, state, display)[k] == #[trigger] live_items(
                    lang,
                    display,
                    state.accounts@,
                )[j],
{
    let pinned = display.panel_limits@.map_values(|l: PanelLimit| missing_item(lang, l));
    let live = live_items(lang, display, state.accounts@);
    lemma_merge_all_sources(pinned, live);
    let r = limit_items_spec(lang, state, display);
    assert forall|k: int| 0 <= k < r.len() implies (k < display.panel_limits@.len()
        && #[trigger] r[k] == missing_item(lang, display.panel_limits@[k])) || exists|j: int|
        0 <= j < live.len() && r[k] == #[trigger] live[j] by {
        if k < pinned.len() && r[k] == pinned[k] {
            assert(pinned[k] == missing_item(lang, display.panel_limits@[k]));
        }
    }
}

/// Whether the item is a window the user did not hide, of an account the user did not hide.
pub open spec fn is_live_item(lang: Lang, display: Display, accounts: Seq<Account>, item: LimitView) -> bool {
    exists|a: int, w: int|
        0 <= a < accounts.len() && !accounts[a].hidden && 0 <= w < accounts[a].windows@.len()
            && !window_hidden(display, accounts[a].id@, accounts[a].windows@[w].id@) && item
            == window_item(lang, #[trigger] accounts[a], #[trigger] accounts[a].windows@[w])
}

proof fn lemma_live_items_shown(lang: Lang, display: Display, accounts: Seq<Account>)
    ensures
        forall|k: int|
            0 <= k < live_items(lang, display, accounts).len() ==> is_live_item(
                lang,
                display,
                accounts,
                #[trigger] live_items(lang, display, accounts)[k],
            ),
    decreases accounts.len(),
{
    if accounts.len() > 0 {
        let rest = accounts.drop_last();
        let last = accounts.last();
        lemma_live_items_shown(lang, display, rest);
        let before = live_items(lang, display, rest);
        let now = live_items(lang, display, accounts);
        assert forall|k: int| 0 <= k < now.len() implies is_live_item(
            lang,
            display,
            accounts,
            #[trigger] now[k],
        ) by {
            if k < before.len() {
                assert(now[k] == before[k]);
                assert(is_live_item(lang, display, rest, before[k]));
                let (a, w) = choose|a: int, w: int|
                    0 <= a < rest.len() && !rest[a].hidden && 0 <= w < rest[a].windows@.len()
                        && !window_hidden(display, rest[a].id@, rest[a].windows@[w].id@)
                        && before[k] == window_item(lang, #[trigger] rest[a], #[trigger] rest[a].windows@[w]);
                assert(rest[a] == accounts[a]);
            } else {
                let keep = shown_window(display, last);
                let ws = last.windows@;
                let f = ws.filter(keep);
                let j = k - before.len();
                assert(!last.hidden);
                assert(now[k] == account_items(lang, display, last)[j]);
                assert(account_items(lang, display, last)[j] == window_item(lang, last, f[j]));
                ws.lemma_filter_pred(keep, j);
                assert(f.contains(f[j]));
                ws.lemma_filter_contains_rev(keep, f[j]);
                let w = choose|w: int| 0 <= w < ws.len() && ws[w] == f[j];
                let a = accounts.len() - 1;
                assert(accounts[a] == last);
                assert(keep(ws[w]));
                assert(now[k] == window_item(lang, accounts[a], accounts[a].windows@[w]));
            }
        }
    }
}

/// The pick list never offers a window the user hid, nor a window of a hidden account,
/// except as a pinned limit: every item is a pinned limit at its own place, or a window the
/// user did not hide of an account the user did not hide.
pub proof fn lemma_hidden_only_when_pinned(lang: Lang, state: State, display: Display)
    ensures
        forall|k: int|
            0 <= k < limit_items_spec(lang, state, display).len() ==> (k
                < display.panel_limits@.len() && #[trigger] limit_items_spec(lang, state, display)[k]
                == missing_item(lang, display.panel_limits@[k])) || is_live_item(
                lang,
                display,
                state.accounts@,
                limit_items_spec(lang, state, display)[k],
            ),
{
    lemma_limit_items_sources(lang, state, display);
    lemma_live_items_shown(lang, display, state.accounts@);
    let r = limit_items_spec(lang, state, display);
    let live = live_items(lang, display, state.accounts@);
    assert forall|k: int| 0 <= k < r.len() implies (k < display.panel_limits@.len()
        && #[trigger] r[k] == missing_item(lang, display.panel_limits@[k])) || is_live_item(
        lang,
        display,
        state.accounts@,
        r[k],
    ) by {
        if !(k < display.panel_limits@.len() && r[k] == missing_item(
            lang,
            display.panel_limits@[k],
        )) {
            let j = choose|j: int| 0 <= j < live.len() && r[k] == #[trigger] live[j];
            assert(is_live_item(lang, display, state.accounts@, live[j]));
        }
    }
}

/// The pick list of limits for the tray icon: the pinned limits first, in their order, each
/// as the window it names or as unavailable when no visible account offers it; then every
/// other window of the visible accounts that the user did not hide.
pub fn limit_items(lang: Lang, state: &State, display: &Display) -> (items: Vec<LimitItem>)
    ensures
        limit_views(items@) == limit_items_spec(lang, *state, *display),
        items@.len() >= display.panel_limits@.len(),
        forall|k: int|
            #![trigger items@[k]]
            0 <= k < display.panel_limits@.len() ==> same_limit(items@[k].limit, display.panel_limits@[k]),
        forall|j: int|
            0 <= j < live_items(lang, *display, state.accounts@).len() ==> exists|k: int|
                0 <= k < items@.len() && same_key(
                    #[trigger] limit_views(items@)[k],
                    #[trigger] live_items(lang, *display, state.accounts@)[j],
                ),
{
    let ghost pinned = display.panel_limits@.map_values(|l: PanelLimit| missing_item(lang, l));
    let mut items: Vec<LimitItem> = Vec::new();
    let mut p: usize = 0;
    while p < display.panel_limits.len()
        invariant
            p <= display.panel_limits@.len(),
            pinned == display.panel_limits@.map_values(|l: PanelLimit| missing_item(lang, l)),
            limit_views(items@) == pinned.take(p as int),
            items@.len() == p,
        decreases display.panel_limits.len() - p,
    {
        let ghost old_items = items@;
        let item = missing_limit(lang, &display.panel_limits[p]);
        items.push(item);
        assert(items@ == old_items.push(item));
        assert(pinned[p as int] == missing_item(lang, display.panel_limits@[p as int]));
        assert(limit_views(items@) =~= pinned.take(p + 1));
        p = p + 1;
    }
    assert(pinned.take(p as int) =~= pinned);
    let mut live: Vec<LimitItem> = Vec::new();
    let mut a: usize = 0;
    assert(state.accounts@.take(0) =~= Seq::<Account>::empty());
    while a < state.accounts.len()
        invariant
            a <= state.accounts@.len(),
            limit_views(live@) == live_items(
                lang,
                *display,
                state.accounts@.take(a as int),
            ),
        decreases state.accounts.len() - a,
    {
        let account = &state.accounts[a];
        assert(state.accounts@.take(a + 1).drop_last() =~= state.accounts@.take(a as int));
        if !account.hidden {
            let mut more = account_limits(lang, display, account);
            let ghost before = live@;
            live.append(&mut more);
            assert(limit_views(live@) =~= limit_views(before)
                + account_items(lang, *display, *account));
        } else {
            assert(limit_views(live@) =~= live_items(
                lang,
                *display,
                state.accounts@.take(a as int),
            ) + Seq::<LimitView>::empty());
        }
        a = a + 1;
    }
    assert(state.accounts@.take(a as int) =~= state.accounts@);
    let ghost lv = limit_views(live@);
    let mut n: usize = 0;
    assert(lv.take(0) =~= Seq::<LimitView>::empty());
    while n < live.len()
        invariant
            n <= live@.len(),
            lv == limit_views(live@),
            limit_views(items@) == merge_all(pinned, lv.take(n as int)),
        decreases live.len() - n,
    {
        let item = live[n].clone_item();
        let ghost views = limit_views(items@);
        let at = find_same(&items, &item);
        proof {
            lemma_first_same_bounds(views, item@, 0);
            assert(lv.take(n + 1).drop_last() =~= lv.take(n as int));
            assert(lv.take(n + 1).last() == lv[n as int]);
        }
        if at < items.len() {
            items.set(at, item);
        } else {
            items.push(item);
        }
        assert(limit_views(items@) =~= merge(views, lv[n as int]));
        n = n + 1;
    }
    assert(lv.take(n as int) =~= lv);
    proof {
        lemma_merge_all_keys(pinned, lv);
        assert(limit_views(items@) == merge_all(pinned, lv));
        assert(limit_views(items@).len() == items@.len());
        assert(pinned.len() == display.panel_limits@.len());
        assert forall|k: int| 0 <= k < display.panel_limits@.len() implies same_limit(
            #[trigger] items@[k].limit,
            display.panel_limits@[k],
        ) by {
            assert(limit_views(items@)[k] == items@[k]@);
            assert(pinned[k] == missing_item(lang, display.panel_limits@[k]));
            assert(same_key(merge_all(pinned, lv)[k], pinned[k]));
        }
    }
    items
}

impl LimitItem {
    /// A copy of the item.
    pub fn clone_item(&self) -> (r: LimitItem)
        ensures
            r@ == self@,
    {
        LimitItem {
            limit: self.limit.copied(),
            provider: self.provider.clone(),
            title: self.title.clone(),
            subtitle: self.subtitle.clone(),
        }
    }
}

/// The summary of the pinned limits: none chosen, or how many of the maximum are.
pub fn limits_summary(lang: Lang, chosen: usize) -> (s: String)
    ensures
        s@ == limits_summary_spec(lang, chosen as nat),
{
    if chosen == 0 {
        return lang.tr(Msg::NoneChosen).to_owned();
    }
    let count = decimal_string(chosen);
    let max = decimal_string(MAX_PANEL_LIMITS);
    let pairs = [("count", count.as_str()), ("max", max.as_str())];
    let s = fill(lang.tr(Msg::ChosenOfMax), &pairs);
    assert(pairs_view(pairs@) =~= seq![
        ("count"@, decimal(chosen as nat)),
        ("max"@, decimal(MAX_PANEL_LIMITS as nat)),
    ]);
    s
}

fn star_of(account: &Account) -> (item: StarItem)
    ensures
        item@ == star_item(*account),
{
    let mut parts: Vec<&str> = Vec::new();
    parts.push(account.provider_name.as_str());
    if let Some(plan) = &account.plan {
        parts.push(plan.as_str());
    }
    if account.label.is_some() {
        if let Some(email) = &account.email {
            parts.push(email.as_str());
        }
    }
    assert(parts@.map_values(|p: &str| p@) =~= star_parts(*account));
    StarItem {
        account_id: account.id.clone(),
        provider: account.provider.clone(),
        title: account_name(account),
        subtitle: join_strs(&parts, " · "),
    }
}

/// One star item per visible account, in order.
pub fn star_items(state: &State) -> (items: Vec<StarItem>)
    ensures
        star_views(items@) == star_items_of(state.accounts@.filter(visible())),
{
    let shown = visible_accounts(state);
    let ghost vis = state.accounts@.filter(visible());
    let mut items: Vec<StarItem> = Vec::new();
    let mut i: usize = 0;
    while i < shown.len()
        invariant
            i <= shown@.len(),
            vis == state.accounts@.filter(visible()),
            shown@.len() == vis.len(),
            forall|k: int| 0 <= k < shown@.len() ==> *shown@[k] == vis[k],
            items@.len() == i,
            star_views(items@) == star_items_of(vis.take(i as int)),
        decreases shown.len() - i,
    {
        let ghost old_items = items@;
        let item = star_of(shown[i]);
        items.push(item);
        assert(items@ == old_items.push(item));
        assert forall|k: int| 0 <= k <= i implies star_views(items@)[k] == star_items_of(
            vis.take(i + 1),
        )[k] by {
            if k < i {
                assert(star_views(items@)[k] == star_views(old_items)[k]);
                assert(star_items_of(vis.take(i + 1))[k] == star_items_of(vis.take(i as int))[k]);
            }
        }
        assert(star_views(items@) =~= star_items_of(vis.take(i + 1)));
        i = i + 1;
    }
    assert(vis.take(i as int) =~= vis);
    items
}

/// The text beside a star: always open when starred, on demand otherwise.
pub fn star_label(lang: Lang, starred: bool) -> (s: &'static str)
    ensures
        s@ == text(lang, if starred { Msg::AlwaysOpen } else { Msg::OnDemand }),
{
    if starred {
        lang.tr(Msg::AlwaysOpen)
    } else {
        lang.tr(Msg::OnDemand)
    }
}

fn knows_provider(items: &Vec<ProviderItem>, id: &String) -> (r: bool)
    ensures
        r == has_provider(provider_views(items@), id@),
{
    let ghost views = provider_views(items@);
    let mut k: usize = 0;
    while k < items.len()
        invariant
            k <= items@.len(),
            views == provider_views(items@),
            forall|m: int| 0 <= m < k ==> #[trigger] views[m].0 != id@,
        decreases items.len() - k,
    {
        if items[k].id == *id {
            assert(views[k as int].0 == id@);
            return true;
        }
        k = k + 1;
    }
    false
}

/// The providers of the accounts, each once, in the order they first appear.
pub fn account_providers(state: &State) -> (providers: Vec<ProviderItem>)
    ensures
        provider_views(providers@) == providers_of(state.accounts@),
{
    let mut providers: Vec<ProviderItem> = Vec::new();
    let mut i: usize = 0;
    assert(state.accounts@.take(0) =~= Seq::<Account>::empty());
    while i < state.accounts.len()
        invariant
            i <= state.accounts@.len(),
            provider_views(providers@) == providers_of(
                state.accounts@.take(i as int),
            ),
        decreases state.accounts.len() - i,
    {
        let account = &state.accounts[i];
        assert(state.accounts@.take(i + 1).drop_last() =~= state.accounts@.take(i as int));
        if !knows_provider(&providers, &account.provider) {
            providers.push(
                ProviderItem { id: account.provider.clone(), name: account.provider_name.clone() },
            );
        }
        assert(provider_views(providers@) =~= providers_of(
            state.accounts@.take(i + 1),
        ));
        i = i + 1;
    }
    assert(state.accounts@.take(i as int) =~= state.accounts@);
    providers
}

/// Each provider of the accounts appears exactly once among `providers_of`, and nothing else
/// does.
pub proof fn lemma_providers_of(accounts: Seq<Account>)
    ensures
        forall|i: int, j: int|
            0 <= i < j < providers_of(accounts).len() ==> #[trigger] providers_of(accounts)[i].0
                != #[trigger] providers_of(accounts)[j].0,
        forall|k: int|
            0 <= k < accounts.len() ==> has_provider(
                providers_of(accounts),
                #[trigger] accounts[k].provider@,
            ),
        forall|i: int|
            0 <= i < providers_of(accounts).len() ==> exists|k: int|
                0 <= k < accounts.len() && #[trigger] providers_of(accounts)[i] == (
                    accounts[k].provider@,
                    accounts[k].provider_name@,
                ),
    decreases accounts.len(),
{
    if accounts.len() > 0 {
        let rest = accounts.drop_last();
        lemma_providers_of(rest);
        let known = providers_of(rest);
        let last = accounts.last();
        assert forall|k: int| 0 <= k < accounts.len() implies has_provider(
            providers_of(accounts),
            #[trigger] accounts[k].provider@,
        ) by {
            if k < accounts.len() - 1 {
                assert(rest[k] == accounts[k]);
                assert(has_provider(known, rest[k].provider@));
                let m = choose|m: int| 0 <= m < known.len() && #[trigger] known[m].0 == rest[k].provider@;
                assert(providers_of(accounts)[m] == known[m]);
            } else if !has_provider(known, last.provider@) {
                assert(providers_of(accounts)[known.len() as int].0 == last.provider@);
            }
        }
        assert forall|i: int| 0 <= i < providers_of(accounts).len() implies exists|k: int|
            0 <= k < accounts.len() && #[trigger] providers_of(accounts)[i] == (
                accounts[k].provider@,
                accounts[k].provider_name@,
            ) by {
            if i < known.len() {
                let k = choose|k: int|
                    0 <= k < rest.len() && #[trigger] known[i] == (
                        rest[k].provider@,
                        rest[k].provider_name@,
                    );
                assert(rest[k] == accounts[k]);
                assert(providers_of(accounts)[i] == known[i]);
            } else {
                assert(providers_of(accounts)[i] == (
                    accounts[accounts.len() - 1].provider@,
                    accounts[accounts.len() - 1].provider_name@,
                ));
            }
        }
    }
}

fn count_overrides(notifications: &Notifications, providers: &[ProviderItem]) -> (n: usize)
    ensures
        n as nat == overrides(*notifications, providers@),
{
    let mut n: usize = 0;
    let mut k: usize = 0;
    assert(providers@.take(0) =~= Seq::<ProviderItem>::empty());
    while k < providers.len()
        invariant
            k <= providers@.len(),
            n <= k,
            n as nat == overrides(*notifications, providers@.take(k as int)),
        decreases providers.len() - k,
    {
        assert(providers@.take(k + 1).drop_last() =~= providers@.take(k as int));
        if notifications.has_threshold(&providers[k].id) {
            n = n + 1;
        }
        k = k + 1;
    }
    assert(providers@.take(k as int) =~= providers@);
    n
}

/// The summary of the per-provider thresholds: every provider uses the default, or how many
/// of the listed providers differ from it.
pub fn thresholds_summary(lang: Lang, notifications: &Notifications, providers: &[ProviderItem]) -> (s: String)
    ensures
        s@ == thresholds_summary_spec(lang, overrides(*notifications, providers@)),
{
    let differing = count_overrides(notifications, providers);
    if differing == 0 {
        return lang.tr(Msg::EveryProviderDefault).to_owned();
    }
    let form = plural(lang, differing as u64);
    let count = decimal_string(differing);
    let pairs = [("count", count.as_str())];
    let s = fill(lang.tr(Msg::ProvidersDiffer(form)), &pairs);
    assert(pairs_view(pairs@) =~= seq![("count"@, decimal(differing as nat))]);
    s
}

/// The subtitle of the "almost out" alert for a threshold.
pub fn almost_out_subtitle(lang: Lang, threshold: u8) -> (s: String)
    ensures
        s@ == fill_spec(
            text(lang, Msg::AlmostOutUnder),
            seq![("percent"@, decimal(threshold as nat))],
        ),
{
    let number = decimal_string(threshold as usize);
    let pairs = [("percent", number.as_str())];
    let s = fill(lang.tr(Msg::AlmostOutUnder), &pairs);
    assert(pairs_view(pairs@) =~= seq![("percent"@, decimal(threshold as nat))]);
    s
}

} // verus!
