//! The first-run list of what Headroom found: the accounts it tracks, the tools whose usage
//! it sees without an account, and a few tools that are not installed yet.

use vstd::prelude::*;
use crate::choices::{account_name, name_of};
use crate::i18n::{Lang, Msg, text};
use crate::payload::{Account, Settings, State, Status};
use crate::registry::{AddMethod, ProviderInfo};
use crate::text::{dot_sep, join, join_strs};

verus! {

/// How many tools that are not installed the list suggests at most.
pub const MAX_NOT_INSTALLED: usize = 3;

/// What was found of a provider.
#[derive(Debug, Clone, PartialEq, Eq)]
pub enum Found {
    SignedIn { account_id: String, hidden: bool },
    SignedOut,
    NotInstalled,
}

/// One line of the list.
#[derive(Debug, Clone, PartialEq, Eq)]
pub struct FoundRow {
    pub provider: String,
    pub title: String,
    pub subtitle: String,
    pub found: Found,
}

/// The part an optional text adds to a subtitle.
pub open spec fn opt_part(o: Option<String>) -> Seq<Seq<char>> {
    match o {
        Some(s) => seq![s@],
        None => Seq::empty(),
    }
}

/// The subtitle of a signed-in account: "Signed in", then its plan and e-mail when known.
pub open spec fn signed_in_subtitle_spec(lang: Lang, account: Account) -> Seq<char> {
    join(
        seq![text(lang, Msg::SignedIn)] + opt_part(account.plan) + opt_part(account.email),
        dot_sep(),
    )
}

/// The title of an account's line: the provider's name, followed by the account's own name
/// when the provider has several accounts and the name differs.
pub open spec fn account_title(account: Account, shows_name: bool) -> Seq<char> {
    if shows_name && name_of(account) != account.provider_name@ {
        account.provider_name@ + dot_sep() + name_of(account)
    } else {
        account.provider_name@
    }
}

/// The line of an account.
pub open spec fn is_account_row(lang: Lang, account: Account, shows_name: bool, row: FoundRow) -> bool {
    &&& row.provider@ == account.provider@
    &&& row.title@ == account_title(account, shows_name)
    &&& if account.status == Status::SignedOut {
        &&& row.subtitle@ == text(lang, Msg::FoundNotSignedIn)
        &&& row.found is SignedOut
    } else {
        &&& row.subtitle@ == signed_in_subtitle_spec(lang, account)
        &&& row.found matches Found::SignedIn { account_id, hidden }
        &&& account_id@ == account.id@
        &&& hidden == account.hidden
    }
}

/// The title of an account's line names the account after the provider, by its label, else
/// its e-mail, whenever the provider has several accounts and that name is not the provider's
/// own; otherwise it is the provider's name alone.
pub proof fn lemma_account_titles(lang: Lang, account: Account, shows_name: bool, row: FoundRow)
    requires
        is_account_row(lang, account, shows_name, row),
    ensures
        row.title@ == (if shows_name && match account.label {
            Some(l) => l@,
            None => match account.email {
                Some(e) => e@,
                None => account.provider_name@,
            },
        } != account.provider_name@ {
            account.provider_name@ + " · "@ + match account.label {
                Some(l) => l@,
                None => match account.email {
                    Some(e) => e@,
                    None => account.provider_name@,
                },
            }
        } else {
            account.provider_name@
        }),
{
}

/// The line of a provider without an account: found (signed out) or not installed.
pub open spec fn is_provider_row(lang: Lang, provider: ProviderInfo, installed: bool, row: FoundRow) -> bool {
    &&& row.provider@ == provider.id@
    &&& row.title@ == provider.display_name@
    &&& if installed {
        &&& row.subtitle@ == text(lang, Msg::FoundNotSignedIn)
        &&& row.found is SignedOut
    } else {
        &&& row.subtitle@ == text(lang, Msg::NotInstalled)
        &&& row.found is NotInstalled
    }
}

/// Whether an account of the provider is tracked.
pub open spec fn has_account_spec(state: State, provider: Seq<char>) -> bool {
    exists|k: int| 0 <= k < state.accounts@.len() && #[trigger] state.accounts@[k].provider@ == provider
}

/// Whether usage logs of the provider were found.
pub open spec fn has_usage_spec(state: State, provider: Seq<char>) -> bool {
    exists|k: int| 0 <= k < state.usage@.len() && #[trigger] state.usage@[k].provider@ == provider
}

/// Whether the provider signs in through its own CLI on this machine.
pub open spec fn signs_in_locally_spec(provider: ProviderInfo) -> bool {
    exists|k: int| 0 <= k < provider.methods@.len() && #[trigger] provider.methods@[k] is CliLogin
}

/// How many of the accounts belong to the provider.
pub open spec fn twins(accounts: Seq<Account>, provider: Seq<char>) -> nat
    decreases accounts.len(),
{
    if accounts.len() == 0 {
        0
    } else {
        twins(accounts.drop_last(), provider) + if accounts.last().provider@ == provider {
            1nat
        } else {
            0nat
        }
    }
}

/// Providers without an account whose usage was found.
pub open spec fn found_pred(state: State) -> spec_fn(ProviderInfo) -> bool {
    |p: ProviderInfo| !has_account_spec(state, p.id@) && has_usage_spec(state, p.id@)
}

/// Providers without an account or usage that sign in through their CLI.
pub open spec fn missing_pred(state: State) -> spec_fn(ProviderInfo) -> bool {
    |p: ProviderInfo|
        !has_account_spec(state, p.id@) && !has_usage_spec(state, p.id@) && signs_in_locally_spec(p)
}

/// The smaller of two counts.
pub open spec fn min_nat(a: nat, b: nat) -> nat {
    if a <= b { a } else { b }
}

/// Whether the first-run window opens: not dismissed, a 0.6 service, and a first run that is
/// not finished.
pub fn should_open(state: Option<&State>, settings: Option<&Settings>, dismissed: bool) -> (r: bool)
    ensures
        r == (!dismissed && (state matches Some(s) && s.panel_items is Some) && (
        settings matches Some(t) && !t.onboarding.completed)),
{
    if dismissed {
        return false;
    }
    let speaks = match state {
        Some(state) => state.speaks_0_6(),
        None => false,
    };
    let open = match settings {
        Some(settings) => !settings.onboarding.completed,
        None => false,
    };
    speaks && open
}

fn signed_in_subtitle(lang: Lang, account: &Account) -> (s: String)
    ensures
        s@ == signed_in_subtitle_spec(lang, *account),
{
    let mut parts: Vec<&str> = Vec::new();
    parts.push(lang.tr(Msg::SignedIn));
    if let Some(plan) = &account.plan {
        parts.push(plan.as_str());
    }
    if let Some(email) = &account.email {
        parts.push(email.as_str());
    }
    assert(parts@.map_values(|p: &str| p@) =~= seq![text(lang, Msg::SignedIn)] + opt_part(
        account.plan,
    ) + opt_part(account.email));
    join_strs(&parts, " · ")
}

fn account_row(lang: Lang, account: &Account, shows_name: bool) -> (row: FoundRow)
    ensures
        is_account_row(lang, *account, shows_name, row),
{
    let name = account_name(account);
    let title = if shows_name && !(name == account.provider_name) {
        account.provider_name.clone().concat(" · ").concat(name.as_str())
    } else {
        account.provider_name.clone()
    };
    if account.status == Status::SignedOut {
        return FoundRow {
            provider: account.provider.clone(),
            title,
            subtitle: lang.tr(Msg::FoundNotSignedIn).to_owned(),
            found: Found::SignedOut,
        };
    }
    FoundRow {
        provider: account.provider.clone(),
        title,
        subtitle: signed_in_subtitle(lang, account),
        found: Found::SignedIn { account_id: account.id.clone(), hidden: account.hidden },
    }
}

fn provider_row(lang: Lang, provider: &ProviderInfo, found: Found) -> (row: FoundRow)
    ensures
        row.provider@ == provider.id@,
        row.title@ == provider.display_name@,
        row.subtitle@ == if found is NotInstalled {
            text(lang, Msg::NotInstalled)
        } else {
            text(lang, Msg::FoundNotSignedIn)
        },
        row.found == found,
{
    let subtitle = match found {
        Found::NotInstalled => lang.tr(Msg::NotInstalled),
        _ => lang.tr(Msg::FoundNotSignedIn),
    };
    FoundRow {
        provider: provider.id.clone(),
        title: provider.display_name.clone(),
        subtitle: subtitle.to_owned(),
        found,
    }
}

fn has_account(state: &State, provider: &String) -> (r: bool)
    ensures
        r == has_account_spec(*state, provider@),
{
    let mut k: usize = 0;
    while k < state.accounts.len()
        invariant
            k <= state.accounts@.len(),
            forall|m: int| 0 <= m < k ==> #[trigger] state.accounts@[m].provider@ != provider@,
        decreases state.accounts.len() - k,
    {
        if state.accounts[k].provider == *provider {
            return true;
        }
        k = k + 1;
    }
    false
}

fn has_usage(state: &State, provider: &String) -> (r: bool)
    ensures
        r == has_usage_spec(*state, provider@),
{
    let mut k: usize = 0;
    while k < state.usage.len()
        invariant
            k <= state.usage@.len(),
            forall|m: int| 0 <= m < k ==> #[trigger] state.usage@[m].provider@ != provider@,
        decreases state.usage.len() - k,
    {
        if state.usage[k].provider == *provider {
            return true;
        }
        k = k + 1;
    }
    false
}

fn signs_in_locally(provider: &ProviderInfo) -> (r: bool)
    ensures
        r == signs_in_locally_spec(*provider),
{
    let mut k: usize = 0;
    while k < provider.methods.len()
        invariant
            k <= provider.methods@.len(),
            forall|m: int| 0 <= m < k ==> !(#[trigger] provider.methods@[m] is CliLogin),
        decreases provider.methods.len() - k,
    {
        if let AddMethod::CliLogin { .. } = &provider.methods[k] {
            return true;
        }
        k = k + 1;
    }
    false
}

fn count_twins(accounts: &Vec<Account>, provider: &String) -> (n: usize)
    ensures
        n as nat == twins(accounts@, provider@),
{
    let mut n: usize = 0;
    let mut k: usize = 0;
    while k < accounts.len()
        invariant
            k <= accounts@.len(),
            n <= k,
            n as nat == twins(accounts@.take(k as int), provider@),
        decreases accounts.len() - k,
    {
        assert(accounts@.take(k + 1).drop_last() =~= accounts@.take(k as int));
        if accounts[k].provider == *provider {
            n = n + 1;
        }
        k = k + 1;
    }
    assert(accounts@.take(k as int) =~= accounts@);
    n
}

fn account_rows(lang: Lang, state: &State) -> (rows: Vec<FoundRow>)
    ensures
        rows@.len() == state.accounts@.len(),
        forall|i: int|
            0 <= i < rows@.len() ==> is_account_row(
                lang,
                state.accounts@[i],
                twins(state.accounts@, state.accounts@[i].provider@) > 1,
                #[trigger] rows@[i],
            ),
{
    let mut rows: Vec<FoundRow> = Vec::new();
    let mut i: usize = 0;
    while i < state.accounts.len()
        invariant
            i <= state.accounts@.len(),
            rows@.len() == i,
            forall|m: int|
                0 <= m < i ==> is_account_row(
                    lang,
                    state.accounts@[m],
                    twins(state.accounts@, state.accounts@[m].provider@) > 1,
                    #[trigger] rows@[m],
                ),
        decreases state.accounts.len() - i,
    {
        let account = &state.accounts[i];
        let n = count_twins(&state.accounts, &account.provider);
        rows.push(account_row(lang, account, n > 1));
        i = i + 1;
    }
    rows
}

/// The first-run list: one line per tracked account in order; then, in registry order, each
/// provider without an account whose usage was found; then at most three providers without
/// an account or usage that sign in through their CLI, shown as not installed.
pub fn found_rows(lang: Lang, state: &State, providers: &[ProviderInfo]) -> (rows: Vec<FoundRow>)
    ensures
        ({
            let a = state.accounts@.len();
            let f = providers@.filter(found_pred(*state));
            let m = providers@.filter(missing_pred(*state));
            let shown = min_nat(MAX_NOT_INSTALLED as nat, m.len());
            &&& rows@.len() == a + f.len() + shown
            &&& forall|i: int|
                0 <= i < a ==> is_account_row(
                    lang,
                    state.accounts@[i],
                    twins(state.accounts@, state.accounts@[i].provider@) > 1,
                    #[trigger] rows@[i],
                )
            &&& forall|i: int|
                0 <= i < a ==> #[trigger] rows@[i].title@ == ({
                    let account = state.accounts@[i];
                    let shows_name = twins(state.accounts@, account.provider@) > 1;
                    (if shows_name && match account.label {
            Some(l) => l@,
            None => match account.email {
                Some(e) => e@,
                None => account.provider_name@,
            },
        } != account.provider_name@ {
            account.provider_name@ + " · "@ + match account.label {
                Some(l) => l@,
                None => match account.email {
                    Some(e) => e@,
                    None => account.provider_name@,
                },
            }
        } else {
            account.provider_name@
        })
                })
            &&& forall|k: int|
                0 <= k < f.len() ==> is_provider_row(lang, f[k], true, #[trigger] rows@[a + k])
            &&& forall|k: int|
                0 <= k < shown ==> is_provider_row(
                    lang,
                    m[k],
                    false,
                    #[trigger] rows@[a + f.len() + k],
                )
        }),
{
    let mut rows = account_rows(lang, state);
    proof {
        assert forall|i: int| 0 <= i < state.accounts@.len() implies #[trigger] rows@[i].title@ == ({
            let account = state.accounts@[i];
            let shows_name = twins(state.accounts@, account.provider@) > 1;
            (if shows_name && match account.label {
            Some(l) => l@,
            None => match account.email {
                Some(e) => e@,
                None => account.provider_name@,
            },
        } != account.provider_name@ {
            account.provider_name@ + " · "@ + match account.label {
                Some(l) => l@,
                None => match account.email {
                    Some(e) => e@,
                    None => account.provider_name@,
                },
            }
        } else {
            account.provider_name@
        })
        }) by {
            lemma_account_titles(
                lang,
                state.accounts@[i],
                twins(state.accounts@, state.accounts@[i].provider@) > 1,
                rows@[i],
            );
        }
    }
    let mut found: Vec<FoundRow> = Vec::new();
    let mut missing: Vec<FoundRow> = Vec::new();
    let ghost fp = found_pred(*state);
    let ghost mp = missing_pred(*state);
    let mut j: usize = 0;
    assert(providers@.take(0) =~= Seq::<ProviderInfo>::empty());
    proof {
        reveal(Seq::filter);
    }
    while j < providers.len()
        invariant
            j <= providers@.len(),
            fp == found_pred(*state),
            mp == missing_pred(*state),
            found@.len() == providers@.take(j as int).filter(fp).len(),
            forall|k: int|
                0 <= k < found@.len() ==> is_provider_row(
                    lang,
                    providers@.take(j as int).filter(fp)[k],
                    true,
                    #[trigger] found@[k],
                ),
            missing@.len() == min_nat(
                MAX_NOT_INSTALLED as nat,
                providers@.take(j as int).filter(mp).len(),
            ),
            forall|k: int|
                0 <= k < missing@.len() ==> is_provider_row(
                    lang,
                    providers@.take(j as int).filter(mp)[k],
                    false,
                    #[trigger] missing@[k],
                ),
        decreases providers.len() - j,
    {
        let provider = &providers[j];
        let ghost before_f = providers@.take(j as int).filter(fp);
        let ghost before_m = providers@.take(j as int).filter(mp);
        proof {
            assert(providers@.take(j + 1) =~= providers@.take(j as int).push(providers@[j as int]));
            providers@.take(j as int).lemma_filter_push(providers@[j as int], fp);
            providers@.take(j as int).lemma_filter_push(providers@[j as int], mp);
        }
        if !has_account(state, &provider.id) {
            if has_usage(state, &provider.id) {
                found.push(provider_row(lang, provider, Found::SignedOut));
            } else if missing.len() < MAX_NOT_INSTALLED && signs_in_locally(provider) {
                missing.push(provider_row(lang, provider, Found::NotInstalled));
            }
        }
        proof {
            let after_m = providers@.take(j + 1).filter(mp);
            assert(forall|k: int| 0 <= k < before_m.len() ==> after_m[k] == before_m[k]);
            let after_f = providers@.take(j + 1).filter(fp);
            assert(forall|k: int| 0 <= k < before_f.len() ==> after_f[k] == before_f[k]);
        }
        j = j + 1;
    }
    assert(providers@.take(providers@.len() as int) =~= providers@);
    let ghost a = rows@;
    let ghost f = found@;
    rows.append(&mut found);
    assert(forall|k: int| 0 <= k < f.len() ==> rows@[a.len() + k] == f[k]);
    let ghost af = rows@;
    rows.append(&mut missing);
    assert(forall|k: int| 0 <= k < af.len() ==> rows@[k] == af[k]);
    rows
}

} // verus!
