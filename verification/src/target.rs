//! What a sign-in flow is for: adding a new account, or signing an existing one in again.

use vstd::prelude::*;
use crate::i18n::{Lang, Msg, text};
use crate::registry::{AddMethod, ProviderInfo, add_account_args, add_args_spec, progress_args, views};
use crate::text::{fill, fill_spec, find_char, pairs_view};

verus! {

/// The aim of a sign-in flow.
#[derive(Debug, Clone, PartialEq, Eq)]
pub enum Target {
    Add,
    Login { account_id: String },
}

/// The command that signs an existing account in again.
pub open spec fn login_args_spec(account_id: Seq<char>, method: AddMethod) -> Seq<Seq<char>> {
    seq!["accounts"@, "login"@, account_id] + (if method is ApiKey {
        seq!["--api-key-stdin"@]
    } else {
        Seq::<Seq<char>>::empty()
    }) + progress_args()
}

/// The arguments a flow runs the service command with.
pub open spec fn target_args(target: Target, provider_id: Seq<char>, method: AddMethod, label: Seq<char>) -> Seq<
    Seq<char>,
> {
    match target {
        Target::Add => add_args_spec(provider_id, method, label),
        Target::Login { account_id } => login_args_spec(account_id@, method),
    }
}

/// The message that titles a flow.
pub open spec fn title_msg(target: Target) -> Msg {
    match target {
        Target::Add => Msg::AddProviderAccount,
        Target::Login { .. } => Msg::SignInAgainTo,
    }
}

/// The message shown when a flow succeeds.
pub open spec fn done_msg(target: Target) -> Msg {
    match target {
        Target::Add => Msg::AccountAdded,
        Target::Login { .. } => Msg::SignedInAgain,
    }
}

/// The first position from `i` on that holds a method of the given kind, or the length.
pub open spec fn first_method(methods: Seq<AddMethod>, cli: bool, i: int) -> int
    decreases methods.len() - i,
{
    if i < 0 || i >= methods.len() {
        methods.len() as int
    } else if (cli && methods[i] is CliLogin) || (!cli && methods[i] is ApiKey) {
        i
    } else {
        first_method(methods, cli, i + 1)
    }
}

/// The provider named at the front of an account id: the part before the first `:`, or the
/// whole id when it has none.
pub open spec fn provider_part(account_id: Seq<char>) -> Seq<char> {
    account_id.take(find_char(account_id, ':', 0))
}

proof fn lemma_first_method_bounds(methods: Seq<AddMethod>, cli: bool, i: int)
    requires
        0 <= i,
    ensures
        first_method(methods, cli, i) == methods.len() || (i <= first_method(methods, cli, i)
            < methods.len()),
    decreases methods.len() - i,
{
    if i < methods.len() {
        lemma_first_method_bounds(methods, cli, i + 1);
    }
}

impl Target {
    /// The arguments of the service command that carries out the flow.
    pub fn args(&self, provider_id: &str, method: &AddMethod, label: &str) -> (args: Vec<String>)
        ensures
            views(args@) == target_args(*self, provider_id@, *method, label@),
    {
        match self {
            Target::Add => add_account_args(provider_id, method, label),
            Target::Login { account_id } => login_args(account_id, method),
        }
    }

    /// Whether the flow signs an existing account in again.
    pub fn is_login(&self) -> (r: bool)
        ensures
            r == (*self is Login),
    {
        match self {
            Target::Login { .. } => true,
            Target::Add => false,
        }
    }

    /// The title of the flow's page.
    pub fn title(&self, lang: Lang, provider_name: &str) -> (s: String)
        ensures
            s@ == fill_spec(text(lang, title_msg(*self)), seq![("provider"@, provider_name@)]),
    {
        let template = match self {
            Target::Add => lang.tr(Msg::AddProviderAccount),
            Target::Login { .. } => lang.tr(Msg::SignInAgainTo),
        };
        let pairs = [("provider", provider_name)];
        let s = fill(template, &pairs);
        assert(pairs_view(pairs@) =~= seq![("provider"@, provider_name@)]);
        s
    }

    /// The text shown when the flow succeeds.
    pub fn done_text(&self, lang: Lang) -> (s: &'static str)
        ensures
            s@ == text(lang, done_msg(*self)),
    {
        match self {
            Target::Add => lang.tr(Msg::AccountAdded),
            Target::Login { .. } => lang.tr(Msg::SignedInAgain),
        }
    }
}

fn login_args(account_id: &String, method: &AddMethod) -> (args: Vec<String>)
    ensures
        views(args@) == login_args_spec(account_id@, *method),
{
    let mut args: Vec<String> = Vec::new();
    args.push("accounts".to_owned());
    args.push("login".to_owned());
    args.push(account_id.clone());
    if let AddMethod::ApiKey { .. } = method {
        args.push("--api-key-stdin".to_owned());
    }
    args.push("--progress".to_owned());
    args.push("json".to_owned());
    assert(views(args@) =~= login_args_spec(account_id@, *method));
    args
}

fn first_of_kind(methods: &Vec<AddMethod>, cli: bool) -> (i: usize)
    ensures
        i as int == first_method(methods@, cli, 0),
{
    let mut i: usize = 0;
    while i < methods.len()
        invariant
            i <= methods@.len(),
            first_method(methods@, cli, 0) == first_method(methods@, cli, i as int),
        decreases methods.len() - i,
    {
        let hit = match &methods[i] {
            AddMethod::CliLogin { .. } => cli,
            AddMethod::ApiKey { .. } => !cli,
            AddMethod::AutoDetect { .. } => false,
        };
        if hit {
            return i;
        }
        i = i + 1;
    }
    i
}

/// The method a new sign-in of the provider uses: its CLI sign-in when it has one, else its
/// API key, else none.
pub fn login_method(provider: &ProviderInfo) -> (r: Option<&AddMethod>)
    ensures
        ({
            let m = provider.methods@;
            let cli = first_method(m, true, 0);
            let key = first_method(m, false, 0);
            if cli < m.len() {
                r matches Some(found) && *found == m[cli]
            } else if key < m.len() {
                r matches Some(found) && *found == m[key]
            } else {
                r is None
            }
        }),
{
    proof {
        lemma_first_method_bounds(provider.methods@, true, 0);
        lemma_first_method_bounds(provider.methods@, false, 0);
    }
    let cli = first_of_kind(&provider.methods, true);
    if cli < provider.methods.len() {
        return Some(&provider.methods[cli]);
    }
    let key = first_of_kind(&provider.methods, false);
    if key < provider.methods.len() {
        return Some(&provider.methods[key]);
    }
    None
}

/// The provider an account id starts with.
pub fn provider_of_account(account_id: &str) -> (r: &str)
    ensures
        r@ == provider_part(account_id@),
        r@.len() <= account_id@.len(),
        r@ == account_id@.take(r@.len() as int),
        forall|k: int| 0 <= k < r@.len() ==> r@[k] != ':',
        r@.len() < account_id@.len() ==> account_id@[r@.len() as int] == ':',
{
    let len = account_id.unicode_len();
    let mut i: usize = 0;
    while i < len && account_id.get_char(i) != ':'
        invariant
            len == account_id@.len(),
            i <= len,
            find_char(account_id@, ':', 0) == find_char(account_id@, ':', i as int),
            forall|k: int| 0 <= k < i ==> account_id@[k] != ':',
        decreases len - i,
    {
        i = i + 1;
    }
    let r = account_id.substring_char(0, i);
    assert(account_id@.subrange(0, i as int) =~= account_id@.take(i as int));
    r
}

} // verus!
