//! The providers the service can track and the ways an account of each can be added.

use vstd::prelude::*;
use crate::i18n::{Lang, Msg, text};

verus! {

/// A way to add an account.
#[derive(Debug, Clone, PartialEq, Eq)]
pub enum AddMethod {
    CliLogin { program: Option<String> },
    ApiKey { label: Option<String>, console_url: Option<String>, hint: Option<String> },
    AutoDetect { reason: Option<String> },
}

/// The pages of a provider that cards link to, by kind, when the provider has them.
#[derive(Debug, Clone, PartialEq, Eq)]
pub struct ProviderLinks {
    pub status: Option<String>,
    pub dashboard: Option<String>,
    pub usage: Option<String>,
}

impl Default for ProviderLinks {
    fn default() -> (links: Self)
        ensures
            links.status is None && links.dashboard is None && links.usage is None,
    {
        ProviderLinks { status: None, dashboard: None, usage: None }
    }
}

/// A provider the service knows.
#[derive(Debug, Clone, PartialEq, Eq)]
pub struct ProviderInfo {
    pub id: String,
    pub display_name: String,
    pub methods: Vec<AddMethod>,
    pub links: ProviderLinks,
}

/// The closing words of every account command: progress reported as JSON lines.
pub open spec fn progress_args() -> Seq<Seq<char>> {
    seq!["--progress"@, "json"@]
}

/// The views of a list of strings.
pub open spec fn views(args: Seq<String>) -> Seq<Seq<char>> {
    args.map_values(|a: String| a@)
}

/// The command that adds an account: the provider, the label when one is given, the key on
/// standard input for an API key, and JSON progress.
pub open spec fn add_args_spec(provider_id: Seq<char>, method: AddMethod, label: Seq<char>) -> Seq<
    Seq<char>,
> {
    seq!["accounts"@, "add"@, provider_id] + (if label.len() == 0 {
        Seq::<Seq<char>>::empty()
    } else {
        seq!["--label="@ + label]
    }) + (if method is ApiKey {
        seq!["--api-key-stdin"@]
    } else {
        Seq::<Seq<char>>::empty()
    }) + progress_args()
}

/// The arguments of the command that adds an account of `provider_id` by `method`.
pub fn add_account_args(provider_id: &str, method: &AddMethod, label: &str) -> (args: Vec<String>)
    ensures
        views(args@) == add_args_spec(provider_id@, *method, label@),
{
    let mut args: Vec<String> = Vec::new();
    args.push("accounts".to_owned());
    args.push("add".to_owned());
    args.push(provider_id.to_owned());
    if !label.is_empty() {
        args.push("--label=".to_owned().concat(label));
    }
    if let AddMethod::ApiKey { .. } = method {
        args.push("--api-key-stdin".to_owned());
    }
    args.push("--progress".to_owned());
    args.push("json".to_owned());
    assert(views(args@) =~= add_args_spec(provider_id@, *method, label@));
    args
}

/// The name the key field is shown with: the provider's own label for its key, or "API key".
pub fn key_label(lang: Lang, method: &AddMethod) -> (s: String)
    ensures
        s@ == (match method {
            AddMethod::ApiKey { label: Some(label), .. } => label@,
            _ => text(lang, Msg::ApiKey),
        }),
{
    match method {
        AddMethod::ApiKey { label: Some(label), .. } => label.clone(),
        _ => lang.tr(Msg::ApiKey).to_owned(),
    }
}

/// The hint shown under the key field: the provider's, or nothing.
pub fn hint(method: &AddMethod) -> (s: &str)
    ensures
        s@ == (match method {
            AddMethod::ApiKey { hint: Some(hint), .. } => hint@,
            _ => Seq::<char>::empty(),
        }),
{
    match method {
        AddMethod::ApiKey { hint: Some(hint), .. } => hint.as_str(),
        _ => {
            proof {
                reveal_strlit("");
            }
            ""
        },
    }
}

/// Where the provider's console hands out keys, when the method is a key and names one.
pub fn console_url(method: &AddMethod) -> (url: Option<String>)
    ensures
        url matches Some(u) ==> method matches AddMethod::ApiKey { console_url: Some(c), .. } && u@
            == c@,
        url is None ==> !(method matches AddMethod::ApiKey { console_url: Some(_), .. }),
{
    match method {
        AddMethod::ApiKey { console_url, .. } => match console_url {
            Some(url) => Some(url.clone()),
            None => None,
        },
        _ => None,
    }
}

/// Why the service finds accounts of the provider on its own, when the method says.
pub fn reason(method: &AddMethod) -> (r: Option<&str>)
    ensures
        r matches Some(s) ==> method matches AddMethod::AutoDetect { reason: Some(m) } && s@ == m@,
        r is None ==> !(method matches AddMethod::AutoDetect { reason: Some(_) }),
{
    match method {
        AddMethod::AutoDetect { reason } => match reason {
            Some(r) => Some(r.as_str()),
            None => None,
        },
        _ => None,
    }
}

} // verus!
