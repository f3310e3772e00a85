//! The context menu of a popup card: refresh, hide and star the card's accounts, open the
//! provider's pages, then share.

use vstd::prelude::*;
use crate::context::{Action, ShareTarget};
use crate::i18n::{Lang, Msg, text};
use crate::registry::views;
use crate::text::{fill, fill_spec, pairs_view};

verus! {

/// A page of a provider that a card links to.
#[derive(Debug, Clone, Copy, PartialEq, Eq, Structural)]
pub enum LinkKind {
    Status,
    Dashboard,
    Usage,
}

/// A link of a card: the kind of page, the host it lies on, and its address.
#[derive(Debug, Clone, PartialEq, Eq)]
pub struct QuickLink {
    pub kind: LinkKind,
    pub host: String,
    pub url: String,
}

/// What the menu of a card is about.
#[derive(Debug, Clone, PartialEq, Eq)]
pub struct MenuInput {
    pub provider_name: String,
    pub account_ids: Vec<String>,
    pub starred: bool,
    pub target: ShareTarget,
    pub links: Vec<QuickLink>,
}

/// The icon of a menu item: a named icon, or the glyph of a kind of link.
#[derive(Debug, Clone, Copy, PartialEq, Eq)]
pub enum MenuIcon {
    Named(&'static str),
    Link(LinkKind),
}

/// One item of the menu: its icon, its title, a detail shown after the title, and the
/// actions it triggers in order.
#[derive(Debug, Clone, PartialEq, Eq)]
pub struct MenuEntry {
    pub icon: MenuIcon,
    pub title: String,
    pub detail: Option<String>,
    pub actions: Vec<Action>,
}

/// Whether the icon is the named one.
pub open spec fn named(icon: MenuIcon, name: Seq<char>) -> bool {
    icon matches MenuIcon::Named(n) && n@ == name
}

/// A line of the menu: the item at a position of a group, or a separator between groups.
#[derive(Debug, Clone, Copy, PartialEq, Eq, Structural)]
pub enum MenuLine {
    Item { group: usize, index: usize },
    Separator,
}

/// Whether the action list refreshes each of `ids`, in order.
pub open spec fn refreshes(actions: Seq<Action>, ids: Seq<String>) -> bool {
    &&& actions.len() == ids.len()
    &&& forall|k: int|
        0 <= k < ids.len() ==> (#[trigger] actions[k] matches Action::Refresh(id) && id@ == ids[k]@)
}

/// The account items of a card's menu: refresh its accounts; hide them; and, when the popup
/// sorts by recent use, star or unstar them.
pub open spec fn account_entries_spec(lang: Lang, recent: bool, input: MenuInput, entries: Seq<MenuEntry>) -> bool {
    let ids = input.account_ids@;
    &&& entries.len() == if recent { 3int } else { 2int }
    &&& forall|k: int| 0 <= k < entries.len() ==> (#[trigger] entries[k]).detail is None
    &&& named(entries[0].icon, "view-refresh-symbolic"@)
    &&& entries[0].title@ == fill_spec(
        text(lang, Msg::RefreshProvider),
        seq![("provider"@, input.provider_name@)],
    )
    &&& refreshes(entries[0].actions@, ids)
    &&& named(entries[1].icon, "view-conceal-symbolic"@)
    &&& entries[1].title@ == text(lang, Msg::HideFromPopup)
    &&& entries[1].actions@.len() == 1
    &&& entries[1].actions@[0] matches Action::HideAccounts(hidden) && views(hidden@) == views(ids)
    &&& recent ==> {
        &&& named(
            entries[2].icon,
            if input.starred {
                "starred-symbolic"@
            } else {
                "non-starred-symbolic"@
            },
        )
        &&& entries[2].title@ == text(lang, Msg::AlwaysShow)
        &&& entries[2].actions@.len() == 1
        &&& entries[2].actions@[0] matches Action::SetStarred(set, on) && views(set@) == views(ids)
            && on == !input.starred
    }
}

/// The share items: share as an image, copy as text.
pub open spec fn share_entries_spec(lang: Lang, target: ShareTarget, entries: Seq<MenuEntry>) -> bool {
    &&& entries.len() == 2
    &&& entries[0].detail is None && entries[1].detail is None
    &&& named(entries[0].icon, "send-to-symbolic"@)
    &&& entries[0].title@ == text(lang, Msg::ShareAsImage)
    &&& entries[0].actions@ == seq![Action::Share(target)]
    &&& named(entries[1].icon, "edit-copy-symbolic"@)
    &&& entries[1].title@ == text(lang, Msg::CopyAsText)
    &&& entries[1].actions@ == seq![Action::CopySummary(target)]
}

/// The kinds of link, in the order the menu lists them.
pub open spec fn link_order() -> Seq<LinkKind> {
    seq![LinkKind::Status, LinkKind::Dashboard, LinkKind::Usage]
}

/// The message that names a kind of link.
pub open spec fn link_msg(kind: LinkKind) -> Msg {
    match kind {
        LinkKind::Status => Msg::LinkStatus,
        LinkKind::Dashboard => Msg::LinkDashboard,
        LinkKind::Usage => Msg::LinkUsage,
    }
}

/// The first position from `i` on whose link is of the kind, or the number of links.
pub open spec fn first_link(links: Seq<QuickLink>, kind: LinkKind, i: int) -> int
    decreases links.len() - i,
{
    if i < 0 || i >= links.len() {
        links.len() as int
    } else if links[i].kind == kind {
        i
    } else {
        first_link(links, kind, i + 1)
    }
}

/// The first link of the kind, when there is one.
pub open spec fn pick(links: Seq<QuickLink>, kind: LinkKind) -> Seq<QuickLink> {
    let f = first_link(links, kind, 0);
    if 0 <= f < links.len() {
        seq![links[f]]
    } else {
        Seq::empty()
    }
}

/// The links the menu offers: the first status page, the first dashboard and the first usage
/// page, in this order, each when there is one.
pub open spec fn picked_links(links: Seq<QuickLink>) -> Seq<QuickLink> {
    pick(links, LinkKind::Status) + pick(links, LinkKind::Dashboard) + pick(links, LinkKind::Usage)
}

/// The item of a link: the kind's glyph and name, the host as detail, and opening the page.
pub open spec fn is_link_entry(lang: Lang, link: QuickLink, entry: MenuEntry) -> bool {
    &&& entry.icon == MenuIcon::Link(link.kind)
    &&& entry.title@ == text(lang, link_msg(link.kind))
    &&& entry.detail matches Some(h) && h@ == link.host@
    &&& entry.actions@.len() == 1
    &&& entry.actions@[0] matches Action::OpenUrl(u) && u@ == link.url@
}

/// The lines of a menu whose groups have the given sizes: the items of the non-empty groups
/// in order, a separator between each two of them.
pub open spec fn menu_lines_spec(sizes: Seq<nat>) -> Seq<MenuLine>
    decreases sizes.len(),
{
    if sizes.len() == 0 {
        Seq::empty()
    } else {
        let before = menu_lines_spec(sizes.drop_last());
        let g = (sizes.len() - 1) as usize;
        let last = Seq::new(sizes.last(), |i: int| MenuLine::Item { group: g, index: i as usize });
        if sizes.last() == 0 {
            before
        } else if before.len() == 0 {
            last
        } else {
            before.push(MenuLine::Separator) + last
        }
    }
}

/// The sizes of the groups.
pub open spec fn group_sizes(groups: Seq<Vec<MenuEntry>>) -> Seq<nat> {
    groups.map_values(|g: Vec<MenuEntry>| g@.len())
}

fn copy_ids(ids: &Vec<String>) -> (r: Vec<String>)
    ensures
        views(r@) == views(ids@),
{
    let mut r: Vec<String> = Vec::new();
    let mut k: usize = 0;
    while k < ids.len()
        invariant
            k <= ids@.len(),
            r@.len() == k,
            forall|m: int| 0 <= m < k ==> #[trigger] r@[m]@ == ids@[m]@,
        decreases ids.len() - k,
    {
        r.push(ids[k].clone());
        k = k + 1;
    }
    assert(views(r@) =~= views(ids@));
    r
}

/// The account items of a card's menu.
pub fn account_entries(lang: Lang, recent: bool, input: &MenuInput) -> (entries: Vec<MenuEntry>)
    ensures
        account_entries_spec(lang, recent, *input, entries@),
{
    let mut refresh: Vec<Action> = Vec::new();
    let mut k: usize = 0;
    while k < input.account_ids.len()
        invariant
            k <= input.account_ids@.len(),
            refresh@.len() == k,
            forall|m: int|
                0 <= m < k ==> (#[trigger] refresh@[m] matches Action::Refresh(id) && id@
                    == input.account_ids@[m]@),
        decreases input.account_ids.len() - k,
    {
        refresh.push(Action::Refresh(input.account_ids[k].clone()));
        k = k + 1;
    }
    let pairs = [("provider", input.provider_name.as_str())];
    let title = fill(lang.tr(Msg::RefreshProvider), &pairs);
    assert(pairs_view(pairs@) =~= seq![("provider"@, input.provider_name@)]);
    let mut entries: Vec<MenuEntry> = Vec::new();
    entries.push(
        MenuEntry {
            icon: MenuIcon::Named("view-refresh-symbolic"),
            title,
            detail: None,
            actions: refresh,
        },
    );
    let mut conceal: Vec<Action> = Vec::new();
    conceal.push(Action::HideAccounts(copy_ids(&input.account_ids)));
    entries.push(
        MenuEntry {
            icon: MenuIcon::Named("view-conceal-symbolic"),
            title: lang.tr(Msg::HideFromPopup).to_owned(),
            detail: None,
            actions: conceal,
        },
    );
    if recent {
        let icon = if input.starred {
            "starred-symbolic"
        } else {
            "non-starred-symbolic"
        };
        let mut star: Vec<Action> = Vec::new();
        star.push(Action::SetStarred(copy_ids(&input.account_ids), !input.starred));
        entries.push(
            MenuEntry {
                icon: MenuIcon::Named(icon),
                title: lang.tr(Msg::AlwaysShow).to_owned(),
                detail: None,
                actions: star,
            },
        );
    }
    entries
}

fn find_link(links: &Vec<QuickLink>, kind: LinkKind) -> (f: usize)
    ensures
        f as int == first_link(links@, kind, 0),
{
    let mut i: usize = 0;
    while i < links.len()
        invariant
            i <= links@.len(),
            first_link(links@, kind, 0) == first_link(links@, kind, i as int),
        decreases links.len() - i,
    {
        if links[i].kind == kind {
            return i;
        }
        i = i + 1;
    }
    i
}

proof fn lemma_first_link_bounds(links: Seq<QuickLink>, kind: LinkKind, i: int)
    requires
        0 <= i <= links.len(),
    ensures
        i <= first_link(links, kind, i) <= links.len(),
        first_link(links, kind, i) < links.len() ==> links[first_link(links, kind, i)].kind == kind,
        forall|m: int| i <= m < first_link(links, kind, i) ==> (#[trigger] links[m]).kind != kind,
    decreases links.len() - i,
{
    if i < links.len() && links[i].kind != kind {
        lemma_first_link_bounds(links, kind, i + 1);
    }
}

fn link_entry(lang: Lang, link: &QuickLink) -> (entry: MenuEntry)
    ensures
        is_link_entry(lang, *link, entry),
{
    let title = match link.kind {
        LinkKind::Status => lang.tr(Msg::LinkStatus),
        LinkKind::Dashboard => lang.tr(Msg::LinkDashboard),
        LinkKind::Usage => lang.tr(Msg::LinkUsage),
    };
    let mut actions: Vec<Action> = Vec::new();
    actions.push(Action::OpenUrl(link.url.clone()));
    MenuEntry {
        icon: MenuIcon::Link(link.kind),
        title: title.to_owned(),
        detail: Some(link.host.clone()),
        actions,
    }
}

/// The link items of a card's menu: its status page, dashboard and usage page, in this
/// order, each the first link of its kind and left out when there is none.
pub fn link_entries(lang: Lang, links: &Vec<QuickLink>) -> (entries: Vec<MenuEntry>)
    ensures
        entries@.len() == picked_links(links@).len(),
        forall|k: int|
            0 <= k < entries@.len() ==> is_link_entry(
                lang,
                picked_links(links@)[k],
                #[trigger] entries@[k],
            ),
{
    let mut entries: Vec<MenuEntry> = Vec::new();
    let ghost mut done: Seq<QuickLink> = Seq::empty();
    let kinds = [LinkKind::Status, LinkKind::Dashboard, LinkKind::Usage];
    let mut n: usize = 0;
    while n < 3
        invariant
            n <= 3,
            kinds@ == link_order(),
            done == if n == 0 {
                Seq::<QuickLink>::empty()
            } else if n == 1 {
                pick(links@, LinkKind::Status)
            } else if n == 2 {
                pick(links@, LinkKind::Status) + pick(links@, LinkKind::Dashboard)
            } else {
                picked_links(links@)
            },
            entries@.len() == done.len(),
            forall|k: int| 0 <= k < entries@.len() ==> is_link_entry(lang, done[k], #[trigger] entries@[k]),
        decreases 3 - n,
    {
        let kind = kinds[n];
        let f = find_link(links, kind);
        proof {
            lemma_first_link_bounds(links@, kind, 0);
        }
        let ghost before = done;
        if f < links.len() {
            let entry = link_entry(lang, &links[f]);
            entries.push(entry);
            proof {
                done = before.push(links@[f as int]);
                assert(pick(links@, kind) =~= seq![links@[f as int]]);
            }
        } else {
            proof {
                assert(pick(links@, kind) =~= Seq::<QuickLink>::empty());
            }
        }
        proof {
            assert(done =~= before + pick(links@, kind));
            if n == 2 {
                assert(done =~= picked_links(links@));
            }
        }
        n = n + 1;
    }
    entries
}

/// The menu offers each kind of link at most once, in the order status, dashboard, usage;
/// every link it offers is one of the card's; and every kind the card has a link of is
/// offered.
pub proof fn lemma_links_once(links: Seq<QuickLink>)
    ensures
        forall|i: int, j: int|
            0 <= i < j < picked_links(links).len() ==> (#[trigger] picked_links(links)[i]).kind
                != (#[trigger] picked_links(links)[j]).kind,
        forall|k: int|
            0 <= k < picked_links(links).len() ==> exists|m: int|
                0 <= m < links.len() && links[m] == #[trigger] picked_links(links)[k],
        forall|m: int|
            0 <= m < links.len() ==> exists|k: int|
                0 <= k < picked_links(links).len() && (#[trigger] picked_links(links)[k]).kind
                    == (#[trigger] links[m]).kind,
{
    lemma_first_link_bounds(links, LinkKind::Status, 0);
    lemma_first_link_bounds(links, LinkKind::Dashboard, 0);
    lemma_first_link_bounds(links, LinkKind::Usage, 0);
    let s = pick(links, LinkKind::Status);
    let d = pick(links, LinkKind::Dashboard);
    let u = pick(links, LinkKind::Usage);
    let all = picked_links(links);
    assert(all == s + d + u);
    assert(forall|k: int| 0 <= k < s.len() ==> (#[trigger] s[k]).kind == LinkKind::Status);
    assert(forall|k: int| 0 <= k < d.len() ==> (#[trigger] d[k]).kind == LinkKind::Dashboard);
    assert(forall|k: int| 0 <= k < u.len() ==> (#[trigger] u[k]).kind == LinkKind::Usage);
    assert forall|k: int| 0 <= k < all.len() implies (#[trigger] all[k]).kind == if k < s.len() {
        LinkKind::Status
    } else if k < s.len() + d.len() {
        LinkKind::Dashboard
    } else {
        LinkKind::Usage
    } by {
        if k < s.len() {
            assert(all[k] == s[k]);
        } else if k < s.len() + d.len() {
            assert(all[k] == d[k - s.len()]);
        } else {
            assert(all[k] == u[k - s.len() - d.len()]);
        }
    }
    assert forall|k: int| 0 <= k < all.len() implies exists|m: int|
        0 <= m < links.len() && links[m] == #[trigger] all[k] by {
        if k < s.len() {
            assert(all[k] == links[first_link(links, LinkKind::Status, 0)]);
        } else if k < s.len() + d.len() {
            assert(all[k] == links[first_link(links, LinkKind::Dashboard, 0)]);
        } else {
            assert(all[k] == links[first_link(links, LinkKind::Usage, 0)]);
        }
    }
    assert forall|m: int| 0 <= m < links.len() implies exists|k: int|
        0 <= k < all.len() && (#[trigger] all[k]).kind == (#[trigger] links[m]).kind by {
        match links[m].kind {
            LinkKind::Status => {
                assert(all[0].kind == LinkKind::Status);
            },
            LinkKind::Dashboard => {
                assert(all[s.len() as int].kind == LinkKind::Dashboard);
            },
            LinkKind::Usage => {
                assert(all[(s.len() + d.len()) as int].kind == LinkKind::Usage);
            },
        }
    }
}

/// The groups of a card's menu, in order: the account items, the link items and the share
/// items.
pub fn menu_groups(lang: Lang, recent: bool, input: &MenuInput) -> (groups: Vec<Vec<MenuEntry>>)
    ensures
        groups@.len() == 3,
        account_entries_spec(lang, recent, *input, groups@[0]@),
        groups@[1]@.len() == picked_links(input.links@).len(),
        forall|k: int|
            0 <= k < groups@[1]@.len() ==> is_link_entry(
                lang,
                picked_links(input.links@)[k],
                #[trigger] groups@[1]@[k],
            ),
        share_entries_spec(lang, input.target, groups@[2]@),
{
    let mut groups: Vec<Vec<MenuEntry>> = Vec::new();
    groups.push(account_entries(lang, recent, input));
    groups.push(link_entries(lang, &input.links));
    groups.push(share_entries(lang, &input.target));
    groups
}

/// The share items of a card's menu.
pub fn share_entries(lang: Lang, target: &ShareTarget) -> (entries: Vec<MenuEntry>)
    ensures
        share_entries_spec(lang, *target, entries@),
{
    let mut share: Vec<Action> = Vec::new();
    share.push(Action::Share(target.copied()));
    let mut copy: Vec<Action> = Vec::new();
    copy.push(Action::CopySummary(target.copied()));
    let mut entries: Vec<MenuEntry> = Vec::new();
    entries.push(
        MenuEntry {
            icon: MenuIcon::Named("send-to-symbolic"),
            title: lang.tr(Msg::ShareAsImage).to_owned(),
            detail: None,
            actions: share,
        },
    );
    entries.push(
        MenuEntry {
            icon: MenuIcon::Named("edit-copy-symbolic"),
            title: lang.tr(Msg::CopyAsText).to_owned(),
            detail: None,
            actions: copy,
        },
    );
    assert(entries@[0].actions@ =~= seq![Action::Share(*target)]);
    assert(entries@[1].actions@ =~= seq![Action::CopySummary(*target)]);
    entries
}

/// The lines of a menu: the items of the non-empty groups in order, with a separator between
/// each two groups.
pub fn menu_lines(groups: &Vec<Vec<MenuEntry>>) -> (lines: Vec<MenuLine>)
    ensures
        lines@ == menu_lines_spec(group_sizes(groups@)),
{
    let ghost sizes = group_sizes(groups@);
    let mut lines: Vec<MenuLine> = Vec::new();
    let mut g: usize = 0;
    assert(sizes.take(0) =~= Seq::<nat>::empty());
    while g < groups.len()
        invariant
            g <= groups@.len(),
            sizes == group_sizes(groups@),
            lines@ == menu_lines_spec(sizes.take(g as int)),
        decreases groups.len() - g,
    {
        let size = groups[g].len();
        let ghost before = lines@;
        assert(sizes.take(g + 1).drop_last() =~= sizes.take(g as int));
        assert(sizes.take(g + 1).last() == size as nat);
        if size > 0 {
            if lines.len() > 0 {
                lines.push(MenuLine::Separator);
            }
            let ghost start = lines@;
            let mut i: usize = 0;
            while i < size
                invariant
                    i <= size,
                    lines@ == start + Seq::new(
                        i as nat,
                        |k: int| MenuLine::Item { group: g, index: k as usize },
                    ),
                decreases size - i,
            {
                lines.push(MenuLine::Item { group: g, index: i });
                assert(lines@ =~= start + Seq::new(
                    (i + 1) as nat,
                    |k: int| MenuLine::Item { group: g, index: k as usize },
                ));
                i = i + 1;
            }
            assert(lines@ =~= menu_lines_spec(sizes.take(g + 1)));
        }
        g = g + 1;
    }
    assert(sizes.take(g as int) =~= sizes);
    lines
}

} // verus!
