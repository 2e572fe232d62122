//! What the tool list shows: a card per visible tool with its selection
//! mark and status tag, and the count of selected tools below.
use vstd::prelude::*;
use crate::config::{Config, strings_view};
use crate::manifest::ToolEntry;
use crate::selection::contains_str;
use crate::text::{join2, decimal, decimal_string};

verus! {

/// The status of a tool as its card shows it.
#[derive(Debug, Clone, Copy, PartialEq, Eq, Structural)]
pub enum ToolStatus {
    /// The tool is installed and works.
    Installed,
    /// The tool is not installed yet.
    NotInstalled,
    /// The tool's installation failed.
    Broken,
    /// The tool's status is being checked.
    Checking,
    /// The tool is being installed.
    Installing,
}

/// The text of the status tag.
pub open spec fn status_label(s: ToolStatus) -> Seq<char> {
    match s {
        ToolStatus::Installed => "Active"@,
        ToolStatus::NotInstalled => "Not installed"@,
        ToolStatus::Broken => "Broken"@,
        ToolStatus::Checking => "Checking"@,
        ToolStatus::Installing => "Installing"@,
    }
}

impl ToolStatus {
    /// The text of the status tag.
    pub fn label(&self) -> (res: &'static str)
        ensures
            res@ == status_label(*self),
    {
        match self {
            ToolStatus::Installed => "Active",
            ToolStatus::NotInstalled => "Not installed",
            ToolStatus::Broken => "Broken",
            ToolStatus::Checking => "Checking",
            ToolStatus::Installing => "Installing",
        }
    }
}

/// One card of the tool list.
#[derive(Debug)]
pub struct ToolCardView {
    pub slug: String,
    pub name: String,
    pub description: String,
    pub selected: bool,
    pub status: ToolStatus,
}

impl ToolCardView {
    /// The mark in the card's toggle: a check mark when selected.
    pub fn mark(&self) -> (res: &'static str)
        ensures
            res@ == (if self.selected { "✓"@ } else { ""@ }),
    {
        if self.selected {
            "✓"
        } else {
            ""
        }
    }
}

/// The tool list: its cards and the line below them.
#[derive(Debug)]
pub struct ToolListView {
    pub cards: Vec<ToolCardView>,
    pub footer: String,
}

/// A tool is shown when no visible list is configured or the list names it.
pub open spec fn is_visible(visible: Seq<Seq<char>>, t: ToolEntry) -> bool {
    visible.len() == 0 || visible.contains(t.slug@)
}

/// The status given for `slug` (the first entry that names it), else
/// `NotInstalled`.
pub open spec fn status_for(statuses: Seq<(String, ToolStatus)>, slug: Seq<char>) -> ToolStatus
    decreases statuses.len(),
{
    if statuses.len() == 0 {
        ToolStatus::NotInstalled
    } else if statuses[0].0@ == slug {
        statuses[0].1
    } else {
        status_for(statuses.drop_first(), slug)
    }
}

/// The statuses of `tools`, one per tool in order, under its slug:
/// `Installed` where `installed` says so, `NotInstalled` elsewhere.
pub fn statuses_of(tools: &Vec<ToolEntry>, installed: &Vec<bool>) -> (res: Vec<(String, ToolStatus)>)
    requires
        installed@.len() == tools@.len(),
    ensures
        res@.len() == tools@.len(),
        forall|k: int|
            0 <= k < tools@.len() ==> (#[trigger] res@[k]).0@ == tools@[k].slug@ && res@[k].1 == (if installed@[k] {
                ToolStatus::Installed
            } else {
                ToolStatus::NotInstalled
            }),
{
    let mut out: Vec<(String, ToolStatus)> = Vec::new();
    let mut i: usize = 0;
    while i < tools.len()
        invariant
            i <= tools@.len(),
            installed@.len() == tools@.len(),
            out@.len() == i,
            forall|k: int|
                0 <= k < i ==> (#[trigger] out@[k]).0@ == tools@[k].slug@ && out@[k].1 == (if installed@[k] {
                    ToolStatus::Installed
                } else {
                    ToolStatus::NotInstalled
                }),
        decreases tools.len() - i,
    {
        let st = if installed[i] {
            ToolStatus::Installed
        } else {
            ToolStatus::NotInstalled
        };
        out.push((tools[i].slug.clone(), st));
        i = i + 1;
    }
    out
}

/// Every entry of `statuses` for one slug gives the same status.
pub open spec fn statuses_agree(statuses: Seq<(String, ToolStatus)>) -> bool {
    forall|a: int, b: int|
        0 <= a < statuses.len() && 0 <= b < statuses.len() && (#[trigger] statuses[a]).0@ == (
        #[trigger] statuses[b]).0@ ==> statuses[a].1 == statuses[b].1
}

/// When the entries for one slug agree, the status found for a slug is that
/// of any of its entries, whichever would be kept in a map from slug to
/// status.
pub proof fn lemma_status_of_any_entry(statuses: Seq<(String, ToolStatus)>, j: int)
    requires
        0 <= j < statuses.len(),
        statuses_agree(statuses),
    ensures
        status_for(statuses, statuses[j].0@) == statuses[j].1,
    decreases statuses.len(),
{
    if statuses[0].0@ != statuses[j].0@ {
        let rest = statuses.drop_first();
        assert(rest[j - 1] == statuses[j]);
        assert forall|a: int, b: int|
            0 <= a < rest.len() && 0 <= b < rest.len() && (#[trigger] rest[a]).0@ == (#[trigger] rest[b]).0@
            implies rest[a].1 == rest[b].1 by {
            assert(rest[a] == statuses[a + 1] && rest[b] == statuses[b + 1]);
        }
        lemma_status_of_any_entry(rest, j - 1);
    } else {
        assert(statuses[0].0@ == statuses[j].0@);
    }
}

/// Statuses made from the tools agree per slug when whether a tool is
/// installed depends on its slug alone.
pub proof fn lemma_statuses_of_agree(tools: Seq<ToolEntry>, installed: Seq<bool>, statuses: Seq<(String, ToolStatus)>)
    requires
        installed.len() == tools.len(),
        statuses.len() == tools.len(),
        forall|k: int|
            0 <= k < tools.len() ==> (#[trigger] statuses[k]).0@ == tools[k].slug@ && statuses[k].1 == (if installed[k] {
                ToolStatus::Installed
            } else {
                ToolStatus::NotInstalled
            }),
        forall|a: int, b: int|
            0 <= a < tools.len() && 0 <= b < tools.len() && (#[trigger] tools[a]).slug@ == (#[trigger] tools[b]).slug@
                ==> installed[a] == installed[b],
    ensures
        statuses_agree(statuses),
{
    assert forall|a: int, b: int|
        0 <= a < statuses.len() && 0 <= b < statuses.len() && (#[trigger] statuses[a]).0@ == (#[trigger] statuses[b]).0@
        implies statuses[a].1 == statuses[b].1 by {
        assert(tools[a].slug@ == tools[b].slug@);
    }
}

/// The card of `t`.
pub open spec fn card_of(t: ToolEntry, selected: Seq<Seq<char>>, statuses: Seq<(String, ToolStatus)>) -> ToolCardView {
    ToolCardView {
        slug: t.slug,
        name: t.name,
        description: t.description,
        selected: selected.contains(t.slug@),
        status: status_for(statuses, t.slug@),
    }
}

/// The cards of the visible tools of `tools`, in order.
pub open spec fn cards_of(
    tools: Seq<ToolEntry>,
    visible: Seq<Seq<char>>,
    selected: Seq<Seq<char>>,
    statuses: Seq<(String, ToolStatus)>,
) -> Seq<ToolCardView>
    decreases tools.len(),
{
    if tools.len() == 0 {
        Seq::empty()
    } else if is_visible(visible, tools.last()) {
        cards_of(tools.drop_last(), visible, selected, statuses).push(card_of(tools.last(), selected, statuses))
    } else {
        cards_of(tools.drop_last(), visible, selected, statuses)
    }
}

/// The line below the cards.
pub open spec fn footer_of(selected_count: nat) -> Seq<char> {
    decimal(selected_count) + " selected"@
}

/// The status given for `slug` in `statuses`.
pub fn lookup_status(statuses: &Vec<(String, ToolStatus)>, slug: &str) -> (res: ToolStatus)
    ensures
        res == status_for(statuses@, slug@),
{
    assert(statuses@.skip(0) =~= statuses@);
    let mut i: usize = 0;
    while i < statuses.len()
        invariant
            i <= statuses@.len(),
            status_for(statuses@, slug@) == status_for(statuses@.skip(i as int), slug@),
        decreases statuses.len() - i,
    {
        assert(statuses@.skip(i as int).drop_first() =~= statuses@.skip(i + 1));
        assert(statuses@.skip(i as int)[0] == statuses@[i as int]);
        let (s, st) = &statuses[i];
        if crate::text::str_eq(s.as_str(), slug) {
            return *st;
        }
        i = i + 1;
    }
    ToolStatus::NotInstalled
}

/// The tool list for `tools` under `config`, with `selected_count` below
/// and each tool's status from `statuses`.
pub fn tool_list(
    tools: &Vec<ToolEntry>,
    config: &Config,
    selected_count: usize,
    statuses: &Vec<(String, ToolStatus)>,
) -> (res: ToolListView)
    ensures
        res.cards@ == cards_of(
            tools@,
            strings_view(config.tools.visible@),
            strings_view(config.tools.selected@),
            statuses@,
        ),
        res.footer@ == footer_of(selected_count as nat),
{
    let ghost vis = strings_view(config.tools.visible@);
    let ghost sel = strings_view(config.tools.selected@);
    let mut cards: Vec<ToolCardView> = Vec::new();
    let show_all = config.tools.visible.len() == 0;
    let mut i: usize = 0;
    while i < tools.len()
        invariant
            i <= tools@.len(),
            vis == strings_view(config.tools.visible@),
            sel == strings_view(config.tools.selected@),
            show_all == (config.tools.visible@.len() == 0),
            cards@ == cards_of(tools@.take(i as int), vis, sel, statuses@),
        decreases tools.len() - i,
    {
        assert(tools@.take(i + 1).drop_last() =~= tools@.take(i as int));
        assert(tools@.take(i + 1).last() == tools@[i as int]);
        let t = &tools[i];
        if show_all || contains_str(&config.tools.visible, t.slug.as_str()) {
            let card = ToolCardView {
                slug: t.slug.clone(),
                name: t.name.clone(),
                description: t.description.clone(),
                selected: contains_str(&config.tools.selected, t.slug.as_str()),
                status: lookup_status(statuses, t.slug.as_str()),
            };
            cards.push(card);
        }
        i = i + 1;
    }
    assert(tools@.take(tools@.len() as int) =~= tools@);
    let n = decimal_string(selected_count as u64);
    ToolListView { cards, footer: join2(n.as_str(), " selected") }
}


/// With no visible list configured every tool gets its card, in order.
pub proof fn lemma_all_tools_shown_without_visible_list(
    tools: Seq<ToolEntry>,
    selected: Seq<Seq<char>>,
    statuses: Seq<(String, ToolStatus)>,
)
    ensures
        cards_of(tools, Seq::empty(), selected, statuses).len() == tools.len(),
        forall|i: int|
            0 <= i < tools.len() ==> #[trigger] cards_of(tools, Seq::empty(), selected, statuses)[i]
                == card_of(tools[i], selected, statuses),
    decreases tools.len(),
{
    if tools.len() > 0 {
        lemma_all_tools_shown_without_visible_list(tools.drop_last(), selected, statuses);
        let c = cards_of(tools, Seq::empty(), selected, statuses);
        assert forall|i: int| 0 <= i < tools.len() implies #[trigger] c[i] == card_of(tools[i], selected, statuses) by {
            if i < tools.len() - 1 {
                assert(tools.drop_last()[i] == tools[i]);
            }
        }
    }
}

} // verus!
