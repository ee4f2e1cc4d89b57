//! The tabs of a character's detail view: which feature gates each, which scopes each needs,
//! and which tabs a set of enabled features shows.

use vstd::prelude::*;
use crate::features::Feature;
use crate::scopes::{is_write_name, is_write_scope, views};

verus! {

/// A tab of the character detail view.
#[derive(Clone, Copy, Debug, PartialEq, Eq, Structural)]
pub enum Tab {
    Clones,
    Contacts,
    Killlog,
    Notifications,
    Standings,
}

/// The feature that gates a tab.
pub open spec fn spec_feature(tab: Tab) -> Feature {
    match tab {
        Tab::Clones => Feature::Clones,
        Tab::Contacts => Feature::Contacts,
        Tab::Killlog => Feature::Killmails,
        Tab::Notifications => Feature::Notifications,
        Tab::Standings => Feature::Standings,
    }
}

/// A tab's position in the strip.
pub open spec fn rank(tab: Tab) -> nat {
    match tab {
        Tab::Clones => 0,
        Tab::Contacts => 1,
        Tab::Killlog => 2,
        Tab::Notifications => 3,
        Tab::Standings => 4,
    }
}

/// The names among `names` that are not write scopes, in order.
pub open spec fn read_names(names: Seq<Seq<char>>) -> Seq<Seq<char>>
    decreases names.len(),
{
    if names.len() == 0 {
        seq![]
    } else if is_write_name(names.last()) {
        read_names(names.drop_last())
    } else {
        read_names(names.drop_last()).push(names.last())
    }
}

impl Tab {
    /// The tabs in strip order.
    pub const ORDER: [Tab; 5] = [Tab::Clones, Tab::Contacts, Tab::Killlog, Tab::Notifications, Tab::Standings];

    /// The feature that gates the tab.
    pub fn feature(self) -> (r: Feature)
        ensures
            r == spec_feature(self),
    {
        match self {
            Tab::Clones => Feature::Clones,
            Tab::Contacts => Feature::Contacts,
            Tab::Killlog => Feature::Killmails,
            Tab::Notifications => Feature::Notifications,
            Tab::Standings => Feature::Standings,
        }
    }

    /// The i18n key of the tab's title.
    pub fn label_key(self) -> (r: &'static str)
        ensures
            r@ == (match self {
                Tab::Clones => "roster.tabs.clones"@,
                Tab::Contacts => "roster.tabs.contacts"@,
                Tab::Killlog => "roster.tabs.killlog"@,
                Tab::Notifications => "roster.tabs.notifications"@,
                Tab::Standings => "roster.tabs.standings"@,
            }),
    {
        match self {
            Tab::Clones => "roster.tabs.clones",
            Tab::Contacts => "roster.tabs.contacts",
            Tab::Killlog => "roster.tabs.killlog",
            Tab::Notifications => "roster.tabs.notifications",
            Tab::Standings => "roster.tabs.standings",
        }
    }

    /// The scopes the tab's feature declares.
    pub fn required_scopes(self) -> (r: Vec<&'static str>)
        ensures
            views(r@) == spec_feature(self).scope_names(),
    {
        self.feature().scopes()
    }

    /// The tab's read scopes only, so that a missing write scope never hides the tab.
    pub fn read_scopes(self) -> (r: Vec<&'static str>)
        ensures
            views(r@) == read_names(spec_feature(self).scope_names()),
    {
        let all = self.required_scopes();
        let mut out: Vec<&'static str> = Vec::new();
        let mut i: usize = 0;
        while i < all.len()
            invariant
                i <= all.len(),
                views(out@) == read_names(views(all@.take(i as int))),
            decreases all.len() - i,
        {
            assert(views(all@.take(i + 1)) =~= views(all@.take(i as int)).push(all@[i as int]@));
            assert(views(all@.take(i + 1)).drop_last() =~= views(all@.take(i as int)));
            let ghost before = out@;
            if !is_write_scope(all[i]) {
                out.push(all[i]);
                assert(views(out@) =~= views(before).push(all@[i as int]@));
            }
            i = i + 1;
        }
        assert(all@.take(all.len() as int) =~= all@);
        out
    }
}

proof fn lemma_rank_injective(a: Tab, b: Tab)
    requires
        rank(a) == rank(b),
    ensures
        a == b,
{
}

/// Whether `features` holds `f`.
pub fn has_feature(features: &Vec<Feature>, f: Feature) -> (r: bool)
    ensures
        r == features@.contains(f),
{
    let mut i: usize = 0;
    while i < features.len()
        invariant
            i <= features.len(),
            forall|j: int| 0 <= j < i ==> features@[j] != f,
        decreases features.len() - i,
    {
        if features[i] == f {
            return true;
        }
        i = i + 1;
    }
    false
}

/// The tabs whose feature is enabled, in strip order.
pub fn enabled_tabs(features: &Vec<Feature>) -> (r: Vec<Tab>)
    ensures
        forall|t: Tab| r@.contains(t) <==> features@.contains(spec_feature(t)),
        forall|i: int, j: int| 0 <= i < j < r@.len() ==> rank(#[trigger] r@[i]) < rank(#[trigger] r@[j]),
{
    let order = Tab::ORDER;
    let mut out: Vec<Tab> = Vec::new();
    let mut i: usize = 0;
    while i < 5
        invariant
            i <= 5,
            order == Tab::ORDER,
            forall|t: Tab| out@.contains(t) <==> (rank(t) < i && features@.contains(spec_feature(t))),
            forall|p: int, q: int| 0 <= p < q < out@.len() ==> rank(#[trigger] out@[p]) < rank(#[trigger] out@[q]),
            forall|p: int| 0 <= p < out@.len() ==> rank(#[trigger] out@[p]) < i,
        decreases 5 - i,
    {
        let tab = order[i];
        assert(rank(tab) == i);
        let ghost before = out@;
        let on = has_feature(features, tab.feature());
        if on {
            out.push(tab);
        }
        proof {
            assert forall|t: Tab| out@.contains(t) <==> (rank(t) < i + 1 && features@.contains(spec_feature(t))) by {
                if out@.contains(t) {
                    let k = choose|k: int| 0 <= k < out@.len() && out@[k] == t;
                    if k < before.len() {
                        assert(before[k] == t);
                        assert(before.contains(t));
                    } else {
                        assert(on && t == tab);
                    }
                }
                if rank(t) < i + 1 && features@.contains(spec_feature(t)) {
                    if rank(t) == i {
                        lemma_rank_injective(t, tab);
                        assert(t == tab);
                        assert(out@[out@.len() - 1] == t);
                    } else {
                        assert(before.contains(t));
                        let k = choose|k: int| 0 <= k < before.len() && before[k] == t;
                        assert(out@[k] == t);
                    }
                }
            }
        }
        i = i + 1;
    }
    out
}

/// The tab a fresh view opens on: the first enabled one, else the clones tab.
pub fn resolve_first_tab(enabled: &Vec<Tab>) -> (r: Tab)
    ensures
        enabled@.len() > 0 ==> r == enabled@[0],
        enabled@.len() == 0 ==> r == Tab::Clones,
{
    if enabled.len() > 0 {
        enabled[0]
    } else {
        Tab::Clones
    }
}

} // verus!
