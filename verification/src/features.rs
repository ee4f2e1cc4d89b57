//! The account's feature switches and the registry that maps each sub-feature to the ESI
//! scopes its data needs, for the character and for the corporation.

use vstd::prelude::*;
use crate::scopes::{
    views, CHARACTER_ASSETS, CHARACTER_BLUEPRINTS, CHARACTER_CLONES, CHARACTER_CONTACTS, CHARACTER_CONTACTS_WRITE, CHARACTER_CONTRACTS, CHARACTER_IMPLANTS, CHARACTER_INDUSTRY_JOBS, CHARACTER_KILLMAILS, CHARACTER_LOCATION, CHARACTER_MAIL, CHARACTER_MAIL_ORGANIZE, CHARACTER_MAIL_SEND, CHARACTER_MINING, CHARACTER_NOTIFICATIONS, CHARACTER_ONLINE, CHARACTER_SEARCH, CHARACTER_SHIP, CHARACTER_SKILLQUEUE, CHARACTER_SKILLS, CHARACTER_STANDINGS, CHARACTER_WALLET, CORPORATION_ASSETS, CORPORATION_BLUEPRINTS, CORPORATION_CONTRACTS, CORPORATION_DIVISIONS, CORPORATION_INDUSTRY_JOBS, CORPORATION_MEMBERS, CORPORATION_MINING_EXTRACTIONS, CORPORATION_ROLES, CORPORATION_STRUCTURES, CORPORATION_WALLET, UNIVERSE_STRUCTURES,
};

verus! {

/// A user-facing feature of the app; each one groups one or more sub-features.
#[derive(Clone, Copy, Debug, PartialEq, Eq, Structural)]
pub enum Feature {
    AssetTracking,
    Clones,
    Contacts,
    Industry,
    Killmails,
    LocationTracking,
    Mail,
    Notifications,
    SkillMonitoring,
    Standings,
    Wallet,
}

/// A separately switchable part of a feature.
#[derive(Clone, Copy, Debug, PartialEq, Eq, Structural)]
pub enum SubFeature {
    Inventory,
    Stockpiles,
    CloneBay,
    ContactBook,
    JobMonitoring,
    Blueprints,
    Planner,
    Extractions,
    KillLog,
    Whereabouts,
    Mailbox,
    NotificationFeed,
    SkillQueue,
    StandingsSheet,
    Journal,
    Transactions,
    Contracts,
}

pub const FEATURE_COUNT: usize = 11;

pub const SUB_FEATURE_COUNT: usize = 17;

impl Feature {
    pub const ALL: [Feature; 11] = [
        Feature::AssetTracking,
        Feature::Clones,
        Feature::Contacts,
        Feature::Industry,
        Feature::Killmails,
        Feature::LocationTracking,
        Feature::Mail,
        Feature::Notifications,
        Feature::SkillMonitoring,
        Feature::Standings,
        Feature::Wallet,
    ];

    pub open spec fn index(self) -> nat {
        match self {
            Feature::AssetTracking => 0,
            Feature::Clones => 1,
            Feature::Contacts => 2,
            Feature::Industry => 3,
            Feature::Killmails => 4,
            Feature::LocationTracking => 5,
            Feature::Mail => 6,
            Feature::Notifications => 7,
            Feature::SkillMonitoring => 8,
            Feature::Standings => 9,
            Feature::Wallet => 10,
        }
    }

    /// The feature's position in the switch table.
    pub fn slot(self) -> (r: usize)
        ensures
            r == self.index(),
            r < FEATURE_COUNT,
    {
        match self {
            Feature::AssetTracking => 0,
            Feature::Clones => 1,
            Feature::Contacts => 2,
            Feature::Industry => 3,
            Feature::Killmails => 4,
            Feature::LocationTracking => 5,
            Feature::Mail => 6,
            Feature::Notifications => 7,
            Feature::SkillMonitoring => 8,
            Feature::Standings => 9,
            Feature::Wallet => 10,
        }
    }

    /// The feature's sub-features, in registry order.
    pub open spec fn spec_sub_features(self) -> Seq<SubFeature> {
        match self {
            Feature::AssetTracking => seq![SubFeature::Inventory, SubFeature::Stockpiles],
            Feature::Clones => seq![SubFeature::CloneBay],
            Feature::Contacts => seq![SubFeature::ContactBook],
            Feature::Industry => seq![
                SubFeature::JobMonitoring,
                SubFeature::Blueprints,
                SubFeature::Planner,
                SubFeature::Extractions,
            ],
            Feature::Killmails => seq![SubFeature::KillLog],
            Feature::LocationTracking => seq![SubFeature::Whereabouts],
            Feature::Mail => seq![SubFeature::Mailbox],
            Feature::Notifications => seq![SubFeature::NotificationFeed],
            Feature::SkillMonitoring => seq![SubFeature::SkillQueue],
            Feature::Standings => seq![SubFeature::StandingsSheet],
            Feature::Wallet => seq![
                SubFeature::Journal,
                SubFeature::Transactions,
                SubFeature::Contracts,
            ],
        }
    }

    /// The feature's sub-features, in registry order.
    pub fn sub_features(self) -> (r: Vec<SubFeature>)
        ensures
            r@ == self.spec_sub_features(),
    {
        let r = match self {
            Feature::AssetTracking => vec![SubFeature::Inventory, SubFeature::Stockpiles],
            Feature::Clones => vec![SubFeature::CloneBay],
            Feature::Contacts => vec![SubFeature::ContactBook],
            Feature::Industry => vec![
                SubFeature::JobMonitoring,
                SubFeature::Blueprints,
                SubFeature::Planner,
                SubFeature::Extractions,
            ],
            Feature::Killmails => vec![SubFeature::KillLog],
            Feature::LocationTracking => vec![SubFeature::Whereabouts],
            Feature::Mail => vec![SubFeature::Mailbox],
            Feature::Notifications => vec![SubFeature::NotificationFeed],
            Feature::SkillMonitoring => vec![SubFeature::SkillQueue],
            Feature::Standings => vec![SubFeature::StandingsSheet],
            Feature::Wallet => vec![
                SubFeature::Journal,
                SubFeature::Transactions,
                SubFeature::Contracts,
            ],
        };
        assert(r@ =~= self.spec_sub_features());
        r
    }

    /// The scopes the feature's screens read and write, as its registry descriptor lists them.
    pub open spec fn scope_names(self) -> Seq<Seq<char>> {
        match self {
            Feature::AssetTracking => seq![CHARACTER_ASSETS@, UNIVERSE_STRUCTURES@],
            Feature::Clones => seq![CHARACTER_CLONES@],
            Feature::Contacts => seq![CHARACTER_CONTACTS@, CHARACTER_CONTACTS_WRITE@],
            Feature::Industry => seq![
                CHARACTER_INDUSTRY_JOBS@,
                CHARACTER_BLUEPRINTS@,
                CHARACTER_SEARCH@,
                CHARACTER_MINING@,
            ],
            Feature::Killmails => seq![CHARACTER_KILLMAILS@],
            Feature::LocationTracking => seq![
                CHARACTER_LOCATION@,
                CHARACTER_ONLINE@,
                CHARACTER_SHIP@,
                UNIVERSE_STRUCTURES@,
            ],
            Feature::Mail => seq![
                CHARACTER_MAIL@,
                CHARACTER_MAIL_SEND@,
                CHARACTER_MAIL_ORGANIZE@,
                CHARACTER_SEARCH@,
            ],
            Feature::Notifications => seq![CHARACTER_NOTIFICATIONS@],
            Feature::SkillMonitoring => seq![
                CHARACTER_SKILLS@,
                CHARACTER_SKILLQUEUE@,
                CHARACTER_IMPLANTS@,
            ],
            Feature::Standings => seq![CHARACTER_STANDINGS@],
            Feature::Wallet => seq![CHARACTER_WALLET@, CHARACTER_CONTRACTS@],
        }
    }

    /// The scopes the feature's screens read and write, as its registry descriptor lists them.
    pub fn scopes(self) -> (r: Vec<&'static str>)
        ensures
            views(r@) == self.scope_names(),
    {
        let r = match self {
            Feature::AssetTracking => vec![CHARACTER_ASSETS, UNIVERSE_STRUCTURES],
            Feature::Clones => vec![CHARACTER_CLONES],
            Feature::Contacts => vec![CHARACTER_CONTACTS, CHARACTER_CONTACTS_WRITE],
            Feature::Industry => vec![
                CHARACTER_INDUSTRY_JOBS,
                CHARACTER_BLUEPRINTS,
                CHARACTER_SEARCH,
                CHARACTER_MINING,
            ],
            Feature::Killmails => vec![CHARACTER_KILLMAILS],
            Feature::LocationTracking => vec![
                CHARACTER_LOCATION,
                CHARACTER_ONLINE,
                CHARACTER_SHIP,
                UNIVERSE_STRUCTURES,
            ],
            Feature::Mail => vec![
                CHARACTER_MAIL,
                CHARACTER_MAIL_SEND,
                CHARACTER_MAIL_ORGANIZE,
                CHARACTER_SEARCH,
            ],
            Feature::Notifications => vec![CHARACTER_NOTIFICATIONS],
            Feature::SkillMonitoring => vec![
                CHARACTER_SKILLS,
                CHARACTER_SKILLQUEUE,
                CHARACTER_IMPLANTS,
            ],
            Feature::Standings => vec![CHARACTER_STANDINGS],
            Feature::Wallet => vec![CHARACTER_WALLET, CHARACTER_CONTRACTS],
        };
        assert(views(r@) =~= self.scope_names());
        r
    }
}

impl SubFeature {
    pub const ALL: [SubFeature; 17] = [
        SubFeature::Inventory,
        SubFeature::Stockpiles,
        SubFeature::CloneBay,
        SubFeature::ContactBook,
        SubFeature::JobMonitoring,
        SubFeature::Blueprints,
        SubFeature::Planner,
        SubFeature::Extractions,
        SubFeature::KillLog,
        SubFeature::Whereabouts,
        SubFeature::Mailbox,
        SubFeature::NotificationFeed,
        SubFeature::SkillQueue,
        SubFeature::StandingsSheet,
        SubFeature::Journal,
        SubFeature::Transactions,
        SubFeature::Contracts,
    ];

    pub open spec fn index(self) -> nat {
        match self {
            SubFeature::Inventory => 0,
            SubFeature::Stockpiles => 1,
            SubFeature::CloneBay => 2,
            SubFeature::ContactBook => 3,
            SubFeature::JobMonitoring => 4,
            SubFeature::Blueprints => 5,
            SubFeature::Planner => 6,
            SubFeature::Extractions => 7,
            SubFeature::KillLog => 8,
            SubFeature::Whereabouts => 9,
            SubFeature::Mailbox => 10,
            SubFeature::NotificationFeed => 11,
            SubFeature::SkillQueue => 12,
            SubFeature::StandingsSheet => 13,
            SubFeature::Journal => 14,
            SubFeature::Transactions => 15,
            SubFeature::Contracts => 16,
        }
    }

    /// The sub-feature at position `i` of the registry.
    pub open spec fn at(i: nat) -> SubFeature {
        if i == 0 { SubFeature::Inventory }
        else if i == 1 { SubFeature::Stockpiles }
        else if i == 2 { SubFeature::CloneBay }
        else if i == 3 { SubFeature::ContactBook }
        else if i == 4 { SubFeature::JobMonitoring }
        else if i == 5 { SubFeature::Blueprints }
        else if i == 6 { SubFeature::Planner }
        else if i == 7 { SubFeature::Extractions }
        else if i == 8 { SubFeature::KillLog }
        else if i == 9 { SubFeature::Whereabouts }
        else if i == 10 { SubFeature::Mailbox }
        else if i == 11 { SubFeature::NotificationFeed }
        else if i == 12 { SubFeature::SkillQueue }
        else if i == 13 { SubFeature::StandingsSheet }
        else if i == 14 { SubFeature::Journal }
        else if i == 15 { SubFeature::Transactions }
        else { SubFeature::Contracts }
    }

    /// The sub-feature at position `i` of the registry.
    pub fn from_slot(i: usize) -> (r: SubFeature)
        requires
            i < SUB_FEATURE_COUNT,
        ensures
            r == SubFeature::at(i as nat),
            r.index() == i,
    {
        if i == 0 { SubFeature::Inventory }
        else if i == 1 { SubFeature::Stockpiles }
        else if i == 2 { SubFeature::CloneBay }
        else if i == 3 { SubFeature::ContactBook }
        else if i == 4 { SubFeature::JobMonitoring }
        else if i == 5 { SubFeature::Blueprints }
        else if i == 6 { SubFeature::Planner }
        else if i == 7 { SubFeature::Extractions }
        else if i == 8 { SubFeature::KillLog }
        else if i == 9 { SubFeature::Whereabouts }
        else if i == 10 { SubFeature::Mailbox }
        else if i == 11 { SubFeature::NotificationFeed }
        else if i == 12 { SubFeature::SkillQueue }
        else if i == 13 { SubFeature::StandingsSheet }
        else if i == 14 { SubFeature::Journal }
        else if i == 15 { SubFeature::Transactions }
        else { SubFeature::Contracts }
    }

    /// The sub-feature's position in the switch table.
    pub fn slot(self) -> (r: usize)
        ensures
            r == self.index(),
            r < SUB_FEATURE_COUNT,
    {
        match self {
            SubFeature::Inventory => 0,
            SubFeature::Stockpiles => 1,
            SubFeature::CloneBay => 2,
            SubFeature::ContactBook => 3,
            SubFeature::JobMonitoring => 4,
            SubFeature::Blueprints => 5,
            SubFeature::Planner => 6,
            SubFeature::Extractions => 7,
            SubFeature::KillLog => 8,
            SubFeature::Whereabouts => 9,
            SubFeature::Mailbox => 10,
            SubFeature::NotificationFeed => 11,
            SubFeature::SkillQueue => 12,
            SubFeature::StandingsSheet => 13,
            SubFeature::Journal => 14,
            SubFeature::Transactions => 15,
            SubFeature::Contracts => 16,
        }
    }

    /// The feature that owns this sub-feature.
    pub open spec fn spec_parent(self) -> Feature {
        match self {
            SubFeature::Inventory | SubFeature::Stockpiles => Feature::AssetTracking,
            SubFeature::CloneBay => Feature::Clones,
            SubFeature::ContactBook => Feature::Contacts,
            SubFeature::JobMonitoring | SubFeature::Blueprints | SubFeature::Planner
            | SubFeature::Extractions => Feature::Industry,
            SubFeature::KillLog => Feature::Killmails,
            SubFeature::Whereabouts => Feature::LocationTracking,
            SubFeature::Mailbox => Feature::Mail,
            SubFeature::NotificationFeed => Feature::Notifications,
            SubFeature::SkillQueue => Feature::SkillMonitoring,
            SubFeature::StandingsSheet => Feature::Standings,
            SubFeature::Journal | SubFeature::Transactions | SubFeature::Contracts => Feature::Wallet,
        }
    }

    /// The feature that owns this sub-feature.
    pub fn parent(self) -> (r: Feature)
        ensures
            r == self.spec_parent(),
    {
        match self {
            SubFeature::Inventory | SubFeature::Stockpiles => Feature::AssetTracking,
            SubFeature::CloneBay => Feature::Clones,
            SubFeature::ContactBook => Feature::Contacts,
            SubFeature::JobMonitoring | SubFeature::Blueprints | SubFeature::Planner
            | SubFeature::Extractions => Feature::Industry,
            SubFeature::KillLog => Feature::Killmails,
            SubFeature::Whereabouts => Feature::LocationTracking,
            SubFeature::Mailbox => Feature::Mail,
            SubFeature::NotificationFeed => Feature::Notifications,
            SubFeature::SkillQueue => Feature::SkillMonitoring,
            SubFeature::StandingsSheet => Feature::Standings,
            SubFeature::Journal | SubFeature::Transactions | SubFeature::Contracts => Feature::Wallet,
        }
    }

    /// The character scopes this sub-feature's sync jobs need.
    pub open spec fn scope_names(self) -> Seq<Seq<char>> {
        match self {
            SubFeature::Inventory => seq![CHARACTER_ASSETS@, UNIVERSE_STRUCTURES@],
            SubFeature::Stockpiles => seq![CHARACTER_ASSETS@],
            SubFeature::CloneBay => seq![CHARACTER_CLONES@],
            SubFeature::ContactBook => seq![CHARACTER_CONTACTS@, CHARACTER_CONTACTS_WRITE@],
            SubFeature::JobMonitoring => seq![CHARACTER_INDUSTRY_JOBS@],
            SubFeature::Blueprints => seq![CHARACTER_BLUEPRINTS@],
            SubFeature::Planner => seq![CHARACTER_SEARCH@],
            SubFeature::Extractions => seq![CHARACTER_MINING@],
            SubFeature::KillLog => seq![CHARACTER_KILLMAILS@],
            SubFeature::Whereabouts => seq![
                CHARACTER_LOCATION@,
                CHARACTER_ONLINE@,
                CHARACTER_SHIP@,
                UNIVERSE_STRUCTURES@,
            ],
            SubFeature::Mailbox => seq![
                CHARACTER_MAIL@,
                CHARACTER_MAIL_SEND@,
                CHARACTER_MAIL_ORGANIZE@,
                CHARACTER_SEARCH@,
            ],
            SubFeature::NotificationFeed => seq![CHARACTER_NOTIFICATIONS@],
            SubFeature::SkillQueue => seq![
                CHARACTER_SKILLS@,
                CHARACTER_SKILLQUEUE@,
                CHARACTER_IMPLANTS@,
            ],
            SubFeature::StandingsSheet => seq![CHARACTER_STANDINGS@],
            SubFeature::Journal => seq![CHARACTER_WALLET@],
            SubFeature::Transactions => seq![CHARACTER_WALLET@],
            SubFeature::Contracts => seq![CHARACTER_CONTRACTS@],
        }
    }

    /// The character scopes this sub-feature's sync jobs need.
    pub fn scopes(self) -> (r: Vec<&'static str>)
        ensures
            views(r@) == self.scope_names(),
    {
        let r = match self {
            SubFeature::Inventory => vec![CHARACTER_ASSETS, UNIVERSE_STRUCTURES],
            SubFeature::Stockpiles => vec![CHARACTER_ASSETS],
            SubFeature::CloneBay => vec![CHARACTER_CLONES],
            SubFeature::ContactBook => vec![CHARACTER_CONTACTS, CHARACTER_CONTACTS_WRITE],
            SubFeature::JobMonitoring => vec![CHARACTER_INDUSTRY_JOBS],
            SubFeature::Blueprints => vec![CHARACTER_BLUEPRINTS],
            SubFeature::Planner => vec![CHARACTER_SEARCH],
            SubFeature::Extractions => vec![CHARACTER_MINING],
            SubFeature::KillLog => vec![CHARACTER_KILLMAILS],
            SubFeature::Whereabouts => vec![
                CHARACTER_LOCATION,
                CHARACTER_ONLINE,
                CHARACTER_SHIP,
                UNIVERSE_STRUCTURES,
            ],
            SubFeature::Mailbox => vec![
                CHARACTER_MAIL,
                CHARACTER_MAIL_SEND,
                CHARACTER_MAIL_ORGANIZE,
                CHARACTER_SEARCH,
            ],
            SubFeature::NotificationFeed => vec![CHARACTER_NOTIFICATIONS],
            SubFeature::SkillQueue => vec![
                CHARACTER_SKILLS,
                CHARACTER_SKILLQUEUE,
                CHARACTER_IMPLANTS,
            ],
            SubFeature::StandingsSheet => vec![CHARACTER_STANDINGS],
            SubFeature::Journal => vec![CHARACTER_WALLET],
            SubFeature::Transactions => vec![CHARACTER_WALLET],
            SubFeature::Contracts => vec![CHARACTER_CONTRACTS],
        };
        assert(views(r@) =~= self.scope_names());
        r
    }

    /// The corporation scopes that gate this sub-feature's corporation sync jobs.
    pub open spec fn corp_scope_names(self) -> Seq<Seq<char>> {
        match self {
            SubFeature::Inventory => seq![CORPORATION_ASSETS@],
            SubFeature::Stockpiles => seq![CORPORATION_ASSETS@],
            SubFeature::JobMonitoring => seq![CORPORATION_INDUSTRY_JOBS@],
            SubFeature::Blueprints => seq![CORPORATION_BLUEPRINTS@],
            SubFeature::Extractions => seq![CORPORATION_MINING_EXTRACTIONS@, CORPORATION_STRUCTURES@],
            SubFeature::Journal => seq![CORPORATION_WALLET@],
            SubFeature::Transactions => seq![CORPORATION_WALLET@],
            SubFeature::Contracts => seq![CORPORATION_CONTRACTS@],
            _ => seq![],
        }
    }

    /// The corporation scopes that gate this sub-feature's corporation sync jobs.
    pub fn corp_scopes(self) -> (r: Vec<&'static str>)
        ensures
            views(r@) == self.corp_scope_names(),
    {
        let r = match self {
            SubFeature::Inventory => vec![CORPORATION_ASSETS],
            SubFeature::Stockpiles => vec![CORPORATION_ASSETS],
            SubFeature::JobMonitoring => vec![CORPORATION_INDUSTRY_JOBS],
            SubFeature::Blueprints => vec![CORPORATION_BLUEPRINTS],
            SubFeature::Extractions => vec![CORPORATION_MINING_EXTRACTIONS, CORPORATION_STRUCTURES],
            SubFeature::Journal => vec![CORPORATION_WALLET],
            SubFeature::Transactions => vec![CORPORATION_WALLET],
            SubFeature::Contracts => vec![CORPORATION_CONTRACTS],
            _ => vec![],
        };
        assert(views(r@) =~= self.corp_scope_names());
        r
    }
}

/// The corporation scopes every corporation sign-in requests, whatever is enabled.
pub open spec fn baseline_corp_names() -> Seq<Seq<char>> {
    seq![CORPORATION_DIVISIONS@, CORPORATION_MEMBERS@, CORPORATION_ROLES@]
}

/// The corporation scopes every corporation sign-in requests, whatever is enabled.
pub fn baseline_corp_scopes() -> (r: Vec<&'static str>)
    ensures
        views(r@) == baseline_corp_names(),
{
    let r = vec![CORPORATION_DIVISIONS, CORPORATION_MEMBERS, CORPORATION_ROLES];
    assert(views(r@) =~= baseline_corp_names());
    r
}

/// Which features and sub-features the account has switched on.
#[derive(Clone, Copy, Debug, PartialEq, Eq)]
pub struct FeatureFlags {
    features: [bool; 11],
    subs: [bool; 17],
}

impl FeatureFlags {
    /// The feature's own switch.
    pub closed spec fn feature_on(self, feature: Feature) -> bool {
        self.features@[feature.index() as int]
    }

    /// The sub-feature's own switch.
    pub closed spec fn sub_on(self, sub: SubFeature) -> bool {
        self.subs@[sub.index() as int]
    }

    /// A sub-feature is in effect when both it and its feature are on.
    pub open spec fn active(self, sub: SubFeature) -> bool {
        self.feature_on(sub.spec_parent()) && self.sub_on(sub)
    }

    /// Every feature and every sub-feature switched on.
    pub fn all_enabled() -> (r: FeatureFlags)
        ensures
            forall|f: Feature| #[trigger] r.feature_on(f),
            forall|s: SubFeature| #[trigger] r.sub_on(s),
    {
        let r = FeatureFlags {
            features: [true, true, true, true, true, true, true, true, true, true, true],
            subs: [
                true, true, true, true, true, true, true, true, true, true, true, true, true, true,
                true, true, true,
            ],
        };
        assert forall|f: Feature| #[trigger] r.feature_on(f) by {
            assert(f.index() < FEATURE_COUNT);
        }
        assert forall|s: SubFeature| #[trigger] r.sub_on(s) by {
            assert(s.index() < SUB_FEATURE_COUNT);
        }
        r
    }

    /// Whether the feature itself is switched on.
    pub fn is_enabled(&self, feature: Feature) -> (r: bool)
        ensures
            r == self.feature_on(feature),
    {
        self.features[feature.slot()]
    }

    /// Whether the sub-feature itself is switched on.
    pub fn is_sub_enabled(&self, sub: SubFeature) -> (r: bool)
        ensures
            r == self.sub_on(sub),
    {
        self.subs[sub.slot()]
    }

    /// Switches a feature on or off, leaving every other switch as it was.
    pub fn set_enabled(&mut self, feature: Feature, enabled: bool)
        ensures
            final(self).feature_on(feature) == enabled,
            forall|f: Feature| f != feature ==> #[trigger] final(self).feature_on(f) == old(self).feature_on(f),
            forall|s: SubFeature| #[trigger] final(self).sub_on(s) == old(self).sub_on(s),
    {
        let slot = feature.slot();
        self.features[slot] = enabled;
        proof {
            assert forall|f: Feature| f != feature implies #[trigger] self.feature_on(f) == old(self).feature_on(f) by {
                if f.index() == feature.index() {
                    lemma_feature_index_injective(f, feature);
                }
            }
        }
    }

    /// Switches a sub-feature on or off, leaving every other switch as it was.
    pub fn set_sub_enabled(&mut self, sub: SubFeature, enabled: bool)
        ensures
            final(self).sub_on(sub) == enabled,
            forall|s: SubFeature| s != sub ==> #[trigger] final(self).sub_on(s) == old(self).sub_on(s),
            forall|f: Feature| #[trigger] final(self).feature_on(f) == old(self).feature_on(f),
    {
        let slot = sub.slot();
        self.subs[slot] = enabled;
        proof {
            assert forall|s: SubFeature| s != sub implies #[trigger] self.sub_on(s) == old(self).sub_on(s) by {
                if s.index() == sub.index() {
                    lemma_sub_index_injective(s, sub);
                }
            }
        }
    }

    /// The sub-features in effect, in registry order.
    pub fn enabled_sub_features(&self) -> (r: Vec<SubFeature>)
        ensures
            forall|s: SubFeature| r@.contains(s) <==> self.active(s),
            forall|i: int, j: int| 0 <= i < j < r.len() ==> (#[trigger] r@[i]).index() < (#[trigger] r@[j]).index(),
    {
        let mut r: Vec<SubFeature> = Vec::new();
        let mut i: usize = 0;
        while i < SUB_FEATURE_COUNT
            invariant
                i <= SUB_FEATURE_COUNT,
                forall|s: SubFeature| r@.contains(s) <==> (s.index() < i && self.active(s)),
                forall|p: int, q: int| 0 <= p < q < r.len() ==> (#[trigger] r@[p]).index() < (#[trigger] r@[q]).index(),
                forall|p: int| 0 <= p < r.len() ==> (#[trigger] r@[p]).index() < i,
            decreases SUB_FEATURE_COUNT - i,
        {
            let sub = SubFeature::from_slot(i);
            let on = self.is_enabled(sub.parent()) && self.is_sub_enabled(sub);
            let ghost before = r@;
            if on {
                r.push(sub);
            }
            proof {
                assert forall|s: SubFeature| r@.contains(s) <==> (s.index() < i + 1 && self.active(s)) by {
                    if s.index() == i {
                        lemma_sub_index_injective(s, sub);
                        if on {
                            assert(r@[r.len() - 1] == s);
                        } else {
                            assert(r@ == before);
                        }
                    } else if r@.contains(s) {
                        let k = choose|k: int| 0 <= k < r.len() && r@[k] == s;
                        if on && k == r.len() - 1 {
                            assert(s == sub);
                        } else {
                            assert(before[k] == s);
                        }
                    } else if s.index() < i && self.active(s) {
                        let k = choose|k: int| 0 <= k < before.len() && before[k] == s;
                        assert(r@[k] == s);
                    }
                }
            }
            i = i + 1;
        }
        r
    }
}

impl Default for FeatureFlags {
    /// Every feature and sub-feature on, as a fresh account starts.
    fn default() -> (r: FeatureFlags)
        ensures
            forall|f: Feature| #[trigger] r.feature_on(f),
            forall|s: SubFeature| #[trigger] r.sub_on(s),
    {
        FeatureFlags::all_enabled()
    }
}

/// Distinct features sit in distinct slots.
pub proof fn lemma_feature_index_injective(a: Feature, b: Feature)
    requires
        a.index() == b.index(),
    ensures
        a == b,
{
}

/// Distinct sub-features sit in distinct slots.
pub proof fn lemma_sub_index_injective(a: SubFeature, b: SubFeature)
    requires
        a.index() == b.index(),
    ensures
        a == b,
{
}

} // verus!
