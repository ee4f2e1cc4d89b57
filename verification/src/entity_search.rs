//! Searching EVE's universe for characters, corporations, alliances and locations: the
//! categories and their ESI names, when a query is worth sending, which ids are resolved, and
//! which resolved names come back to the caller.

use vstd::prelude::*;
use crate::scopes::str_eq;
use crate::text::{trimmed, trimmed_chars};

verus! {

/// Queries shorter than this, once trimmed, are not sent.
pub const SEARCH_MIN_CHARS: usize = 3;

/// At most this many ids are resolved to names per search.
pub const MAX_RESULTS: usize = 20;

/// The kind of image the image store keeps for an entity.
#[derive(Clone, Copy, Debug, PartialEq, Eq, Structural)]
pub enum ImageKind {
    AllianceLogo,
    CharacterPortrait,
    CorporationLogo,
}

/// A kind of entity the search can look for.
#[derive(Clone, Copy, Debug, PartialEq, Eq, Structural, Hash)]
pub enum EntityCategory {
    Alliance,
    Character,
    Corporation,
    SolarSystem,
    Station,
}

/// The category name ESI uses.
pub open spec fn spec_esi_category(category: EntityCategory) -> Seq<char> {
    match category {
        EntityCategory::Alliance => "alliance"@,
        EntityCategory::Character => "character"@,
        EntityCategory::Corporation => "corporation"@,
        EntityCategory::SolarSystem => "solar_system"@,
        EntityCategory::Station => "station"@,
    }
}

/// The category ESI's name `name` stands for.
pub open spec fn spec_from_esi(name: Seq<char>) -> Option<EntityCategory> {
    if name == "alliance"@ {
        Some(EntityCategory::Alliance)
    } else if name == "character"@ {
        Some(EntityCategory::Character)
    } else if name == "corporation"@ {
        Some(EntityCategory::Corporation)
    } else if name == "solar_system"@ {
        Some(EntityCategory::SolarSystem)
    } else if name == "station"@ {
        Some(EntityCategory::Station)
    } else {
        None
    }
}

/// The category's display name.
pub open spec fn spec_label(category: EntityCategory) -> Seq<char> {
    match category {
        EntityCategory::Alliance => "Alliance"@,
        EntityCategory::Character => "Character"@,
        EntityCategory::Corporation => "Corporation"@,
        EntityCategory::SolarSystem => "Solar System"@,
        EntityCategory::Station => "Station"@,
    }
}

impl EntityCategory {
    /// The category behind ESI's category name, `None` for one the search does not handle.
    pub fn from_esi(category: &str) -> (r: Option<EntityCategory>)
        ensures
            r == spec_from_esi(category@),
    {
        if str_eq(category, "alliance") {
            Some(EntityCategory::Alliance)
        } else if str_eq(category, "character") {
            Some(EntityCategory::Character)
        } else if str_eq(category, "corporation") {
            Some(EntityCategory::Corporation)
        } else if str_eq(category, "solar_system") {
            Some(EntityCategory::SolarSystem)
        } else if str_eq(category, "station") {
            Some(EntityCategory::Station)
        } else {
            None
        }
    }

    /// The category name ESI uses.
    pub fn esi_category(self) -> (r: &'static str)
        ensures
            r@ == spec_esi_category(self),
    {
        match self {
            EntityCategory::Alliance => "alliance",
            EntityCategory::Character => "character",
            EntityCategory::Corporation => "corporation",
            EntityCategory::SolarSystem => "solar_system",
            EntityCategory::Station => "station",
        }
    }

    /// The portrait or logo kind of the entities that have one; locations have none.
    pub fn image_kind(self) -> (r: Option<ImageKind>)
        ensures
            r == (match self {
                EntityCategory::Alliance => Some(ImageKind::AllianceLogo),
                EntityCategory::Character => Some(ImageKind::CharacterPortrait),
                EntityCategory::Corporation => Some(ImageKind::CorporationLogo),
                EntityCategory::SolarSystem | EntityCategory::Station => None::<ImageKind>,
            }),
    {
        match self {
            EntityCategory::Alliance => Some(ImageKind::AllianceLogo),
            EntityCategory::Character => Some(ImageKind::CharacterPortrait),
            EntityCategory::Corporation => Some(ImageKind::CorporationLogo),
            EntityCategory::SolarSystem | EntityCategory::Station => None,
        }
    }

    /// The category's display name.
    pub fn label(self) -> (r: &'static str)
        ensures
            r@ == spec_label(self),
    {
        match self {
            EntityCategory::Alliance => "Alliance",
            EntityCategory::Character => "Character",
            EntityCategory::Corporation => "Corporation",
            EntityCategory::SolarSystem => "Solar System",
            EntityCategory::Station => "Station",
        }
    }

    /// The category's display name, as text.
    pub fn to_string(self) -> (r: String)
        ensures
            r@ == spec_label(self),
    {
        self.label().to_owned()
    }
}

/// Reading a category's ESI name back gives the same category.
pub proof fn lemma_esi_category_round_trip(category: EntityCategory)
    ensures
        spec_from_esi(spec_esi_category(category)) == Some(category),
{
    reveal_strlit("alliance");
    reveal_strlit("character");
    reveal_strlit("corporation");
    reveal_strlit("solar_system");
    reveal_strlit("station");
    assert("alliance"@.len() == 8);
    assert("character"@.len() == 9);
    assert("corporation"@.len() == 11);
    assert("solar_system"@.len() == 12);
    assert("station"@.len() == 7);
}

/// One entity the search found.
#[derive(Clone, Debug)]
pub struct EntityResult {
    pub category: EntityCategory,
    pub id: i64,
    pub name: String,
}

/// Whether a search is worth sending: at least `SEARCH_MIN_CHARS` characters once trimmed,
/// and at least one category.
pub fn is_searchable(query: &str, categories: &Vec<EntityCategory>) -> (r: bool)
    ensures
        r == (trimmed(query@).len() >= SEARCH_MIN_CHARS && categories@.len() > 0),
{
    let chars = trimmed_chars(query);
    chars.len() >= SEARCH_MIN_CHARS && categories.len() > 0
}

/// The ids ESI's search returned, one list per category.
#[derive(Clone, Debug)]
pub struct SearchBuckets {
    pub alliance: Vec<i64>,
    pub character: Vec<i64>,
    pub corporation: Vec<i64>,
    pub solar_system: Vec<i64>,
    pub station: Vec<i64>,
}

/// The ids of one category's list.
pub open spec fn bucket(buckets: SearchBuckets, category: EntityCategory) -> Seq<i64> {
    match category {
        EntityCategory::Alliance => buckets.alliance@,
        EntityCategory::Character => buckets.character@,
        EntityCategory::Corporation => buckets.corporation@,
        EntityCategory::SolarSystem => buckets.solar_system@,
        EntityCategory::Station => buckets.station@,
    }
}

/// The lists of the requested categories, one after another in the order they were asked for.
pub open spec fn all_ids(buckets: SearchBuckets, categories: Seq<EntityCategory>) -> Seq<i64>
    decreases categories.len(),
{
    if categories.len() == 0 {
        seq![]
    } else {
        all_ids(buckets, categories.drop_last()) + bucket(buckets, categories.last())
    }
}

/// The first `n` items of `s`, or all of them when there are fewer.
pub open spec fn truncated<A>(s: Seq<A>, n: nat) -> Seq<A> {
    if s.len() <= n {
        s
    } else {
        s.take(n as int)
    }
}

proof fn lemma_all_ids_concat(buckets: SearchBuckets, a: Seq<EntityCategory>, b: Seq<EntityCategory>)
    ensures
        all_ids(buckets, a + b) == all_ids(buckets, a) + all_ids(buckets, b),
    decreases b.len(),
{
    if b.len() == 0 {
        assert(a + b =~= a);
        assert(all_ids(buckets, a) + all_ids(buckets, b) =~= all_ids(buckets, a));
    } else {
        assert((a + b).drop_last() =~= a + b.drop_last());
        assert((a + b).last() == b.last());
        lemma_all_ids_concat(buckets, a, b.drop_last());
        assert(all_ids(buckets, a) + all_ids(buckets, b) =~= all_ids(buckets, a) + all_ids(buckets, b.drop_last())
            + bucket(buckets, b.last()));
    }
}

/// Each requested category contributes the list ESI returned under that category's name, and
/// only that list: solar systems their own list, stations theirs, and so on; asking for several
/// categories gives their lists one after another in the order asked.
pub proof fn lemma_each_category_reads_its_own_list(
    buckets: SearchBuckets,
    category: EntityCategory,
    first: Seq<EntityCategory>,
    then: Seq<EntityCategory>,
)
    ensures
        category == EntityCategory::Alliance ==> all_ids(buckets, seq![category]) == buckets.alliance@,
        category == EntityCategory::Character ==> all_ids(buckets, seq![category]) == buckets.character@,
        category == EntityCategory::Corporation ==> all_ids(buckets, seq![category]) == buckets.corporation@,
        category == EntityCategory::SolarSystem ==> all_ids(buckets, seq![category]) == buckets.solar_system@,
        category == EntityCategory::Station ==> all_ids(buckets, seq![category]) == buckets.station@,
        spec_esi_category(category) == "solar_system"@ ==> all_ids(buckets, seq![category]) == buckets.solar_system@,
        spec_esi_category(category) == "station"@ ==> all_ids(buckets, seq![category]) == buckets.station@,
        all_ids(buckets, first + then) == all_ids(buckets, first) + all_ids(buckets, then),
{
    let one = seq![category];
    assert(one.drop_last() =~= Seq::<EntityCategory>::empty());
    assert(all_ids(buckets, one.drop_last()) =~= Seq::<i64>::empty());
    assert(one.last() == category);
    assert(all_ids(buckets, one) == all_ids(buckets, one.drop_last()) + bucket(buckets, category));
    assert(all_ids(buckets, one) =~= bucket(buckets, category));
    reveal_strlit("alliance");
    reveal_strlit("character");
    reveal_strlit("corporation");
    reveal_strlit("solar_system");
    reveal_strlit("station");
    assert("alliance"@.len() == 8);
    assert("character"@.len() == 9);
    assert("corporation"@.len() == 11);
    assert("solar_system"@.len() == 12);
    assert("station"@.len() == 7);
    assert("alliance"@[0] != "station"@[0]);
    assert("character"@[0] != "station"@[0]);
    assert("corporation"@[0] != "station"@[0]);
    lemma_all_ids_concat(buckets, first, then);
}

/// The ids to resolve to names: each requested category's ids in the order the categories
/// were asked for, cut to the first `MAX_RESULTS`.
pub fn ids_to_resolve(buckets: &SearchBuckets, categories: &Vec<EntityCategory>) -> (r: Vec<i64>)
    ensures
        r@ == truncated(all_ids(*buckets, categories@), MAX_RESULTS as nat),
{
    let mut ids: Vec<i64> = Vec::new();
    let mut i: usize = 0;
    while i < categories.len()
        invariant
            i <= categories.len(),
            ids@ == all_ids(*buckets, categories@.take(i as int)),
        decreases categories.len() - i,
    {
        assert(categories@.take(i + 1).drop_last() =~= categories@.take(i as int));
        let source = match categories[i] {
            EntityCategory::Alliance => &buckets.alliance,
            EntityCategory::Character => &buckets.character,
            EntityCategory::Corporation => &buckets.corporation,
            EntityCategory::SolarSystem => &buckets.solar_system,
            EntityCategory::Station => &buckets.station,
        };
        let ghost before = ids@;
        let mut k: usize = 0;
        while k < source.len()
            invariant
                k <= source.len(),
                ids@ == before + source@.take(k as int),
            decreases source.len() - k,
        {
            ids.push(source[k]);
            assert(ids@ =~= before + source@.take(k + 1));
            k = k + 1;
        }
        assert(source@.take(source.len() as int) =~= source@);
        i = i + 1;
    }
    assert(categories@.take(categories.len() as int) =~= categories@);
    ids.truncate(MAX_RESULTS);
    ids
}

/// A name ESI resolved: the id, its category name and the entity's name.
#[derive(Clone, Debug)]
pub struct NameRecord {
    pub id: i64,
    pub category: String,
    pub name: String,
}

/// Whether a resolved record comes back: its category is one the search handles and was asked
/// for.
pub open spec fn kept(record: NameRecord, categories: Seq<EntityCategory>) -> bool {
    spec_from_esi(record.category@) matches Some(c) && categories.contains(c)
}

/// The records that come back, in order.
pub open spec fn kept_records(records: Seq<NameRecord>, categories: Seq<EntityCategory>) -> Seq<NameRecord>
    decreases records.len(),
{
    if records.len() == 0 {
        seq![]
    } else if kept(records.last(), categories) {
        kept_records(records.drop_last(), categories).push(records.last())
    } else {
        kept_records(records.drop_last(), categories)
    }
}

/// Every record a search keeps is of a category the search handles and asked for.
pub proof fn lemma_results_are_requested(records: Seq<NameRecord>, categories: Seq<EntityCategory>)
    ensures
        forall|i: int| 0 <= i < kept_records(records, categories).len()
            ==> kept(#[trigger] kept_records(records, categories)[i], categories),
    decreases records.len(),
{
    if records.len() > 0 {
        lemma_results_are_requested(records.drop_last(), categories);
        let rest = kept_records(records.drop_last(), categories);
        assert forall|i: int| 0 <= i < kept_records(records, categories).len()
            implies kept(#[trigger] kept_records(records, categories)[i], categories) by {
            if i < rest.len() {
                assert(kept_records(records, categories)[i] == rest[i]);
            }
        }
    }
}

fn contains_category(categories: &Vec<EntityCategory>, c: EntityCategory) -> (r: bool)
    ensures
        r == categories@.contains(c),
{
    let mut i: usize = 0;
    while i < categories.len()
        invariant
            i <= categories.len(),
            forall|j: int| 0 <= j < i ==> categories@[j] != c,
        decreases categories.len() - i,
    {
        if categories[i] == c {
            return true;
        }
        i = i + 1;
    }
    false
}

/// The results of a search: each resolved record whose category the search handles and was
/// asked for, in the order ESI returned them, with its category read from its name.
pub fn results_from_names(records: Vec<NameRecord>, categories: &Vec<EntityCategory>) -> (r: Vec<EntityResult>)
    ensures
        r@.len() == kept_records(records@, categories@).len(),
        forall|i: int| 0 <= i < r@.len() ==> {
            let rec = #[trigger] kept_records(records@, categories@)[i];
            &&& spec_from_esi(rec.category@) == Some(r@[i].category)
            &&& r@[i].id == rec.id
            &&& r@[i].name@ == rec.name@
        },
{
    let mut out: Vec<EntityResult> = Vec::new();
    let mut i: usize = 0;
    while i < records.len()
        invariant
            i <= records.len(),
            out@.len() == kept_records(records@.take(i as int), categories@).len(),
            forall|j: int| 0 <= j < out@.len() ==> {
                let rec = #[trigger] kept_records(records@.take(i as int), categories@)[j];
                &&& spec_from_esi(rec.category@) == Some(out@[j].category)
                &&& out@[j].id == rec.id
                &&& out@[j].name@ == rec.name@
            },
        decreases records.len() - i,
    {
        assert(records@.take(i + 1).drop_last() =~= records@.take(i as int));
        let record = &records[i];
        match EntityCategory::from_esi(record.category.as_str()) {
            Some(category) => {
                if contains_category(categories, category) {
                    out.push(EntityResult { category, id: record.id, name: record.name.clone() });
                }
            },
            None => {},
        }
        i = i + 1;
    }
    assert(records@.take(records.len() as int) =~= records@);
    out
}

} // verus!
