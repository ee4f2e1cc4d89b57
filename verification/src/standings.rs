//! The corporation standings tab: which rows each facet keeps, the sectioned list the
//! tab renders (factions, corporations, agents, then the rows no faction claims), and the
//! detail line under an agent.

use vstd::prelude::*;
use crate::text::{join_strings, joined, push_str, signed_decimal, signed_decimal_chars, string_from_chars};

verus! {

/// What a standing is held toward.
#[derive(Clone, Copy, Debug, PartialEq, Eq, Structural)]
pub enum StandingKind {
    Agent,
    Corporation,
    Faction,
}

/// What the facets and sections read of a standings row: its kind and its faction.
#[derive(Clone, Copy, Debug, PartialEq, Eq, Structural)]
pub struct StandingEntry {
    pub kind: StandingKind,
    pub faction_id: Option<i64>,
}

/// The facet of the standings tab.
#[derive(Clone, Copy, Debug, PartialEq, Eq, Structural)]
pub enum StandingsFilter {
    Agents,
    All,
    Corps,
    Factions,
    Other,
}

impl Default for StandingsFilter {
    fn default() -> (r: StandingsFilter)
        ensures
            r == StandingsFilter::All,
    {
        StandingsFilter::All
    }
}

/// A corporation or agent that belongs to no faction.
pub open spec fn spec_is_other(row: StandingEntry) -> bool {
    (row.kind == StandingKind::Corporation || row.kind == StandingKind::Agent) && row.faction_id is None
}

/// Whether `filter` keeps `row`.
pub open spec fn spec_matches(filter: StandingsFilter, row: StandingEntry) -> bool {
    match filter {
        StandingsFilter::Agents => row.kind == StandingKind::Agent && !spec_is_other(row),
        StandingsFilter::All => true,
        StandingsFilter::Corps => row.kind == StandingKind::Corporation && !spec_is_other(row),
        StandingsFilter::Factions => row.kind == StandingKind::Faction,
        StandingsFilter::Other => spec_is_other(row),
    }
}

/// A corporation or agent that belongs to no faction.
pub fn is_other(row: &StandingEntry) -> (r: bool)
    ensures
        r == spec_is_other(*row),
{
    match row.kind {
        StandingKind::Corporation | StandingKind::Agent => row.faction_id.is_none(),
        StandingKind::Faction => false,
    }
}

impl StandingsFilter {
    /// The facets in the order the segmented control shows them, with their label keys.
    pub fn segments() -> (r: [(StandingsFilter, &'static str); 5])
        ensures
            r[0].0 == StandingsFilter::All && r[0].1@ == "roster.standings.filter_all"@,
            r[1].0 == StandingsFilter::Factions && r[1].1@ == "roster.standings.filter_factions"@,
            r[2].0 == StandingsFilter::Corps && r[2].1@ == "roster.standings.filter_corps"@,
            r[3].0 == StandingsFilter::Agents && r[3].1@ == "roster.standings.filter_agents"@,
            r[4].0 == StandingsFilter::Other && r[4].1@ == "roster.standings.filter_other"@,
    {
        [
            (StandingsFilter::All, "roster.standings.filter_all"),
            (StandingsFilter::Factions, "roster.standings.filter_factions"),
            (StandingsFilter::Corps, "roster.standings.filter_corps"),
            (StandingsFilter::Agents, "roster.standings.filter_agents"),
            (StandingsFilter::Other, "roster.standings.filter_other"),
        ]
    }

    /// Whether the facet can show agents, so their details are worth loading.
    pub fn surfaces_agents(self) -> (r: bool)
        ensures
            r == (self == StandingsFilter::All || self == StandingsFilter::Agents),
    {
        match self {
            StandingsFilter::All | StandingsFilter::Agents => true,
            _ => false,
        }
    }

    /// Whether the facet keeps `row`.
    pub fn matches(self, row: &StandingEntry) -> (r: bool)
        ensures
            r == spec_matches(self, *row),
    {
        match self {
            StandingsFilter::Agents => row.kind == StandingKind::Agent && !is_other(row),
            StandingsFilter::All => true,
            StandingsFilter::Corps => row.kind == StandingKind::Corporation && !is_other(row),
            StandingsFilter::Factions => row.kind == StandingKind::Faction,
            StandingsFilter::Other => is_other(row),
        }
    }
}

/// One line of the sectioned list: a section heading with its row count, or a row (by its
/// position among the input rows) marked when it closes its section.
#[derive(Clone, Copy, Debug, PartialEq, Eq)]
pub enum FlatItem {
    Header { count: usize, label: &'static str },
    Row { last: bool, row: usize },
}

pub ghost enum FlatItemView {
    Header { count: nat, label: Seq<char> },
    Row { last: bool, row: nat },
}

pub open spec fn flat_view(item: FlatItem) -> FlatItemView {
    match item {
        FlatItem::Header { count, label } => FlatItemView::Header { count: count as nat, label: label@ },
        FlatItem::Row { last, row } => FlatItemView::Row { last, row: row as nat },
    }
}

pub open spec fn flat_views(items: Seq<FlatItem>) -> Seq<FlatItemView> {
    items.map_values(|i: FlatItem| flat_view(i))
}

/// The label key of section `section`: factions, corporations, agents, then the rest.
pub open spec fn section_label(section: nat) -> Seq<char> {
    if section == 0 {
        "roster.standings.section_factions"@
    } else if section == 1 {
        "roster.standings.section_corporations"@
    } else if section == 2 {
        "roster.standings.section_agents"@
    } else {
        "roster.standings.section_other"@
    }
}

/// Whether a row the facet keeps falls in section `section`: factions, then corporations and
/// agents that belong to a faction, then every row no faction claims.
pub open spec fn in_section(row: StandingEntry, section: nat, filter: StandingsFilter) -> bool {
    spec_matches(filter, row) && if section == 0 {
        row.kind == StandingKind::Faction && !spec_is_other(row)
    } else if section == 1 {
        row.kind == StandingKind::Corporation && !spec_is_other(row)
    } else if section == 2 {
        row.kind == StandingKind::Agent && !spec_is_other(row)
    } else {
        spec_is_other(row)
    }
}

/// The positions of the rows of section `section`, in input order.
pub open spec fn section_rows(rows: Seq<StandingEntry>, section: nat, filter: StandingsFilter) -> Seq<nat>
    decreases rows.len(),
{
    if rows.len() == 0 {
        seq![]
    } else {
        let rest = section_rows(rows.drop_last(), section, filter);
        if in_section(rows.last(), section, filter) {
            rest.push((rows.len() - 1) as nat)
        } else {
            rest
        }
    }
}

/// A section's lines: nothing when it is empty, else its heading and then its rows, the last
/// one marked.
pub open spec fn section_items(label: Seq<char>, positions: Seq<nat>) -> Seq<FlatItemView> {
    if positions.len() == 0 {
        seq![]
    } else {
        seq![FlatItemView::Header { count: positions.len(), label }] + Seq::new(
            positions.len(),
            |j: int| FlatItemView::Row { last: j == positions.len() - 1, row: positions[j] },
        )
    }
}

/// The lines of sections `0` to `upto - 1`.
pub open spec fn sections_upto(rows: Seq<StandingEntry>, filter: StandingsFilter, upto: nat) -> Seq<FlatItemView>
    decreases upto,
{
    if upto == 0 {
        seq![]
    } else {
        sections_upto(rows, filter, (upto - 1) as nat) + section_items(
            section_label((upto - 1) as nat),
            section_rows(rows, (upto - 1) as nat, filter),
        )
    }
}

/// The sectioned list of the rows the facet keeps.
pub open spec fn spec_flatten(rows: Seq<StandingEntry>, filter: StandingsFilter) -> Seq<FlatItemView> {
    sections_upto(rows, filter, 4)
}

/// How many lines of `items` show row `i`.
pub open spec fn row_count(items: Seq<FlatItemView>, i: nat) -> nat
    decreases items.len(),
{
    if items.len() == 0 {
        0
    } else {
        row_count(items.drop_last(), i) + (if items.last() == (FlatItemView::Row { last: true, row: i })
            || items.last() == (FlatItemView::Row { last: false, row: i }) {
            1nat
        } else {
            0nat
        })
    }
}

/// How many times `i` occurs among `positions`.
pub open spec fn position_count(positions: Seq<nat>, i: nat) -> nat
    decreases positions.len(),
{
    if positions.len() == 0 {
        0
    } else {
        position_count(positions.drop_last(), i) + (if positions.last() == i { 1nat } else { 0nat })
    }
}

proof fn lemma_row_count_add(a: Seq<FlatItemView>, b: Seq<FlatItemView>, i: nat)
    ensures
        row_count(a + b, i) == row_count(a, i) + row_count(b, i),
    decreases b.len(),
{
    if b.len() == 0 {
        assert(a + b =~= a);
    } else {
        assert((a + b).drop_last() =~= a + b.drop_last());
        assert((a + b).last() == b.last());
        lemma_row_count_add(a, b.drop_last(), i);
    }
}

proof fn lemma_rows_follow_positions(items: Seq<FlatItemView>, positions: Seq<nat>, i: nat)
    requires
        items.len() == positions.len(),
        forall|j: int| 0 <= j < items.len() ==> (#[trigger] items[j] matches FlatItemView::Row { row, .. } && row == positions[j]),
    ensures
        row_count(items, i) == position_count(positions, i),
    decreases items.len(),
{
    if items.len() > 0 {
        let n = items.len() - 1;
        assert forall|j: int| 0 <= j < items.drop_last().len()
            implies (#[trigger] items.drop_last()[j] matches FlatItemView::Row { row, .. } && row == positions.drop_last()[j]) by {
            assert(items.drop_last()[j] == items[j]);
        }
        lemma_rows_follow_positions(items.drop_last(), positions.drop_last(), i);
        assert(items[n] matches FlatItemView::Row { row, .. } && row == positions[n]);
    }
}

proof fn lemma_section_items_rows(label: Seq<char>, positions: Seq<nat>, i: nat)
    ensures
        row_count(section_items(label, positions), i) == position_count(positions, i),
{
    if positions.len() > 0 {
        let header = seq![FlatItemView::Header { count: positions.len(), label }];
        let body = Seq::new(
            positions.len(),
            |j: int| FlatItemView::Row { last: j == positions.len() - 1, row: positions[j] },
        );
        lemma_row_count_add(header, body, i);
        assert(header.drop_last() =~= Seq::<FlatItemView>::empty());
        assert(row_count(header.drop_last(), i) == 0);
        assert(header.last() == FlatItemView::Header { count: positions.len(), label });
        assert(row_count(header, i) == 0);
        lemma_rows_follow_positions(body, positions, i);
    }
}

proof fn lemma_section_rows_once(rows: Seq<StandingEntry>, section: nat, filter: StandingsFilter, i: nat)
    ensures
        position_count(section_rows(rows, section, filter), i) == (if i < rows.len() && in_section(
            rows[i as int],
            section,
            filter,
        ) {
            1nat
        } else {
            0nat
        }),
    decreases rows.len(),
{
    if rows.len() > 0 {
        let prev = rows.drop_last();
        lemma_section_rows_once(prev, section, filter, i);
        let rest = section_rows(prev, section, filter);
        if in_section(rows.last(), section, filter) {
            let pushed = rest.push((rows.len() - 1) as nat);
            assert(pushed.drop_last() =~= rest);
        }
        if i < prev.len() {
            assert(prev[i as int] == rows[i as int]);
        }
    }
}

/// How many of the sections `0` to `upto - 1` hold `row`.
pub open spec fn sections_holding(row: StandingEntry, filter: StandingsFilter, upto: nat) -> nat
    decreases upto,
{
    if upto == 0 {
        0
    } else {
        sections_holding(row, filter, (upto - 1) as nat) + (if in_section(row, (upto - 1) as nat, filter) {
            1nat
        } else {
            0nat
        })
    }
}

proof fn lemma_sections_upto_rows(rows: Seq<StandingEntry>, filter: StandingsFilter, upto: nat, i: nat)
    requires
        i < rows.len(),
    ensures
        row_count(sections_upto(rows, filter, upto), i) == sections_holding(rows[i as int], filter, upto),
    decreases upto,
{
    if upto > 0 {
        let s = (upto - 1) as nat;
        lemma_sections_upto_rows(rows, filter, s, i);
        lemma_row_count_add(sections_upto(rows, filter, s), section_items(section_label(s), section_rows(rows, s, filter)), i);
        lemma_section_items_rows(section_label(s), section_rows(rows, s, filter), i);
        lemma_section_rows_once(rows, s, filter, i);
    }
}

/// Every row the facet keeps shows exactly once in the sectioned list, and no other row shows:
/// each kept row falls in exactly one of the four sections.
pub proof fn lemma_each_kept_row_once(rows: Seq<StandingEntry>, filter: StandingsFilter)
    ensures
        forall|i: nat| i < rows.len() ==> #[trigger] row_count(spec_flatten(rows, filter), i) == (if spec_matches(
            filter,
            rows[i as int],
        ) {
            1nat
        } else {
            0nat
        }),
{
    assert forall|i: nat| i < rows.len() implies #[trigger] row_count(spec_flatten(rows, filter), i) == (if spec_matches(
        filter,
        rows[i as int],
    ) {
        1nat
    } else {
        0nat
    }) by {
        lemma_sections_upto_rows(rows, filter, 4, i);
        let row = rows[i as int];
        reveal_with_fuel(sections_holding, 5);
        assert(sections_holding(row, filter, 4) == (if in_section(row, 0, filter) { 1nat } else { 0nat })
            + (if in_section(row, 1, filter) { 1nat } else { 0nat }) + (if in_section(row, 2, filter) { 1nat } else { 0nat })
            + (if in_section(row, 3, filter) { 1nat } else { 0nat }));
    }
}

fn section_label_of(section: usize) -> (r: &'static str)
    requires
        section < 4,
    ensures
        r@ == section_label(section as nat),
{
    if section == 0 {
        "roster.standings.section_factions"
    } else if section == 1 {
        "roster.standings.section_corporations"
    } else if section == 2 {
        "roster.standings.section_agents"
    } else {
        "roster.standings.section_other"
    }
}

fn in_section_exec(row: &StandingEntry, section: usize, filter: StandingsFilter) -> (r: bool)
    requires
        section < 4,
    ensures
        r == in_section(*row, section as nat, filter),
{
    if !filter.matches(row) {
        return false;
    }
    if section == 0 {
        row.kind == StandingKind::Faction && !is_other(row)
    } else if section == 1 {
        row.kind == StandingKind::Corporation && !is_other(row)
    } else if section == 2 {
        row.kind == StandingKind::Agent && !is_other(row)
    } else {
        is_other(row)
    }
}

/// The list the standings tab renders: for each section in turn (factions, corporations,
/// agents, then the rows no faction claims) that holds a row the facet keeps, a heading with
/// the section's row count, then those rows in input order, the last one marked.
pub fn flatten_sections(rows: &Vec<StandingEntry>, filter: StandingsFilter) -> (r: Vec<FlatItem>)
    ensures
        flat_views(r@) == spec_flatten(rows@, filter),
{
    let mut items: Vec<FlatItem> = Vec::new();
    let mut section: usize = 0;
    while section < 4
        invariant
            section <= 4,
            flat_views(items@) == sections_upto(rows@, filter, section as nat),
        decreases 4 - section,
    {
        let mut positions: Vec<usize> = Vec::new();
        let mut i: usize = 0;
        while i < rows.len()
            invariant
                i <= rows.len(),
                section < 4,
                positions@.map_values(|p: usize| p as nat) == section_rows(rows@.take(i as int), section as nat, filter),
                forall|k: int| 0 <= k < positions.len() ==> positions@[k] < i,
            decreases rows.len() - i,
        {
            assert(rows@.take(i + 1).drop_last() =~= rows@.take(i as int));
            let ghost before = positions@;
            if in_section_exec(&rows[i], section, filter) {
                positions.push(i);
                assert(positions@.map_values(|p: usize| p as nat) =~= before.map_values(|p: usize| p as nat).push(i as nat));
            }
            i = i + 1;
        }
        assert(rows@.take(rows.len() as int) =~= rows@);
        let ghost pos = positions@.map_values(|p: usize| p as nat);
        let ghost start = items@;
        if positions.len() > 0 {
            let label = section_label_of(section);
            items.push(FlatItem::Header { count: positions.len(), label });
            let last = positions.len() - 1;
            let mut j: usize = 0;
            while j < positions.len()
                invariant
                    j <= positions.len(),
                    last == positions.len() - 1,
                    pos == positions@.map_values(|p: usize| p as nat),
                    flat_views(items@) == flat_views(start) + seq![FlatItemView::Header { count: pos.len(), label: label@ }]
                        + Seq::new(j as nat, |k: int| FlatItemView::Row { last: k == pos.len() - 1, row: pos[k] }),
                decreases positions.len() - j,
            {
                let ghost prev = items@;
                items.push(FlatItem::Row { last: j == last, row: positions[j] });
                assert(flat_views(items@) =~= flat_views(prev).push(FlatItemView::Row { last: j == pos.len() - 1, row: pos[j as int] }));
                assert(flat_views(items@) =~= flat_views(start) + seq![FlatItemView::Header { count: pos.len(), label: label@ }]
                    + Seq::new((j + 1) as nat, |k: int| FlatItemView::Row { last: k == pos.len() - 1, row: pos[k] }));
                j = j + 1;
            }
            assert(flat_views(items@) =~= sections_upto(rows@, filter, (section + 1) as nat));
        } else {
            assert(section_items(section_label(section as nat), pos) =~= Seq::<FlatItemView>::empty());
            assert(sections_upto(rows@, filter, (section + 1) as nat) =~= sections_upto(rows@, filter, section as nat));
        }
        section = section + 1;
    }
    items
}

/// What an agent's row says of it besides its name.
#[derive(Clone, Debug)]
pub struct AgentDetails {
    pub level: Option<i64>,
    pub agent_type: Option<String>,
    pub division: Option<String>,
    pub system: Option<String>,
    pub region: Option<String>,
}

/// The parts of an agent's detail line, in order: `L` and its level, its type, its division,
/// then its system, followed by ` · ` and its region when both are known (the region alone is
/// not shown).
pub open spec fn meta_parts(d: AgentDetails) -> Seq<Seq<char>> {
    let a: Seq<Seq<char>> = match d.level {
        Some(l) => seq!["L"@ + signed_decimal(l as int)],
        None => seq![],
    };
    let b = match d.agent_type {
        Some(t) => a.push(t@),
        None => a,
    };
    let c = match d.division {
        Some(v) => b.push(v@),
        None => b,
    };
    match (d.system, d.region) {
        (Some(sys), Some(reg)) => c.push(sys@ + " \u{b7} "@ + reg@),
        (Some(sys), None) => c.push(sys@),
        _ => c,
    }
}

/// Every known detail of an agent shows in its line, once each and in order: the level, the
/// type, the division, then the system, with ` · ` and the region after it when that is known
/// too; a region without a system does not show.
pub proof fn lemma_every_known_detail_shows(d: AgentDetails)
    ensures
        meta_parts(d).len() == (if d.level is Some { 1int } else { 0 }) + (if d.agent_type is Some { 1int } else { 0 })
            + (if d.division is Some { 1int } else { 0 }) + (if d.system is Some { 1int } else { 0 }),
        d.level matches Some(l) ==> meta_parts(d)[0] == "L"@ + signed_decimal(l as int),
        d.system matches Some(sys) ==> meta_parts(d).last() == (match d.region {
            Some(reg) => sys@ + " \u{b7} "@ + reg@,
            None => sys@,
        }),
        d.division matches Some(v) ==> meta_parts(d)[(if d.level is Some { 1int } else { 0 }) + (if d.agent_type
            is Some { 1int } else { 0 })] == v@,
        d.agent_type matches Some(t) ==> meta_parts(d)[(if d.level is Some { 1int } else { 0 })] == t@,
{
}

/// The separator between the parts of an agent's detail line.
pub const META_SEPARATOR: &'static str = "  \u{b7}  ";

/// The detail line under a row's name: for an agent with anything known, its parts joined by
/// `  ·  `; nothing for other rows or for an agent with nothing known.
pub fn meta_line(kind: StandingKind, details: &AgentDetails) -> (r: Option<String>)
    ensures
        kind != StandingKind::Agent ==> r is None,
        kind == StandingKind::Agent ==> match r {
            Some(line) => meta_parts(*details).len() > 0 && line@ == joined(meta_parts(*details), META_SEPARATOR@),
            None => meta_parts(*details).len() == 0,
        },
        kind == StandingKind::Agent && details.system is Some ==> r is Some,
{
    if kind != StandingKind::Agent {
        return None;
    }
    let mut parts: Vec<String> = Vec::new();
    if let Some(level) = details.level {
        let mut v: Vec<char> = Vec::new();
        push_str(&mut v, "L");
        let mut digits = signed_decimal_chars(level);
        v.append(&mut digits);
        parts.push(string_from_chars(&v));
    }
    if let Some(t) = &details.agent_type {
        parts.push(t.clone());
    }
    if let Some(d) = &details.division {
        parts.push(d.clone());
    }
    match (&details.system, &details.region) {
        (Some(system), Some(region)) => {
            let mut v: Vec<char> = Vec::new();
            push_str(&mut v, system.as_str());
            push_str(&mut v, " \u{b7} ");
            push_str(&mut v, region.as_str());
            parts.push(string_from_chars(&v));
        },
        (Some(system), None) => {
            parts.push(system.clone());
        },
        _ => {},
    }
    proof {
        assert(parts@.map_values(|p: String| p@) =~= meta_parts(*details));
    }
    if parts.len() == 0 {
        return None;
    }
    Some(join_strings(&parts, META_SEPARATOR))
}

} // verus!
