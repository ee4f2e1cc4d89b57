//! The character contacts tab: which columns show, the type facet, the sort the column
//! headers cycle through, and the label note under a contact's name.

use std::collections::HashMap;
use vstd::prelude::*;
use crate::text::{blank, is_blank, join_strings, joined};

verus! {

/// Which optional columns the contact table shows.
#[derive(Clone, Copy, Debug, PartialEq, Eq, Structural)]
pub struct ContactColumns {
    pub labels: bool,
    pub watchlist: bool,
}

impl ContactColumns {
    /// Only the standing columns: no labels, no watchlist.
    pub fn standings_only() -> (r: ContactColumns)
        ensures
            !r.labels && !r.watchlist,
    {
        ContactColumns { labels: false, watchlist: false }
    }
}

impl Default for ContactColumns {
    /// Every column.
    fn default() -> (r: ContactColumns)
        ensures
            r.labels && r.watchlist,
    {
        ContactColumns { labels: true, watchlist: true }
    }
}

/// The contact-type facet of the filter bar.
#[derive(Clone, Copy, Debug, PartialEq, Eq, Structural)]
pub enum ContactFilter {
    All,
    Alliance,
    Character,
    Corp,
}

impl Default for ContactFilter {
    fn default() -> (r: ContactFilter)
        ensures
            r == ContactFilter::All,
    {
        ContactFilter::All
    }
}

/// The contact type a facet keeps: `None` keeps every type.
pub open spec fn spec_contact_type(filter: ContactFilter) -> Option<Seq<char>> {
    match filter {
        ContactFilter::All => None,
        ContactFilter::Character => Some("character"@),
        ContactFilter::Corp => Some("corporation"@),
        ContactFilter::Alliance => Some("alliance"@),
    }
}

impl ContactFilter {
    /// The facets in the order the segmented control shows them, with their label keys.
    pub fn segments() -> (r: [(ContactFilter, &'static str); 4])
        ensures
            r[0].0 == ContactFilter::All && r[0].1@ == "roster.contacts.filter_all"@,
            r[1].0 == ContactFilter::Character && r[1].1@ == "roster.contacts.filter_characters"@,
            r[2].0 == ContactFilter::Corp && r[2].1@ == "roster.contacts.filter_corps"@,
            r[3].0 == ContactFilter::Alliance && r[3].1@ == "roster.contacts.filter_alliances"@,
    {
        [
            (ContactFilter::All, "roster.contacts.filter_all"),
            (ContactFilter::Character, "roster.contacts.filter_characters"),
            (ContactFilter::Corp, "roster.contacts.filter_corps"),
            (ContactFilter::Alliance, "roster.contacts.filter_alliances"),
        ]
    }

    /// The stored contact type this facet keeps, `None` for every type.
    pub fn contact_type(self) -> (r: Option<&'static str>)
        ensures
            match r {
                Some(t) => spec_contact_type(self) == Some(t@),
                None => spec_contact_type(self) is None,
            },
    {
        match self {
            ContactFilter::All => None,
            ContactFilter::Character => Some("character"),
            ContactFilter::Corp => Some("corporation"),
            ContactFilter::Alliance => Some("alliance"),
        }
    }
}

/// A sortable column of the contact table.
#[derive(Clone, Copy, Debug, PartialEq, Eq, Structural)]
pub enum SortColumn {
    Entity,
    Standing,
    Type,
}

/// A sort direction.
#[derive(Clone, Copy, Debug, PartialEq, Eq, Structural)]
pub enum SortDirection {
    Ascending,
    Descending,
}

/// The direction a column starts in when first clicked: names and types A to Z, standing
/// strongest first.
pub open spec fn spec_natural_direction(column: SortColumn) -> SortDirection {
    match column {
        SortColumn::Entity | SortColumn::Type => SortDirection::Ascending,
        SortColumn::Standing => SortDirection::Descending,
    }
}

/// The other direction.
pub open spec fn spec_flipped(direction: SortDirection) -> SortDirection {
    match direction {
        SortDirection::Ascending => SortDirection::Descending,
        SortDirection::Descending => SortDirection::Ascending,
    }
}

impl SortColumn {
    /// The direction the column starts in when first clicked.
    pub fn natural_direction(self) -> (r: SortDirection)
        ensures
            r == spec_natural_direction(self),
            self == SortColumn::Standing ==> r == SortDirection::Descending,
            self != SortColumn::Standing ==> r == SortDirection::Ascending,
    {
        match self {
            SortColumn::Entity | SortColumn::Type => SortDirection::Ascending,
            SortColumn::Standing => SortDirection::Descending,
        }
    }
}

impl SortDirection {
    /// The other direction.
    pub fn toggled(self) -> (r: SortDirection)
        ensures
            r == spec_flipped(self),
    {
        match self {
            SortDirection::Ascending => SortDirection::Descending,
            SortDirection::Descending => SortDirection::Ascending,
        }
    }
}

/// The column the contact table is sorted by, and in which direction.
#[derive(Clone, Copy, Debug, PartialEq, Eq, Structural)]
pub struct ContactSort {
    pub column: SortColumn,
    pub direction: SortDirection,
}

/// The sort after clicking `column`: the active column flips its direction, another column
/// becomes active in its natural direction.
pub open spec fn spec_toggled(sort: ContactSort, column: SortColumn) -> ContactSort {
    if sort.column == column {
        ContactSort { column, direction: spec_flipped(sort.direction) }
    } else {
        ContactSort { column, direction: spec_natural_direction(column) }
    }
}

impl ContactSort {
    /// The sort after clicking `column`'s header.
    pub fn toggled(self, column: SortColumn) -> (r: ContactSort)
        ensures
            r == spec_toggled(self, column),
    {
        if self.column == column {
            ContactSort { column, direction: self.direction.toggled() }
        } else {
            ContactSort { column, direction: column.natural_direction() }
        }
    }

    /// The caret `column`'s header shows: the direction when it is the active column.
    pub fn caret(self, column: SortColumn) -> (r: Option<SortDirection>)
        ensures
            self.column == column ==> r == Some(self.direction),
            self.column != column ==> r is None,
    {
        if self.column == column {
            Some(self.direction)
        } else {
            None
        }
    }
}

impl Default for ContactSort {
    /// Strongest standing first.
    fn default() -> (r: ContactSort)
        ensures
            r == (ContactSort { column: SortColumn::Standing, direction: SortDirection::Descending }),
    {
        ContactSort { column: SortColumn::Standing, direction: SortDirection::Descending }
    }
}

/// Clicking the active column twice gives back the sort it started from.
pub proof fn lemma_toggle_twice_restores(sort: ContactSort)
    ensures
        spec_toggled(spec_toggled(sort, sort.column), sort.column) == sort,
{
}

/// Clicking a column always makes it the active one, and only the active column has a caret.
pub proof fn lemma_toggle_activates(sort: ContactSort, column: SortColumn)
    ensures
        spec_toggled(sort, column).column == column,
        sort.column != column ==> spec_toggled(sort, column).direction == spec_natural_direction(column),
{
}

/// A column clicked while another is active starts in its natural order: standing strongest
/// first, which is the table's opening sort, and names and types A to Z.
pub proof fn lemma_new_column_starts_naturally(sort: ContactSort, column: SortColumn)
    requires
        sort.column != column,
    ensures
        column == SortColumn::Standing ==> spec_toggled(sort, column)
            == (ContactSort { column: SortColumn::Standing, direction: SortDirection::Descending }),
        column == SortColumn::Entity ==> spec_toggled(sort, column)
            == (ContactSort { column: SortColumn::Entity, direction: SortDirection::Ascending }),
        column == SortColumn::Type ==> spec_toggled(sort, column)
            == (ContactSort { column: SortColumn::Type, direction: SortDirection::Ascending }),
{
}

/// Whether the header counts matches rather than contacts: a non-blank query or a facet other
/// than every type.
pub fn is_filtering(query: &str, filter: ContactFilter) -> (r: bool)
    ensures
        r == (!blank(query@) || filter != ContactFilter::All),
{
    !is_blank(query) || filter != ContactFilter::All
}

/// The label name stored for `id`.
pub open spec fn label_name(labels: Map<i64, String>, id: i64) -> Option<Seq<char>> {
    if labels.contains_key(id) {
        Some(labels[id]@)
    } else {
        None
    }
}

/// The names of the labels among `ids`, in the order of `ids`, unknown ids left out.
pub open spec fn resolved_names(ids: Seq<i64>, labels: Map<i64, String>) -> Seq<Seq<char>>
    decreases ids.len(),
{
    if ids.len() == 0 {
        seq![]
    } else {
        let rest = resolved_names(ids.drop_last(), labels);
        match label_name(labels, ids.last()) {
            Some(name) => rest.push(name),
            None => rest,
        }
    }
}

fn find_label(labels: &HashMap<i64, String>, id: i64) -> (r: Option<&String>)
    ensures
        match r {
            Some(name) => label_name(labels@, id) == Some(name@),
            None => label_name(labels@, id) is None,
        },
{
    broadcast use vstd::std_specs::hash::group_hash_axioms;
    labels.get(&id)
}

/// The names of the labels among `ids`, in order and joined with `", "`; ids without a
/// label are left out.
pub fn label_names(ids: &Vec<i64>, labels: &HashMap<i64, String>) -> (r: String)
    ensures
        r@ == joined(resolved_names(ids@, labels@), ", "@),
{
    let mut names: Vec<String> = Vec::new();
    let mut i: usize = 0;
    while i < ids.len()
        invariant
            i <= ids.len(),
            names@.map_values(|p: String| p@) == resolved_names(ids@.take(i as int), labels@),
        decreases ids.len() - i,
    {
        assert(ids@.take(i + 1).drop_last() =~= ids@.take(i as int));
        let ghost before = names@;
        match find_label(labels, ids[i]) {
            Some(name) => {
                names.push(name.clone());
                assert(names@.map_values(|p: String| p@) =~= before.map_values(|p: String| p@).push(name@));
            },
            None => {},
        }
        i = i + 1;
    }
    assert(ids@.take(ids.len() as int) =~= ids@);
    join_strings(&names, ", ")
}

/// What `serde_json` reads from a text as a JSON array of integers.
pub uninterp spec fn json_i64_array(text: Seq<char>) -> Option<Seq<i64>>;

/// Calls `serde_json::from_str::<Vec<i64>>`. The integers it reads, or `None` when the text is
/// not a JSON array of integers; the contract names the result by `json_i64_array` of the text
/// and says nothing more of what that reading is.
#[verifier::external_body]
fn parse_i64_array(text: &str) -> (r: Option<Vec<i64>>)
    ensures
        match r {
            Some(v) => json_i64_array(text@) == Some(v@),
            None => json_i64_array(text@) is None,
        },
{
    serde_json::from_str::<Vec<i64>>(text).ok()
}

/// The note under a contact's name: the names of the labels its stored label-id list names,
/// joined with `", "`. A list that does not read as a JSON array of integers gives no labels.
pub fn label_note(label_ids: &str, labels: &HashMap<i64, String>) -> (r: String)
    ensures
        r@ == joined(
            resolved_names(
                match json_i64_array(label_ids@) {
                    Some(ids) => ids,
                    None => seq![],
                },
                labels@,
            ),
            ", "@,
        ),
{
    let ids = match parse_i64_array(label_ids) {
        Some(ids) => ids,
        None => Vec::new(),
    };
    label_names(&ids, labels)
}

} // verus!
