//! The contact table of the sync-list editor: the contacts of the open list that the type facet
//! and the search keep, as rows, in the order of the sorted column (a stable sort).

use vstd::prelude::*;
use crate::contact_sync::{list_index, name_of, SyncListContact, State};
use crate::contacts::{spec_contact_type, ContactFilter, ContactSort, SortColumn, SortDirection};
use crate::scopes::{lemma_lex_irreflexive, lemma_lex_total, lemma_lex_transitive, lex_lt, str_eq, str_lt};
use crate::text::{chars_of, signed_decimal, string_from_chars, trimmed, trimmed_chars};

verus! {

/// The text that `str::to_lowercase` gives for `text`.
pub uninterp spec fn lowercase(text: Seq<char>) -> Seq<char>;

/// Calls std's `str::to_lowercase`. The text it gives is left to its name, `lowercase`.
#[verifier::external_body]
fn to_lowercase(text: &str) -> (r: String)
    ensures
        r@ == lowercase(text@),
{
    text.to_lowercase()
}

/// A row of the table: the contact's entity, the name shown for it, its type and standing.
#[derive(Clone, Debug)]
pub struct SyncRow {
    pub entity_id: i64,
    pub name: String,
    pub entity_type: String,
    pub standing: i64,
}

pub ghost struct SyncRowView {
    pub entity_id: i64,
    pub name: Seq<char>,
    pub entity_type: Seq<char>,
    pub standing: i64,
}

impl View for SyncRow {
    type V = SyncRowView;

    open spec fn view(&self) -> SyncRowView {
        SyncRowView {
            entity_id: self.entity_id,
            name: self.name@,
            entity_type: self.entity_type@,
            standing: self.standing,
        }
    }
}

pub open spec fn row_views(rows: Seq<SyncRow>) -> Seq<SyncRowView> {
    rows.map_values(|r: SyncRow| r@)
}

fn copy_row(row: &SyncRow) -> (r: SyncRow)
    ensures
        r@ == row@,
{
    SyncRow {
        entity_id: row.entity_id,
        name: row.name.clone(),
        entity_type: row.entity_type.clone(),
        standing: row.standing,
    }
}

/// Whether `a`'s key is below `b`'s in `column`: names compare in lower case, standings as
/// numbers, types as they are; texts in code-point order.
pub open spec fn key_lt(a: SyncRowView, b: SyncRowView, column: SortColumn) -> bool {
    match column {
        SortColumn::Entity => lex_lt(lowercase(a.name), lowercase(b.name)),
        SortColumn::Standing => a.standing < b.standing,
        SortColumn::Type => lex_lt(a.entity_type, b.entity_type),
    }
}

/// Whether `a` comes strictly before `b` in the table's order.
pub open spec fn goes_before(a: SyncRowView, b: SyncRowView, sort: ContactSort) -> bool {
    match sort.direction {
        SortDirection::Ascending => key_lt(a, b, sort.column),
        SortDirection::Descending => key_lt(b, a, sort.column),
    }
}

/// `out` is `input` reordered by `perm` (row `k` of `out` is row `perm[k]` of `input`, each
/// input row once), in the table's order, with rows of equal keys in their input order.
pub open spec fn stable_order(
    perm: Seq<int>,
    out: Seq<SyncRowView>,
    input: Seq<SyncRowView>,
    sort: ContactSort,
) -> bool {
    &&& perm.len() == out.len()
    &&& out.len() == input.len()
    &&& forall|k: int| 0 <= k < out.len() ==> 0 <= #[trigger] perm[k] < input.len() && out[k] == input[perm[k]]
    &&& forall|a: int, b: int| 0 <= a < b < out.len() ==> #[trigger] perm[a] != #[trigger] perm[b]
    &&& forall|a: int, b: int| 0 <= a < b < out.len() ==> !goes_before(#[trigger] out[b], #[trigger] out[a], sort)
    &&& forall|a: int, b: int|
        #![trigger out[a], out[b]]
        0 <= a < b < out.len() && !goes_before(out[a], out[b], sort) ==> perm[a] < perm[b]
}

/// `out` is a stable sort of `input` in the table's order.
pub open spec fn stably_sorted(out: Seq<SyncRowView>, input: Seq<SyncRowView>, sort: ContactSort) -> bool {
    exists|perm: Seq<int>| stable_order(perm, out, input, sort)
}

proof fn lemma_lex_weak(x: Seq<char>, y: Seq<char>, z: Seq<char>)
    ensures
        !lex_lt(x, x),
        lex_lt(x, y) && lex_lt(y, z) ==> lex_lt(x, z),
        lex_lt(x, y) && !lex_lt(z, y) ==> lex_lt(x, z),
        lex_lt(y, x) && !lex_lt(y, z) ==> lex_lt(z, x),
{
    lemma_lex_irreflexive(x);
    if lex_lt(x, y) && lex_lt(y, z) {
        lemma_lex_transitive(x, y, z);
    }
    if lex_lt(x, y) && !lex_lt(z, y) && z != y {
        lemma_lex_total(z, y);
        lemma_lex_transitive(x, y, z);
    }
    if lex_lt(y, x) && !lex_lt(y, z) && z != y {
        lemma_lex_total(z, y);
        lemma_lex_transitive(z, y, x);
    }
}

proof fn lemma_key_weak(a: SyncRowView, b: SyncRowView, c: SyncRowView, column: SortColumn)
    ensures
        !key_lt(a, a, column),
        key_lt(a, b, column) && key_lt(b, c, column) ==> key_lt(a, c, column),
        key_lt(a, b, column) && !key_lt(c, b, column) ==> key_lt(a, c, column),
        key_lt(b, a, column) && !key_lt(b, c, column) ==> key_lt(c, a, column),
{
    match column {
        SortColumn::Entity => lemma_lex_weak(lowercase(a.name), lowercase(b.name), lowercase(c.name)),
        SortColumn::Standing => {},
        SortColumn::Type => lemma_lex_weak(a.entity_type, b.entity_type, c.entity_type),
    }
}

/// The table's order is a strict weak order: irreflexive, transitive, and whatever comes
/// before a row comes before every row not before that one.
pub proof fn lemma_order(a: SyncRowView, b: SyncRowView, c: SyncRowView, sort: ContactSort)
    ensures
        !goes_before(a, a, sort),
        goes_before(a, b, sort) && goes_before(b, c, sort) ==> goes_before(a, c, sort),
        goes_before(a, b, sort) && !goes_before(c, b, sort) ==> goes_before(a, c, sort),
{
    lemma_key_weak(a, b, c, sort.column);
    lemma_key_weak(c, b, a, sort.column);
}

fn key_less(a: &SyncRow, b: &SyncRow, column: SortColumn) -> (r: bool)
    ensures
        r == key_lt(a@, b@, column),
{
    match column {
        SortColumn::Entity => {
            let ka = to_lowercase(a.name.as_str());
            let kb = to_lowercase(b.name.as_str());
            str_lt(ka.as_str(), kb.as_str())
        },
        SortColumn::Standing => a.standing < b.standing,
        SortColumn::Type => str_lt(a.entity_type.as_str(), b.entity_type.as_str()),
    }
}

fn before(a: &SyncRow, b: &SyncRow, sort: ContactSort) -> (r: bool)
    ensures
        r == goes_before(a@, b@, sort),
{
    match sort.direction {
        SortDirection::Ascending => key_less(a, b, sort.column),
        SortDirection::Descending => key_less(b, a, sort.column),
    }
}

/// The first position whose row `x` goes before, or the end.
fn find_slot(out: &Vec<SyncRow>, x: &SyncRow, sort: ContactSort) -> (p: usize)
    ensures
        p <= out@.len(),
        forall|q: int| 0 <= q < p ==> !goes_before(x@, #[trigger] out@[q]@, sort),
        p < out@.len() ==> goes_before(x@, out@[p as int]@, sort),
{
    let mut p: usize = 0;
    while p < out.len()
        invariant
            p <= out@.len(),
            forall|q: int| 0 <= q < p ==> !goes_before(x@, #[trigger] out@[q]@, sort),
        decreases out.len() - p,
    {
        if before(x, &out[p], sort) {
            return p;
        }
        p = p + 1;
    }
    p
}

/// The rows in the table's order: sorted by the column in the direction, rows with equal keys
/// kept in the order they came in.
pub fn sort_rows(rows: &Vec<SyncRow>, sort: ContactSort) -> (r: Vec<SyncRow>)
    ensures
        stably_sorted(row_views(r@), row_views(rows@), sort),
{
    let mut out: Vec<SyncRow> = Vec::new();
    let ghost mut perm: Seq<int> = seq![];
    let mut i: usize = 0;
    while i < rows.len()
        invariant
            i <= rows@.len(),
            stable_order(perm, row_views(out@), row_views(rows@).take(i as int), sort),
        decreases rows.len() - i,
    {
        let x = copy_row(&rows[i]);
        let p = find_slot(&out, &x, sort);
        let ghost before_out = row_views(out@);
        let ghost before_perm = perm;
        let ghost input = row_views(rows@).take(i + 1);
        out.insert(p, x);
        proof {
            perm = before_perm.insert(p as int, i as int);
            let now = row_views(out@);
            assert(now =~= before_out.insert(p as int, x@));
            assert(input =~= row_views(rows@).take(i as int).push(x@));
            assert forall|k: int| 0 <= k < now.len() implies 0 <= #[trigger] perm[k] < input.len()
                && now[k] == input[perm[k]] by {
                if k < p {
                    assert(now[k] == before_out[k]);
                } else if k > p {
                    assert(now[k] == before_out[k - 1]);
                }
            }
            assert forall|a: int, b: int| 0 <= a < b < now.len() implies #[trigger] perm[a] != #[trigger] perm[b] by {
                if a < p && b < p {
                } else if a < p && b == p {
                    assert(before_perm[a] < i);
                } else if a < p && b > p {
                    assert(perm[b] == before_perm[b - 1]);
                } else if a == p {
                    assert(perm[b] == before_perm[b - 1]);
                    assert(before_perm[b - 1] < i);
                } else {
                    assert(perm[a] == before_perm[a - 1]);
                    assert(perm[b] == before_perm[b - 1]);
                }
            }
            assert forall|a: int, b: int| 0 <= a < b < now.len() implies !goes_before(#[trigger] now[b], #[trigger] now[a], sort) by {
                if a < p && b < p {
                } else if a < p && b == p {
                    assert(!goes_before(x@, before_out[a], sort));
                } else if a < p && b > p {
                    assert(now[b] == before_out[b - 1]);
                } else if a == p {
                    let y = before_out[b - 1];
                    assert(now[b] == y);
                    assert(goes_before(x@, before_out[p as int], sort));
                    lemma_order(y, x@, before_out[p as int], sort);
                    lemma_order(before_out[p as int], before_out[p as int], before_out[p as int], sort);
                    if b - 1 > p {
                        assert(!goes_before(y, before_out[p as int], sort));
                    }
                } else {
                    assert(now[a] == before_out[a - 1]);
                    assert(now[b] == before_out[b - 1]);
                }
            }
            assert forall|a: int, b: int|
                #![trigger now[a], now[b]]
                0 <= a < b < now.len() && !goes_before(now[a], now[b], sort) implies perm[a] < perm[b] by {
                if a < p && b < p {
                } else if a < p && b == p {
                    assert(before_perm[a] < i);
                } else if a < p && b > p {
                    assert(now[b] == before_out[b - 1]);
                    assert(now[a] == before_out[a]);
                    assert(perm[b] == before_perm[b - 1]);
                } else if a == p {
                    let y = before_out[b - 1];
                    assert(now[b] == y);
                    assert(goes_before(x@, before_out[p as int], sort));
                    if b - 1 > p {
                        assert(!goes_before(y, before_out[p as int], sort));
                    }
                    lemma_order(x@, before_out[p as int], y, sort);
                    assert(goes_before(x@, y, sort));
                } else {
                    assert(now[a] == before_out[a - 1]);
                    assert(now[b] == before_out[b - 1]);
                    assert(perm[a] == before_perm[a - 1]);
                    assert(perm[b] == before_perm[b - 1]);
                }
            }
            assert(stable_order(perm, now, input, sort));
        }
        i = i + 1;
    }
    proof {
        assert(row_views(rows@).take(rows@.len() as int) =~= row_views(rows@));
    }
    out
}

/// `t` occurs in `s`.
pub open spec fn has_substring(s: Seq<char>, t: Seq<char>) -> bool {
    exists|i: int| 0 <= i && i + t.len() <= s.len() && #[trigger] s.subrange(i, i + t.len()) == t
}

fn contains_text(haystack: &str, needle: &str) -> (r: bool)
    ensures
        r == has_substring(haystack@, needle@),
{
    let h = chars_of(haystack);
    let t = chars_of(needle);
    let n = h.len();
    let m = t.len();
    if m > n {
        return false;
    }
    let mut i: usize = 0;
    while i <= n - m
        invariant
            n == h@.len(),
            m == t@.len(),
            m <= n,
            h@ == haystack@,
            t@ == needle@,
            forall|k: int| 0 <= k < i && k + m <= n ==> #[trigger] h@.subrange(k, k + m) != t@,
        decreases n - m + 1 - i,
    {
        let mut j: usize = 0;
        while j < m && h[i + j] == t[j]
            invariant
                i + m <= n,
                j <= m,
                n == h@.len(),
                m == t@.len(),
                forall|q: int| 0 <= q < j ==> h@[i + q] == t@[q],
            decreases m - j,
        {
            j = j + 1;
        }
        if j == m {
            assert(h@.subrange(i as int, i + m) =~= t@);
            return true;
        }
        assert(h@.subrange(i as int, i + m)[j as int] != t@[j as int]);
        i = i + 1;
    }
    proof {
        assert forall|k: int| 0 <= k && k + t@.len() <= h@.len() implies #[trigger] h@.subrange(k, k + t@.len()) != t@ by {
            assert(k < i);
        }
    }
    false
}

/// The name shown for an entity: its known name, else `#` and its id.
pub open spec fn spec_entity_name(names: Seq<(i64, String)>, id: i64) -> Seq<char> {
    match name_of(names, id) {
        Some(n) => n,
        None => "#"@ + signed_decimal(id as int),
    }
}

/// Whether the table lists a contact: its type is the facet's (any type for every type), and,
/// with a search, its lower-case name holds the search.
pub open spec fn listed(
    c: SyncListContact,
    names: Seq<(i64, String)>,
    needle: Seq<char>,
    filter: ContactFilter,
) -> bool {
    &&& match spec_contact_type(filter) {
        Some(t) => c.entity_type@ == t,
        None => true,
    }
    &&& (needle.len() == 0 || has_substring(lowercase(spec_entity_name(names, c.entity_id)), needle))
}

/// A contact's row.
pub open spec fn row_of(c: SyncListContact, names: Seq<(i64, String)>) -> SyncRowView {
    SyncRowView {
        entity_id: c.entity_id,
        name: spec_entity_name(names, c.entity_id),
        entity_type: c.entity_type@,
        standing: c.standing,
    }
}

/// The rows of the contacts the table lists, in the list's order.
pub open spec fn table_rows(
    contacts: Seq<SyncListContact>,
    names: Seq<(i64, String)>,
    needle: Seq<char>,
    filter: ContactFilter,
) -> Seq<SyncRowView>
    decreases contacts.len(),
{
    if contacts.len() == 0 {
        seq![]
    } else {
        let rest = table_rows(contacts.drop_last(), names, needle, filter);
        if listed(contacts.last(), names, needle, filter) {
            rest.push(row_of(contacts.last(), names))
        } else {
            rest
        }
    }
}

/// The search as the table matches it: trimmed and in lower case.
pub open spec fn needle_of(query: Seq<char>) -> Seq<char> {
    lowercase(trimmed(query))
}

/// The rows of `contacts` that the facet and the search keep, in the list's order, named by
/// what `lists` knows.
pub fn listed_rows(
    lists: &State,
    contacts: &Vec<SyncListContact>,
    query: &str,
    filter: ContactFilter,
) -> (r: Vec<SyncRow>)
    ensures
        row_views(r@) == table_rows(contacts@, lists.spec_names(), needle_of(query@), filter),
{
    let trimmed_query = string_from_chars(&trimmed_chars(query));
    let needle = to_lowercase(trimmed_query.as_str());
    let contact_type = filter.contact_type();
    let mut out: Vec<SyncRow> = Vec::new();
    let mut i: usize = 0;
    while i < contacts.len()
        invariant
            i <= contacts@.len(),
            needle@ == needle_of(query@),
            match contact_type {
                Some(t) => spec_contact_type(filter) == Some(t@),
                None => spec_contact_type(filter) is None,
            },
            row_views(out@) == table_rows(contacts@.take(i as int), lists.spec_names(), needle@, filter),
        decreases contacts.len() - i,
    {
        proof {
            assert(contacts@.take(i + 1).drop_last() =~= contacts@.take(i as int));
        }
        let c = &contacts[i];
        let type_ok = match contact_type {
            Some(t) => str_eq(c.entity_type.as_str(), t),
            None => true,
        };
        if type_ok {
            let name = lists.entity_name(c.entity_id);
            let keep = if needle.as_str().is_empty() {
                true
            } else {
                let lower = to_lowercase(name.as_str());
                contains_text(lower.as_str(), needle.as_str())
            };
            if keep {
                let ghost before = row_views(out@);
                out.push(SyncRow {
                    entity_id: c.entity_id,
                    name,
                    entity_type: c.entity_type.clone(),
                    standing: c.standing,
                });
                proof {
                    assert(row_views(out@) =~= before.push(row_of(contacts@[i as int], lists.spec_names())));
                }
            }
        }
        i = i + 1;
    }
    proof {
        assert(contacts@.take(contacts@.len() as int) =~= contacts@);
    }
    out
}

/// The table of the list open in the editor: its contacts that the facet and the search keep,
/// stably sorted by the column in the direction; empty with no list open.
pub fn contact_view_rows(lists: &State, query: &str, filter: ContactFilter, sort: ContactSort) -> (r: Vec<SyncRow>)
    ensures
        match lists.spec_editing() {
            Some(id) => match list_index(lists.spec_lists(), id) {
                Some(k) => stably_sorted(
                    row_views(r@),
                    table_rows(lists.spec_lists()[k].contacts@, lists.spec_names(), needle_of(query@), filter),
                    sort,
                ),
                None => r@.len() == 0,
            },
            None => r@.len() == 0,
        },
{
    match lists.editing_list() {
        Some(list) => {
            proof {
                let id = lists.spec_editing().unwrap();
                let k = choose|k: int| 0 <= k < lists.spec_lists().len() && lists.spec_lists()[k] == *list
                    && list.id == id && forall|j: int| 0 <= j < k ==> lists.spec_lists()[j].id != id;
                crate::contact_sync::lemma_first_list(lists.spec_lists(), id, k);
            }
            let rows = listed_rows(lists, &list.contacts, query, filter);
            sort_rows(&rows, sort)
        },
        None => Vec::new(),
    }
}

} // verus!
