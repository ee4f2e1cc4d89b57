//! Contact sync lists: named lists of contacts pushed to a chosen set of the pilot's
//! characters. This module keeps the lists in memory as the editor changes them and says what
//! each change asks to store.

use vstd::prelude::*;
use crate::contacts::{ContactFilter, ContactSort, SortColumn, SortDirection};
use crate::scopes::str_eq;
use crate::text::{blank, is_blank, join_strings, joined, push_str, signed_decimal, signed_decimal_chars, string_from_chars};

verus! {

/// One of the pilot's characters, as the target picker shows it.
#[derive(Clone, Debug)]
pub struct Pilot {
    pub character_id: i64,
    pub name: String,
    pub subtitle: String,
}

/// A contact stored in a sync list.
#[derive(Clone, Debug)]
pub struct SyncListContact {
    pub id: i64,
    pub list_id: i64,
    pub entity_type: String,
    pub entity_id: i64,
    pub standing: i64,
}

/// A sync list: its contacts, id, name and the characters it is pushed to.
#[derive(Clone, Debug)]
pub struct ListModel {
    pub contacts: Vec<SyncListContact>,
    pub id: i64,
    pub name: String,
    pub target_ids: Vec<i64>,
}

/// The kind of entity the contact picker found.
#[derive(Clone, Copy, Debug, PartialEq, Eq, Structural)]
pub enum EntityKind {
    Alliance,
    Character,
    Corporation,
    SolarSystem,
    Station,
}

/// The contact type a picked entity is stored as: alliances and corporations as themselves,
/// everything else as a character, the only other type a contact can have.
pub fn entity_type_str(kind: EntityKind) -> (r: &'static str)
    ensures
        r@ == (match kind {
            EntityKind::Alliance => "alliance"@,
            EntityKind::Corporation => "corporation"@,
            _ => "character"@,
        }),
{
    match kind {
        EntityKind::Alliance => "alliance",
        EntityKind::Corporation => "corporation",
        EntityKind::Character | EntityKind::SolarSystem | EntityKind::Station => "character",
    }
}

/// The kind of image a contact type shows: a logo for alliances and corporations, a portrait
/// otherwise.
pub fn image_kind(entity_type: &str) -> (r: crate::entity_search::ImageKind)
    ensures
        r == (if entity_type@ == "alliance"@ {
            crate::entity_search::ImageKind::AllianceLogo
        } else if entity_type@ == "corporation"@ {
            crate::entity_search::ImageKind::CorporationLogo
        } else {
            crate::entity_search::ImageKind::CharacterPortrait
        }),
{
    if str_eq(entity_type, "alliance") {
        crate::entity_search::ImageKind::AllianceLogo
    } else if str_eq(entity_type, "corporation") {
        crate::entity_search::ImageKind::CorporationLogo
    } else {
        crate::entity_search::ImageKind::CharacterPortrait
    }
}

/// The line under a pilot's name: up to three of its tags joined by a middle dot, else its
/// corporation.
pub fn pilot_subtitle(tags: &Vec<String>, corporation: String) -> (r: String)
    ensures
        tags@.len() == 0 ==> r@ == corporation@,
        tags@.len() > 0 ==> r@ == joined(
            tags@.take(if tags@.len() < 3 { tags@.len() as int } else { 3 }).map_values(|t: String| t@),
            " \u{b7} "@,
        ),
{
    if tags.len() == 0 {
        return corporation;
    }
    let n: usize = if tags.len() < 3 { tags.len() } else { 3 };
    let mut shown: Vec<String> = Vec::new();
    let mut i: usize = 0;
    while i < n
        invariant
            i <= n,
            n <= tags.len(),
            shown@.map_values(|t: String| t@) == tags@.take(i as int).map_values(|t: String| t@),
        decreases n - i,
    {
        let ghost before = shown@;
        shown.push(tags[i].clone());
        assert(shown@ == before.push(tags@[i as int]));
        assert(shown@.map_values(|t: String| t@) =~= before.map_values(|t: String| t@).push(tags@[i as int]@));
        assert(tags@.take(i + 1).map_values(|t: String| t@) =~= tags@.take(i as int).map_values(|t: String| t@).push(tags@[i as int]@));
        i = i + 1;
    }
    join_strings(&shown, " \u{b7} ")
}

/// The name stored for `id` among `names`, by the first entry for it.
pub open spec fn name_of(names: Seq<(i64, String)>, id: i64) -> Option<Seq<char>>
    decreases names.len(),
{
    if names.len() == 0 {
        None
    } else if names[0].0 == id {
        Some(names[0].1@)
    } else {
        name_of(names.drop_first(), id)
    }
}

/// The position of the first list with id `id`.
pub open spec fn list_index(lists: Seq<ListModel>, id: i64) -> Option<int> {
    if exists|k: int| 0 <= k < lists.len() && lists[k].id == id {
        Some(choose|k: int| 0 <= k < lists.len() && lists[k].id == id && forall|j: int| 0 <= j < k ==> lists[j].id != id)
    } else {
        None
    }
}

/// The first list with id `id` is the one `list_index` names.
pub proof fn lemma_first_list(lists: Seq<ListModel>, id: i64, k: int)
    requires
        0 <= k < lists.len(),
        lists[k].id == id,
        forall|j: int| 0 <= j < k ==> lists[j].id != id,
    ensures
        list_index(lists, id) == Some(k),
{
    let c = choose|c: int| 0 <= c < lists.len() && lists[c].id == id && forall|j: int| 0 <= j < c ==> lists[j].id != id;
    if c < k {
        assert(lists[c].id != id);
    } else if c > k {
        assert(lists[k].id != id);
    }
}

/// The lists other than those with id `id`, in order.
pub open spec fn without_list(lists: Seq<ListModel>, id: i64) -> Seq<ListModel>
    decreases lists.len(),
{
    if lists.len() == 0 {
        seq![]
    } else if lists.last().id == id {
        without_list(lists.drop_last(), id)
    } else {
        without_list(lists.drop_last(), id).push(lists.last())
    }
}

/// The position of the first `x` in `s`.
pub open spec fn first_index(s: Seq<i64>, x: i64) -> int {
    choose|p: int| 0 <= p < s.len() && s[p] == x && forall|j: int| 0 <= j < p ==> s[j] != x
}

/// The targets after toggling `character_id`: its first occurrence removed when present,
/// added at the end otherwise.
pub open spec fn toggled_targets(targets: Seq<i64>, character_id: i64) -> Seq<i64> {
    if targets.contains(character_id) {
        targets.remove(first_index(targets, character_id))
    } else {
        targets.push(character_id)
    }
}

/// An entity the contact dialog picked, with the standing set for it.
#[derive(Clone, Debug)]
pub struct PickedContact {
    pub entity_id: i64,
    pub kind: EntityKind,
    pub name: String,
    pub standing: i64,
}

/// The contact dialog: the entity names an add leaves out of its search, and the entity picked
/// so far.
#[derive(Clone, Debug)]
pub struct ContactModal {
    pub exclude: Vec<String>,
    pub picked: Option<PickedContact>,
}

/// The sync lists screen: the lists, the list open in the editor, the list whose delete
/// awaits confirmation, and the known entity names; and for the open list's contact table, the
/// contact whose delete awaits confirmation (by entity type and id), the contact dialog, the
/// type filter, the sort and the search text.
#[derive(Clone, Debug)]
pub struct State {
    lists: Vec<ListModel>,
    editing: Option<i64>,
    list_delete: Option<i64>,
    names: Vec<(i64, String)>,
    contact_delete: Option<(String, i64)>,
    contact_modal: Option<ContactModal>,
    contact_filter: ContactFilter,
    contact_sort: ContactSort,
    contacts_query: String,
}

/// The position of the list open in the editor, when one is open and loaded.
pub open spec fn open_list(s: State) -> Option<int> {
    match s.spec_editing() {
        Some(id) => list_index(s.spec_lists(), id),
        None => None,
    }
}

/// The contact table's delete confirmation, dialog, filter, sort and search stayed.
pub open spec fn table_kept(a: State, b: State) -> bool {
    &&& b.spec_contact_delete() == a.spec_contact_delete()
    &&& b.spec_contact_modal() == a.spec_contact_modal()
    &&& b.spec_contact_filter() == a.spec_contact_filter()
    &&& b.spec_contact_sort() == a.spec_contact_sort()
    &&& b.spec_contacts_query() == a.spec_contacts_query()
}

/// The editor opened on a list starts its table unfiltered, in the default sort, without a
/// search; the delete confirmation and dialog stay.
pub open spec fn table_reset(a: State, b: State) -> bool {
    &&& b.spec_contact_delete() == a.spec_contact_delete()
    &&& b.spec_contact_modal() == a.spec_contact_modal()
    &&& b.spec_contact_filter() == ContactFilter::All
    &&& b.spec_contact_sort() == (ContactSort { column: SortColumn::Standing, direction: SortDirection::Descending })
    &&& b.spec_contacts_query().len() == 0
}

/// Closing the editor drops the contact delete confirmation and the dialog; the filter, sort
/// and search stay.
pub open spec fn table_closed(a: State, b: State) -> bool {
    &&& b.spec_contact_delete() is None
    &&& b.spec_contact_modal() is None
    &&& b.spec_contact_filter() == a.spec_contact_filter()
    &&& b.spec_contact_sort() == a.spec_contact_sort()
    &&& b.spec_contacts_query() == a.spec_contacts_query()
}

/// The lists, the open editor, the pending list delete and the names stayed.
pub open spec fn same_lists(a: State, b: State) -> bool {
    &&& b.spec_lists() == a.spec_lists()
    &&& b.spec_editing() == a.spec_editing()
    &&& b.spec_list_delete() == a.spec_list_delete()
    &&& b.spec_names() == a.spec_names()
}

/// Nothing on the screen changed.
pub open spec fn same_screen(a: State, b: State) -> bool {
    &&& table_kept(a, b)
    &&& same_lists(a, b)
}

/// Only list `k` may differ, and it keeps its id; the contact table stays.
pub open spec fn only_list_changed(a: State, b: State, k: int) -> bool {
    &&& table_kept(a, b)
    &&& list_changed(a, b, k)
}

/// Of the lists, only list `k` may differ, and it keeps its id; the open editor, the pending
/// list delete and the names stay.
pub open spec fn list_changed(a: State, b: State, k: int) -> bool {
    &&& b.spec_editing() == a.spec_editing()
    &&& b.spec_list_delete() == a.spec_list_delete()
    &&& b.spec_names() == a.spec_names()
    &&& b.spec_lists().len() == a.spec_lists().len()
    &&& b.spec_lists()[k].id == a.spec_lists()[k].id
    &&& forall|j: int| 0 <= j < a.spec_lists().len() && j != k ==> b.spec_lists()[j] == a.spec_lists()[j]
}

/// A created list joins the lists at the end, empty, and opens in the editor.
pub open spec fn list_added(a: State, id: i64, name: Seq<char>, b: State) -> bool {
    &&& b.spec_lists().len() == a.spec_lists().len() + 1
    &&& b.spec_lists().drop_last() == a.spec_lists()
    &&& b.spec_lists().last().id == id
    &&& b.spec_lists().last().name@ == name
    &&& b.spec_lists().last().contacts@.len() == 0
    &&& b.spec_lists().last().target_ids@.len() == 0
    &&& b.spec_editing() == Some(id)
    &&& b.spec_list_delete() == a.spec_list_delete()
    &&& b.spec_names() == a.spec_names()
    &&& table_reset(a, b)
}

/// A rename of the list open in the editor to `name`: its name changes and its id and new
/// name are returned to store; without an open list nothing changes and nothing is returned.
pub open spec fn renamed(a: State, name: Seq<char>, b: State, r: Option<(i64, String)>) -> bool {
    match open_list(a) {
        Some(k) => {
            &&& r matches Some((id, stored)) && id == a.spec_lists()[k].id && stored@ == name
            &&& only_list_changed(a, b, k)
            &&& b.spec_lists()[k].name@ == name
            &&& b.spec_lists()[k].target_ids@ == a.spec_lists()[k].target_ids@
            &&& b.spec_lists()[k].contacts@ == a.spec_lists()[k].contacts@
        },
        None => r is None && same_screen(a, b),
    }
}

/// A toggle of `character_id` among the targets of the list open in the editor: its targets
/// change and its id and new targets are returned to store; without an open list nothing
/// changes and nothing is returned.
pub open spec fn targets_toggled(a: State, character_id: i64, b: State, r: Option<(i64, Vec<i64>)>) -> bool {
    match open_list(a) {
        Some(k) => {
            &&& r matches Some((id, targets)) && id == a.spec_lists()[k].id
                && targets@ == toggled_targets(a.spec_lists()[k].target_ids@, character_id)
            &&& only_list_changed(a, b, k)
            &&& b.spec_lists()[k].target_ids@ == toggled_targets(a.spec_lists()[k].target_ids@, character_id)
            &&& b.spec_lists()[k].name@ == a.spec_lists()[k].name@
            &&& b.spec_lists()[k].contacts@ == a.spec_lists()[k].contacts@
        },
        None => r is None && same_screen(a, b),
    }
}

/// A stored contact replaces the one for its entity in its list, or joins the list at the
/// end; a contact of a list that is not loaded changes nothing.
pub open spec fn contact_stored(a: State, contact: SyncListContact, b: State) -> bool {
    match list_index(a.spec_lists(), contact.list_id) {
        Some(k) => {
            &&& only_list_changed(a, b, k)
            &&& b.spec_lists()[k].contacts@ == upserted(a.spec_lists()[k].contacts@, contact)
            &&& b.spec_lists()[k].name@ == a.spec_lists()[k].name@
            &&& b.spec_lists()[k].target_ids@ == a.spec_lists()[k].target_ids@
        },
        None => same_screen(a, b),
    }
}

/// The contact for (`entity_type`, `entity_id`) leaves the list open in the editor and its
/// stored row id is returned to delete; without an open list or such a contact nothing changes.
pub open spec fn contact_removed(a: State, entity_type: Seq<char>, entity_id: i64, b: State, r: Option<i64>) -> bool {
    match open_list(a) {
        Some(k) => match contact_index(a.spec_lists()[k].contacts@, entity_type, entity_id) {
            Some(p) => {
                &&& r == Some(a.spec_lists()[k].contacts@[p].id)
                &&& list_changed(a, b, k)
                &&& b.spec_lists()[k].contacts@ == a.spec_lists()[k].contacts@.remove(p)
                &&& b.spec_lists()[k].name@ == a.spec_lists()[k].name@
                &&& b.spec_lists()[k].target_ids@ == a.spec_lists()[k].target_ids@
            },
            None => r is None && same_lists(a, b),
        },
        None => r is None && same_lists(a, b),
    }
}

/// A confirmed delete: the pending list leaves the lists, its editor closes when it was open,
/// and its id is returned to delete from storage; without a pending delete nothing changes.
pub open spec fn delete_confirmed(a: State, b: State, r: Option<i64>) -> bool {
    &&& r == a.spec_list_delete()
    &&& b.spec_list_delete() is None
    &&& b.spec_names() == a.spec_names()
    &&& match r {
        Some(id) => {
            &&& b.spec_lists() == without_list(a.spec_lists(), id)
            &&& if a.spec_editing() == Some(id) {
                b.spec_editing() is None && table_closed(a, b)
            } else {
                b.spec_editing() == a.spec_editing() && table_kept(a, b)
            }
        },
        None => b.spec_lists() == a.spec_lists() && b.spec_editing() == a.spec_editing() && table_kept(a, b),
    }
}

fn find_list(lists: &Vec<ListModel>, id: i64) -> (r: Option<usize>)
    ensures
        match r {
            Some(k) => k < lists@.len() && lists@[k as int].id == id && forall|j: int| 0 <= j < k ==> lists@[j].id != id,
            None => forall|j: int| 0 <= j < lists@.len() ==> lists@[j].id != id,
        },
{
    let mut i: usize = 0;
    while i < lists.len()
        invariant
            i <= lists.len(),
            forall|j: int| 0 <= j < i ==> lists@[j].id != id,
        decreases lists.len() - i,
    {
        if lists[i].id == id {
            return Some(i);
        }
        i = i + 1;
    }
    None
}

fn position_of(v: &Vec<i64>, x: i64) -> (r: Option<usize>)
    ensures
        match r {
            Some(p) => p < v@.len() && v@[p as int] == x && forall|j: int| 0 <= j < p ==> v@[j] != x,
            None => !v@.contains(x),
        },
{
    let mut i: usize = 0;
    while i < v.len()
        invariant
            i <= v.len(),
            forall|j: int| 0 <= j < i ==> v@[j] != x,
        decreases v.len() - i,
    {
        if v[i] == x {
            return Some(i);
        }
        i = i + 1;
    }
    None
}

impl State {
    pub closed spec fn spec_lists(self) -> Seq<ListModel> {
        self.lists@
    }

    pub closed spec fn spec_editing(self) -> Option<i64> {
        self.editing
    }

    pub closed spec fn spec_list_delete(self) -> Option<i64> {
        self.list_delete
    }

    pub closed spec fn spec_names(self) -> Seq<(i64, String)> {
        self.names@
    }

    pub closed spec fn spec_contact_delete(self) -> Option<(String, i64)> {
        self.contact_delete
    }

    pub closed spec fn spec_contact_modal(self) -> Option<ContactModal> {
        self.contact_modal
    }

    pub closed spec fn spec_contact_filter(self) -> ContactFilter {
        self.contact_filter
    }

    pub closed spec fn spec_contact_sort(self) -> ContactSort {
        self.contact_sort
    }

    pub closed spec fn spec_contacts_query(self) -> Seq<char> {
        self.contacts_query@
    }

    /// No lists, nothing open.
    pub fn new() -> (r: State)
        ensures
            r.spec_lists().len() == 0,
            r.spec_editing() is None,
            r.spec_list_delete() is None,
            r.spec_names().len() == 0,
            r.spec_contact_delete() is None,
            r.spec_contact_modal() is None,
            r.spec_contact_filter() == ContactFilter::All,
            r.spec_contact_sort() == (ContactSort { column: SortColumn::Standing, direction: SortDirection::Descending }),
            r.spec_contacts_query().len() == 0,
    {
        State {
            lists: Vec::new(),
            editing: None,
            list_delete: None,
            names: Vec::new(),
            contact_delete: None,
            contact_modal: None,
            contact_filter: ContactFilter::All,
            contact_sort: ContactSort::default(),
            contacts_query: String::new(),
        }
    }

    /// Installs freshly loaded lists and names.
    pub fn install(&mut self, lists: Vec<ListModel>, names: Vec<(i64, String)>)
        ensures
            final(self).spec_lists() == lists@,
            final(self).spec_names() == names@,
            final(self).spec_editing() == old(self).spec_editing(),
            final(self).spec_list_delete() == old(self).spec_list_delete(),
            table_kept(*old(self), *final(self)),
    {
        self.lists = lists;
        self.names = names;
    }

    /// The lists, in order.
    pub fn lists(&self) -> (r: &Vec<ListModel>)
        ensures
            r@ == self.spec_lists(),
    {
        &self.lists
    }

    /// The list open in the editor.
    pub fn editing(&self) -> (r: Option<i64>)
        ensures
            r == self.spec_editing(),
    {
        self.editing
    }

    /// The list whose delete awaits confirmation.
    pub fn list_delete(&self) -> (r: Option<i64>)
        ensures
            r == self.spec_list_delete(),
    {
        self.list_delete
    }

    /// The list open in the editor, when it exists.
    pub fn editing_list(&self) -> (r: Option<&ListModel>)
        ensures
            match self.spec_editing() {
                Some(id) => match r {
                    Some(l) => exists|k: int| 0 <= k < self.spec_lists().len() && self.spec_lists()[k] == *l
                        && l.id == id && forall|j: int| 0 <= j < k ==> self.spec_lists()[j].id != id,
                    None => forall|j: int| 0 <= j < self.spec_lists().len() ==> self.spec_lists()[j].id != id,
                },
                None => r is None,
            },
    {
        match self.editing {
            Some(id) => match find_list(&self.lists, id) {
                Some(k) => {
                    assert(self.spec_lists()[k as int] == self.lists@[k as int]);
                    Some(&self.lists[k])
                },
                None => None,
            },
            None => None,
        }
    }

    /// The name shown for an entity: its known name, else `#` and its id.
    pub fn entity_name(&self, entity_id: i64) -> (r: String)
        ensures
            r@ == (match name_of(self.spec_names(), entity_id) {
                Some(n) => n,
                None => "#"@ + signed_decimal(entity_id as int),
            }),
    {
        let mut i: usize = 0;
        assert(self.names@.skip(0) =~= self.names@);
        while i < self.names.len()
            invariant
                i <= self.names.len(),
                name_of(self.names@, entity_id) == name_of(self.names@.skip(i as int), entity_id),
            decreases self.names.len() - i,
        {
            assert(self.names@.skip(i as int).drop_first() =~= self.names@.skip(i + 1));
            if self.names[i].0 == entity_id {
                assert(self.names@.skip(i as int)[0] == self.names@[i as int]);
                return self.names[i].1.clone();
            }
            i = i + 1;
        }
        let mut v: Vec<char> = Vec::new();
        push_str(&mut v, "#");
        let mut digits = signed_decimal_chars(entity_id);
        v.append(&mut digits);
        string_from_chars(&v)
    }

    /// Remembers the name of an entity the pilot just picked, ahead of earlier ones.
    pub fn remember_name(&mut self, entity_id: i64, name: String)
        ensures
            name_of(final(self).spec_names(), entity_id) == Some(name@),
            forall|id: i64| id != entity_id ==> name_of(final(self).spec_names(), id) == name_of(old(self).spec_names(), id),
            final(self).spec_lists() == old(self).spec_lists(),
            final(self).spec_editing() == old(self).spec_editing(),
            final(self).spec_list_delete() == old(self).spec_list_delete(),
            table_kept(*old(self), *final(self)),
    {
        let ghost before = self.names@;
        self.names.insert(0, (entity_id, name));
        assert(self.names@.drop_first() =~= before);
    }

    /// Opens list `id` in the editor, its table unfiltered, in the default sort, unsearched.
    pub fn open_editor(&mut self, id: i64)
        ensures
            final(self).spec_editing() == Some(id),
            final(self).spec_lists() == old(self).spec_lists(),
            final(self).spec_list_delete() == old(self).spec_list_delete(),
            final(self).spec_names() == old(self).spec_names(),
            table_reset(*old(self), *final(self)),
    {
        self.contact_filter = ContactFilter::All;
        self.contact_sort = ContactSort::default();
        self.contacts_query = String::new();
        self.editing = Some(id);
    }

    /// Closes the editor, with its contact delete confirmation and dialog.
    pub fn close_editor(&mut self)
        ensures
            final(self).spec_editing() is None,
            final(self).spec_lists() == old(self).spec_lists(),
            final(self).spec_list_delete() == old(self).spec_list_delete(),
            final(self).spec_names() == old(self).spec_names(),
            table_closed(*old(self), *final(self)),
    {
        self.contact_delete = None;
        self.contact_modal = None;
        self.editing = None;
    }

    /// A list was created: it joins the lists, empty, and opens in the editor.
    pub fn list_created(&mut self, id: i64, name: String)
        ensures
            list_added(*old(self), id, name@, *final(self)),
    {
        let ghost before = self.lists@;
        self.lists.push(ListModel { contacts: Vec::new(), id, name, target_ids: Vec::new() });
        assert(self.lists@.drop_last() =~= before);
        self.open_editor(id);
    }

    /// The pilot asked to delete list `id`; it waits for confirmation.
    pub fn request_list_delete(&mut self, id: i64)
        ensures
            final(self).spec_list_delete() == Some(id),
            final(self).spec_lists() == old(self).spec_lists(),
            final(self).spec_editing() == old(self).spec_editing(),
            final(self).spec_names() == old(self).spec_names(),
            table_kept(*old(self), *final(self)),
    {
        self.list_delete = Some(id);
    }

    /// The pilot backed out of the delete.
    pub fn cancel_list_delete(&mut self)
        ensures
            final(self).spec_list_delete() is None,
            final(self).spec_lists() == old(self).spec_lists(),
            final(self).spec_editing() == old(self).spec_editing(),
            final(self).spec_names() == old(self).spec_names(),
            table_kept(*old(self), *final(self)),
    {
        self.list_delete = None;
    }

    /// The pilot confirmed the delete: the list leaves the lists, its editor closes when it
    /// was open, and its id is returned to delete from storage. Without a pending delete,
    /// nothing changes.
    pub fn confirm_list_delete(&mut self) -> (r: Option<i64>)
        ensures
            delete_confirmed(*old(self), *final(self), r),
    {
        let id = match self.list_delete {
            Some(id) => id,
            None => return None,
        };
        self.list_delete = None;
        let ghost start = self.lists@;
        let mut kept: Vec<ListModel> = Vec::new();
        let mut remaining: Vec<ListModel> = Vec::new();
        std::mem::swap(&mut remaining, &mut self.lists);
        let ghost orig = remaining@;
        while remaining.len() > 0
            invariant
                orig == start,
                remaining@ == orig.skip(orig.len() - remaining@.len()),
                remaining@.len() <= orig.len(),
                kept@ == without_list(orig.take(orig.len() - remaining@.len()), id),
            decreases remaining@.len(),
        {
            let ghost k = orig.len() - remaining@.len();
            let list = remaining.remove(0);
            assert(list == orig[k]);
            assert(orig.take(k + 1).drop_last() =~= orig.take(k));
            if list.id != id {
                kept.push(list);
            }
            assert(remaining@ =~= orig.skip(k + 1));
        }
        assert(orig.take(orig.len() as int) =~= orig);
        self.lists = kept;
        match self.editing {
            Some(e) => {
                if e == id {
                    self.close_editor();
                }
            },
            None => {},
        }
        Some(id)
    }

    /// Renames the list open in the editor; returns its id and new name to store. Without an
    /// open list, nothing changes.
    pub fn rename_editing(&mut self, name: String) -> (r: Option<(i64, String)>)
        ensures
            renamed(*old(self), name@, *final(self), r),
    {
        let id = match self.editing {
            Some(id) => id,
            None => return None,
        };
        let k = match find_list(&self.lists, id) {
            Some(k) => k,
            None => return None,
        };
        let stored = name.clone();
        let ghost before = self.lists@;
        let mut list = self.lists.remove(k);
        assert(list == before[k as int]);
        list.name = name;
        let ghost updated = list;
        self.lists.insert(k, list);
        assert(self.lists@ == before.remove(k as int).insert(k as int, updated));
        assert(self.lists@[k as int] == updated);
        assert forall|j: int| 0 <= j < self.lists@.len() && j != k implies self.lists@[j] == before[j] by {
            if j < k {
                assert(before.remove(k as int)[j] == before[j]);
            } else {
                assert(before.remove(k as int)[j - 1] == before[j]);
            }
        }
        assert(old(self).spec_lists()[k as int].id == id);
        assert(self.spec_lists()[k as int].name@ == name@);
        assert(self.spec_lists()[k as int].target_ids@ == old(self).spec_lists()[k as int].target_ids@);
        assert(self.spec_lists()[k as int].contacts@ == old(self).spec_lists()[k as int].contacts@);
        assert(forall|j: int| 0 <= j < self.spec_lists().len() && j != k ==> self.spec_lists()[j] == old(self).spec_lists()[j]);
        Some((id, stored))
    }

    /// Adds or removes `character_id` among the targets of the list open in the editor;
    /// returns the list's id and its new targets to store. Without an open list, nothing
    /// changes.
    pub fn toggle_target(&mut self, character_id: i64) -> (r: Option<(i64, Vec<i64>)>)
        ensures
            targets_toggled(*old(self), character_id, *final(self), r),
    {
        let id = match self.editing {
            Some(id) => id,
            None => return None,
        };
        let k = match find_list(&self.lists, id) {
            Some(k) => k,
            None => return None,
        };
        let ghost before = self.lists@;
        let mut list = self.lists.remove(k);
        assert(list == before[k as int]);
        let ghost old_targets = list.target_ids@;
        match position_of(&list.target_ids, character_id) {
            Some(p) => {
                assert(old_targets[p as int] == character_id);
                proof {
                    let q = first_index(old_targets, character_id);
                    assert(old_targets.contains(character_id));
                    assert(0 <= q < old_targets.len() && old_targets[q] == character_id);
                    if q < p {
                        assert(old_targets[q] != character_id);
                    }
                    if q > p {
                        assert(old_targets[p as int] != character_id);
                    }
                }
                list.target_ids.remove(p);
            },
            None => {
                assert(!old_targets.contains(character_id));
                list.target_ids.push(character_id);
            },
        }
        let targets = list.target_ids.clone();
        let ghost updated = list;
        self.lists.insert(k, list);
        assert(self.lists@ == before.remove(k as int).insert(k as int, updated));
        assert(self.lists@[k as int] == updated);
        assert forall|j: int| 0 <= j < self.lists@.len() && j != k implies self.lists@[j] == before[j] by {
            if j < k {
                assert(before.remove(k as int)[j] == before[j]);
            } else {
                assert(before.remove(k as int)[j - 1] == before[j]);
            }
        }
        assert(old(self).spec_lists()[k as int].id == id);
        assert(self.spec_lists()[k as int].target_ids@ == targets@);
        assert(targets@ == toggled_targets(old(self).spec_lists()[k as int].target_ids@, character_id));
        assert(forall|j: int| 0 <= j < self.spec_lists().len() && j != k ==> self.spec_lists()[j] == old(self).spec_lists()[j]);
        Some((id, targets))
    }
}

/// The position of the first contact of `contacts` for the entity (`entity_type`, `entity_id`).
pub open spec fn contact_index(contacts: Seq<SyncListContact>, entity_type: Seq<char>, entity_id: i64) -> Option<int> {
    if exists|p: int| 0 <= p < contacts.len() && contacts[p].entity_type@ == entity_type && contacts[p].entity_id == entity_id {
        Some(choose|p: int| 0 <= p < contacts.len() && contacts[p].entity_type@ == entity_type && contacts[p].entity_id == entity_id
            && forall|j: int| 0 <= j < p ==> !(contacts[j].entity_type@ == entity_type && contacts[j].entity_id == entity_id))
    } else {
        None
    }
}

/// A list's contacts after a contact for their entity was stored: it replaces the first one
/// for the same entity, or joins at the end.
pub open spec fn upserted(contacts: Seq<SyncListContact>, contact: SyncListContact) -> Seq<SyncListContact> {
    match contact_index(contacts, contact.entity_type@, contact.entity_id) {
        Some(p) => contacts.update(p, contact),
        None => contacts.push(contact),
    }
}

fn find_contact(contacts: &Vec<SyncListContact>, entity_type: &str, entity_id: i64) -> (r: Option<usize>)
    ensures
        match r {
            Some(p) => p < contacts@.len() && contact_index(contacts@, entity_type@, entity_id) == Some(p as int),
            None => contact_index(contacts@, entity_type@, entity_id) is None,
        },
{
    let mut i: usize = 0;
    while i < contacts.len()
        invariant
            i <= contacts.len(),
            forall|j: int| 0 <= j < i ==> !(contacts@[j].entity_type@ == entity_type@ && contacts@[j].entity_id == entity_id),
        decreases contacts.len() - i,
    {
        if contacts[i].entity_id == entity_id && str_eq(contacts[i].entity_type.as_str(), entity_type) {
            proof {
                let q = choose|p: int| 0 <= p < contacts@.len() && contacts@[p].entity_type@ == entity_type@ && contacts@[p].entity_id == entity_id
                    && forall|j: int| 0 <= j < p ==> !(contacts@[j].entity_type@ == entity_type@ && contacts@[j].entity_id == entity_id);
                assert(contacts@[i as int].entity_type@ == entity_type@);
                if q < i {
                } else if q > i {
                    assert(!(contacts@[i as int].entity_type@ == entity_type@ && contacts@[i as int].entity_id == entity_id));
                }
            }
            return Some(i);
        }
        i = i + 1;
    }
    None
}

impl State {
    /// A contact was stored: it replaces the contact for the same entity in its list, or joins
    /// the list at the end. A contact of a list that is not loaded changes nothing.
    pub fn contact_added(&mut self, contact: SyncListContact)
        ensures
            contact_stored(*old(self), contact, *final(self)),
    {
        let k = match find_list(&self.lists, contact.list_id) {
            Some(k) => k,
            None => {
                proof {
                    assert forall|k: int| 0 <= k < old(self).spec_lists().len() implies list_index(old(self).spec_lists(), contact.list_id) != Some(k) by {
                    }
                }
                return;
            },
        };
        proof {
            let q = list_index(self.lists@, contact.list_id).unwrap();
            assert(self.lists@[k as int].id == contact.list_id);
            if q < k {
            } else if q > k {
                assert(self.lists@[k as int].id != contact.list_id);
            }
        }
        let ghost before = self.lists@;
        let mut list = self.lists.remove(k);
        assert(list == before[k as int]);
        let ghost old_contacts = list.contacts@;
        match find_contact(&list.contacts, contact.entity_type.as_str(), contact.entity_id) {
            Some(p) => {
                list.contacts.set(p, contact);
            },
            None => {
                list.contacts.push(contact);
            },
        }
        assert(list.contacts@ == upserted(old_contacts, contact));
        let ghost updated = list;
        self.lists.insert(k, list);
        assert(self.lists@ == before.remove(k as int).insert(k as int, updated));
        assert forall|j: int| 0 <= j < before.len() && j != k implies self.lists@[j] == before[j] by {
            if j < k {
                assert(before.remove(k as int)[j] == before[j]);
            } else {
                assert(before.remove(k as int)[j - 1] == before[j]);
            }
        }
    }

    /// The pilot confirmed deleting the contact for (`entity_type`, `entity_id`) from the list
    /// open in the editor: it leaves the list, and its stored row id is returned to delete.
    /// Without an open list or such a contact, nothing changes.
    pub fn remove_contact(&mut self, entity_type: &str, entity_id: i64) -> (r: Option<i64>)
        ensures
            contact_removed(*old(self), entity_type@, entity_id, *final(self), r),
            table_kept(*old(self), *final(self)),
    {
        let id = match self.editing {
            Some(id) => id,
            None => return None,
        };
        let k = match find_list(&self.lists, id) {
            Some(k) => k,
            None => return None,
        };
        let p = match find_contact(&self.lists[k].contacts, entity_type, entity_id) {
            Some(p) => p,
            None => return None,
        };
        proof {
            let q = list_index(self.lists@, id).unwrap();
            if q < k {
            } else if q > k {
                assert(self.lists@[k as int].id != id);
            }
        }
        let ghost before = self.lists@;
        let mut list = self.lists.remove(k);
        assert(list == before[k as int]);
        let row_id = list.contacts[p].id;
        list.contacts.remove(p);
        let ghost updated = list;
        self.lists.insert(k, list);
        assert(self.lists@ == before.remove(k as int).insert(k as int, updated));
        assert(self.lists@[k as int] == updated);
        assert forall|j: int| 0 <= j < before.len() && j != k implies self.lists@[j] == before[j] by {
            if j < k {
                assert(before.remove(k as int)[j] == before[j]);
            } else {
                assert(before.remove(k as int)[j - 1] == before[j]);
            }
        }
        assert(old(self).spec_lists()[k as int].id == id);
        Some(row_id)
    }
}

/// What reaches the sync lists screen.
#[derive(Debug)]
pub enum Message {
    ContactAdded(Result<SyncListContact, String>),
    CreateList,
    EditorClosed,
    Exit,
    /// A list was created: its id and name, or why it failed.
    ListCreated(Result<(i64, String), String>),
    ListDeleteCancelled,
    ListDeleteConfirmed,
    ListDeleteRequested(i64),
    ListOpened(i64),
    /// The lists and the entity names read at load.
    Loaded(Vec<ListModel>, Vec<(i64, String)>),
    NameChanged(String),
    Persisted(Result<(), String>),
    TargetToggled(i64),
}

/// What the caller writes to storage after a message.
#[derive(Debug)]
pub enum Effect {
    Nothing,
    /// Create a list under the default name for a new list.
    CreateList,
    DeleteList(i64),
    RenameList { id: i64, name: String },
    SetTargets { id: i64, targets: Vec<i64> },
    /// Store a contact in list `list_id`, or update the one for its entity.
    AddContact { list_id: i64, entity_type: String, entity_id: i64, standing: i64 },
    /// Delete the stored contact row with this id.
    RemoveContact(i64),
}

/// The rename an effect asks for.
pub open spec fn rename_of(r: Effect) -> Option<(i64, String)> {
    match r {
        Effect::RenameList { id, name } => Some((id, name)),
        _ => None,
    }
}

/// The targets an effect asks to store.
pub open spec fn targets_of(r: Effect) -> Option<(i64, Vec<i64>)> {
    match r {
        Effect::SetTargets { id, targets } => Some((id, targets)),
        _ => None,
    }
}

/// How the screen answers `message`: the state it moves to and what to write.
pub open spec fn screen_stepped(a: State, message: Message, b: State, r: Effect) -> bool {
    match message {
        Message::ContactAdded(result) => r is Nothing && match result {
            Ok(contact) => contact_stored(a, contact, b),
            Err(_) => same_screen(a, b),
        },
        Message::CreateList => r is CreateList && same_screen(a, b),
        Message::EditorClosed => {
            &&& r is Nothing
            &&& table_closed(a, b)
            &&& b.spec_editing() is None
            &&& b.spec_lists() == a.spec_lists()
            &&& b.spec_list_delete() == a.spec_list_delete()
            &&& b.spec_names() == a.spec_names()
        },
        Message::Exit => r is Nothing && same_screen(a, b),
        Message::ListCreated(result) => r is Nothing && match result {
            Ok((id, name)) => list_added(a, id, name@, b),
            Err(_) => same_screen(a, b),
        },
        Message::ListDeleteCancelled => {
            &&& r is Nothing
            &&& table_kept(a, b)
            &&& b.spec_list_delete() is None
            &&& b.spec_lists() == a.spec_lists()
            &&& b.spec_editing() == a.spec_editing()
            &&& b.spec_names() == a.spec_names()
        },
        Message::ListDeleteConfirmed => {
            &&& delete_confirmed(a, b, a.spec_list_delete())
            &&& r == (match a.spec_list_delete() {
                Some(id) => Effect::DeleteList(id),
                None => Effect::Nothing,
            })
        },
        Message::ListDeleteRequested(id) => {
            &&& r is Nothing
            &&& table_kept(a, b)
            &&& b.spec_list_delete() == Some(id)
            &&& b.spec_lists() == a.spec_lists()
            &&& b.spec_editing() == a.spec_editing()
            &&& b.spec_names() == a.spec_names()
        },
        Message::ListOpened(id) => {
            &&& r is Nothing
            &&& table_reset(a, b)
            &&& b.spec_editing() == Some(id)
            &&& b.spec_lists() == a.spec_lists()
            &&& b.spec_list_delete() == a.spec_list_delete()
            &&& b.spec_names() == a.spec_names()
        },
        Message::Loaded(lists, names) => {
            &&& r is Nothing
            &&& table_kept(a, b)
            &&& b.spec_lists() == lists@
            &&& b.spec_names() == names@
            &&& b.spec_editing() == a.spec_editing()
            &&& b.spec_list_delete() == a.spec_list_delete()
        },
        Message::NameChanged(name) => (r is Nothing || r is RenameList) && renamed(a, name@, b, rename_of(r)),
        Message::Persisted(_) => r is Nothing && same_screen(a, b),
        Message::TargetToggled(character_id) => (r is Nothing || r is SetTargets)
            && targets_toggled(a, character_id, b, targets_of(r)),
    }
}

/// Applies one message to the sync lists screen and says what to write.
pub fn update(state: &mut State, message: Message) -> (r: Effect)
    ensures
        screen_stepped(*old(state), message, *final(state), r),
{
    match message {
        Message::ContactAdded(result) => {
            match result {
                Ok(contact) => state.contact_added(contact),
                Err(_) => {},
            }
            Effect::Nothing
        },
        Message::CreateList => Effect::CreateList,
        Message::EditorClosed => {
            state.close_editor();
            Effect::Nothing
        },
        Message::Exit => Effect::Nothing,
        Message::ListCreated(result) => {
            match result {
                Ok((id, name)) => state.list_created(id, name),
                Err(_) => {},
            }
            Effect::Nothing
        },
        Message::ListDeleteCancelled => {
            state.cancel_list_delete();
            Effect::Nothing
        },
        Message::ListDeleteConfirmed => match state.confirm_list_delete() {
            Some(id) => Effect::DeleteList(id),
            None => Effect::Nothing,
        },
        Message::ListDeleteRequested(id) => {
            state.request_list_delete(id);
            Effect::Nothing
        },
        Message::ListOpened(id) => {
            state.open_editor(id);
            Effect::Nothing
        },
        Message::Loaded(lists, names) => {
            state.install(lists, names);
            Effect::Nothing
        },
        Message::NameChanged(name) => match state.rename_editing(name) {
            Some((id, name)) => Effect::RenameList { id, name },
            None => Effect::Nothing,
        },
        Message::Persisted(_) => Effect::Nothing,
        Message::TargetToggled(character_id) => match state.toggle_target(character_id) {
            Some((id, targets)) => Effect::SetTargets { id, targets },
            None => Effect::Nothing,
        },
    }
}

/// What reaches the contact table of the list open in the editor.
#[derive(Debug)]
pub enum ContactsMessage {
    /// The pilot opened the dialog to add a contact.
    AddOpened,
    DeleteCancelled,
    DeleteConfirmed,
    /// The pilot asked to delete the contact for this entity type and id.
    DeleteRequested { entity_type: String, entity_id: i64 },
    FilterChanged(ContactFilter),
    ModalClosed,
    ModalSubmitted,
    /// The dialog picked an entity and set its standing.
    Picked(PickedContact),
    SearchChanged(String),
    SearchCleared,
    SortChanged(ContactSort),
}

/// The name shown for an entity among `names`: its known name, else `#` and its id.
pub open spec fn shown_name(names: Seq<(i64, String)>, entity_id: i64) -> Seq<char> {
    match name_of(names, entity_id) {
        Some(n) => n,
        None => "#"@ + signed_decimal(entity_id as int),
    }
}

/// The names an add leaves out of its search: those of the open list's contacts, in order,
/// none without an open list.
pub open spec fn exclude_names(s: State) -> Seq<Seq<char>> {
    match open_list(s) {
        Some(k) => s.spec_lists()[k].contacts@.map_values(|c: SyncListContact| shown_name(s.spec_names(), c.entity_id)),
        None => seq![],
    }
}

/// The contact row an effect asks to delete.
pub open spec fn removed_of(r: Effect) -> Option<i64> {
    match r {
        Effect::RemoveContact(id) => Some(id),
        _ => None,
    }
}

/// The entity type a picked kind is stored as.
pub open spec fn stored_type(kind: EntityKind) -> Seq<char> {
    match kind {
        EntityKind::Alliance => "alliance"@,
        EntityKind::Corporation => "corporation"@,
        _ => "character"@,
    }
}

/// Only the dialog may differ among the table's state; the lists, editor and names stay.
pub open spec fn only_modal_changed(a: State, b: State) -> bool {
    &&& same_lists(a, b)
    &&& b.spec_contact_delete() == a.spec_contact_delete()
    &&& b.spec_contact_filter() == a.spec_contact_filter()
    &&& b.spec_contact_sort() == a.spec_contact_sort()
    &&& b.spec_contacts_query() == a.spec_contacts_query()
}

/// How the contact table answers `message`: the state it moves to and what to write.
pub open spec fn contacts_stepped(a: State, message: ContactsMessage, b: State, r: Effect) -> bool {
    match message {
        ContactsMessage::AddOpened => {
            &&& r is Nothing
            &&& only_modal_changed(a, b)
            &&& b.spec_contact_modal() matches Some(m) && m.picked is None
                && m.exclude@.map_values(|n: String| n@) == exclude_names(a)
        },
        ContactsMessage::DeleteCancelled => {
            &&& r is Nothing
            &&& same_lists(a, b)
            &&& b.spec_contact_delete() is None
            &&& b.spec_contact_modal() == a.spec_contact_modal()
            &&& b.spec_contact_filter() == a.spec_contact_filter()
            &&& b.spec_contact_sort() == a.spec_contact_sort()
            &&& b.spec_contacts_query() == a.spec_contacts_query()
        },
        ContactsMessage::DeleteConfirmed => match a.spec_contact_delete() {
            None => r is Nothing && same_screen(a, b),
            Some((entity_type, entity_id)) => {
                &&& (r is Nothing || r is RemoveContact)
                &&& contact_removed(a, entity_type@, entity_id, b, removed_of(r))
                &&& b.spec_contact_delete() is None
                &&& b.spec_contact_modal() == a.spec_contact_modal()
                &&& b.spec_contact_filter() == a.spec_contact_filter()
                &&& b.spec_contact_sort() == a.spec_contact_sort()
                &&& b.spec_contacts_query() == a.spec_contacts_query()
            },
        },
        ContactsMessage::DeleteRequested { entity_type, entity_id } => {
            &&& r is Nothing
            &&& same_lists(a, b)
            &&& b.spec_contact_delete() == Some((entity_type, entity_id))
            &&& b.spec_contact_modal() == a.spec_contact_modal()
            &&& b.spec_contact_filter() == a.spec_contact_filter()
            &&& b.spec_contact_sort() == a.spec_contact_sort()
            &&& b.spec_contacts_query() == a.spec_contacts_query()
        },
        ContactsMessage::FilterChanged(filter) => {
            &&& r is Nothing
            &&& same_lists(a, b)
            &&& b.spec_contact_filter() == filter
            &&& b.spec_contact_delete() == a.spec_contact_delete()
            &&& b.spec_contact_modal() == a.spec_contact_modal()
            &&& b.spec_contact_sort() == a.spec_contact_sort()
            &&& b.spec_contacts_query() == a.spec_contacts_query()
        },
        ContactsMessage::ModalClosed => r is Nothing && only_modal_changed(a, b) && b.spec_contact_modal() is None,
        ContactsMessage::ModalSubmitted => match a.spec_contact_modal() {
            None => r is Nothing && same_screen(a, b),
            Some(m) => {
                &&& b.spec_contact_modal() is None
                &&& b.spec_contact_delete() == a.spec_contact_delete()
                &&& b.spec_contact_filter() == a.spec_contact_filter()
                &&& b.spec_contact_sort() == a.spec_contact_sort()
                &&& b.spec_contacts_query() == a.spec_contacts_query()
                &&& b.spec_lists() == a.spec_lists()
                &&& b.spec_editing() == a.spec_editing()
                &&& b.spec_list_delete() == a.spec_list_delete()
                &&& match (m.picked, a.spec_editing()) {
                    (Some(p), Some(list_id)) => {
                        &&& r matches Effect::AddContact { list_id: l, entity_type: t, entity_id: e, standing: st }
                            && l == list_id && t@ == stored_type(p.kind) && e == p.entity_id && st == p.standing
                        &&& name_of(b.spec_names(), p.entity_id) == Some(p.name@)
                        &&& forall|id: i64| id != p.entity_id ==> name_of(b.spec_names(), id) == name_of(a.spec_names(), id)
                    },
                    _ => r is Nothing && b.spec_names() == a.spec_names(),
                }
            },
        },
        ContactsMessage::Picked(picked) => {
            &&& r is Nothing
            &&& only_modal_changed(a, b)
            &&& match a.spec_contact_modal() {
                Some(m) => b.spec_contact_modal() matches Some(n) && n.exclude == m.exclude && n.picked == Some(picked),
                None => b.spec_contact_modal() is None,
            }
        },
        ContactsMessage::SearchChanged(query) => {
            &&& r is Nothing
            &&& same_lists(a, b)
            &&& b.spec_contacts_query() == query@
            &&& b.spec_contact_delete() == a.spec_contact_delete()
            &&& b.spec_contact_modal() == a.spec_contact_modal()
            &&& b.spec_contact_filter() == a.spec_contact_filter()
            &&& b.spec_contact_sort() == a.spec_contact_sort()
        },
        ContactsMessage::SearchCleared => {
            &&& r is Nothing
            &&& same_lists(a, b)
            &&& b.spec_contacts_query().len() == 0
            &&& b.spec_contact_delete() == a.spec_contact_delete()
            &&& b.spec_contact_modal() == a.spec_contact_modal()
            &&& b.spec_contact_filter() == a.spec_contact_filter()
            &&& b.spec_contact_sort() == a.spec_contact_sort()
        },
        ContactsMessage::SortChanged(sort) => {
            &&& r is Nothing
            &&& same_lists(a, b)
            &&& b.spec_contact_sort() == sort
            &&& b.spec_contact_delete() == a.spec_contact_delete()
            &&& b.spec_contact_modal() == a.spec_contact_modal()
            &&& b.spec_contact_filter() == a.spec_contact_filter()
            &&& b.spec_contacts_query() == a.spec_contacts_query()
        },
    }
}

impl State {
    /// The filter of the open list's contact table.
    pub fn contact_filter(&self) -> (r: ContactFilter)
        ensures
            r == self.spec_contact_filter(),
    {
        self.contact_filter
    }

    /// The sort of the open list's contact table.
    pub fn contact_sort(&self) -> (r: ContactSort)
        ensures
            r == self.spec_contact_sort(),
    {
        self.contact_sort
    }

    /// The search text of the open list's contact table.
    pub fn contacts_query(&self) -> (r: &str)
        ensures
            r@ == self.spec_contacts_query(),
    {
        self.contacts_query.as_str()
    }

    /// The contact whose delete awaits confirmation, by entity type and id.
    pub fn contact_delete(&self) -> (r: Option<&(String, i64)>)
        ensures
            match r {
                Some(d) => self.spec_contact_delete() == Some(*d),
                None => self.spec_contact_delete() is None,
            },
    {
        match &self.contact_delete {
            Some(d) => Some(d),
            None => None,
        }
    }

    /// The contact dialog, when open.
    pub fn contact_modal(&self) -> (r: Option<&ContactModal>)
        ensures
            match r {
                Some(m) => self.spec_contact_modal() == Some(*m),
                None => self.spec_contact_modal() is None,
            },
    {
        match &self.contact_modal {
            Some(m) => Some(m),
            None => None,
        }
    }

    fn exclusions(&self) -> (r: Vec<String>)
        ensures
            r@.map_values(|n: String| n@) == exclude_names(*self),
    {
        let id = match self.editing {
            Some(id) => id,
            None => {
                assert(Seq::<String>::empty().map_values(|n: String| n@) =~= Seq::<Seq<char>>::empty());
                return Vec::new();
            },
        };
        let k = match find_list(&self.lists, id) {
            Some(k) => k,
            None => {
                assert(Seq::<String>::empty().map_values(|n: String| n@) =~= Seq::<Seq<char>>::empty());
                return Vec::new();
            },
        };
        proof {
            lemma_first_list(self.lists@, id, k as int);
        }
        let contacts = &self.lists[k].contacts;
        let mut out: Vec<String> = Vec::new();
        let mut i: usize = 0;
        while i < contacts.len()
            invariant
                i <= contacts@.len(),
                contacts@ == self.spec_lists()[k as int].contacts@,
                out@.map_values(|n: String| n@)
                    == contacts@.take(i as int).map_values(|c: SyncListContact| shown_name(self.spec_names(), c.entity_id)),
            decreases contacts.len() - i,
        {
            let ghost before = out@;
            let name = self.entity_name(contacts[i].entity_id);
            out.push(name);
            assert(out@.map_values(|n: String| n@) =~= before.map_values(|n: String| n@).push(name@));
            assert(contacts@.take(i + 1).map_values(|c: SyncListContact| shown_name(self.spec_names(), c.entity_id))
                =~= contacts@.take(i as int).map_values(|c: SyncListContact| shown_name(self.spec_names(), c.entity_id))
                    .push(shown_name(self.spec_names(), contacts@[i as int].entity_id)));
            i = i + 1;
        }
        assert(contacts@.take(contacts@.len() as int) =~= contacts@);
        out
    }
}

/// Applies one message to the open list's contact table and says what to write.
pub fn update_contacts(state: &mut State, message: ContactsMessage) -> (r: Effect)
    ensures
        contacts_stepped(*old(state), message, *final(state), r),
{
    match message {
        ContactsMessage::AddOpened => {
            let exclude = state.exclusions();
            state.contact_modal = Some(ContactModal { exclude, picked: None });
            Effect::Nothing
        },
        ContactsMessage::DeleteCancelled => {
            state.contact_delete = None;
            Effect::Nothing
        },
        ContactsMessage::DeleteConfirmed => {
            let target = state.contact_delete.take();
            match target {
                None => Effect::Nothing,
                Some((entity_type, entity_id)) => match state.remove_contact(entity_type.as_str(), entity_id) {
                    Some(row_id) => Effect::RemoveContact(row_id),
                    None => Effect::Nothing,
                },
            }
        },
        ContactsMessage::DeleteRequested { entity_type, entity_id } => {
            state.contact_delete = Some((entity_type, entity_id));
            Effect::Nothing
        },
        ContactsMessage::FilterChanged(filter) => {
            state.contact_filter = filter;
            Effect::Nothing
        },
        ContactsMessage::ModalClosed => {
            state.contact_modal = None;
            Effect::Nothing
        },
        ContactsMessage::ModalSubmitted => {
            let modal = state.contact_modal.take();
            match modal {
                None => Effect::Nothing,
                Some(m) => match m.picked {
                    None => Effect::Nothing,
                    Some(p) => match state.editing {
                        None => Effect::Nothing,
                        Some(list_id) => {
                            let entity_type = entity_type_str(p.kind).to_owned();
                            let entity_id = p.entity_id;
                            let standing = p.standing;
                            state.remember_name(entity_id, p.name);
                            Effect::AddContact { list_id, entity_type, entity_id, standing }
                        },
                    },
                },
            }
        },
        ContactsMessage::Picked(picked) => {
            match &mut state.contact_modal {
                Some(m) => {
                    m.picked = Some(picked);
                },
                None => {},
            }
            Effect::Nothing
        },
        ContactsMessage::SearchChanged(query) => {
            state.contacts_query = query;
            Effect::Nothing
        },
        ContactsMessage::SearchCleared => {
            state.contacts_query = String::new();
            Effect::Nothing
        },
        ContactsMessage::SortChanged(sort) => {
            state.contact_sort = sort;
            Effect::Nothing
        },
    }
}

/// No list of `lists` has id `id`.
pub open spec fn id_unused(lists: Seq<ListModel>, id: i64) -> bool {
    forall|j: int| 0 <= j < lists.len() ==> lists[j].id != id
}

proof fn lemma_without_unused(lists: Seq<ListModel>, id: i64)
    requires
        id_unused(lists, id),
    ensures
        without_list(lists, id) == lists,
    decreases lists.len(),
{
    if lists.len() > 0 {
        lemma_without_unused(lists.drop_last(), id);
        assert(lists.drop_last().push(lists.last()) =~= lists);
    }
}

/// Deleting a list right after creating it under a fresh id gives back the lists there were,
/// with the editor it opened closed.
pub proof fn lemma_delete_undoes_create(a: State, b: State, c: State, d: State, id: i64, name: Seq<char>)
    requires
        id_unused(a.spec_lists(), id),
        list_added(a, id, name, b),
        c.spec_list_delete() == Some(id),
        c.spec_lists() == b.spec_lists(),
        c.spec_editing() == b.spec_editing(),
        delete_confirmed(c, d, c.spec_list_delete()),
    ensures
        d.spec_lists() == a.spec_lists(),
        d.spec_editing() is None,
        d.spec_list_delete() is None,
{
    let lists = b.spec_lists();
    assert(lists.drop_last() == a.spec_lists());
    lemma_without_unused(a.spec_lists(), id);
}

/// For a list without repeated targets, toggling the same character twice leaves the set of
/// targets as it was.
pub proof fn lemma_toggle_twice_keeps_targets(targets: Seq<i64>, character_id: i64)
    requires
        targets.no_duplicates(),
    ensures
        toggled_targets(toggled_targets(targets, character_id), character_id).to_set() == targets.to_set(),
{
    let once = toggled_targets(targets, character_id);
    if targets.contains(character_id) {
        let p = first_index(targets, character_id);
        assert(0 <= p < targets.len() && targets[p] == character_id);
        assert(!once.contains(character_id)) by {
            if once.contains(character_id) {
                let j = choose|j: int| 0 <= j < once.len() && once[j] == character_id;
                if j < p {
                    assert(targets[j] == character_id);
                } else {
                    assert(targets[j + 1] == character_id);
                }
            }
        }
        let twice = once.push(character_id);
        assert forall|y: i64| twice.to_set().contains(y) <==> targets.to_set().contains(y) by {
            if twice.to_set().contains(y) && y != character_id {
                let j = choose|j: int| 0 <= j < twice.len() && twice[j] == y;
                if j < p {
                    assert(targets[j] == y);
                } else {
                    assert(targets[j + 1] == y);
                }
            }
            if targets.to_set().contains(y) {
                if y == character_id {
                    assert(twice[twice.len() - 1] == y);
                } else {
                    let j = choose|j: int| 0 <= j < targets.len() && targets[j] == y;
                    if j < p {
                        assert(twice[j] == y);
                    } else {
                        assert(j != p);
                        assert(twice[j - 1] == y);
                    }
                }
            }
        }
        assert(twice.to_set() =~= targets.to_set());
    } else {
        assert(once.contains(character_id)) by {
            assert(once[once.len() - 1] == character_id);
        }
        let q = first_index(once, character_id);
        assert(0 <= q < once.len() && once[q] == character_id);
        if q < targets.len() {
            assert(targets[q] == character_id);
        }
        assert(q == targets.len());
        assert(once.remove(q) =~= targets);
    }
}

/// The title the editor shows for a list: `None` when the name is blank (the screen then says
/// the list is untitled).
pub fn list_title(name: &str) -> (r: Option<String>)
    ensures
        blank(name@) ==> r is None,
        !blank(name@) ==> (r matches Some(t) && t@ == name@),
{
    if is_blank(name) {
        None
    } else {
        Some(name.to_owned())
    }
}

} // verus!
