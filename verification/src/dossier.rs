//! A character's dossier: the purpose and near-term brief, the standing orders with their
//! status and linked objective, the inline editor, and the time left on the skill in training.

use vstd::prelude::*;
use crate::objective_link::{ObjectiveOption, ObjectiveStatus};
use crate::text::{decimal, decimal_chars, push_str, string_from_chars, trimmed, trimmed_chars};

verus! {

/// What the inline editor is editing.
#[derive(Clone, Copy, Debug, PartialEq, Eq, Structural)]
pub enum EditTarget {
    NearTerm,
    Order(i64),
    Purpose,
}

/// Where a standing order stands.
#[derive(Clone, Copy, Debug, PartialEq, Eq, Structural)]
pub enum OrderStatus {
    Active,
    Cancelled,
    Complete,
}

/// A stored standing order.
#[derive(Clone, Debug)]
pub struct DossierOrder {
    pub character_id: i64,
    pub created_at: String,
    pub id: i64,
    pub objective_id: Option<i64>,
    pub position: i64,
    pub status: String,
    pub text: String,
    pub updated_at: String,
}

/// What the dossier shows: the brief, the objectives on offer and the orders.
#[derive(Clone, Debug)]
pub struct Data {
    pub near_term: Option<String>,
    pub objectives: Vec<ObjectiveOption>,
    pub orders: Vec<DossierOrder>,
    pub purpose: Option<String>,
}

impl Data {
    /// Nothing stored yet.
    pub fn empty() -> (r: Data)
        ensures
            r.near_term is None && r.purpose is None,
            r.objectives@.len() == 0 && r.orders@.len() == 0,
    {
        Data { near_term: None, objectives: Vec::new(), orders: Vec::new(), purpose: None }
    }
}

/// What reaches the dossier.
#[derive(Clone, Debug)]
pub enum Message {
    AddOrder,
    CancelEdit,
    ClearObjective(i64),
    CommitEdit,
    DraftChanged(String),
    PickObjective { objective: i64, order: i64 },
    Reloaded(Data),
    RemoveOrder(i64),
    SetStatus { id: i64, status: OrderStatus },
    StartEdit(EditTarget),
    ToggleArchive,
    TogglePicker(i64),
}

/// What a message asks to store before the dossier reloads.
#[derive(Clone, Debug)]
pub enum PersistOp {
    AddOrder,
    Brief { near_term: Option<String>, purpose: Option<String> },
    ClearObjective(i64),
    EditOrder { id: i64, text: String },
    RemoveOrder(i64),
    SetObjective { id: i64, objective: i64 },
    SetStatus { id: i64, status: OrderStatus },
}

/// The dossier's state: what was loaded, the editor's text and target, the order whose
/// objective picker is open, and whether finished orders show.
#[derive(Clone, Debug)]
pub struct State {
    data: Data,
    draft: String,
    editing: Option<EditTarget>,
    picker: Option<i64>,
    show_archive: bool,
}

/// The text of the first order with id `id`.
pub open spec fn order_text(orders: Seq<DossierOrder>, id: i64) -> Option<Seq<char>>
    decreases orders.len(),
{
    if orders.len() == 0 {
        None
    } else if orders[0].id == id {
        Some(orders[0].text@)
    } else {
        order_text(orders.drop_first(), id)
    }
}

/// The text an optional field holds, empty when there is none.
pub open spec fn text_or_empty(value: Option<String>) -> Seq<char> {
    match value {
        Some(s) => s@,
        None => seq![],
    }
}

/// The text the editor opens with for `target`: the field's current value, empty when unset.
pub open spec fn spec_current_value(data: Data, target: EditTarget) -> Seq<char> {
    match target {
        EditTarget::NearTerm => text_or_empty(data.near_term),
        EditTarget::Order(id) => match order_text(data.orders@, id) {
            Some(t) => t,
            None => seq![],
        },
        EditTarget::Purpose => text_or_empty(data.purpose),
    }
}

/// The text of an optional field.
pub open spec fn opt_text(value: Option<String>) -> Option<Seq<char>> {
    match value {
        Some(s) => Some(s@),
        None => None,
    }
}

/// A text, or nothing when it is empty.
pub open spec fn spec_non_empty(value: Seq<char>) -> Option<Seq<char>> {
    if value.len() == 0 {
        None
    } else {
        Some(value)
    }
}

fn clone_opt(value: &Option<String>) -> (r: Option<String>)
    ensures
        opt_text(r) == opt_text(*value),
{
    match value {
        Some(s) => Some(s.clone()),
        None => None,
    }
}

impl State {
    pub closed spec fn spec_data(self) -> Data {
        self.data
    }

    pub closed spec fn spec_draft(self) -> Seq<char> {
        self.draft@
    }

    pub closed spec fn spec_editing(self) -> Option<EditTarget> {
        self.editing
    }

    pub closed spec fn spec_picker(self) -> Option<i64> {
        self.picker
    }

    pub closed spec fn spec_show_archive(self) -> bool {
        self.show_archive
    }

    /// Nothing loaded, nothing being edited.
    pub fn new() -> (r: State)
        ensures
            r.spec_draft().len() == 0,
            r.spec_editing() is None,
            r.spec_picker() is None,
            !r.spec_show_archive(),
    {
        State { data: Data::empty(), draft: String::new(), editing: None, picker: None, show_archive: false }
    }

    /// Shows freshly loaded data with the editor, picker and archive closed.
    pub fn reset(&mut self, data: Data)
        ensures
            final(self).spec_data() == data,
            final(self).spec_draft().len() == 0,
            final(self).spec_editing() is None,
            final(self).spec_picker() is None,
            !final(self).spec_show_archive(),
    {
        self.data = data;
        self.draft = String::new();
        self.editing = None;
        self.picker = None;
        self.show_archive = false;
    }

    /// The editor's text.
    pub fn draft(&self) -> (r: &str)
        ensures
            r@ == self.spec_draft(),
    {
        self.draft.as_str()
    }

    /// What the editor is editing.
    pub fn editing(&self) -> (r: Option<EditTarget>)
        ensures
            r == self.spec_editing(),
    {
        self.editing
    }

    /// The order whose objective picker is open.
    pub fn picker(&self) -> (r: Option<i64>)
        ensures
            r == self.spec_picker(),
    {
        self.picker
    }

    /// Whether finished orders show.
    pub fn show_archive(&self) -> (r: bool)
        ensures
            r == self.spec_show_archive(),
    {
        self.show_archive
    }

    /// Whether the editor is on `target`.
    pub fn is_editing(&self, target: EditTarget) -> (r: bool)
        ensures
            r == (self.spec_editing() == Some(target)),
    {
        match self.editing {
            Some(t) => t == target,
            None => false,
        }
    }

    /// The objectives the picker lists: the active ones, in order.
    pub fn active_objectives(&self) -> (r: Vec<i64>)
        ensures
            forall|id: i64| r@.contains(id) <==> exists|k: int|
                0 <= k < self.spec_data().objectives@.len() && (#[trigger] self.spec_data().objectives@[k]).id == id
                    && self.spec_data().objectives@[k].status == ObjectiveStatus::Active,
    {
        let objectives = &self.data.objectives;
        let mut out: Vec<i64> = Vec::new();
        let mut i: usize = 0;
        while i < objectives.len()
            invariant
                i <= objectives.len(),
                objectives@ == self.spec_data().objectives@,
                forall|id: i64| out@.contains(id) <==> exists|k: int|
                    0 <= k < i && (#[trigger] objectives@[k]).id == id && objectives@[k].status == ObjectiveStatus::Active,
            decreases objectives.len() - i,
        {
            let ghost before = out@;
            if objectives[i].status == ObjectiveStatus::Active {
                out.push(objectives[i].id);
            }
            proof {
                assert forall|id: i64| out@.contains(id) <==> exists|k: int|
                    0 <= k < i + 1 && (#[trigger] objectives@[k]).id == id && objectives@[k].status == ObjectiveStatus::Active by {
                    if out@.contains(id) {
                        let j = choose|j: int| 0 <= j < out@.len() && out@[j] == id;
                        if j < before.len() {
                            assert(before.contains(id));
                        } else {
                            assert(objectives@[i as int].id == id);
                        }
                    }
                    if exists|k: int| 0 <= k < i + 1 && (#[trigger] objectives@[k]).id == id && objectives@[k].status == ObjectiveStatus::Active {
                        let k = choose|k: int| 0 <= k < i + 1 && (#[trigger] objectives@[k]).id == id && objectives@[k].status == ObjectiveStatus::Active;
                        if k < i {
                            assert(before.contains(id));
                            let j = choose|j: int| 0 <= j < before.len() && before[j] == id;
                            assert(out@[j] == id);
                        } else {
                            assert(out@[out@.len() - 1] == id);
                        }
                    }
                }
            }
            i = i + 1;
        }
        out
    }

    /// The text the editor opens with for `target`.
    pub fn current_value(&self, target: EditTarget) -> (r: String)
        ensures
            r@ == spec_current_value(self.spec_data(), target),
    {
        match target {
            EditTarget::NearTerm => match &self.data.near_term {
                Some(t) => t.clone(),
                None => String::new(),
            },
            EditTarget::Purpose => match &self.data.purpose {
                Some(t) => t.clone(),
                None => String::new(),
            },
            EditTarget::Order(id) => {
                let orders = &self.data.orders;
                let mut i: usize = 0;
                assert(orders@.skip(0) =~= orders@);
                while i < orders.len()
                    invariant
                        i <= orders.len(),
                        orders@ == self.spec_data().orders@,
                        target == EditTarget::Order(id),
                        order_text(orders@, id) == order_text(orders@.skip(i as int), id),
                    decreases orders.len() - i,
                {
                    assert(orders@.skip(i as int).drop_first() =~= orders@.skip(i + 1));
                    if orders[i].id == id {
                        assert(orders@.skip(i as int)[0] == orders@[i as int]);
                        return orders[i].text.clone();
                    }
                    i = i + 1;
                }
                String::new()
            },
        }
    }
}

impl Default for State {
    fn default() -> (r: State)
        ensures
            r.spec_draft().len() == 0,
            r.spec_editing() is None,
            r.spec_picker() is None,
            !r.spec_show_archive(),
    {
        State::new()
    }
}

/// The dossier's next state, and what to store when a message changes stored data.
///
/// Starting an edit opens the editor on the field's current value; committing closes it and
/// stores the trimmed text (an emptied brief field is stored as cleared, an order keeps its
/// text as trimmed); cancelling closes and empties it. Picking or clearing an objective closes
/// the picker; toggling the picker opens it on an order or closes it when it was open there.
pub fn update(state: &mut State, message: Message) -> (r: Option<PersistOp>)
    ensures
        match message {
            Message::AddOrder => r matches Some(PersistOp::AddOrder) && *final(state) == *old(state),
            Message::CancelEdit => r is None && final(state).spec_editing() is None && final(state).spec_draft().len() == 0
                && final(state).spec_data() == old(state).spec_data() && final(state).spec_picker() == old(state).spec_picker(),
            Message::ClearObjective(id) => (r matches Some(PersistOp::ClearObjective(i)) && i == id)
                && final(state).spec_picker() is None && final(state).spec_editing() == old(state).spec_editing(),
            Message::CommitEdit => match old(state).spec_editing() {
                None => r is None && *final(state) == *old(state),
                Some(target) => {
                    let text = trimmed(old(state).spec_draft());
                    &&& final(state).spec_editing() is None
                    &&& final(state).spec_draft().len() == 0
                    &&& final(state).spec_data() == old(state).spec_data()
                    &&& final(state).spec_picker() == old(state).spec_picker()
                    &&& final(state).spec_show_archive() == old(state).spec_show_archive()
                    &&& match target {
                        EditTarget::NearTerm => r matches Some(PersistOp::Brief { near_term, purpose })
                            && opt_text(near_term) == spec_non_empty(text) && opt_text(purpose) == opt_text(old(state).spec_data().purpose),
                        EditTarget::Purpose => r matches Some(PersistOp::Brief { near_term, purpose })
                            && opt_text(purpose) == spec_non_empty(text) && opt_text(near_term) == opt_text(old(state).spec_data().near_term),
                        EditTarget::Order(id) => r matches Some(PersistOp::EditOrder { id: i, text: t }) && i == id && t@ == text,
                    }
                },
            },
            Message::DraftChanged(value) => r is None && final(state).spec_draft() == value@
                && final(state).spec_editing() == old(state).spec_editing(),
            Message::PickObjective { objective, order } => (r matches Some(PersistOp::SetObjective { id, objective: o }) && id == order && o == objective)
                && final(state).spec_picker() is None,
            Message::Reloaded(data) => r is None && final(state).spec_data() == data
                && final(state).spec_editing() == old(state).spec_editing() && final(state).spec_draft() == old(state).spec_draft(),
            Message::RemoveOrder(id) => (r matches Some(PersistOp::RemoveOrder(i)) && i == id) && *final(state) == *old(state),
            Message::SetStatus { id, status } => (r matches Some(PersistOp::SetStatus { id: i, status: s }) && i == id && s == status)
                && *final(state) == *old(state),
            Message::StartEdit(target) => r is None && final(state).spec_editing() == Some(target)
                && final(state).spec_draft() == spec_current_value(old(state).spec_data(), target)
                && final(state).spec_data() == old(state).spec_data(),
            Message::ToggleArchive => r is None && final(state).spec_show_archive() == !old(state).spec_show_archive(),
            Message::TogglePicker(id) => r is None && final(state).spec_picker() == (if old(state).spec_picker() == Some(id) {
                None
            } else {
                Some(id)
            }),
        },
        !(message is Reloaded) ==> final(state).spec_data() == old(state).spec_data(),
        !(message is ToggleArchive) ==> final(state).spec_show_archive() == old(state).spec_show_archive(),
        !(message is TogglePicker || message is PickObjective || message is ClearObjective)
            ==> final(state).spec_picker() == old(state).spec_picker(),
        !(message is StartEdit || message is CancelEdit || message is CommitEdit)
            ==> final(state).spec_editing() == old(state).spec_editing(),
        !(message is StartEdit || message is CancelEdit || message is CommitEdit || message is DraftChanged)
            ==> final(state).spec_draft() == old(state).spec_draft(),
{
    match message {
        Message::AddOrder => Some(PersistOp::AddOrder),
        Message::CancelEdit => {
            state.editing = None;
            state.draft = String::new();
            None
        },
        Message::ClearObjective(id) => {
            state.picker = None;
            Some(PersistOp::ClearObjective(id))
        },
        Message::CommitEdit => commit_edit(state),
        Message::DraftChanged(value) => {
            state.draft = value;
            None
        },
        Message::PickObjective { objective, order } => {
            state.picker = None;
            Some(PersistOp::SetObjective { id: order, objective })
        },
        Message::Reloaded(data) => {
            state.data = data;
            None
        },
        Message::RemoveOrder(id) => Some(PersistOp::RemoveOrder(id)),
        Message::SetStatus { id, status } => Some(PersistOp::SetStatus { id, status }),
        Message::StartEdit(target) => {
            state.draft = state.current_value(target);
            state.editing = Some(target);
            None
        },
        Message::ToggleArchive => {
            state.show_archive = !state.show_archive;
            None
        },
        Message::TogglePicker(id) => {
            state.picker = match state.picker {
                Some(p) => if p == id {
                    None
                } else {
                    Some(id)
                },
                None => Some(id),
            };
            None
        },
    }
}

fn non_empty(value: Vec<char>) -> (r: Option<String>)
    ensures
        opt_text(r) == spec_non_empty(value@),
{
    if value.len() == 0 {
        None
    } else {
        Some(string_from_chars(&value))
    }
}

fn commit_edit(state: &mut State) -> (r: Option<PersistOp>)
    ensures
        match old(state).spec_editing() {
            None => r is None && *final(state) == *old(state),
            Some(target) => {
                let text = trimmed(old(state).spec_draft());
                &&& final(state).spec_editing() is None
                &&& final(state).spec_draft().len() == 0
                &&& final(state).spec_data() == old(state).spec_data()
                &&& final(state).spec_picker() == old(state).spec_picker()
                &&& final(state).spec_show_archive() == old(state).spec_show_archive()
                &&& match target {
                    EditTarget::NearTerm => r matches Some(PersistOp::Brief { near_term, purpose })
                        && opt_text(near_term) == spec_non_empty(text) && opt_text(purpose) == opt_text(old(state).spec_data().purpose),
                    EditTarget::Purpose => r matches Some(PersistOp::Brief { near_term, purpose })
                        && opt_text(purpose) == spec_non_empty(text) && opt_text(near_term) == opt_text(old(state).spec_data().near_term),
                    EditTarget::Order(id) => r matches Some(PersistOp::EditOrder { id: i, text: t }) && i == id && t@ == text,
                }
            },
        },
{
    let target = match state.editing {
        Some(t) => t,
        None => return None,
    };
    state.editing = None;
    let text = trimmed_chars(state.draft.as_str());
    state.draft = String::new();
    match target {
        EditTarget::NearTerm => Some(PersistOp::Brief { near_term: non_empty(text), purpose: clone_opt(&state.data.purpose) }),
        EditTarget::Order(id) => Some(PersistOp::EditOrder { id, text: string_from_chars(&text) }),
        EditTarget::Purpose => Some(PersistOp::Brief { near_term: clone_opt(&state.data.near_term), purpose: non_empty(text) }),
    }
}

/// The time left on a skill, from the whole minutes left: `None` once none are left (the
/// card then says done); otherwise days and hours from a day on, hours and minutes from an
/// hour on, else minutes.
pub open spec fn spec_remaining(total_minutes: int) -> Option<Seq<char>> {
    if total_minutes <= 0 {
        None
    } else {
        let days = total_minutes / 1440;
        let hours = (total_minutes % 1440) / 60;
        let minutes = total_minutes % 60;
        if days > 0 {
            Some(decimal(days as nat) + "d "@ + decimal(hours as nat) + "h"@)
        } else if hours > 0 {
            Some(decimal(hours as nat) + "h "@ + decimal(minutes as nat) + "m"@)
        } else {
            Some(decimal(minutes as nat) + "m"@)
        }
    }
}

/// The time left on a skill, from the whole minutes left: `None` once none are left.
pub fn format_remaining(total_minutes: i64) -> (r: Option<String>)
    ensures
        opt_text(r) == spec_remaining(total_minutes as int),
{
    if total_minutes <= 0 {
        return None;
    }
    let m = total_minutes as u64;
    let days = m / 1440;
    let hours = (m % 1440) / 60;
    let minutes = m % 60;
    let mut v: Vec<char> = Vec::new();
    if days > 0 {
        let mut d = decimal_chars(days);
        v.append(&mut d);
        push_str(&mut v, "d ");
        let mut h = decimal_chars(hours);
        v.append(&mut h);
        push_str(&mut v, "h");
    } else if hours > 0 {
        let mut h = decimal_chars(hours);
        v.append(&mut h);
        push_str(&mut v, "h ");
        let mut mm = decimal_chars(minutes);
        v.append(&mut mm);
        push_str(&mut v, "m");
    } else {
        let mut mm = decimal_chars(minutes);
        v.append(&mut mm);
        push_str(&mut v, "m");
    }
    Some(string_from_chars(&v))
}

} // verus!
