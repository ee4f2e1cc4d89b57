//! A small map from question id to answer text, viewed as a `Map` over character sequences.

use vstd::prelude::*;
use crate::scopes::str_eq;

verus! {

/// The map an entry list stands for: later entries win.
pub open spec fn entries_map(entries: Seq<(String, String)>) -> Map<Seq<char>, Seq<char>>
    decreases entries.len(),
{
    if entries.len() == 0 {
        Map::empty()
    } else {
        entries_map(entries.drop_last()).insert(entries.last().0@, entries.last().1@)
    }
}

/// The entries whose id is not `id`, in order.
pub open spec fn without_id(entries: Seq<(String, String)>, id: Seq<char>) -> Seq<(String, String)>
    decreases entries.len(),
{
    if entries.len() == 0 {
        seq![]
    } else if entries.last().0@ == id {
        without_id(entries.drop_last(), id)
    } else {
        without_id(entries.drop_last(), id).push(entries.last())
    }
}

/// The map of the entries without id `id` is the map of all entries with `id` removed.
pub proof fn lemma_without_id(entries: Seq<(String, String)>, id: Seq<char>)
    ensures
        entries_map(without_id(entries, id)) == entries_map(entries).remove(id),
    decreases entries.len(),
{
    if entries.len() > 0 {
        lemma_without_id(entries.drop_last(), id);
        if entries.last().0@ == id {
            assert(entries_map(entries).remove(id) =~= entries_map(entries.drop_last()).remove(id));
        } else {
            let w = without_id(entries.drop_last(), id);
            assert(w.push(entries.last()).drop_last() =~= w);
            assert(entries_map(entries).remove(id) =~= entries_map(entries.drop_last()).remove(id).insert(
                entries.last().0@,
                entries.last().1@,
            ));
        }
    } else {
        assert(entries_map(entries).remove(id) =~= Map::<Seq<char>, Seq<char>>::empty());
    }
}

/// Answers keyed by question id.
#[derive(Clone, Debug)]
pub struct AnswerMap {
    entries: Vec<(String, String)>,
}

impl View for AnswerMap {
    type V = Map<Seq<char>, Seq<char>>;

    closed spec fn view(&self) -> Map<Seq<char>, Seq<char>> {
        entries_map(self.entries@)
    }
}

impl AnswerMap {
    /// No answers.
    pub fn new() -> (r: AnswerMap)
        ensures
            r@ == Map::<Seq<char>, Seq<char>>::empty(),
    {
        let r = AnswerMap { entries: Vec::new() };
        proof {
            assert(r.entries@.len() == 0);
        }
        r
    }

    /// The answer stored under `id`.
    pub fn get(&self, id: &str) -> (r: Option<&String>)
        ensures
            r matches Some(v) ==> self@.contains_key(id@) && self@[id@] == v@,
            r is None ==> !self@.contains_key(id@),
    {
        let mut i: usize = self.entries.len();
        assert(self.entries@.take(i as int) =~= self.entries@);
        while i > 0
            invariant
                i <= self.entries.len(),
                entries_map(self.entries@).contains_key(id@) == entries_map(self.entries@.take(i as int)).contains_key(id@),
                entries_map(self.entries@.take(i as int)).contains_key(id@) ==> entries_map(self.entries@)[id@] == entries_map(self.entries@.take(i as int))[id@],
            decreases i,
        {
            let ghost t = self.entries@.take(i as int);
            assert(t.drop_last() =~= self.entries@.take(i - 1));
            if str_eq(self.entries[i - 1].0.as_str(), id) {
                return Some(&self.entries[i - 1].1);
            }
            i = i - 1;
        }
        assert(self.entries@.take(0).len() == 0);
        None
    }

    /// Whether an answer is stored under `id`.
    pub fn contains(&self, id: &str) -> (r: bool)
        ensures
            r == self@.contains_key(id@),
    {
        match self.get(id) {
            Some(_) => true,
            None => false,
        }
    }

    /// Drops the answer stored under `id`.
    pub fn remove(&mut self, id: &str)
        ensures
            final(self)@ == old(self)@.remove(id@),
    {
        let ghost old_entries = self.entries@;
        let mut kept: Vec<(String, String)> = Vec::new();
        let mut i: usize = 0;
        while i < self.entries.len()
            invariant
                i <= self.entries.len(),
                self.entries@ == old_entries,
                kept@ == without_id(old_entries.take(i as int), id@),
            decreases self.entries.len() - i,
        {
            assert(old_entries.take(i + 1).drop_last() =~= old_entries.take(i as int));
            if !str_eq(self.entries[i].0.as_str(), id) {
                let entry = (self.entries[i].0.clone(), self.entries[i].1.clone());
                kept.push(entry);
            }
            i = i + 1;
        }
        assert(old_entries.take(old_entries.len() as int) =~= old_entries);
        self.entries = kept;
        proof {
            lemma_without_id(old_entries, id@);
        }
    }

    /// Stores `value` under `id`, replacing an earlier answer.
    pub fn insert(&mut self, id: String, value: String)
        ensures
            final(self)@ == old(self)@.insert(id@, value@),
    {
        self.remove(id.as_str());
        let ghost before = self.entries@;
        self.entries.push((id, value));
        proof {
            assert(self.entries@.drop_last() =~= before);
            assert(self@ =~= old(self)@.remove(id@).insert(id@, value@));
            assert(old(self)@.remove(id@).insert(id@, value@) =~= old(self)@.insert(id@, value@));
        }
    }
}

} // verus!
