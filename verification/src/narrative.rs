//! The day's narrative: the one-line story of the day, shown as a quote and edited in place.

use vstd::prelude::*;
use crate::text::{blank, is_blank, lemma_trimmed_blank_is_empty, lemma_trimmed_empty_iff_blank, non_blank, trimmed};

verus! {

/// What reaches the narrative hero.
#[derive(Debug)]
pub enum Message {
    Cancelled,
    DraftChanged(String),
    EditRequested,
    SaveRequested,
    /// What a save stored (`None` when it cleared the narrative), or why it failed.
    Saved(Result<Option<String>, String>),
    WriteRequested,
}

/// The narrative hero: the stored text when it is not blank, and the editor's state.
#[derive(Clone, Debug)]
pub struct State {
    draft: String,
    editing: bool,
    text: Option<String>,
}

/// A stored text kept only when it is not blank.
pub open spec fn kept_text(value: Option<String>) -> Option<Seq<char>> {
    match value {
        Some(v) => if blank(v@) {
            None
        } else {
            Some(v@)
        },
        None => None,
    }
}

/// The value a draft is stored as: trimmed, or nothing when blank.
pub open spec fn spec_draft_value(draft: Seq<char>) -> Option<Seq<char>> {
    if blank(draft) {
        None
    } else {
        Some(trimmed(draft))
    }
}

fn keep_non_blank(value: Option<String>) -> (r: Option<String>)
    ensures
        kept_text(r) == kept_text(value),
        match r {
            Some(t) => !blank(t@),
            None => true,
        },
{
    match value {
        Some(v) => if is_blank(v.as_str()) {
            None
        } else {
            Some(v)
        },
        None => None,
    }
}

impl State {
    pub closed spec fn spec_text(self) -> Option<Seq<char>> {
        kept_text(self.text)
    }

    pub closed spec fn spec_draft(self) -> Seq<char> {
        self.draft@
    }

    pub closed spec fn spec_editing(self) -> bool {
        self.editing
    }

    /// The hero for a day whose stored narrative is `narrative`; a blank one counts as none.
    pub fn new(narrative: Option<String>) -> (r: State)
        ensures
            r.spec_text() == kept_text(narrative),
            !r.spec_editing(),
            r.spec_draft().len() == 0,
    {
        State { draft: String::new(), editing: false, text: keep_non_blank(narrative) }
    }

    /// Whether there is a narrative to show.
    pub fn has_text(&self) -> (r: bool)
        ensures
            r == self.spec_text() is Some,
    {
        match &self.text {
            Some(t) => !is_blank(t.as_str()),
            None => false,
        }
    }

    /// The narrative shown, when there is one.
    pub fn text(&self) -> (r: Option<&String>)
        ensures
            match r {
                Some(t) => self.spec_text() == Some(t@),
                None => self.spec_text() is None,
            },
    {
        match &self.text {
            Some(t) => if is_blank(t.as_str()) {
                None
            } else {
                Some(t)
            },
            None => None,
        }
    }

    /// The editor's text.
    pub fn draft(&self) -> (r: &str)
        ensures
            r@ == self.spec_draft(),
    {
        self.draft.as_str()
    }

    /// Whether the editor is open.
    pub fn is_editing(&self) -> (r: bool)
        ensures
            r == self.spec_editing(),
    {
        self.editing
    }

    /// The value the current draft would be stored as.
    pub fn draft_value(&self) -> (r: Option<String>)
        ensures
            match r {
                Some(v) => spec_draft_value(self.spec_draft()) == Some(v@),
                None => spec_draft_value(self.spec_draft()) is None,
            },
    {
        non_blank(self.draft.as_str())
    }
}

/// How a message moves the hero from `before` to `after`, returning `r`.
pub open spec fn stepped(before: State, message: Message, after: State, r: Option<Option<String>>) -> bool {
    match message {
        Message::Cancelled => r is None && !after.spec_editing() && after.spec_draft().len() == 0
            && after.spec_text() == before.spec_text(),
        Message::DraftChanged(value) => r is None && after.spec_draft() == value@
            && after.spec_editing() == before.spec_editing() && after.spec_text() == before.spec_text(),
        Message::EditRequested => r is None && after.spec_editing() && after.spec_text() == before.spec_text()
            && after.spec_draft() == (match before.spec_text() {
                Some(t) => t,
                None => Seq::<char>::empty(),
            }),
        Message::WriteRequested => r is None && after.spec_editing() && after.spec_draft().len() == 0
            && after.spec_text() == before.spec_text(),
        Message::SaveRequested => (r matches Some(value) && match value {
            Some(v) => spec_draft_value(before.spec_draft()) == Some(v@),
            None => spec_draft_value(before.spec_draft()) is None,
        }) && after.spec_draft() == before.spec_draft() && after.spec_editing() == before.spec_editing()
            && after.spec_text() == before.spec_text(),
        Message::Saved(Ok(value)) => r is None && after.spec_text() == kept_text(value) && !after.spec_editing()
            && after.spec_draft().len() == 0,
        Message::Saved(Err(_)) => r is None && after.spec_text() == before.spec_text()
            && after.spec_editing() == before.spec_editing() && after.spec_draft() == before.spec_draft(),
    }
}

/// The hero's next state, and the value to store when the pilot asked to save.
///
/// Editing opens the editor on the stored text (writing opens it empty); cancelling closes and
/// empties it; a save asks to store the trimmed draft, `None` when blank; a save that went
/// through shows what was stored and closes the editor, and a failed one changes nothing.
pub fn update(state: &mut State, message: Message) -> (r: Option<Option<String>>)
    ensures
        stepped(*old(state), message, *final(state), r),
{
    match message {
        Message::Cancelled => {
            state.editing = false;
            state.draft = String::new();
            None
        },
        Message::DraftChanged(value) => {
            state.draft = value;
            None
        },
        Message::EditRequested => {
            let draft = match &state.text {
                Some(t) => if is_blank(t.as_str()) {
                    String::new()
                } else {
                    t.clone()
                },
                None => String::new(),
            };
            state.draft = draft;
            state.editing = true;
            None
        },
        Message::SaveRequested => Some(state.draft_value()),
        Message::Saved(result) => {
            match result {
                Ok(value) => {
                    state.text = keep_non_blank(value);
                    state.editing = false;
                    state.draft = String::new();
                },
                Err(_) => {},
            }
            None
        },
        Message::WriteRequested => {
            state.draft = String::new();
            state.editing = true;
            None
        },
    }
}

/// Storing what a save asked for and reporting it saved shows the trimmed draft, or no
/// narrative for a blank one, with the editor closed.
pub proof fn lemma_saved_narrative_shows_draft(before: State, mid: State, after: State, value: Option<String>)
    requires
        stepped(before, Message::SaveRequested, mid, Some(value)),
        stepped(mid, Message::Saved(Ok(value)), after, None),
    ensures
        after.spec_text() == spec_draft_value(before.spec_draft()),
        !after.spec_editing(),
{
    if let Some(v) = value {
        lemma_trimmed_empty_iff_blank(before.spec_draft());
        lemma_trimmed_blank_is_empty(before.spec_draft());
        assert(!blank(v@));
    }
}

} // verus!
