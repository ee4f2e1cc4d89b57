//! The roster's top tab strip: what each tab shows and whether pressing it does anything.

use vstd::prelude::*;

verus! {

/// One tab of the roster strip: its title, its count, the message pressing it sends (none for
/// the selected tab) and whether it is selected.
#[derive(Clone, Debug)]
pub struct Tab<M> {
    pub count: String,
    pub label: String,
    pub on_press: Option<M>,
    pub selected: bool,
}

impl<M> Tab<M> {
    /// A tab that sends `message` when pressed, unless it is the selected one.
    pub fn new(label: String, count: String, selected: bool, message: M) -> (r: Tab<M>)
        ensures
            r.label@ == label@,
            r.count@ == count@,
            r.selected == selected,
            selected ==> r.on_press is None,
            !selected ==> r.on_press == Some(message),
    {
        Tab { count, label, on_press: if selected { None } else { Some(message) }, selected }
    }
}

} // verus!
