//! The tabs of a corporation's detail view.

use vstd::prelude::*;

verus! {

/// A tab of the corporation detail view.
#[derive(Clone, Copy, Debug, PartialEq, Eq, Structural)]
pub enum Tab {
    Contacts,
    Killlog,
    Standings,
}

impl Tab {
    /// The tabs in strip order.
    pub const ORDER: [Tab; 3] = [Tab::Contacts, Tab::Killlog, Tab::Standings];

    /// The i18n key of the tab's title.
    pub fn label_key(self) -> (r: &'static str)
        ensures
            r@ == (match self {
                Tab::Contacts => "roster.corporation.tab_contacts"@,
                Tab::Killlog => "roster.corporation.tab_killlog"@,
                Tab::Standings => "roster.corporation.tab_standings"@,
            }),
    {
        match self {
            Tab::Contacts => "roster.corporation.tab_contacts",
            Tab::Killlog => "roster.corporation.tab_killlog",
            Tab::Standings => "roster.corporation.tab_standings",
        }
    }
}

} // verus!
