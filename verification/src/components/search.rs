//! The search field's rules: when its result panel opens, and the action a
//! result offers.

use vstd::prelude::*;
use crate::format::{trim_spec, trimmed};

verus! {

/// What a search result lets the user do.
#[derive(Debug, Clone, Copy, PartialEq, Eq, Structural)]
pub enum Action {
    Install,
    Run,
}

impl Action {
    pub open spec fn label_spec(self) -> Seq<char> {
        match self {
            Action::Install => "Install"@,
            Action::Run => "Run"@,
        }
    }

    /// The text on the action's button.
    pub fn label(self) -> (res: &'static str)
        ensures
            res@ == self.label_spec(),
    {
        match self {
            Action::Install => "Install",
            Action::Run => "Run",
        }
    }
}

/// Whether the result panel opens: only where the search offers results and
/// the query holds more than whitespace.
pub open spec fn should_expand_spec(query: Seq<char>, expandable: bool) -> bool {
    expandable && trim_spec(query).len() > 0
}

/// Whether the result panel opens for this query.
pub fn should_expand(query: &str, expandable: bool) -> (res: bool)
    ensures
        res == should_expand_spec(query@, expandable),
{
    if !expandable {
        return false;
    }
    let trimmed_query = trimmed(query);
    trimmed_query.as_str().unicode_len() > 0
}

/// One result of a search.
pub struct SearchResultRow<'a, Message> {
    pub title: &'a str,
    pub action: Option<Action>,
    pub on_press: Message,
}

impl<'a, Message> SearchResultRow<'a, Message> {
    /// A result with this title that sends `on_press` when chosen.
    pub fn new(title: &'a str, on_press: Message) -> (row: Self)
        ensures
            row.title == title,
            row.action.is_none(),
            row.on_press == on_press,
    {
        SearchResultRow { title, action: None, on_press }
    }

    /// Offers this action beside the title.
    pub fn action(self, action: Action) -> (row: Self)
        ensures
            row == (SearchResultRow { action: Some(action), ..self }),
    {
        SearchResultRow { action: Some(action), ..self }
    }
}

} // verus!
