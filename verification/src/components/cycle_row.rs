//! A row that steps through values with a previous and a next button.

use vstd::prelude::*;

verus! {

/// A cycling row; a direction without a message is disabled.
pub struct CycleRow<'a, Message> {
    pub title: &'a str,
    pub value: &'a str,
    pub previous: Option<Message>,
    pub next: Option<Message>,
}

impl<'a, Message> CycleRow<'a, Message> {
    /// An empty row with both directions disabled.
    pub fn new() -> (row: Self)
        ensures
            row.title@ == ""@,
            row.value@ == ""@,
            row.previous.is_none(),
            row.next.is_none(),
    {
        CycleRow { title: "", value: "", previous: None, next: None }
    }

    pub fn title(self, title: &'a str) -> (row: Self)
        ensures
            row == (CycleRow { title, ..self }),
    {
        CycleRow { title, ..self }
    }

    pub fn value(self, value: &'a str) -> (row: Self)
        ensures
            row == (CycleRow { value, ..self }),
    {
        CycleRow { value, ..self }
    }

    /// Enables the previous button with this message.
    pub fn on_previous(self, previous: Message) -> (row: Self)
        ensures
            row == (CycleRow { previous: Some(previous), ..self }),
    {
        CycleRow { previous: Some(previous), ..self }
    }

    /// Enables the next button with this message.
    pub fn on_next(self, next: Message) -> (row: Self)
        ensures
            row == (CycleRow { next: Some(next), ..self }),
    {
        CycleRow { next: Some(next), ..self }
    }
}

} // verus!
