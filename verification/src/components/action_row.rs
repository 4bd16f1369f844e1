//! A list row with a title, a description, an optional icon and an action.

use vstd::prelude::*;
use crate::icons::Icon;

verus! {

/// Whether the row's action can be taken.
#[derive(Debug, Clone, Copy, PartialEq, Eq)]
pub enum State<Message> {
    /// Pressing the row sends the message.
    Ready(Message),
    /// The row is shown but cannot be pressed.
    Disabled,
}

/// An action row under construction.
pub struct ActionRow<'a, Message> {
    pub title: &'a str,
    pub description: &'a str,
    pub icon: Option<Icon>,
    pub state: State<Message>,
}

impl<'a, Message> ActionRow<'a, Message> {
    /// A row with this title and state, no description and no icon.
    pub fn new(title: &'a str, state: State<Message>) -> (row: Self)
        ensures
            row.title == title,
            row.description@ == ""@,
            row.icon.is_none(),
            row.state == state,
    {
        ActionRow { title, description: "", icon: None, state }
    }

    pub fn description(self, description: &'a str) -> (row: Self)
        ensures
            row == (ActionRow { description, ..self }),
    {
        ActionRow { description, ..self }
    }

    pub fn icon(self, icon: Icon) -> (row: Self)
        ensures
            row == (ActionRow { icon: Some(icon), ..self }),
    {
        ActionRow { icon: Some(icon), ..self }
    }

    /// The message a press sends: only a ready row sends one.
    pub fn on_press(&self) -> (res: Option<&Message>)
        ensures
            match self.state {
                State::Ready(message) => res == Some(&message),
                State::Disabled => res.is_none(),
            },
    {
        match &self.state {
            State::Ready(message) => Some(message),
            State::Disabled => None,
        }
    }
}

} // verus!
