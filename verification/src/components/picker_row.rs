//! A row that opens a file or folder picker.

use vstd::prelude::*;

verus! {

/// A picker row; without a message it cannot be pressed.
pub struct PickerRow<'a, Message> {
    pub title: &'a str,
    pub description: &'a str,
    pub on_press: Option<Message>,
}

impl<'a, Message> PickerRow<'a, Message> {
    /// An empty row that cannot be pressed.
    pub fn new() -> (row: Self)
        ensures
            row.title@ == ""@,
            row.description@ == ""@,
            row.on_press.is_none(),
    {
        PickerRow { title: "", description: "", on_press: None }
    }

    pub fn title(self, title: &'a str) -> (row: Self)
        ensures
            row == (PickerRow { title, ..self }),
    {
        PickerRow { title, ..self }
    }

    pub fn description(self, description: &'a str) -> (row: Self)
        ensures
            row == (PickerRow { description, ..self }),
    {
        PickerRow { description, ..self }
    }

    /// Sends this message when the row is pressed.
    pub fn on_press(self, on_press: Message) -> (row: Self)
        ensures
            row == (PickerRow { on_press: Some(on_press), ..self }),
    {
        PickerRow { on_press: Some(on_press), ..self }
    }
}

} // verus!
